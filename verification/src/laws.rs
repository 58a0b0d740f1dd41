use vstd::prelude::*;

use crate::block0::utxo_sum;
use crate::block0::Settings;
use crate::block0::UtxoEntry;
use crate::convert::batch_size;
use crate::convert::conv_leftover;
use crate::convert::conv_tx_payload;
use crate::convert::conv_txs;
use crate::convert::dust_of;
use crate::convert::is_dust;
use crate::convert::signed_tx;
use crate::convert::spendable_of;
use crate::keys::KeySet;

verus! {

/// Dust classification is boundary-inclusive: an entry worth exactly the
/// marginal per-input fee is dust, and one worth one unit more is not.
pub proof fn lemma_dust_boundary(coefficient: u64)
    ensures
        is_dust(coefficient, coefficient),
        coefficient < u64::MAX ==> !is_dust((coefficient + 1) as u64, coefficient),
{
}

/// A fund list whose every entry is above the dust bound partitions into
/// itself and no dust.
pub proof fn lemma_all_spendable(entries: Seq<UtxoEntry>, coefficient: u64)
    requires
        forall|k: int| 0 <= k < entries.len() ==> (#[trigger] entries[k]).value > coefficient,
    ensures
        spendable_of(entries, coefficient) == entries,
        dust_of(entries, coefficient) == Seq::<UtxoEntry>::empty(),
    decreases entries.len(),
{
    if entries.len() > 0 {
        lemma_all_spendable(entries.drop_last(), coefficient);
        assert(entries.last() == entries[entries.len() - 1]);
        assert(spendable_of(entries, coefficient) =~= entries);
    } else {
        assert(spendable_of(entries, coefficient) =~= entries);
        assert(dust_of(entries, coefficient) =~= Seq::<UtxoEntry>::empty());
    }
}

/// The round trip of discovery and conversion: funds of at most one batch,
/// each entry above the dust bound, whose total exceeds the fee of one
/// transaction, convert into exactly one transaction paying the total
/// minus that fee, with nothing ignored.
pub proof fn lemma_convert_single_batch(
    entries: Seq<UtxoEntry>,
    s: Settings,
    keypair: Seq<u8>,
    dest: Seq<u8>,
)
    requires
        0 < entries.len() <= 255,
        forall|k: int| 0 <= k < entries.len() ==> (#[trigger] entries[k]).value
            > s.fee_coefficient,
        utxo_sum(entries) > s.fee_spec(entries.len() as int, 1, 0),
    ensures
        dust_of(entries, s.fee_coefficient) == Seq::<UtxoEntry>::empty(),
        conv_leftover(spendable_of(entries, s.fee_coefficient), s) == Seq::<UtxoEntry>::empty(),
        conv_txs(spendable_of(entries, s.fee_coefficient), s, keypair, dest) == seq![
            signed_tx(
                keypair,
                conv_tx_payload(
                    entries,
                    s.block0_hash@,
                    dest,
                    (utxo_sum(entries) - s.fee_spec(entries.len() as int, 1, 0)) as u64,
                ),
            ),
        ],
{
    lemma_all_spendable(entries, s.fee_coefficient);
    let k = batch_size(entries.len() as int);
    assert(k == entries.len());
    assert(entries.take(k) =~= entries);
    let rest = entries.skip(k);
    assert(rest =~= Seq::<UtxoEntry>::empty());
    assert(conv_txs(rest, s, keypair, dest) =~= Seq::<Seq<u8>>::empty());
    assert(conv_leftover(rest, s) =~= Seq::<UtxoEntry>::empty());
    let tx = signed_tx(
        keypair,
        conv_tx_payload(
            entries,
            s.block0_hash@,
            dest,
            (utxo_sum(entries) - s.fee_spec(entries.len() as int, 1, 0)) as u64,
        ),
    );
    assert(conv_txs(entries, s, keypair, dest) =~= seq![tx] + Seq::<Seq<u8>>::empty());
    assert(seq![tx] + Seq::<Seq<u8>>::empty() =~= seq![tx]);
}

/// The empty-funds case: a wallet with zero discovered funds converts into
/// zero transactions and an empty ignored report; that is a valid result,
/// not an error.
pub proof fn lemma_convert_empty(s: Settings, keypair: Seq<u8>, dest: Seq<u8>, coefficient: u64)
    ensures
        dust_of(Seq::<UtxoEntry>::empty(), coefficient) == Seq::<UtxoEntry>::empty(),
        spendable_of(Seq::<UtxoEntry>::empty(), coefficient) == Seq::<UtxoEntry>::empty(),
        conv_txs(Seq::<UtxoEntry>::empty(), s, keypair, dest) == Seq::<Seq<u8>>::empty(),
        conv_leftover(Seq::<UtxoEntry>::empty(), s) == Seq::<UtxoEntry>::empty(),
{
}

/// The wallet identifier is a function of the key set alone: identifiers
/// computed twice over equal key sets are identical.
pub proof fn lemma_wallet_id_idempotent(a: KeySet, b: KeySet, id_a: Seq<u8>, id_b: Seq<u8>)
    requires
        a == b,
        id_a == a.id_spec(),
        id_b == b.id_spec(),
    ensures
        id_a == id_b,
{
}

} // verus!
