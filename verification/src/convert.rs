use vstd::bytes::*;
use vstd::prelude::*;

use crate::block0::utxo_sum;
use crate::block0::lemma_utxo_sum_nonneg;
use crate::block0::Settings;
use crate::block0::UtxoEntry;
use crate::crypto::ed25519_sign;
use crate::crypto::ed25519_signature_of;
use crate::errors::WalletError;
use crate::keys::clone_bytes;
use crate::keys::KeySet;

verus! {

/// The most inputs one conversion transaction may carry: its input count
/// is a single byte.
pub const MAX_TRANSACTION_INPUTS: usize = 255;

/// Whether an entry is dust: spending it would cost at least as much in
/// marginal fees as the value it adds, boundary included.
pub open spec fn is_dust(value: u64, coefficient: u64) -> bool {
    value <= coefficient
}

/// The dust entries of a fund list, in order.
pub open spec fn dust_of(entries: Seq<UtxoEntry>, coefficient: u64) -> Seq<UtxoEntry>
    decreases entries.len(),
{
    if entries.len() == 0 {
        Seq::empty()
    } else {
        let pre = dust_of(entries.drop_last(), coefficient);
        if is_dust(entries.last().value, coefficient) {
            pre.push(entries.last())
        } else {
            pre
        }
    }
}

/// The spendable (non-dust) entries of a fund list, in order.
pub open spec fn spendable_of(entries: Seq<UtxoEntry>, coefficient: u64) -> Seq<UtxoEntry>
    decreases entries.len(),
{
    if entries.len() == 0 {
        Seq::empty()
    } else {
        let pre = spendable_of(entries.drop_last(), coefficient);
        if is_dust(entries.last().value, coefficient) {
            pre
        } else {
            pre.push(entries.last())
        }
    }
}

/// Dust and spendable entries together carry exactly the original total.
pub proof fn lemma_partition_sum(entries: Seq<UtxoEntry>, coefficient: u64)
    ensures
        utxo_sum(dust_of(entries, coefficient)) + utxo_sum(spendable_of(entries, coefficient))
            == utxo_sum(entries),
    decreases entries.len(),
{
    if entries.len() > 0 {
        lemma_partition_sum(entries.drop_last(), coefficient);
        if is_dust(entries.last().value, coefficient) {
            assert(dust_of(entries, coefficient).drop_last() =~= dust_of(
                entries.drop_last(),
                coefficient,
            ));
        } else {
            assert(spendable_of(entries, coefficient).drop_last() =~= spendable_of(
                entries.drop_last(),
                coefficient,
            ));
        }
    }
}

/// Summing distributes over concatenation of fund lists.
pub proof fn lemma_utxo_sum_concat(a: Seq<UtxoEntry>, b: Seq<UtxoEntry>)
    ensures
        utxo_sum(a + b) == utxo_sum(a) + utxo_sum(b),
    decreases b.len(),
{
    if b.len() == 0 {
        assert(a + b =~= a);
    } else {
        assert((a + b).drop_last() =~= a + b.drop_last());
        lemma_utxo_sum_concat(a, b.drop_last());
    }
}

/// A prefix and the rest of a fund list sum to the whole.
pub proof fn lemma_utxo_sum_split(s: Seq<UtxoEntry>, k: int)
    requires
        0 <= k <= s.len(),
    ensures
        utxo_sum(s.take(k)) + utxo_sum(s.skip(k)) == utxo_sum(s),
{
    assert(s.take(k) + s.skip(k) =~= s);
    lemma_utxo_sum_concat(s.take(k), s.skip(k));
}

/// The serialized inputs of one transaction: for each spent entry its
/// 4-byte position and its 8-byte value, little-endian, in batch order.
pub open spec fn inputs_bytes(batch: Seq<UtxoEntry>) -> Seq<u8>
    decreases batch.len(),
{
    if batch.len() == 0 {
        Seq::empty()
    } else {
        inputs_bytes(batch.drop_last()) + spec_u32_to_le_bytes(batch.last().index)
            + spec_u64_to_le_bytes(batch.last().value)
    }
}

/// The unsigned body of one conversion transaction: a tag byte, the
/// genesis hash, the input count, the serialized inputs, and a single
/// output paying `out_value` to the account public key.
pub open spec fn conv_tx_payload(
    batch: Seq<UtxoEntry>,
    hash: Seq<u8>,
    dest: Seq<u8>,
    out_value: u64,
) -> Seq<u8> {
    seq![1u8] + hash + seq![batch.len() as u8] + inputs_bytes(batch) + dest
        + spec_u64_to_le_bytes(out_value)
}

/// A signed transaction: the body followed by its Ed25519 signature under
/// the signing keypair.
pub open spec fn signed_tx(keypair: Seq<u8>, payload: Seq<u8>) -> Seq<u8> {
    payload + ed25519_signature_of(keypair, payload)
}

/// How many entries the next batch takes from a spendable list.
pub open spec fn batch_size(remaining: int) -> int {
    if remaining < 255 {
        remaining
    } else {
        255
    }
}

/// The conversion transactions built from a spendable fund list: the list
/// is cut into batches of at most 255 entries in order, and each batch
/// whose total exceeds its fee becomes one transaction paying the total
/// minus the fee to the account key.
pub open spec fn conv_txs(
    spendable: Seq<UtxoEntry>,
    s: Settings,
    keypair: Seq<u8>,
    dest: Seq<u8>,
) -> Seq<Seq<u8>>
    decreases spendable.len(),
{
    if spendable.len() == 0 {
        Seq::empty()
    } else {
        let k = batch_size(spendable.len() as int);
        let batch = spendable.take(k);
        let rest = spendable.skip(k);
        let sum = utxo_sum(batch);
        let fee = s.fee_spec(k, 1, 0);
        if sum > fee {
            seq![signed_tx(keypair, conv_tx_payload(batch, s.block0_hash@, dest, (sum - fee) as u64))]
                + conv_txs(rest, s, keypair, dest)
        } else {
            conv_txs(rest, s, keypair, dest)
        }
    }
}

/// The spendable entries no transaction uses: the batches whose total does
/// not exceed their own fee.
pub open spec fn conv_leftover(spendable: Seq<UtxoEntry>, s: Settings) -> Seq<UtxoEntry>
    decreases spendable.len(),
{
    if spendable.len() == 0 {
        Seq::empty()
    } else {
        let k = batch_size(spendable.len() as int);
        let batch = spendable.take(k);
        let rest = spendable.skip(k);
        if utxo_sum(batch) > s.fee_spec(k, 1, 0) {
            conv_leftover(rest, s)
        } else {
            batch + conv_leftover(rest, s)
        }
    }
}

/// Everything a conversion reports: the signed transactions to submit, the
/// entries left unspent (dust and unprofitable batches), and their total
/// value.
pub struct Conversion {
    pub transactions: Vec<Vec<u8>>,
    pub ignored: Vec<UtxoEntry>,
    pub ignored_total: u64,
}

impl Conversion {
    pub open spec fn wf(self) -> bool {
        self.ignored_total == utxo_sum(self.ignored@)
    }

    /// How many transactions the conversion built.
    pub fn transactions_size(&self) -> (r: usize)
        ensures
            r == self.transactions@.len(),
    {
        self.transactions.len()
    }

    /// A copy of the `index`-th transaction's bytes. Fails exactly when
    /// the index is past the end.
    pub fn transactions_get(&self, index: usize) -> (r: Result<Vec<u8>, WalletError>)
        ensures
            r is Ok <==> index < self.transactions@.len(),
            r matches Ok(t) ==> t@ == self.transactions@[index as int]@,
            r matches Err(e) ==> e == WalletError::OutOfBound,
    {
        if index < self.transactions.len() {
            Ok(clone_bytes(self.transactions[index].as_slice()))
        } else {
            Err(WalletError::OutOfBound)
        }
    }

    /// The total value of the entries left unspent.
    pub fn ignored_value(&self) -> (r: u64)
        requires
            self.wf(),
        ensures
            r == utxo_sum(self.ignored@),
    {
        self.ignored_total
    }

    /// How many entries were left unspent.
    pub fn ignored_count(&self) -> (r: usize)
        ensures
            r == self.ignored@.len(),
    {
        self.ignored.len()
    }
}

/// Append a slice's bytes to a vector.
pub fn push_bytes(out: &mut Vec<u8>, s: &[u8])
    ensures
        final(out)@ == old(out)@ + s@,
{
    let mut i: usize = 0;
    while i < s.len()
        invariant
            i <= s@.len(),
            out@ == old(out)@ + s@.take(i as int),
        decreases s@.len() - i,
    {
        proof {
            assert(old(out)@ + s@.take(i as int) + seq![s@[i as int]] =~= old(out)@ + s@.take(
                i as int + 1,
            ));
        }
        out.push(s[i]);
        i += 1;
    }
    proof {
        assert(old(out)@ + s@.take(s@.len() as int) =~= old(out)@ + s@);
    }
}

/// Build one signed conversion transaction from a batch of entries.
fn build_conv_tx(
    batch: &[UtxoEntry],
    settings: &Settings,
    keypair: &[u8],
    dest: &[u8],
    out_value: u64,
) -> (r: Vec<u8>)
    requires
        keypair@.len() == 64,
        batch@.len() <= 255,
    ensures
        r@ == signed_tx(keypair@, conv_tx_payload(batch@, settings.block0_hash@, dest@, out_value)),
{
    let mut payload: Vec<u8> = Vec::new();
    payload.push(1u8);
    push_bytes(&mut payload, settings.block0_hash.as_slice());
    payload.push(batch.len() as u8);
    proof {
        assert(payload@ =~= seq![1u8] + settings.block0_hash@ + seq![batch@.len() as u8]
            + inputs_bytes(batch@.take(0)));
    }
    let mut j: usize = 0;
    while j < batch.len()
        invariant
            j <= batch@.len(),
            payload@ == seq![1u8] + settings.block0_hash@ + seq![batch@.len() as u8]
                + inputs_bytes(batch@.take(j as int)),
        decreases batch@.len() - j,
    {
        let e = batch[j];
        let idx_bytes = u32_to_le_bytes(e.index);
        push_bytes(&mut payload, idx_bytes.as_slice());
        let val_bytes = u64_to_le_bytes(e.value);
        push_bytes(&mut payload, val_bytes.as_slice());
        proof {
            assert(batch@.take(j as int + 1).drop_last() =~= batch@.take(j as int));
            assert(batch@.take(j as int + 1).last() == batch@[j as int]);
            assert(payload@ =~= seq![1u8] + settings.block0_hash@ + seq![batch@.len() as u8]
                + inputs_bytes(batch@.take(j as int + 1)));
        }
        j += 1;
    }
    proof {
        assert(batch@.take(batch@.len() as int) =~= batch@);
    }
    push_bytes(&mut payload, dest);
    let out_bytes = u64_to_le_bytes(out_value);
    push_bytes(&mut payload, out_bytes.as_slice());
    proof {
        assert(payload@ =~= conv_tx_payload(batch@, settings.block0_hash@, dest@, out_value));
    }
    let signature = ed25519_sign(keypair, payload.as_slice());
    push_bytes(&mut payload, signature.as_slice());
    payload
}

/// Convert discovered funds into signed transactions moving their value to
/// the wallet's account.
///
/// Each entry is classified once: entries at or below the marginal input
/// fee are dust and never spent; the rest are cut into batches, and each
/// batch whose total exceeds its fee becomes one transaction. Dust and
/// unprofitable batches are reported as ignored. Zero funds yield a valid
/// empty conversion.
pub fn convert_funds(entries: &[UtxoEntry], settings: &Settings, keys: &KeySet) -> (r: Conversion)
    requires
        keys.wf(),
        settings.wf(),
        utxo_sum(entries@) <= u64::MAX,
    ensures
        r.wf(),
        r.transactions.deep_view() == conv_txs(
            spendable_of(entries@, settings.fee_coefficient),
            *settings,
            keys.pairs@[0].keypair@,
            keys.pairs@[0].public@,
        ),
        r.ignored@ == dust_of(entries@, settings.fee_coefficient) + conv_leftover(
            spendable_of(entries@, settings.fee_coefficient),
            *settings,
        ),
{
    let ghost coeff = settings.fee_coefficient;
    let mut dust: Vec<UtxoEntry> = Vec::new();
    let mut spend: Vec<UtxoEntry> = Vec::new();
    let mut ignored_total: u64 = 0;
    let mut i: usize = 0;
    while i < entries.len()
        invariant
            i <= entries@.len(),
            coeff == settings.fee_coefficient,
            utxo_sum(entries@) <= u64::MAX,
            dust@ == dust_of(entries@.take(i as int), coeff),
            spend@ == spendable_of(entries@.take(i as int), coeff),
            ignored_total == utxo_sum(dust@),
        decreases entries@.len() - i,
    {
        let e = entries[i];
        proof {
            assert(entries@.take(i as int + 1).drop_last() =~= entries@.take(i as int));
            assert(entries@.take(i as int + 1).last() == entries@[i as int]);
            lemma_partition_sum(entries@.take(i as int + 1), coeff);
            lemma_utxo_sum_nonneg(spendable_of(entries@.take(i as int + 1), coeff));
            lemma_utxo_sum_split(entries@, i as int + 1);
            lemma_utxo_sum_nonneg(entries@.skip(i as int + 1));
            lemma_utxo_sum_nonneg(dust_of(entries@.take(i as int + 1), coeff));
        }
        if e.value <= settings.fee_coefficient {
            dust.push(e);
            proof {
                assert(dust@.drop_last() =~= dust_of(entries@.take(i as int), coeff));
            }
            ignored_total = ignored_total + e.value;
        } else {
            spend.push(e);
            proof {
                assert(spend@.drop_last() =~= spendable_of(entries@.take(i as int), coeff));
            }
        }
        i += 1;
    }
    proof {
        assert(entries@.take(entries@.len() as int) =~= entries@);
    }
    let ghost sp = spend@;
    proof {
        lemma_partition_sum(entries@, coeff);
        lemma_utxo_sum_nonneg(dust_of(entries@, coeff));
        lemma_utxo_sum_nonneg(sp);
    }

    let keypair = &keys.pairs[0].keypair;
    let dest = &keys.pairs[0].public;
    let mut txs: Vec<Vec<u8>> = Vec::new();
    let mut leftover: Vec<UtxoEntry> = Vec::new();
    let mut leftover_total: u64 = 0;
    let sp_len = spend.len();
    proof {
        assert(sp.len() == sp_len);
        assert(sp.skip(0) =~= sp);
        assert(txs.deep_view() =~= Seq::<Seq<u8>>::empty());
        assert(Seq::<Seq<u8>>::empty() + conv_txs(sp, *settings, keypair@, dest@) =~= conv_txs(
            sp,
            *settings,
            keypair@,
            dest@,
        ));
        assert(leftover@ + conv_leftover(sp, *settings) =~= conv_leftover(sp, *settings));
    }
    let mut i: usize = 0;
    while i < spend.len()
        invariant
            i <= sp.len(),
            sp.len() <= usize::MAX,
            spend@ == sp,
            keys.wf(),
            keypair@ == keys.pairs@[0].keypair@,
            dest@ == keys.pairs@[0].public@,
            utxo_sum(sp) <= u64::MAX,
            txs.deep_view() + conv_txs(sp.skip(i as int), *settings, keypair@, dest@) == conv_txs(
                sp,
                *settings,
                keypair@,
                dest@,
            ),
            leftover@ + conv_leftover(sp.skip(i as int), *settings) == conv_leftover(
                sp,
                *settings,
            ),
            leftover_total == utxo_sum(leftover@),
            utxo_sum(leftover@) + utxo_sum(sp.skip(i as int)) <= utxo_sum(sp),
        decreases sp.len() - i,
    {
        let remaining = spend.len() - i;
        let k: usize = if remaining < MAX_TRANSACTION_INPUTS {
            remaining
        } else {
            MAX_TRANSACTION_INPUTS
        };
        let ghost rest = sp.skip(i as int);
        let ghost gbatch = rest.take(k as int);
        proof {
            assert(k as int == batch_size(rest.len() as int));
            lemma_utxo_sum_split(rest, k as int);
            lemma_utxo_sum_nonneg(rest.skip(k as int));
            lemma_utxo_sum_nonneg(gbatch);
            assert(rest.skip(k as int) =~= sp.skip(i as int + k as int));
        }

        // copy the batch and add up its value
        let mut batch: Vec<UtxoEntry> = Vec::new();
        let mut batch_sum: u64 = 0;
        let mut j: usize = 0;
        while j < k
            invariant
                j <= k,
                i + k <= sp.len(),
                sp.len() <= usize::MAX,
                spend@ == sp,
                gbatch == sp.skip(i as int).take(k as int),
                utxo_sum(gbatch) <= u64::MAX,
                batch@ == gbatch.take(j as int),
                batch_sum == utxo_sum(batch@),
            decreases k - j,
        {
            let e = spend[i + j];
            proof {
                assert(gbatch.take(j as int + 1).drop_last() =~= gbatch.take(j as int));
                assert(gbatch.take(j as int + 1).last() == gbatch[j as int]);
                assert(gbatch[j as int] == sp[i as int + j as int]);
                lemma_utxo_sum_split(gbatch, j as int + 1);
                lemma_utxo_sum_nonneg(gbatch.skip(j as int + 1));
            }
            batch.push(e);
            batch_sum = batch_sum + e.value;
            j += 1;
        }
        proof {
            assert(gbatch.take(k as int) =~= gbatch);
        }

        let fee = settings.fee(k as u64, 1, 0);
        let ghost txs0 = txs.deep_view();
        let ghost leftover0 = leftover@;
        if batch_sum > fee {
            let out_value = batch_sum - fee;
            let tx = build_conv_tx(
                batch.as_slice(),
                settings,
                keypair.as_slice(),
                dest.as_slice(),
                out_value,
            );
            let ghost gtx = tx@;
            proof {
                assert(tx.deep_view() =~= gtx);
            }
            txs.push(tx);
            proof {
                let tail = conv_txs(sp.skip(i as int + k as int), *settings, keypair@, dest@);
                assert(conv_txs(rest, *settings, keypair@, dest@) == seq![gtx] + tail);
                assert(txs.deep_view() =~= txs0.push(gtx));
                assert(txs0.push(gtx) + tail =~= txs0 + (seq![gtx] + tail));
                assert(conv_leftover(rest, *settings) == conv_leftover(
                    sp.skip(i as int + k as int),
                    *settings,
                ));
                lemma_utxo_sum_nonneg(gbatch);
            }
        } else {
            let mut j: usize = 0;
            while j < k
                invariant
                    j <= k,
                    i + k <= sp.len(),
                    sp.len() <= usize::MAX,
                    spend@ == sp,
                    gbatch == sp.skip(i as int).take(k as int),
                    utxo_sum(leftover0) + utxo_sum(gbatch) + utxo_sum(
                        sp.skip(i as int + k as int),
                    ) <= utxo_sum(sp),
                    utxo_sum(sp) <= u64::MAX,
                    leftover@ == leftover0 + gbatch.take(j as int),
                    leftover_total == utxo_sum(leftover@),
                decreases k - j,
            {
                let e = spend[i + j];
                proof {
                    assert(gbatch[j as int] == sp[i as int + j as int]);
                    assert(gbatch.take(j as int + 1).drop_last() =~= gbatch.take(j as int));
                    assert(gbatch.take(j as int + 1).last() == gbatch[j as int]);
                    lemma_utxo_sum_concat(leftover0, gbatch.take(j as int + 1));
                    lemma_utxo_sum_concat(leftover0, gbatch.take(j as int));
                    lemma_utxo_sum_split(gbatch, j as int + 1);
                    lemma_utxo_sum_nonneg(gbatch.skip(j as int + 1));
                    lemma_utxo_sum_nonneg(sp.skip(i as int + k as int));
                    lemma_utxo_sum_nonneg(leftover0);
                    assert(leftover0 + gbatch.take(j as int) + seq![gbatch[j as int]]
                        =~= leftover0 + gbatch.take(j as int + 1));
                }
                leftover.push(e);
                proof {
                    assert(leftover@ =~= leftover0 + gbatch.take(j as int + 1));
                }
                leftover_total = leftover_total + e.value;
                j += 1;
            }
            proof {
                assert(gbatch.take(k as int) =~= gbatch);
                let tail = conv_leftover(sp.skip(i as int + k as int), *settings);
                assert(conv_leftover(rest, *settings) == gbatch + tail);
                assert(leftover0 + gbatch + tail =~= (leftover0 + gbatch) + tail);
                assert(conv_txs(rest, *settings, keypair@, dest@) == conv_txs(
                    sp.skip(i as int + k as int),
                    *settings,
                    keypair@,
                    dest@,
                ));
                lemma_utxo_sum_concat(leftover0, gbatch);
            }
        }
        i += k;
    }
    proof {
        assert(sp.skip(sp.len() as int) =~= Seq::<UtxoEntry>::empty());
        assert(txs.deep_view() + Seq::<Seq<u8>>::empty() =~= txs.deep_view());
        assert(leftover@ + Seq::<UtxoEntry>::empty() =~= leftover@);
        lemma_partition_sum(entries@, coeff);
        lemma_utxo_sum_nonneg(leftover@);
        lemma_utxo_sum_nonneg(dust@);
    }

    // the ignored report: the dust entries followed by the unprofitable batches
    let ghost dust_all = dust@;
    let mut t: usize = 0;
    while t < leftover.len()
        invariant
            t <= leftover@.len(),
            dust@ == dust_all + leftover@.take(t as int),
            ignored_total == utxo_sum(dust@),
            utxo_sum(dust_all) + utxo_sum(leftover@) <= u64::MAX,
        decreases leftover@.len() - t,
    {
        let e = leftover[t];
        proof {
            assert(leftover@.take(t as int + 1).drop_last() =~= leftover@.take(t as int));
            assert(leftover@.take(t as int + 1).last() == leftover@[t as int]);
            lemma_utxo_sum_concat(dust_all, leftover@.take(t as int + 1));
            lemma_utxo_sum_concat(dust_all, leftover@.take(t as int));
            lemma_utxo_sum_split(leftover@, t as int + 1);
            lemma_utxo_sum_nonneg(leftover@.skip(t as int + 1));
            lemma_utxo_sum_nonneg(dust_all);
            assert(dust_all + leftover@.take(t as int) + seq![leftover@[t as int]] =~= dust_all
                + leftover@.take(t as int + 1));
        }
        dust.push(e);
        proof {
            assert(dust@ =~= dust_all + leftover@.take(t as int + 1));
        }
        ignored_total = ignored_total + e.value;
        t += 1;
    }
    proof {
        assert(leftover@.take(leftover@.len() as int) =~= leftover@);
    }
    Conversion { transactions: txs, ignored: dust, ignored_total }
}

} // verus!
