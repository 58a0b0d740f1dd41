use vstd::bytes::*;
use vstd::prelude::*;

use crate::account::AccountState;
use crate::block0::account_count;
use crate::block0::block0_ok;
use crate::block0::sat_u64;
use crate::block0::scan_account_sum;
use crate::block0::scan_funds;
use crate::block0::scan_utxos;
use crate::block0::settings_match;
use crate::block0::utxo_count;
use crate::block0::utxo_sum;
use crate::block0::lemma_utxo_sum_nonneg;
use crate::block0::Discrimination;
use crate::block0::Settings;
use crate::block0::UtxoEntry;
use crate::convert::conv_leftover;
use crate::convert::conv_txs;
use crate::convert::convert_funds;
use crate::convert::dust_of;
use crate::convert::push_bytes;
use crate::convert::signed_tx;
use crate::convert::spendable_of;
use crate::convert::Conversion;
use crate::crypto::ed25519_sign;
use crate::errors::WalletError;
use crate::keys::KeySet;
use crate::mnemonic::mnemonic_to_entropy;
use crate::mnemonic::phrase_entropy;
use crate::mnemonic::valid_mnemonic;
use crate::vote::vote_tx_payload;
use crate::vote::Proposal;
use crate::vote::VotePlan;

verus! {

/// The wallet: the recovered candidate keys, the mutable account state,
/// and the legacy funds discovered in the genesis block, with their
/// precomputed total.
pub struct Wallet {
    pub keys: KeySet,
    pub state: AccountState,
    pub utxos: Vec<UtxoEntry>,
    pub utxo_total: u64,
}

impl Wallet {
    pub open spec fn wf(self) -> bool {
        &&& self.keys.wf()
        &&& self.utxo_total == utxo_sum(self.utxos@)
    }

    /// Recover a wallet from a mnemonic recovery phrase and an optional
    /// passphrase (empty means none). The phrase is validated for word
    /// count and checksum before any derivation; a non-empty passphrase is
    /// mixed into every scheme's derivation as an additional secret.
    ///
    /// Succeeds exactly on valid mnemonics; every failure is
    /// [`WalletError::InvalidMnemonic`].
    pub fn recover(mnemonic: &str, passphrase: &[u8]) -> (r: Result<Wallet, WalletError>)
        ensures
            r is Ok <==> valid_mnemonic(mnemonic@),
            r matches Ok(w) ==> {
                &&& w.wf()
                &&& w.keys.derived_from(phrase_entropy(mnemonic@), passphrase@)
                &&& w.state.value == 0
                &&& w.state.counter == 0
                &&& w.utxos@ == Seq::<UtxoEntry>::empty()
            },
            r matches Err(e) ==> e == WalletError::InvalidMnemonic,
    {
        let entropy = match mnemonic_to_entropy(mnemonic) {
            Ok(e) => e,
            Err(e) => {
                return Err(e);
            },
        };
        let keys = KeySet::derive(entropy.as_slice(), passphrase);
        proof {
            assert(Seq::<UtxoEntry>::empty().len() == 0);
        }
        Ok(Wallet { keys, state: AccountState::new(), utxos: Vec::new(), utxo_total: 0 })
    }

    /// The wallet's 32-byte identifier, a function of the key set alone:
    /// repeated calls on the same keys return identical bytes.
    pub fn id(&self) -> (r: Vec<u8>)
        requires
            self.wf(),
        ensures
            r@ == self.keys.id_spec(),
            r@.len() == 32,
    {
        self.keys.id()
    }

    /// The public key of the wallet's account, the destination of
    /// converted funds.
    pub fn account_public_key(&self) -> (r: Vec<u8>)
        requires
            self.wf(),
        ensures
            r@ == self.keys.pairs@[0].public@,
            r@.len() == 32,
    {
        self.keys.account_public()
    }

    /// Overwrite the account state with authoritative on-chain values.
    /// Nothing else of the wallet changes.
    pub fn set_state(&mut self, value: u64, counter: u32)
        requires
            old(self).wf(),
        ensures
            final(self).wf(),
            final(self).state.value == value,
            final(self).state.counter == counter,
            final(self).keys == old(self).keys,
            final(self).utxos == old(self).utxos,
            final(self).utxo_total == old(self).utxo_total,
    {
        self.state.set_state(value, counter);
    }

    /// The total value the wallet can see: the account balance plus every
    /// discovered legacy output, saturating at the 64-bit bound.
    pub fn total_value(&self) -> (r: u64)
        requires
            self.wf(),
        ensures
            r == sat_u64(self.state.value + utxo_sum(self.utxos@)),
    {
        proof {
            lemma_utxo_sum_nonneg(self.utxos@);
        }
        self.state.value.saturating_add(self.utxo_total)
    }

    /// Discover the wallet's funds in a genesis block: one full pass over
    /// every output and account entry, matching each against every
    /// candidate key. The matching outputs replace the wallet's fund list
    /// and the matching accounts' total becomes its account balance; the
    /// counter is kept. On failure the wallet is unchanged.
    ///
    /// Succeeds exactly when the block decodes and the discovered totals
    /// fit in 64 bits; every failure is [`WalletError::BlockDecode`].
    pub fn retrieve_funds(&mut self, block0: &[u8]) -> (r: Result<Settings, WalletError>)
        requires
            old(self).wf(),
        ensures
            final(self).wf(),
            final(self).keys == old(self).keys,
            final(self).state.counter == old(self).state.counter,
            r is Ok <==> block0_ok(block0@) && utxo_sum(
                scan_utxos(block0@, old(self).keys, utxo_count(block0@)),
            ) <= u64::MAX && scan_account_sum(block0@, old(self).keys, account_count(block0@))
                <= u64::MAX,
            r matches Ok(s) ==> {
                &&& s.wf()
                &&& settings_match(s, block0@)
                &&& final(self).utxos@ == scan_utxos(block0@, old(self).keys, utxo_count(block0@))
                &&& final(self).state.value == scan_account_sum(
                    block0@,
                    old(self).keys,
                    account_count(block0@),
                )
            },
            r matches Err(e) ==> e == WalletError::BlockDecode && final(self).state == old(
                self,
            ).state && final(self).utxos == old(self).utxos && final(self).utxo_total == old(
                self,
            ).utxo_total,
    {
        match scan_funds(block0, &self.keys) {
            Ok((funds, settings)) => {
                self.utxos = funds.utxos;
                self.utxo_total = funds.utxo_total;
                let counter = self.state.counter;
                self.state.set_state(funds.account_value, counter);
                Ok(settings)
            },
            Err(e) => Err(e),
        }
    }

    /// Convert every discovered legacy fund into signed transactions
    /// moving its value to the wallet's account, classifying entries at or
    /// below the marginal input fee as dust. The fund list is retired:
    /// after the call the wallet holds no legacy outputs. A wallet with
    /// zero funds yields a valid empty conversion.
    pub fn convert(&mut self, settings: &Settings) -> (r: Conversion)
        requires
            old(self).wf(),
            settings.wf(),
        ensures
            final(self).wf(),
            final(self).keys == old(self).keys,
            final(self).state == old(self).state,
            final(self).utxos@ == Seq::<UtxoEntry>::empty(),
            r.wf(),
            r.transactions.deep_view() == conv_txs(
                spendable_of(old(self).utxos@, settings.fee_coefficient),
                *settings,
                old(self).keys.pairs@[0].keypair@,
                old(self).keys.pairs@[0].public@,
            ),
            r.ignored@ == dust_of(old(self).utxos@, settings.fee_coefficient) + conv_leftover(
                spendable_of(old(self).utxos@, settings.fee_coefficient),
                *settings,
            ),
    {
        let conversion = convert_funds(self.utxos.as_slice(), settings, &self.keys);
        self.utxos = Vec::new();
        self.utxo_total = 0;
        conversion
    }

    /// Build a signed vote-cast transaction for one choice of one proposal
    /// of a vote plan, under the current account counter. The wallet is
    /// not mutated: the caller refreshes the state with `set_state` after
    /// observing the transaction on chain.
    ///
    /// Succeeds exactly when the choice lies in the proposal's option
    /// range; every failure is [`WalletError::ChoiceOutOfRange`].
    pub fn vote(
        &self,
        settings: &Settings,
        plan: &VotePlan,
        proposal: &Proposal,
        choice: u8,
    ) -> (r: Result<Vec<u8>, WalletError>)
        requires
            self.wf(),
            settings.wf(),
            plan.wf(),
        ensures
            r is Ok <==> proposal.options.in_range_spec(choice),
            r matches Ok(t) ==> t@ == signed_tx(
                self.keys.pairs@[0].keypair@,
                vote_tx_payload(
                    settings.block0_hash@,
                    settings.discrimination,
                    plan.id@,
                    plan.payload_type,
                    proposal.index,
                    choice,
                    self.keys.pairs@[0].public@,
                    self.state.counter,
                    settings.fee_spec(1, 0, 1),
                ),
            ),
            r matches Err(e) ==> e == WalletError::ChoiceOutOfRange,
    {
        if !proposal.options.in_range(choice) {
            return Err(WalletError::ChoiceOutOfRange);
        }
        let fee = settings.fee(1, 0, 1);
        let mut payload: Vec<u8> = Vec::new();
        payload.push(2u8);
        push_bytes(&mut payload, settings.block0_hash.as_slice());
        let disc: u8 = match settings.discrimination {
            Discrimination::Production => 0,
            Discrimination::Test => 1,
        };
        payload.push(disc);
        push_bytes(&mut payload, plan.id.as_slice());
        payload.push(plan.payload_type.to_byte());
        payload.push(proposal.index);
        payload.push(choice);
        push_bytes(&mut payload, self.keys.pairs[0].public.as_slice());
        let counter_bytes = u32_to_le_bytes(self.state.counter);
        push_bytes(&mut payload, counter_bytes.as_slice());
        let fee_bytes = u64_to_le_bytes(fee);
        push_bytes(&mut payload, fee_bytes.as_slice());
        proof {
            assert(payload@ =~= vote_tx_payload(
                settings.block0_hash@,
                settings.discrimination,
                plan.id@,
                plan.payload_type,
                proposal.index,
                choice,
                self.keys.pairs@[0].public@,
                self.state.counter,
                settings.fee_spec(1, 0, 1),
            ));
        }
        let signature = ed25519_sign(self.keys.pairs[0].keypair.as_slice(), payload.as_slice());
        push_bytes(&mut payload, signature.as_slice());
        Ok(payload)
    }
}

} // verus!
