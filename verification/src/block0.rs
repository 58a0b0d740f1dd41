use vstd::bytes::*;
use vstd::prelude::*;
use vstd::slice::slice_subrange;

use crate::crypto::blake2b256;
use crate::crypto::blake2b256_of;
use crate::errors::WalletError;
use crate::keys::KeySet;

verus! {

/// Which network a chain belongs to, as its genesis block declares it.
#[derive(Clone, Copy, Debug, PartialEq, Eq, Structural)]
pub enum Discrimination {
    Production,
    Test,
}

/// The immutable blockchain parameters the wallet needs: the network
/// discrimination, the linear fee formula, and the hash identifying the
/// genesis block. Holds no secrets, so it is freely cloneable and shared
/// read-only by conversion and voting.
pub struct Settings {
    pub discrimination: Discrimination,
    /// Flat fee charged by every transaction.
    pub fee_constant: u64,
    /// Fee charged per input and per output of a transaction.
    pub fee_coefficient: u64,
    /// Extra fee charged per certificate carried by a transaction.
    pub fee_certificate: u64,
    /// The 32-byte hash that identifies the chain's genesis block.
    pub block0_hash: Vec<u8>,
}

/// An integer clamped to the largest 64-bit value.
pub open spec fn sat_u64(x: int) -> u64 {
    if x > u64::MAX {
        u64::MAX as u64
    } else {
        x as u64
    }
}

impl Settings {
    pub open spec fn wf(self) -> bool {
        self.block0_hash@.len() == 32
    }

    /// The linear fee of a transaction: the constant, plus the coefficient
    /// for each input and output, plus the certificate fee for each
    /// certificate, saturating at the 64-bit bound.
    pub open spec fn fee_spec(self, inputs: int, outputs: int, certs: int) -> u64 {
        sat_u64(
            self.fee_constant + self.fee_coefficient * (inputs + outputs)
                + self.fee_certificate * certs,
        )
    }

    /// The marginal cost of adding one more input to a transaction.
    pub open spec fn marginal_input_fee(self) -> u64 {
        self.fee_coefficient
    }

    /// Compute the linear fee, saturating at the 64-bit bound.
    pub fn fee(&self, inputs: u64, outputs: u64, certs: u64) -> (r: u64)
        requires
            inputs + outputs <= u64::MAX,
        ensures
            r == self.fee_spec(inputs as int, outputs as int, certs as int),
    {
        let io: u64 = inputs + outputs;
        let io_fee: u64 = match self.fee_coefficient.checked_mul(io) {
            Some(v) => v,
            None => {
                proof {
                    mul_ge_parts(self.fee_coefficient as int, io as int);
                }
                return u64::MAX;
            },
        };
        let cert_fee: u64 = match self.fee_certificate.checked_mul(certs) {
            Some(v) => v,
            None => {
                proof {
                    mul_ge_parts(self.fee_certificate as int, certs as int);
                }
                return u64::MAX;
            },
        };
        self.fee_constant.saturating_add(io_fee).saturating_add(cert_fee)
    }

    /// Copy the settings; the copy carries the same parameters and hash.
    pub fn duplicate(&self) -> (r: Settings)
        ensures
            r.discrimination == self.discrimination,
            r.fee_constant == self.fee_constant,
            r.fee_coefficient == self.fee_coefficient,
            r.fee_certificate == self.fee_certificate,
            r.block0_hash@ == self.block0_hash@,
    {
        Settings {
            discrimination: self.discrimination,
            fee_constant: self.fee_constant,
            fee_coefficient: self.fee_coefficient,
            fee_certificate: self.fee_certificate,
            block0_hash: crate::keys::clone_bytes(self.block0_hash.as_slice()),
        }
    }
}

/// A product of two non-negative integers is at least each factor when the
/// other is at least one; used to turn a `checked_mul` overflow into a
/// bound on the mathematical product.
proof fn mul_ge_parts(a: int, b: int)
    requires
        0 <= a,
        0 <= b,
    ensures
        a * b > u64::MAX ==> a * b >= a && a * b >= b,
{
    assert(a * b > u64::MAX ==> a * b >= a && a * b >= b) by (nonlinear_arith);
}

// The genesis block the wallet reads is a single byte buffer, integers in
// little-endian order:
//   bytes 0..2    format version, must be 1
//   byte  2       discrimination, 0 production / 1 test
//   bytes 3..11   fee constant
//   bytes 11..19  fee coefficient
//   bytes 19..27  fee certificate
//   bytes 27..31  number of initial single-address outputs
//   then per output: a 32-byte address and an 8-byte value
//   then 4 bytes: number of initial accounts
//   then per account: a 32-byte account key and an 8-byte value
// The buffer must end exactly after the last account entry.

/// Whether the fixed-size header is present and well-formed.
pub open spec fn header_ok(b: Seq<u8>) -> bool {
    &&& b.len() >= 31
    &&& spec_u16_from_le_bytes(b.subrange(0, 2)) == 1
    &&& (b[2] == 0 || b[2] == 1)
}

/// The declared number of initial outputs.
pub open spec fn utxo_count(b: Seq<u8>) -> int {
    spec_u32_from_le_bytes(b.subrange(27, 31)) as int
}

/// Where the account section starts.
pub open spec fn accounts_off(b: Seq<u8>) -> int {
    31 + 40 * utxo_count(b)
}

/// The declared number of initial accounts.
pub open spec fn account_count(b: Seq<u8>) -> int {
    spec_u32_from_le_bytes(b.subrange(accounts_off(b), accounts_off(b) + 4)) as int
}

/// Whether the whole buffer is a well-formed genesis block: a good header
/// and exactly the declared number of output and account entries.
pub open spec fn block0_ok(b: Seq<u8>) -> bool {
    &&& header_ok(b)
    &&& b.len() >= accounts_off(b) + 4
    &&& b.len() == accounts_off(b) + 4 + 40 * account_count(b)
}

/// The address of the `i`-th initial output.
pub open spec fn utxo_addr(b: Seq<u8>, i: int) -> Seq<u8> {
    b.subrange(31 + 40 * i, 31 + 40 * i + 32)
}

/// The value of the `i`-th initial output.
pub open spec fn utxo_value(b: Seq<u8>, i: int) -> u64 {
    spec_u64_from_le_bytes(b.subrange(31 + 40 * i + 32, 31 + 40 * i + 40))
}

/// The key of the `i`-th initial account.
pub open spec fn account_addr(b: Seq<u8>, i: int) -> Seq<u8> {
    b.subrange(accounts_off(b) + 4 + 40 * i, accounts_off(b) + 4 + 40 * i + 32)
}

/// The value of the `i`-th initial account.
pub open spec fn account_value(b: Seq<u8>, i: int) -> u64 {
    spec_u64_from_le_bytes(
        b.subrange(accounts_off(b) + 4 + 40 * i + 32, accounts_off(b) + 4 + 40 * i + 40),
    )
}

/// The discrimination the genesis block declares.
pub open spec fn discrimination_of(b: Seq<u8>) -> Discrimination {
    if b[2] == 0 {
        Discrimination::Production
    } else {
        Discrimination::Test
    }
}

/// Whether a settings value states exactly what the genesis block declares.
pub open spec fn settings_match(s: Settings, b: Seq<u8>) -> bool {
    &&& s.discrimination == discrimination_of(b)
    &&& s.fee_constant == spec_u64_from_le_bytes(b.subrange(3, 11))
    &&& s.fee_coefficient == spec_u64_from_le_bytes(b.subrange(11, 19))
    &&& s.fee_certificate == spec_u64_from_le_bytes(b.subrange(19, 27))
    &&& s.block0_hash@ == blake2b256_of(b)
}

/// Decode exactly the genesis-block fields the wallet needs. Succeeds on
/// any buffer with a well-formed header; every failure is
/// [`WalletError::BlockDecode`].
pub fn parse_settings(block0: &[u8]) -> (r: Result<Settings, WalletError>)
    ensures
        r is Ok <==> header_ok(block0@),
        r matches Ok(s) ==> s.wf() && settings_match(s, block0@),
        r matches Err(e) ==> e == WalletError::BlockDecode,
{
    if block0.len() < 31 {
        return Err(WalletError::BlockDecode);
    }
    let version = u16_from_le_bytes(slice_subrange(block0, 0, 2));
    if version != 1 {
        return Err(WalletError::BlockDecode);
    }
    let d = block0[2];
    let discrimination = if d == 0 {
        Discrimination::Production
    } else if d == 1 {
        Discrimination::Test
    } else {
        return Err(WalletError::BlockDecode);
    };
    let fee_constant = u64_from_le_bytes(slice_subrange(block0, 3, 11));
    let fee_coefficient = u64_from_le_bytes(slice_subrange(block0, 11, 19));
    let fee_certificate = u64_from_le_bytes(slice_subrange(block0, 19, 27));
    let block0_hash = blake2b256(block0);
    Ok(Settings { discrimination, fee_constant, fee_coefficient, fee_certificate, block0_hash })
}

/// One spendable output discovered in the genesis block: its position in
/// the output list and its value. The position is the reference a spending
/// input carries.
#[derive(Clone, Copy, Debug, PartialEq, Eq, Structural)]
pub struct UtxoEntry {
    pub index: u32,
    pub value: u64,
}

/// The sum of the values of a sequence of discovered outputs.
pub open spec fn utxo_sum(entries: Seq<UtxoEntry>) -> int
    decreases entries.len(),
{
    if entries.len() == 0 {
        0
    } else {
        utxo_sum(entries.drop_last()) + entries.last().value
    }
}

/// The sum of a sequence of discovered outputs is not negative.
pub proof fn lemma_utxo_sum_nonneg(entries: Seq<UtxoEntry>)
    ensures
        utxo_sum(entries) >= 0,
    decreases entries.len(),
{
    if entries.len() > 0 {
        lemma_utxo_sum_nonneg(entries.drop_last());
    }
}

/// The outputs of the first `n` entries of the genesis block whose address
/// equals one of the wallet's candidate public keys, in block order.
pub open spec fn scan_utxos(b: Seq<u8>, ks: KeySet, n: int) -> Seq<UtxoEntry>
    decreases n,
{
    if n <= 0 {
        Seq::empty()
    } else {
        let pre = scan_utxos(b, ks, n - 1);
        if ks.matches_spec(utxo_addr(b, n - 1)) {
            pre.push(UtxoEntry { index: (n - 1) as u32, value: utxo_value(b, n - 1) })
        } else {
            pre
        }
    }
}

/// The total value of the first `n` genesis accounts whose key equals one
/// of the wallet's candidate public keys.
pub open spec fn scan_account_sum(b: Seq<u8>, ks: KeySet, n: int) -> int
    decreases n,
{
    if n <= 0 {
        0
    } else {
        let pre = scan_account_sum(b, ks, n - 1);
        if ks.matches_spec(account_addr(b, n - 1)) {
            pre + account_value(b, n - 1)
        } else {
            pre
        }
    }
}

/// Scanning a prefix never yields a larger output total than scanning more
/// entries.
pub proof fn lemma_scan_utxo_sum_monotone(b: Seq<u8>, ks: KeySet, m: int, n: int)
    requires
        0 <= m <= n,
    ensures
        utxo_sum(scan_utxos(b, ks, m)) <= utxo_sum(scan_utxos(b, ks, n)),
    decreases n - m,
{
    if m < n {
        lemma_scan_utxo_sum_monotone(b, ks, m, n - 1);
        let pre = scan_utxos(b, ks, n - 1);
        if ks.matches_spec(utxo_addr(b, n - 1)) {
            assert(scan_utxos(b, ks, n).drop_last() =~= pre);
        }
    }
}

/// Scanning a prefix never yields a larger account total.
pub proof fn lemma_scan_account_sum_monotone(b: Seq<u8>, ks: KeySet, m: int, n: int)
    requires
        0 <= m <= n,
    ensures
        scan_account_sum(b, ks, m) <= scan_account_sum(b, ks, n),
    decreases n - m,
{
    if m < n {
        lemma_scan_account_sum_monotone(b, ks, m, n - 1);
    }
}

/// The funds discovered for a wallet in a genesis block: the spendable
/// outputs matching its keys and the total balance of its matching
/// accounts, with the precomputed output total.
pub struct ScannedFunds {
    pub utxos: Vec<UtxoEntry>,
    pub utxo_total: u64,
    pub account_value: u64,
}

impl ScannedFunds {
    pub open spec fn wf(self) -> bool {
        self.utxo_total == utxo_sum(self.utxos@)
    }
}

/// Walk every output and account entry of a genesis block, matching each
/// address against every key in the set, in one full pass.
///
/// Succeeds exactly when the block decodes and the discovered totals fit
/// in 64 bits; every failure is [`WalletError::BlockDecode`].
pub fn scan_funds(block0: &[u8], keys: &KeySet) -> (r: Result<(ScannedFunds, Settings), WalletError>)
    requires
        keys.wf(),
    ensures
        r is Ok <==> block0_ok(block0@) && utxo_sum(
            scan_utxos(block0@, *keys, utxo_count(block0@)),
        ) <= u64::MAX && scan_account_sum(block0@, *keys, account_count(block0@)) <= u64::MAX,
        r matches Ok(p) ==> {
            &&& p.0.wf()
            &&& p.0.utxos@ == scan_utxos(block0@, *keys, utxo_count(block0@))
            &&& p.0.account_value == scan_account_sum(block0@, *keys, account_count(block0@))
            &&& p.1.wf()
            &&& settings_match(p.1, block0@)
        },
        r matches Err(e) ==> e == WalletError::BlockDecode,
{
    let ghost b = block0@;
    let settings = match parse_settings(block0) {
        Ok(s) => s,
        Err(e) => {
            return Err(e);
        },
    };
    let len64: u64 = block0.len() as u64;
    let n_utxo = u32_from_le_bytes(slice_subrange(block0, 27, 31));
    let utxo_end: u64 = 31u64 + 40u64 * (n_utxo as u64);
    if len64 < utxo_end || len64 - utxo_end < 4 {
        return Err(WalletError::BlockDecode);
    }
    let accounts_base: usize = utxo_end as usize;
    proof {
        assert(accounts_base as int == accounts_off(b));
    }
    let n_account = u32_from_le_bytes(slice_subrange(block0, accounts_base, accounts_base + 4));
    if len64 != utxo_end + 4 + 40u64 * (n_account as u64) {
        return Err(WalletError::BlockDecode);
    }
    proof {
        assert(block0_ok(b));
    }

    let nu: usize = n_utxo as usize;
    let mut utxos: Vec<UtxoEntry> = Vec::new();
    let mut utxo_total: u64 = 0;
    let mut i: usize = 0;
    while i < nu
        invariant
            i <= nu,
            keys.wf(),
            b == block0@,
            block0@.len() <= usize::MAX,
            block0@.len() >= 31 + 40 * nu + 4,
            nu == utxo_count(b),
            utxos@ == scan_utxos(b, *keys, i as int),
            utxo_total == utxo_sum(utxos@),
        decreases nu - i,
    {
        let base: usize = 31 + 40 * i;
        let addr = slice_subrange(block0, base, base + 32);
        if keys.matches(addr) {
            let value = u64_from_le_bytes(slice_subrange(block0, base + 32, base + 40));
            let entry = UtxoEntry { index: i as u32, value };
            utxo_total = match utxo_total.checked_add(value) {
                Some(t) => t,
                None => {
                    proof {
                        assert(scan_utxos(b, *keys, i + 1).drop_last() =~= utxos@);
                        assert(utxo_sum(scan_utxos(b, *keys, i + 1)) > u64::MAX);
                        lemma_scan_utxo_sum_monotone(b, *keys, i + 1, utxo_count(b));
                    }
                    return Err(WalletError::BlockDecode);
                },
            };
            utxos.push(entry);
            proof {
                assert(utxos@.drop_last() =~= scan_utxos(b, *keys, i as int));
            }
        }
        i += 1;
    }
    proof {
        lemma_scan_utxo_sum_monotone(b, *keys, nu as int, utxo_count(b));
    }

    let na: usize = n_account as usize;
    let mut account_total: u64 = 0;
    let mut i: usize = 0;
    while i < na
        invariant
            i <= na,
            keys.wf(),
            b == block0@,
            block0@.len() <= usize::MAX,
            block0@.len() == 31 + 40 * utxo_count(b) + 4 + 40 * na,
            na == account_count(b),
            nu == utxo_count(b),
            account_total == scan_account_sum(b, *keys, i as int),
        decreases na - i,
    {
        let base: usize = 31 + 40 * nu + 4 + 40 * i;
        let addr = slice_subrange(block0, base, base + 32);
        if keys.matches(addr) {
            let value = u64_from_le_bytes(slice_subrange(block0, base + 32, base + 40));
            account_total = match account_total.checked_add(value) {
                Some(t) => t,
                None => {
                    proof {
                        lemma_scan_account_sum_monotone(b, *keys, i + 1, account_count(b));
                    }
                    return Err(WalletError::BlockDecode);
                },
            };
        }
        i += 1;
    }

    let funds = ScannedFunds { utxos, utxo_total, account_value: account_total };
    Ok((funds, settings))
}

} // verus!
