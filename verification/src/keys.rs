use vstd::prelude::*;

use crate::crypto::blake2b256;
use crate::crypto::blake2b256_of;
use crate::crypto::ed25519_keypair;
use crate::crypto::ed25519_keypair_of;
use crate::crypto::pbkdf2_sha512;
use crate::crypto::pbkdf2_sha512_of;

verus! {

/// The historical derivation schemes, in the fixed priority order recovery
/// tries them. The same phrase is ambiguous across schemes, so recovery
/// derives a candidate keypair under each and keeps them all: funds
/// discovery then matches addresses against every candidate.
#[derive(Clone, Copy, Debug, PartialEq, Eq, Structural)]
pub enum DerivationScheme {
    /// The native account scheme: the master seed is the passphrase and
    /// entropy run through PBKDF2-HMAC-SHA512.
    Account,
    /// The legacy scheme: the master seed is the BLAKE2b digest of the
    /// entropy followed by the passphrase.
    Legacy,
}

/// The 32-byte master seed a scheme derives from entropy and passphrase.
/// A non-empty passphrase enters the derivation as an additional secret in
/// both schemes.
pub open spec fn scheme_seed(
    scheme: DerivationScheme,
    entropy: Seq<u8>,
    passphrase: Seq<u8>,
) -> Seq<u8> {
    match scheme {
        DerivationScheme::Account => pbkdf2_sha512_of(passphrase, entropy),
        DerivationScheme::Legacy => blake2b256_of(entropy + passphrase),
    }
}

/// The expanded keypair and public key (96 bytes in all) a scheme derives.
pub open spec fn scheme_keypair(
    scheme: DerivationScheme,
    entropy: Seq<u8>,
    passphrase: Seq<u8>,
) -> Seq<u8> {
    ed25519_keypair_of(scheme_seed(scheme, entropy, passphrase))
}

/// One candidate signing key: the scheme it was derived under, the 64-byte
/// expanded keypair used for signing, and the 32-byte public key.
pub struct KeyPair {
    pub scheme: DerivationScheme,
    pub keypair: Vec<u8>,
    pub public: Vec<u8>,
}

impl KeyPair {
    pub open spec fn wf(self) -> bool {
        &&& self.keypair@.len() == 64
        &&& self.public@.len() == 32
    }
}

/// The candidate keys recovered from one mnemonic: one keypair per
/// supported derivation scheme, the native account scheme first. The first
/// pair is the wallet's account key; the wallet identifier is derived from
/// its public key.
pub struct KeySet {
    pub pairs: Vec<KeyPair>,
}

impl KeySet {
    pub open spec fn wf(self) -> bool {
        &&& self.pairs@.len() == 2
        &&& forall|i: int| 0 <= i < self.pairs@.len() ==> (#[trigger] self.pairs@[i]).wf()
    }

    /// Whether this key set is exactly what derivation yields from the
    /// given entropy and passphrase.
    pub open spec fn derived_from(self, entropy: Seq<u8>, passphrase: Seq<u8>) -> bool {
        &&& self.wf()
        &&& self.pairs@[0].scheme == DerivationScheme::Account
        &&& self.pairs@[0].keypair@ + self.pairs@[0].public@ == scheme_keypair(
            DerivationScheme::Account,
            entropy,
            passphrase,
        )
        &&& self.pairs@[1].scheme == DerivationScheme::Legacy
        &&& self.pairs@[1].keypair@ + self.pairs@[1].public@ == scheme_keypair(
            DerivationScheme::Legacy,
            entropy,
            passphrase,
        )
    }

    /// Derive the candidate keys for every supported scheme, in priority
    /// order. Derivation is total: each scheme turns any entropy into a
    /// structurally valid keypair, so the set always holds both candidates.
    pub fn derive(entropy: &[u8], passphrase: &[u8]) -> (r: KeySet)
        ensures
            r.derived_from(entropy@, passphrase@),
    {
        let seed_account = pbkdf2_sha512(passphrase, entropy);
        let (kp0, pub0) = ed25519_keypair(seed_account.as_slice());

        let mixed = concat_bytes(entropy, passphrase);
        let seed_legacy = blake2b256(mixed.as_slice());
        let (kp1, pub1) = ed25519_keypair(seed_legacy.as_slice());

        let mut pairs: Vec<KeyPair> = Vec::new();
        pairs.push(KeyPair { scheme: DerivationScheme::Account, keypair: kp0, public: pub0 });
        pairs.push(KeyPair { scheme: DerivationScheme::Legacy, keypair: kp1, public: pub1 });
        KeySet { pairs }
    }

    /// The 32-byte identifier of this key set: the BLAKE2b digest of the
    /// account public key. External services use it to query on-chain
    /// account state.
    pub open spec fn id_spec(self) -> Seq<u8> {
        blake2b256_of(self.pairs@[0].public@)
    }

    /// Compute the wallet identifier. The result is a function of the key
    /// set alone, so repeated calls return identical bytes.
    pub fn id(&self) -> (r: Vec<u8>)
        requires
            self.wf(),
        ensures
            r@ == self.id_spec(),
            r@.len() == 32,
    {
        blake2b256(self.pairs[0].public.as_slice())
    }

    /// The public key of the account scheme, the destination of converted
    /// funds.
    pub fn account_public(&self) -> (r: Vec<u8>)
        requires
            self.wf(),
        ensures
            r@ == self.pairs@[0].public@,
            r@.len() == 32,
    {
        clone_bytes(self.pairs[0].public.as_slice())
    }

    /// Whether an address equals the public key of any candidate pair.
    pub open spec fn matches_spec(self, addr: Seq<u8>) -> bool {
        exists|i: int| 0 <= i < self.pairs@.len() && (#[trigger] self.pairs@[i]).public@ == addr
    }

    /// Test an address against every key in the set.
    pub fn matches(&self, addr: &[u8]) -> (r: bool)
        requires
            self.wf(),
        ensures
            r == self.matches_spec(addr@),
    {
        let mut i: usize = 0;
        while i < self.pairs.len()
            invariant
                i <= self.pairs@.len(),
                self.wf(),
                forall|k: int| 0 <= k < i ==> (#[trigger] self.pairs@[k]).public@ != addr@,
            decreases self.pairs@.len() - i,
        {
            if bytes_eq(self.pairs[i].public.as_slice(), addr) {
                return true;
            }
            i += 1;
        }
        false
    }
}

/// The concatenation of two byte slices.
pub fn concat_bytes(a: &[u8], b: &[u8]) -> (r: Vec<u8>)
    ensures
        r@ == a@ + b@,
{
    let mut out: Vec<u8> = Vec::new();
    let mut i: usize = 0;
    while i < a.len()
        invariant
            i <= a@.len(),
            out@ == a@.take(i as int),
        decreases a@.len() - i,
    {
        out.push(a[i]);
        i += 1;
    }
    let mut j: usize = 0;
    while j < b.len()
        invariant
            j <= b@.len(),
            out@ == a@ + b@.take(j as int),
        decreases b@.len() - j,
    {
        out.push(b[j]);
        j += 1;
    }
    proof {
        assert(a@.take(a@.len() as int) =~= a@);
        assert(b@.take(b@.len() as int) =~= b@);
        assert(out@ =~= a@ + b@);
    }
    out
}

/// A copy of a byte slice as an owned vector.
pub fn clone_bytes(a: &[u8]) -> (r: Vec<u8>)
    ensures
        r@ == a@,
{
    let mut out: Vec<u8> = Vec::new();
    let mut i: usize = 0;
    while i < a.len()
        invariant
            i <= a@.len(),
            out@ == a@.take(i as int),
        decreases a@.len() - i,
    {
        out.push(a[i]);
        i += 1;
    }
    proof {
        assert(a@.take(a@.len() as int) =~= a@);
    }
    out
}

/// Whether two byte slices hold the same bytes.
pub fn bytes_eq(a: &[u8], b: &[u8]) -> (r: bool)
    ensures
        r == (a@ == b@),
{
    if a.len() != b.len() {
        return false;
    }
    let mut i: usize = 0;
    while i < a.len()
        invariant
            i <= a@.len(),
            a@.len() == b@.len(),
            forall|k: int| 0 <= k < i ==> a@[k] == b@[k],
        decreases a@.len() - i,
    {
        if a[i] != b[i] {
            return false;
        }
        i += 1;
    }
    proof {
        assert(a@ =~= b@);
    }
    true
}

} // verus!
