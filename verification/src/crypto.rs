use vstd::prelude::*;

verus! {

// Names for the results of the cryptographic primitives the engine calls.
// Each stands for a pure function of its arguments alone; the wrappers
// below are the only places that apply them.

/// The SHA-256 digest (32 bytes) of a byte sequence.
pub uninterp spec fn sha256_of(input: Seq<u8>) -> Seq<u8>;

/// The BLAKE2b digest with a 32-byte output of a byte sequence.
pub uninterp spec fn blake2b256_of(input: Seq<u8>) -> Seq<u8>;

/// The first 32 bytes of PBKDF2-HMAC-SHA512 with 4096 iterations.
pub uninterp spec fn pbkdf2_sha512_of(password: Seq<u8>, salt: Seq<u8>) -> Seq<u8>;

/// The Ed25519 keypair derived from a 32-byte secret seed: 64 bytes of
/// expanded keypair followed by the 32-byte public key, 96 bytes in all.
pub uninterp spec fn ed25519_keypair_of(seed: Seq<u8>) -> Seq<u8>;

/// The Ed25519 signature (64 bytes) of a message under a 64-byte keypair.
pub uninterp spec fn ed25519_signature_of(keypair: Seq<u8>, message: Seq<u8>) -> Seq<u8>;

/// The position of a word in the English recovery-phrase wordlist of 2048
/// words, or `None` when the word is not in the list.
pub uninterp spec fn english_word_index(word: Seq<char>) -> Option<u16>;

/// The words of a phrase, in order, as split on whitespace.
pub uninterp spec fn words_of(phrase: Seq<char>) -> Seq<Seq<char>>;

/// Relies on cryptoxide's SHA-256 (`hashing::sha2::Sha256`): a 32-byte
/// digest that depends on the input bytes alone.
#[verifier::external_body]
pub(crate) fn sha256(input: &[u8]) -> (r: Vec<u8>)
    ensures
        r@ == sha256_of(input@),
        r@.len() == 32,
{
    let digest = cryptoxide::hashing::sha2::Sha256::new().update(input).finalize();
    digest.to_vec()
}

/// Relies on cryptoxide's BLAKE2b (`hashing::blake2b::Blake2b::<256>`): a
/// 32-byte digest that depends on the input bytes alone.
#[verifier::external_body]
pub(crate) fn blake2b256(input: &[u8]) -> (r: Vec<u8>)
    ensures
        r@ == blake2b256_of(input@),
        r@.len() == 32,
{
    let mut out = [0u8; 32];
    let ctx = cryptoxide::hashing::blake2b::Blake2b::<256>::new().update(input);
    ctx.finalize_at(&mut out);
    out.to_vec()
}

/// Relies on cryptoxide's `pbkdf2::pbkdf2` with HMAC-SHA512, 4096
/// iterations and a 32-byte output: a key that depends on the password and
/// salt alone.
#[verifier::external_body]
pub(crate) fn pbkdf2_sha512(password: &[u8], salt: &[u8]) -> (r: Vec<u8>)
    ensures
        r@ == pbkdf2_sha512_of(password@, salt@),
        r@.len() == 32,
{
    let mut out = [0u8; 32];
    cryptoxide::pbkdf2::pbkdf2::<cryptoxide::hashing::sha2::Sha512>(password, salt, 4096, &mut out);
    out.to_vec()
}

/// Relies on cryptoxide's `ed25519::keypair`: from a 32-byte seed it
/// returns the 64-byte expanded keypair and the 32-byte public key, both
/// functions of the seed alone.
#[verifier::external_body]
pub(crate) fn ed25519_keypair(seed: &[u8]) -> (r: (Vec<u8>, Vec<u8>))
    requires
        seed@.len() == 32,
    ensures
        r.0@.len() == 64,
        r.1@.len() == 32,
        r.0@ + r.1@ == ed25519_keypair_of(seed@),
{
    let mut arr = [0u8; 32];
    arr.copy_from_slice(seed);
    let (keypair, public) = cryptoxide::ed25519::keypair(&arr);
    (keypair.to_vec(), public.to_vec())
}

/// Relies on cryptoxide's `ed25519::signature`: a 64-byte signature that
/// depends on the keypair and the message alone.
#[verifier::external_body]
pub(crate) fn ed25519_sign(keypair: &[u8], message: &[u8]) -> (r: Vec<u8>)
    requires
        keypair@.len() == 64,
    ensures
        r@ == ed25519_signature_of(keypair@, message@),
        r@.len() == 64,
{
    let mut arr = [0u8; 64];
    arr.copy_from_slice(keypair);
    let signature = cryptoxide::ed25519::signature(message, &arr);
    signature.to_vec()
}

/// Relies on bip39's `Language::English.find_word`: a binary search of the
/// sorted 2048-word English wordlist, so any returned index is below 2048
/// and depends on the word alone.
#[verifier::external_body]
pub(crate) fn word_index(word: &str) -> (r: Option<u16>)
    ensures
        r == english_word_index(word@),
        r matches Some(i) ==> i < 2048,
{
    bip39::Language::English.find_word(word)
}

/// Relies on `str::split_whitespace` of std: the words of the phrase in
/// order, none of them empty, a function of the phrase alone.
#[verifier::external_body]
pub(crate) fn split_words(phrase: &str) -> (r: Vec<String>)
    ensures
        r@.map_values(|w: String| w@) == words_of(phrase@),
{
    phrase.split_whitespace().map(|w| w.to_string()).collect()
}

} // verus!
