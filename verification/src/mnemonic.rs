use vstd::prelude::*;

use crate::crypto::english_word_index;
use crate::crypto::sha256;
use crate::crypto::sha256_of;
use crate::crypto::split_words;
use crate::crypto::word_index;
use crate::crypto::words_of;
use crate::errors::WalletError;

verus! {

/// Bit `j` (0 = most significant of eleven) of a wordlist index.
pub open spec fn index_bit(i: u16, j: int) -> bool
    recommends
        0 <= j < 11,
{
    (i >> ((10 - j) as u16)) & 1 == 1
}

/// Bit `j` (0 = most significant of eight) of a byte.
pub open spec fn byte_bit(b: u8, j: int) -> bool
    recommends
        0 <= j < 8,
{
    (b >> ((7 - j) as u8)) & 1 == 1
}

/// The bits encoded by a sequence of wordlist indices, eleven bits per
/// word, most significant first.
pub open spec fn bits_of_indices(idx: Seq<u16>) -> Seq<bool> {
    Seq::new(idx.len() * 11, |k: int| index_bit(idx[k / 11], k % 11))
}

/// A byte assembled from the eight bits starting at `off`, most
/// significant first.
pub open spec fn byte_of_bits(bits: Seq<bool>, off: int) -> u8
    recommends
        0 <= off,
        off + 8 <= bits.len(),
{
    ((if bits[off] {
        128int
    } else {
        0int
    }) + (if bits[off + 1] {
        64int
    } else {
        0int
    }) + (if bits[off + 2] {
        32int
    } else {
        0int
    }) + (if bits[off + 3] {
        16int
    } else {
        0int
    }) + (if bits[off + 4] {
        8int
    } else {
        0int
    }) + (if bits[off + 5] {
        4int
    } else {
        0int
    }) + (if bits[off + 6] {
        2int
    } else {
        0int
    }) + (if bits[off + 7] {
        1int
    } else {
        0int
    })) as u8
}

/// The first `n` bytes packed from a bit sequence.
pub open spec fn bytes_of_bits(bits: Seq<bool>, n: int) -> Seq<u8> {
    Seq::new(n as nat, |i: int| byte_of_bits(bits, 8 * i))
}

/// The word counts a recovery phrase may have.
pub open spec fn valid_word_count(n: int) -> bool {
    n == 12 || n == 15 || n == 18 || n == 21 || n == 24
}

/// How many entropy bytes a phrase of `n` words encodes.
pub open spec fn entropy_bytes_of_count(n: int) -> int {
    if n == 12 {
        16
    } else if n == 15 {
        20
    } else if n == 18 {
        24
    } else if n == 21 {
        28
    } else if n == 24 {
        32
    } else {
        0
    }
}

/// How many checksum bits follow the entropy: one per three words.
pub open spec fn checksum_bits_of_count(n: int) -> int {
    n / 3
}

/// Whether every word of a phrase stands in the English wordlist.
pub open spec fn all_words_known(ws: Seq<Seq<char>>) -> bool {
    forall|i: int| 0 <= i < ws.len() ==> english_word_index(ws[i]) is Some
}

/// The wordlist indices of a phrase's words (meaningful when all words are
/// known).
pub open spec fn indices_of_words(ws: Seq<Seq<char>>) -> Seq<u16> {
    Seq::new(ws.len(), |i: int| english_word_index(ws[i]).unwrap())
}

/// Whether the `cs` checksum bits at position `ent` in `bits` equal the
/// leading bits of the SHA-256 digest of the entropy.
pub open spec fn checksum_matches(bits: Seq<bool>, entropy: Seq<u8>, ent: int, cs: int) -> bool {
    forall|j: int| 0 <= j < cs ==> bits[ent + j] == byte_bit(sha256_of(entropy)[0], j)
}

/// The entropy bytes a phrase encodes (meaningful when the phrase is
/// valid).
pub open spec fn phrase_entropy(phrase: Seq<char>) -> Seq<u8> {
    let ws = words_of(phrase);
    let bits = bits_of_indices(indices_of_words(ws));
    bytes_of_bits(bits, entropy_bytes_of_count(ws.len() as int))
}

/// A phrase is a valid mnemonic when it has an accepted word count, every
/// word stands in the wordlist, and the checksum bits that follow the
/// entropy equal the leading bits of the entropy's SHA-256 digest.
pub open spec fn valid_mnemonic(phrase: Seq<char>) -> bool {
    let ws = words_of(phrase);
    let n = ws.len() as int;
    let bits = bits_of_indices(indices_of_words(ws));
    let nb = entropy_bytes_of_count(n);
    &&& valid_word_count(n)
    &&& all_words_known(ws)
    &&& checksum_matches(bits, bytes_of_bits(bits, nb), 8 * nb, checksum_bits_of_count(n))
}

/// Validate a recovery phrase and return the entropy it encodes.
///
/// Succeeds exactly on valid mnemonics; every failure is
/// [`WalletError::InvalidMnemonic`].
pub fn mnemonic_to_entropy(phrase: &str) -> (r: Result<Vec<u8>, WalletError>)
    ensures
        r is Ok <==> valid_mnemonic(phrase@),
        r matches Ok(e) ==> e@ == phrase_entropy(phrase@) && e@.len() == entropy_bytes_of_count(
            words_of(phrase@).len() as int,
        ),
        r matches Err(err) ==> err == WalletError::InvalidMnemonic,
{
    let ghost ws = words_of(phrase@);
    let words = split_words(phrase);
    proof {
        assert(words@.map_values(|w: String| w@).len() == ws.len());
    }
    let n = words.len();
    let (nb, cs): (usize, usize) = if n == 12 {
        (16, 4)
    } else if n == 15 {
        (20, 5)
    } else if n == 18 {
        (24, 6)
    } else if n == 21 {
        (28, 7)
    } else if n == 24 {
        (32, 8)
    } else {
        return Err(WalletError::InvalidMnemonic);
    };
    proof {
        assert(valid_word_count(n as int));
        assert(nb == entropy_bytes_of_count(n as int));
        assert(cs as int == checksum_bits_of_count(n as int));
        assert(8 * nb + cs == 11 * n);
    }

    let mut idx: Vec<u16> = Vec::new();
    let mut i: usize = 0;
    while i < n
        invariant
            i <= n,
            n == words@.len(),
            ws == words_of(phrase@),
            words@.map_values(|w: String| w@) == ws,
            idx@.len() == i,
            forall|k: int| 0 <= k < i ==> english_word_index(ws[k]) == Some(idx@[k]),
            forall|k: int| 0 <= k < i ==> idx@[k] < 2048,
        decreases n - i,
    {
        proof {
            assert(ws[i as int] == words@.map_values(|w: String| w@)[i as int]);
        }
        match word_index(words[i].as_str()) {
            Some(w) => idx.push(w),
            None => {
                proof {
                    assert(english_word_index(ws[i as int]) is None);
                    assert(!all_words_known(ws));
                }
                return Err(WalletError::InvalidMnemonic);
            },
        }
        i += 1;
    }
    proof {
        assert(idx@ =~= indices_of_words(ws));
    }

    let mut bits: Vec<bool> = Vec::new();
    let mut i: usize = 0;
    while i < n
        invariant
            i <= n,
            idx@.len() == n,
            bits@.len() == 11 * i,
            forall|k: int| 0 <= k < bits@.len() ==> bits@[k] == index_bit(idx@[k / 11], k % 11),
        decreases n - i,
    {
        let w = idx[i];
        let mut j: usize = 0;
        while j < 11
            invariant
                i < n,
                j <= 11,
                idx@.len() == n,
                w == idx@[i as int],
                bits@.len() == 11 * i + j,
                forall|k: int| 0 <= k < bits@.len() ==> bits@[k] == index_bit(
                    idx@[k / 11],
                    k % 11,
                ),
            decreases 11 - j,
        {
            let shift: u16 = (10 - j) as u16;
            let b = ((w >> shift) & 1) == 1;
            bits.push(b);
            proof {
                let k = 11 * (i as int) + (j as int);
                assert(k / 11 == i as int && k % 11 == j as int) by (nonlinear_arith)
                    requires
                        k == 11 * (i as int) + (j as int),
                        0 <= j < 11,
                        0 <= i,
                ;
                assert(b == index_bit(idx@[k / 11], k % 11));
            }
            j += 1;
        }
        i += 1;
    }
    proof {
        assert(bits@ =~= bits_of_indices(idx@));
    }

    let mut entropy: Vec<u8> = Vec::new();
    let mut i: usize = 0;
    while i < nb
        invariant
            i <= nb,
            nb <= 32,
            cs <= 8,
            8 * nb + cs == bits@.len(),
            entropy@.len() == i,
            forall|k: int| 0 <= k < i ==> entropy@[k] == byte_of_bits(bits@, 8 * k),
        decreases nb - i,
    {
        let base = 8 * i;
        let b: u8 = (if bits[base] {
            128
        } else {
            0
        }) + (if bits[base + 1] {
            64
        } else {
            0
        }) + (if bits[base + 2] {
            32
        } else {
            0
        }) + (if bits[base + 3] {
            16
        } else {
            0
        }) + (if bits[base + 4] {
            8
        } else {
            0
        }) + (if bits[base + 5] {
            4
        } else {
            0
        }) + (if bits[base + 6] {
            2
        } else {
            0
        }) + (if bits[base + 7] {
            1
        } else {
            0
        });
        entropy.push(b);
        i += 1;
    }
    proof {
        assert(entropy@ =~= bytes_of_bits(bits@, nb as int));
    }

    let h = sha256(entropy.as_slice());
    let h0 = h[0];
    let mut j: usize = 0;
    while j < cs
        invariant
            j <= cs,
            cs <= 8,
            nb <= 32,
            8 * nb + cs == bits@.len(),
            ws == words_of(phrase@),
            n == ws.len(),
            valid_word_count(n as int),
            nb == entropy_bytes_of_count(n as int),
            cs as int == checksum_bits_of_count(n as int),
            idx@ == indices_of_words(ws),
            bits@ == bits_of_indices(idx@),
            h@.len() == 32,
            h@ == sha256_of(entropy@),
            h0 == h@[0],
            entropy@ == bytes_of_bits(bits@, nb as int),
            forall|k: int| 0 <= k < j ==> bits@[8 * nb + k] == byte_bit(h0, k),
        decreases cs - j,
    {
        let shift: u8 = (7 - j) as u8;
        let cb = ((h0 >> shift) & 1) == 1;
        if bits[8 * nb + j] != cb {
            proof {
                assert(cb == byte_bit(sha256_of(entropy@)[0], j as int));
                assert(bits@[8 * (nb as int) + j as int] != byte_bit(
                    sha256_of(bytes_of_bits(bits@, nb as int))[0],
                    j as int,
                ));
                assert(!checksum_matches(
                    bits@,
                    bytes_of_bits(bits@, nb as int),
                    8 * nb as int,
                    cs as int,
                ));
            }
            return Err(WalletError::InvalidMnemonic);
        }
        j += 1;
    }
    proof {
        assert(checksum_matches(
            bits@,
            bytes_of_bits(bits@, nb as int),
            8 * nb as int,
            cs as int,
        ));
        assert(valid_mnemonic(phrase@));
    }
    Ok(entropy)
}

} // verus!
