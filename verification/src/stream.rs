//! The streaming hashers: one interface, `update` and `finalize`, over every algorithm that
//! can hash chunk by chunk, and the one-shot digest of a whole buffer.

use vstd::prelude::*;

use crate::algo::HashAlgo;
use crate::backends::{
    blake2b_absorbed, blake2b_digest, blake2b_finalize, blake2b_new, blake2b_oneshot,
    blake2b_update, blake2s_absorbed, blake2s_digest, blake2s_finalize, blake2s_new,
    blake2s_oneshot, blake2s_update, crc32_absorbed, crc32_ieee, sha256_absorbed, sha256_digest,
    sha256_finalize, sha256_new, sha256_oneshot, sha256_update, sha512_absorbed, sha512_digest,
    sha512_finalize, sha512_new, sha512_oneshot, sha512_update, xxh3_64_hash, xxh3_absorbed,
    Blake2bState, Blake2sState, Sha256State, Sha512State, MAX_INPUT_LEN,
};
use crate::castagnoli::{crc32c_checksum, Crc32cStream, Crc32cTable};
use crate::hex::{
    hex_bytes, hex_of_bytes, hex_of_nat, hex_u32, hex_u64, is_lower_hex, lemma_hex_of_bytes_digits,
    lemma_hex_of_bytes_len, lemma_hex_of_nat_digits, lemma_hex_of_nat_len,
};
use crate::outcome::HashError;

verus! {

/// The digest of `data` under `algo`, in lowercase hexadecimal. City128 is not computed in
/// this library: its 128-bit value comes from outside and is only rendered here.
pub open spec fn digest_hex(algo: HashAlgo, data: Seq<u8>) -> Seq<char>
    recommends
        algo != HashAlgo::City128,
{
    match algo {
        HashAlgo::Crc32 => hex_of_nat(crc32_ieee(data) as nat, 8),
        HashAlgo::Crc32c => hex_of_nat(crc32c_checksum(data) as nat, 8),
        HashAlgo::City128 => Seq::empty(),
        HashAlgo::Xxh3 => hex_of_nat(xxh3_64_hash(data) as nat, 16),
        HashAlgo::Sha256 => hex_of_bytes(sha256_digest(data)),
        HashAlgo::Sha512 => hex_of_bytes(sha512_digest(data)),
        HashAlgo::Blake2b => hex_of_bytes(blake2b_digest(data)),
        HashAlgo::Blake2s => hex_of_bytes(blake2s_digest(data)),
    }
}

/// A digest is made of lowercase hexadecimal digits and of nothing else.
pub proof fn lemma_digest_is_lower_hex(algo: HashAlgo, data: Seq<u8>)
    requires
        algo != HashAlgo::City128,
    ensures
        forall|i: int|
            0 <= i < digest_hex(algo, data).len() ==> is_lower_hex(
                #[trigger] digest_hex(algo, data)[i],
            ),
{
    match algo {
        HashAlgo::Crc32 => {
            lemma_hex_of_nat_len(crc32_ieee(data) as nat, 8);
            lemma_hex_of_nat_digits(crc32_ieee(data) as nat, 8);
        },
        HashAlgo::Crc32c => {
            lemma_hex_of_nat_len(crc32c_checksum(data) as nat, 8);
            lemma_hex_of_nat_digits(crc32c_checksum(data) as nat, 8);
        },
        HashAlgo::City128 => {},
        HashAlgo::Xxh3 => {
            lemma_hex_of_nat_len(xxh3_64_hash(data) as nat, 16);
            lemma_hex_of_nat_digits(xxh3_64_hash(data) as nat, 16);
        },
        HashAlgo::Sha256 => {
            lemma_hex_of_bytes_len(sha256_digest(data));
            lemma_hex_of_bytes_digits(sha256_digest(data));
        },
        HashAlgo::Sha512 => {
            lemma_hex_of_bytes_len(sha512_digest(data));
            lemma_hex_of_bytes_digits(sha512_digest(data));
        },
        HashAlgo::Blake2b => {
            lemma_hex_of_bytes_len(blake2b_digest(data));
            lemma_hex_of_bytes_digits(blake2b_digest(data));
        },
        HashAlgo::Blake2s => {
            lemma_hex_of_bytes_len(blake2s_digest(data));
            lemma_hex_of_bytes_digits(blake2s_digest(data));
        },
    }
}

/// The digest of a whole buffer, computed in one call.
///
/// There is a digest unless the algorithm is City128, which this library does not compute,
/// or the buffer is longer than `MAX_INPUT_LEN`.
pub fn digest_whole(algo: HashAlgo, data: &[u8]) -> (outcome: Option<String>)
    ensures
        outcome is Some <==> algo != HashAlgo::City128 && data@.len() <= MAX_INPUT_LEN,
        outcome matches Some(text) ==> text@ == digest_hex(algo, data@) && text@.len()
            == algo.spec_digest_hex_width(),
{
    if data.len() as u64 > MAX_INPUT_LEN {
        return None;
    }
    match algo {
        HashAlgo::Crc32 => {
            let value = crc32fast::hash(data);
            proof {
                lemma_hex_of_nat_len(value as nat, 8);
            }
            Some(hex_u32(value))
        },
        HashAlgo::Crc32c => {
            let value = crc32c::crc32c(data);
            proof {
                lemma_hex_of_nat_len(value as nat, 8);
            }
            Some(hex_u32(value))
        },
        HashAlgo::City128 => None,
        HashAlgo::Xxh3 => {
            let value = xxhash_rust::xxh3::xxh3_64(data);
            proof {
                lemma_hex_of_nat_len(value as nat, 16);
            }
            Some(hex_u64(value))
        },
        HashAlgo::Sha256 => {
            let bytes = sha256_oneshot(data);
            proof {
                lemma_hex_of_bytes_len(bytes@);
            }
            Some(hex_bytes(bytes.as_slice()))
        },
        HashAlgo::Sha512 => {
            let bytes = sha512_oneshot(data);
            proof {
                lemma_hex_of_bytes_len(bytes@);
            }
            Some(hex_bytes(bytes.as_slice()))
        },
        HashAlgo::Blake2b => {
            let bytes = blake2b_oneshot(data);
            proof {
                lemma_hex_of_bytes_len(bytes@);
            }
            Some(hex_bytes(bytes.as_slice()))
        },
        HashAlgo::Blake2s => {
            let bytes = blake2s_oneshot(data);
            proof {
                lemma_hex_of_bytes_len(bytes@);
            }
            Some(hex_bytes(bytes.as_slice()))
        },
    }
}

/// The state of one streaming computation, by algorithm.
enum HasherState<'a> {
    Crc32(crc32fast::Hasher),
    Crc32c(Crc32cStream<'a>),
    Xxh3(xxhash_rust::xxh3::Xxh3),
    Sha256(Sha256State),
    Sha512(Sha512State),
    Blake2b(Blake2bState),
    Blake2s(Blake2sState),
}

impl<'a> HasherState<'a> {
    spec fn algo(self) -> HashAlgo {
        match self {
            HasherState::Crc32(_) => HashAlgo::Crc32,
            HasherState::Crc32c(_) => HashAlgo::Crc32c,
            HasherState::Xxh3(_) => HashAlgo::Xxh3,
            HasherState::Sha256(_) => HashAlgo::Sha256,
            HasherState::Sha512(_) => HashAlgo::Sha512,
            HasherState::Blake2b(_) => HashAlgo::Blake2b,
            HasherState::Blake2s(_) => HashAlgo::Blake2s,
        }
    }

    spec fn absorbed(self) -> Seq<u8> {
        match self {
            HasherState::Crc32(state) => crc32_absorbed(state),
            HasherState::Crc32c(state) => state.absorbed(),
            HasherState::Xxh3(state) => xxh3_absorbed(state),
            HasherState::Sha256(state) => sha256_absorbed(state),
            HasherState::Sha512(state) => sha512_absorbed(state),
            HasherState::Blake2b(state) => blake2b_absorbed(state),
            HasherState::Blake2s(state) => blake2s_absorbed(state),
        }
    }
}

/// A digest computation in progress. It belongs to the hashing of one file: it absorbs the
/// chunks of that file in order and is used up by `finalize`.
pub struct StreamHasher<'a> {
    state: HasherState<'a>,
    len: u64,
}

impl<'a> StreamHasher<'a> {
    #[verifier::type_invariant]
    spec fn well_formed(&self) -> bool {
        self.len == self.state.absorbed().len() && self.len <= MAX_INPUT_LEN
    }

    /// The algorithm of the computation.
    pub closed spec fn algo(&self) -> HashAlgo {
        self.state.algo()
    }

    /// The bytes absorbed so far, in order.
    pub closed spec fn absorbed(&self) -> Seq<u8> {
        self.state.absorbed()
    }

    /// A fresh computation for `algo`, over a shared CRC-32C table. There is one for every
    /// algorithm that can stream: for all but City128.
    pub fn new(algo: HashAlgo, table: &'a Crc32cTable) -> (hasher: Option<StreamHasher<'a>>)
        ensures
            hasher is Some <==> algo.spec_streaming_capable(),
            hasher matches Some(h) ==> h.algo() == algo && h.absorbed() == Seq::<u8>::empty(),
    {
        let state = match algo {
            HashAlgo::Crc32 => HasherState::Crc32(crc32fast::Hasher::new()),
            HashAlgo::Crc32c => HasherState::Crc32c(Crc32cStream::new(table)),
            HashAlgo::City128 => {
                return None;
            },
            HashAlgo::Xxh3 => HasherState::Xxh3(xxhash_rust::xxh3::Xxh3::new()),
            HashAlgo::Sha256 => HasherState::Sha256(sha256_new()),
            HashAlgo::Sha512 => HasherState::Sha512(sha512_new()),
            HashAlgo::Blake2b => HasherState::Blake2b(blake2b_new()),
            HashAlgo::Blake2s => HasherState::Blake2s(blake2s_new()),
        };
        Some(StreamHasher { state, len: 0 })
    }

    /// The number of bytes absorbed so far.
    pub fn absorbed_len(&self) -> (len: u64)
        ensures
            len == self.absorbed().len(),
            len <= MAX_INPUT_LEN,
    {
        proof {
            use_type_invariant(self);
        }
        self.len
    }

    /// Absorbs `chunk` after what was absorbed before.
    ///
    /// Fails with `InputTooLong`, and only then, when the chunk would take the input past
    /// `MAX_INPUT_LEN` bytes.
    pub fn update(self, chunk: &[u8]) -> (outcome: Result<StreamHasher<'a>, HashError>)
        ensures
            outcome is Ok <==> self.absorbed().len() + chunk@.len() <= MAX_INPUT_LEN,
            outcome matches Ok(h) ==> h.algo() == self.algo() && h.absorbed() == self.absorbed()
                + chunk@,
            outcome matches Err(e) ==> e == HashError::InputTooLong,
    {
        proof {
            use_type_invariant(&self);
        }
        if chunk.len() as u64 > MAX_INPUT_LEN - self.len {
            return Err(HashError::InputTooLong);
        }
        let len: u64 = self.len + chunk.len() as u64;
        let state = match self.state {
            HasherState::Crc32(mut state) => {
                state.update(chunk);
                HasherState::Crc32(state)
            },
            HasherState::Crc32c(mut state) => {
                state.update(chunk);
                HasherState::Crc32c(state)
            },
            HasherState::Xxh3(mut state) => {
                state.update(chunk);
                HasherState::Xxh3(state)
            },
            HasherState::Sha256(mut state) => {
                sha256_update(&mut state, chunk);
                HasherState::Sha256(state)
            },
            HasherState::Sha512(mut state) => {
                sha512_update(&mut state, chunk);
                HasherState::Sha512(state)
            },
            HasherState::Blake2b(mut state) => {
                blake2b_update(&mut state, chunk);
                HasherState::Blake2b(state)
            },
            HasherState::Blake2s(mut state) => {
                blake2s_update(&mut state, chunk);
                HasherState::Blake2s(state)
            },
        };
        Ok(StreamHasher { state, len })
    }

    /// Ends the computation: the digest of everything absorbed, in lowercase hexadecimal.
    pub fn finalize(self) -> (text: String)
        ensures
            text@ == digest_hex(self.algo(), self.absorbed()),
            text@.len() == self.algo().spec_digest_hex_width(),
    {
        proof {
            use_type_invariant(&self);
        }
        match self.state {
            HasherState::Crc32(state) => {
                let value = state.finalize();
                proof {
                    lemma_hex_of_nat_len(value as nat, 8);
                }
                hex_u32(value)
            },
            HasherState::Crc32c(state) => {
                let value = state.checksum();
                proof {
                    lemma_hex_of_nat_len(value as nat, 8);
                }
                hex_u32(value)
            },
            HasherState::Xxh3(state) => {
                let value = state.digest();
                proof {
                    lemma_hex_of_nat_len(value as nat, 16);
                }
                hex_u64(value)
            },
            HasherState::Sha256(state) => {
                let bytes = sha256_finalize(state);
                proof {
                    lemma_hex_of_bytes_len(bytes@);
                }
                hex_bytes(bytes.as_slice())
            },
            HasherState::Sha512(state) => {
                let bytes = sha512_finalize(state);
                proof {
                    lemma_hex_of_bytes_len(bytes@);
                }
                hex_bytes(bytes.as_slice())
            },
            HasherState::Blake2b(state) => {
                let bytes = blake2b_finalize(state);
                proof {
                    lemma_hex_of_bytes_len(bytes@);
                }
                hex_bytes(bytes.as_slice())
            },
            HasherState::Blake2s(state) => {
                let bytes = blake2s_finalize(state);
                proof {
                    lemma_hex_of_bytes_len(bytes@);
                }
                hex_bytes(bytes.as_slice())
            },
        }
    }
}

} // verus!
