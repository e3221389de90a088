//! The supported digest algorithms and their fixed properties.

use vstd::prelude::*;
use vstd::string::*;

verus! {

/// Size of the reusable read buffer in streaming mode: 1 MiB.
pub const BUFFER_SIZE: usize = 1048576;

/// Largest file size, in bytes, that is hashed from a single in-memory buffer by default:
/// 200 MiB.
pub const DEFAULT_FULL_LOAD_LIMIT: u64 = 209715200;

/// The digest algorithms a run can be made with.
#[derive(Clone, Copy, Debug, PartialEq, Eq, Structural)]
pub enum HashAlgo {
    Crc32,
    Crc32c,
    City128,
    Xxh3,
    Sha256,
    Sha512,
    Blake2b,
    Blake2s,
}

impl Default for HashAlgo {
    /// XXH3 is the algorithm of a run that names none.
    fn default() -> (algo: HashAlgo)
        ensures
            algo == HashAlgo::Xxh3,
    {
        HashAlgo::Xxh3
    }
}

impl HashAlgo {
    /// Whether the algorithm can hash a file chunk by chunk. Only City128 cannot.
    pub open spec fn spec_streaming_capable(self) -> bool {
        self != HashAlgo::City128
    }

    /// The number of hexadecimal characters in a digest of this algorithm.
    pub open spec fn spec_digest_hex_width(self) -> nat {
        match self {
            HashAlgo::Crc32 => 8,
            HashAlgo::Crc32c => 8,
            HashAlgo::City128 => 32,
            HashAlgo::Xxh3 => 16,
            HashAlgo::Sha256 => 64,
            HashAlgo::Sha512 => 128,
            HashAlgo::Blake2b => 128,
            HashAlgo::Blake2s => 64,
        }
    }

    /// The algorithm that an answer to the interactive menu selects: `1` to `8` in the order
    /// of the variants, and XXH3 for anything else.
    pub open spec fn spec_from_menu_choice(choice: Seq<char>) -> HashAlgo {
        if choice == seq!['1'] {
            HashAlgo::Crc32
        } else if choice == seq!['2'] {
            HashAlgo::Crc32c
        } else if choice == seq!['3'] {
            HashAlgo::City128
        } else if choice == seq!['5'] {
            HashAlgo::Sha256
        } else if choice == seq!['6'] {
            HashAlgo::Sha512
        } else if choice == seq!['7'] {
            HashAlgo::Blake2b
        } else if choice == seq!['8'] {
            HashAlgo::Blake2s
        } else {
            HashAlgo::Xxh3
        }
    }

    /// The manifest file name that the interactive mode pairs with the algorithm.
    pub open spec fn spec_default_manifest_name(self) -> Seq<char> {
        match self {
            HashAlgo::Crc32 => "CRC.crc32"@,
            HashAlgo::Crc32c => "CRC.crc32c"@,
            HashAlgo::City128 => "CRC.city128"@,
            HashAlgo::Xxh3 => "CRC.xxhash3"@,
            HashAlgo::Sha256 => "CRC.sha256"@,
            HashAlgo::Sha512 => "CRC.sha512"@,
            HashAlgo::Blake2b => "CRC.blake2b"@,
            HashAlgo::Blake2s => "CRC.blake2s"@,
        }
    }

    /// Whether the algorithm can hash a file chunk by chunk.
    #[verifier::when_used_as_spec(spec_streaming_capable)]
    pub fn streaming_capable(self) -> (capable: bool)
        ensures
            capable == self.spec_streaming_capable(),
    {
        match self {
            HashAlgo::City128 => false,
            _ => true,
        }
    }

    /// The number of hexadecimal characters in a digest of this algorithm.
    pub fn digest_hex_width(self) -> (width: usize)
        ensures
            width == self.spec_digest_hex_width(),
    {
        match self {
            HashAlgo::Crc32 => 8,
            HashAlgo::Crc32c => 8,
            HashAlgo::City128 => 32,
            HashAlgo::Xxh3 => 16,
            HashAlgo::Sha256 => 64,
            HashAlgo::Sha512 => 128,
            HashAlgo::Blake2b => 128,
            HashAlgo::Blake2s => 64,
        }
    }

    /// The algorithm that `choice`, an answer to the interactive menu with the surrounding
    /// white space taken off, selects.
    pub fn from_menu_choice(choice: &str) -> (algo: HashAlgo)
        ensures
            algo == HashAlgo::spec_from_menu_choice(choice@),
    {
        if choice.unicode_len() != 1 {
            return HashAlgo::Xxh3;
        }
        let c = choice.get_char(0);
        assert(choice@ =~= seq![c]);
        if c == '1' {
            HashAlgo::Crc32
        } else if c == '2' {
            HashAlgo::Crc32c
        } else if c == '3' {
            HashAlgo::City128
        } else if c == '5' {
            HashAlgo::Sha256
        } else if c == '6' {
            HashAlgo::Sha512
        } else if c == '7' {
            HashAlgo::Blake2b
        } else if c == '8' {
            HashAlgo::Blake2s
        } else {
            assert(seq![c] != seq!['1'] && seq![c] != seq!['2'] && seq![c] != seq!['3'] && seq![c]
                != seq!['5'] && seq![c] != seq!['6'] && seq![c] != seq!['7'] && seq![c] != seq!['8'])
                by {
                assert(seq![c][0] == c);
                assert(seq!['1'][0] == '1');
                assert(seq!['2'][0] == '2');
                assert(seq!['3'][0] == '3');
                assert(seq!['5'][0] == '5');
                assert(seq!['6'][0] == '6');
                assert(seq!['7'][0] == '7');
                assert(seq!['8'][0] == '8');
            }
            HashAlgo::Xxh3
        }
    }

    /// The manifest file name that the interactive mode pairs with the algorithm.
    pub fn default_manifest_name(self) -> (name: &'static str)
        ensures
            name@ == self.spec_default_manifest_name(),
    {
        match self {
            HashAlgo::Crc32 => "CRC.crc32",
            HashAlgo::Crc32c => "CRC.crc32c",
            HashAlgo::City128 => "CRC.city128",
            HashAlgo::Xxh3 => "CRC.xxhash3",
            HashAlgo::Sha256 => "CRC.sha256",
            HashAlgo::Sha512 => "CRC.sha512",
            HashAlgo::Blake2b => "CRC.blake2b",
            HashAlgo::Blake2s => "CRC.blake2s",
        }
    }
}

} // verus!
