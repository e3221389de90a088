//! CRC-32C (Castagnoli), reflected form: the 256-entry lookup table and the byte-at-a-time
//! streaming register that uses it.

use vstd::prelude::*;

verus! {

/// The Castagnoli polynomial in reflected (least significant bit first) form.
pub const CRC32C_POLYNOMIAL: u32 = 0x82F63B78;

/// The register before any byte is absorbed, and the mask applied to it at the end.
pub const CRC32C_ALL_ONES: u32 = 0xFFFFFFFF;

/// One bit of reflected polynomial division: shift right, and fold the polynomial in when the
/// bit shifted out was set.
pub open spec fn reflect_step(c: u32) -> u32 {
    if (c & 1) != 0 {
        CRC32C_POLYNOMIAL ^ (c >> 1)
    } else {
        c >> 1
    }
}

/// `n` steps of reflected polynomial division applied to `c`.
pub open spec fn reflect_bits(c: u32, n: nat) -> u32
    decreases n,
{
    if n == 0 {
        c
    } else {
        reflect_step(reflect_bits(c, (n - 1) as nat))
    }
}

/// The table entry for the byte value `i`: eight division steps applied to `i`.
pub open spec fn table_entry(i: int) -> u32 {
    reflect_bits(i as u32, 8)
}

/// The whole lookup table: 256 entries, one for each byte value.
pub open spec fn crc32c_table() -> Seq<u32> {
    Seq::new(256, |i: int| table_entry(i))
}

/// The low byte of the register.
pub open spec fn low_byte(register: u32) -> u8 {
    (register & 0xff) as u8
}

/// The register after one more byte: shifted right by eight bits and combined with the table
/// entry selected by the low byte of the register and the input byte.
pub open spec fn absorb_byte(register: u32, byte: u8) -> u32 {
    (register >> 8) ^ table_entry((low_byte(register) ^ byte) as int)
}

/// The register after the bytes of `bytes`, in order.
pub open spec fn absorb(register: u32, bytes: Seq<u8>) -> u32
    decreases bytes.len(),
{
    if bytes.len() == 0 {
        register
    } else {
        absorb_byte(absorb(register, bytes.drop_last()), bytes.last())
    }
}

/// The CRC-32C checksum of `bytes`: start from all ones, absorb every byte, invert.
pub open spec fn crc32c_checksum(bytes: Seq<u8>) -> u32 {
    absorb(CRC32C_ALL_ONES, bytes) ^ CRC32C_ALL_ONES
}

/// Absorbing a concatenation is absorbing its first part and then, from the register so
/// reached, its second part: where a stream is cut into chunks does not matter.
pub proof fn lemma_absorb_concat(register: u32, first: Seq<u8>, second: Seq<u8>)
    ensures
        absorb(register, first + second) == absorb(absorb(register, first), second),
    decreases second.len(),
{
    if second.len() == 0 {
        assert(first + second =~= first);
    } else {
        lemma_absorb_concat(register, first, second.drop_last());
        assert((first + second).drop_last() =~= first + second.drop_last());
        assert((first + second).last() == second.last());
    }
}

/// Eight division steps written out one after another.
pub open spec fn reflect_byte(c: u32) -> u32 {
    reflect_step(
        reflect_step(
            reflect_step(
                reflect_step(reflect_step(reflect_step(reflect_step(reflect_step(c))))),
            ),
        ),
    )
}

proof fn lemma_table_step_bits(register: u32, byte: u8)
    by (bit_vector)
    ensures
        (register >> 8) ^ reflect_byte((((register & 0xff) as u8) ^ byte) as u32) == reflect_byte(
            register ^ (byte as u32),
        ),
{
}

/// The table-driven step is bit-serial division: absorbing a byte gives what eight division
/// steps give on the register combined with that byte.
pub proof fn lemma_absorb_byte_is_bitwise(register: u32, byte: u8)
    ensures
        absorb_byte(register, byte) == reflect_bits(register ^ (byte as u32), 8),
{
    reveal_with_fuel(reflect_bits, 9);
    let index = (low_byte(register) ^ byte) as u32;
    assert(reflect_bits(index, 8) == reflect_byte(index));
    assert(reflect_bits(register ^ (byte as u32), 8) == reflect_byte(register ^ (byte as u32)));
    lemma_table_step_bits(register, byte);
    assert(((low_byte(register) ^ byte) as int) as u32 == index);
}

/// The check value of CRC-32C: the checksum of the nine ASCII digits `123456789` is
/// `e3069283`.
pub proof fn lemma_check_value()
    ensures
        crc32c_checksum(seq![0x31u8, 0x32, 0x33, 0x34, 0x35, 0x36, 0x37, 0x38, 0x39])
            == 0xe3069283u32,
{
    let text = seq![0x31u8, 0x32, 0x33, 0x34, 0x35, 0x36, 0x37, 0x38, 0x39];
    reveal_with_fuel(reflect_bits, 9);
    assert(absorb(CRC32C_ALL_ONES, text.subrange(0, 0)) == CRC32C_ALL_ONES);
    assert(reflect_byte(0xffffffffu32 ^ 0x31u32) == 0x6f0a661cu32) by (bit_vector);
    lemma_absorb_byte_is_bitwise(0xffffffff, 0x31);
    assert(text.subrange(0, 1).drop_last() =~= text.subrange(0, 0));
    assert(absorb(CRC32C_ALL_ONES, text.subrange(0, 1)) == 0x6f0a661cu32);
    assert(reflect_byte(0x6f0a661cu32 ^ 0x32u32) == 0x8caa3b9fu32) by (bit_vector);
    lemma_absorb_byte_is_bitwise(0x6f0a661c, 0x32);
    assert(text.subrange(0, 2).drop_last() =~= text.subrange(0, 1));
    assert(absorb(CRC32C_ALL_ONES, text.subrange(0, 2)) == 0x8caa3b9fu32);
    assert(reflect_byte(0x8caa3b9fu32 ^ 0x33u32) == 0xef84d04du32) by (bit_vector);
    lemma_absorb_byte_is_bitwise(0x8caa3b9f, 0x33);
    assert(text.subrange(0, 3).drop_last() =~= text.subrange(0, 2));
    assert(absorb(CRC32C_ALL_ONES, text.subrange(0, 3)) == 0xef84d04du32);
    assert(reflect_byte(0xef84d04du32 ^ 0x34u32) == 0x09c50b11u32) by (bit_vector);
    lemma_absorb_byte_is_bitwise(0xef84d04d, 0x34);
    assert(text.subrange(0, 4).drop_last() =~= text.subrange(0, 3));
    assert(absorb(CRC32C_ALL_ONES, text.subrange(0, 4)) == 0x09c50b11u32);
    assert(reflect_byte(0x09c50b11u32 ^ 0x35u32) == 0xe72edccau32) by (bit_vector);
    lemma_absorb_byte_is_bitwise(0x09c50b11, 0x35);
    assert(text.subrange(0, 5).drop_last() =~= text.subrange(0, 4));
    assert(absorb(CRC32C_ALL_ONES, text.subrange(0, 5)) == 0xe72edccau32);
    assert(reflect_byte(0xe72edccau32 ^ 0x36u32) == 0xbeca8e79u32) by (bit_vector);
    lemma_absorb_byte_is_bitwise(0xe72edcca, 0x36);
    assert(text.subrange(0, 6).drop_last() =~= text.subrange(0, 5));
    assert(absorb(CRC32C_ALL_ONES, text.subrange(0, 6)) == 0xbeca8e79u32);
    assert(reflect_byte(0xbeca8e79u32 ^ 0x37u32) == 0xedbd6815u32) by (bit_vector);
    lemma_absorb_byte_is_bitwise(0xbeca8e79, 0x37);
    assert(text.subrange(0, 7).drop_last() =~= text.subrange(0, 6));
    assert(absorb(CRC32C_ALL_ONES, text.subrange(0, 7)) == 0xedbd6815u32);
    assert(reflect_byte(0xedbd6815u32 ^ 0x38u32) == 0x9f787f65u32) by (bit_vector);
    lemma_absorb_byte_is_bitwise(0xedbd6815, 0x38);
    assert(text.subrange(0, 8).drop_last() =~= text.subrange(0, 7));
    assert(absorb(CRC32C_ALL_ONES, text.subrange(0, 8)) == 0x9f787f65u32);
    assert(reflect_byte(0x9f787f65u32 ^ 0x39u32) == 0x1cf96d7cu32) by (bit_vector);
    lemma_absorb_byte_is_bitwise(0x9f787f65, 0x39);
    assert(text.subrange(0, 9).drop_last() =~= text.subrange(0, 8));
    assert(absorb(CRC32C_ALL_ONES, text.subrange(0, 9)) == 0x1cf96d7cu32);
    assert(text.subrange(0, 9) =~= text);
    assert(0x1cf96d7cu32 ^ 0xffffffffu32 == 0xe3069283u32) by (bit_vector);
}

/// The 256-entry lookup table. Read-only once built, so any number of streams may share it.
pub struct Crc32cTable {
    entries: [u32; 256],
}

impl View for Crc32cTable {
    type V = Seq<u32>;

    closed spec fn view(&self) -> Seq<u32> {
        self.entries@
    }
}

impl Crc32cTable {
    #[verifier::type_invariant]
    spec fn well_formed(&self) -> bool {
        forall|i: int| 0 <= i < 256 ==> self.entries[i] == table_entry(i)
    }

    /// Builds the table. Every build gives the same 256 entries.
    pub fn new() -> (table: Crc32cTable)
        ensures
            table@ == crc32c_table(),
    {
        let mut entries = [0u32;256];
        let mut i: usize = 0;
        while i < 256
            invariant
                i <= 256,
                forall|j: int| 0 <= j < i ==> entries[j] == table_entry(j),
            decreases 256 - i,
        {
            let mut c: u32 = i as u32;
            let mut k: usize = 0;
            while k < 8
                invariant
                    k <= 8,
                    i < 256,
                    c == reflect_bits(i as u32, k as nat),
                decreases 8 - k,
            {
                c = if (c & 1) != 0 {
                    CRC32C_POLYNOMIAL ^ (c >> 1)
                } else {
                    c >> 1
                };
                k = k + 1;
            }
            entries[i] = c;
            i = i + 1;
        }
        let table = Crc32cTable { entries };
        assert(table@ =~= crc32c_table());
        table
    }

    /// The entry for the byte value `index`.
    pub fn entry(&self, index: u8) -> (value: u32)
        ensures
            value == table_entry(index as int),
            value == self@[index as int],
    {
        proof {
            use_type_invariant(self);
        }
        self.entries[index as usize]
    }

    /// The 256 entries, in order.
    pub fn entries(&self) -> (entries: Vec<u32>)
        ensures
            entries@ == self@,
            entries@ == crc32c_table(),
    {
        proof {
            use_type_invariant(self);
        }
        let mut out: Vec<u32> = Vec::new();
        let mut i: usize = 0;
        while i < 256
            invariant
                i <= 256,
                out@.len() == i,
                forall|j: int| 0 <= j < i ==> out@[j] == self.entries[j],
                forall|j: int| 0 <= j < 256 ==> self.entries[j] == table_entry(j),
            decreases 256 - i,
        {
            out.push(self.entries[i]);
            i = i + 1;
        }
        assert(out@ =~= self@);
        assert(out@ =~= crc32c_table());
        out
    }
}

/// A CRC-32C computation in progress over a shared table.
pub struct Crc32cStream<'a> {
    table: &'a Crc32cTable,
    register: u32,
    absorbed: Ghost<Seq<u8>>,
}

impl<'a> Crc32cStream<'a> {
    #[verifier::type_invariant]
    spec fn well_formed(&self) -> bool {
        self.register == absorb(CRC32C_ALL_ONES, self.absorbed@)
    }

    /// The bytes absorbed so far, in order.
    pub closed spec fn absorbed(&self) -> Seq<u8> {
        self.absorbed@
    }

    /// A stream that has absorbed nothing yet.
    pub fn new(table: &'a Crc32cTable) -> (stream: Crc32cStream<'a>)
        ensures
            stream.absorbed() == Seq::<u8>::empty(),
    {
        Crc32cStream { table, register: CRC32C_ALL_ONES, absorbed: Ghost(Seq::empty()) }
    }

    /// Absorbs `data` after what was absorbed before.
    pub fn update(&mut self, data: &[u8])
        ensures
            final(self).absorbed() == old(self).absorbed() + data@,
    {
        proof {
            use_type_invariant(&*self);
        }
        let mut crc: u32 = self.register;
        let mut i: usize = 0;
        while i < data.len()
            invariant
                i <= data.len(),
                crc == absorb(CRC32C_ALL_ONES, self.absorbed@ + data@.subrange(0, i as int)),
            decreases data.len() - i,
        {
            let low: u32 = crc & 0xff;
            assert(low < 256) by (bit_vector)
                requires
                    low == crc & 0xff,
            ;
            let index: u8 = (low as u8) ^ data[i];
            proof {
                let before = self.absorbed@ + data@.subrange(0, i as int);
                let after = self.absorbed@ + data@.subrange(0, i + 1);
                assert(after.drop_last() =~= before);
                assert(after.last() == data@[i as int]);
            }
            crc = (crc >> 8) ^ self.table.entry(index);
            i = i + 1;
        }
        assert(data@.subrange(0, i as int) =~= data@);
        *self = Crc32cStream {
            table: self.table,
            register: crc,
            absorbed: Ghost(self.absorbed@ + data@),
        };
    }

    /// The checksum of everything absorbed.
    pub fn checksum(&self) -> (value: u32)
        ensures
            value == crc32c_checksum(self.absorbed()),
    {
        proof {
            use_type_invariant(self);
        }
        self.register ^ CRC32C_ALL_ONES
    }
}

} // verus!
