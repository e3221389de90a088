//! Lowercase hexadecimal and decimal rendering of numbers and byte strings.

use vstd::prelude::*;
use vstd::string::*;

verus! {

/// The character that stands for the digit `n`: `0` to `9`, then `a` to `f` for ten to
/// fifteen.
pub open spec fn digit_char(n: int) -> char {
    if n == 0 {
        '0'
    } else if n == 1 {
        '1'
    } else if n == 2 {
        '2'
    } else if n == 3 {
        '3'
    } else if n == 4 {
        '4'
    } else if n == 5 {
        '5'
    } else if n == 6 {
        '6'
    } else if n == 7 {
        '7'
    } else if n == 8 {
        '8'
    } else if n == 9 {
        '9'
    } else if n == 10 {
        'a'
    } else if n == 11 {
        'b'
    } else if n == 12 {
        'c'
    } else if n == 13 {
        'd'
    } else if n == 14 {
        'e'
    } else {
        'f'
    }
}

/// Whether `c` is one of the sixteen lowercase hexadecimal digits.
pub open spec fn is_lower_hex(c: char) -> bool {
    exists|n: int| 0 <= n < 16 && c == #[trigger] digit_char(n)
}

/// `value` modulo `16^width`, written with exactly `width` lowercase hexadecimal digits, the
/// most significant first.
pub open spec fn hex_of_nat(value: nat, width: nat) -> Seq<char>
    decreases width,
{
    if width == 0 {
        Seq::empty()
    } else {
        hex_of_nat(value / 16, (width - 1) as nat).push(digit_char((value % 16) as int))
    }
}

/// Each byte of `bytes`, in order, written with two lowercase hexadecimal digits.
pub open spec fn hex_of_bytes(bytes: Seq<u8>) -> Seq<char>
    decreases bytes.len(),
{
    if bytes.len() == 0 {
        Seq::empty()
    } else {
        hex_of_bytes(bytes.drop_last()) + hex_of_nat(bytes.last() as nat, 2)
    }
}

/// `value` in decimal, without leading zeros.
pub open spec fn decimal_of_nat(value: nat) -> Seq<char>
    decreases value,
{
    if value < 10 {
        seq![digit_char(value as int)]
    } else {
        decimal_of_nat(value / 10).push(digit_char((value % 10) as int))
    }
}

/// `value` modulo `10^width`, written with exactly `width` decimal digits.
pub open spec fn decimal_fixed(value: nat, width: nat) -> Seq<char>
    decreases width,
{
    if width == 0 {
        Seq::empty()
    } else {
        decimal_fixed(value / 10, (width - 1) as nat).push(digit_char((value % 10) as int))
    }
}

/// A hexadecimal rendering is exactly as wide as asked for.
pub proof fn lemma_hex_of_nat_len(value: nat, width: nat)
    ensures
        hex_of_nat(value, width).len() == width,
    decreases width,
{
    if width > 0 {
        lemma_hex_of_nat_len(value / 16, (width - 1) as nat);
    }
}

/// A rendered byte string has two digits for each byte.
pub proof fn lemma_hex_of_bytes_len(bytes: Seq<u8>)
    ensures
        hex_of_bytes(bytes).len() == 2 * bytes.len(),
    decreases bytes.len(),
{
    if bytes.len() > 0 {
        lemma_hex_of_bytes_len(bytes.drop_last());
        lemma_hex_of_nat_len(bytes.last() as nat, 2);
    }
}

/// Every character of a hexadecimal rendering is a lowercase hexadecimal digit.
pub proof fn lemma_hex_of_nat_digits(value: nat, width: nat)
    ensures
        forall|i: int| 0 <= i < width ==> is_lower_hex(#[trigger] hex_of_nat(value, width)[i]),
    decreases width,
{
    lemma_hex_of_nat_len(value, width);
    if width > 0 {
        lemma_hex_of_nat_len(value / 16, (width - 1) as nat);
        lemma_hex_of_nat_digits(value / 16, (width - 1) as nat);
        let last = digit_char((value % 16) as int);
        assert(is_lower_hex(last));
        assert forall|i: int| 0 <= i < width implies is_lower_hex(
            #[trigger] hex_of_nat(value, width)[i],
        ) by {
            if i < width - 1 {
                assert(hex_of_nat(value, width)[i] == hex_of_nat(value / 16, (width - 1) as nat)[i]);
            } else {
                assert(hex_of_nat(value, width)[i] == last);
            }
        }
    }
}

/// Every character of a rendered byte string is a lowercase hexadecimal digit.
pub proof fn lemma_hex_of_bytes_digits(bytes: Seq<u8>)
    ensures
        forall|i: int|
            0 <= i < 2 * bytes.len() ==> is_lower_hex(#[trigger] hex_of_bytes(bytes)[i]),
    decreases bytes.len(),
{
    lemma_hex_of_bytes_len(bytes);
    if bytes.len() > 0 {
        let head = bytes.drop_last();
        lemma_hex_of_bytes_len(head);
        lemma_hex_of_bytes_digits(head);
        lemma_hex_of_nat_len(bytes.last() as nat, 2);
        lemma_hex_of_nat_digits(bytes.last() as nat, 2);
        assert forall|i: int| 0 <= i < 2 * bytes.len() implies is_lower_hex(
            #[trigger] hex_of_bytes(bytes)[i],
        ) by {
            if i < 2 * head.len() {
                assert(hex_of_bytes(bytes)[i] == hex_of_bytes(head)[i]);
            } else {
                assert(hex_of_bytes(bytes)[i] == hex_of_nat(bytes.last() as nat, 2)[i - 2
                    * head.len()]);
            }
        }
    }
}

/// The one-character string that holds the digit for `n`.
fn digit_str(n: u8) -> (text: &'static str)
    requires
        n < 16,
    ensures
        text@ == seq![digit_char(n as int)],
{
    proof {
        reveal_strlit("0");
        reveal_strlit("1");
        reveal_strlit("2");
        reveal_strlit("3");
        reveal_strlit("4");
        reveal_strlit("5");
        reveal_strlit("6");
        reveal_strlit("7");
        reveal_strlit("8");
        reveal_strlit("9");
        reveal_strlit("a");
        reveal_strlit("b");
        reveal_strlit("c");
        reveal_strlit("d");
        reveal_strlit("e");
        reveal_strlit("f");
    }
    let text = match n {
        0 => "0",
        1 => "1",
        2 => "2",
        3 => "3",
        4 => "4",
        5 => "5",
        6 => "6",
        7 => "7",
        8 => "8",
        9 => "9",
        10 => "a",
        11 => "b",
        12 => "c",
        13 => "d",
        14 => "e",
        _ => "f",
    };
    assert(text@ =~= seq![digit_char(n as int)]);
    text
}

/// Appends to `out` the `width` lowest hexadecimal digits of `value`.
pub fn push_hex(out: &mut String, value: u128, width: usize)
    ensures
        final(out)@ == old(out)@ + hex_of_nat(value as nat, width as nat),
    decreases width,
{
    if width > 0 {
        push_hex(out, value / 16, width - 1);
        let digit: u8 = (value % 16) as u8;
        out.append(digit_str(digit));
        assert(out@ =~= old(out)@ + hex_of_nat(value as nat, width as nat));
    } else {
        assert(out@ =~= old(out)@ + hex_of_nat(value as nat, width as nat));
    }
}

/// Appends to `out` the decimal digits of `value`.
pub fn push_decimal(out: &mut String, value: u128)
    ensures
        final(out)@ == old(out)@ + decimal_of_nat(value as nat),
    decreases value,
{
    if value >= 10 {
        push_decimal(out, value / 10);
    }
    let digit: u8 = (value % 10) as u8;
    out.append(digit_str(digit));
    assert(out@ =~= old(out)@ + decimal_of_nat(value as nat));
}

/// Appends to `out` the `width` lowest decimal digits of `value`.
pub fn push_decimal_fixed(out: &mut String, value: u128, width: usize)
    ensures
        final(out)@ == old(out)@ + decimal_fixed(value as nat, width as nat),
    decreases width,
{
    if width > 0 {
        push_decimal_fixed(out, value / 10, width - 1);
        let digit: u8 = (value % 10) as u8;
        out.append(digit_str(digit));
    }
    assert(out@ =~= old(out)@ + decimal_fixed(value as nat, width as nat));
}

/// `value` as eight lowercase hexadecimal digits.
pub fn hex_u32(value: u32) -> (text: String)
    ensures
        text@ == hex_of_nat(value as nat, 8),
{
    let mut text = String::new();
    push_hex(&mut text, value as u128, 8);
    assert(text@ =~= hex_of_nat(value as nat, 8));
    text
}

/// `value` as sixteen lowercase hexadecimal digits.
pub fn hex_u64(value: u64) -> (text: String)
    ensures
        text@ == hex_of_nat(value as nat, 16),
{
    let mut text = String::new();
    push_hex(&mut text, value as u128, 16);
    assert(text@ =~= hex_of_nat(value as nat, 16));
    text
}

/// `value` as thirty-two lowercase hexadecimal digits.
pub fn hex_u128(value: u128) -> (text: String)
    ensures
        text@ == hex_of_nat(value as nat, 32),
{
    let mut text = String::new();
    push_hex(&mut text, value, 32);
    assert(text@ =~= hex_of_nat(value as nat, 32));
    text
}

/// The bytes of `bytes`, in order, as two lowercase hexadecimal digits each.
pub fn hex_bytes(bytes: &[u8]) -> (text: String)
    ensures
        text@ == hex_of_bytes(bytes@),
{
    let mut text = String::new();
    let mut i: usize = 0;
    while i < bytes.len()
        invariant
            i <= bytes.len(),
            text@ == hex_of_bytes(bytes@.subrange(0, i as int)),
        decreases bytes.len() - i,
    {
        let ghost before = text@;
        push_hex(&mut text, bytes[i] as u128, 2);
        proof {
            let next = bytes@.subrange(0, i + 1);
            assert(next.drop_last() =~= bytes@.subrange(0, i as int));
            assert(next.last() == bytes@[i as int]);
        }
        i = i + 1;
    }
    assert(bytes@.subrange(0, i as int) =~= bytes@);
    text
}

} // verus!
