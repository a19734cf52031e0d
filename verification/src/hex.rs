//! Hexadecimal text: which bytes are digits, what a digit string is worth,
//! and the parse of a digit string into a 16-bit value.

use vstd::prelude::*;

verus! {

/// `true` for the ASCII bytes `0-9`, `a-f` and `A-F`.
pub open spec fn is_hex_digit(byte: u8) -> bool {
    (0x30 <= byte <= 0x39) || (0x61 <= byte <= 0x66) || (0x41 <= byte <= 0x46)
}

/// The number a hex digit stands for, 0 for any other byte.
pub open spec fn digit_value(byte: u8) -> nat {
    if 0x30 <= byte <= 0x39 {
        (byte - 0x30) as nat
    } else if 0x61 <= byte <= 0x66 {
        (byte - 0x61 + 10) as nat
    } else if 0x41 <= byte <= 0x46 {
        (byte - 0x41 + 10) as nat
    } else {
        0
    }
}

/// Every byte of `text` is a hex digit.
pub open spec fn all_hex(text: Seq<u8>) -> bool {
    forall|i: int| 0 <= i < text.len() ==> is_hex_digit(#[trigger] text[i])
}

/// The number that `text` denotes in base 16, most significant digit first.
pub open spec fn hex_value(text: Seq<u8>) -> nat
    decreases text.len(),
{
    if text.len() == 0 {
        0
    } else {
        16 * hex_value(text.drop_last()) + digit_value(text.last())
    }
}

/// The 16-bit value of `text`: present when `text` is a non-empty string of
/// hex digits whose value fits in 16 bits.
pub open spec fn parsed(text: Seq<u8>) -> Option<u16> {
    if text.len() > 0 && all_hex(text) && hex_value(text) <= u16::MAX {
        Some(hex_value(text) as u16)
    } else {
        None
    }
}

/// A prefix of a digit string is worth no more than the whole string.
pub proof fn lemma_prefix_value(text: Seq<u8>, n: int)
    requires
        0 <= n <= text.len(),
    ensures
        hex_value(text.take(n)) <= hex_value(text),
    decreases text.len(),
{
    if n < text.len() {
        lemma_prefix_value(text.drop_last(), n);
        assert(text.drop_last().take(n) =~= text.take(n));
    } else {
        assert(text.take(n) =~= text);
    }
}

/// A string of at most four hex digits is worth less than 65536.
pub proof fn lemma_short_value_fits(text: Seq<u8>)
    requires
        text.len() <= 4,
    ensures
        text.len() == 0 ==> hex_value(text) == 0,
        text.len() == 1 ==> hex_value(text) < 0x10,
        text.len() == 2 ==> hex_value(text) < 0x100,
        text.len() == 3 ==> hex_value(text) < 0x1000,
        text.len() == 4 ==> hex_value(text) < 0x1_0000,
    decreases text.len(),
{
    if text.len() > 0 {
        lemma_short_value_fits(text.drop_last());
    }
}

/// Tells whether `byte` is a hex digit.
pub fn is_hex(byte: u8) -> (hex: bool)
    ensures
        hex == is_hex_digit(byte),
{
    (0x30 <= byte && byte <= 0x39) || (0x61 <= byte && byte <= 0x66) || (0x41 <= byte && byte
        <= 0x46)
}

/// The number a hex digit stands for, `None` for any other byte.
pub fn digit_of(byte: u8) -> (digit: Option<u8>)
    ensures
        digit is Some <==> is_hex_digit(byte),
        digit is Some ==> digit.unwrap() == digit_value(byte),
{
    if 0x30 <= byte && byte <= 0x39 {
        Some(byte - 0x30)
    } else if 0x61 <= byte && byte <= 0x66 {
        Some(byte - 0x61 + 10)
    } else if 0x41 <= byte && byte <= 0x46 {
        Some(byte - 0x41 + 10)
    } else {
        None
    }
}

/// Parses `text` as a base-16 number of at most 16 bits.
///
/// Leading zeros count as digits but add nothing to the value, so
/// `0000ffff` parses while `00010000` does not.
pub fn parse_hex(text: &[u8]) -> (value: Option<u16>)
    ensures
        value == parsed(text@),
{
    if text.len() == 0 {
        return None;
    }
    let mut acc: u32 = 0;
    let mut i: usize = 0;
    while i < text.len()
        invariant
            i <= text.len(),
            acc == hex_value(text@.take(i as int)),
            acc <= u16::MAX,
            all_hex(text@.take(i as int)),
        decreases text.len() - i,
    {
        let ghost before = text@.take(i as int);
        let ghost after = text@.take(i + 1);
        proof {
            assert(after.drop_last() =~= before);
        }
        match digit_of(text[i]) {
            None => {
                return None;
            },
            Some(digit) => {
                acc = 16 * acc + digit as u32;
                proof {
                    assert forall|k: int| 0 <= k < after.len() implies is_hex_digit(
                        #[trigger] after[k],
                    ) by {
                        if k < i {
                            assert(after[k] == before[k]);
                        }
                    }
                }
                if acc > 0xFFFF {
                    proof {
                        lemma_prefix_value(text@, i + 1);
                    }
                    return None;
                }
            },
        }
        i = i + 1;
    }
    proof {
        assert(text@.take(i as int) =~= text@);
    }
    Some(acc as u16)
}

} // verus!
