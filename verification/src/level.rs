//! The `level` request field: a decimal number from 0 to 9, read leniently.

use vstd::prelude::*;

verus! {

/// The highest level; the lowest is 0.
pub const MAX_LEVEL: u32 = 9;

/// Level used whenever the request does not give a usable one.
pub const DEFAULT_LEVEL: u32 = 6;

/// ASCII `0`.
pub const ZERO: u8 = 0x30;

/// ASCII `+`.
pub const PLUS: u8 = 0x2B;

/// Whether the byte is one of ASCII `0` to `9`.
pub open spec fn is_digit(b: u8) -> bool {
    ZERO <= b <= ZERO + 9
}

/// Whether every byte is a digit.
pub open spec fn all_digits(s: Seq<u8>) -> bool {
    forall|i: int| 0 <= i < s.len() ==> is_digit(#[trigger] s[i])
}

/// The number that a run of decimal digits writes, most significant first.
pub open spec fn decimal_value(s: Seq<u8>) -> nat
    decreases s.len(),
{
    if s.len() == 0 {
        0
    } else {
        decimal_value(s.drop_last()) * 10 + (s.last() - ZERO) as nat
    }
}

/// The text without one leading `+`, if it has one.
pub open spec fn unsigned_part(s: Seq<u8>) -> Seq<u8> {
    if s.len() > 0 && s[0] == PLUS {
        s.subrange(1, s.len() as int)
    } else {
        s
    }
}

/// A text is an unsigned decimal number when, after an optional `+`, it is a
/// non-empty run of digits. No blanks, no `-`, nothing but ASCII.
pub open spec fn is_unsigned_decimal(s: Seq<u8>) -> bool {
    unsigned_part(s).len() > 0 && all_digits(unsigned_part(s))
}

/// The level that a field's text asks for: its number, if the text is an
/// unsigned decimal number no greater than [`MAX_LEVEL`].
pub open spec fn requested_level(s: Seq<u8>) -> Option<u32> {
    if is_unsigned_decimal(s) && decimal_value(unsigned_part(s)) <= MAX_LEVEL {
        Some(decimal_value(unsigned_part(s)) as u32)
    } else {
        None
    }
}

/// The level in force after a `level` field with text `s` arrived while
/// `current` was in force.
pub open spec fn level_after(current: u32, s: Seq<u8>) -> u32 {
    match requested_level(s) {
        Some(l) => l,
        None => current,
    }
}

/// Appending a digit multiplies by ten and adds the digit.
pub proof fn lemma_decimal_value_push(s: Seq<u8>, b: u8)
    requires
        is_digit(b),
    ensures
        decimal_value(s.push(b)) == decimal_value(s) * 10 + (b - ZERO),
{
    assert(s.push(b).drop_last() =~= s);
}

/// Reads the text of a `level` field.
pub fn parse_level(text: &[u8]) -> (r: Option<u32>)
    ensures
        r == requested_level(text@),
{
    let n: usize = text.len();
    let start: usize = if n > 0 && text[0] == PLUS { 1 } else { 0 };
    if start == n {
        return None;
    }
    let ghost digits = unsigned_part(text@);
    assert(digits =~= text@.subrange(start as int, n as int));
    // `acc` follows the value read so far, held at 10 once it has passed 9.
    let mut acc: u32 = 0;
    let mut i: usize = start;
    while i < n
        invariant
            start <= i <= n,
            n == text@.len(),
            digits == text@.subrange(start as int, n as int),
            digits == unsigned_part(text@),
            all_digits(digits.take(i - start)),
            acc <= 10,
            acc < 10 ==> acc == decimal_value(digits.take(i - start)),
            acc == 10 ==> decimal_value(digits.take(i - start)) >= 10,
        decreases n - i,
    {
        let b: u8 = text[i];
        if b < ZERO || b > ZERO + 9 {
            assert(!is_digit(digits[i - start]));
            return None;
        }
        proof {
            let before = digits.take(i - start);
            let after = digits.take(i - start + 1);
            assert(after =~= before.push(b));
            lemma_decimal_value_push(before, b);
        }
        let d: u32 = (b - ZERO) as u32;
        acc = if acc >= 1 { 10 } else { d };
        i = i + 1;
    }
    assert(digits.take(n - start) =~= digits);
    if acc <= MAX_LEVEL {
        Some(acc)
    } else {
        None
    }
}

} // verus!
