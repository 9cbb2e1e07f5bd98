//! Comparing and reading text.
//!
//! Text is compared byte by byte; the UTF-8 encoding is one-to-one, so equal
//! bytes mean equal characters.

use vstd::prelude::*;
use vstd::std_specs::iter::IteratorSpec;
use vstd::string::StringSliceAdditionalSpecFns;
use vstd::utf8::{encode_utf8, encode_utf8_decode_utf8};

verus! {

/// The encoding of a text is the encoding of any leading part followed by the
/// encoding of the rest.
pub proof fn encoding_of_concat(first: Seq<char>, second: Seq<char>)
    ensures
        encode_utf8(first + second) == encode_utf8(first) + encode_utf8(second),
    decreases first.len(),
{
    if first.len() == 0 {
        assert(first + second =~= second);
        assert(encode_utf8(first) + encode_utf8(second) =~= encode_utf8(second));
    } else {
        encoding_of_concat(first.drop_first(), second);
        assert((first + second).drop_first() =~= first.drop_first() + second);
        assert((first + second)[0] == first[0]);
        assert(encode_utf8(first + second) =~= encode_utf8(first) + encode_utf8(second));
    }
}

/// Two texts with the same encoding are the same text.
pub proof fn encoding_is_one_to_one(a: Seq<char>, b: Seq<char>)
    requires
        encode_utf8(a) == encode_utf8(b),
    ensures
        a == b,
{
    encode_utf8_decode_utf8(a);
    encode_utf8_decode_utf8(b);
}

/// Tells whether `whole` is `first` followed by `second`.
pub fn is_concat(whole: &str, first: &str, second: &str) -> (r: bool)
    ensures
        r == (whole@ == first@ + second@),
{
    let w = whole.as_bytes();
    let f = first.as_bytes();
    let s = second.as_bytes();
    assert((whole@ == first@ + second@) <==> w@ == f@ + s@) by {
        encoding_of_concat(first@, second@);
        if w@ == f@ + s@ {
            encoding_is_one_to_one(whole@, first@ + second@);
        }
    }
    if w.len() < f.len() || w.len() - f.len() != s.len() {
        return false;
    }
    let mut i: usize = 0;
    while i < f.len()
        invariant
            i <= f.len(),
            w.len() == f.len() + s.len(),
            (whole@ == first@ + second@) <==> w@ == f@ + s@,
            forall|k: int| 0 <= k < i ==> w@[k] == f@[k],
        decreases f.len() - i,
    {
        if w[i] != f[i] {
            assert((f@ + s@)[i as int] == f@[i as int]);
            return false;
        }
        i += 1;
    }
    let n: usize = f.len();
    let mut j: usize = 0;
    while j < s.len()
        invariant
            j <= s.len(),
            n == f.len(),
            w.len() == f.len() + s.len(),
            (whole@ == first@ + second@) <==> w@ == f@ + s@,
            forall|k: int| 0 <= k < n ==> w@[k] == f@[k],
            forall|k: int| 0 <= k < j ==> w@[n + k] == s@[k],
        decreases s.len() - j,
    {
        if w[n + j] != s[j] {
            assert((f@ + s@)[n + j] == s@[j as int]);
            return false;
        }
        j += 1;
    }
    assert(w@ =~= f@ + s@) by {
        assert forall|k: int| 0 <= k < w@.len() implies w@[k] == (f@ + s@)[k] by {
            if k >= n {
                assert(w@[n + (k - n)] == s@[k - n]);
            }
        }
    }
    true
}

/// Tells whether two texts are the same.
pub fn same_text(a: &str, b: &str) -> (r: bool)
    ensures
        r == (a@ == b@),
{
    let r = is_concat(a, "", b);
    proof {
        reveal_strlit("");
        assert(""@ + b@ =~= b@);
    }
    r
}

/// A character with the Unicode property `White_Space`.
pub open spec fn is_white_space(c: char) -> bool {
    let u = c as u32;
    ||| 0x09 <= u <= 0x0D
    ||| u == 0x20
    ||| u == 0x85
    ||| u == 0xA0
    ||| u == 0x1680
    ||| 0x2000 <= u <= 0x200A
    ||| u == 0x2028
    ||| u == 0x2029
    ||| u == 0x202F
    ||| u == 0x205F
    ||| u == 0x3000
}

/// A text that holds nothing but white space: trimmed, it is empty.
pub open spec fn blank(text: Seq<char>) -> bool {
    forall|i: int| 0 <= i < text.len() ==> is_white_space(#[trigger] text[i])
}

/// Tells whether a character is white space.
pub fn is_whitespace_char(c: char) -> (r: bool)
    ensures
        r == is_white_space(c),
{
    let u: u32 = c as u32;
    (0x09 <= u && u <= 0x0D) || u == 0x20 || u == 0x85 || u == 0xA0 || u == 0x1680 || (0x2000 <= u
        && u <= 0x200A) || u == 0x2028 || u == 0x2029 || u == 0x202F || u == 0x205F || u == 0x3000
}

/// Tells whether a text holds nothing but white space.
pub fn is_blank(text: &str) -> (r: bool)
    ensures
        r == blank(text@),
{
    let mut rest = text.chars();
    let ghost mut seen: int = 0;
    proof {
        vstd::string::axiom_spec_iter(text);
    }
    loop
        invariant
            0 <= seen <= text@.len(),
            rest.remaining() == text@.skip(seen),
            forall|i: int| 0 <= i < seen ==> is_white_space(#[trigger] text@[i]),
        decreases text@.len() - seen,
    {
        let ghost before = rest;
        match rest.next() {
            None => {
                proof {
                    vstd::string::next_postcondition(&before, &rest, None);
                }
                return true;
            },
            Some(c) => {
                proof {
                    vstd::string::next_postcondition(&before, &rest, Some(c));
                    assert(text@.skip(seen).drop_first() =~= text@.skip(seen + 1));
                    assert(c == text@[seen]);
                }
                if !is_whitespace_char(c) {
                    return false;
                }
                proof {
                    seen = seen + 1;
                }
            },
        }
    }
}

/// A decimal digit.
pub open spec fn is_digit(c: char) -> bool {
    0x30 <= c as u32 <= 0x39
}

/// Every character of the text is a decimal digit.
pub open spec fn all_digits(text: Seq<char>) -> bool {
    forall|i: int| 0 <= i < text.len() ==> is_digit(#[trigger] text[i])
}

/// The number that a text of decimal digits writes.
pub open spec fn decimal_value(digits: Seq<char>) -> nat
    decreases digits.len(),
{
    if digits.len() == 0 {
        0
    } else {
        decimal_value(digits.drop_last()) * 10 + (digits.last() as u32 - 0x30) as nat
    }
}

/// The digits of an unsigned number: the text without a leading plus sign,
/// where digits follow the sign.
pub open spec fn unsigned_digits(text: Seq<char>) -> Seq<char> {
    if text.len() > 1 && text[0] == '+' {
        text.drop_first()
    } else {
        text
    }
}

/// The 16-bit unsigned number that a text writes in decimal: an optional
/// plus sign, then one digit or more, with a value of at most 65535.
pub open spec fn u16_of_text(text: Seq<char>) -> Option<u16> {
    let digits = unsigned_digits(text);
    if digits.len() > 0 && all_digits(digits) && decimal_value(digits) <= u16::MAX {
        Some(decimal_value(digits) as u16)
    } else {
        None
    }
}

/// A text of digits writes a number that is at least the number that any
/// leading part of it writes.
pub proof fn decimal_value_grows(digits: Seq<char>, n: int)
    requires
        0 <= n <= digits.len(),
        all_digits(digits),
    ensures
        decimal_value(digits.take(n)) <= decimal_value(digits),
    decreases digits.len() - n,
{
    if n == digits.len() {
        assert(digits.take(n) =~= digits);
    } else {
        decimal_value_grows(digits, n + 1);
        assert(digits.take(n + 1).drop_last() =~= digits.take(n));
        assert(is_digit(digits.take(n + 1).last()));
    }
}

/// Reads a 16-bit unsigned number from its decimal text.
pub fn parse_u16(text: &str) -> (r: Option<u16>)
    ensures
        r == u16_of_text(text@),
{
    let mut rest = text.chars();
    let ghost mut seen: int = 0;
    let ghost mut signed: int = 0;
    let mut value: u32 = 0;
    let mut count: usize = 0;
    let mut first: bool = true;
    proof {
        vstd::string::axiom_spec_iter(text);
        assert(text@.skip(0) =~= text@);
        assert(text@.subrange(0, 0) =~= Seq::<char>::empty());
    }
    loop
        invariant
            0 <= signed <= seen <= text@.len(),
            signed <= 1,
            rest.remaining() == text@.skip(seen),
            first <==> seen == 0,
            signed == 1 ==> text@[0] == '+',
            signed == 0 && seen > 0 ==> is_digit(text@[0]),
            count == seen - signed || (count == usize::MAX && seen - signed >= usize::MAX),
            all_digits(text@.subrange(signed, seen)),
            value == decimal_value(text@.subrange(signed, seen)),
            value <= u16::MAX,
        decreases text@.len() - seen,
    {
        let ghost before = rest;
        match rest.next() {
            None => {
                proof {
                    vstd::string::next_postcondition(&before, &rest, None);
                    assert(seen == text@.len());
                    if signed == 1 && seen > 1 {
                        assert(unsigned_digits(text@) =~= text@.subrange(1, seen));
                    } else if signed == 1 {
                        assert(unsigned_digits(text@) == text@);
                        assert(!is_digit(text@[0]));
                    } else {
                        assert(unsigned_digits(text@) =~= text@.subrange(0, seen));
                    }
                }
                if count == 0 {
                    return None;
                }
                return Some(value as u16);
            },
            Some(c) => {
                proof {
                    vstd::string::next_postcondition(&before, &rest, Some(c));
                    assert(text@.skip(seen).drop_first() =~= text@.skip(seen + 1));
                    assert(c == text@[seen]);
                }
                let u: u32 = c as u32;
                if first && c == '+' {
                    proof {
                        seen = seen + 1;
                        signed = 1;
                        assert(text@.subrange(1, 1) =~= Seq::<char>::empty());
                    }
                    first = false;
                } else if 0x30 <= u && u <= 0x39 {
                    let ghost upto = text@.subrange(signed, seen + 1);
                    proof {
                        assert(upto.drop_last() =~= text@.subrange(signed, seen));
                        assert(upto.last() == c);
                    }
                    let next: u32 = value * 10 + (u - 0x30);
                    if next > 0xFFFF {
                        proof {
                            let digits = unsigned_digits(text@);
                            if all_digits(digits) {
                                if signed == 1 {
                                    assert(digits =~= text@.subrange(1, text@.len() as int));
                                } else {
                                    assert(text@[0] != '+') by {
                                        if seen == 0 {
                                            assert(is_digit(c));
                                        }
                                    }
                                    assert(digits =~= text@.subrange(0, text@.len() as int));
                                }
                                assert(digits.take(seen + 1 - signed) =~= upto);
                                decimal_value_grows(digits, seen + 1 - signed);
                            }
                        }
                        return None;
                    }
                    value = next;
                    if count < usize::MAX {
                        count += 1;
                    }
                    first = false;
                    proof {
                        seen = seen + 1;
                    }
                } else {
                    proof {
                        let digits = unsigned_digits(text@);
                        if signed == 1 {
                            assert(digits[seen - 1] == c);
                        } else {
                            assert(text@[0] != '+' || text@.len() <= 1) by {
                                if seen > 0 {
                                    assert(is_digit(text@[0]));
                                }
                            }
                            assert(digits[seen] == c);
                        }
                        assert(!all_digits(digits));
                    }
                    return None;
                }
            },
        }
    }
}

} // verus!
