//! What the literals of the source text stand for: the numbers of decimal
//! and hexadecimal tokens and the bytes of string tokens.

use vstd::prelude::*;
use vstd::string::*;
use vstd::utf8::encode_utf8;

verus! {

/// The value of a hexadecimal digit, in either case.
pub open spec fn hex_digit_value(c: char) -> Option<int> {
    if '0' <= c <= '9' {
        Some(c as u32 - '0' as u32)
    } else if 'a' <= c <= 'f' {
        Some(c as u32 - 'a' as u32 + 10)
    } else if 'A' <= c <= 'F' {
        Some(c as u32 - 'A' as u32 + 10)
    } else {
        None
    }
}

/// Whether `digits` are digits of the base, at least one.
pub open spec fn are_digits(digits: Seq<char>, base: int) -> bool {
    &&& digits.len() > 0
    &&& forall|i: int|
        0 <= i < digits.len() ==> (#[trigger] hex_digit_value(digits[i])) is Some
            && hex_digit_value(digits[i])->0 < base
}

/// The number that `digits` write in the base, most significant digit
/// first.
pub open spec fn digits_value(digits: Seq<char>, base: int) -> int
    decreases digits.len(),
{
    if digits.len() == 0 {
        0
    } else {
        digits_value(digits.drop_last(), base) * base + hex_digit_value(digits.last())->0
    }
}

/// The number that `digits` write, if they are digits of the base and the
/// number fits in 64 bits.
pub open spec fn spec_number(digits: Seq<char>, base: int) -> Option<u64> {
    if are_digits(digits, base) && digits_value(digits, base) <= u64::MAX {
        Some(digits_value(digits, base) as u64)
    } else {
        None
    }
}

/// The number of a decimal token.
pub open spec fn spec_next_number(lexeme: Seq<char>) -> Option<u64> {
    spec_number(lexeme, 10)
}

/// The number of a hexadecimal token: `0x` or `0X`, then the digits.
pub open spec fn spec_hex_number(lexeme: Seq<char>) -> Option<u64> {
    if lexeme.len() >= 2 && lexeme[0] == '0' && (lexeme[1] == 'x' || lexeme[1] == 'X') {
        spec_number(lexeme.skip(2), 16)
    } else {
        None
    }
}

/// The digits before the last write no more than all of them.
pub proof fn digits_value_grows(digits: Seq<char>, base: int)
    requires
        are_digits(digits, base),
        base > 0,
    ensures
        0 <= digits_value(digits.drop_last(), base) <= digits_value(digits, base),
    decreases digits.len(),
{
    let front = digits.drop_last();
    if front.len() > 0 {
        assert forall|i: int| 0 <= i < front.len() implies (#[trigger] hex_digit_value(
            front[i],
        )) is Some && hex_digit_value(front[i])->0 < base by {}
        digits_value_grows(front, base);
        let v = digits_value(front, base);
        assert(v * base >= v) by (nonlinear_arith)
            requires
                v >= 0,
                base > 0,
        ;
    }
}

fn digit_of(c: char) -> (r: Option<u64>)
    ensures
        r is Some <==> hex_digit_value(c) is Some,
        r matches Some(d) ==> d == hex_digit_value(c)->0 && d < 16,
{
    if c >= '0' && c <= '9' {
        Some((c as u32 - '0' as u32) as u64)
    } else if c >= 'a' && c <= 'f' {
        Some((c as u32 - 'a' as u32 + 10) as u64)
    } else if c >= 'A' && c <= 'F' {
        Some((c as u32 - 'A' as u32 + 10) as u64)
    } else {
        None
    }
}

/// The number that the characters of `text` from `from` on write in the
/// base.
fn number_from(text: &str, from: usize, base: u64) -> (r: Option<u64>)
    requires
        from <= text@.len(),
        base == 10 || base == 16,
    ensures
        r == spec_number(text@.skip(from as int), base as int),
{
    let len = text.unicode_len();
    if from == len {
        return None;
    }
    let ghost digits = text@.skip(from as int);
    let mut value: u64 = 0;
    let mut i: usize = from;
    while i < len
        invariant
            from <= i <= len,
            len == text@.len(),
            from < len,
            base == 10 || base == 16,
            digits == text@.skip(from as int),
            i > from ==> are_digits(digits.take(i - from), base as int),
            value == digits_value(digits.take(i - from), base as int),
        decreases len - i,
    {
        let ghost seen = digits.take(i - from);
        let ghost more = digits.take(i + 1 - from);
        proof {
            assert(more.drop_last() =~= seen);
        }
        let digit = match digit_of(text.get_char(i)) {
            Some(d) => d,
            None => {
                return None;
            },
        };
        if digit >= base {
            assert(hex_digit_value(digits[i - from])->0 >= base);
            return None;
        }
        proof {
            assert forall|j: int| 0 <= j < more.len() implies (#[trigger] hex_digit_value(
                more[j],
            )) is Some && hex_digit_value(more[j])->0 < base by {}
        }
        let next = match value.checked_mul(base) {
            Some(scaled) => scaled.checked_add(digit),
            None => None,
        };
        match next {
            Some(v) => {
                value = v;
            },
            None => {
                proof {
                    too_large_stays(digits, i + 1 - from, base as int);
                }
                return None;
            },
        }
        i += 1;
    }
    assert(digits.take(len - from) =~= digits);
    Some(value)
}

/// Where the first `n` of the digits write a number that does not fit in
/// 64 bits, or are no digits, all of them do not give a number.
proof fn too_large_stays(digits: Seq<char>, n: int, base: int)
    requires
        0 < n <= digits.len(),
        base > 0,
        digits_value(digits.take(n), base) > u64::MAX,
    ensures
        spec_number(digits, base) is None,
    decreases digits.len() - n,
{
    if n < digits.len() {
        if are_digits(digits, base) {
            let more = digits.take(n + 1);
            assert(more.drop_last() =~= digits.take(n));
            assert forall|j: int| 0 <= j < more.len() implies (#[trigger] hex_digit_value(
                more[j],
            )) is Some && hex_digit_value(more[j])->0 < base by {}
            digits_value_grows(more, base);
            too_large_stays(digits, n + 1, base);
        }
    } else {
        assert(digits.take(n) =~= digits);
    }
}

/// The number of a decimal token, if its text is decimal digits and the
/// number fits in 64 bits.
pub fn next_number(lexeme: &str) -> (r: Option<u64>)
    ensures
        r == spec_next_number(lexeme@),
{
    assert(lexeme@.skip(0) =~= lexeme@);
    number_from(lexeme, 0, 10)
}

/// The number of a hexadecimal token, if its text is `0x` or `0X` and then
/// hexadecimal digits, and the number fits in 64 bits.
pub fn hex_number(lexeme: &str) -> (r: Option<u64>)
    ensures
        r == spec_hex_number(lexeme@),
{
    let len = lexeme.unicode_len();
    if len < 2 || lexeme.get_char(0) != '0' {
        return None;
    }
    let marker = lexeme.get_char(1);
    if marker != 'x' && marker != 'X' {
        return None;
    }
    number_from(lexeme, 2, 16)
}

/// The bytes that the inside of a string token stands for: a backslash
/// before a double quote stands for the quote, any other backslash for
/// nothing, every other byte for itself.
pub open spec fn unescape(bytes: Seq<u8>) -> Seq<u8>
    decreases bytes.len(),
{
    if bytes.len() == 0 {
        Seq::empty()
    } else if bytes[0] == 0x5c {
        if bytes.len() >= 2 && bytes[1] == 0x22 {
            seq![0x22u8] + unescape(bytes.skip(2))
        } else {
            unescape(bytes.skip(1))
        }
    } else {
        seq![bytes[0]] + unescape(bytes.skip(1))
    }
}

/// The bytes of a string token: its text in UTF-8 without the double quotes
/// around it, unescaped. A text that does not stand in double quotes is no
/// string token.
pub open spec fn spec_string_bytes(lexeme: Seq<char>) -> Option<Seq<u8>> {
    let bytes = encode_utf8(lexeme);
    if bytes.len() >= 2 && bytes[0] == 0x22 && bytes.last() == 0x22 {
        Some(unescape(bytes.subrange(1, bytes.len() - 1)))
    } else {
        None
    }
}

/// The bytes of a string token.
pub fn string_bytes(lexeme: &str) -> (r: Option<Vec<u8>>)
    ensures
        r is Some <==> spec_string_bytes(lexeme@) is Some,
        r matches Some(bytes) ==> spec_string_bytes(lexeme@) == Some(bytes@),
{
    let bytes = lexeme.as_bytes();
    let len = bytes.len();
    if len < 2 || bytes[0] != 0x22 || bytes[len - 1] != 0x22 {
        return None;
    }
    let ghost inside = bytes@.subrange(1, len - 1);
    let mut out: Vec<u8> = Vec::new();
    let mut i: usize = 1;
    assert(inside.skip(0) =~= inside);
    while i < len - 1
        invariant
            1 <= i <= len - 1,
            len == bytes@.len(),
            inside == bytes@.subrange(1, len - 1),
            out@ + unescape(inside.skip(i - 1)) == unescape(inside),
        decreases len - i,
    {
        let ghost rest = inside.skip(i - 1);
        if bytes[i] == 0x5c {
            if i + 1 < len - 1 && bytes[i + 1] == 0x22 {
                out.push(0x22);
                assert(rest.skip(2) =~= inside.skip(i + 1));
                i += 2;
            } else {
                assert(rest.skip(1) =~= inside.skip(i as int));
                i += 1;
            }
        } else {
            out.push(bytes[i]);
            assert(rest.skip(1) =~= inside.skip(i as int));
            i += 1;
        }
    }
    Some(out)
}

} // verus!
