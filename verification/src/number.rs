//! Number literals as they stand in the text of a data log or a sensor descriptor.
//!
//! Timestamps are unsigned 64-bit integers and are parsed in full. Decimal fractions are
//! only recognised: the library keeps the literal, and the caller turns it into a machine
//! number.

use vstd::prelude::*;
use vstd::string::*;
use vstd::utf8::*;

verus! {

/// True for the ten ASCII decimal digits.
pub open spec fn is_digit(c: char) -> bool {
    '0' <= c && c <= '9'
}

/// The number that a decimal digit stands for.
pub open spec fn digit_value(c: char) -> nat {
    (c as u32 - '0' as u32) as nat
}

/// True for a plus or a minus sign.
pub open spec fn is_sign(c: char) -> bool {
    c == '+' || c == '-'
}

/// True for the letter that opens an exponent, in either case.
pub open spec fn is_exponent_mark(c: char) -> bool {
    c == 'e' || c == 'E'
}

/// Every character of `s` at an index from `from` up to, not including, `to` is a digit.
pub open spec fn digits_between(s: Seq<char>, from: int, to: int) -> bool {
    forall|k: int| from <= k < to ==> is_digit(#[trigger] s[k])
}

/// The number that a string of decimal digits denotes; the empty string denotes zero.
pub open spec fn decimal(s: Seq<char>) -> nat
    decreases s.len(),
{
    if s.len() == 0 {
        0
    } else {
        10 * decimal(s.drop_last()) + digit_value(s.last())
    }
}

/// The unsigned 64-bit integer that `s` denotes: an optional plus sign, then at least one
/// decimal digit and nothing else, with a value that fits. `None` for every other string.
pub open spec fn unsigned_of(s: Seq<char>) -> Option<u64> {
    let digits = if s.len() > 0 && s[0] == '+' {
        s.drop_first()
    } else {
        s
    };
    if digits.len() > 0 && digits_between(digits, 0, digits.len() as int) && decimal(digits)
        <= u64::MAX {
        Some(decimal(digits) as u64)
    } else {
        None
    }
}

/// The letter `c` in lower case, where it is an ASCII capital; any other character
/// unchanged.
pub open spec fn lower(c: char) -> char {
    if 'A' <= c && c <= 'Z' {
        ((c as u32 + 32) as u8) as char
    } else {
        c
    }
}

/// `s`, from index `from` to its end, spells `word` when case is ignored.
pub open spec fn spells(s: Seq<char>, from: int, word: Seq<char>) -> bool {
    &&& s.len() - from == word.len()
    &&& forall|k: int| 0 <= k < word.len() ==> lower(#[trigger] s[from + k]) == word[k]
}

/// `s`, from index `from` to its end, is `word`, letter for letter.
pub open spec fn reads(s: Seq<char>, from: int, word: Seq<char>) -> bool {
    &&& s.len() - from == word.len()
    &&& forall|k: int| 0 <= k < word.len() ==> #[trigger] s[from + k] == word[k]
}

/// `s`, from index `from` to its end, is one of the words for an infinity or for
/// not-a-number.
pub open spec fn is_special_from(s: Seq<char>, from: int) -> bool {
    ||| spells(s, from, seq!['i', 'n', 'f'])
    ||| spells(s, from, seq!['n', 'a', 'n'])
    ||| spells(s, from, seq!['i', 'n', 'f', 'i', 'n', 'i', 't', 'y'])
}

/// `s`, from index `from` to its end, is an exponent without its mark: an optional sign
/// and at least one digit.
pub open spec fn is_exponent_from(s: Seq<char>, from: int) -> bool {
    let first = if from < s.len() && is_sign(s[from]) {
        from + 1
    } else {
        from
    };
    first < s.len() && digits_between(s, first, s.len() as int)
}

/// `s`, from index `from` to its end, is a decimal number whose integer digits end before
/// `dot` and whose mantissa ends before `mark`: digits, then optionally a point and more
/// digits, with at least one digit in all, then optionally an exponent.
pub open spec fn number_shape(s: Seq<char>, from: int, dot: int, mark: int) -> bool {
    &&& from <= dot <= mark <= s.len()
    &&& digits_between(s, from, dot)
    &&& (mark == dot || (s[dot] == '.' && digits_between(s, dot + 1, mark)))
    &&& (dot > from || mark > dot + 1)
    &&& (mark == s.len() || (is_exponent_mark(s[mark]) && is_exponent_from(s, mark + 1)))
}

/// The number of characters that a leading sign takes in `s`: one or none.
pub open spec fn sign_len(s: Seq<char>) -> int {
    if s.len() > 0 && is_sign(s[0]) {
        1
    } else {
        0
    }
}

/// `s` is a literal of a floating-point number: an optional sign, then either a decimal
/// number with an optional exponent, or, in any case of letters, `inf`, `infinity` or
/// `nan`. No blank may stand before, inside or after it.
pub open spec fn is_float_literal(s: Seq<char>) -> bool {
    let from = sign_len(s);
    is_special_from(s, from) || exists|dot: int, mark: int| number_shape(s, from, dot, mark)
}

/// `s` is one of the spellings that a descriptor may use for an infinity or for
/// not-a-number, beyond those of [`is_float_literal`]: `.inf`, `.Inf` or `.INF` behind an
/// optional sign, or one of `.nan`, `NaN` and `.NAN`.
pub open spec fn is_descriptor_special(s: Seq<char>) -> bool {
    let from = sign_len(s);
    ||| reads(s, from, seq!['.', 'i', 'n', 'f'])
    ||| reads(s, from, seq!['.', 'I', 'n', 'f'])
    ||| reads(s, from, seq!['.', 'I', 'N', 'F'])
    ||| reads(s, 0, seq!['.', 'n', 'a', 'n'])
    ||| reads(s, 0, seq!['N', 'a', 'N'])
    ||| reads(s, 0, seq!['.', 'N', 'A', 'N'])
}

/// `s` is a real number as a descriptor writes it.
pub open spec fn is_real_literal(s: Seq<char>) -> bool {
    is_descriptor_special(s) || is_float_literal(s)
}

/// `bytes` holds the characters of `s`, one byte for each, and all of them are ASCII.
pub open spec fn bytes_of(bytes: Seq<u8>, s: Seq<char>) -> bool {
    &&& bytes.len() == s.len()
    &&& forall|k: int| 0 <= k < s.len() ==> (#[trigger] bytes[k]) as int == s[k] as int
}

/// A longer string of digits denotes at least as much as any of its beginnings.
pub proof fn lemma_decimal_prefix(s: Seq<char>, k: int)
    requires
        0 <= k <= s.len(),
    ensures
        decimal(s.subrange(0, k)) <= decimal(s),
    decreases s.len(),
{
    if k == s.len() {
        assert(s.subrange(0, k) =~= s);
    } else {
        lemma_decimal_prefix(s.drop_last(), k);
        assert(s.drop_last().subrange(0, k) =~= s.subrange(0, k));
    }
}

/// A float literal holds ASCII characters only.
pub proof fn lemma_float_literal_is_ascii(s: Seq<char>)
    requires
        is_float_literal(s),
    ensures
        is_ascii_chars(s),
{
    let from = sign_len(s);
    assert forall|i: int| 0 <= i < s.len() implies '\0' <= #[trigger] s[i] <= '\u{7f}' by {
        if i < from {
        } else if is_special_from(s, from) {
            let k = i - from;
            assert(s[from + k] == s[i]);
            let c = s[i];
            if spells(s, from, seq!['i', 'n', 'f']) {
                assert(lower(c) == seq!['i', 'n', 'f'][k]);
            } else if spells(s, from, seq!['n', 'a', 'n']) {
                assert(lower(c) == seq!['n', 'a', 'n'][k]);
            } else {
                assert(lower(c) == seq!['i', 'n', 'f', 'i', 'n', 'i', 't', 'y'][k]);
            }
        } else {
            let (dot, mark) = choose|dot: int, mark: int| number_shape(s, from, dot, mark);
            assert(number_shape(s, from, dot, mark));
        }
    }
}

/// A special spelling of a descriptor holds ASCII characters only.
pub proof fn lemma_descriptor_special_is_ascii(s: Seq<char>)
    requires
        is_descriptor_special(s),
    ensures
        is_ascii_chars(s),
{
    let from = sign_len(s);
    assert forall|i: int| 0 <= i < s.len() implies '\0' <= #[trigger] s[i] <= '\u{7f}' by {
        if reads(s, 0, seq!['.', 'n', 'a', 'n']) {
            assert(s[0 + i] == seq!['.', 'n', 'a', 'n'][i]);
        } else if reads(s, 0, seq!['N', 'a', 'N']) {
            assert(s[0 + i] == seq!['N', 'a', 'N'][i]);
        } else if reads(s, 0, seq!['.', 'N', 'A', 'N']) {
            assert(s[0 + i] == seq!['.', 'N', 'A', 'N'][i]);
        } else if i >= from {
            let k = i - from;
            assert(s[from + k] == s[i]);
            if reads(s, from, seq!['.', 'i', 'n', 'f']) {
                assert(s[i] == seq!['.', 'i', 'n', 'f'][k]);
            } else if reads(s, from, seq!['.', 'I', 'n', 'f']) {
                assert(s[i] == seq!['.', 'I', 'n', 'f'][k]);
            } else {
                assert(s[i] == seq!['.', 'I', 'N', 'F'][k]);
            }
        }
    }
}

/// The bytes of `text`, where all its characters are ASCII.
fn ascii_bytes(text: &str) -> (r: Option<&[u8]>)
    ensures
        r is Some <==> is_ascii_chars(text@),
        r is Some ==> bytes_of(r->Some_0@, text@),
{
    if text.is_ascii() {
        let bytes = text.as_bytes();
        proof {
            is_ascii_spec_bytes(text);
            is_ascii_chars_nat_bound(text@);
        }
        Some(bytes)
    } else {
        None
    }
}

/// Parses an unsigned 64-bit integer in decimal notation.
pub fn parse_u64(text: &str) -> (r: Option<u64>)
    ensures
        r == unsigned_of(text@),
{
    let ghost s = text@;
    let bytes = match ascii_bytes(text) {
        Some(bytes) => bytes,
        None => {
            proof {
                let i = choose|i: int| 0 <= i < s.len() && !('\0' <= #[trigger] s[i] <= '\u{7f}');
                if s[0] == '+' {
                    assert(s.drop_first()[i - 1] == s[i]);
                }
            }
            return None;
        },
    };
    let n: usize = bytes.len();
    let start: usize = if n > 0 && bytes[0] == '+' as u8 {
        1
    } else {
        0
    };
    let ghost digits = s.subrange(start as int, n as int);
    assert(digits =~= if s.len() > 0 && s[0] == '+' {
        s.drop_first()
    } else {
        s
    });
    if start == n {
        return None;
    }
    let mut value: u64 = 0;
    let mut i: usize = start;
    while i < n
        invariant
            start <= i <= n,
            n == s.len(),
            s == text@,
            bytes_of(bytes@, s),
            digits == s.subrange(start as int, n as int),
            digits == if s.len() > 0 && s[0] == '+' {
                s.drop_first()
            } else {
                s
            },
            digits_between(digits, 0, i - start),
            value == decimal(digits.subrange(0, i - start)),
        decreases n - i,
    {
        let b: u8 = bytes[i];
        assert(digits[i - start] == s[i as int]);
        if b < ('0' as u8) || b > ('9' as u8) {
            return None;
        }
        let d: u64 = (b - '0' as u8) as u64;
        let ghost longer = digits.subrange(0, i - start + 1);
        assert(longer.drop_last() =~= digits.subrange(0, i - start));
        assert(longer.last() == s[i as int]);
        assert(decimal(longer) == 10 * value + d);
        if value > (u64::MAX - d) / 10 {
            proof {
                lemma_decimal_prefix(digits, i - start + 1);
            }
            return None;
        }
        value = value * 10 + d;
        i = i + 1;
    }
    assert(digits.subrange(0, i - start) =~= digits);
    Some(value)
}

/// The index of the first byte at or after `from` that is no digit, or the length.
fn digits_end(bytes: &[u8], from: usize, Ghost(s): Ghost<Seq<char>>) -> (end: usize)
    requires
        from <= bytes@.len(),
        bytes_of(bytes@, s),
    ensures
        from <= end <= bytes@.len(),
        digits_between(s, from as int, end as int),
        end < bytes@.len() ==> !is_digit(s[end as int]),
{
    let mut end: usize = from;
    while end < bytes.len() && ('0' as u8) <= bytes[end] && bytes[end] <= ('9' as u8)
        invariant
            from <= end <= bytes@.len(),
            bytes_of(bytes@, s),
            digits_between(s, from as int, end as int),
        decreases bytes@.len() - end,
    {
        end = end + 1;
    }
    end
}

/// Whether `bytes`, from `from` on, are `word`; with `fold`, capitals in `bytes` count
/// as their small letters.
fn word_at(
    bytes: &[u8],
    from: usize,
    word: &[u8],
    fold: bool,
    Ghost(s): Ghost<Seq<char>>,
    Ghost(w): Ghost<Seq<char>>,
) -> (r: bool)
    requires
        from <= bytes@.len(),
        bytes_of(bytes@, s),
        bytes_of(word@, w),
    ensures
        fold ==> r == spells(s, from as int, w),
        !fold ==> r == reads(s, from as int, w),
{
    let n: usize = bytes.len();
    if n - from != word.len() {
        return false;
    }
    let mut k: usize = 0;
    while k < word.len()
        invariant
            0 <= k <= word@.len(),
            from <= bytes@.len(),
            n == bytes@.len(),
            bytes@.len() - from == word@.len(),
            bytes_of(bytes@, s),
            bytes_of(word@, w),
            fold ==> forall|j: int| 0 <= j < k ==> lower(#[trigger] s[from + j]) == w[j],
            !fold ==> forall|j: int| 0 <= j < k ==> #[trigger] s[from + j] == w[j],
        decreases word@.len() - k,
    {
        let b: u8 = bytes[from + k];
        let low: u8 = if fold && ('A' as u8) <= b && b <= ('Z' as u8) {
            b + 32
        } else {
            b
        };
        assert(fold ==> low as int == lower(s[from + k]) as int);
        if low != word[k] {
            return false;
        }
        k = k + 1;
    }
    true
}

/// Whether `text` is a literal of a floating-point number.
pub fn is_float(text: &str) -> (r: bool)
    ensures
        r == is_float_literal(text@),
{
    let ghost s = text@;
    let bytes = match ascii_bytes(text) {
        Some(bytes) => bytes,
        None => {
            proof {
                if is_float_literal(s) {
                    lemma_float_literal_is_ascii(s);
                }
            }
            return false;
        },
    };
    let n: usize = bytes.len();
    let from: usize = if n > 0 && (bytes[0] == '+' as u8 || bytes[0] == '-' as u8) {
        1
    } else {
        0
    };
    assert(from == sign_len(s));
    let inf: [u8; 3] = ['i' as u8, 'n' as u8, 'f' as u8];
    let nan: [u8; 3] = ['n' as u8, 'a' as u8, 'n' as u8];
    let infinity: [u8; 8] = ['i' as u8, 'n' as u8, 'f' as u8, 'i' as u8, 'n' as u8, 'i' as u8, 't' as u8, 'y' as u8];
    let ghost inf_word = seq!['i', 'n', 'f'];
    let ghost nan_word = seq!['n', 'a', 'n'];
    let ghost infinity_word = seq!['i', 'n', 'f', 'i', 'n', 'i', 't', 'y'];
    if word_at(bytes, from, inf.as_slice(), true, Ghost(s), Ghost(inf_word)) {
        return true;
    }
    if word_at(bytes, from, nan.as_slice(), true, Ghost(s), Ghost(nan_word)) {
        return true;
    }
    if word_at(bytes, from, infinity.as_slice(), true, Ghost(s), Ghost(infinity_word)) {
        return true;
    }
    let dot: usize = digits_end(bytes, from, Ghost(s));
    let mark: usize = if dot < n && bytes[dot] == '.' as u8 {
        digits_end(bytes, dot + 1, Ghost(s))
    } else {
        dot
    };
    // Any split of `s` into integer digits, fraction and exponent is this one.
    assert forall|d: int, m: int| number_shape(s, from as int, d, m) implies d == dot && m
        == mark by {
        if d > dot {
            assert(is_digit(s[dot as int]));
        }
        if d < dot {
            assert(is_digit(s[d]));
        }
        if d == dot {
            if m > mark {
                assert(is_digit(s[mark as int]));
            }
            if m < mark && m > dot {
                assert(is_digit(s[m]));
            }
        }
    }
    if !(dot > from || mark > dot + 1) {
        return false;
    }
    if mark == n {
        assert(number_shape(s, from as int, dot as int, mark as int));
        return true;
    }
    if bytes[mark] != 'e' as u8 && bytes[mark] != 'E' as u8 {
        return false;
    }
    let first: usize = if mark + 1 < n && (bytes[mark + 1] == '+' as u8 || bytes[mark + 1] == '-' as u8) {
        mark + 2
    } else {
        mark + 1
    };
    if first >= n {
        return false;
    }
    let end: usize = digits_end(bytes, first, Ghost(s));
    if end == n {
        assert(number_shape(s, from as int, dot as int, mark as int));
        true
    } else {
        false
    }
}

/// Whether `text` is a real number as a descriptor writes it.
pub fn is_real(text: &str) -> (r: bool)
    ensures
        r == is_real_literal(text@),
{
    if is_float(text) {
        return true;
    }
    let ghost s = text@;
    let bytes = match ascii_bytes(text) {
        Some(bytes) => bytes,
        None => {
            proof {
                if is_descriptor_special(s) {
                    lemma_descriptor_special_is_ascii(s);
                }
            }
            return false;
        },
    };
    let n: usize = bytes.len();
    let from: usize = if n > 0 && (bytes[0] == '+' as u8 || bytes[0] == '-' as u8) {
        1
    } else {
        0
    };
    let inf_lower: [u8; 4] = ['.' as u8, 'i' as u8, 'n' as u8, 'f' as u8];
    let inf_title: [u8; 4] = ['.' as u8, 'I' as u8, 'n' as u8, 'f' as u8];
    let inf_upper: [u8; 4] = ['.' as u8, 'I' as u8, 'N' as u8, 'F' as u8];
    let nan_lower: [u8; 4] = ['.' as u8, 'n' as u8, 'a' as u8, 'n' as u8];
    let nan_mixed: [u8; 3] = ['N' as u8, 'a' as u8, 'N' as u8];
    let nan_upper: [u8; 4] = ['.' as u8, 'N' as u8, 'A' as u8, 'N' as u8];
    let ghost w1 = seq!['.', 'i', 'n', 'f'];
    let ghost w2 = seq!['.', 'I', 'n', 'f'];
    let ghost w3 = seq!['.', 'I', 'N', 'F'];
    let ghost w4 = seq!['.', 'n', 'a', 'n'];
    let ghost w5 = seq!['N', 'a', 'N'];
    let ghost w6 = seq!['.', 'N', 'A', 'N'];
    word_at(bytes, from, inf_lower.as_slice(), false, Ghost(s), Ghost(w1)) || word_at(
        bytes,
        from,
        inf_title.as_slice(),
        false,
        Ghost(s),
        Ghost(w2),
    ) || word_at(bytes, from, inf_upper.as_slice(), false, Ghost(s), Ghost(w3)) || word_at(
        bytes,
        0,
        nan_lower.as_slice(),
        false,
        Ghost(s),
        Ghost(w4),
    ) || word_at(bytes, 0, nan_mixed.as_slice(), false, Ghost(s), Ghost(w5)) || word_at(
        bytes,
        0,
        nan_upper.as_slice(),
        false,
        Ghost(s),
        Ghost(w6),
    )
}

} // verus!
