//! Decimal numbers as they stand in header values and event frames: ASCII
//! digits, most significant first.

use vstd::prelude::*;

verus! {

/// Whether `b` is one of the ASCII digits `0` to `9`.
pub open spec fn is_digit(b: u8) -> bool {
    48 <= b <= 57
}

/// Whether every byte of `s` is an ASCII digit.
pub open spec fn all_digits(s: Seq<u8>) -> bool {
    forall|i: int| 0 <= i < s.len() ==> is_digit(#[trigger] s[i])
}

/// The number that a string of digits stands for. Leading zeros count for
/// nothing; the empty string stands for zero.
pub open spec fn digits_value(s: Seq<u8>) -> nat
    decreases s.len(),
{
    if s.len() == 0 {
        0
    } else {
        digits_value(s.drop_last()) * 10 + (s.last() - 48) as nat
    }
}

/// The shortest string of digits that stands for `n`.
pub open spec fn decimal(n: nat) -> Seq<u8>
    decreases n,
{
    if n < 10 {
        seq![(48 + n) as u8]
    } else {
        decimal(n / 10).push((48 + n % 10) as u8)
    }
}

/// The digits of a number text: the text itself, or what follows one leading
/// plus sign.
pub open spec fn unsigned_part(s: Seq<u8>) -> Seq<u8> {
    if s.len() > 0 && s[0] == 43 {
        s.subrange(1, s.len() as int)
    } else {
        s
    }
}

/// The length that a text declares: an optional plus sign followed by one or
/// more digits, with a value that a `usize` can hold. Every other text
/// declares none.
pub open spec fn parse_length(s: Seq<u8>) -> Option<usize> {
    let digits = unsigned_part(s);
    if digits.len() > 0 && all_digits(digits) && digits_value(digits) <= usize::MAX {
        Some(digits_value(digits) as usize)
    } else {
        None
    }
}

/// A string of digits is worth at least as much as each of its prefixes.
pub proof fn lemma_prefix_value(s: Seq<u8>, k: int)
    requires
        all_digits(s),
        0 <= k <= s.len(),
    ensures
        digits_value(s.take(k)) <= digits_value(s),
    decreases s.len() - k,
{
    if k == s.len() {
        assert(s.take(k) =~= s);
    } else {
        lemma_prefix_value(s, k + 1);
        assert(s.take(k + 1).drop_last() =~= s.take(k));
        assert(is_digit(s[k]));
    }
}

/// `decimal(n)` is a non-empty string of digits that stands for `n`.
pub proof fn lemma_decimal_value(n: nat)
    ensures
        decimal(n).len() > 0,
        all_digits(decimal(n)),
        digits_value(decimal(n)) == n,
        decimal(n)[0] != 43,
    decreases n,
{
    if n < 10 {
        let s = decimal(n);
        assert(s.drop_last() =~= Seq::<u8>::empty());
        assert(digits_value(s.drop_last()) == 0);
    } else {
        lemma_decimal_value(n / 10);
        let head = decimal(n / 10);
        let s = decimal(n);
        assert(s.drop_last() =~= head);
        assert forall|i: int| 0 <= i < s.len() implies is_digit(#[trigger] s[i]) by {
            if i < head.len() {
                assert(s[i] == head[i]);
            }
        }
        assert(s[0] == head[0]);
    }
}

/// A length written out in decimal declares that same length.
pub proof fn lemma_parse_decimal(n: usize)
    ensures
        parse_length(decimal(n as nat)) == Some(n),
{
    lemma_decimal_value(n as nat);
}

/// Reads the length that `text` declares.
pub fn read_length(text: &[u8]) -> (length: Option<usize>)
    ensures
        length == parse_length(text@),
{
    let start: usize = if text.len() > 0 && text[0] == 43 {
        1
    } else {
        0
    };
    let ghost digits = unsigned_part(text@);
    assert(digits =~= text@.subrange(start as int, text@.len() as int));
    if start == text.len() {
        return None;
    }
    let mut value: usize = 0;
    let mut i: usize = start;
    while i < text.len()
        invariant
            start <= i <= text.len(),
            digits == unsigned_part(text@),
            digits == text@.subrange(start as int, text@.len() as int),
            all_digits(digits.take(i - start)),
            value == digits_value(digits.take(i - start)),
        decreases text.len() - i,
    {
        let b: u8 = text[i];
        let ghost seen = digits.take(i - start);
        let ghost more = digits.take(i - start + 1);
        assert(more.drop_last() =~= seen);
        assert(more.last() == b);
        if b < 48 || b > 57 {
            assert(!is_digit(digits[i - start]));
            return None;
        }
        assert(all_digits(more)) by {
            assert forall|j: int| 0 <= j < more.len() implies is_digit(#[trigger] more[j]) by {
                if j < seen.len() {
                    assert(more[j] == seen[j]);
                }
            }
        }
        let next: Option<usize> = match value.checked_mul(10) {
            Some(tens) => tens.checked_add((b - 48) as usize),
            None => None,
        };
        match next {
            Some(v) => {
                value = v;
            },
            None => {
                proof {
                    assert(digits_value(more) > usize::MAX);
                    if all_digits(digits) {
                        lemma_prefix_value(digits, i - start + 1);
                    }
                }
                return None;
            },
        }
        i += 1;
    }
    assert(digits.take(i - start) =~= digits);
    Some(value)
}

/// Appends the decimal digits of `n` to `out`.
pub fn push_decimal(out: &mut Vec<u8>, n: u128)
    ensures
        final(out)@ == old(out)@ + decimal(n as nat),
    decreases n,
{
    if n >= 10 {
        push_decimal(out, n / 10);
    }
    out.push(48 + (n % 10) as u8);
    assert(final(out)@ =~= old(out)@ + decimal(n as nat)) by {
        if n >= 10 {
            assert(decimal(n as nat) == decimal((n / 10) as nat).push((48 + n % 10) as u8));
        }
    }
}

/// Whether `text` begins with `prefix`.
pub fn starts_with(text: &[u8], prefix: &[u8]) -> (found: bool)
    ensures
        found == prefix@.is_prefix_of(text@),
{
    if prefix.len() > text.len() {
        return false;
    }
    let mut i: usize = 0;
    while i < prefix.len()
        invariant
            i <= prefix.len() <= text.len(),
            forall|j: int| 0 <= j < i ==> prefix@[j] == text@[j],
        decreases prefix.len() - i,
    {
        if prefix[i] != text[i] {
            assert(text@.subrange(0, prefix@.len() as int)[i as int] != prefix@[i as int]);
            return false;
        }
        i += 1;
    }
    assert(prefix@ =~= text@.subrange(0, prefix@.len() as int));
    true
}

} // verus!
