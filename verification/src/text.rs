//! Text helpers: string comparison, reading a decimal interval out of the
//! text field, and writing one back.

use vstd::prelude::*;

verus! {

/// Character-wise equality of two string slices.
pub fn str_eq(a: &str, b: &str) -> (r: bool)
    ensures
        r == (a@ == b@),
{
    let a_len = a.unicode_len();
    let b_len = b.unicode_len();
    if a_len != b_len {
        return false;
    }
    let mut i: usize = 0;
    while i < a_len
        invariant
            i <= a_len,
            a_len == a@.len(),
            a_len == b@.len(),
            forall|j: int| 0 <= j < i ==> a@[j] == b@[j],
        decreases a_len - i,
    {
        if a.get_char(i) != b.get_char(i) {
            return false;
        }
        i = i + 1;
    }
    proof {
        assert(a@ =~= b@);
    }
    true
}

/// Whether a character is a decimal digit.
pub open spec fn is_digit_char(c: char) -> bool {
    '0' as int <= c as int <= '9' as int
}

/// The numeric value of a decimal digit character.
pub open spec fn digit_value(c: char) -> int {
    c as int - '0' as int
}

/// Whether every character of a sequence is a decimal digit.
pub open spec fn all_digits(s: Seq<char>) -> bool {
    forall|i: int| 0 <= i < s.len() ==> is_digit_char(s[i])
}

/// The number that a sequence of decimal digits denotes.
pub open spec fn dec_value(s: Seq<char>) -> int
    decreases s.len(),
{
    if s.len() == 0 {
        0
    } else {
        dec_value(s.drop_last()) * 10 + digit_value(s.last())
    }
}

/// The digit portion of an unsigned decimal literal: everything after an
/// optional leading plus sign.
pub open spec fn digits_part(s: Seq<char>) -> Seq<char> {
    if s.len() > 0 && s[0] == '+' {
        s.subrange(1, s.len() as int)
    } else {
        s
    }
}

/// Whether a string is a decimal literal that fits in a `u64`: an optional
/// leading plus sign, then one or more digits denoting a value at most
/// `u64::MAX`.
pub open spec fn is_u64_literal(s: Seq<char>) -> bool {
    &&& digits_part(s).len() > 0
    &&& all_digits(digits_part(s))
    &&& dec_value(digits_part(s)) <= u64::MAX
}

/// A digit string denotes a non-negative number.
proof fn lemma_dec_value_nonneg(s: Seq<char>)
    requires
        all_digits(s),
    ensures
        dec_value(s) >= 0,
    decreases s.len(),
{
    if s.len() > 0 {
        assert(all_digits(s.drop_last())) by {
            assert(forall|i: int|
                0 <= i < s.drop_last().len() ==> s.drop_last()[i] == s[i]);
        }
        lemma_dec_value_nonneg(s.drop_last());
    }
}

/// Extending a digit string on the right can only increase its value.
proof fn lemma_dec_value_prefix_le(s: Seq<char>, i: int)
    requires
        all_digits(s),
        0 <= i <= s.len(),
    ensures
        dec_value(s.subrange(0, i)) <= dec_value(s),
    decreases s.len() - i,
{
    if i < s.len() {
        let t = s.subrange(0, i + 1);
        assert(all_digits(t)) by {
            assert(forall|j: int| 0 <= j < t.len() ==> t[j] == s[j]);
        }
        assert(t.drop_last() =~= s.subrange(0, i));
        lemma_dec_value_nonneg(t.drop_last());
        assert(dec_value(t) == dec_value(s.subrange(0, i)) * 10 + digit_value(t.last()));
        assert(dec_value(s.subrange(0, i)) * 10 >= dec_value(s.subrange(0, i))) by {
            lemma_dec_value_nonneg(t.drop_last());
        }
        lemma_dec_value_prefix_le(s, i + 1);
        assert(s.subrange(0, s.len() as int) =~= s);
    } else {
        assert(s.subrange(0, i) =~= s);
    }
}

/// Reads an unsigned decimal literal, exactly as wide a grammar as the
/// standard `u64` parser accepts for non-negative input: an optional
/// leading plus sign followed by one or more digits, rejecting values
/// that do not fit.
pub fn parse_u64(s: &str) -> (r: Option<u64>)
    ensures
        r is Some <==> is_u64_literal(s@),
        r is Some ==> r->0 == dec_value(digits_part(s@)),
{
    let n = s.unicode_len();
    if n == 0 {
        return None;
    }
    let start: usize = if s.get_char(0) == '+' {
        1
    } else {
        0
    };
    if start == n {
        // a lone sign has no digits
        return None;
    }
    proof {
        assert(digits_part(s@) =~= s@.subrange(start as int, n as int));
    }
    let ghost digits = s@.subrange(start as int, n as int);
    let mut acc: u64 = 0;
    let mut i: usize = start;
    while i < n
        invariant
            start <= i <= n,
            n == s@.len(),
            digits == s@.subrange(start as int, n as int),
            digits == digits_part(s@),
            all_digits(s@.subrange(start as int, i as int)),
            acc == dec_value(s@.subrange(start as int, i as int)),
        decreases n - i,
    {
        let c = s.get_char(i);
        let cu = c as u32;
        if cu < 48 || cu > 57 {
            proof {
                assert(digits[i - start] == c);
                assert(!is_digit_char(c));
                assert(!all_digits(digits_part(s@)));
            }
            return None;
        }
        let d = (cu - 48) as u64;
        if acc > (u64::MAX - d) / 10 {
            // the digits read so far already overflow a u64
            proof {
                let p = s@.subrange(start as int, (i + 1) as int);
                assert(p.drop_last() =~= s@.subrange(start as int, i as int));
                assert(all_digits(p)) by {
                    assert(forall|j: int|
                        0 <= j < p.len() ==> p[j] == s@[start + j]);
                }
                assert(dec_value(p) == acc * 10 + d);
                assert(acc * 10 + d > u64::MAX) by {
                    assert(acc >= (u64::MAX - d) / 10 + 1);
                    assert(((u64::MAX - d) / 10 + 1) * 10 >= u64::MAX - d + 1)
                        by (nonlinear_arith);
                    assert(acc * 10 >= ((u64::MAX - d) / 10 + 1) * 10)
                        by (nonlinear_arith)
                        requires acc >= (u64::MAX - d) / 10 + 1;
                }
                if all_digits(digits) {
                    lemma_dec_value_prefix_le(digits, i + 1 - start);
                    assert(p =~= digits.subrange(0, i + 1 - start));
                    assert(dec_value(digits) > u64::MAX);
                }
            }
            return None;
        }
        proof {
            let p = s@.subrange(start as int, (i + 1) as int);
            assert(p.drop_last() =~= s@.subrange(start as int, i as int));
            assert(p.last() == s@[i as int]);
            assert(acc * 10 + d <= u64::MAX) by {
                assert(acc <= (u64::MAX - d) / 10);
                assert(((u64::MAX - d) / 10) * 10 <= u64::MAX - d);
                assert(acc * 10 <= ((u64::MAX - d) / 10) * 10)
                    by (nonlinear_arith)
                    requires acc <= (u64::MAX - d) / 10;
            }
        }
        acc = acc * 10 + d;
        i = i + 1;
    }
    proof {
        assert(digits =~= s@.subrange(start as int, i as int));
    }
    Some(acc)
}

/// The stored value that a free-form interval text denotes: the number it
/// spells if it is a valid decimal literal, and the default interval
/// otherwise.
pub open spec fn interval_from_text(s: Seq<char>) -> int {
    if is_u64_literal(s) {
        dec_value(digits_part(s))
    } else {
        crate::DEFAULT_INTERVAL_MS as int
    }
}

/// Reads an interval out of its text field, falling back to the default
/// when the text is not a valid number.
pub fn interval_or_default(s: &str) -> (r: u64)
    ensures
        r == interval_from_text(s@),
{
    match parse_u64(s) {
        Some(v) => v,
        None => crate::DEFAULT_INTERVAL_MS,
    }
}

/// The character that writes a single decimal digit.
pub open spec fn digit_char(d: int) -> char {
    if d == 0 {
        '0'
    } else if d == 1 {
        '1'
    } else if d == 2 {
        '2'
    } else if d == 3 {
        '3'
    } else if d == 4 {
        '4'
    } else if d == 5 {
        '5'
    } else if d == 6 {
        '6'
    } else if d == 7 {
        '7'
    } else if d == 8 {
        '8'
    } else {
        '9'
    }
}

/// The decimal spelling of a non-negative number: no sign, no leading
/// zeroes (except for zero itself).
pub open spec fn dec_digits(n: int) -> Seq<char>
    decreases n,
{
    if n < 10 {
        seq![digit_char(n)]
    } else {
        dec_digits(n / 10).push(digit_char(n % 10))
    }
}

/// The digit characters spelled by a reversed list of digit values.
spec fn rev_digit_chars(ds: Seq<u8>) -> Seq<char> {
    Seq::new(ds.len(), |k: int| digit_char(ds[ds.len() - 1 - k] as int))
}

/// Appends the character of one digit value to a string.
fn push_digit_char(out: &mut String, d: u8)
    requires
        d < 10,
    ensures
        final(out)@ == old(out)@.push(digit_char(d as int)),
{
    proof {
        reveal_strlit("0");
        reveal_strlit("1");
        reveal_strlit("2");
        reveal_strlit("3");
        reveal_strlit("4");
        reveal_strlit("5");
        reveal_strlit("6");
        reveal_strlit("7");
        reveal_strlit("8");
        reveal_strlit("9");
    }
    if d == 0 {
        out.append("0");
    } else if d == 1 {
        out.append("1");
    } else if d == 2 {
        out.append("2");
    } else if d == 3 {
        out.append("3");
    } else if d == 4 {
        out.append("4");
    } else if d == 5 {
        out.append("5");
    } else if d == 6 {
        out.append("6");
    } else if d == 7 {
        out.append("7");
    } else if d == 8 {
        out.append("8");
    } else {
        out.append("9");
    }
    proof {
        assert(final(out)@ =~= old(out)@.push(digit_char(d as int)));
    }
}

/// Writes a number as its decimal spelling.
pub fn u64_to_dec_string(n: u64) -> (r: String)
    ensures
        r@ == dec_digits(n as int),
{
    let mut rev: Vec<u8> = Vec::new();
    let mut m: u64 = n;
    loop
        invariant_except_break
            dec_digits(n as int) =~= dec_digits(m as int) + rev_digit_chars(rev@),
        invariant
            forall|j: int| 0 <= j < rev@.len() ==> rev@[j] < 10,
        ensures
            forall|j: int| 0 <= j < rev@.len() ==> rev@[j] < 10,
            dec_digits(n as int) =~= rev_digit_chars(rev@),
        decreases m,
    {
        let ghost rev0 = rev@;
        let ghost m0 = m as int;
        let d = (m % 10) as u8;
        rev.push(d);
        m = m / 10;
        proof {
            assert(rev@ =~= rev0.push(d));
            assert(rev_digit_chars(rev@) =~= seq![digit_char(m0 % 10)] + rev_digit_chars(
                rev0,
            ));
            if m0 >= 10 {
                assert(dec_digits(m0) =~= dec_digits(m0 / 10) + seq![
                    digit_char(m0 % 10),
                ]);
                assert(dec_digits(m0) + rev_digit_chars(rev0) =~= dec_digits(m as int)
                    + rev_digit_chars(rev@));
                assert(dec_digits(n as int) =~= dec_digits(m as int) + rev_digit_chars(
                    rev@,
                ));
            } else {
                assert(dec_digits(m0) =~= seq![digit_char(m0)]);
                assert(m0 % 10 == m0);
                assert(dec_digits(m0) + rev_digit_chars(rev0) =~= rev_digit_chars(rev@));
                assert(dec_digits(n as int) =~= rev_digit_chars(rev@));
            }
        }
        if m == 0 {
            break;
        }
        proof {
            assert(m0 >= 10);
        }
    }
    let mut out = String::new();
    let mut i: usize = rev.len();
    while i > 0
        invariant
            i <= rev@.len(),
            forall|j: int| 0 <= j < rev@.len() ==> rev@[j] < 10,
            dec_digits(n as int) =~= rev_digit_chars(rev@),
            out@ =~= rev_digit_chars(rev@).take(rev@.len() - i),
        decreases i,
    {
        i = i - 1;
        let d = rev[i];
        push_digit_char(&mut out, d);
        proof {
            assert(out@ =~= rev_digit_chars(rev@).take(rev@.len() - i));
        }
    }
    proof {
        assert(out@ =~= dec_digits(n as int));
    }
    out
}

} // verus!
