//! Decimal text for unsigned integers: rendering path variables into URL
//! segments and reading numeric fields out of string-valued responses.

use vstd::prelude::*;
use vstd::string::StrSliceExecFns;

verus! {

/// The character for one decimal digit value.
pub open spec fn spec_digit_char(d: nat) -> char {
    if d == 0 {
        '0'
    } else if d == 1 {
        '1'
    } else if d == 2 {
        '2'
    } else if d == 3 {
        '3'
    } else if d == 4 {
        '4'
    } else if d == 5 {
        '5'
    } else if d == 6 {
        '6'
    } else if d == 7 {
        '7'
    } else if d == 8 {
        '8'
    } else {
        '9'
    }
}

/// The decimal rendering of `n`, most significant digit first, without
/// leading zeros (a single `'0'` for zero).
pub open spec fn spec_dec_digits(n: nat) -> Seq<char>
    decreases n,
{
    if n < 10 {
        seq![spec_digit_char(n)]
    } else {
        spec_dec_digits(n / 10).push(spec_digit_char(n % 10))
    }
}

/// Whether `c` is a decimal digit.
pub open spec fn spec_is_digit(c: char) -> bool {
    '0' as u32 <= c as u32 <= '9' as u32
}

/// The value of one digit character.
pub open spec fn spec_digit_val(c: char) -> nat {
    (c as u32 - '0' as u32) as nat
}

/// The value of a sequence of digit characters, most significant first.
pub open spec fn spec_digits_val(s: Seq<char>) -> nat
    decreases s.len(),
{
    if s.len() == 0 {
        0
    } else {
        spec_digits_val(s.drop_last()) * 10 + spec_digit_val(s.last())
    }
}

/// A non-empty sequence of decimal digit characters.
pub open spec fn spec_all_digits(s: Seq<char>) -> bool {
    s.len() > 0 && (forall|i: int| 0 <= i < s.len() ==> spec_is_digit(s[i]))
}

/// What `usize::from_str` accepts: an optional leading `'+'`, then one or
/// more digits, with a value that fits in `usize`.
pub open spec fn spec_parse_usize(s: Seq<char>) -> Option<usize> {
    let body = if s.len() > 0 && s[0] == '+' {
        s.drop_first()
    } else {
        s
    };
    if spec_all_digits(body) && spec_digits_val(body) <= usize::MAX {
        Some(spec_digits_val(body) as usize)
    } else {
        None
    }
}

/// A one-character string for one decimal digit value.
fn digit_str(d: u8) -> (r: &'static str)
    requires
        d < 10,
    ensures
        r@ == seq![spec_digit_char(d as nat)],
{
    proof {
        reveal_strlit("0");
        reveal_strlit("1");
        reveal_strlit("2");
        reveal_strlit("3");
        reveal_strlit("4");
        reveal_strlit("5");
        reveal_strlit("6");
        reveal_strlit("7");
        reveal_strlit("8");
        reveal_strlit("9");
    }
    let r = match d {
        0 => "0",
        1 => "1",
        2 => "2",
        3 => "3",
        4 => "4",
        5 => "5",
        6 => "6",
        7 => "7",
        8 => "8",
        _ => "9",
    };
    proof {
        assert(r@ =~= seq![spec_digit_char(d as nat)]);
    }
    r
}

/// The digit values of `spec_dec_digits(n)` read backwards from `rev`:
/// `rev` holds the digits least significant first.
spec fn spec_rev_digit_chars(rev: Seq<u8>) -> Seq<char> {
    Seq::new(rev.len(), |i: int| spec_digit_char(rev[rev.len() - 1 - i] as nat))
}

/// Render `n` in decimal, most significant digit first.
pub fn usize_to_string(n: usize) -> (s: String)
    ensures
        s@ == spec_dec_digits(n as nat),
{
    let mut rev: Vec<u8> = Vec::new();
    let mut m: usize = n;
    while m >= 10
        invariant
            spec_dec_digits(n as nat) == spec_dec_digits(m as nat) + spec_rev_digit_chars(rev@),
            forall|i: int| 0 <= i < rev@.len() ==> rev@[i] < 10,
        decreases m,
    {
        let d: u8 = (m % 10) as u8;
        proof {
            let old_rev = rev@;
            assert(spec_rev_digit_chars(old_rev.push(d)) =~= seq![spec_digit_char(d as nat)]
                + spec_rev_digit_chars(old_rev));
            assert(spec_dec_digits(m as nat) == spec_dec_digits((m / 10) as nat).push(
                spec_digit_char((m % 10) as nat)));
            assert(spec_dec_digits((m / 10) as nat).push(spec_digit_char(d as nat))
                =~= spec_dec_digits((m / 10) as nat) + seq![spec_digit_char(d as nat)]);
        }
        rev.push(d);
        m = m / 10;
    }
    let d: u8 = m as u8;
    rev.push(d);
    proof {
        let prev = rev@.drop_last();
        assert(spec_rev_digit_chars(rev@) =~= seq![spec_digit_char(d as nat)]
            + spec_rev_digit_chars(prev));
        assert(spec_dec_digits(m as nat) == seq![spec_digit_char(m as nat)]);
        assert(spec_dec_digits(n as nat) =~= spec_rev_digit_chars(rev@));
    }
    let ghost target = spec_dec_digits(n as nat);
    let mut s = String::new();
    let mut i: usize = rev.len();
    while i > 0
        invariant
            i <= rev@.len(),
            target == spec_rev_digit_chars(rev@),
            target.len() == rev@.len(),
            forall|k: int| 0 <= k < rev@.len() ==> rev@[k] < 10,
            s@ == target.take(rev@.len() - i),
        decreases i,
    {
        i = i - 1;
        let piece = digit_str(rev[i]);
        s.append(piece);
        proof {
            assert(target[rev@.len() - 1 - i] == spec_digit_char(rev@[i as int] as nat));
            assert(s@ =~= target.take(rev@.len() - i));
        }
    }
    proof {
        assert(s@ =~= target);
    }
    s
}

/// A digit-value prefix never exceeds the value of the whole sequence.
proof fn lemma_digits_val_prefix_le(s: Seq<char>, j: int)
    requires
        0 <= j <= s.len(),
    ensures
        spec_digits_val(s.take(j)) <= spec_digits_val(s),
    decreases s.len(),
{
    if j == s.len() {
        assert(s.take(j) =~= s);
    } else {
        assert(s.drop_last().take(j) =~= s.take(j));
        lemma_digits_val_prefix_le(s.drop_last(), j);
    }
}

/// Parse a decimal `usize` as `usize::from_str` does: an optional leading
/// `'+'`, then one or more digits; `None` on any other shape or on overflow.
pub fn parse_usize(s: &str) -> (r: Option<usize>)
    ensures
        r == spec_parse_usize(s@),
{
    let n = s.unicode_len();
    let mut start: usize = 0;
    if n > 0 && s.get_char(0) == '+' {
        start = 1;
    }
    let ghost body = if s@.len() > 0 && s@[0] == '+' {
        s@.drop_first()
    } else {
        s@
    };
    proof {
        assert(body =~= s@.subrange(start as int, n as int));
    }
    if start == n {
        return None;
    }
    let mut val: usize = 0;
    let mut i: usize = start;
    while i < n
        invariant
            start <= i <= n,
            n == s@.len(),
            start == 1 ==> s@.len() > 0 && s@[0] == '+',
            start == 0 ==> !(s@.len() > 0 && s@[0] == '+'),
            body == s@.subrange(start as int, n as int),
            body == (if s@.len() > 0 && s@[0] == '+' { s@.drop_first() } else { s@ }),
            forall|k: int| 0 <= k < i - start ==> spec_is_digit(body[k]),
            val == spec_digits_val(body.take(i - start)),
        decreases n - i,
    {
        let c = s.get_char(i);
        let u = c as u32;
        if u < '0' as u32 || u > '9' as u32 {
            proof {
                assert(0 <= i - start < body.len());
                assert(!spec_is_digit(body[i - start]));
                assert(!spec_all_digits(body));
            }
            return None;
        }
        let d: u32 = u - '0' as u32;
        proof {
            assert(spec_is_digit(s@[i as int]));
            assert(spec_digit_val(s@[i as int]) == d as nat);
        }
        if val > (usize::MAX - d as usize) / 10 {
            proof {
                let taken = body.take(i - start + 1);
                assert(taken.drop_last() =~= body.take(i - start));
                assert(taken.last() == body[i - start]);
                assert(spec_digits_val(taken) == val * 10 + d) by {
                    assert(spec_digits_val(taken) == spec_digits_val(taken.drop_last()) * 10
                        + spec_digit_val(taken.last()));
                }
                assert(val * 10 + d > usize::MAX) by (nonlinear_arith)
                    requires
                        val > (usize::MAX - d as usize) / 10,
                        d < 10,
                ;
                lemma_digits_val_prefix_le(body, i - start + 1);
                assert(spec_digits_val(body) > usize::MAX);
                assert(spec_parse_usize(s@) is None);
            }
            return None;
        }
        proof {
            assert(val * 10 + d <= usize::MAX) by (nonlinear_arith)
                requires
                    val <= (usize::MAX - d as usize) / 10,
                    d < 10,
            ;
        }
        let new_val: usize = val * 10 + d as usize;
        proof {
            let taken = body.take(i - start + 1);
            assert(taken.drop_last() =~= body.take(i - start));
            assert(taken.last() == body[i - start]);
            assert(body[i - start] == s@[i as int]);
            assert(spec_digits_val(taken) == new_val);
        }
        val = new_val;
        i = i + 1;
    }
    proof {
        assert(body.take(n - start) =~= body);
        assert(spec_all_digits(body));
        assert(spec_parse_usize(s@) == Some(val));
    }
    Some(val)
}

} // verus!
