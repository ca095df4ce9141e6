//! Integer text as the value store spells it: `0`, or an optional minus sign
//! followed by decimal digits that do not start with zero.

use vstd::prelude::*;

verus! {

pub open spec fn is_digit(b: u8) -> bool {
    48 <= b <= 57
}

/// The value of a run of decimal digits, most significant first.
pub open spec fn digits_value(s: Seq<u8>) -> int
    decreases s.len(),
{
    if s.len() == 0 {
        0
    } else {
        digits_value(s.drop_last()) * 10 + (s.last() - 48)
    }
}

/// Digits with no leading zero, at least one of them.
pub open spec fn is_positive_text(s: Seq<u8>) -> bool {
    &&& s.len() >= 1
    &&& 49 <= s[0] <= 57
    &&& forall|i: int| 0 <= i < s.len() ==> is_digit(#[trigger] s[i])
}

/// The integer that `s` spells, if it is integer text at all.
pub open spec fn integer_of(s: Seq<u8>) -> Option<int> {
    if s == seq![48u8] {
        Some(0)
    } else if is_positive_text(s) {
        Some(digits_value(s))
    } else if s.len() >= 1 && s[0] == 45 && is_positive_text(s.drop_first()) {
        Some(-digits_value(s.drop_first()))
    } else {
        None
    }
}

/// The integer that `s` spells, where it fits in 64 signed bits.
pub open spec fn i64_of(s: Seq<u8>) -> Option<i64> {
    match integer_of(s) {
        Some(v) => if i64::MIN <= v <= i64::MAX {
            Some(v as i64)
        } else {
            None
        },
        None => None,
    }
}

/// The canonical digits of a natural number.
pub open spec fn natural_text(n: nat) -> Seq<u8>
    decreases n,
{
    if n < 10 {
        seq![(48 + n) as u8]
    } else {
        natural_text(n / 10).push((48 + n % 10) as u8)
    }
}

/// The canonical text of an integer.
pub open spec fn decimal_text(n: int) -> Seq<u8> {
    if n < 0 {
        seq![45u8] + natural_text((-n) as nat)
    } else {
        natural_text(n as nat)
    }
}

proof fn lemma_digits_step(s: Seq<u8>, i: int)
    requires
        0 <= i < s.len(),
    ensures
        digits_value(s.subrange(0, i + 1)) == digits_value(s.subrange(0, i)) * 10 + (s[i] - 48),
{
    assert(s.subrange(0, i + 1).drop_last() =~= s.subrange(0, i));
}

proof fn lemma_digits_grow(s: Seq<u8>, i: int, j: int)
    requires
        0 <= i <= j <= s.len(),
        forall|k: int| 0 <= k < s.len() ==> is_digit(#[trigger] s[k]),
    ensures
        digits_value(s.subrange(0, i)) <= digits_value(s.subrange(0, j)),
        digits_value(s.subrange(0, i)) >= 0,
    decreases j - i,
{
    if i < j {
        lemma_digits_grow(s, i, j - 1);
        lemma_digits_step(s, j - 1);
    } else {
        lemma_digits_nonneg(s, i);
    }
}

proof fn lemma_digits_nonneg(s: Seq<u8>, i: int)
    requires
        0 <= i <= s.len(),
        forall|k: int| 0 <= k < s.len() ==> is_digit(#[trigger] s[k]),
    ensures
        digits_value(s.subrange(0, i)) >= 0,
    decreases i,
{
    if i > 0 {
        lemma_digits_nonneg(s, i - 1);
        lemma_digits_step(s, i - 1);
    }
}

/// Reads integer text; `None` where `s` is no integer text or its value
/// does not fit in 64 signed bits.
pub fn parse_i64(s: &Vec<u8>) -> (r: Option<i64>)
    ensures
        r == i64_of(s@),
{
    let n = s.len();
    if n == 0 {
        return None;
    }
    let negative = s[0] == 45u8;
    let start: usize = if negative { 1 } else { 0 };
    let ghost t = s@.subrange(start as int, n as int);
    proof {
        if negative {
            assert(t =~= s@.drop_first());
        } else {
            assert(t =~= s@);
        }
    }
    if start >= n {
        return None;
    }
    let mut i: usize = start;
    while i < n
        invariant
            start <= i <= n,
            n == s@.len(),
            t == s@.subrange(start as int, n as int),
            negative == (s@[0] == 45u8),
            negative ==> t == s@.drop_first(),
            !negative ==> t == s@,
            forall|k: int| 0 <= k < i - start ==> is_digit(#[trigger] t[k]),
        decreases n - i,
    {
        let b = s[i];
        if !(48u8 <= b && b <= 57u8) {
            proof {
                assert(t[i - start] == s@[i as int]);
                assert(!is_digit(t[i - start]));
                assert(!is_positive_text(t));
                assert(s@ != seq![48u8]) by {
                    if s@ == seq![48u8] {
                        assert(s@[i as int] == 48u8);
                    }
                }
            }
            return None;
        }
        i = i + 1;
    }
    if s[start] == 48u8 {
        if !negative && n == 1 {
            assert(s@ =~= seq![48u8]);
            return Some(0);
        }
        assert(s@ != seq![48u8]) by {
            if s@ == seq![48u8] {
                assert(s@.len() == 1);
            }
        }
        return None;
    }
    assert(is_positive_text(t));
    assert(s@ != seq![48u8]) by {
        if s@ == seq![48u8] {
            assert(s@[start as int] == 48u8);
        }
    }
    let limit: u64 = if negative { 9223372036854775808 } else { 9223372036854775807 };
    let mut acc: u64 = 0;
    let mut i: usize = start;
    while i < n
        invariant
            start <= i <= n,
            n == s@.len(),
            t == s@.subrange(start as int, n as int),
            negative == (s@[0] == 45u8),
            negative ==> t == s@.drop_first(),
            !negative ==> t == s@,
            forall|k: int| 0 <= k < t.len() ==> is_digit(#[trigger] t[k]),
            limit >= 9223372036854775807,
            is_positive_text(t),
            s@ != seq![48u8],
            limit == if negative { 9223372036854775808u64 } else { 9223372036854775807u64 },
            acc <= limit,
            acc == digits_value(t.subrange(0, i - start)),
        decreases n - i,
    {
        proof {
            assert(t[i - start] == s@[i as int]);
            assert(is_digit(t[i - start]));
        }
        let d = (s[i] - 48u8) as u64;
        proof {
            lemma_digits_step(t, i - start);
        }
        if acc > (limit - d) / 10 {
            proof {
                assert(acc * 10 + d > limit) by (nonlinear_arith)
                    requires
                        acc > (limit - d) / 10,
                        d <= 9,
                        limit >= 9,
                ;
                lemma_digits_grow(t, i - start + 1, t.len() as int);
                assert(t.subrange(0, t.len() as int) =~= t);
            }
            return None;
        }
        acc = acc * 10 + d;
        i = i + 1;
    }
    assert(t.subrange(0, t.len() as int) =~= t);
    if negative {
        if acc == 9223372036854775808 {
            Some(i64::MIN)
        } else {
            Some(-(acc as i64))
        }
    } else {
        Some(acc as i64)
    }
}

proof fn lemma_natural_text(n: nat)
    ensures
        digits_value(natural_text(n)) == n,
        natural_text(n).len() >= 1,
        forall|i: int| 0 <= i < natural_text(n).len() ==> is_digit(#[trigger] natural_text(n)[i]),
        n >= 1 ==> 49 <= natural_text(n)[0] <= 57,
        n == 0 ==> natural_text(n) == seq![48u8],
    decreases n,
{
    if n >= 10 {
        lemma_natural_text(n / 10);
        let s = natural_text(n / 10);
        assert(natural_text(n).drop_last() =~= s);
        assert(natural_text(n)[0] == s[0]);
        assert(natural_text(n).last() == (48 + n % 10) as u8);
        assert(((48 + n % 10) as u8) - 48 == n % 10);
        assert(n == (n / 10) * 10 + n % 10);
        assert(digits_value(natural_text(n)) == digits_value(s) * 10 + (natural_text(n).last() - 48));
    } else {
        assert(natural_text(n).drop_last() =~= Seq::<u8>::empty());
        assert(natural_text(n).last() == (48 + n) as u8);
        assert(digits_value(natural_text(n)) == digits_value(Seq::<u8>::empty()) * 10 + (natural_text(n).last() - 48));
    }
}

/// Reading the canonical text of an integer gives the integer back.
pub proof fn lemma_decimal_round_trip(n: int)
    ensures
        integer_of(decimal_text(n)) == Some(n),
{
    if n < 0 {
        let m = (-n) as nat;
        lemma_natural_text(m);
        let t = decimal_text(n);
        assert(t.drop_first() =~= natural_text(m));
        assert(t != seq![48u8]);
        assert(!is_positive_text(t));
    } else {
        lemma_natural_text(n as nat);
    }
}

/// Appends the canonical digits of `n` to `out`.
fn push_natural(out: &mut Vec<u8>, n: u64)
    ensures
        final(out)@ == old(out)@ + natural_text(n as nat),
    decreases n,
{
    if n < 10 {
        out.push((48 + n) as u8);
        assert(out@ =~= old(out)@ + natural_text(n as nat));
    } else {
        push_natural(out, n / 10);
        out.push((48 + n % 10) as u8);
        assert(out@ =~= old(out)@ + natural_text(n as nat));
    }
}

/// The canonical text of `n`.
pub fn render_i64(n: i64) -> (r: Vec<u8>)
    ensures
        r@ == decimal_text(n as int),
{
    let mut out: Vec<u8> = Vec::new();
    if n < 0 {
        out.push(45u8);
        let magnitude: u64 = if n == i64::MIN {
            9223372036854775808
        } else {
            (-n) as u64
        };
        push_natural(&mut out, magnitude);
        assert(out@ =~= decimal_text(n as int));
    } else {
        push_natural(&mut out, n as u64);
        assert(out@ =~= decimal_text(n as int));
    }
    out
}

} // verus!
