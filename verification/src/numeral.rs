//! Recognizer for decimal floating-point literals, as the ingestion layer
//! uses it to tell numeric entries from categorical ones.  The accepted
//! language is the one `f64::from_str` documents: an optional sign, then
//! either one of the special words `inf`, `infinity`, `nan` (in any
//! letter case), or a mantissa of digits holding at most one decimal
//! point and at least one digit, optionally followed by `e` or `E`, an
//! optional sign, and one or more exponent digits.  Out-of-range values
//! round to infinity rather than failing, so the grammar alone decides
//! whether a string parses.

use vstd::prelude::*;
use vstd::string::StrSliceExecFns;

verus! {

pub open spec fn is_digit_char(c: char) -> bool {
    48 <= c as u32 && c as u32 <= 57
}

pub open spec fn is_sign_char(c: char) -> bool {
    c == '+' || c == '-'
}

pub open spec fn is_exp_char(c: char) -> bool {
    c == 'e' || c == 'E'
}

pub open spec fn is_mantissa_char(c: char) -> bool {
    is_digit_char(c) || c == '.'
}

/// `c` equals the (lower-case) letter `lower`, ignoring letter case.
pub open spec fn ci_eq(c: char, lower: char) -> bool {
    c == lower || c as u32 + 32 == lower as u32
}

pub open spec fn digit_count(s: Seq<char>) -> nat
    decreases s.len(),
{
    if s.len() == 0 {
        0
    } else {
        digit_count(s.drop_last()) + if is_digit_char(s.last()) {
            1nat
        } else {
            0nat
        }
    }
}

pub open spec fn dot_count(s: Seq<char>) -> nat
    decreases s.len(),
{
    if s.len() == 0 {
        0
    } else {
        dot_count(s.drop_last()) + if s.last() == '.' {
            1nat
        } else {
            0nat
        }
    }
}

/// Digits with at most one decimal point among them and at least one
/// digit: `12`, `12.`, `.5`, `1.25` -- but not `.` or `1.2.3`.
pub open spec fn mantissa_ok(s: Seq<char>) -> bool {
    &&& forall|i: int| 0 <= i < s.len() ==> is_mantissa_char(#[trigger] s[i])
    &&& digit_count(s) >= 1
    &&& dot_count(s) <= 1
}

/// The sequence with a single leading sign removed, if there is one.
pub open spec fn strip_sign(s: Seq<char>) -> Seq<char> {
    if s.len() > 0 && is_sign_char(s[0]) {
        s.skip(1)
    } else {
        s
    }
}

/// An optional sign followed by one or more digits.
pub open spec fn exponent_ok(s: Seq<char>) -> bool {
    &&& strip_sign(s).len() >= 1
    &&& forall|i: int| 0 <= i < strip_sign(s).len() ==> is_digit_char(#[trigger] strip_sign(s)[i])
}

/// A mantissa, optionally followed by an exponent marker and an exponent.
pub open spec fn number_ok(s: Seq<char>) -> bool {
    ||| mantissa_ok(s)
    ||| exists|k: int|
        0 <= k < s.len() && is_exp_char(#[trigger] s[k]) && mantissa_ok(s.take(k))
            && exponent_ok(s.skip(k + 1))
}

/// One of the words `inf`, `infinity`, `nan`, in any letter case.
pub open spec fn special_ok(s: Seq<char>) -> bool {
    ||| (s.len() == 3 && ci_eq(s[0], 'i') && ci_eq(s[1], 'n') && ci_eq(s[2], 'f'))
    ||| (s.len() == 8 && ci_eq(s[0], 'i') && ci_eq(s[1], 'n') && ci_eq(s[2], 'f') && ci_eq(
        s[3],
        'i',
    ) && ci_eq(s[4], 'n') && ci_eq(s[5], 'i') && ci_eq(s[6], 't') && ci_eq(s[7], 'y'))
    ||| (s.len() == 3 && ci_eq(s[0], 'n') && ci_eq(s[1], 'a') && ci_eq(s[2], 'n'))
}

/// The whole accepted language: an optional sign, then a special word or
/// a number.
pub open spec fn float_literal_ok(s: Seq<char>) -> bool {
    special_ok(strip_sign(s)) || number_ok(strip_sign(s))
}

fn exec_is_digit(c: char) -> (r: bool)
    ensures
        r == is_digit_char(c),
{
    let v = c as u32;
    48 <= v && v <= 57
}

fn exec_ci_eq(c: char, lower: char) -> (r: bool)
    ensures
        r == ci_eq(c, lower),
{
    c == lower || (c as u64) + 32 == (lower as u64)
}

/// An exponent marker is neither a digit nor a decimal point.
proof fn lemma_exp_not_mantissa(c: char)
    ensures
        is_exp_char(c) ==> !is_mantissa_char(c),
{
}

/// When the first `p` characters are mantissa characters and the one at
/// `p` is an exponent marker, `p` is the only place the split between
/// mantissa and exponent can fall, and the whole sequence is no bare
/// mantissa.
proof fn lemma_exp_split_unique(t: Seq<char>, p: int)
    requires
        0 <= p < t.len(),
        is_exp_char(t[p]),
        forall|j: int| 0 <= j < p ==> is_mantissa_char(#[trigger] t[j]),
    ensures
        !mantissa_ok(t),
        forall|k: int|
            0 <= k < t.len() && is_exp_char(#[trigger] t[k]) && mantissa_ok(t.take(k)) ==> k == p,
{
    lemma_exp_not_mantissa(t[p]);
    assert forall|k: int|
        0 <= k < t.len() && is_exp_char(#[trigger] t[k]) && mantissa_ok(t.take(k)) implies k
        == p by {
        lemma_exp_not_mantissa(t[k]);
        if k > p {
            assert(is_mantissa_char(t.take(k)[p]));
        }
    }
}

/// Whether `s`, from position `start` on, is one of the special words.
fn special_match(s: &str, start: usize) -> (r: bool)
    requires
        start <= s@.len(),
    ensures
        r == special_ok(s@.skip(start as int)),
{
    let ghost t = s@.skip(start as int);
    let n = s.unicode_len();
    let m = n - start;
    if m == 3 {
        let a = s.get_char(start);
        let b = s.get_char(start + 1);
        let c = s.get_char(start + 2);
        (exec_ci_eq(a, 'i') && exec_ci_eq(b, 'n') && exec_ci_eq(c, 'f')) || (exec_ci_eq(a, 'n')
            && exec_ci_eq(b, 'a') && exec_ci_eq(c, 'n'))
    } else if m == 8 {
        exec_ci_eq(s.get_char(start), 'i') && exec_ci_eq(s.get_char(start + 1), 'n') && exec_ci_eq(
            s.get_char(start + 2),
            'f',
        ) && exec_ci_eq(s.get_char(start + 3), 'i') && exec_ci_eq(s.get_char(start + 4), 'n')
            && exec_ci_eq(s.get_char(start + 5), 'i') && exec_ci_eq(s.get_char(start + 6), 't')
            && exec_ci_eq(s.get_char(start + 7), 'y')
    } else {
        false
    }
}

/// Scan the exponent that follows the marker at position `i`: an
/// optional sign, then one or more digits.  `mantissa_valid` reports
/// whether what stood before the marker was a valid mantissa.
#[verifier::loop_isolation(false)]
fn exponent_match(s: &str, start: usize, i: usize, mantissa_valid: bool) -> (r: bool)
    requires
        start <= i < s@.len(),
        is_exp_char(s@[i as int]),
        forall|j: int| start <= j < i ==> is_mantissa_char(#[trigger] s@[j]),
        mantissa_valid == mantissa_ok(s@.skip(start as int).take(i - start)),
    ensures
        r == number_ok(s@.skip(start as int)),
{
    let ghost t = s@.skip(start as int);
    let ghost p = i - start;
    let n = s.unicode_len();
    proof {
        assert forall|j: int| 0 <= j < p implies is_mantissa_char(#[trigger] t[j]) by {
            assert(t[j] == s@[start + j]);
        }
        lemma_exp_split_unique(t, p);
    }
    if !mantissa_valid {
        proof {
            if number_ok(t) {
                let k = choose|k: int|
                    0 <= k < t.len() && is_exp_char(#[trigger] t[k]) && mantissa_ok(t.take(k))
                        && exponent_ok(t.skip(k + 1));
                assert(k == p);
            }
        }
        return false;
    }
    let mut j: usize = i + 1;
    if j < n {
        let c = s.get_char(j);
        if c == '+' || c == '-' {
            j += 1;
        }
    }
    let ghost u = t.skip(p + 1);
    proof {
        assert(u =~= s@.skip(i as int + 1));
        assert(strip_sign(u) =~= s@.subrange(j as int, n as int));
    }
    if j == n {
        // No exponent digit at all.
        proof {
            if number_ok(t) {
                let k = choose|k: int|
                    0 <= k < t.len() && is_exp_char(#[trigger] t[k]) && mantissa_ok(t.take(k))
                        && exponent_ok(t.skip(k + 1));
                assert(k == p);
            }
        }
        return false;
    }
    let ghost j0 = j as int;
    while j < n
        invariant
            j0 <= j <= n,
            forall|m: int| j0 <= m < j ==> is_digit_char(#[trigger] s@[m]),
        decreases n - j,
    {
        let c = s.get_char(j);
        if !exec_is_digit(c) {
            proof {
                assert(strip_sign(u)[j - j0] == s@[j as int]);
                assert(!exponent_ok(u));
                if number_ok(t) {
                    let k = choose|k: int|
                        0 <= k < t.len() && is_exp_char(#[trigger] t[k]) && mantissa_ok(t.take(k))
                            && exponent_ok(t.skip(k + 1));
                    assert(k == p);
                }
            }
            return false;
        }
        j += 1;
    }
    proof {
        assert forall|m: int| 0 <= m < strip_sign(u).len() implies is_digit_char(
            #[trigger] strip_sign(u)[m],
        ) by {
            assert(strip_sign(u)[m] == s@[j0 + m]);
        }
        assert(exponent_ok(u));
        assert(number_ok(t)) by {
            assert(0 <= p < t.len() && is_exp_char(t[p]) && mantissa_ok(t.take(p)) && exponent_ok(
                t.skip(p + 1),
            ));
        }
    }
    true
}

/// Whether `s`, from position `start` on, is a number of the accepted
/// grammar: mantissa, then optionally an exponent marker and exponent.
#[verifier::loop_isolation(false)]
fn number_match(s: &str, start: usize) -> (r: bool)
    requires
        start <= s@.len(),
    ensures
        r == number_ok(s@.skip(start as int)),
{
    let ghost t = s@.skip(start as int);
    let n = s.unicode_len();
    let mut i: usize = start;
    let mut digits: usize = 0;
    let mut dots: usize = 0;
    while i < n
        invariant
            start <= i <= n,
            digits <= i - start,
            dots <= i - start,
            digits == digit_count(s@.subrange(start as int, i as int)),
            dots == dot_count(s@.subrange(start as int, i as int)),
            forall|j: int| start <= j < i ==> is_mantissa_char(#[trigger] s@[j]),
        decreases n - i,
    {
        let c = s.get_char(i);
        if c == 'e' || c == 'E' {
            proof {
                assert(s@.subrange(start as int, i as int) =~= t.take(i - start));
                assert forall|j: int| 0 <= j < (i - start) implies is_mantissa_char(
                    #[trigger] t.take(i - start)[j],
                ) by {
                    assert(t.take(i - start)[j] == s@[start + j]);
                }
            }
            return exponent_match(s, start, i, digits >= 1 && dots <= 1);
        }
        let d = exec_is_digit(c);
        if !d && c != '.' {
            // An impossible character: no split point can put it inside
            // a mantissa or an exponent.
            proof {
                assert(!is_mantissa_char(s@[i as int]) && !is_exp_char(s@[i as int]));
                assert(!mantissa_ok(t)) by {
                    assert(t[i - start] == s@[i as int]);
                }
                assert forall|k: int|
                    !(0 <= k < t.len() && is_exp_char(#[trigger] t[k]) && mantissa_ok(t.take(k))
                        && exponent_ok(t.skip(k + 1))) by {
                    if 0 <= k < t.len() && is_exp_char(t[k]) {
                        assert(t[k] == s@[start + k]);
                        if k > i - start {
                            assert(t.take(k)[i - start] == s@[i as int]);
                            assert(!mantissa_ok(t.take(k)));
                        }
                    }
                }
            }
            return false;
        }
        proof {
            assert(s@.subrange(start as int, i as int + 1).drop_last() =~= s@.subrange(
                start as int,
                i as int,
            ));
            assert(s@.subrange(start as int, i as int + 1).last() == s@[i as int]);
        }
        if d {
            digits += 1;
        } else {
            dots += 1;
        }
        i += 1;
    }
    proof {
        assert(s@.subrange(start as int, i as int) =~= t.take(i - start));
    }
    // The whole tail is mantissa characters.
    proof {
        assert(t.take(i - start) =~= t);
        assert forall|j: int| 0 <= j < t.len() implies is_mantissa_char(#[trigger] t[j]) by {
            assert(t[j] == s@[start + j]);
        }
        assert forall|k: int|
            !(0 <= k < t.len() && is_exp_char(#[trigger] t[k]) && mantissa_ok(t.take(k))
                && exponent_ok(t.skip(k + 1))) by {
            if 0 <= k < t.len() {
                lemma_exp_not_mantissa(t[k]);
            }
        }
    }
    digits >= 1 && dots <= 1
}

/// Whether the string is a decimal floating-point literal: the test the
/// ingestion layer applies to each tabular entry.
pub fn is_float(s: &str) -> (r: bool)
    ensures
        r == float_literal_ok(s@),
{
    let n = s.unicode_len();
    if n == 0 {
        return false;
    }
    let c0 = s.get_char(0);
    let start: usize = if c0 == '+' || c0 == '-' {
        1
    } else {
        0
    };
    proof {
        assert(strip_sign(s@) =~= s@.skip(start as int));
    }
    if special_match(s, start) {
        return true;
    }
    number_match(s, start)
}

} // verus!
