use vstd::prelude::*;

verus! {

/// How a number literal at the front of some text reads.
pub enum Scan {
    /// No literal starts there; nothing is consumed.
    Absent,
    /// A literal of this many characters starts there.
    Literal(nat),
    /// An exponent marker is not followed by digits: the text is rejected.
    Malformed,
}

pub open spec fn is_digit(c: char) -> bool {
    '0' <= c && c <= '9'
}

/// The number of decimal digits in `s` from index `i` on, up to the first
/// other character.
pub open spec fn digit_run(s: Seq<char>, i: int) -> nat
    decreases s.len() - i,
{
    if 0 <= i < s.len() && is_digit(s[i]) {
        1 + digit_run(s, i + 1)
    } else {
        0
    }
}

/// One for a `+` or `-` at index `i`, else zero.
pub open spec fn sign_len(s: Seq<char>, i: int) -> int {
    if 0 <= i < s.len() && (s[i] == '+' || s[i] == '-') {
        1
    } else {
        0
    }
}

/// Where the sign and mantissa at the front of `s` end: digits with an
/// optional point and optional fraction digits, or a point and at least one
/// digit.
pub open spec fn mantissa_end(s: Seq<char>) -> Option<int> {
    let p = sign_len(s, 0);
    let d = digit_run(s, p);
    if d > 0 {
        let q = p + d;
        if q < s.len() && s[q] == '.' {
            Some(q + 1 + digit_run(s, q + 1))
        } else {
            Some(q)
        }
    } else if p < s.len() && s[p] == '.' && digit_run(s, p + 1) > 0 {
        Some(p + 1 + digit_run(s, p + 1))
    } else {
        None
    }
}

/// `s` starts with one of the words `nan` or `inf`, in any letter case.
pub open spec fn starts_with_special(s: Seq<char>) -> bool {
    s.len() >= 3 && (
        ((s[0] == 'n' || s[0] == 'N') && (s[1] == 'a' || s[1] == 'A') && (s[2] == 'n'
            || s[2] == 'N'))
        || ((s[0] == 'i' || s[0] == 'I') && (s[1] == 'n' || s[1] == 'N') && (s[2] == 'f'
            || s[2] == 'F'))
    )
}

/// The number literal at the front of `s`: an optional sign, a mantissa, and
/// an optional exponent (`e` or `E`, an optional sign, digits); failing that,
/// the words `nan` or `inf`.
pub open spec fn float_scan(s: Seq<char>) -> Scan {
    match mantissa_end(s) {
        Some(q) => if q < s.len() && (s[q] == 'e' || s[q] == 'E') {
            let r = q + 1 + sign_len(s, q + 1);
            let e = digit_run(s, r);
            if e > 0 {
                Scan::Literal((r + e) as nat)
            } else {
                Scan::Malformed
            }
        } else {
            Scan::Literal(q as nat)
        },
        None => if starts_with_special(s) {
            Scan::Literal(3)
        } else {
            Scan::Absent
        },
    }
}

/// A whole token that reads as one number literal.
pub open spec fn is_number_literal(t: Seq<char>) -> bool {
    float_scan(t) == Scan::Literal(t.len())
}

pub proof fn lemma_digit_run_bound(s: Seq<char>, i: int)
    requires
        0 <= i <= s.len(),
    ensures
        i + digit_run(s, i) <= s.len(),
    decreases s.len() - i,
{
    if i < s.len() && is_digit(s[i]) {
        lemma_digit_run_bound(s, i + 1);
    }
}

/// A comma ends a run of digits just as the end of the text does.
pub proof fn lemma_digit_run_before_comma(a: Seq<char>, b: Seq<char>, i: int)
    requires
        0 <= i <= a.len(),
        b.len() > 0,
        b[0] == ',',
    ensures
        digit_run(a + b, i) == digit_run(a, i),
    decreases a.len() - i,
{
    if i < a.len() {
        lemma_digit_run_before_comma(a, b, i + 1);
    }
}

/// A number literal reads the same whether the text ends right after it or
/// goes on with a comma: the comma is read as the end of the text.
pub proof fn lemma_scan_before_comma(a: Seq<char>, b: Seq<char>)
    requires
        b.len() > 0,
        b[0] == ',',
    ensures
        float_scan(a + b) == float_scan(a),
{
    let s = a + b;
    assert(sign_len(s, 0) == sign_len(a, 0));
    let p = sign_len(a, 0);
    lemma_digit_run_before_comma(a, b, p);
    lemma_digit_run_bound(a, p);
    let d = digit_run(a, p);
    if d > 0 {
        let q = p + d;
        if q < a.len() {
            lemma_digit_run_before_comma(a, b, q + 1);
            lemma_digit_run_bound(a, q + 1);
        }
    } else if p < a.len() {
        lemma_digit_run_before_comma(a, b, p + 1);
        lemma_digit_run_bound(a, p + 1);
    }
    assert(mantissa_end(s) == mantissa_end(a));
    match mantissa_end(a) {
        Some(q) => {
            if q < a.len() && (a[q] == 'e' || a[q] == 'E') {
                assert(sign_len(s, q + 1) == sign_len(a, q + 1));
                let r = q + 1 + sign_len(a, q + 1);
                lemma_digit_run_before_comma(a, b, r);
            }
        },
        None => {
            assert(starts_with_special(s) == starts_with_special(a));
        },
    }
}

/// What was found at the front of some text where a number may stand.
pub enum NumberScan<'a> {
    Absent,
    Found { literal: &'a str, rest: &'a str },
    Malformed,
}

/// Relies on nom::number::complete::recognize_float_or_exceptions, the
/// recogniser behind nom's `float`: on a match it returns the literal and the
/// text after it, a soft error where no literal starts, and a hard failure
/// where an exponent marker has no digits.
#[verifier::external_body]
pub(crate) fn scan_number<'a>(s: &'a str) -> (r: NumberScan<'a>)
    ensures
        match float_scan(s@) {
            Scan::Absent => r is Absent,
            Scan::Malformed => r is Malformed,
            Scan::Literal(n) => r matches NumberScan::Found { literal, rest } && literal@ == s@.take(
                n as int,
            ) && rest@ == s@.skip(n as int),
        },
{
    match nom::number::complete::recognize_float_or_exceptions::<&str, nom::error::Error<&str>>(s) {
        Ok((rest, literal)) => NumberScan::Found { literal, rest },
        Err(nom::Err::Error(_)) => NumberScan::Absent,
        Err(_) => NumberScan::Malformed,
    }
}

/// Relies on nom::character::complete::char: it consumes `c` when the text
/// starts with it and fails otherwise.
#[verifier::external_body]
pub(crate) fn expect_char(s: &str, c: char) -> (r: Option<&str>)
    ensures
        (s@.len() > 0 && s@[0] == c) == r is Some,
        r is Some ==> r->0@ == s@.skip(1),
{
    match nom::character::complete::char::<&str, nom::error::Error<&str>>(c)(s) {
        Ok((rest, _)) => Some(rest),
        Err(_) => None,
    }
}

} // verus!
