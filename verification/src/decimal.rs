//! Decimal rendering of integers, for the notification texts.

use vstd::prelude::*;

verus! {

/// The character for one decimal digit value.
pub open spec fn digit_char(d: nat) -> char {
    if d == 0 { '0' }
    else if d == 1 { '1' }
    else if d == 2 { '2' }
    else if d == 3 { '3' }
    else if d == 4 { '4' }
    else if d == 5 { '5' }
    else if d == 6 { '6' }
    else if d == 7 { '7' }
    else if d == 8 { '8' }
    else { '9' }
}

/// The decimal rendering of a natural number: most significant digit first,
/// no leading zeros, and a single '0' for zero.
pub open spec fn spec_udecimal(n: nat) -> Seq<char>
    decreases n,
{
    if n < 10 {
        seq![digit_char(n)]
    } else {
        spec_udecimal(n / 10).push(digit_char(n % 10))
    }
}

/// The decimal rendering of an integer: a leading '-' for negative values.
pub open spec fn spec_idecimal(n: int) -> Seq<char> {
    if n < 0 {
        seq!['-'] + spec_udecimal((-n) as nat)
    } else {
        spec_udecimal(n as nat)
    }
}

/// The characters for the digit values `ds[0..j]`, read back to front: the
/// digits are collected least significant first, so reading them backwards
/// yields the most significant digit first.
spec fn rev_digit_chars(ds: Seq<u64>, j: int) -> Seq<char>
    decreases j,
{
    if j <= 0 {
        Seq::empty()
    } else {
        seq![digit_char(ds[j - 1] as nat)] + rev_digit_chars(ds, j - 1)
    }
}

/// Appending a digit value does not change the characters read from the
/// prefix before it.
proof fn lemma_rev_digit_chars_push(ds: Seq<u64>, x: u64, j: int)
    requires
        0 <= j <= ds.len(),
    ensures
        rev_digit_chars(ds.push(x), j) == rev_digit_chars(ds, j),
    decreases j,
{
    if j > 0 {
        lemma_rev_digit_chars_push(ds, x, j - 1);
        assert(ds.push(x)[j - 1] == ds[j - 1]);
    }
}

/// The one-character string for one decimal digit value.
fn digit_str(d: u64) -> (s: &'static str)
    requires
        d < 10,
    ensures
        s@ == seq![digit_char(d as nat)],
{
    proof {
        reveal_strlit("0");
        reveal_strlit("1");
        reveal_strlit("2");
        reveal_strlit("3");
        reveal_strlit("4");
        reveal_strlit("5");
        reveal_strlit("6");
        reveal_strlit("7");
        reveal_strlit("8");
        reveal_strlit("9");
    }
    if d == 0 { "0" }
    else if d == 1 { "1" }
    else if d == 2 { "2" }
    else if d == 3 { "3" }
    else if d == 4 { "4" }
    else if d == 5 { "5" }
    else if d == 6 { "6" }
    else if d == 7 { "7" }
    else if d == 8 { "8" }
    else { "9" }
}

/// Render an unsigned integer in decimal.
pub fn u64_to_string(n: u64) -> (r: String)
    ensures
        r@ == spec_udecimal(n as nat),
{
    // collect the digit values, least significant first
    let mut rev: Vec<u64> = Vec::new();
    let mut m: u64 = n;
    proof {
        assert(spec_udecimal(n as nat) + rev_digit_chars(rev@, 0) =~= spec_udecimal(n as nat));
    }
    while m >= 10
        invariant
            forall|i: int| 0 <= i < rev@.len() ==> rev@[i] < 10,
            spec_udecimal(n as nat) == spec_udecimal(m as nat) + rev_digit_chars(
                rev@,
                rev@.len() as int,
            ),
        decreases m,
    {
        let d: u64 = m % 10;
        proof {
            lemma_rev_digit_chars_push(rev@, d, rev@.len() as int);
            assert(spec_udecimal(m as nat) == spec_udecimal((m / 10) as nat).push(
                digit_char((m % 10) as nat),
            ));
            assert(spec_udecimal((m / 10) as nat).push(digit_char(d as nat))
                + rev_digit_chars(rev@, rev@.len() as int) =~= spec_udecimal((m / 10) as nat) + (
            seq![digit_char(d as nat)] + rev_digit_chars(rev@, rev@.len() as int)));
            assert(rev_digit_chars(rev@.push(d), rev@.len() + 1int) == seq![digit_char(d as nat)]
                + rev_digit_chars(rev@.push(d), rev@.len() as int));
            assert(rev@.push(d)[rev@.len() as int] == d);
        }
        rev.push(d);
        m = m / 10;
    }
    proof {
        lemma_rev_digit_chars_push(rev@, m, rev@.len() as int);
        assert(rev@.push(m)[rev@.len() as int] == m);
        assert(spec_udecimal(m as nat) + rev_digit_chars(rev@, rev@.len() as int)
            =~= rev_digit_chars(rev@.push(m), rev@.len() + 1int));
    }
    rev.push(m);

    // read the digits back to front, most significant first
    let mut out = String::new();
    let mut j: usize = rev.len();
    proof {
        assert(out@ + rev_digit_chars(rev@, j as int) =~= rev_digit_chars(rev@, j as int));
    }
    while j > 0
        invariant
            j <= rev@.len(),
            forall|i: int| 0 <= i < rev@.len() ==> rev@[i] < 10,
            out@ + rev_digit_chars(rev@, j as int) == spec_udecimal(n as nat),
        decreases j,
    {
        j = j - 1;
        let s = digit_str(rev[j]);
        proof {
            assert((out@ + s@) + rev_digit_chars(rev@, j as int) =~= out@ + (seq![
                digit_char(rev@[j as int] as nat),
            ] + rev_digit_chars(rev@, j as int)));
        }
        out.append(s);
    }
    proof {
        assert(out@ + rev_digit_chars(rev@, 0) =~= out@);
    }
    out
}

/// Render a signed integer in decimal, with a leading '-' when negative.
pub fn i64_to_string(n: i64) -> (r: String)
    ensures
        r@ == spec_idecimal(n as int),
{
    if n >= 0 {
        u64_to_string(n as u64)
    } else {
        let magnitude: u64 = if n == i64::MIN {
            9223372036854775808u64
        } else {
            (-n) as u64
        };
        let mut out = String::from_str("-");
        proof {
            reveal_strlit("-");
        }
        let digits = u64_to_string(magnitude);
        out.append(digits.as_str());
        proof {
            assert(out@ =~= spec_idecimal(n as int));
        }
        out
    }
}

} // verus!
