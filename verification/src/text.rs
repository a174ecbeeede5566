//! Small verified helpers for building and inspecting strings: decimal
//! rendering of integers and ASCII case folding.

use vstd::prelude::*;

verus! {

/// The character for a single decimal digit.
pub open spec fn digit_char(d: nat) -> char {
    if d == 0 {
        '0'
    } else if d == 1 {
        '1'
    } else if d == 2 {
        '2'
    } else if d == 3 {
        '3'
    } else if d == 4 {
        '4'
    } else if d == 5 {
        '5'
    } else if d == 6 {
        '6'
    } else if d == 7 {
        '7'
    } else if d == 8 {
        '8'
    } else {
        '9'
    }
}

/// The decimal rendering of `n`, most significant digit first, no leading
/// zeros (except for `n == 0`, which renders as "0").
pub open spec fn spec_decimal(n: nat) -> Seq<char>
    decreases n,
{
    if n < 10 {
        seq![digit_char(n)]
    } else {
        spec_decimal(n / 10).push(digit_char(n % 10))
    }
}

fn exec_digit_char(d: u64) -> (c: char)
    requires
        d < 10,
    ensures
        c == digit_char(d as nat),
{
    if d == 0 {
        '0'
    } else if d == 1 {
        '1'
    } else if d == 2 {
        '2'
    } else if d == 3 {
        '3'
    } else if d == 4 {
        '4'
    } else if d == 5 {
        '5'
    } else if d == 6 {
        '6'
    } else if d == 7 {
        '7'
    } else if d == 8 {
        '8'
    } else {
        '9'
    }
}

/// Relies on std's String::push: appends exactly one character.
#[verifier::external_body]
pub fn push_char(s: &mut String, c: char)
    ensures
        final(s)@ == old(s)@.push(c),
{
    s.push(c);
}

/// Render `n` in decimal.
pub fn u64_to_string(n: u64) -> (r: String)
    ensures
        r@ == spec_decimal(n as nat),
{
    let mut digits: Vec<char> = Vec::new();
    let mut m = n;
    if m == 0 {
        digits.push('0');
    }
    while m > 0
        invariant
            m <= n,
            n > 0 ==> (if m > 0 {
                spec_decimal(n as nat) == spec_decimal(m as nat) + digits@.reverse()
            } else {
                spec_decimal(n as nat) == digits@.reverse()
            }),
            n == 0 ==> m == 0 && digits@ == seq!['0'],
        decreases m,
    {
        let d = m % 10;
        let c = exec_digit_char(d);
        proof {
            let dsr = digits@.reverse();
            let ds2 = digits@.push(c).reverse();
            assert(ds2 =~= seq![c] + dsr);
            if m >= 10 {
                assert(spec_decimal(m as nat) == spec_decimal((m as nat) / 10).push(
                    digit_char((m as nat) % 10),
                ));
                assert(spec_decimal((m as nat) / 10) + ds2 =~= spec_decimal(m as nat) + dsr);
            } else {
                assert(spec_decimal(m as nat) == seq![c]);
                assert(spec_decimal(m as nat) + dsr =~= ds2);
            }
        }
        digits.push(c);
        m = m / 10;
    }
    proof {
        if n == 0 {
            assert(digits@.reverse() =~= seq!['0']);
            assert(spec_decimal(0) == seq![digit_char(0)]);
            assert(digits@.reverse() =~= spec_decimal(n as nat));
        }
    }
    let mut r = String::new();
    let mut i = digits.len();
    while i > 0
        invariant
            i <= digits.len(),
            r@ == digits@.subrange(i as int, digits@.len() as int).reverse(),
        decreases i,
    {
        i = i - 1;
        let c = digits[i];
        proof {
            let tail = digits@.subrange(i + 1, digits@.len() as int).reverse();
            let whole = digits@.subrange(i as int, digits@.len() as int).reverse();
            assert(whole =~= tail.push(digits@[i as int]));
        }
        push_char(&mut r, c);
    }
    proof {
        assert(digits@.subrange(0, digits@.len() as int) =~= digits@);
    }
    r
}

/// ASCII lower-casing of one character; everything outside 'A'..'Z' is kept.
pub open spec fn lower_char(c: char) -> char {
    if 'A' <= c && c <= 'Z' {
        ((c as u8) + 32) as char
    } else {
        c
    }
}

/// ASCII lower-casing of a character sequence.
pub open spec fn spec_lower(s: Seq<char>) -> Seq<char> {
    s.map_values(|c: char| lower_char(c))
}

fn exec_lower_char(c: char) -> (r: char)
    ensures
        r == lower_char(c),
{
    if 'A' <= c && c <= 'Z' {
        ((c as u8) + 32) as char
    } else {
        c
    }
}

/// Lower-case the ASCII letters of `s`; other characters are kept as they are.
pub fn ascii_lowercase(s: &str) -> (r: String)
    ensures
        r@ == spec_lower(s@),
{
    let len = s.unicode_len();
    let mut r = String::new();
    let mut i: usize = 0;
    while i < len
        invariant
            len == s@.len(),
            i <= len,
            r@ == spec_lower(s@.subrange(0, i as int)),
        decreases len - i,
    {
        let c = s.get_char(i);
        let lc = exec_lower_char(c);
        proof {
            let pref = s@.subrange(0, i as int);
            let pref2 = s@.subrange(0, i + 1);
            assert(pref2 =~= pref.push(s@[i as int]));
            assert(spec_lower(pref2) =~= spec_lower(pref).push(lower_char(s@[i as int])));
        }
        push_char(&mut r, lc);
        i = i + 1;
    }
    proof {
        assert(s@.subrange(0, s@.len() as int) =~= s@);
    }
    r
}

/// Relies on std's str::eq: string slices compare equal exactly when their
/// characters do.
#[verifier::external_body]
pub fn str_eq(a: &str, b: &str) -> (r: bool)
    ensures
        r == (a@ == b@),
{
    a == b
}

/// Concatenation helper: a fresh String holding `a` then `b`.
pub fn concat2(a: &str, b: &str) -> (r: String)
    ensures
        r@ == a@ + b@,
{
    let mut r = String::from_str(a);
    r.append(b);
    r
}

} // verus!
