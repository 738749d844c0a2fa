//! Small verified string utilities: equality of string slices and the
//! decimal rendering of unsigned integers, used by the deterministic
//! runner-naming rule.

use vstd::prelude::*;

verus! {

/// Character equality test on two string slices, proved against the views.
pub fn str_eq(a: &str, b: &str) -> (r: bool)
    ensures
        r == (a@ == b@),
{
    let a_len = a.unicode_len();
    let b_len = b.unicode_len();
    if a_len != b_len {
        proof {
            assert(a@.len() != b@.len());
        }
        return false;
    }
    let mut i: usize = 0;
    while i < a_len
        invariant
            a_len == a@.len(),
            b_len == b@.len(),
            a_len == b_len,
            0 <= i <= a_len,
            forall|j: int| 0 <= j < i ==> a@[j] == b@[j],
        decreases a_len - i,
    {
        if a.get_char(i) != b.get_char(i) {
            return false;
        }
        i += 1;
    }
    proof {
        assert(a@ =~= b@);
    }
    true
}

/// The sequence of decimal digit characters of `n`, most significant first.
pub open spec fn decimal_of(n: nat) -> Seq<char>
    decreases n,
{
    if n < 10 {
        seq![digit_char(n)]
    } else {
        decimal_of(n / 10).push(digit_char(n % 10))
    }
}

/// The character for a single decimal digit.
pub open spec fn digit_char(d: nat) -> char {
    if d == 0 {
        '0'
    } else if d == 1 {
        '1'
    } else if d == 2 {
        '2'
    } else if d == 3 {
        '3'
    } else if d == 4 {
        '4'
    } else if d == 5 {
        '5'
    } else if d == 6 {
        '6'
    } else if d == 7 {
        '7'
    } else if d == 8 {
        '8'
    } else {
        '9'
    }
}

/// A one-character string slice for a decimal digit.
fn digit_str(d: u64) -> (r: &'static str)
    requires
        d < 10,
    ensures
        r@ == seq![digit_char(d as nat)],
{
    if d == 0 {
        let s = "0";
        proof { reveal_strlit("0"); }
        s
    } else if d == 1 {
        let s = "1";
        proof { reveal_strlit("1"); }
        s
    } else if d == 2 {
        let s = "2";
        proof { reveal_strlit("2"); }
        s
    } else if d == 3 {
        let s = "3";
        proof { reveal_strlit("3"); }
        s
    } else if d == 4 {
        let s = "4";
        proof { reveal_strlit("4"); }
        s
    } else if d == 5 {
        let s = "5";
        proof { reveal_strlit("5"); }
        s
    } else if d == 6 {
        let s = "6";
        proof { reveal_strlit("6"); }
        s
    } else if d == 7 {
        let s = "7";
        proof { reveal_strlit("7"); }
        s
    } else if d == 8 {
        let s = "8";
        proof { reveal_strlit("8"); }
        s
    } else {
        let s = "9";
        proof { reveal_strlit("9"); }
        s
    }
}

/// Renders `n` in decimal, proved equal to `decimal_of`.
pub fn u64_to_string(n: u64) -> (s: String)
    ensures
        s@ == decimal_of(n as nat),
    decreases n,
{
    if n < 10 {
        String::from_str(digit_str(n))
    } else {
        let mut s = u64_to_string(n / 10);
        s.append(digit_str(n % 10));
        s
    }
}

} // verus!
