//! Small verified helpers on strings and characters.

use vstd::prelude::*;
use vstd::string::StrSliceExecFns;
use vstd::string::StringExecFns;

verus! {

/// Compares two strings by their character sequences.
pub fn str_equal(a: &str, b: &str) -> (r: bool)
    ensures
        r == (a@ == b@),
{
    let a_string = a.to_owned();
    let b_string = b.to_owned();
    a_string.eq(&b_string)
}

/// Two characters are equal up to ASCII case: equal outright, or an ASCII
/// letter and its other case.
pub open spec fn char_eq_ci(a: char, b: char) -> bool {
    let au = a as u32;
    let bu = b as u32;
    ||| au == bu
    ||| (65 <= au <= 90 && au + 32 == bu)
    ||| (65 <= bu <= 90 && bu + 32 == au)
}

/// Two character sequences are equal up to ASCII case.
pub open spec fn seq_eq_ci(a: Seq<char>, b: Seq<char>) -> bool {
    a.len() == b.len() && (forall|i: int| 0 <= i < a.len() ==> char_eq_ci(a[i], b[i]))
}

/// Compares two strings up to ASCII case.
pub fn str_eq_ci(a: &str, b: &str) -> (r: bool)
    ensures
        r == seq_eq_ci(a@, b@),
{
    let n = a.unicode_len();
    let m = b.unicode_len();
    if n != m {
        return false;
    }
    let mut i: usize = 0;
    while i < n
        invariant
            n == a@.len(),
            n == b@.len(),
            0 <= i <= n,
            forall|j: int| 0 <= j < i ==> char_eq_ci(a@[j], b@[j]),
        decreases n - i,
    {
        let au = a.get_char(i) as u32;
        let bu = b.get_char(i) as u32;
        let same = au == bu || (65 <= au && au <= 90 && au + 32 == bu) || (65 <= bu && bu <= 90
            && bu + 32 == au);
        if !same {
            return false;
        }
        i += 1;
    }
    true
}

} // verus!
