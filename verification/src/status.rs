//! Lifecycle status of a migration attempt, and the case-insensitive mapping
//! from a status column's text to it.

use vstd::prelude::*;
use vstd::string::StrSliceExecFns;

verus! {

/// Lifecycle of the migration attempt a ledger record describes.
#[derive(Clone, Copy, Debug, PartialEq, Eq, Structural)]
pub enum VerStatus {
    Ongoing,
    Fail,
    Success,
}

/// Code point of `c` with an ASCII upper-case letter folded to lower case.
pub open spec fn lower_code(c: char) -> int {
    if 65 <= c as int && c as int <= 90 {
        c as int + 32
    } else {
        c as int
    }
}

/// Whether two characters are equal up to ASCII case.
pub open spec fn ci_eq_char(a: char, b: char) -> bool {
    lower_code(a) == lower_code(b)
}

/// Whether two character sequences are equal up to ASCII case.
pub open spec fn ci_eq(s: Seq<char>, t: Seq<char>) -> bool {
    s.len() == t.len() && forall|i: int| 0 <= i < s.len() ==> #[trigger] ci_eq_char(s[i], t[i])
}

/// The status a status column's text denotes, if any.
pub open spec fn status_of(s: Seq<char>) -> Option<VerStatus> {
    if ci_eq(s, "ongoing"@) {
        Some(VerStatus::Ongoing)
    } else if ci_eq(s, "fail"@) {
        Some(VerStatus::Fail)
    } else if ci_eq(s, "success"@) {
        Some(VerStatus::Success)
    } else {
        None
    }
}

fn ci_char_eq(a: char, b: char) -> (r: bool)
    ensures
        r == ci_eq_char(a, b),
{
    let x: u32 = a as u32;
    let y: u32 = b as u32;
    let xl: u32 = if 65 <= x && x <= 90 { x + 32 } else { x };
    let yl: u32 = if 65 <= y && y <= 90 { y + 32 } else { y };
    xl == yl
}

fn str_ci_eq(a: &str, b: &str) -> (r: bool)
    ensures
        r == ci_eq(a@, b@),
{
    let alen = a.unicode_len();
    let blen = b.unicode_len();
    if alen != blen {
        return false;
    }
    let mut i: usize = 0;
    while i < alen
        invariant
            alen == a@.len(),
            blen == b@.len(),
            alen == blen,
            i <= alen,
            forall|j: int| 0 <= j < i ==> #[trigger] ci_eq_char(a@[j], b@[j]),
        decreases alen - i,
    {
        if !ci_char_eq(a.get_char(i), b.get_char(i)) {
            return false;
        }
        i += 1;
    }
    true
}

impl VerStatus {
    /// Maps a status column's text, case-insensitively over ASCII, to the
    /// status it names; unrecognized text maps to `None`.
    pub fn from_string(s: String) -> (r: Option<VerStatus>)
        ensures
            r == status_of(s@),
    {
        if str_ci_eq(s.as_str(), "ongoing") {
            Some(VerStatus::Ongoing)
        } else if str_ci_eq(s.as_str(), "fail") {
            Some(VerStatus::Fail)
        } else if str_ci_eq(s.as_str(), "success") {
            Some(VerStatus::Success)
        } else {
            None
        }
    }
}

} // verus!
