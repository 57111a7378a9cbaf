//! The transaction reporter: counters accumulated over one resolution run,
//! and the audit summary an operator reads afterwards.

use vstd::prelude::*;
use vstd::string::{StrSliceExecFns, StringExecFns};

verus! {

/// The character for decimal digit `d`.
pub open spec fn digit_char(d: nat) -> char {
    if d == 0 {
        '0'
    } else if d == 1 {
        '1'
    } else if d == 2 {
        '2'
    } else if d == 3 {
        '3'
    } else if d == 4 {
        '4'
    } else if d == 5 {
        '5'
    } else if d == 6 {
        '6'
    } else if d == 7 {
        '7'
    } else if d == 8 {
        '8'
    } else {
        '9'
    }
}

/// The decimal digits of `n`, most significant first.
pub open spec fn dec_str(n: nat) -> Seq<char>
    decreases n,
{
    if n < 10 {
        seq![digit_char(n)]
    } else {
        dec_str(n / 10).push(digit_char(n % 10))
    }
}

fn digit_str(d: u64) -> (s: &'static str)
    requires
        d < 10,
    ensures
        s@ == seq![digit_char(d as nat)],
{
    if d == 0 {
        proof {
            reveal_strlit("0");
        }
        "0"
    } else if d == 1 {
        proof {
            reveal_strlit("1");
        }
        "1"
    } else if d == 2 {
        proof {
            reveal_strlit("2");
        }
        "2"
    } else if d == 3 {
        proof {
            reveal_strlit("3");
        }
        "3"
    } else if d == 4 {
        proof {
            reveal_strlit("4");
        }
        "4"
    } else if d == 5 {
        proof {
            reveal_strlit("5");
        }
        "5"
    } else if d == 6 {
        proof {
            reveal_strlit("6");
        }
        "6"
    } else if d == 7 {
        proof {
            reveal_strlit("7");
        }
        "7"
    } else if d == 8 {
        proof {
            reveal_strlit("8");
        }
        "8"
    } else {
        proof {
            reveal_strlit("9");
        }
        "9"
    }
}

/// The decimal rendering of `n`.
pub fn u64_to_string(n: u64) -> (s: String)
    ensures
        s@ == dec_str(n as nat),
    decreases n,
{
    if n < 10 {
        String::from_str(digit_str(n))
    } else {
        let mut s = u64_to_string(n / 10);
        s.append(digit_str(n % 10));
        proof {
            assert(s@ =~= dec_str(n as nat));
        }
        s
    }
}

/// Counters over one resolution run: rows deleted, failed deletions, rows
/// restored, failed restorations.
#[derive(Clone, Copy, Debug, PartialEq, Eq, Structural)]
pub struct Counters {
    pub deletes: u64,
    pub failed_deletes: u64,
    pub restores: u64,
    pub failed_restores: u64,
}

impl Counters {
    /// All four counters at zero.
    pub open spec fn zero() -> Counters {
        Counters { deletes: 0, failed_deletes: 0, restores: 0, failed_restores: 0 }
    }

    /// A fresh reporter with nothing counted.
    pub fn new() -> (c: Counters)
        ensures
            c == Counters::zero(),
    {
        Counters { deletes: 0, failed_deletes: 0, restores: 0, failed_restores: 0 }
    }

    /// The one-line audit summary of a resolution run: its outcome and the
    /// four counters.
    pub fn summary(&self, succeeded: bool) -> (s: String)
        ensures
            s@ == summary_of(*self, succeeded),
    {
        let mut s = if succeeded {
            String::from_str("resolution succeeded: ")
        } else {
            String::from_str("resolution failed: ")
        };
        s.append("deletes=");
        let deletes = u64_to_string(self.deletes);
        s.append(deletes.as_str());
        s.append(", failedDeletes=");
        let failed_deletes = u64_to_string(self.failed_deletes);
        s.append(failed_deletes.as_str());
        s.append(", restores=");
        let restores = u64_to_string(self.restores);
        s.append(restores.as_str());
        s.append(", failedRestores=");
        let failed_restores = u64_to_string(self.failed_restores);
        s.append(failed_restores.as_str());
        s
    }
}

/// The audit line the reporter produces: the outcome, then the counters.
pub open spec fn summary_of(c: Counters, succeeded: bool) -> Seq<char> {
    (if succeeded {
        "resolution succeeded: "@
    } else {
        "resolution failed: "@
    }) + "deletes="@ + dec_str(c.deletes as nat) + ", failedDeletes="@ + dec_str(
        c.failed_deletes as nat,
    ) + ", restores="@ + dec_str(c.restores as nat) + ", failedRestores="@ + dec_str(
        c.failed_restores as nat,
    )
}

} // verus!
