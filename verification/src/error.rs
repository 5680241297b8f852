//! Error kinds shared by every fallible operation of the plan core.

use vstd::prelude::*;

verus! {

/// A typed failure of a plan operation. Every fallible operation returns one
/// of these kinds instead of aborting, and validates its preconditions
/// before doing any work, so no partial output is ever emitted on an error
/// path.
#[derive(Debug)]
pub enum PlanError {
    /// A malformed argument, such as a child list of the wrong arity or
    /// columns that do not conform to a schema.
    InvalidArgument(String),
    /// An out-of-range partition index or a broken internal invariant.
    Internal(String),
    /// An operation the node kind does not implement, such as push-feeding
    /// a node that computes its own partitions, or decoding an unknown tag.
    NotSupported(String),
}

/// The character of one decimal digit.
pub open spec fn digit_char(d: int) -> char {
    if d == 0 {
        '0'
    } else if d == 1 {
        '1'
    } else if d == 2 {
        '2'
    } else if d == 3 {
        '3'
    } else if d == 4 {
        '4'
    } else if d == 5 {
        '5'
    } else if d == 6 {
        '6'
    } else if d == 7 {
        '7'
    } else if d == 8 {
        '8'
    } else {
        '9'
    }
}

/// The decimal rendering of a nonnegative number, most significant digit
/// first.
pub open spec fn spec_decimal(n: int) -> Seq<char>
    decreases n,
{
    if n <= 9 {
        seq![digit_char(n)]
    } else {
        spec_decimal(n / 10) + seq![digit_char(n % 10)]
    }
}

fn digit_string(d: usize) -> (s: String)
    requires
        d < 10,
    ensures
        s@ == seq![digit_char(d as int)],
{
    proof {
        reveal_strlit("0");
        reveal_strlit("1");
        reveal_strlit("2");
        reveal_strlit("3");
        reveal_strlit("4");
        reveal_strlit("5");
        reveal_strlit("6");
        reveal_strlit("7");
        reveal_strlit("8");
        reveal_strlit("9");
    }
    let s = match d {
        0 => String::from_str("0"),
        1 => String::from_str("1"),
        2 => String::from_str("2"),
        3 => String::from_str("3"),
        4 => String::from_str("4"),
        5 => String::from_str("5"),
        6 => String::from_str("6"),
        7 => String::from_str("7"),
        8 => String::from_str("8"),
        _ => String::from_str("9"),
    };
    proof {
        assert(s@ =~= seq![digit_char(d as int)]);
    }
    s
}

/// Render a number in decimal, for error texts that must describe an
/// offending value.
pub fn decimal_string(n: usize) -> (s: String)
    ensures
        s@ == spec_decimal(n as int),
    decreases n,
{
    if n <= 9 {
        digit_string(n)
    } else {
        let mut s = decimal_string(n / 10);
        let d = digit_string(n % 10);
        s.append(d.as_str());
        s
    }
}

impl PlanError {
    /// The description carried by the error, whatever its kind.
    pub open spec fn spec_message(self) -> Seq<char> {
        match self {
            PlanError::InvalidArgument(m) => m@,
            PlanError::Internal(m) => m@,
            PlanError::NotSupported(m) => m@,
        }
    }

    /// The human-readable description of the failure.
    pub fn message(&self) -> (m: &str)
        ensures
            m@ == self.spec_message(),
    {
        match self {
            PlanError::InvalidArgument(m) => m.as_str(),
            PlanError::Internal(m) => m.as_str(),
            PlanError::NotSupported(m) => m.as_str(),
        }
    }
}

} // verus!
