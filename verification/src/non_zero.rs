//! A count that is at least one, validated at construction so that the
//! invalid zero can never exist.

use crate::timing::clock_duration::text;
use vstd::prelude::*;

verus! {

use vstd::string::StrSliceExecFns;

/// A positive count.
#[derive(Clone, Copy, Debug, PartialEq, Eq, Structural)]
pub struct AtLeastOne(pub u32);

/// Zero was offered where at least one is needed.
#[derive(Clone, Copy, Debug, PartialEq, Eq, Structural)]
pub struct IsZeroError;

/// Why a text denotes no positive count.
#[derive(Clone, Copy, Debug, PartialEq, Eq, Structural)]
pub enum ParseNonPosZeroError {
    /// The text is not a non-negative number at all.
    NoPostiveNumber,
    /// The text reads as zero.
    IsZero(IsZeroError),
}

/// The number an unsigned decimal text denotes: an optional leading
/// plus, then digits, fitting a `u32`; a minus sign never belongs to an
/// unsigned number.
pub open spec fn spec_parse_u32(g: Seq<char>) -> Option<u32> {
    if g.len() > 0 && g[0] == '-' {
        None
    } else {
        match text::spec_parse_i64(g) {
            Some(v) => if 0 <= v <= u32::MAX {
                Some(v as u32)
            } else {
                None
            },
            None => None,
        }
    }
}

impl AtLeastOne {
    /// The count really is at least one.
    pub open spec fn wf(&self) -> bool {
        self.0 > 0
    }

    /// The count.
    pub fn value(&self) -> (r: u32)
        ensures
            r == self.0,
    {
        self.0
    }

    /// Accepts every positive count and refuses zero.
    pub fn new(value: u32) -> (r: Result<AtLeastOne, IsZeroError>)
        ensures
            r == (if value == 0 {
                Err::<AtLeastOne, IsZeroError>(IsZeroError)
            } else {
                Ok::<AtLeastOne, IsZeroError>(AtLeastOne(value))
            }),
    {
        if value == 0 {
            Err(IsZeroError)
        } else {
            Ok(AtLeastOne(value))
        }
    }

    /// Parses a positive count: text that is no unsigned number is
    /// refused as such, the number zero is refused as zero.
    pub fn from_str(s: &str) -> (r: Result<AtLeastOne, ParseNonPosZeroError>)
        ensures
            r == (match spec_parse_u32(s@) {
                None => Err::<AtLeastOne, ParseNonPosZeroError>(
                    ParseNonPosZeroError::NoPostiveNumber,
                ),
                Some(v) => if v == 0 {
                    Err::<AtLeastOne, ParseNonPosZeroError>(
                        ParseNonPosZeroError::IsZero(IsZeroError),
                    )
                } else {
                    Ok::<AtLeastOne, ParseNonPosZeroError>(AtLeastOne(v))
                },
            }),
    {
        let len = s.unicode_len();
        if len > 0 && s.get_char(0) as u32 == 45 {
            return Err(ParseNonPosZeroError::NoPostiveNumber);
        }
        proof {
            assert(s@.subrange(0, s@.len() as int) =~= s@);
        }
        match text::parse_group_i64(s, 0, len) {
            Some(v) => if v < 0 || v > u32::MAX as i64 {
                Err(ParseNonPosZeroError::NoPostiveNumber)
            } else if v == 0 {
                Err(ParseNonPosZeroError::IsZero(IsZeroError))
            } else {
                Ok(AtLeastOne(v as u32))
            },
            None => Err(ParseNonPosZeroError::NoPostiveNumber),
        }
    }
}

} // verus!
