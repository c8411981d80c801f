//! Registry-level classifications of a stylesheet.

use vstd::prelude::*;

verus! {

/// The provenance of a stylesheet. Origin takes part in cascade priority:
/// user-agent rules yield to user rules, which yield to author rules.
#[derive(Clone, Copy, PartialEq, Eq, Structural, Debug)]
pub enum Origin {
    OriginUA,
    OriginUser,
    OriginAuthor,
}

/// Cascade rank of an origin; declarations of a higher rank win.
pub open spec fn spec_origin_rank(o: Origin) -> int {
    match o {
        Origin::OriginUA => 0,
        Origin::OriginUser => 1,
        Origin::OriginAuthor => 2,
    }
}

pub fn origin_rank(o: Origin) -> (r: usize)
    ensures
        r as int == spec_origin_rank(o),
{
    match o {
        Origin::OriginUA => 0,
        Origin::OriginUser => 1,
        Origin::OriginAuthor => 2,
    }
}

} // verus!
