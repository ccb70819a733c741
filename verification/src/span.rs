//! Source positions.

use vstd::prelude::*;

verus! {

/// A range of byte positions in one source file: `begin` is the first byte,
/// `end` the position after the last one.
#[derive(Clone, Copy, Debug, PartialEq, Eq, Hash, Structural)]
pub struct Span {
    pub begin: u32,
    pub end: u32,
}

/// A value together with the place in the source that it comes from.
#[derive(Debug, PartialEq, Eq)]
pub struct IrSpanned<T> {
    pub span: Span,
    pub node: T,
}

impl Span {
    /// The smallest span that encloses both `self` and `other`.
    pub open spec fn spec_merge(self, other: Span) -> Span {
        Span {
            begin: if self.begin <= other.begin { self.begin } else { other.begin },
            end: if self.end >= other.end { self.end } else { other.end },
        }
    }

    /// Create a span that encloses both `self` and `other`.
    #[verifier::when_used_as_spec(spec_merge)]
    pub fn merge(self, other: Span) -> (r: Span)
        ensures
            r == self.spec_merge(other),
    {
        Span {
            begin: if self.begin <= other.begin { self.begin } else { other.begin },
            end: if self.end >= other.end { self.end } else { other.end },
        }
    }
}

} // verus!
