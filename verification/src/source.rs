//! Positions in the program text.

use vstd::prelude::*;

verus! {

/// A span of the program text: the byte offsets of its start and its end.
#[derive(Debug, Default, Clone, Copy, PartialEq)]
pub struct SourceRange(pub [usize; 2]);

impl SourceRange {
    /// The span from `start` to `end`.
    pub open spec fn spec_new(start: usize, end: usize) -> SourceRange {
        SourceRange([start, end])
    }

    /// The span from `start` to `end`.
    #[verifier::when_used_as_spec(spec_new)]
    pub fn new(start: usize, end: usize) -> (r: SourceRange)
        ensures
            r == SourceRange::spec_new(start, end),
            r.0[0] == start,
            r.0[1] == end,
    {
        let r = SourceRange([start, end]);
        assert(r.0 =~= [start, end]);
        r
    }

    /// The offset at which the span starts.
    pub fn start(&self) -> (r: usize)
        ensures
            r == self.0[0],
    {
        self.0[0]
    }

    /// The offset at which the span ends.
    pub fn end(&self) -> (r: usize)
        ensures
            r == self.0[1],
    {
        self.0[1]
    }
}

/// Where a value came from.
#[derive(Debug, Clone, Copy, PartialEq)]
pub struct Metadata {
    /// The source range.
    pub source_range: SourceRange,
}

impl From<SourceRange> for Metadata {
    fn from(source_range: SourceRange) -> (r: Self) {
        Self { source_range }
    }
}

impl vstd::std_specs::convert::FromSpecImpl<SourceRange> for Metadata {
    open spec fn obeys_from_spec() -> bool {
        true
    }

    open spec fn from_spec(source_range: SourceRange) -> Self {
        Metadata { source_range }
    }
}

/// The source ranges of a list of metadata, in order.
pub open spec fn ranges_of(meta: Seq<Metadata>) -> Seq<SourceRange> {
    Seq::new(meta.len(), |i: int| meta[i].source_range)
}

/// The source ranges of a list of metadata, in order.
pub fn source_ranges(meta: &Vec<Metadata>) -> (r: Vec<SourceRange>)
    ensures
        r@ == ranges_of(meta@),
{
    let mut out: Vec<SourceRange> = Vec::new();
    let mut i: usize = 0;
    while i < meta.len()
        invariant
            i <= meta.len(),
            out@.len() == i,
            forall|j: int| 0 <= j < i ==> out@[j] == meta@[j].source_range,
        decreases meta.len() - i,
    {
        out.push(meta[i].source_range);
        i = i + 1;
    }
    assert(out@ =~= ranges_of(meta@));
    out
}

} // verus!
