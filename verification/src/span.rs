use vstd::prelude::*;

use vstd::std_specs::cmp::PartialEqSpec;

verus! {

/// Identifier of one registered source file.
///
/// Ids are dense, start at 1 and are never reused; the value 0 is the
/// `UNKNOWN` sentinel meaning "no file".
#[derive(Clone, Copy, Debug, PartialEq, Eq, Structural, Hash)]
pub struct SourceId(pub u32);

impl SourceId {
    /// The sentinel id meaning "no file".
    pub fn unknown() -> (r: Self)
        ensures
            r == SourceId(0u32),
    {
        SourceId(0)
    }

    pub fn new(value: u32) -> (r: Self)
        ensures
            r == SourceId(value),
    {
        SourceId(value)
    }

    pub fn get(self) -> (r: u32)
        ensures
            r == self.0,
    {
        self.0
    }

    /// True exactly of the `UNKNOWN` sentinel.
    pub open spec fn spec_is_unknown(self) -> bool {
        self.0 == 0
    }

    pub fn is_unknown(self) -> (r: bool)
        ensures
            r == self.spec_is_unknown(),
    {
        self.0 == 0
    }
}

/// A byte position inside one specific source file.
///
/// Positions of different files are unrelated: no order is defined across
/// files.
#[derive(Clone, Copy, Debug, PartialEq, Eq, Structural, Hash)]
pub struct SourceIndex {
    pub source_id: SourceId,
    pub index: u32,
}

impl SourceIndex {
    pub fn new(source_id: SourceId, index: u32) -> (r: Self)
        ensures
            r == (SourceIndex { source_id, index }),
    {
        SourceIndex { source_id, index }
    }

    pub fn source_id(self) -> (r: SourceId)
        ensures
            r == self.source_id,
    {
        self.source_id
    }

    pub fn index(self) -> (r: u32)
        ensures
            r == self.index,
    {
        self.index
    }
}

/// A byte range inside one specific source file.
///
/// `start <= end` holds of every span the library constructs.  The canonical
/// `unknown` value (file id 0, offsets 0,0) is a safe default for trees built
/// without real sources; all registry lookups against it fail cleanly.
#[derive(Clone, Copy, Debug, PartialEq, Eq, Structural, Hash)]
pub struct SourceSpan {
    pub source_id: SourceId,
    pub start: u32,
    pub end: u32,
}

impl SourceSpan {
    /// Well-formedness: the range is not inverted.
    pub open spec fn wf(self) -> bool {
        self.start <= self.end
    }

    /// The span value standing for "no source location".
    pub open spec fn spec_unknown() -> SourceSpan {
        SourceSpan { source_id: SourceId(0u32), start: 0u32, end: 0u32 }
    }

    /// Returns the canonical unknown span.
    pub fn unknown() -> (r: Self)
        ensures
            r == Self::spec_unknown(),
    {
        SourceSpan { source_id: SourceId(0), start: 0, end: 0 }
    }

    pub open spec fn spec_is_unknown(self) -> bool {
        self == Self::spec_unknown()
    }

    /// Creates a new span from `start` to `end`.
    ///
    /// Both indices must lie in the same file and must not be inverted: a
    /// span across two different files signals a bug in the compiler that
    /// produced the indices, so no such span can be constructed.  Callers
    /// that cannot guarantee this use [`SourceSpan::try_new`].
    pub fn new(start: SourceIndex, end: SourceIndex) -> (r: Self)
        requires
            start.source_id == end.source_id,
            start.index <= end.index,
        ensures
            r == (SourceSpan { source_id: start.source_id, start: start.index, end: end.index }),
            r.wf(),
    {
        if start.source_id == end.source_id {
            SourceSpan { source_id: start.source_id, start: start.index, end: end.index }
        } else {
            Self::unknown()
        }
    }

    /// Checked construction: yields a span exactly when the two indices lie
    /// in the same file and are not inverted.
    pub fn try_new(start: SourceIndex, end: SourceIndex) -> (r: Option<Self>)
        ensures
            r == (if start.source_id == end.source_id && start.index <= end.index {
                Some(SourceSpan { source_id: start.source_id, start: start.index, end: end.index })
            } else {
                None::<SourceSpan>
            }),
    {
        if start.source_id == end.source_id && start.index <= end.index {
            Some(SourceSpan { source_id: start.source_id, start: start.index, end: end.index })
        } else {
            None
        }
    }

    /// True if this span is the canonical unknown value.
    pub fn is_unknown(self) -> (r: bool)
        ensures
            r == self.spec_is_unknown(),
    {
        self.source_id.0 == 0 && self.start == 0 && self.end == 0
    }

    pub fn source_id(&self) -> (r: SourceId)
        ensures
            r == self.source_id,
    {
        self.source_id
    }

    /// The starting position of this span.
    pub fn start(&self) -> (r: SourceIndex)
        ensures
            r == (SourceIndex { source_id: self.source_id, index: self.start }),
    {
        SourceIndex { source_id: self.source_id, index: self.start }
    }

    /// The starting byte offset of this span within its file.
    pub fn start_index(&self) -> (r: u32)
        ensures
            r == self.start,
    {
        self.start
    }

    /// Truncates `offset` bytes from the start of the range; the end is kept.
    pub fn shrink_front(self, offset: u32) -> (r: Self)
        requires
            self.start + offset <= self.end,
        ensures
            r == (SourceSpan { source_id: self.source_id, start: (self.start + offset) as u32, end: self.end }),
            r.wf(),
    {
        SourceSpan { source_id: self.source_id, start: self.start + offset, end: self.end }
    }

    /// The ending position of this span.
    pub fn end(&self) -> (r: SourceIndex)
        ensures
            r == (SourceIndex { source_id: self.source_id, index: self.end }),
    {
        SourceIndex { source_id: self.source_id, index: self.end }
    }

    /// The ending byte offset of this span within its file.
    pub fn end_index(&self) -> (r: u32)
        ensures
            r == self.end,
    {
        self.end
    }

    /// What [`SourceSpan::merge`] returns: the smallest span covering both
    /// arguments, defined only when both are known and share a file.
    pub open spec fn spec_merge(a: SourceSpan, b: SourceSpan) -> Option<SourceSpan> {
        if a.spec_is_unknown() || b.spec_is_unknown() {
            None
        } else if a.source_id != b.source_id {
            None
        } else {
            Some(SourceSpan {
                source_id: a.source_id,
                start: if a.start <= b.start { a.start } else { b.start },
                end: if a.end >= b.end { a.end } else { b.end },
            })
        }
    }

    /// Creates the smallest span that covers both this span and `other`.
    ///
    /// Returns `None` if either span is unknown or they lie in different
    /// files.  The order of the two spans does not matter.
    pub fn merge(self, other: SourceSpan) -> (r: Option<SourceSpan>)
        ensures
            r == Self::spec_merge(self, other),
    {
        if self.is_unknown() || other.is_unknown() {
            return None;
        }
        if self.source_id != other.source_id {
            return None;
        }
        let start: u32 = if self.start <= other.start { self.start } else { other.start };
        let end: u32 = if self.end >= other.end { self.end } else { other.end };
        Some(SourceSpan { source_id: self.source_id, start, end })
    }
}

/// Merging is commutative: the order of the two spans does not matter.
pub proof fn lemma_merge_commutes(a: SourceSpan, b: SourceSpan)
    ensures
        SourceSpan::spec_merge(a, b) == SourceSpan::spec_merge(b, a),
{
}

/// Merging known same-file spans is associative.
pub proof fn lemma_merge_assoc(a: SourceSpan, b: SourceSpan, c: SourceSpan)
    requires
        !a.spec_is_unknown(),
        !b.spec_is_unknown(),
        !c.spec_is_unknown(),
        a.source_id == b.source_id,
        b.source_id == c.source_id,
    ensures
        SourceSpan::spec_merge(a, b) is Some,
        SourceSpan::spec_merge(b, c) is Some,
        SourceSpan::spec_merge(SourceSpan::spec_merge(a, b)->Some_0, c)
            == SourceSpan::spec_merge(a, SourceSpan::spec_merge(b, c)->Some_0),
{
}

/// Merging with the unknown span is undefined, whichever side it stands on.
pub proof fn lemma_merge_unknown(x: SourceSpan)
    ensures
        SourceSpan::spec_merge(SourceSpan::spec_unknown(), x) is None,
        SourceSpan::spec_merge(x, SourceSpan::spec_unknown()) is None,
{
}

impl Default for SourceSpan {
    /// The unknown span: the safe default for trees built without sources.
    fn default() -> (r: SourceSpan)
        ensures
            r == SourceSpan::spec_unknown(),
    {
        SourceSpan::unknown()
    }
}

/// Implemented by every type that carries a canonical [`SourceSpan`].
pub trait Spanned {
    /// The span this value carries, as seen by specifications.
    spec fn spec_span(&self) -> SourceSpan;

    /// The span this value carries.
    fn span(&self) -> (s: SourceSpan)
        ensures
            s == self.spec_span(),
    ;
}

impl Spanned for SourceSpan {
    open spec fn spec_span(&self) -> SourceSpan {
        *self
    }

    fn span(&self) -> (s: SourceSpan) {
        *self
    }
}

impl<T: Spanned> Spanned for Box<T> {
    open spec fn spec_span(&self) -> SourceSpan {
        (**self).spec_span()
    }

    fn span(&self) -> (s: SourceSpan) {
        (**self).span()
    }
}

/// Wraps a value that has no canonical span in a type that has one.
#[derive(Clone, Copy, Debug)]
pub struct Span<T> {
    /// Where the wrapped item comes from.
    pub span: SourceSpan,
    /// The underlying item.
    pub item: T,
}

impl<T> Span<T> {
    /// Ties `item` to the source region `span`.
    pub fn new(span: SourceSpan, item: T) -> (r: Self)
        ensures
            r.span == span,
            r.item == item,
    {
        Span { span, item }
    }
}

impl<T> Spanned for Span<T> {
    open spec fn spec_span(&self) -> SourceSpan {
        self.span
    }

    fn span(&self) -> (s: SourceSpan) {
        self.span
    }
}

impl<T: PartialEq> PartialEq for Span<T> {
    /// The wrapper is transparent: equality delegates to the wrapped item
    /// alone, and the span is ignored.
    fn eq(&self, other: &Span<T>) -> (r: bool) {
        self.item == other.item
    }
}

impl<T: PartialEq> vstd::std_specs::cmp::PartialEqSpecImpl for Span<T> {
    open spec fn obeys_eq_spec() -> bool {
        T::obeys_eq_spec()
    }

    open spec fn eq_spec(&self, other: &Span<T>) -> bool {
        self.item.eq_spec(&other.item)
    }
}

impl<T: Eq> Eq for Span<T> {

}

} // verus!
