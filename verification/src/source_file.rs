use vstd::prelude::*;

use crate::error::Error;
use crate::filename::{FileName, FileNameV};
use crate::span::{SourceId, SourceSpan};

verus! {

/// A line/column position, both 0-based, inside one file.
#[derive(Clone, Copy, Debug, PartialEq, Eq, Structural)]
pub struct Location {
    pub line: u32,
    pub column: u32,
}

/// The byte offsets at which lines begin, for content ending as `bytes`
/// does: a line starts right after every newline byte.
pub open spec fn newline_starts(bytes: Seq<u8>) -> Seq<int>
    decreases bytes.len(),
{
    if bytes.len() == 0 {
        Seq::empty()
    } else {
        let prefix = newline_starts(bytes.drop_last());
        if bytes.last() == 10u8 {
            prefix.push(bytes.len() as int)
        } else {
            prefix
        }
    }
}

/// All line-start offsets of `bytes`: offset 0 plus one start after each
/// newline byte.
pub open spec fn spec_line_starts(bytes: Seq<u8>) -> Seq<int> {
    seq![0int] + newline_starts(bytes)
}

pub open spec fn strictly_increasing(s: Seq<int>) -> bool {
    forall|i: int, j: int| 0 <= i < j < s.len() ==> s[i] < s[j]
}

proof fn lemma_newline_starts_props(bytes: Seq<u8>)
    ensures
        newline_starts(bytes).len() <= bytes.len(),
        forall|i: int|
            0 <= i < newline_starts(bytes).len() ==> 1 <= #[trigger] newline_starts(bytes)[i]
                <= bytes.len(),
        strictly_increasing(newline_starts(bytes)),
    decreases bytes.len(),
{
    if bytes.len() > 0 {
        lemma_newline_starts_props(bytes.drop_last());
    }
}

/// The line-start table begins with 0, stays within the content, and is
/// strictly increasing.
pub proof fn lemma_line_starts_props(bytes: Seq<u8>)
    ensures
        1 <= spec_line_starts(bytes).len() <= bytes.len() + 1,
        spec_line_starts(bytes)[0] == 0,
        forall|i: int|
            0 <= i < spec_line_starts(bytes).len() ==> 0 <= #[trigger] spec_line_starts(bytes)[i]
                <= bytes.len(),
        strictly_increasing(spec_line_starts(bytes)),
{
    lemma_newline_starts_props(bytes);
    let s = spec_line_starts(bytes);
    let ns = newline_starts(bytes);
    assert forall|i: int, j: int| 0 <= i < j < s.len() implies s[i] < s[j] by {
        if i > 0 {
            assert(ns[i - 1] < ns[j - 1]);
        } else {
            assert(1 <= ns[j - 1]);
        }
    }
}

/// The index of the line containing byte offset `idx`: the largest line
/// whose start is at or before `idx`.
pub open spec fn spec_line_of(starts: Seq<int>, idx: int) -> int
    decreases starts.len(),
{
    if starts.len() <= 1 {
        0
    } else if starts[starts.len() - 1] <= idx {
        starts.len() - 1
    } else {
        spec_line_of(starts.drop_last(), idx)
    }
}

/// `spec_line_of` lands on the unique line whose start is at or before
/// `idx` and whose successor (if any) starts after it.
pub proof fn lemma_line_of_props(starts: Seq<int>, idx: int)
    requires
        starts.len() >= 1,
        starts[0] <= idx,
        strictly_increasing(starts),
    ensures
        0 <= spec_line_of(starts, idx) < starts.len(),
        starts[spec_line_of(starts, idx)] <= idx,
        spec_line_of(starts, idx) + 1 < starts.len() ==> idx < starts[spec_line_of(starts, idx) + 1],
    decreases starts.len(),
{
    if starts.len() > 1 && starts[starts.len() - 1] > idx {
        let pre = starts.drop_last();
        assert(strictly_increasing(pre));
        lemma_line_of_props(pre, idx);
    }
}

/// Any line satisfying the bracketing conditions is the one
/// `spec_line_of` finds.
pub proof fn lemma_line_of_unique(starts: Seq<int>, idx: int, line: int)
    requires
        starts.len() >= 1,
        starts[0] <= idx,
        strictly_increasing(starts),
        0 <= line < starts.len(),
        starts[line] <= idx,
        line + 1 < starts.len() ==> idx < starts[line + 1],
    ensures
        line == spec_line_of(starts, idx),
{
    lemma_line_of_props(starts, idx);
    let found = spec_line_of(starts, idx);
    if line < found {
        assert(starts[line + 1] <= starts[found]);
    } else if found < line {
        assert(starts[found + 1] <= starts[line]);
    }
}

/// Specification-level value of a [`SourceFile`].
pub struct SourceFileV {
    pub id: SourceId,
    pub name: FileNameV,
    pub source: Seq<u8>,
    pub line_starts: Seq<int>,
    pub parent: Option<SourceSpan>,
}

impl SourceFileV {
    /// Well-formedness: the line-start table is exactly the one derived
    /// from the content, and the content addresses fit in 32 bits.
    pub open spec fn wf(self) -> bool {
        &&& self.line_starts == spec_line_starts(self.source)
        &&& self.source.len() <= u32::MAX
    }

    pub open spec fn num_lines(self) -> int {
        self.line_starts.len() as int
    }

    pub open spec fn line_start(self, line: int) -> int {
        self.line_starts[line]
    }

    /// One past the last content byte of `line`, excluding its newline.
    pub open spec fn line_end(self, line: int) -> int {
        if line + 1 < self.line_starts.len() {
            self.line_starts[line + 1] - 1
        } else {
            self.source.len() as int
        }
    }

    pub open spec fn line_len(self, line: int) -> int {
        self.line_end(line) - self.line_start(line)
    }

    pub open spec fn line_of(self, idx: int) -> int {
        spec_line_of(self.line_starts, idx)
    }

    /// Where byte offset `idx` falls, as a 0-based line/column pair.
    pub open spec fn location_of(self, idx: int) -> Location {
        Location {
            line: self.line_of(idx) as u32,
            column: (idx - self.line_start(self.line_of(idx))) as u32,
        }
    }

    /// The span of a whole line, newline excluded.
    pub open spec fn line_span_of(self, line: int) -> SourceSpan {
        SourceSpan {
            source_id: self.id,
            start: self.line_start(line) as u32,
            end: self.line_end(line) as u32,
        }
    }

    /// The zero-width span pointing at `line`:`column`.
    pub open spec fn line_column_span_of(self, line: int, column: int) -> SourceSpan {
        SourceSpan {
            source_id: self.id,
            start: (self.line_start(line) + column) as u32,
            end: (self.line_start(line) + column) as u32,
        }
    }

    /// The whole-file span.
    pub open spec fn source_span_of(self) -> SourceSpan {
        SourceSpan { source_id: self.id, start: 0u32, end: self.source.len() as u32 }
    }
}

/// One registered source file: its immutable decoded content (as UTF-8
/// bytes), its assigned id, its display name, a derived line-start table,
/// and the optional parent span this file was included from.
///
/// Constructed exactly once, at registration; never mutated afterwards.
#[derive(Clone, Debug)]
pub struct SourceFile {
    pub id: SourceId,
    pub name: FileName,
    pub source: Vec<u8>,
    pub line_starts: Vec<u32>,
    pub parent: Option<SourceSpan>,
}

impl View for SourceFile {
    type V = SourceFileV;

    open spec fn view(&self) -> SourceFileV {
        SourceFileV {
            id: self.id,
            name: self.name@,
            source: self.source@,
            line_starts: self.line_starts@.map_values(|v: u32| v as int),
            parent: self.parent,
        }
    }
}

impl SourceFile {
    /// Builds the file entry for `source`, deriving its line-start table.
    pub fn new(id: SourceId, name: FileName, source: Vec<u8>, parent: Option<SourceSpan>) -> (r:
        SourceFile)
        requires
            source@.len() <= u32::MAX,
        ensures
            r@ == (SourceFileV {
                id,
                name: name@,
                source: source@,
                line_starts: spec_line_starts(source@),
                parent,
            }),
            r@.wf(),
    {
        let len = source.len();
        let mut starts: Vec<u32> = Vec::new();
        starts.push(0);
        assert(starts@.map_values(|v: u32| v as int) =~= spec_line_starts(
            source@.subrange(0, 0),
        ));
        let mut i: usize = 0;
        while i < len
            invariant
                len == source@.len() <= u32::MAX,
                i <= len,
                starts@.map_values(|v: u32| v as int) =~= spec_line_starts(
                    source@.subrange(0, i as int),
                ),
            decreases len - i,
        {
            let ghost pre = source@.subrange(0, i as int);
            let ghost cur = source@.subrange(0, i + 1 as int);
            proof {
                assert(cur.drop_last() =~= pre);
                assert(cur.last() == source@[i as int]);
            }
            if source[i] == 10u8 {
                let ghost prev = starts@;
                starts.push((i as u32) + 1);
                proof {
                    assert(starts@ =~= prev.push((i + 1) as u32));
                    assert(starts@.map_values(|v: u32| v as int) =~= prev.map_values(
                        |v: u32| v as int,
                    ).push(i + 1));
                    assert(spec_line_starts(cur) =~= spec_line_starts(pre).push(i + 1));
                    assert(starts@.map_values(|v: u32| v as int) =~= spec_line_starts(cur));
                }
            } else {
                proof {
                    assert(starts@.map_values(|v: u32| v as int) =~= spec_line_starts(cur));
                }
            }
            i += 1;
        }
        proof {
            assert(source@.subrange(0, len as int) =~= source@);
        }
        SourceFile { id, name, source, line_starts: starts, parent }
    }

    pub fn id(&self) -> (r: SourceId)
        ensures
            r == self@.id,
    {
        self.id
    }

    pub fn name(&self) -> (r: &FileName)
        ensures
            r@ == self@.name,
    {
        &self.name
    }

    /// The file's content, as UTF-8 bytes.
    pub fn source(&self) -> (r: &Vec<u8>)
        ensures
            r@ == self@.source,
    {
        &self.source
    }

    /// The span this file was included from, if it was registered as a
    /// child of another file.
    pub fn parent(&self) -> (r: Option<SourceSpan>)
        ensures
            r == self@.parent,
    {
        self.parent
    }

    /// How many lines the content has (a trailing newline opens one more,
    /// empty, line).
    pub fn line_count(&self) -> (r: usize)
        ensures
            r == self@.num_lines(),
    {
        self.line_starts.len()
    }

    /// The whole-file span.
    pub fn source_span(&self) -> (r: SourceSpan)
        requires
            self@.wf(),
        ensures
            r == self@.source_span_of(),
            r.wf(),
    {
        SourceSpan { source_id: self.id, start: 0, end: self.source.len() as u32 }
    }

    /// The 0-based index of the line containing byte offset `byte_index`
    /// (offsets past the end fall on the last line).
    pub fn line_index(&self, byte_index: u32) -> (r: u32)
        requires
            self@.wf(),
        ensures
            r == self@.line_of(byte_index as int),
    {
        proof {
            lemma_line_starts_props(self@.source);
        }
        let ghost starts = self@.line_starts;
        proof {
            assert(starts.subrange(0, starts.len() as int) =~= starts);
        }
        let mut i: usize = self.line_starts.len();
        while i > 1 && self.line_starts[i - 1] > byte_index
            invariant
                self@.wf(),
                1 <= i <= starts.len(),
                starts == self.line_starts@.map_values(|v: u32| v as int),
                spec_line_of(starts, byte_index as int) == spec_line_of(
                    starts.subrange(0, i as int),
                    byte_index as int,
                ),
            decreases i,
        {
            proof {
                let cur = starts.subrange(0, i as int);
                assert(cur.drop_last() =~= starts.subrange(0, i - 1));
                assert(cur[i - 1] == self.line_starts@[i - 1] as int);
            }
            i -= 1;
        }
        proof {
            let cur = starts.subrange(0, i as int);
            if i > 1 {
                assert(cur[i - 1] == self.line_starts@[i - 1] as int);
                assert(cur[cur.len() - 1] <= byte_index as int);
            }
            assert(spec_line_of(cur, byte_index as int) == i - 1);
            lemma_line_starts_props(self@.source);
            assert(starts.len() <= self@.source.len() + 1);
            assert(i - 1 <= u32::MAX);
        }
        (i - 1) as u32
    }

    /// Where byte offset `byte_index` falls, as 0-based line and column.
    ///
    /// Fails with `IndexTooLarge` exactly when the offset lies past the end
    /// of the content.
    pub fn location(&self, byte_index: u32) -> (r: Result<Location, Error>)
        requires
            self@.wf(),
        ensures
            r == (if byte_index > self@.source.len() {
                Err::<Location, Error>(Error::IndexTooLarge)
            } else {
                Ok::<Location, Error>(self@.location_of(byte_index as int))
            }),
    {
        if (byte_index as usize) > self.source.len() {
            return Err(Error::IndexTooLarge);
        }
        proof {
            lemma_line_starts_props(self@.source);
            lemma_line_of_props(self@.line_starts, byte_index as int);
        }
        let line = self.line_index(byte_index);
        let start = self.line_starts[line as usize];
        Ok(Location { line, column: byte_index - start })
    }

    /// The span of the 0-based line `line_index`, newline excluded.
    ///
    /// Fails with `LineTooLarge` exactly when the file has no such line.
    pub fn line_span(&self, line_index: u32) -> (r: Result<SourceSpan, Error>)
        requires
            self@.wf(),
        ensures
            r == (if line_index >= self@.num_lines() {
                Err::<SourceSpan, Error>(Error::LineTooLarge)
            } else {
                Ok::<SourceSpan, Error>(self@.line_span_of(line_index as int))
            }),
            r matches Ok(s) ==> s.wf(),
    {
        proof {
            lemma_line_starts_props(self@.source);
        }
        if (line_index as usize) >= self.line_starts.len() {
            return Err(Error::LineTooLarge);
        }
        let i = line_index as usize;
        proof {
            assert(self@.line_starts[i as int] == self.line_starts@[i as int] as int);
        }
        let start = self.line_starts[i];
        let end: u32 = if i + 1 < self.line_starts.len() {
            proof {
                assert(self@.line_starts[i + 1 as int] == self.line_starts@[i + 1 as int] as int);
                assert(self@.line_starts[i as int] < self@.line_starts[i + 1 as int]);
            }
            self.line_starts[i + 1] - 1
        } else {
            self.source.len() as u32
        };
        Ok(SourceSpan { source_id: self.id, start, end })
    }

    /// The zero-width span pointing at the 0-based `line`:`column`.
    ///
    /// Fails with `LineTooLarge` when the file has no such line, and with
    /// `ColumnTooLarge` when the column lies past the end of that line
    /// (pointing just past the last content byte of the line is allowed).
    pub fn line_column_to_span(&self, line: u32, column: u32) -> (r: Result<SourceSpan, Error>)
        requires
            self@.wf(),
        ensures
            r == (if line >= self@.num_lines() {
                Err::<SourceSpan, Error>(Error::LineTooLarge)
            } else if column > self@.line_len(line as int) {
                Err::<SourceSpan, Error>(Error::ColumnTooLarge)
            } else {
                Ok::<SourceSpan, Error>(self@.line_column_span_of(line as int, column as int))
            }),
    {
        let s = self.line_span(line)?;
        proof {
            lemma_line_starts_props(self@.source);
            assert(0 <= self@.line_start(line as int) <= self@.source.len());
            if line + 1 < self@.num_lines() {
                assert(self@.line_start(line as int) < self@.line_starts[line + 1]);
            }
            assert(self@.line_start(line as int) <= self@.line_end(line as int)
                <= self@.source.len());
        }
        if column > s.end - s.start {
            return Err(Error::ColumnTooLarge);
        }
        Ok(SourceSpan { source_id: self.id, start: s.start + column, end: s.start + column })
    }

    /// A copy of the content bytes that `span` covers.
    ///
    /// Fails with `IndexTooLarge` exactly when the range is inverted or
    /// reaches past the end of the content.
    pub fn source_slice(&self, span: SourceSpan) -> (r: Result<Vec<u8>, Error>)
        requires
            self@.wf(),
        ensures
            r matches Ok(v) ==> span.start <= span.end <= self@.source.len() && v@
                == self@.source.subrange(span.start as int, span.end as int),
            r matches Err(e) ==> e == Error::IndexTooLarge && !(span.start <= span.end
                <= self@.source.len()),
    {
        if span.start > span.end || (span.end as usize) > self.source.len() {
            return Err(Error::IndexTooLarge);
        }
        let mut out: Vec<u8> = Vec::new();
        let mut i: usize = span.start as usize;
        while i < span.end as usize
            invariant
                span.start <= span.end <= self@.source.len(),
                span.start as int <= i as int <= span.end as int,
                out@ =~= self@.source.subrange(span.start as int, i as int),
            decreases span.end as int - i,
        {
            out.push(self.source[i]);
            proof {
                assert(out@ =~= self@.source.subrange(span.start as int, i + 1 as int));
            }
            i += 1;
        }
        Ok(out)
    }
}

/// Mapping a 0-based line/column pair to its byte offset and asking back
/// for the location of that offset returns the original pair.
pub proof fn lemma_line_column_round_trip(f: SourceFileV, line: int, column: int)
    requires
        f.wf(),
        0 <= line < f.num_lines(),
        0 <= column <= f.line_len(line),
    ensures
        f.location_of(f.line_start(line) + column) == (Location {
            line: line as u32,
            column: column as u32,
        }),
{
    lemma_line_starts_props(f.source);
    let pos = f.line_start(line) + column;
    if line + 1 < f.num_lines() {
        assert(pos < f.line_starts[line + 1]);
    }
    lemma_line_of_unique(f.line_starts, pos, line);
}

} // verus!
