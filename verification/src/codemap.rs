use vstd::prelude::*;

use std::sync::Arc;

use crate::error::Error;
use crate::filename::{FileName, FileNameV};
use crate::source_file::{spec_line_starts, Location, SourceFile, SourceFileV};
use crate::span::{SourceId, SourceSpan, Spanned};

verus! {

// ---------------------------------------------------------------------------
// Trusted layer: the concurrent hash maps of the `flurry` crate, and the two
// `std::sync::Arc` operations the registry needs.  Each map's contents are
// named by an uninterpreted function, and one wrapper per method states what
// the crate's source shows about that method.
// ---------------------------------------------------------------------------
#[verifier::external_type_specification]
#[verifier::external_body]
#[verifier::reject_recursive_types(K)]
#[verifier::reject_recursive_types(V)]
#[verifier::reject_recursive_types(S)]
pub struct ExFlurryHashMap<K, V, S>(flurry::HashMap<K, V, S>);

#[verifier::external_type_specification]
#[verifier::external_body]
pub struct ExFlurryDefaultHashBuilder(flurry::DefaultHashBuilder);

/// Relies on `<Arc<T> as Deref>::deref`: a shared handle dereferences to
/// the value it owns.
#[verifier::external_body]
pub fn arc_get<'a, T>(v: &'a Arc<T>) -> (r: &'a T)
    ensures
        *r == **v,
{
    &**v
}

/// Relies on `<Arc<T> as Clone>::clone`: cloning a shared handle yields a
/// handle to the same value.
#[verifier::external_body]
pub fn arc_clone<T>(v: &Arc<T>) -> (r: Arc<T>)
    ensures
        r == *v,
{
    Arc::clone(v)
}

/// What the id-to-file table holds.
pub uninterp spec fn file_table_map(m: flurry::HashMap<u32, Arc<SourceFile>>) -> Map<
    u32,
    SourceFileV,
>;

/// What the name-to-id table holds.
pub uninterp spec fn name_table_map(m: flurry::HashMap<FileName, u32>) -> Map<FileNameV, u32>;

/// What the path-to-id (dedup) table holds.
pub uninterp spec fn path_table_map(m: flurry::HashMap<String, u32>) -> Map<Seq<char>, u32>;

/// Relies on `flurry::HashMap::insert`: afterwards the key maps to the new
/// value and every other key is unchanged.
#[verifier::external_body]
fn file_table_insert(m: &mut flurry::HashMap<u32, Arc<SourceFile>>, id: u32, file: Arc<SourceFile>)
    ensures
        file_table_map(*final(m)) == file_table_map(*old(m)).insert(id, file@),
{
    let guard = m.guard();
    m.insert(id, file, &guard);
}

/// Relies on `flurry::HashMap::get`: returns the value the key maps to, if
/// any.
#[verifier::external_body]
fn file_table_get(m: &flurry::HashMap<u32, Arc<SourceFile>>, id: u32) -> (r: Option<
    Arc<SourceFile>,
>)
    ensures
        match r {
            Some(f) => file_table_map(*m).contains_key(id) && f@ == file_table_map(*m)[id],
            None => !file_table_map(*m).contains_key(id),
        },
{
    let guard = m.guard();
    m.get(&id, &guard).cloned()
}

/// Relies on `flurry::HashMap::insert`: afterwards the key maps to the new
/// value and every other key is unchanged.
#[verifier::external_body]
fn name_table_insert(m: &mut flurry::HashMap<FileName, u32>, name: FileName, id: u32)
    ensures
        name_table_map(*final(m)) == name_table_map(*old(m)).insert(name@, id),
{
    let guard = m.guard();
    m.insert(name, id, &guard);
}

/// Relies on `flurry::HashMap::get`: returns the value the key maps to, if
/// any.
#[verifier::external_body]
fn name_table_get(m: &flurry::HashMap<FileName, u32>, name: &FileName) -> (r: Option<u32>)
    ensures
        match r {
            Some(id) => name_table_map(*m).contains_key(name@) && id == name_table_map(*m)[name@],
            None => !name_table_map(*m).contains_key(name@),
        },
{
    let guard = m.guard();
    m.get(name, &guard).copied()
}

/// Relies on `flurry::HashMap::get`: returns the value the key maps to, if
/// any.
#[verifier::external_body]
fn path_table_get(m: &flurry::HashMap<String, u32>, path: &String) -> (r: Option<u32>)
    ensures
        match r {
            Some(id) => path_table_map(*m).contains_key(path@) && id == path_table_map(*m)[path@],
            None => !path_table_map(*m).contains_key(path@),
        },
{
    let guard = m.guard();
    m.get(path, &guard).copied()
}

/// Relies on `flurry::HashMap::try_insert`: inserts only when the key is
/// absent, and otherwise leaves the map unchanged and reports the value
/// already present.
#[verifier::external_body]
fn path_table_try_insert(m: &mut flurry::HashMap<String, u32>, path: String, id: u32) -> (r: u32)
    ensures
        ({
            let pre = path_table_map(*old(m));
            if pre.contains_key(path@) {
                r == pre[path@] && path_table_map(*final(m)) == pre
            } else {
                r == id && path_table_map(*final(m)) == pre.insert(path@, id)
            }
        }),
{
    let guard = m.guard();
    match m.try_insert(path, id, &guard) {
        Ok(v) => *v,
        Err(e) => *e.current,
    }
}

// ---------------------------------------------------------------------------
// The registry model and its transitions.
// ---------------------------------------------------------------------------
/// Specification-level state of a [`CodeMap`]: its three indexes and the
/// next id to mint.
#[verifier::ext_equal]
pub struct CodeMapV {
    pub files: Map<u32, SourceFileV>,
    pub names: Map<FileNameV, u32>,
    pub seen: Map<Seq<char>, u32>,
    pub next_id: u32,
}

impl CodeMapV {
    /// Registry invariant: ids are minted densely from 1 up, every indexed
    /// file is well formed and agrees with its key, and the auxiliary
    /// indexes only point at registered files (the path index only at files
    /// registered under that real path).
    pub open spec fn wf(self) -> bool {
        &&& 1 <= self.next_id
        &&& (forall|id: u32| #[trigger] self.files.contains_key(id) ==> 1 <= id < self.next_id)
        &&& (forall|id: u32| #[trigger]
            self.files.contains_key(id) ==> self.files[id].wf() && self.files[id].id == SourceId(
                id,
            ))
        &&& (forall|k: FileNameV| #[trigger]
            self.names.contains_key(k) ==> self.files.contains_key(self.names[k]))
        &&& (forall|p: Seq<char>| #[trigger]
            self.seen.contains_key(p) ==> self.files.contains_key(self.seen[p])
                && self.files[self.seen[p]].name == FileNameV::Real(p))
    }

    /// The unconditional insertion step shared by every registration path:
    /// mint the next id, enter the file under it, and point the name index
    /// at it.
    pub open spec fn spec_insert_file(
        self,
        name: FileNameV,
        source: Seq<u8>,
        parent: Option<SourceSpan>,
    ) -> (CodeMapV, u32) {
        let id = self.next_id;
        let file = SourceFileV {
            id: SourceId(id),
            name,
            source,
            line_starts: spec_line_starts(source),
            parent,
        };
        (
            CodeMapV {
                files: self.files.insert(id, file),
                names: self.names.insert(name, id),
                seen: self.seen,
                next_id: (self.next_id + 1) as u32,
            },
            id,
        )
    }

    /// What [`CodeMap::add`] does: real paths are deduplicated through the
    /// path index, virtual names always insert fresh.
    pub open spec fn spec_add(self, name: FileNameV, source: Seq<u8>) -> (CodeMapV, u32) {
        match name {
            FileNameV::Real(path) => {
                if self.seen.contains_key(path) {
                    (self, self.seen[path])
                } else {
                    let (m1, id) = self.spec_insert_file(name, source, None);
                    (
                        CodeMapV {
                            files: m1.files,
                            names: m1.names,
                            seen: m1.seen.insert(path, id),
                            next_id: m1.next_id,
                        },
                        id,
                    )
                }
            },
            FileNameV::Virtual(_) => self.spec_insert_file(name, source, None),
        }
    }

    /// What resolving an id yields: the file registered under it, unless the
    /// id is the `UNKNOWN` sentinel or nothing is registered under it.
    pub open spec fn spec_get(self, file_id: SourceId) -> Option<SourceFileV> {
        if file_id.0 != 0 && self.files.contains_key(file_id.0) {
            Some(self.files[file_id.0])
        } else {
            None
        }
    }

    /// What the line/column-to-span query yields.
    pub open spec fn spec_line_column_to_span(
        self,
        file_id: SourceId,
        line: int,
        column: int,
    ) -> Result<SourceSpan, Error> {
        match self.spec_get(file_id) {
            None => Err(Error::FileMissing),
            Some(f) => if line >= f.num_lines() {
                Err(Error::LineTooLarge)
            } else if column > f.line_len(line) {
                Err(Error::ColumnTooLarge)
            } else {
                Ok(f.line_column_span_of(line, column))
            },
        }
    }

    /// What the location query yields for the start of a span.
    pub open spec fn spec_location(self, span: SourceSpan) -> Result<Location, Error> {
        match self.spec_get(span.source_id) {
            None => Err(Error::FileMissing),
            Some(f) => if span.start > f.source.len() {
                Err(Error::IndexTooLarge)
            } else {
                Ok(f.location_of(span.start as int))
            },
        }
    }

    /// What the whole-file-span query yields.
    pub open spec fn spec_source_span(self, file_id: SourceId) -> Result<SourceSpan, Error> {
        match self.spec_get(file_id) {
            None => Err(Error::FileMissing),
            Some(f) => Ok(f.source_span_of()),
        }
    }

    /// What the content-slice query yields.
    pub open spec fn spec_source_slice(self, span: SourceSpan) -> Result<Seq<u8>, Error> {
        match self.spec_get(span.source_id) {
            None => Err(Error::FileMissing),
            Some(f) => if span.start <= span.end <= f.source.len() {
                Ok(f.source.subrange(span.start as int, span.end as int))
            } else {
                Err(Error::IndexTooLarge)
            },
        }
    }
}

// ---------------------------------------------------------------------------
// The registry itself.
// ---------------------------------------------------------------------------
/// Thread-safe, append-only registry of source files.
///
/// The registry owns every registered file's content, assigns each
/// registration a fresh [`SourceId`], deduplicates real on-disk paths, and
/// answers all span, line/column and content queries against the files it
/// holds.  Entries are never updated or removed, so diagnostics may refer to
/// them for the whole life of the registry.
#[derive(Debug)]
pub struct CodeMap {
    files: flurry::HashMap<u32, Arc<SourceFile>>,
    names: flurry::HashMap<FileName, u32>,
    seen: flurry::HashMap<String, u32>,
    next_file_id: u32,
}

impl View for CodeMap {
    type V = CodeMapV;

    closed spec fn view(&self) -> CodeMapV {
        CodeMapV {
            files: file_table_map(self.files),
            names: name_table_map(self.names),
            seen: path_table_map(self.seen),
            next_id: self.next_file_id,
        }
    }
}

/// Clones a file name; the copy has the same value.
fn clone_filename(name: &FileName) -> (r: FileName)
    ensures
        r@ == name@,
{
    match name {
        FileName::Real(s) => FileName::Real(s.clone()),
        FileName::Virtual(s) => FileName::Virtual(s.clone()),
    }
}

impl CodeMap {
    /// Creates an empty registry; the first minted id is 1.
    ///
    /// Relies on `flurry::HashMap::new`: each of the three index maps
    /// starts empty.
    #[verifier::external_body]
    pub fn new() -> (r: CodeMap)
        ensures
            r@ == (CodeMapV {
                files: Map::<u32, SourceFileV>::empty(),
                names: Map::<FileNameV, u32>::empty(),
                seen: Map::<Seq<char>, u32>::empty(),
                next_id: 1u32,
            }),
    {
        CodeMap {
            files: flurry::HashMap::new(),
            names: flurry::HashMap::new(),
            seen: flurry::HashMap::new(),
            next_file_id: 1,
        }
    }

    /// The state a fresh registry starts in satisfies the registry
    /// invariant.
    pub proof fn lemma_new_wf()
        ensures
            (CodeMapV {
                files: Map::<u32, SourceFileV>::empty(),
                names: Map::<FileNameV, u32>::empty(),
                seen: Map::<Seq<char>, u32>::empty(),
                next_id: 1u32,
            }).wf(),
    {
    }

    /// Registers `source` under `name` and returns the freshly minted id.
    fn insert_file(&mut self, name: FileName, source: Vec<u8>, parent: Option<SourceSpan>) -> (r:
        SourceId)
        requires
            old(self)@.wf(),
            old(self)@.next_id < u32::MAX,
            source@.len() <= u32::MAX,
        ensures
            final(self)@ == old(self)@.spec_insert_file(name@, source@, parent).0,
            r == SourceId(old(self)@.spec_insert_file(name@, source@, parent).1),
            final(self)@.wf(),
            !old(self)@.files.contains_key(r.0),
    {
        let ghost pre = self@;
        let id = self.next_file_id;
        self.next_file_id = self.next_file_id + 1;
        let key = clone_filename(&name);
        let file = SourceFile::new(SourceId::new(id), name, source, parent);
        name_table_insert(&mut self.names, key, id);
        file_table_insert(&mut self.files, id, Arc::new(file));
        proof {
            let (m2, sid) = pre.spec_insert_file(key@, source@, parent);
            assert(self@ =~= m2);
            assert forall|k: u32| #[trigger] self@.files.contains_key(k) implies 1 <= k
                < self@.next_id by {
                if k != id {
                    assert(pre.files.contains_key(k));
                }
            }
            assert forall|k: u32| #[trigger] self@.files.contains_key(k) implies self@.files[k].wf()
                && self@.files[k].id == SourceId(k) by {
                if k != id {
                    assert(pre.files.contains_key(k));
                }
            }
            assert forall|k: FileNameV| #[trigger] self@.names.contains_key(
                k,
            ) implies self@.files.contains_key(self@.names[k]) by {
                if k != key@ {
                    assert(pre.names.contains_key(k));
                }
            }
            assert forall|p: Seq<char>| #[trigger] self@.seen.contains_key(
                p,
            ) implies self@.files.contains_key(self@.seen[p]) && self@.files[self@.seen[p]].name
                == FileNameV::Real(p) by {
                assert(pre.seen.contains_key(p));
                assert(pre.files.contains_key(pre.seen[p]));
            }
        }
        SourceId::new(id)
    }

    /// Registers in-memory content under a name and returns the id assigned
    /// to it.
    ///
    /// A real path already present in the path index is not registered
    /// again: the id it already maps to is returned and the registry is
    /// unchanged.  Virtual names are never deduplicated.
    pub fn add(&mut self, name: FileName, source: String) -> (r: SourceId)
        requires
            old(self)@.wf(),
            old(self)@.next_id < u32::MAX,
            vstd::utf8::encode_utf8(source@).len() <= u32::MAX,
        ensures
            final(self)@ == old(self)@.spec_add(name@, vstd::utf8::encode_utf8(source@)).0,
            r == SourceId(old(self)@.spec_add(name@, vstd::utf8::encode_utf8(source@)).1),
            final(self)@.wf(),
    {
        let ghost pre = self@;
        let bytes = source.as_str().as_bytes_vec();
        let path_owned: Option<String> = match &name {
            FileName::Real(p) => Some(p.clone()),
            FileName::Virtual(_) => None,
        };
        match path_owned {
            Some(path) => {
                match path_table_get(&self.seen, &path) {
                    Some(id) => {
                        proof {
                            assert(pre.files.contains_key(pre.seen[path@]));
                        }
                        SourceId::new(id)
                    },
                    None => {
                        let id = self.insert_file(name, bytes, None);
                        let claimed = path_table_try_insert(&mut self.seen, path, id.get());
                        proof {
                            let (m1, sid) = pre.spec_insert_file(
                                FileNameV::Real(path@),
                                bytes@,
                                None,
                            );
                            assert(self@ =~= pre.spec_add(
                                FileNameV::Real(path@),
                                vstd::utf8::encode_utf8(source@),
                            ).0);
                            assert forall|p: Seq<char>| #[trigger] self@.seen.contains_key(
                                p,
                            ) implies self@.files.contains_key(self@.seen[p])
                                && self@.files[self@.seen[p]].name == FileNameV::Real(p) by {
                                if p != path@ {
                                    assert(m1.seen.contains_key(p));
                                }
                            }
                        }
                        SourceId::new(claimed)
                    },
                }
            },
            None => self.insert_file(name, bytes, None),
        }
    }

    /// Registers content as a child of `parent`, recording the lineage.
    ///
    /// Always inserts a new entry, whatever the name: the point is to record
    /// where the content was included from, so nothing is deduplicated.
    pub fn add_child(&mut self, name: FileName, source: String, parent: SourceSpan) -> (r: SourceId)
        requires
            old(self)@.wf(),
            old(self)@.next_id < u32::MAX,
            vstd::utf8::encode_utf8(source@).len() <= u32::MAX,
        ensures
            final(self)@ == old(self)@.spec_insert_file(
                name@,
                vstd::utf8::encode_utf8(source@),
                Some(parent),
            ).0,
            r == SourceId(old(self)@.spec_insert_file(
                name@,
                vstd::utf8::encode_utf8(source@),
                Some(parent),
            ).1),
            final(self)@.wf(),
    {
        let bytes = source.as_str().as_bytes_vec();
        self.insert_file(name, bytes, Some(parent))
    }

    /// Resolves an id to its registered file.
    ///
    /// Fails with `FileMissing` exactly when the id is the `UNKNOWN`
    /// sentinel or nothing is registered under it.
    pub fn get(&self, file_id: SourceId) -> (r: Result<Arc<SourceFile>, Error>)
        requires
            self@.wf(),
        ensures
            r matches Ok(f) ==> !file_id.spec_is_unknown() && self@.files.contains_key(file_id.0)
                && f@ == self@.files[file_id.0] && f@.wf(),
            r matches Err(e) ==> e == Error::FileMissing && (file_id.spec_is_unknown()
                || !self@.files.contains_key(file_id.0)),
    {
        if file_id.is_unknown() {
            Err(Error::FileMissing)
        } else {
            match file_table_get(&self.files, file_id.get()) {
                Some(f) => Ok(f),
                None => Err(Error::FileMissing),
            }
        }
    }

    /// The id that the path-dedup index holds for `path`, if any: the
    /// canonical entry for that on-disk path.
    ///
    /// Unlike [`CodeMap::get_file_id`] this consults the path index that
    /// [`CodeMap::add`] deduplicates through, not the name index, so
    /// entries that merely carry a real-path display name (children, say)
    /// do not answer.
    pub fn path_file_id(&self, path: &String) -> (r: Option<SourceId>)
        requires
            self@.wf(),
        ensures
            r == (if self@.seen.contains_key(path@) {
                Some(SourceId(self@.seen[path@]))
            } else {
                None::<SourceId>
            }),
    {
        match path_table_get(&self.seen, path) {
            Some(id) => Some(SourceId::new(id)),
            None => None,
        }
    }

    /// Registers like [`CodeMap::add`], first checking the machine limits
    /// that `add` requires of its callers: when the id counter is
    /// exhausted or the content is too large for 32-bit offsets, the
    /// registry is left unchanged and `None` comes back.
    pub fn try_add(&mut self, name: FileName, source: String) -> (r: Option<SourceId>)
        requires
            old(self)@.wf(),
        ensures
            final(self)@.wf(),
            r matches Some(id) ==> old(self)@.next_id < u32::MAX && vstd::utf8::encode_utf8(
                source@,
            ).len() <= u32::MAX && final(self)@ == old(self)@.spec_add(
                name@,
                vstd::utf8::encode_utf8(source@),
            ).0 && id == SourceId(old(self)@.spec_add(name@, vstd::utf8::encode_utf8(source@)).1),
            r is None ==> *final(self) == *old(self) && (old(self)@.next_id == u32::MAX
                || vstd::utf8::encode_utf8(source@).len() > u32::MAX),
    {
        if self.next_file_id == u32::MAX {
            return None;
        }
        let bytes = source.as_str().as_bytes_vec();
        if bytes.len() > u32::MAX as usize {
            return None;
        }
        Some(self.add(name, source))
    }

    /// Resolves the file a span lies in.
    ///
    /// Fails with `FileMissing` exactly when the span's file id is the
    /// `UNKNOWN` sentinel or is not registered.
    pub fn get_with_span(&self, span: SourceSpan) -> (r: Result<Arc<SourceFile>, Error>)
        requires
            self@.wf(),
        ensures
            r matches Ok(f) ==> self@.spec_get(span.source_id) == Some(f@) && f@.wf(),
            r matches Err(e) ==> e == Error::FileMissing && self@.spec_get(span.source_id) is None,
    {
        self.get(span.source_id())
    }

    /// The span `file_id` was included from, or `None` if the file has no
    /// parent (or is not registered).
    pub fn parent(&self, file_id: SourceId) -> (r: Option<SourceSpan>)
        requires
            self@.wf(),
        ensures
            r == (match self@.spec_get(file_id) {
                Some(f) => f.parent,
                None => None::<SourceSpan>,
            }),
    {
        match self.get(file_id) {
            Ok(f) => arc_get(&f).parent(),
            Err(_) => None,
        }
    }

    /// The id most recently registered under `filename`, if any.
    pub fn get_file_id(&self, filename: &FileName) -> (r: Option<SourceId>)
        requires
            self@.wf(),
        ensures
            r == (if self@.names.contains_key(filename@) {
                Some(SourceId(self@.names[filename@]))
            } else {
                None::<SourceId>
            }),
    {
        match name_table_get(&self.names, filename) {
            Some(id) => Some(SourceId::new(id)),
            None => None,
        }
    }

    /// The file most recently registered under `filename`, if any.
    pub fn get_by_name(&self, filename: &FileName) -> (r: Option<Arc<SourceFile>>)
        requires
            self@.wf(),
        ensures
            r matches Some(f) ==> self@.names.contains_key(filename@) && f@
                == self@.files[self@.names[filename@]] && f@.wf(),
            r is None ==> !self@.names.contains_key(filename@),
    {
        match self.get_file_id(filename) {
            Some(id) => match self.get(id) {
                Ok(f) => Some(f),
                Err(_) => None,
            },
            None => None,
        }
    }

    /// The name `file_id` was registered under.
    ///
    /// Fails with `FileMissing` exactly when the id does not resolve.
    pub fn name(&self, file_id: SourceId) -> (r: Result<FileName, Error>)
        requires
            self@.wf(),
        ensures
            r matches Ok(n) ==> self@.spec_get(file_id) matches Some(f) && n@ == f.name,
            r matches Err(e) ==> e == Error::FileMissing && self@.spec_get(file_id) is None,
    {
        let f = self.get(file_id)?;
        Ok(clone_filename(arc_get(&f).name()))
    }

    /// The name of the file that `spanned`'s span lies in.
    ///
    /// Fails with `FileMissing` exactly when the span's file id does not
    /// resolve (in particular for the unknown span).
    pub fn name_for_spanned<S: Spanned>(&self, spanned: &S) -> (r: Result<FileName, Error>)
        requires
            self@.wf(),
        ensures
            r matches Ok(n) ==> self@.spec_get(spanned.spec_span().source_id) matches Some(f)
                && n@ == f.name,
            r matches Err(e) ==> e == Error::FileMissing && self@.spec_get(
                spanned.spec_span().source_id,
            ) is None,
    {
        self.name(spanned.span().source_id())
    }

    /// The zero-width span pointing at the 0-based `line`:`column` of
    /// `file_id`.
    ///
    /// The span points only at that position; callers extend it if a range
    /// is wanted.
    pub fn line_column_to_span(&self, file_id: SourceId, line: u32, column: u32) -> (r: Result<
        SourceSpan,
        Error,
    >)
        requires
            self@.wf(),
        ensures
            r == self@.spec_line_column_to_span(file_id, line as int, column as int),
    {
        let f = self.get(file_id);
        match f {
            Ok(f) => arc_get(&f).line_column_to_span(line, column),
            Err(e) => Err(e),
        }
    }

    /// The 0-based line/column location of the start of `spanned`'s span.
    ///
    /// Fails with `FileMissing` when the span's file id does not resolve and
    /// with `IndexTooLarge` when its start lies past the end of the file.
    pub fn location<S: Spanned>(&self, spanned: &S) -> (r: Result<Location, Error>)
        requires
            self@.wf(),
        ensures
            r == self@.spec_location(spanned.spec_span()),
    {
        let span = spanned.span();
        let f = self.get(span.source_id());
        match f {
            Ok(f) => arc_get(&f).location(span.start_index()),
            Err(e) => Err(e),
        }
    }

    /// The span covering the whole content of `file_id`.
    pub fn source_span(&self, file_id: SourceId) -> (r: Result<SourceSpan, Error>)
        requires
            self@.wf(),
        ensures
            r == self@.spec_source_span(file_id),
    {
        let f = self.get(file_id);
        match f {
            Ok(f) => Ok(arc_get(&f).source_span()),
            Err(e) => Err(e),
        }
    }

    /// A copy of the content bytes that `spanned`'s span covers.
    ///
    /// Fails with `FileMissing` when the span's file id does not resolve and
    /// with `IndexTooLarge` when the range is inverted or reaches past the
    /// end of the content.
    pub fn source_slice<S: Spanned>(&self, spanned: &S) -> (r: Result<Vec<u8>, Error>)
        requires
            self@.wf(),
        ensures
            r matches Ok(v) ==> self@.spec_source_slice(spanned.spec_span()) == Ok::<Seq<u8>, Error>(
                v@,
            ),
            r matches Err(e) ==> self@.spec_source_slice(spanned.spec_span()) == Err::<
                Seq<u8>,
                Error,
            >(e),
    {
        let span = spanned.span();
        let f = self.get(span.source_id());
        match f {
            Ok(f) => arc_get(&f).source_slice(span),
            Err(e) => Err(e),
        }
    }
}

impl Default for CodeMap {
    /// An empty registry, as [`CodeMap::new`] builds it.
    fn default() -> (r: CodeMap)
        ensures
            r@ == (CodeMapV {
                files: Map::<u32, SourceFileV>::empty(),
                names: Map::<FileNameV, u32>::empty(),
                seen: Map::<Seq<char>, u32>::empty(),
                next_id: 1u32,
            }),
    {
        CodeMap::new()
    }
}

// ---------------------------------------------------------------------------
// Laws of registration.
// ---------------------------------------------------------------------------
/// A registration that actually inserts (a virtual name, or a real path not
/// yet in the path index) mints a fresh, non-sentinel id, and that id
/// resolves to a file holding exactly the registered content under the
/// registered name.
pub proof fn lemma_register_then_get(m: CodeMapV, name: FileNameV, source: Seq<u8>)
    requires
        m.wf(),
        !(name matches FileNameV::Real(p) && m.seen.contains_key(p)),
    ensures
        ({
            let (m2, id) = m.spec_add(name, source);
            &&& id != 0
            &&& !m.files.contains_key(id)
            &&& m2.spec_get(SourceId(id)) matches Some(f) && f.source == source && f.name == name
        }),
{
}

/// Registering the same on-disk path twice in sequence returns the same id
/// both times, and the second registration changes nothing at all.
pub proof fn lemma_real_path_dedup(m: CodeMapV, path: Seq<char>, s1: Seq<u8>, s2: Seq<u8>)
    ensures
        ({
            let (m1, id1) = m.spec_add(FileNameV::Real(path), s1);
            let (m2, id2) = m1.spec_add(FileNameV::Real(path), s2);
            id2 == id1 && m2 == m1
        }),
{
}

/// Registering two virtual sources under one name yields two distinct ids;
/// both contents stay resolvable by id, and a name lookup afterwards finds
/// the most recently inserted one.
pub proof fn lemma_virtual_non_dedup(m: CodeMapV, vname: Seq<char>, s1: Seq<u8>, s2: Seq<u8>)
    requires
        m.wf(),
        m.next_id < u32::MAX,
    ensures
        ({
            let n = FileNameV::Virtual(vname);
            let (m1, id1) = m.spec_add(n, s1);
            let (m2, id2) = m1.spec_add(n, s2);
            &&& id1 != id2
            &&& m2.spec_get(SourceId(id1)) matches Some(f1) && f1.source == s1
            &&& m2.spec_get(SourceId(id2)) matches Some(f2) && f2.source == s2
            &&& m2.names.contains_key(n) && m2.names[n] == id2
            &&& m2.spec_get(SourceId(m2.names[n])) matches Some(f) && f.source == s2
        }),
{
}

} // verus!
