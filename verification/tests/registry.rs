use diagnostics::{
    CodeMap, Error, FileName, Location, SourceId, SourceIndex, SourceSpan, Span, Spanned,
};

fn virt(name: &str) -> FileName {
    FileName::virtual_(name.to_string())
}

fn on_disk(path: &str) -> FileName {
    FileName::real_path(path.to_string())
}

#[test]
fn registered_content_resolves_by_id() {
    let mut map = CodeMap::new();
    let id1 = map.add(virt("a.src"), "alpha".to_string());
    let id2 = map.add(virt("b.src"), "beta\n".to_string());
    assert_ne!(id1.get(), 0);
    assert_ne!(id2.get(), 0);
    assert_ne!(id1, id2);
    let f1 = map.get(id1).unwrap();
    let f2 = map.get(id2).unwrap();
    assert_eq!(f1.source().as_slice(), b"alpha");
    assert_eq!(f2.source().as_slice(), b"beta\n");
    assert_eq!(f1.id(), id1);
    assert_eq!(f2.id(), id2);
}

#[test]
fn real_path_dedup_sequential() {
    let mut map = CodeMap::new();
    let id1 = map.add(on_disk("src/main.x"), "first".to_string());
    let id2 = map.add(on_disk("src/main.x"), "second".to_string());
    assert_eq!(id1, id2);
    let by_name = map.get_by_name(&on_disk("src/main.x")).unwrap();
    assert_eq!(by_name.source().as_slice(), b"first");
    assert_eq!(map.get_file_id(&on_disk("src/main.x")), Some(id1));
}

#[test]
fn virtual_names_not_deduplicated() {
    let mut map = CodeMap::new();
    let id1 = map.add(virt("repl"), "one".to_string());
    let id2 = map.add(virt("repl"), "two".to_string());
    assert_ne!(id1, id2);
    assert_eq!(map.get(id1).unwrap().source().as_slice(), b"one");
    assert_eq!(map.get(id2).unwrap().source().as_slice(), b"two");
    let latest = map.get_by_name(&virt("repl")).unwrap();
    assert_eq!(latest.source().as_slice(), b"two");
    assert_eq!(map.get_file_id(&virt("repl")), Some(id2));
}

#[test]
fn unknown_and_missing_lookups_fail_cleanly() {
    let mut map = CodeMap::new();
    assert_eq!(map.get(SourceId::unknown()).unwrap_err(), Error::FileMissing);
    assert_eq!(map.get(SourceId::new(7)).unwrap_err(), Error::FileMissing);
    assert_eq!(map.name(SourceId::unknown()).unwrap_err(), Error::FileMissing);
    assert_eq!(map.source_span(SourceId::unknown()).unwrap_err(), Error::FileMissing);
    assert_eq!(map.location(&SourceSpan::unknown()).unwrap_err(), Error::FileMissing);
    assert_eq!(map.source_slice(&SourceSpan::unknown()).unwrap_err(), Error::FileMissing);
    assert!(map.get_by_name(&virt("nope")).is_none());
    assert!(map.get_file_id(&virt("nope")).is_none());
    let id = map.add(virt("here"), "text".to_string());
    assert!(map.get(id).is_ok());
}

#[test]
fn add_child_records_lineage() {
    let mut map = CodeMap::new();
    let parent_id = map.add(virt("parent"), "include me\n".to_string());
    let parent_span = SourceSpan::new(
        SourceIndex::new(parent_id, 0),
        SourceIndex::new(parent_id, 7),
    );
    let child_id = map.add_child(virt("child"), "included".to_string(), parent_span);
    assert_ne!(child_id, parent_id);
    assert_eq!(map.parent(child_id), Some(parent_span));
    assert_eq!(map.parent(parent_id), None);
    assert_eq!(map.get(child_id).unwrap().source().as_slice(), b"included");
}

#[test]
fn add_child_never_deduplicates() {
    let mut map = CodeMap::new();
    let base = map.add(on_disk("dir/f.x"), "base".to_string());
    let span = map.source_span(base).unwrap();
    let c1 = map.add_child(on_disk("dir/f.x"), "copy one".to_string(), span);
    let c2 = map.add_child(on_disk("dir/f.x"), "copy two".to_string(), span);
    assert_ne!(c1, base);
    assert_ne!(c2, base);
    assert_ne!(c1, c2);
    assert_eq!(map.get(c1).unwrap().source().as_slice(), b"copy one");
}

#[test]
fn names_resolve_back() {
    let mut map = CodeMap::new();
    let id = map.add(virt("named.src"), "x".to_string());
    let name = map.name(id).unwrap();
    assert_eq!(name.as_str(), Some("named.src"));
    let span = map.source_span(id).unwrap();
    let name2 = map.name_for_spanned(&span).unwrap();
    assert_eq!(name2, name);
}

#[test]
fn span_construction_same_file() {
    let a = SourceIndex::new(SourceId::new(4), 2);
    let b = SourceIndex::new(SourceId::new(4), 9);
    let s = SourceSpan::new(a, b);
    assert_eq!(s.source_id(), SourceId::new(4));
    assert_eq!(s.start_index(), 2);
    assert_eq!(s.end_index(), 9);
    assert_eq!(s.start(), a);
    assert_eq!(s.end(), b);
    assert!(!s.is_unknown());
    assert_eq!(SourceSpan::try_new(a, b), Some(s));
}

#[test]
fn span_construction_across_files_fails() {
    let a = SourceIndex::new(SourceId::new(1), 0);
    let b = SourceIndex::new(SourceId::new(2), 5);
    assert_eq!(SourceSpan::try_new(a, b), None);
    let inverted = SourceSpan::try_new(
        SourceIndex::new(SourceId::new(1), 5),
        SourceIndex::new(SourceId::new(1), 2),
    );
    assert_eq!(inverted, None);
}

#[test]
fn span_shrink_front_truncates_start_only() {
    let s = SourceSpan::new(
        SourceIndex::new(SourceId::new(3), 4),
        SourceIndex::new(SourceId::new(3), 10),
    );
    let t = s.shrink_front(2);
    assert_eq!(t.start_index(), 6);
    assert_eq!(t.end_index(), 10);
    assert_eq!(t.source_id(), SourceId::new(3));
}

#[test]
fn merge_is_commutative_and_covers() {
    let a = SourceSpan::new(
        SourceIndex::new(SourceId::new(5), 4),
        SourceIndex::new(SourceId::new(5), 9),
    );
    let b = SourceSpan::new(
        SourceIndex::new(SourceId::new(5), 1),
        SourceIndex::new(SourceId::new(5), 6),
    );
    let ab = a.merge(b).unwrap();
    assert_eq!(ab.start_index(), 1);
    assert_eq!(ab.end_index(), 9);
    assert_eq!(a.merge(b), b.merge(a));
}

#[test]
fn merge_is_associative_for_same_file_spans() {
    let id = SourceId::new(9);
    let sp = |s: u32, e: u32| {
        SourceSpan::new(SourceIndex::new(id, s), SourceIndex::new(id, e))
    };
    let a = sp(10, 20);
    let b = sp(0, 5);
    let c = sp(15, 40);
    let left = a.merge(b).unwrap().merge(c);
    let right = a.merge(b.merge(c).unwrap());
    assert_eq!(left, right);
    assert_eq!(left.unwrap(), sp(0, 40));
}

#[test]
fn merge_with_unknown_is_absent() {
    let x = SourceSpan::new(
        SourceIndex::new(SourceId::new(2), 1),
        SourceIndex::new(SourceId::new(2), 3),
    );
    assert_eq!(SourceSpan::unknown().merge(x), None);
    assert_eq!(x.merge(SourceSpan::unknown()), None);
    let other = SourceSpan::new(
        SourceIndex::new(SourceId::new(3), 1),
        SourceIndex::new(SourceId::new(3), 3),
    );
    assert_eq!(x.merge(other), None);
}

#[test]
fn line_column_round_trip() {
    let mut map = CodeMap::new();
    let id = map.add(virt("rt.src"), "ab\ncd\nef".to_string());
    for (line, column) in [(0u32, 0u32), (0, 2), (1, 1), (2, 0), (2, 2)] {
        let span = map.line_column_to_span(id, line, column).unwrap();
        let loc = map.location(&span).unwrap();
        assert_eq!(loc, Location { line, column });
    }
}

#[test]
fn line_and_column_bounds_are_reported() {
    let mut map = CodeMap::new();
    let id = map.add(virt("bounds.src"), "ab\ncd".to_string());
    assert_eq!(map.line_column_to_span(id, 2, 0).unwrap_err(), Error::LineTooLarge);
    assert_eq!(map.line_column_to_span(id, 0, 3).unwrap_err(), Error::ColumnTooLarge);
    assert_eq!(
        map.line_column_to_span(SourceId::unknown(), 0, 0).unwrap_err(),
        Error::FileMissing
    );
}

#[test]
fn source_slice_and_span() {
    let mut map = CodeMap::new();
    let id = map.add(virt("slice.src"), "hello\nworld\n".to_string());
    let whole = map.source_span(id).unwrap();
    assert_eq!(whole.start_index(), 0);
    assert_eq!(whole.end_index(), 12);
    let sub = SourceSpan::new(SourceIndex::new(id, 6), SourceIndex::new(id, 11));
    assert_eq!(map.source_slice(&sub).unwrap(), b"world".to_vec());
    let all = map.source_slice(&whole).unwrap();
    assert_eq!(all, b"hello\nworld\n".to_vec());
    let past = SourceSpan::new(SourceIndex::new(id, 6), SourceIndex::new(id, 40));
    assert_eq!(map.source_slice(&past).unwrap_err(), Error::IndexTooLarge);
}

#[test]
fn source_file_line_table() {
    let mut map = CodeMap::new();
    let id = map.add(virt("lines.src"), "one\ntwo\n".to_string());
    let f = map.get(id).unwrap();
    assert_eq!(f.line_count(), 3);
    let l0 = f.line_span(0).unwrap();
    assert_eq!((l0.start_index(), l0.end_index()), (0, 3));
    let l1 = f.line_span(1).unwrap();
    assert_eq!((l1.start_index(), l1.end_index()), (4, 7));
    let l2 = f.line_span(2).unwrap();
    assert_eq!((l2.start_index(), l2.end_index()), (8, 8));
    assert_eq!(f.line_span(3).unwrap_err(), Error::LineTooLarge);
    assert_eq!(f.line_index(5), 1);
    assert_eq!(f.location(30).unwrap_err(), Error::IndexTooLarge);
}

#[test]
fn filename_kinds() {
    let v = virt("memory.src");
    assert_eq!(v.as_str(), Some("memory.src"));
    assert!(!v.is_dir());
    assert!(!v.is_file());
    let r = on_disk("/");
    assert_eq!(r.as_str(), Some("/"));
    assert!(r.is_dir());
    assert!(!r.is_file());
    let missing = on_disk("no/such/path.here");
    assert!(!missing.is_dir());
    assert!(!missing.is_file());
}

#[test]
fn spanned_wrapper_carries_span() {
    let mut map = CodeMap::new();
    let id = map.add(virt("w.src"), "abc".to_string());
    let span = SourceSpan::new(SourceIndex::new(id, 1), SourceIndex::new(id, 2));
    let wrapped = Span::new(span, 42u32);
    assert_eq!(wrapped.item, 42);
    assert_eq!(wrapped.span(), span);
    assert_eq!(map.source_slice(&wrapped).unwrap(), b"b".to_vec());
    let loc = map.location(&wrapped).unwrap();
    assert_eq!(loc, Location { line: 0, column: 1 });
}

#[test]
fn default_registry_is_empty() {
    let map = CodeMap::default();
    assert_eq!(map.get(SourceId::new(1)).unwrap_err(), Error::FileMissing);
}

#[test]
fn path_index_answers_only_real_registrations() {
    let mut map = CodeMap::new();
    assert_eq!(map.path_file_id(&"lib/a.x".to_string()), None);
    let id = map.add(on_disk("lib/a.x"), "content".to_string());
    assert_eq!(map.path_file_id(&"lib/a.x".to_string()), Some(id));
    let span = map.source_span(id).unwrap();
    let child = map.add_child(on_disk("lib/b.x"), "included".to_string(), span);
    assert_eq!(map.path_file_id(&"lib/b.x".to_string()), None);
    assert_eq!(map.get_file_id(&on_disk("lib/b.x")), Some(child));
}

#[test]
fn try_add_registers_and_deduplicates() {
    let mut map = CodeMap::new();
    let id = map.try_add(on_disk("lib/c.x"), "first".to_string()).unwrap();
    let again = map.try_add(on_disk("lib/c.x"), "second".to_string()).unwrap();
    assert_eq!(id, again);
    assert_eq!(map.get(id).unwrap().source().as_slice(), b"first");
    let v = map.try_add(virt("t"), "text".to_string()).unwrap();
    assert_eq!(map.get(v).unwrap().source().as_slice(), b"text");
}

#[test]
fn span_wrapper_equality_ignores_span() {
    let s1 = SourceSpan::new(
        SourceIndex::new(SourceId::new(1), 0),
        SourceIndex::new(SourceId::new(1), 4),
    );
    let s2 = SourceSpan::new(
        SourceIndex::new(SourceId::new(2), 7),
        SourceIndex::new(SourceId::new(2), 9),
    );
    assert_eq!(Span::new(s1, 5u32), Span::new(s2, 5u32));
    assert_ne!(Span::new(s1, 5u32), Span::new(s1, 6u32));
}
