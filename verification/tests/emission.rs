use diagnostics::{
    CaptureEmitter, CodeMap, ColorChoice, Diagnostic, DiagnosticsConfig, DiagnosticsHandler,
    DisplayConfig, DisplayStyle, Emitter, Error, FatalError, FileName, LabelStyle, NullEmitter,
    Severity, SourceIndex, SourceSpan, Verbosity,
};
use std::sync::Arc;

fn config(verbosity: Verbosity, warnings_as_errors: bool, no_warn: bool) -> DiagnosticsConfig {
    DiagnosticsConfig {
        verbosity,
        warnings_as_errors,
        no_warn,
        display: DisplayConfig { style: DisplayStyle::Rich, color: ColorChoice::Never },
    }
}

fn capture_handler(
    map: CodeMap,
    verbosity: Verbosity,
    warnings_as_errors: bool,
    no_warn: bool,
) -> DiagnosticsHandler<CaptureEmitter> {
    DiagnosticsHandler::new(
        config(verbosity, warnings_as_errors, no_warn),
        Arc::new(map),
        CaptureEmitter::new(),
    )
}

#[test]
fn warnings_promoted_to_errors_are_counted() {
    let mut handler = capture_handler(CodeMap::new(), Verbosity::Info, true, false);
    assert!(!handler.has_errors());
    let d = Diagnostic::warning().with_message("dubious".to_string());
    handler.emit(d).unwrap();
    assert!(handler.has_errors());
    assert_eq!(handler.err_count, 1);
    let out = handler.emitter.captured();
    assert!(out.contains("error"));
    assert!(out.contains("dubious"));
    assert!(!out.contains("warning"));
}

#[test]
fn suppressed_warnings_produce_nothing() {
    let mut handler = capture_handler(CodeMap::new(), Verbosity::Info, false, true);
    let d = Diagnostic::warning().with_message("quiet".to_string());
    handler.emit(d).unwrap();
    assert!(!handler.has_errors());
    assert_eq!(handler.err_count, 0);
    assert_eq!(handler.emitter.captured(), "");
}

#[test]
fn strict_verbosity_suppresses_notes() {
    let mut handler = capture_handler(CodeMap::new(), Verbosity::Warning, false, false);
    let d = Diagnostic::note().with_message("aside".to_string());
    handler.emit(d).unwrap();
    assert!(!handler.has_errors());
    assert_eq!(handler.emitter.captured(), "");
}

#[test]
fn notes_pass_at_info_verbosity() {
    let mut handler = capture_handler(CodeMap::new(), Verbosity::Info, false, false);
    handler.note("remember".to_string()).unwrap();
    assert_eq!(handler.err_count, 0);
    let out = handler.emitter.captured();
    assert!(out.contains("note"));
    assert!(out.contains("remember"));
}

#[test]
fn silent_mode_discards_everything() {
    let mut handler = capture_handler(CodeMap::new(), Verbosity::Silent, false, false);
    handler.error("lost".to_string()).unwrap();
    handler.warn("lost too".to_string()).unwrap();
    assert!(!handler.has_errors());
    assert_eq!(handler.emitter.captured(), "");
}

#[test]
fn warn_suppression_beats_promotion() {
    let mut handler = capture_handler(CodeMap::new(), Verbosity::Info, true, true);
    handler.warn("never seen".to_string()).unwrap();
    assert!(!handler.has_errors());
    assert_eq!(handler.err_count, 0);
    assert_eq!(handler.emitter.captured(), "");
}

#[test]
fn plain_warning_stays_warning() {
    let mut handler = capture_handler(CodeMap::new(), Verbosity::Info, false, false);
    handler.warn("careful".to_string()).unwrap();
    assert!(!handler.has_errors());
    let out = handler.emitter.captured();
    assert!(out.contains("warning"));
    assert!(out.contains("careful"));
}

#[test]
fn end_to_end_error_with_label() {
    let mut map = CodeMap::new();
    let id = map.add(
        FileName::virtual_("a.src".to_string()),
        "let x = 1\nlet y = x +\n".to_string(),
    );
    let span = SourceSpan::new(SourceIndex::new(id, 18), SourceIndex::new(id, 21));
    let mut handler = capture_handler(map, Verbosity::Info, false, false);
    let d = handler
        .diagnostic(Severity::Error)
        .with_message("unexpected end of expression".to_string())
        .with_primary_span(span)
        .take();
    handler.emit(d).unwrap();
    assert_eq!(handler.err_count, 1);
    let out = handler.emitter.captured();
    assert!(out.contains("unexpected end of expression"));
    assert!(out.contains("a.src"));
    assert!(out.contains("a.src:2:9"));
}

#[test]
fn abort_gate() {
    let mut handler = capture_handler(CodeMap::new(), Verbosity::Info, false, false);
    assert_eq!(handler.abort_if_errors(), Ok(()));
    handler.error("boom".to_string()).unwrap();
    assert_eq!(handler.err_count, 1);
    assert_eq!(handler.abort_if_errors(), Err(FatalError));
}

#[test]
fn fatal_reports_and_returns_sentinel() {
    let mut handler = capture_handler(CodeMap::new(), Verbosity::Info, false, false);
    let stop = handler.fatal("cannot go on".to_string());
    assert_eq!(stop, FatalError);
    assert!(handler.has_errors());
    assert!(handler.emitter.captured().contains("cannot go on"));
}

#[test]
fn failed_counts_even_when_silent() {
    let mut handler = capture_handler(CodeMap::new(), Verbosity::Silent, false, false);
    handler.failed("FAILED", "stage four".to_string()).unwrap();
    assert_eq!(handler.err_count, 1);
    assert_eq!(handler.emitter.captured(), "      FAILED stage four\n");
}

#[test]
fn success_and_notice_respect_gates() {
    let handler = capture_handler(CodeMap::new(), Verbosity::Silent, false, false);
    handler.success("done", "all good".to_string()).unwrap();
    assert_eq!(handler.emitter.captured(), "");
    let handler2 = capture_handler(CodeMap::new(), Verbosity::Info, false, false);
    handler2.success("done", "all good".to_string()).unwrap();
    handler2.notice("heads-up", "look here".to_string()).unwrap();
    let out = handler2.emitter.captured();
    assert_eq!(out, "        done all good\n    heads-up look here\n");
}

#[test]
fn info_and_debug_filter_by_verbosity() {
    let handler = capture_handler(CodeMap::new(), Verbosity::Info, false, false);
    handler.info("visible".to_string()).unwrap();
    handler.debug("hidden".to_string()).unwrap();
    let out = handler.emitter.captured();
    assert_eq!(out, "info: visible\n");
    assert!(!out.contains("hidden"));
    let chatty = capture_handler(CodeMap::new(), Verbosity::Debug, false, false);
    chatty.debug("shown".to_string()).unwrap();
    assert!(chatty.emitter.captured().contains("debug: shown"));
}

#[test]
fn builder_resolves_lines_against_registry() {
    let mut map = CodeMap::new();
    map.add(
        FileName::virtual_("b.src".to_string()),
        "first line\nsecond line\n".to_string(),
    );
    let handler = capture_handler(map, Verbosity::Info, false, false);
    let d = handler
        .diagnostic(Severity::Error)
        .set_source_file(FileName::virtual_("b.src".to_string()))
        .with_message("here".to_string())
        .with_primary_label_line_and_col(2, 1, Some("this one".to_string()))
        .take();
    assert_eq!(d.labels.len(), 1);
    assert_eq!(d.labels[0].style, LabelStyle::Primary);
    assert_eq!(d.labels[0].span.start_index(), 11);
    assert_eq!(d.labels[0].span.end_index(), 22);
    assert_eq!(d.labels[0].message, "this one");
}

#[test]
fn builder_drops_unresolvable_labels() {
    let handler = capture_handler(CodeMap::new(), Verbosity::Info, false, false);
    let d = handler
        .diagnostic(Severity::Warning)
        .set_source_file(FileName::virtual_("missing.src".to_string()))
        .with_primary_label_line_and_col(1, 1, None)
        .with_label(
            LabelStyle::Secondary,
            Some(FileName::virtual_("also-missing".to_string())),
            3,
            1,
            None,
        )
        .with_label(LabelStyle::Secondary, None, 1, 1, None)
        .take();
    assert_eq!(d.labels.len(), 0);
}

#[test]
fn builder_drops_out_of_range_lines() {
    let mut map = CodeMap::new();
    map.add(FileName::virtual_("c.src".to_string()), "only line".to_string());
    let handler = capture_handler(map, Verbosity::Info, false, false);
    let d = handler
        .diagnostic(Severity::Error)
        .set_source_file(FileName::virtual_("c.src".to_string()))
        .with_primary_label_line_and_col(5, 1, None)
        .with_primary_label_line_and_col(0, 1, None)
        .take();
    assert_eq!(d.labels.len(), 0);
}

#[test]
fn builder_notes_and_metadata() {
    let handler = capture_handler(CodeMap::new(), Verbosity::Info, false, false);
    let mut inflight = handler
        .diagnostic(Severity::Note)
        .with_message("top".to_string())
        .with_note("first note".to_string());
    inflight.add_note("second note".to_string());
    assert_eq!(inflight.severity(), Severity::Note);
    assert!(inflight.verbose());
    let d = inflight.take();
    assert_eq!(d.severity, Severity::Note);
    assert_eq!(d.message, "top");
    assert_eq!(d.notes, vec!["first note".to_string(), "second note".to_string()]);
}

#[test]
fn builder_emit_routes_through_policy() {
    let mut map = CodeMap::new();
    let id = map.add(FileName::virtual_("d.src".to_string()), "text".to_string());
    let whole = map.source_span(id).unwrap();
    let mut handler = capture_handler(map, Verbosity::Info, true, false);
    let inflight = handler
        .diagnostic(Severity::Warning)
        .with_message("promoted".to_string())
        .with_secondary_label(whole, "related".to_string());
    inflight.emit(&mut handler).unwrap();
    assert_eq!(handler.err_count, 1);
    let out = handler.emitter.captured();
    assert!(out.contains("error"));
    assert!(out.contains("promoted"));
    assert!(out.contains("d.src:1:1"));
}

#[test]
fn lookup_file_id_through_handler() {
    let mut map = CodeMap::new();
    let id = map.add(FileName::virtual_("e.src".to_string()), "x".to_string());
    let handler = capture_handler(map, Verbosity::Info, false, false);
    assert_eq!(handler.lookup_file_id(&FileName::virtual_("e.src".to_string())), Some(id));
    assert_eq!(handler.lookup_file_id(&FileName::virtual_("zz".to_string())), None);
}

#[test]
fn null_emitter_discards_but_counts() {
    let mut handler = DiagnosticsHandler::new(
        config(Verbosity::Info, false, false),
        Arc::new(CodeMap::new()),
        NullEmitter::new(ColorChoice::Never),
    );
    handler.error("swallowed".to_string()).unwrap();
    assert!(handler.has_errors());
    assert!(!handler.emitter.ansi);
    assert!(NullEmitter::new(ColorChoice::Always).ansi);
}

struct FailingSink;

impl Emitter for FailingSink {
    fn buffer(&self) -> Vec<u8> {
        Vec::new()
    }

    fn print(&self, _buffer: Vec<u8>) -> Result<(), Error> {
        Err(Error::Io)
    }
}

#[test]
fn sink_failure_propagates_after_counting() {
    let mut handler = DiagnosticsHandler::new(
        config(Verbosity::Info, false, false),
        Arc::new(CodeMap::new()),
        FailingSink,
    );
    let outcome = handler.error("pipe broke".to_string());
    assert_eq!(outcome, Err(Error::Io));
    assert_eq!(handler.err_count, 1);
}

#[test]
fn emitter_buffers_start_empty() {
    let capture = CaptureEmitter::new();
    assert!(capture.buffer().is_empty());
    assert_eq!(capture.captured(), "");
    let null = NullEmitter::new(ColorChoice::Auto);
    assert!(null.buffer().is_empty());
    null.print(vec![1, 2, 3]).unwrap();
}
