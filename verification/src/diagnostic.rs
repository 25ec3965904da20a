use vstd::prelude::*;

use std::sync::Arc;

use crate::codemap::{arc_clone, arc_get, CodeMap};
use crate::filename::FileName;
use crate::span::{SourceId, SourceSpan};

verus! {

/// How severe a diagnostic is, from most to least severe.
#[derive(Clone, Copy, Debug, PartialEq, Eq, Structural, Hash)]
pub enum Severity {
    /// The program is wrong; compilation cannot succeed.
    Error,
    /// The program is suspect but compilation can go on.
    Warning,
    /// Additional context for an earlier diagnostic, or a minor remark.
    Note,
    /// A hint that may help the user, informational only.
    Help,
}

impl Severity {
    /// The position of this severity on the scale, most severe lowest.
    pub open spec fn rank(self) -> int {
        match self {
            Severity::Error => 0,
            Severity::Warning => 1,
            Severity::Note => 2,
            Severity::Help => 3,
        }
    }
}

/// What role a label plays in a diagnostic.
#[derive(Clone, Copy, Debug, PartialEq, Eq, Structural, Hash)]
pub enum LabelStyle {
    /// Marks where the diagnostic originates.
    Primary,
    /// Marks a related location that is not itself the origin.
    Secondary,
}

/// Specification-level value of a [`Label`].
pub struct LabelV {
    pub style: LabelStyle,
    pub file_id: SourceId,
    pub span: SourceSpan,
    pub message: Seq<char>,
}

/// A source location attached to a diagnostic: a span, its file, a role, and
/// an optional message (empty when absent).
#[derive(Clone, Debug)]
pub struct Label {
    pub style: LabelStyle,
    pub file_id: SourceId,
    pub span: SourceSpan,
    pub message: String,
}

impl View for Label {
    type V = LabelV;

    open spec fn view(&self) -> LabelV {
        LabelV {
            style: self.style,
            file_id: self.file_id,
            span: self.span,
            message: self.message@,
        }
    }
}

impl Label {
    /// A label with the given role and no message.
    pub fn new(style: LabelStyle, file_id: SourceId, span: SourceSpan) -> (r: Label)
        ensures
            r@ == (LabelV { style, file_id, span, message: Seq::<char>::empty() }),
    {
        Label { style, file_id, span, message: String::new() }
    }

    /// A primary label: where the diagnostic originates.
    pub fn primary(file_id: SourceId, span: SourceSpan) -> (r: Label)
        ensures
            r@ == (LabelV {
                style: LabelStyle::Primary,
                file_id,
                span,
                message: Seq::<char>::empty(),
            }),
    {
        Label::new(LabelStyle::Primary, file_id, span)
    }

    /// A secondary label: a related location.
    pub fn secondary(file_id: SourceId, span: SourceSpan) -> (r: Label)
        ensures
            r@ == (LabelV {
                style: LabelStyle::Secondary,
                file_id,
                span,
                message: Seq::<char>::empty(),
            }),
    {
        Label::new(LabelStyle::Secondary, file_id, span)
    }

    /// The same label, with its message replaced by `message`.
    pub fn with_message(self, message: String) -> (r: Label)
        ensures
            r@ == (LabelV {
                style: self@.style,
                file_id: self@.file_id,
                span: self@.span,
                message: message@,
            }),
    {
        Label { style: self.style, file_id: self.file_id, span: self.span, message }
    }
}

/// Specification-level value of a [`Diagnostic`].
pub struct DiagnosticV {
    pub severity: Severity,
    pub message: Seq<char>,
    pub labels: Seq<LabelV>,
    pub notes: Seq<Seq<char>>,
}

/// One diagnostic: a severity, a free-text message, labelled source spans in
/// insertion order, and free-standing notes in insertion order.
#[derive(Clone, Debug)]
pub struct Diagnostic {
    pub severity: Severity,
    pub message: String,
    pub labels: Vec<Label>,
    pub notes: Vec<String>,
}

impl View for Diagnostic {
    type V = DiagnosticV;

    open spec fn view(&self) -> DiagnosticV {
        DiagnosticV {
            severity: self.severity,
            message: self.message@,
            labels: self.labels@.map_values(|l: Label| l@),
            notes: self.notes@.map_values(|n: String| n@),
        }
    }
}

impl Diagnostic {
    /// An empty diagnostic of the given severity.
    pub fn new(severity: Severity) -> (r: Diagnostic)
        ensures
            r@ == (DiagnosticV {
                severity,
                message: Seq::<char>::empty(),
                labels: Seq::<LabelV>::empty(),
                notes: Seq::<Seq<char>>::empty(),
            }),
    {
        let d = Diagnostic {
            severity,
            message: String::new(),
            labels: Vec::new(),
            notes: Vec::new(),
        };
        proof {
            assert(d@.labels =~= Seq::<LabelV>::empty());
            assert(d@.notes =~= Seq::<Seq<char>>::empty());
        }
        d
    }

    /// An empty error diagnostic.
    pub fn error() -> (r: Diagnostic)
        ensures
            r@ == (DiagnosticV {
                severity: Severity::Error,
                message: Seq::<char>::empty(),
                labels: Seq::<LabelV>::empty(),
                notes: Seq::<Seq<char>>::empty(),
            }),
    {
        Diagnostic::new(Severity::Error)
    }

    /// An empty warning diagnostic.
    pub fn warning() -> (r: Diagnostic)
        ensures
            r@ == (DiagnosticV {
                severity: Severity::Warning,
                message: Seq::<char>::empty(),
                labels: Seq::<LabelV>::empty(),
                notes: Seq::<Seq<char>>::empty(),
            }),
    {
        Diagnostic::new(Severity::Warning)
    }

    /// An empty note diagnostic.
    pub fn note() -> (r: Diagnostic)
        ensures
            r@ == (DiagnosticV {
                severity: Severity::Note,
                message: Seq::<char>::empty(),
                labels: Seq::<LabelV>::empty(),
                notes: Seq::<Seq<char>>::empty(),
            }),
    {
        Diagnostic::new(Severity::Note)
    }

    /// The same diagnostic, with its message replaced by `message`.
    pub fn with_message(self, message: String) -> (r: Diagnostic)
        ensures
            r@ == (DiagnosticV {
                severity: self@.severity,
                message: message@,
                labels: self@.labels,
                notes: self@.notes,
            }),
    {
        Diagnostic { severity: self.severity, message, labels: self.labels, notes: self.notes }
    }
}

/// Builds a diagnostic incrementally against the registry, resolving names
/// and line/column pairs to spans as labels are attached.
///
/// A label whose resolution fails (an unregistered name, an invalid line) is
/// silently dropped: a diagnostic about a diagnostic is not worth failing
/// the compiler over.
pub struct InFlightDiagnostic {
    /// The registry labels are resolved against.
    pub codemap: Arc<CodeMap>,
    /// The file that name-less line/column labels refer to.
    pub file_id: Option<SourceId>,
    /// The diagnostic built so far.
    pub diagnostic: Diagnostic,
    /// The severity the diagnostic was opened with.
    pub severity: Severity,
    /// Whether the handler renders rich output.
    pub rich: bool,
}

impl InFlightDiagnostic {
    /// The builder is usable: its registry satisfies the registry invariant.
    pub open spec fn wf(self) -> bool {
        self.codemap@.wf()
    }

    pub(crate) fn new(codemap: Arc<CodeMap>, rich: bool, severity: Severity) -> (r:
        InFlightDiagnostic)
        requires
            codemap@.wf(),
        ensures
            r.wf(),
            r.codemap == codemap,
            r.file_id is None,
            r.severity == severity,
            r.rich == rich,
            r.diagnostic@ == (DiagnosticV {
                severity,
                message: Seq::<char>::empty(),
                labels: Seq::<LabelV>::empty(),
                notes: Seq::<Seq<char>>::empty(),
            }),
    {
        InFlightDiagnostic {
            codemap,
            file_id: None,
            diagnostic: Diagnostic::new(severity),
            severity,
            rich,
        }
    }

    /// The severity this diagnostic was opened with.
    pub fn severity(&self) -> (r: Severity)
        ensures
            r == self.severity,
    {
        self.severity
    }

    /// Whether the diagnostic should be built with verbose detail, for
    /// formatting code that cannot see the handler's display configuration.
    pub fn verbose(&self) -> (r: bool)
        ensures
            r == self.rich,
    {
        self.rich
    }

    /// Sets the file that later name-less line/column labels refer to, by
    /// looking `filename` up in the registry.
    pub fn set_source_file(self, filename: FileName) -> (r: Self)
        requires
            self.wf(),
        ensures
            r == (InFlightDiagnostic {
                file_id: if self.codemap@.names.contains_key(filename@) {
                    Some(SourceId(self.codemap@.names[filename@]))
                } else {
                    None::<SourceId>
                },
                ..self
            }),
            r.wf(),
    {
        let file_id = arc_get(&self.codemap).get_file_id(&filename);
        InFlightDiagnostic {
            codemap: self.codemap,
            file_id,
            diagnostic: self.diagnostic,
            severity: self.severity,
            rich: self.rich,
        }
    }

    /// Sets the diagnostic's message.
    pub fn with_message(self, message: String) -> (r: Self)
        ensures
            r.codemap == self.codemap,
            r.file_id == self.file_id,
            r.severity == self.severity,
            r.rich == self.rich,
            r.diagnostic@ == (DiagnosticV {
                severity: self.diagnostic@.severity,
                message: message@,
                labels: self.diagnostic@.labels,
                notes: self.diagnostic@.notes,
            }),
            self.wf() ==> r.wf(),
    {
        InFlightDiagnostic {
            codemap: self.codemap,
            file_id: self.file_id,
            diagnostic: self.diagnostic.with_message(message),
            severity: self.severity,
            rich: self.rich,
        }
    }

    /// What attaching one label does to the diagnostic built so far.
    pub open spec fn spec_with_label(self, label: LabelV) -> DiagnosticV {
        DiagnosticV {
            severity: self.diagnostic@.severity,
            message: self.diagnostic@.message,
            labels: self.diagnostic@.labels.push(label),
            notes: self.diagnostic@.notes,
        }
    }

    /// Pushes `label` onto the diagnostic.
    fn push_label(self, label: Label) -> (r: Self)
        ensures
            r.codemap == self.codemap,
            r.file_id == self.file_id,
            r.severity == self.severity,
            r.rich == self.rich,
            r.diagnostic@ == self.spec_with_label(label@),
            self.wf() ==> r.wf(),
    {
        let mut d = self.diagnostic;
        let ghost pre = d.labels@;
        d.labels.push(label);
        proof {
            assert(d.labels@.map_values(|l: Label| l@) =~= pre.map_values(|l: Label| l@).push(
                label@,
            ));
        }
        InFlightDiagnostic {
            codemap: self.codemap,
            file_id: self.file_id,
            diagnostic: d,
            severity: self.severity,
            rich: self.rich,
        }
    }

    /// Attaches a primary label for `span`, with no label message.
    pub fn with_primary_span(self, span: SourceSpan) -> (r: Self)
        ensures
            r.codemap == self.codemap,
            r.file_id == self.file_id,
            r.severity == self.severity,
            r.rich == self.rich,
            r.diagnostic@ == self.spec_with_label(
                LabelV {
                    style: LabelStyle::Primary,
                    file_id: span.source_id,
                    span,
                    message: Seq::<char>::empty(),
                },
            ),
            self.wf() ==> r.wf(),
    {
        let label = Label::primary(span.source_id(), span);
        self.push_label(label)
    }

    /// Attaches a primary label for `span` with the given message.
    ///
    /// A primary label marks the source at which the diagnostic originates.
    pub fn with_primary_label(self, span: SourceSpan, message: String) -> (r: Self)
        ensures
            r.codemap == self.codemap,
            r.file_id == self.file_id,
            r.severity == self.severity,
            r.rich == self.rich,
            r.diagnostic@ == self.spec_with_label(
                LabelV {
                    style: LabelStyle::Primary,
                    file_id: span.source_id,
                    span,
                    message: message@,
                },
            ),
            self.wf() ==> r.wf(),
    {
        let label = Label::primary(span.source_id(), span).with_message(message);
        self.push_label(label)
    }

    /// Attaches a secondary label for `span` with the given message.
    ///
    /// A secondary label points at source related to the diagnostic without
    /// being its origin.
    pub fn with_secondary_label(self, span: SourceSpan, message: String) -> (r: Self)
        ensures
            r.codemap == self.codemap,
            r.file_id == self.file_id,
            r.severity == self.severity,
            r.rich == self.rich,
            r.diagnostic@ == self.spec_with_label(
                LabelV {
                    style: LabelStyle::Secondary,
                    file_id: span.source_id,
                    span,
                    message: message@,
                },
            ),
            self.wf() ==> r.wf(),
    {
        let label = Label::secondary(span.source_id(), span).with_message(message);
        self.push_label(label)
    }

    /// What resolving a 1-based line against a file yields: the label span,
    /// or nothing when the file or line does not resolve.
    pub open spec fn spec_resolve_line(self, file_id: Option<SourceId>, line: int) -> Option<
        SourceSpan,
    > {
        match file_id {
            None => None,
            Some(id) => match self.codemap@.spec_get(id) {
                None => None,
                Some(f) => if 1 <= line <= f.num_lines() {
                    Some(f.line_span_of(line - 1))
                } else {
                    None
                },
            },
        }
    }

    /// Attaches a label at the 1-based `line` of the file chosen by
    /// [`InFlightDiagnostic::set_source_file`]; dropped silently if nothing
    /// resolves.
    pub fn with_primary_label_line_and_col(self, line: u32, column: u32, message: Option<
        String,
    >) -> (r: Self)
        requires
            self.wf(),
        ensures
            r.codemap == self.codemap,
            r.file_id == self.file_id,
            r.severity == self.severity,
            r.rich == self.rich,
            r.diagnostic@ == (match self.spec_resolve_line(self.file_id, line as int) {
                Some(span) => self.spec_with_label(
                    LabelV {
                        style: LabelStyle::Primary,
                        file_id: span.source_id,
                        span,
                        message: match message {
                            Some(m) => m@,
                            None => Seq::<char>::empty(),
                        },
                    },
                ),
                None => self.diagnostic@,
            }),
            r.wf(),
    {
        let file_id = self.file_id;
        self.with_label_and_file_id(LabelStyle::Primary, file_id, line, column, message)
    }

    /// Attaches a label at the 1-based `line` of the named file; dropped
    /// silently if the name or the line does not resolve.
    pub fn with_label(
        self,
        style: LabelStyle,
        filename: Option<FileName>,
        line: u32,
        column: u32,
        message: Option<String>,
    ) -> (r: Self)
        requires
            self.wf(),
        ensures
            r.codemap == self.codemap,
            r.file_id == self.file_id,
            r.severity == self.severity,
            r.rich == self.rich,
            r.diagnostic@ == (match filename {
                None => self.diagnostic@,
                Some(name) => {
                    let id = if self.codemap@.names.contains_key(name@) {
                        Some(SourceId(self.codemap@.names[name@]))
                    } else {
                        None::<SourceId>
                    };
                    match self.spec_resolve_line(id, line as int) {
                        Some(span) => self.spec_with_label(
                            LabelV {
                                style,
                                file_id: span.source_id,
                                span,
                                message: match message {
                                    Some(m) => m@,
                                    None => Seq::<char>::empty(),
                                },
                            },
                        ),
                        None => self.diagnostic@,
                    }
                },
            }),
            r.wf(),
    {
        match filename {
            Some(name) => {
                let id = arc_get(&self.codemap).get_file_id(&name);
                self.with_label_and_file_id(style, id, line, column, message)
            },
            None => self,
        }
    }

    /// Resolves `line` (1-based) against `file_id` and attaches the label,
    /// or returns the builder unchanged when resolution fails.
    fn with_label_and_file_id(
        self,
        style: LabelStyle,
        file_id: Option<SourceId>,
        line: u32,
        _column: u32,
        message: Option<String>,
    ) -> (r: Self)
        requires
            self.wf(),
        ensures
            r.codemap == self.codemap,
            r.file_id == self.file_id,
            r.severity == self.severity,
            r.rich == self.rich,
            r.diagnostic@ == (match self.spec_resolve_line(file_id, line as int) {
                Some(span) => self.spec_with_label(
                    LabelV {
                        style,
                        file_id: span.source_id,
                        span,
                        message: match message {
                            Some(m) => m@,
                            None => Seq::<char>::empty(),
                        },
                    },
                ),
                None => self.diagnostic@,
            }),
            r.wf(),
    {
        let id = match file_id {
            Some(id) => id,
            None => {
                return self;
            },
        };
        if line == 0 {
            return self;
        }
        let file = match arc_get(&self.codemap).get(id) {
            Ok(f) => f,
            Err(_) => {
                return self;
            },
        };
        let span = match arc_get(&file).line_span(line - 1) {
            Ok(s) => s,
            Err(_) => {
                return self;
            },
        };
        let label = match message {
            Some(m) => Label::new(style, id, span).with_message(m),
            None => Label::new(style, id, span),
        };
        proof {
            assert(span.source_id == id);
        }
        self.push_label(label)
    }

    /// Appends a free-standing note.
    pub fn with_note(self, note: String) -> (r: Self)
        ensures
            r.codemap == self.codemap,
            r.file_id == self.file_id,
            r.severity == self.severity,
            r.rich == self.rich,
            r.diagnostic@ == (DiagnosticV {
                severity: self.diagnostic@.severity,
                message: self.diagnostic@.message,
                labels: self.diagnostic@.labels,
                notes: self.diagnostic@.notes.push(note@),
            }),
            self.wf() ==> r.wf(),
    {
        let mut d = self.diagnostic;
        let ghost pre = d.notes@;
        d.notes.push(note);
        proof {
            assert(d.notes@.map_values(|n: String| n@) =~= pre.map_values(|n: String| n@).push(
                note@,
            ));
        }
        InFlightDiagnostic {
            codemap: self.codemap,
            file_id: self.file_id,
            diagnostic: d,
            severity: self.severity,
            rich: self.rich,
        }
    }

    /// Appends a free-standing note, for call sites where the fluent style
    /// is cumbersome.
    pub fn add_note(&mut self, note: String)
        ensures
            final(self).codemap == old(self).codemap,
            final(self).file_id == old(self).file_id,
            final(self).severity == old(self).severity,
            final(self).rich == old(self).rich,
            final(self).diagnostic@ == (DiagnosticV {
                severity: old(self).diagnostic@.severity,
                message: old(self).diagnostic@.message,
                labels: old(self).diagnostic@.labels,
                notes: old(self).diagnostic@.notes.push(note@),
            }),
            old(self).wf() ==> final(self).wf(),
    {
        let ghost pre = self.diagnostic.notes@;
        self.diagnostic.notes.push(note);
        proof {
            assert(self.diagnostic.notes@.map_values(|n: String| n@) =~= pre.map_values(
                |n: String| n@,
            ).push(note@));
        }
    }

    /// Extracts the finished diagnostic without emitting it.
    pub fn take(self) -> (r: Diagnostic)
        ensures
            r == self.diagnostic,
    {
        self.diagnostic
    }
}

} // verus!
