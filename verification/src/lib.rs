//! Diagnostics and source-mapping core for a compiler front end.
//!
//! The crate keeps a registry of source files ([`CodeMap`]), addresses byte
//! ranges inside them ([`SourceSpan`]), and records and emits severity-tagged
//! diagnostics ([`Diagnostic`], [`DiagnosticsHandler`]) through pluggable
//! output sinks ([`Emitter`]).

mod codemap;
mod diagnostic;
mod emitter;
mod error;
mod filename;
mod handler;
mod render;
mod source_file;
mod span;

pub use codemap::{CodeMap, CodeMapV};
pub use filename::{FileName, FileNameV};
pub use diagnostic::{Diagnostic, DiagnosticV, InFlightDiagnostic, Label, LabelStyle, LabelV, Severity};
pub use emitter::{CaptureEmitter, ColorChoice, DefaultEmitter, Emitter, NullEmitter};
pub use error::{Error, FatalError};
pub use handler::{emit_decision, spec_status_line, spec_tagged_line, DiagnosticsConfig, DiagnosticsHandler, DisplayConfig, DisplayStyle, Verbosity};
pub use render::{render_into, spec_render};
pub use source_file::{Location, SourceFile, SourceFileV};
pub use span::{SourceId, SourceIndex, SourceSpan, Span, Spanned};
