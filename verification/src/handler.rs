use vstd::prelude::*;

use std::sync::Arc;

use vstd::string::StringSliceAdditionalSpecFns;
use vstd::utf8::encode_utf8;

use crate::codemap::{arc_clone, arc_get, CodeMap};
use crate::diagnostic::{Diagnostic, InFlightDiagnostic, Severity};
use crate::emitter::{ColorChoice, Emitter};
use crate::error::{Error, FatalError};
use crate::filename::FileName;
use crate::render::render_into;
use crate::span::SourceId;

verus! {

/// How much output the handler lets through; higher levels suppress more.
#[derive(Clone, Copy, Debug, PartialEq, Eq, Structural, Hash)]
pub enum Verbosity {
    /// Everything, debug chatter included.
    Debug,
    /// Informational messages and every diagnostic.
    Info,
    /// Warnings and errors only.
    Warning,
    /// Nothing at all.
    Silent,
}

impl Verbosity {
    /// The position of this level on the scale; higher suppresses more.
    pub open spec fn rank(self) -> int {
        match self {
            Verbosity::Debug => 0,
            Verbosity::Info => 1,
            Verbosity::Warning => 2,
            Verbosity::Silent => 3,
        }
    }

    fn rank_value(self) -> (r: u8)
        ensures
            r as int == self.rank(),
    {
        match self {
            Verbosity::Debug => 0,
            Verbosity::Info => 1,
            Verbosity::Warning => 2,
            Verbosity::Silent => 3,
        }
    }

    /// True when this level is stricter than `other` (suppresses more).
    pub fn exceeds(self, other: Verbosity) -> (r: bool)
        ensures
            r == (self.rank() > other.rank()),
    {
        self.rank_value() > other.rank_value()
    }
}

/// How diagnostics are laid out.
#[derive(Clone, Copy, Debug, PartialEq, Eq, Structural)]
pub enum DisplayStyle {
    /// Terse single-line output.
    Plain,
    /// Full output with location pointers.
    Rich,
}

/// The display half of the handler's configuration.
#[derive(Clone, Copy, Debug, PartialEq, Eq, Structural)]
pub struct DisplayConfig {
    pub style: DisplayStyle,
    pub color: ColorChoice,
}

/// Everything a handler is configured with at construction; none of it
/// changes afterwards.
#[derive(Clone, Copy, Debug, PartialEq, Eq, Structural)]
pub struct DiagnosticsConfig {
    /// The verbosity threshold output is filtered by.
    pub verbosity: Verbosity,
    /// Promote warnings to errors.
    pub warnings_as_errors: bool,
    /// Suppress warnings entirely.
    pub no_warn: bool,
    /// How rendered diagnostics are displayed.
    pub display: DisplayConfig,
}

/// How a diagnostic of severity `severity` is arbitrated: `None` to discard
/// it, `Some(s)` to render and emit it with severity `s`.
///
/// Order matters: silence discards everything; notes are dropped under a
/// strict verbosity; suppression of warnings is considered before their
/// promotion to errors.
pub open spec fn emit_decision(
    silent: bool,
    verbosity: Verbosity,
    no_warn: bool,
    warnings_as_errors: bool,
    severity: Severity,
) -> Option<Severity> {
    if silent {
        None
    } else if severity == Severity::Note && verbosity.rank() > Verbosity::Info.rank() {
        None
    } else if severity == Severity::Warning && no_warn {
        None
    } else if severity == Severity::Warning && warnings_as_errors {
        Some(Severity::Error)
    } else {
        Some(severity)
    }
}

/// With warnings promoted to errors and not suppressed, an emitted warning
/// is arbitrated to an error (and therefore counted), whatever the
/// verbosity.
pub proof fn lemma_warnings_promoted(verbosity: Verbosity)
    ensures
        emit_decision(false, verbosity, false, true, Severity::Warning) == Some(Severity::Error),
{
}

/// With warnings suppressed, an emitted warning is discarded — even when
/// warnings would otherwise be promoted to errors — so it is never counted.
pub proof fn lemma_warnings_suppressed(verbosity: Verbosity, warnings_as_errors: bool)
    ensures
        emit_decision(false, verbosity, true, warnings_as_errors, Severity::Warning) is None,
{
}

/// With the verbosity stricter than `Info`, an emitted note is discarded,
/// so it never affects the error counter.
pub proof fn lemma_notes_suppressed(verbosity: Verbosity, no_warn: bool, warnings_as_errors: bool)
    requires
        verbosity.rank() > Verbosity::Info.rank(),
    ensures
        emit_decision(false, verbosity, no_warn, warnings_as_errors, Severity::Note) is None,
{
}

/// The nexus that applies severity policy to diagnostics, counts errors,
/// renders against the registry and writes to the output sink.
///
/// All policy is fixed at construction; the error counter is the only state
/// that ever changes.
pub struct DiagnosticsHandler<E> {
    /// The output sink rendered diagnostics are written to.
    pub emitter: E,
    /// The registry diagnostics are rendered against.
    pub codemap: Arc<CodeMap>,
    /// How many error-severity diagnostics have been emitted.
    pub err_count: u64,
    /// The verbosity threshold.
    pub verbosity: Verbosity,
    /// Promote warnings to errors.
    pub warnings_as_errors: bool,
    /// Suppress warnings (set directly, or implied by the verbosity).
    pub no_warn: bool,
    /// Discard everything.
    pub silent: bool,
    /// How diagnostics are displayed.
    pub display: DisplayConfig,
}

impl<E: Emitter> DiagnosticsHandler<E> {
    /// The handler is usable: its registry satisfies the registry
    /// invariant.
    pub open spec fn wf(self) -> bool {
        self.codemap@.wf()
    }

    /// Everything but the error counter is unchanged between `pre` and
    /// `post`.
    pub open spec fn spec_same_config(pre: Self, post: Self) -> bool {
        &&& post.emitter == pre.emitter
        &&& post.codemap == pre.codemap
        &&& post.verbosity == pre.verbosity
        &&& post.warnings_as_errors == pre.warnings_as_errors
        &&& post.no_warn == pre.no_warn
        &&& post.silent == pre.silent
        &&& post.display == pre.display
    }

    /// What this handler's policy decides for a diagnostic of severity
    /// `severity`.
    pub open spec fn spec_decision(self, severity: Severity) -> Option<Severity> {
        emit_decision(self.silent, self.verbosity, self.no_warn, self.warnings_as_errors, severity)
    }

    /// Builds a handler over `codemap` writing to `emitter`, with the
    /// policy fixed from `config`: warnings are additionally suppressed
    /// when the verbosity is stricter than `Warning`, and everything is
    /// discarded when it is `Silent`.
    pub fn new(config: DiagnosticsConfig, codemap: Arc<CodeMap>, emitter: E) -> (r: Self)
        requires
            codemap@.wf(),
        ensures
            r.wf(),
            r.emitter == emitter,
            r.codemap == codemap,
            r.err_count == 0,
            r.verbosity == config.verbosity,
            r.warnings_as_errors == config.warnings_as_errors,
            r.no_warn == (config.no_warn || config.verbosity.rank() > Verbosity::Warning.rank()),
            r.silent == (config.verbosity == Verbosity::Silent),
            r.display == config.display,
    {
        let no_warn = config.no_warn || config.verbosity.exceeds(Verbosity::Warning);
        let silent = match config.verbosity {
            Verbosity::Silent => true,
            _ => false,
        };
        DiagnosticsHandler {
            emitter,
            codemap,
            err_count: 0,
            verbosity: config.verbosity,
            warnings_as_errors: config.warnings_as_errors,
            no_warn,
            silent,
            display: config.display,
        }
    }

    /// The id registered under `filename`, if any.
    pub fn lookup_file_id(&self, filename: &FileName) -> (r: Option<SourceId>)
        requires
            self.wf(),
        ensures
            r == (if self.codemap@.names.contains_key(filename@) {
                Some(SourceId(self.codemap@.names[filename@]))
            } else {
                None::<SourceId>
            }),
    {
        arc_get(&self.codemap).get_file_id(filename)
    }

    /// True once any error-severity diagnostic has been counted.
    pub fn has_errors(&self) -> (r: bool)
        ensures
            r == (self.err_count > 0),
    {
        self.err_count > 0
    }

    /// The phase-boundary gate: raises the stop condition exactly when
    /// errors have accumulated, and is a no-op otherwise.
    pub fn abort_if_errors(&self) -> (r: Result<(), FatalError>)
        ensures
            r == (if self.err_count > 0 {
                Err::<(), FatalError>(FatalError)
            } else {
                Ok::<(), FatalError>(())
            }),
    {
        if self.err_count > 0 {
            Err(FatalError)
        } else {
            Ok(())
        }
    }

    /// Emits `diagnostic` under this handler's policy.
    ///
    /// The severity is arbitrated as [`emit_decision`] says; a discarded
    /// diagnostic changes nothing and succeeds.  An emitted diagnostic
    /// first bumps the error counter when its arbitrated severity is
    /// `Error`, then is rendered against the registry and written to the
    /// sink; a sink failure is returned, not swallowed.
    pub fn emit(&mut self, diagnostic: Diagnostic) -> (r: Result<(), Error>)
        requires
            old(self).wf(),
            old(self).spec_decision(diagnostic@.severity) == Some(Severity::Error) ==> old(
                self,
            ).err_count < u64::MAX,
        ensures
            final(self).wf(),
            Self::spec_same_config(*old(self), *final(self)),
            final(self).err_count as int == old(self).err_count as int + (if old(
                self,
            ).spec_decision(diagnostic@.severity) == Some(Severity::Error) {
                1int
            } else {
                0int
            }),
            old(self).spec_decision(diagnostic@.severity) is None ==> r is Ok,
    {
        if self.silent {
            return Ok(());
        }
        let mut d = diagnostic;
        if d.severity == Severity::Note && self.verbosity.exceeds(Verbosity::Info) {
            return Ok(());
        }
        if d.severity == Severity::Warning && self.no_warn {
            return Ok(());
        }
        if d.severity == Severity::Warning && self.warnings_as_errors {
            d.severity = Severity::Error;
        }
        if d.severity == Severity::Error {
            self.err_count = self.err_count + 1;
        }
        let mut buffer = self.emitter.buffer();
        render_into(&mut buffer, arc_get(&self.codemap), &d);
        self.emitter.print(buffer)
    }

    /// Reports an error diagnostic with the given message.
    pub fn error(&mut self, message: String) -> (r: Result<(), Error>)
        requires
            old(self).wf(),
            old(self).err_count < u64::MAX,
        ensures
            final(self).wf(),
            Self::spec_same_config(*old(self), *final(self)),
            final(self).err_count as int == old(self).err_count as int + (if old(self).silent {
                0int
            } else {
                1int
            }),
    {
        let d = Diagnostic::error().with_message(message);
        self.emit(d)
    }

    /// Reports a warning diagnostic with the given message, under the same
    /// arbitration as [`DiagnosticsHandler::emit`]: a suppressed warning is
    /// discarded (suppression is considered before promotion), and
    /// otherwise warnings-as-errors promotes it to a counted error.
    pub fn warn(&mut self, message: String) -> (r: Result<(), Error>)
        requires
            old(self).wf(),
            old(self).err_count < u64::MAX,
        ensures
            final(self).wf(),
            Self::spec_same_config(*old(self), *final(self)),
            final(self).err_count as int == old(self).err_count as int + (if !old(self).silent
                && !old(self).no_warn && old(self).warnings_as_errors {
                1int
            } else {
                0int
            }),
    {
        let d = Diagnostic::warning().with_message(message);
        self.emit(d)
    }

    /// Reports a note diagnostic with the given message; it never touches
    /// the error counter.
    pub fn note(&mut self, message: String) -> (r: Result<(), Error>)
        requires
            old(self).wf(),
        ensures
            final(self).wf(),
            Self::spec_same_config(*old(self), *final(self)),
            final(self).err_count == old(self).err_count,
    {
        if self.verbosity.exceeds(Verbosity::Info) {
            return Ok(());
        }
        let d = Diagnostic::note().with_message(message);
        self.emit(d)
    }

    /// Writes the status line that [`spec_status_line`] fixes: `prefix`
    /// right-aligned to twelve columns, a space, then the message.  The
    /// buffer handed to the sink holds exactly those bytes.
    fn write_prefixed(&self, prefix: &str, message: &str) -> (r: Result<(), Error>)
        requires
            self.wf(),
    {
        let mut buffer = self.emitter.buffer();
        push_status_line(&mut buffer, prefix, message);
        proof {
            assert(buffer@ =~= spec_status_line(prefix@, message@));
        }
        self.emitter.print(buffer)
    }

    /// Writes one informational line, gated only by the verbosity; the
    /// bytes handed to the sink are exactly
    /// `spec_tagged_line("info: ", message)`, and the handler's state never
    /// changes.
    pub fn info(&self, message: String) -> (r: Result<(), Error>)
        requires
            self.wf(),
        ensures
            self.verbosity.rank() > Verbosity::Info.rank() ==> r is Ok,
    {
        if self.verbosity.exceeds(Verbosity::Info) {
            return Ok(());
        }
        let mut buffer = self.emitter.buffer();
        push_tagged_line(&mut buffer, "info: ", message.as_str());
        proof {
            assert(buffer@ =~= spec_tagged_line("info: "@, message@));
        }
        self.emitter.print(buffer)
    }

    /// Writes one debug line, gated only by the verbosity; the bytes
    /// handed to the sink are exactly `spec_tagged_line("debug: ",
    /// message)`, and the handler's state never changes.
    pub fn debug(&self, message: String) -> (r: Result<(), Error>)
        requires
            self.wf(),
        ensures
            self.verbosity.rank() > Verbosity::Debug.rank() ==> r is Ok,
    {
        if self.verbosity.exceeds(Verbosity::Debug) {
            return Ok(());
        }
        let mut buffer = self.emitter.buffer();
        push_tagged_line(&mut buffer, "debug: ", message.as_str());
        proof {
            assert(buffer@ =~= spec_tagged_line("debug: "@, message@));
        }
        self.emitter.print(buffer)
    }

    /// Writes a warning-like status line, gated by the verbosity; the
    /// bytes handed to the sink are exactly
    /// `spec_status_line(prefix, message)`.
    ///
    /// It is informational: it is never promoted to an error and never
    /// touches the error counter.
    pub fn notice(&self, prefix: &str, message: String) -> (r: Result<(), Error>)
        requires
            self.wf(),
        ensures
            self.verbosity.rank() > Verbosity::Info.rank() ==> r is Ok,
    {
        if self.verbosity.exceeds(Verbosity::Info) {
            return Ok(());
        }
        self.write_prefixed(prefix, message.as_str())
    }

    /// Writes a success status line, unless the handler is silent; the
    /// bytes handed to the sink are exactly
    /// `spec_status_line(prefix, message)`, and the error counter never
    /// changes.
    pub fn success(&self, prefix: &str, message: String) -> (r: Result<(), Error>)
        requires
            self.wf(),
        ensures
            self.silent ==> r is Ok,
    {
        if self.silent {
            return Ok(());
        }
        self.write_prefixed(prefix, message.as_str())
    }

    /// Writes a failure status line; the bytes handed to the sink are
    /// exactly `spec_status_line(prefix, message)`, and the error counter
    /// is always incremented, silent or not.
    pub fn failed(&mut self, prefix: &str, message: String) -> (r: Result<(), Error>)
        requires
            old(self).wf(),
            old(self).err_count < u64::MAX,
        ensures
            final(self).wf(),
            Self::spec_same_config(*old(self), *final(self)),
            final(self).err_count == old(self).err_count + 1,
    {
        self.err_count = self.err_count + 1;
        self.write_prefixed(prefix, message.as_str())
    }

    /// Reports an error and hands back the stop-compilation sentinel for
    /// the caller to raise.
    pub fn fatal(&mut self, message: String) -> (r: FatalError)
        requires
            old(self).wf(),
            old(self).err_count < u64::MAX,
        ensures
            final(self).wf(),
            Self::spec_same_config(*old(self), *final(self)),
            final(self).err_count as int == old(self).err_count as int + (if old(self).silent {
                0int
            } else {
                1int
            }),
            r == FatalError,
    {
        let _ = self.error(message);
        FatalError
    }

    /// Opens a builder for a rich diagnostic of the given severity; the
    /// caller finishes it with [`InFlightDiagnostic::take`] or
    /// [`InFlightDiagnostic::emit`].
    pub fn diagnostic(&self, severity: Severity) -> (r: InFlightDiagnostic)
        requires
            self.wf(),
        ensures
            r.wf(),
            r.codemap == self.codemap,
            r.severity == severity,
            r.file_id is None,
            r.rich == (self.display.style == DisplayStyle::Rich),
            r.diagnostic@.severity == severity,
            r.diagnostic@.message == Seq::<char>::empty(),
            r.diagnostic@.labels == Seq::<crate::diagnostic::LabelV>::empty(),
            r.diagnostic@.notes == Seq::<Seq<char>>::empty(),
    {
        let rich = match self.display.style {
            DisplayStyle::Rich => true,
            DisplayStyle::Plain => false,
        };
        InFlightDiagnostic::new(arc_clone(&self.codemap), rich, severity)
    }
}

/// The bytes of one tagged line: the tag text, the message, a newline.
pub open spec fn spec_tagged_line(tag: Seq<char>, message: Seq<char>) -> Seq<u8> {
    encode_utf8(tag) + encode_utf8(message) + seq![10u8]
}

/// How many spaces right-align a prefix of `len` characters to twelve
/// columns.
pub open spec fn spec_status_pad(len: int) -> int {
    if len >= 12 {
        0
    } else {
        12 - len
    }
}

/// The bytes of one status line: the prefix right-aligned to twelve
/// columns, a space, the message, a newline.
pub open spec fn spec_status_line(prefix: Seq<char>, message: Seq<char>) -> Seq<u8> {
    Seq::new(spec_status_pad(prefix.len() as int) as nat, |i: int| 32u8) + encode_utf8(prefix)
        + seq![32u8] + encode_utf8(message) + seq![10u8]
}

/// Appends the tagged line that [`spec_tagged_line`] describes.
fn push_tagged_line(out: &mut Vec<u8>, tag: &str, message: &str)
    ensures
        final(out)@ == old(out)@ + spec_tagged_line(tag@, message@),
{
    let ghost pre = out@;
    push_text(out, tag);
    push_text(out, message);
    out.push(10u8);
    proof {
        assert(out@ =~= pre + spec_tagged_line(tag@, message@));
    }
}

/// Appends the status line that [`spec_status_line`] describes.
fn push_status_line(out: &mut Vec<u8>, prefix: &str, message: &str)
    ensures
        final(out)@ == old(out)@ + spec_status_line(prefix@, message@),
{
    let ghost pre = out@;
    let width = prefix.unicode_len();
    let target: usize = if width >= 12 {
        0
    } else {
        12 - width
    };
    let mut pad: usize = 0;
    proof {
        assert(out@ =~= pre + Seq::new(0nat, |i: int| 32u8));
    }
    while pad < target
        invariant
            pad <= target,
            target as int == spec_status_pad(prefix@.len() as int),
            out@ =~= pre + Seq::new(pad as nat, |i: int| 32u8),
        decreases target - pad,
    {
        out.push(32u8);
        proof {
            assert(out@ =~= pre + Seq::new((pad + 1) as nat, |i: int| 32u8));
        }
        pad += 1;
    }
    push_text(out, prefix);
    out.push(32u8);
    push_text(out, message);
    out.push(10u8);
    proof {
        assert(out@ =~= pre + spec_status_line(prefix@, message@));
    }
}

/// Appends the UTF-8 bytes of `text` to `out`.
fn push_text(out: &mut Vec<u8>, text: &str)
    ensures
        final(out)@ == old(out)@ + text.spec_bytes(),
{
    let bytes = text.as_bytes();
    let ghost pre = out@;
    let mut i: usize = 0;
    while i < bytes.len()
        invariant
            i <= bytes@.len(),
            bytes@ == text.spec_bytes(),
            out@ =~= pre + bytes@.subrange(0, i as int),
        decreases bytes@.len() - i,
    {
        out.push(bytes[i]);
        proof {
            assert(out@ =~= pre + bytes@.subrange(0, i + 1 as int));
        }
        i += 1;
    }
    proof {
        assert(out@ =~= pre + bytes@);
    }
}

impl InFlightDiagnostic {
    /// Emits the diagnostic built so far through `handler`, under the
    /// handler's severity policy.
    pub fn emit<E: Emitter>(self, handler: &mut DiagnosticsHandler<E>) -> (r: Result<(), Error>)
        requires
            old(handler).wf(),
            old(handler).spec_decision(self.diagnostic@.severity) == Some(Severity::Error) ==> old(
                handler,
            ).err_count < u64::MAX,
        ensures
            final(handler).wf(),
            DiagnosticsHandler::<E>::spec_same_config(*old(handler), *final(handler)),
            final(handler).err_count as int == old(handler).err_count as int + (if old(
                handler,
            ).spec_decision(self.diagnostic@.severity) == Some(Severity::Error) {
                1int
            } else {
                0int
            }),
            old(handler).spec_decision(self.diagnostic@.severity) is None ==> r is Ok,
    {
        handler.emit(self.take())
    }
}

} // verus!
