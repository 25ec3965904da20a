use vstd::prelude::*;

use crate::error::Error;

verus! {

/// How eagerly output should be coloured.
///
/// The registry's own renderer writes plain bytes; the choice is kept so
/// sinks can negotiate ANSI capability as the original interface asks.
#[derive(Clone, Copy, Debug, PartialEq, Eq, Structural)]
pub enum ColorChoice {
    /// Colour only when the stream is a terminal.
    Auto,
    /// Colour whenever the platform allows it.
    Always,
    /// Colour with ANSI sequences, whatever the platform.
    AlwaysAnsi,
    /// Never colour.
    Never,
}

/// An output sink for rendered diagnostics.
///
/// For each emission a fresh buffer is handed out, the diagnostic is
/// rendered into it, and the buffer is passed back to `print` for display.
pub trait Emitter {
    /// A fresh, empty buffer for the renderer to fill.
    fn buffer(&self) -> (r: Vec<u8>)
        ensures
            r@ == Seq::<u8>::empty(),
    ;

    /// Displays the contents of `buffer`.
    fn print(&self, buffer: Vec<u8>) -> Result<(), Error>;
}

/// Relies on `std::io::Write::write_all` on the standard error stream; a
/// failed write is reported as `Error::Io`.
#[verifier::external_body]
fn write_stderr(buffer: &Vec<u8>) -> Result<(), Error> {
    let mut stream = std::io::stderr();
    match std::io::Write::write_all(&mut stream, buffer.as_slice()) {
        Ok(()) => Ok(()),
        Err(_) => Err(Error::Io),
    }
}

/// The default sink: writes rendered diagnostics to standard error.
pub struct DefaultEmitter {
    /// The colour behaviour this sink was built with.
    pub color: ColorChoice,
}

impl DefaultEmitter {
    /// A sink writing to standard error with the given colour behaviour.
    pub fn new(color: ColorChoice) -> (r: DefaultEmitter)
        ensures
            r.color == color,
    {
        DefaultEmitter { color }
    }
}

impl Emitter for DefaultEmitter {
    fn buffer(&self) -> (r: Vec<u8>) {
        Vec::new()
    }

    fn print(&self, buffer: Vec<u8>) -> Result<(), Error> {
        write_stderr(&buffer)
    }
}

#[verifier::external_type_specification]
#[verifier::external_body]
#[verifier::reject_recursive_types(R)]
#[verifier::reject_recursive_types(T)]
pub struct ExLockApiMutex<R, T: ?Sized>(parking_lot::lock_api::Mutex<R, T>);

#[verifier::external_type_specification]
#[verifier::external_body]
pub struct ExParkingLotRawMutex(parking_lot::RawMutex);

/// A sink that captures everything written to it, for tests that assert on
/// what the user would have seen.
///
/// The captured bytes live behind a lock so concurrent emissions append
/// safely; nothing is stated about them here — tests read them back through
/// [`CaptureEmitter::captured`] and check the text directly.
pub struct CaptureEmitter {
    buffer: parking_lot::Mutex<Vec<u8>>,
}

impl CaptureEmitter {
    /// An empty capture sink.
    ///
    /// Relies on `parking_lot::Mutex::new`.
    #[verifier::external_body]
    pub fn new() -> CaptureEmitter {
        CaptureEmitter { buffer: parking_lot::Mutex::new(Vec::new()) }
    }

    /// Everything printed so far, decoded as text.
    ///
    /// Relies on `parking_lot::Mutex::lock` and
    /// `String::from_utf8_lossy`: returns the captured bytes, lossily
    /// decoded; the result depends on what was printed before, so nothing
    /// is promised of it.
    #[verifier::external_body]
    pub fn captured(&self) -> String {
        let buf = self.buffer.lock();
        String::from_utf8_lossy(buf.as_slice()).into_owned()
    }
}

/// Relies on `parking_lot::Mutex::lock` and `Vec::append`: appends the
/// buffer to the captured bytes, which cannot fail.
#[verifier::external_body]
fn capture_append(sink: &CaptureEmitter, buffer: Vec<u8>) -> (r: Result<(), Error>)
    ensures
        r is Ok,
{
    let mut bytes = buffer;
    let mut buf = sink.buffer.lock();
    buf.append(&mut bytes);
    Ok(())
}

impl Emitter for CaptureEmitter {
    fn buffer(&self) -> (r: Vec<u8>) {
        Vec::new()
    }

    fn print(&self, buffer: Vec<u8>) -> (r: Result<(), Error>)
        ensures
            r is Ok,
    {
        capture_append(self, buffer)
    }
}

/// Relies on `atty::is`: whether standard output is a terminal.  The result
/// depends on the environment, so nothing is promised of it.
#[verifier::external_body]
fn stdout_is_terminal() -> bool {
    atty::is(atty::Stream::Stdout)
}

/// A sink that throws every rendered buffer away, silencing diagnostics
/// without changing anything else in the pipeline.
#[derive(Clone, Copy, Debug)]
pub struct NullEmitter {
    /// Whether buffers would be ANSI-capable, kept from the colour
    /// negotiation even though output is discarded.
    pub ansi: bool,
}

impl NullEmitter {
    /// A discarding sink, still negotiating ANSI capability from `color`.
    pub fn new(color: ColorChoice) -> (r: NullEmitter)
        ensures
            color == ColorChoice::Never ==> !r.ansi,
            color == ColorChoice::Always || color == ColorChoice::AlwaysAnsi ==> r.ansi,
    {
        let ansi: bool = match color {
            ColorChoice::Never => false,
            ColorChoice::Always => true,
            ColorChoice::AlwaysAnsi => true,
            ColorChoice::Auto => stdout_is_terminal(),
        };
        NullEmitter { ansi }
    }
}

impl Emitter for NullEmitter {
    fn buffer(&self) -> (r: Vec<u8>) {
        Vec::new()
    }

    fn print(&self, buffer: Vec<u8>) -> (r: Result<(), Error>)
        ensures
            r is Ok,
    {
        Ok(())
    }
}

} // verus!
