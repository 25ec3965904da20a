use vstd::prelude::*;

verus! {

/// Specification-level value of a [`FileName`]: the tag plus the name text.
pub enum FileNameV {
    Real(Seq<char>),
    Virtual(Seq<char>),
}

impl FileNameV {
    /// The name text, whichever tag the name carries.
    pub open spec fn text(self) -> Seq<char> {
        match self {
            FileNameV::Real(s) => s,
            FileNameV::Virtual(s) => s,
        }
    }

    pub open spec fn is_real(self) -> bool {
        self is Real
    }
}

/// The name of a logical source file: either a real path on disk or a
/// "virtual" name for content that only exists in memory (a REPL line, an
/// expanded inclusion).
///
/// Equality and ordering are structural; the name is used as a lookup key
/// and for display and carries no behaviour beyond identity.
#[derive(Clone, Debug, PartialEq, Eq, PartialOrd, Ord, Hash)]
pub enum FileName {
    /// A real file on disk.
    Real(String),
    /// A synthetic file that exists only in memory.
    Virtual(String),
}

impl View for FileName {
    type V = FileNameV;

    open spec fn view(&self) -> FileNameV {
        match self {
            FileName::Real(s) => FileNameV::Real(s@),
            FileName::Virtual(s) => FileNameV::Virtual(s@),
        }
    }
}

/// Relies on `std::path::Path::is_dir`: probes the filesystem, so nothing is
/// promised of the result.
#[verifier::external_body]
fn path_is_dir(path: &String) -> bool {
    std::path::Path::new(path.as_str()).is_dir()
}

/// Relies on `std::path::Path::is_file`: probes the filesystem, so nothing
/// is promised of the result.
#[verifier::external_body]
fn path_is_file(path: &String) -> bool {
    std::path::Path::new(path.as_str()).is_file()
}

impl FileName {
    /// Creates a [`FileName`] standing for a real file on disk.
    pub fn real_path(name: String) -> (r: FileName)
        ensures
            r@ == FileNameV::Real(name@),
    {
        FileName::Real(name)
    }

    /// Creates a [`FileName`] standing for a virtual, in-memory file.
    pub fn virtual_(name: String) -> (r: FileName)
        ensures
            r@ == FileNameV::Virtual(name@),
    {
        FileName::Virtual(name)
    }

    /// True if this name denotes a real directory on disk.
    ///
    /// A virtual name never does.
    pub fn is_dir(&self) -> (r: bool)
        ensures
            !self@.is_real() ==> !r,
    {
        match self {
            FileName::Real(path) => path_is_dir(path),
            FileName::Virtual(_) => false,
        }
    }

    /// True if this name denotes a real file on disk.
    ///
    /// A virtual name never does.
    pub fn is_file(&self) -> (r: bool)
        ensures
            !self@.is_real() ==> !r,
    {
        match self {
            FileName::Real(path) => path_is_file(path),
            FileName::Virtual(_) => false,
        }
    }

    /// The name text as a `&str`.
    ///
    /// Always present: names are stored as text.  The `Option` stays in the
    /// signature for callers that treat a name as possibly unprintable.
    pub fn as_str(&self) -> (r: Option<&str>)
        ensures
            r matches Some(s) && s@ == self@.text(),
    {
        match self {
            FileName::Real(path) => Some(path.as_str()),
            FileName::Virtual(name) => Some(name.as_str()),
        }
    }
}

} // verus!
