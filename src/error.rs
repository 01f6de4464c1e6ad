use vstd::prelude::*;

verus! {

/// The kinds of error the library reports.
#[derive(Clone, Copy, Debug, PartialEq, Eq, Hash)]
pub enum ErrorKind {
    /// Other error with yet unspecified meaning.
    Other,
}

impl ErrorKind {
    /// The kind's short name.
    pub open spec fn spec_name(&self) -> Seq<char> {
        match *self {
            ErrorKind::Other => "other"@,
        }
    }

    /// Returns the kind's short name.
    pub fn as_str(&self) -> (r: &'static str)
        ensures
            r@ == self.spec_name(),
    {
        match *self {
            ErrorKind::Other => "other",
        }
    }
}

/// An error: its kind and a description of what went wrong.
#[derive(Clone, Debug)]
pub struct Error {
    kind: ErrorKind,
    description: String,
}

impl Error {
    /// The error's kind.
    pub closed spec fn spec_kind(&self) -> ErrorKind {
        self.kind
    }

    /// The error's description.
    pub closed spec fn spec_description(&self) -> Seq<char> {
        self.description@
    }

    /// Creates an error of `kind` described by `description`.
    pub fn new(kind: ErrorKind, description: String) -> (r: Error)
        ensures
            r.spec_kind() == kind,
            r.spec_description() == description@,
    {
        Error { kind, description }
    }

    /// Returns the error's kind.
    pub fn kind(&self) -> (r: ErrorKind)
        ensures
            r == self.spec_kind(),
    {
        self.kind
    }

    /// Returns the description of what went wrong.
    pub fn description(&self) -> (r: &str)
        ensures
            r@ == self.spec_description(),
    {
        self.description.as_str()
    }

    /// Returns the text shown for the error: the name of its kind.
    pub fn to_string(&self) -> (r: String)
        ensures
            r@ == self.spec_kind().spec_name(),
    {
        let s = self.kind.as_str();
        s.to_string()
    }
}

} // verus!
