//! Error types reported by this crate.

use vstd::prelude::*;
use vstd::string::StringExecFns;

verus! {

/// Kinds of errors.
///
/// Every native return-code failure is converted at the wrapper boundary
/// into one of these kinds; none of them is retried automatically.
#[derive(Copy, Clone, PartialEq, Eq, Structural, Debug, Hash)]
pub enum ErrorKind {
    /// Configuration errors: a bad or missing configuration file path, a
    /// native configuration-read failure, or a macro string that contains
    /// forbidden bytes.
    Config,
    /// The one-time engine configuration was attempted more than once in
    /// the same process.
    AlreadyConfigured,
    /// The native engine rejected a proposed root directory for a
    /// transaction set.
    InvalidRootDir,
    /// A tagged value could not be decoded: the payload type did not match
    /// the declared one, data was missing where data was expected, or a
    /// string field was not valid UTF-8.
    Decode,
    /// Staging an element into a transaction set failed.
    TransactionElement,
    /// Committing a transaction set failed.
    RunFailure,
}

impl ErrorKind {
    /// Short description of this kind of error.
    pub open spec fn spec_describe(self) -> Seq<char> {
        match self {
            ErrorKind::Config => "configuration error"@,
            ErrorKind::AlreadyConfigured => "already configured"@,
            ErrorKind::InvalidRootDir => "invalid root directory"@,
            ErrorKind::Decode => "decode error"@,
            ErrorKind::TransactionElement => "transaction element error"@,
            ErrorKind::RunFailure => "transaction run failure"@,
        }
    }

    /// Short description of this kind of error.
    pub fn describe(self) -> (s: &'static str)
        ensures
            s@ == self.spec_describe(),
    {
        match self {
            ErrorKind::Config => "configuration error",
            ErrorKind::AlreadyConfigured => "already configured",
            ErrorKind::InvalidRootDir => "invalid root directory",
            ErrorKind::Decode => "decode error",
            ErrorKind::TransactionElement => "transaction element error",
            ErrorKind::RunFailure => "transaction run failure",
        }
    }
}

/// An error: a kind together with an optional description message.
#[derive(Debug)]
pub struct Error {
    kind: ErrorKind,
    msg: Option<String>,
}

impl Error {
    /// The kind of this error.
    pub closed spec fn spec_kind(self) -> ErrorKind {
        self.kind
    }

    /// The message of this error, if any, as a sequence of characters.
    pub closed spec fn spec_msg(self) -> Option<Seq<char>> {
        match self.msg {
            Some(m) => Some(m@),
            None => None,
        }
    }

    /// Create a new error of the given kind with an optional message.
    pub fn new(kind: ErrorKind, msg: Option<String>) -> (e: Error)
        ensures
            e.spec_kind() == kind,
            e.spec_msg() == (match msg {
                Some(m) => Some::<Seq<char>>(m@),
                None => None::<Seq<char>>,
            }),
    {
        Error { kind, msg }
    }

    /// Obtain the inner `ErrorKind` of this error.
    pub fn kind(&self) -> (k: ErrorKind)
        ensures
            k == self.spec_kind(),
    {
        self.kind
    }

    /// Render this error as text: the kind's description, followed by the
    /// message when one is present, separated by `": "`.
    pub fn message(&self) -> (s: String)
        ensures
            s@ == (match self.spec_msg() {
                Some(m) => self.spec_kind().spec_describe() + ": "@ + m,
                None => self.spec_kind().spec_describe(),
            }),
    {
        let mut s = String::from_str(self.kind.describe());
        match &self.msg {
            Some(m) => {
                s.append(": ");
                s.append(m.as_str());
                s
            },
            None => s,
        }
    }
}

impl From<ErrorKind> for Error {
    /// An error of the given kind with no message.
    fn from(kind: ErrorKind) -> (e: Error) {
        Error { kind, msg: None }
    }
}

impl vstd::std_specs::convert::FromSpecImpl<ErrorKind> for Error {
    open spec fn obeys_from_spec() -> bool {
        true
    }

    closed spec fn from_spec(kind: ErrorKind) -> Error {
        Error { kind, msg: None }
    }
}

/// What `Error::from` builds out of a bare kind: an error of that kind,
/// with no message.
pub proof fn lemma_error_from_kind(kind: ErrorKind)
    ensures
        <Error as vstd::std_specs::convert::FromSpec<ErrorKind>>::from_spec(kind).spec_kind()
            == kind,
        <Error as vstd::std_specs::convert::FromSpec<ErrorKind>>::from_spec(kind).spec_msg()
            is None,
{
}

} // verus!
