use vstd::prelude::*;
use vstd::string::*;

verus! {

/// Status code the cluster API reports when an object is absent.
pub const NOT_FOUND: u32 = 404;

/// Status code the cluster API reports when an object already exists.
pub const CONFLICT: u32 = 409;

/// The error taxonomy of the reconciliation engine.
///
/// `KubeError` carries the status code of a failed cluster API call;
/// `MissingObjectKey` names a required metadata field that was absent;
/// `FinalizerError` wraps the error of a reconcile step that ran under
/// the finalizer protocol.
#[derive(Debug, PartialEq)]
pub enum Error {
    KubeError(u32),
    SerializationError,
    MissingObjectKey(&'static str),
    EventError,
    FinalizerError(Box<Error>),
}

/// Human-readable description of an error, one clause per nesting level.
pub open spec fn error_message_view(e: Error) -> Seq<char>
    decreases e,
{
    match e {
        Error::KubeError(_) => "cluster API call failed"@,
        Error::SerializationError => "could not serialize resource"@,
        Error::MissingObjectKey(_) => "required object key is missing"@,
        Error::EventError => "could not record event"@,
        Error::FinalizerError(inner) => "finalizer step failed: "@ + error_message_view(*inner),
    }
}

impl Error {
    /// Render the error as text, for logs and for callers outside the library.
    pub fn message(&self) -> (r: String)
        ensures
            r@ == error_message_view(*self),
        decreases *self,
    {
        match self {
            Error::KubeError(_) => "cluster API call failed".to_owned(),
            Error::SerializationError => "could not serialize resource".to_owned(),
            Error::MissingObjectKey(_) => "required object key is missing".to_owned(),
            Error::EventError => "could not record event".to_owned(),
            Error::FinalizerError(inner) => {
                let mut s = "finalizer step failed: ".to_owned();
                s.append(inner.message().as_str());
                s
            },
        }
    }
}

} // verus!
