use vstd::prelude::*;

verus! {

/// The cause of a failed request.
#[derive(Clone, Copy, Debug, PartialEq, Eq, Structural)]
pub enum ErrorKind {
    /// The request itself is malformed: a field without a name, a missing or
    /// badly shaped filename, an extension that is not accepted, or fields
    /// in the wrong order.
    Validation,
    /// A directory or file could not be created, read, written or renamed.
    Io,
    /// The staged bytes are not an image that can be decoded or encoded.
    Decode,
    /// The crop rectangle does not lie inside the source image.
    Geometry,
}

/// The one status that every failure is reported with. Causes are told
/// apart by the message, not by the status.
pub const FAILURE_STATUS: u16 = 500;

/// A failure of the pipeline: its cause and a message for the caller.
#[derive(Clone, Debug)]
pub struct Error {
    pub kind: ErrorKind,
    pub message: String,
}

/// The body of a failure response.
#[derive(Clone, Debug)]
pub struct ErrorResponse {
    pub status: u16,
    pub message: String,
}

impl Error {
    /// An error of the given kind carrying `message`.
    pub fn new(kind: ErrorKind, message: &str) -> (e: Error)
        ensures
            e.kind == kind,
            e.message@ == message@,
    {
        Error { kind, message: message.to_owned() }
    }

    /// The status the failure is reported with: the same for every kind.
    pub fn get_status(&self) -> (status: u16)
        ensures
            status == FAILURE_STATUS,
    {
        FAILURE_STATUS
    }

    /// A copy of the message.
    pub fn get_message(&self) -> (message: String)
        ensures
            message@ == self.message@,
    {
        self.message.clone()
    }

    /// The cause of the failure.
    pub fn get_kind(&self) -> (kind: ErrorKind)
        ensures
            kind == self.kind,
    {
        self.kind
    }

    /// The response body for this failure: its status and its message.
    pub fn response(&self) -> (body: ErrorResponse)
        ensures
            body.status == FAILURE_STATUS,
            body.message@ == self.message@,
    {
        ErrorResponse { status: self.get_status(), message: self.get_message() }
    }
}

} // verus!
