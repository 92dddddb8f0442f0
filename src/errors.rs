use crate::parser::ViewIdError;
use vstd::prelude::*;

verus! {

/// The kinds of workspace errors raised by this library.
#[derive(Clone, Copy, Debug, PartialEq, Eq, Structural)]
pub enum ErrorCode {
    /// An identifier of a view is malformed, or there are not as many as asked for.
    ViewIdInvalid,
}

/// A workspace error: its kind, a message, and the failure that caused it, if any.
#[derive(Debug)]
pub struct WorkspaceError {
    pub code: ErrorCode,
    pub msg: String,
    pub cause: Option<ViewIdError>,
}

/// The mathematical value of a `WorkspaceError`.
pub struct ErrorModel {
    pub code: ErrorCode,
    pub msg: Seq<char>,
    pub cause: Option<ViewIdError>,
}

impl View for WorkspaceError {
    type V = ErrorModel;

    open spec fn view(&self) -> ErrorModel {
        ErrorModel { code: self.code, msg: self.msg@, cause: self.cause }
    }
}

impl WorkspaceError {
    /// A bare "invalid view identifier" error, with no message and no cause yet.
    pub fn invalid_view_id() -> (e: WorkspaceError)
        ensures
            e@ == (ErrorModel { code: ErrorCode::ViewIdInvalid, msg: Seq::empty(), cause: None }),
    {
        WorkspaceError { code: ErrorCode::ViewIdInvalid, msg: String::new(), cause: None }
    }

    /// Attaches a descriptive message; the kind and the cause are kept.
    pub fn context(self, msg: String) -> (e: WorkspaceError)
        ensures
            e@ == (ErrorModel { msg: msg@, ..self@ }),
    {
        WorkspaceError { msg, ..self }
    }

    /// Wraps `cause` as the origin of this error, with its description as the message;
    /// the kind is kept.
    pub fn caused_by(self, cause: ViewIdError) -> (e: WorkspaceError)
        ensures
            e@ == (ErrorModel { msg: cause.message_spec(), cause: Some(cause), ..self@ }),
    {
        WorkspaceError { msg: cause.message(), cause: Some(cause), ..self }
    }
}

} // verus!
