//! Replies: the dialog's outcome, the one terminal reply per request, and
//! the wire form of an error reply.

use vstd::prelude::*;

use crate::request::DecodeError;
use crate::value::MessageValue;

verus! {

/// Outcome of one native dialog interaction. A native call that failed to
/// show the dialog is folded into `Cancelled` deliberately: the caller
/// cannot tell the two apart and must not treat either as an error.
#[derive(Clone, Debug, PartialEq)]
pub enum DialogResult {
    /// The user chose a file at this path.
    Selected(String),
    /// The dialog was dismissed without a selection, or could not be shown.
    Cancelled,
}

/// The error taxonomy of the service. Each variant is terminal for its
/// request and is sent synchronously, before any dialog is shown.
#[derive(Clone, Copy, PartialEq, Eq, Structural, Debug)]
pub enum ErrorCode {
    /// The call's method name is not `showFileOpenDialog`.
    InvalidMethod,
    /// The call's arguments did not decode to a request.
    InvalidArgs(DecodeError),
    /// The request's window handle did not resolve.
    NoWindow,
}

/// The one terminal reply to one request: either a success value (a path, or
/// null for no selection) or a structured error.
#[derive(Debug, PartialEq)]
pub enum Reply {
    Success(MessageValue),
    Error(ErrorCode),
}

/// The reply a dialog outcome encodes to: always a success reply, carrying
/// the chosen path or null.
pub open spec fn spec_encode_dialog_reply(result: DialogResult) -> Reply {
    match result {
        DialogResult::Selected(path) => Reply::Success(MessageValue::Str(path)),
        DialogResult::Cancelled => Reply::Success(MessageValue::Null),
    }
}

/// Encodes a dialog outcome as its reply.
pub fn encode_dialog_reply(result: DialogResult) -> (r: Reply)
    ensures
        r == spec_encode_dialog_reply(result),
{
    match result {
        DialogResult::Selected(path) => Reply::Success(MessageValue::Str(path)),
        DialogResult::Cancelled => Reply::Success(MessageValue::Null),
    }
}

/// The wire code of an error reply.
pub open spec fn code_text(c: ErrorCode) -> Seq<char> {
    match c {
        ErrorCode::InvalidMethod => "invalid_method"@,
        ErrorCode::InvalidArgs(_) => "invalid_args"@,
        ErrorCode::NoWindow => "no_window"@,
    }
}

/// The human-readable message of an error reply.
pub open spec fn message_text(c: ErrorCode) -> Seq<char> {
    match c {
        ErrorCode::InvalidMethod => "Invalid method"@,
        ErrorCode::InvalidArgs(DecodeError::NotAMap) => "Arguments are not a map"@,
        ErrorCode::InvalidArgs(DecodeError::MissingParentWindow) => "Missing parentWindow argument"@,
        ErrorCode::InvalidArgs(DecodeError::WrongParentWindowType) => "parentWindow argument has the wrong type"@,
        ErrorCode::NoWindow => "Platform window not found"@,
    }
}

/// An error reply as it goes on the wire: a `(code, message, details)`
/// triple whose details are always empty.
pub struct EncodedError {
    pub code: String,
    pub message: String,
    pub details: MessageValue,
}

/// Encodes an error for the wire: its fixed code, its fixed message, and
/// empty details.
pub fn encode_error(c: ErrorCode) -> (r: EncodedError)
    ensures
        r.code@ == code_text(c),
        r.message@ == message_text(c),
        r.details is Null,
{
    let code: String = match c {
        ErrorCode::InvalidMethod => "invalid_method".to_owned(),
        ErrorCode::InvalidArgs(_) => "invalid_args".to_owned(),
        ErrorCode::NoWindow => "no_window".to_owned(),
    };
    let message: String = match c {
        ErrorCode::InvalidMethod => "Invalid method".to_owned(),
        ErrorCode::InvalidArgs(DecodeError::NotAMap) => "Arguments are not a map".to_owned(),
        ErrorCode::InvalidArgs(DecodeError::MissingParentWindow) => "Missing parentWindow argument".to_owned(),
        ErrorCode::InvalidArgs(DecodeError::WrongParentWindowType) => "parentWindow argument has the wrong type".to_owned(),
        ErrorCode::NoWindow => "Platform window not found".to_owned(),
    };
    EncodedError { code, message, details: MessageValue::Null }
}

} // verus!
