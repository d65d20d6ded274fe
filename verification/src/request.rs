//! Decoding a `showFileOpenDialog` request from its raw arguments.

use vstd::prelude::*;

use crate::resolver::WindowHandle;
use crate::value::MessageValue;
use crate::value::find_key;
use crate::value::lookup_key;

verus! {

/// A decoded request: show the open-file dialog owned by `parent_window`.
#[derive(Clone, Copy, PartialEq, Eq, Structural, Debug)]
pub struct FileOpenRequest {
    pub parent_window: WindowHandle,
}

/// Why a request payload could not be decoded.
#[derive(Clone, Copy, PartialEq, Eq, Structural, Debug)]
pub enum DecodeError {
    /// The arguments were not a map.
    NotAMap,
    /// The map has no `parentWindow` entry.
    MissingParentWindow,
    /// The `parentWindow` entry is not an integer handle.
    WrongParentWindowType,
}

/// The one argument key a request must carry.
pub open spec fn parent_window_key() -> Seq<char> {
    "parentWindow"@
}

/// What decoding yields for any raw argument value: the request exactly when
/// `args` is a map whose first `parentWindow` entry is an integer handle, and
/// the precise decode error otherwise.
pub open spec fn spec_decode_request(args: MessageValue) -> Result<FileOpenRequest, DecodeError> {
    match args {
        MessageValue::Dict(entries) => match find_key(entries@, parent_window_key()) {
            Some(MessageValue::I64(n)) => Ok(FileOpenRequest { parent_window: WindowHandle(n) }),
            Some(_) => Err(DecodeError::WrongParentWindowType),
            None => Err(DecodeError::MissingParentWindow),
        },
        _ => Err(DecodeError::NotAMap),
    }
}

/// Decodes raw call arguments into a `FileOpenRequest`. Decoding is total:
/// a malformed payload is reported as a `DecodeError`, never a fault.
pub fn decode_request(args: &MessageValue) -> (r: Result<FileOpenRequest, DecodeError>)
    ensures
        r == spec_decode_request(*args),
{
    match args {
        MessageValue::Dict(entries) => match lookup_key(entries, "parentWindow") {
            Some(MessageValue::I64(n)) => Ok(FileOpenRequest { parent_window: WindowHandle(*n) }),
            Some(_) => Err(DecodeError::WrongParentWindowType),
            None => Err(DecodeError::MissingParentWindow),
        },
        _ => Err(DecodeError::NotAMap),
    }
}

} // verus!
