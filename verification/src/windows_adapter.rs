//! The Windows adapter's verifiable half: the fixed output buffer the native
//! open-file call fills, and the outcome read back from it.
//!
//! The native call itself (`GetOpenFileNameW`) blocks and pumps its own
//! message loop, so the service runs it only on a deferred run-loop turn; see
//! the service's dispatch contract.

use vstd::prelude::*;

use crate::reply::DialogResult;

verus! {

/// Capacity, in UTF-16 code units, of the buffer handed to the native call.
pub const FILE_NAME_BUFFER_LEN: usize = 4096;

/// The zero-filled output buffer for the native open-file parameter block.
pub fn make_file_name_buffer() -> (r: Vec<u16>)
    ensures
        r@.len() == FILE_NAME_BUFFER_LEN,
        forall|i: int| 0 <= i < r@.len() ==> r@[i] == 0u16,
{
    let mut v: Vec<u16> = Vec::new();
    let mut i: usize = 0;
    while i < FILE_NAME_BUFFER_LEN
        invariant
            i <= FILE_NAME_BUFFER_LEN,
            v@.len() == i,
            forall|j: int| 0 <= j < v@.len() ==> v@[j] == 0u16,
        decreases FILE_NAME_BUFFER_LEN - i,
    {
        v.push(0u16);
        i = i + 1;
    }
    v
}

/// The UTF-8 text that lossy UTF-16 decoding yields for these code units.
pub uninterp spec fn utf16_lossy_of(units: Seq<u16>) -> Seq<char>;

/// Relies on `widestring::U16Str::from_slice` and `U16Str::to_string_lossy`:
/// decodes the code units as UTF-16, replacing each invalid sequence with
/// U+FFFD; the result depends on the code units alone.
#[verifier::external_body]
fn utf16_to_string_lossy(units: &[u16]) -> (r: String)
    ensures
        r@ == utf16_lossy_of(units@),
{
    widestring::U16Str::from_slice(units).to_string_lossy()
}

/// Reads the native call's result back: when the call reports a selection,
/// the buffer decodes (lossily, as UTF-16) to the chosen path; when it
/// reports none — the user cancelled, or the call itself failed — the
/// outcome is `Cancelled`.
pub fn windows_dialog_outcome(call_succeeded: bool, buffer: &Vec<u16>) -> (r: DialogResult)
    ensures
        call_succeeded ==> (r matches DialogResult::Selected(path) && path@ == utf16_lossy_of(
            buffer@,
        )),
        !call_succeeded ==> r == DialogResult::Cancelled,
{
    if call_succeeded {
        DialogResult::Selected(utf16_to_string_lossy(buffer.as_slice()))
    } else {
        DialogResult::Cancelled
    }
}

} // verus!
