//! The Linux adapter's verifiable half: the outcome read back from the
//! GTK-style modal file chooser.
//!
//! Running the chooser starts a nested main loop, so the service runs it
//! only on a deferred run-loop turn; see the service's dispatch contract.

use vstd::prelude::*;

use crate::reply::DialogResult;

verus! {

/// The outcome the chooser's response and selection decode to: the path
/// exactly when the response was the accepting one and a file was selected;
/// `Cancelled` for any other response, or an accepting response with no
/// selection.
pub open spec fn spec_linux_outcome(response_ok: bool, filename: Option<String>) -> DialogResult {
    if response_ok {
        match filename {
            Some(path) => DialogResult::Selected(path),
            None => DialogResult::Cancelled,
        }
    } else {
        DialogResult::Cancelled
    }
}

/// Reads the chooser's result back once its nested run ends: `response_ok`
/// says whether the accepting button closed it, `filename` is the selection
/// it reported.
pub fn linux_dialog_outcome(response_ok: bool, filename: Option<String>) -> (r: DialogResult)
    ensures
        r == spec_linux_outcome(response_ok, filename),
{
    if response_ok {
        match filename {
            Some(path) => DialogResult::Selected(path),
            None => DialogResult::Cancelled,
        }
    } else {
        DialogResult::Cancelled
    }
}

} // verus!
