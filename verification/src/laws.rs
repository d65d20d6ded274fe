//! The service's laws, each proved over the dispatch and reply
//! specifications.

use vstd::prelude::*;

use crate::linux_adapter::spec_linux_outcome;
use crate::reply::DialogResult;
use crate::reply::ErrorCode;
use crate::reply::Reply;
use crate::reply::spec_encode_dialog_reply;
use crate::request::spec_decode_request;
use crate::resolver::NativeWindow;
use crate::resolver::WindowHandle;
use crate::resolver::spec_resolve;
use crate::service::CallOutcome;
use crate::service::Delivery;
use crate::service::method_name;
use crate::service::spec_deliver;
use crate::service::spec_destroy;
use crate::service::spec_handle_call;
use crate::service::spec_run_next;
use crate::value::MessageValue;

verus! {

/// Law: a `showFileOpenDialog` call whose payload does not decode — it is
/// not a map, lacks `parentWindow`, or carries one of the wrong type — is
/// rejected with exactly that argument error, and no dialog task is created.
pub proof fn lemma_bad_payload_rejected(
    resolver: Seq<(WindowHandle, NativeWindow)>,
    args: MessageValue,
)
    ensures
        spec_decode_request(args) matches Err(e) ==> spec_handle_call(resolver, method_name(), args)
            == CallOutcome::Reject(ErrorCode::InvalidArgs(e)),
{
}

/// Law: a call under any method name other than `showFileOpenDialog` is
/// rejected as `invalid_method`, whatever its payload, and no dialog task is
/// created.
pub proof fn lemma_unknown_method_rejected(
    resolver: Seq<(WindowHandle, NativeWindow)>,
    method: Seq<char>,
    args: MessageValue,
)
    requires
        method != method_name(),
    ensures
        spec_handle_call(resolver, method, args) == CallOutcome::Reject(ErrorCode::InvalidMethod),
{
}

/// Law: a well-formed request whose window handle the resolver does not know
/// is rejected as `no_window`, and no dialog task is created.
pub proof fn lemma_unresolved_window_rejected(
    resolver: Seq<(WindowHandle, NativeWindow)>,
    args: MessageValue,
)
    ensures
        (spec_decode_request(args) matches Ok(req) && spec_resolve(resolver, req.parent_window)
            is None) ==> spec_handle_call(resolver, method_name(), args) == CallOutcome::Reject(
            ErrorCode::NoWindow,
        ),
{
}

/// Law: exactly one reply per request. Delivering a call to the live,
/// registered service either sends one reply on the delivering turn, or
/// defers exactly one dialog task and sends nothing; running a deferred task
/// sends exactly one reply. Either way the request ends with exactly one new
/// reply, and every earlier reply is untouched.
pub proof fn lemma_one_reply_per_request(
    w: crate::service::WorldView,
    method: Seq<char>,
    args: MessageValue,
    result: DialogResult,
)
    requires
        w.handler is Some,
        w.live == w.handler,
    ensures
        ({
            let (w1, d) = spec_deliver(w, method, args);
            let w2 = if w1.pending.len() > w.pending.len() {
                spec_run_next(w1, result)
            } else {
                w1
            };
            &&& d == Delivery::Handled
            &&& w2.replies.len() == w.replies.len() + 1
            &&& w2.pending.len() == w.pending.len()
            &&& forall|i: int| 0 <= i < w.replies.len() ==> w2.replies[i] == w.replies[i]
        }),
{
    let (w1, d) = spec_deliver(w, method, args);
    match spec_handle_call(w.resolver, method, args) {
        CallOutcome::Reject(c) => {
            assert(w1.replies == w.replies.push(Reply::Error(c)));
        },
        CallOutcome::ShowDialog(p) => {
            let w2 = spec_run_next(w1, result);
            assert(w1.pending == w.pending.push(p));
            assert(w2.pending.len() == w.pending.len());
        },
    }
}

/// Law: the dialog never runs on the dispatching turn. When dispatch accepts
/// a request, the delivering turn sends no reply and only appends the
/// request's dialog task to the run loop's queue; the dialog's outcome is
/// consumed on the later turn that runs the task.
pub proof fn lemma_dialog_is_deferred(
    w: crate::service::WorldView,
    method: Seq<char>,
    args: MessageValue,
)
    requires
        w.handler is Some,
        w.live == w.handler,
    ensures
        spec_handle_call(w.resolver, method, args) matches CallOutcome::ShowDialog(p) ==> {
            let w1 = spec_deliver(w, method, args).0;
            &&& w1.replies == w.replies
            &&& w1.pending == w.pending.push(p)
        },
{
}

/// Law: a cancelled dialog — including a native call that failed outright,
/// and an accepting close with no selection — is answered with a success
/// reply carrying the null value; no dialog outcome ever produces an error
/// reply. The Windows adapter's contract folds its failed native call into
/// `Cancelled` the same way.
pub proof fn lemma_cancelled_dialog_replies_null(
    result: DialogResult,
    response_ok: bool,
    filename: Option<String>,
)
    ensures
        spec_encode_dialog_reply(DialogResult::Cancelled) == Reply::Success(MessageValue::Null),
        spec_encode_dialog_reply(result) is Success,
        !(response_ok && filename is Some) ==> spec_linux_outcome(response_ok, filename)
            == DialogResult::Cancelled,
{
}

/// Law: destroying the service unregisters the channel handler, and a call
/// arriving afterwards is refused by the transport: it is not delivered and
/// the world does not change. A handler whose service is gone without
/// unregistration is likewise a silent no-op.
pub proof fn lemma_destroyed_service_gets_no_calls(
    w: crate::service::WorldView,
    method: Seq<char>,
    args: MessageValue,
)
    ensures
        spec_destroy(w).handler is None,
        spec_deliver(spec_destroy(w), method, args).0 == spec_destroy(w),
        spec_deliver(spec_destroy(w), method, args).1 == Delivery::NotDelivered,
        (w.handler is Some && w.live != w.handler) ==> spec_deliver(w, method, args) == (
            w,
            Delivery::HandlerGone,
        ),
{
}

} // verus!
