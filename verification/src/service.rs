//! The dialog service: channel registration and teardown, request dispatch,
//! and the two-phase request pipeline (dispatch-time validation and
//! resolution, then the deferred dialog turn).

use vstd::prelude::*;

use crate::reply::DialogResult;
use crate::reply::ErrorCode;
use crate::reply::Reply;
use crate::reply::spec_encode_dialog_reply;
use crate::reply::encode_dialog_reply;
use crate::request::spec_decode_request;
use crate::request::decode_request;
use crate::resolver::NativeWindow;
use crate::resolver::WindowHandle;
use crate::resolver::WindowResolver;
use crate::resolver::spec_resolve;
use crate::value::MessageValue;

verus! {

/// The channel the service registers itself on.
pub open spec fn channel_name() -> Seq<char> {
    "file_open_dialog_channel"@
}

/// The one method name the service recognizes.
pub open spec fn method_name() -> Seq<char> {
    "showFileOpenDialog"@
}

/// The channel name as a value.
pub fn channel_name_str() -> (r: String)
    ensures
        r@ == channel_name(),
{
    "file_open_dialog_channel".to_owned()
}

/// A dialog task deferred to a later run-loop turn: show the open-file
/// dialog owned by this native window.
#[derive(Clone, Copy, PartialEq, Eq, Structural, Debug)]
pub struct PendingDialog {
    pub window: NativeWindow,
}

/// What dispatching one call decides: reject it with a synchronous error
/// reply, or defer exactly one dialog task.
#[derive(Clone, Copy, PartialEq, Eq, Structural, Debug)]
pub enum CallOutcome {
    Reject(ErrorCode),
    ShowDialog(PendingDialog),
}

/// The dispatch decision for any call: `invalid_method` for every method
/// name but `showFileOpenDialog`; the exact decode error for a payload that
/// is not a well-typed request; `no_window` for a handle the resolver does
/// not know; otherwise one deferred dialog task owned by the resolved
/// window.
pub open spec fn spec_handle_call(
    resolver: Seq<(WindowHandle, NativeWindow)>,
    method: Seq<char>,
    args: MessageValue,
) -> CallOutcome {
    if method != method_name() {
        CallOutcome::Reject(ErrorCode::InvalidMethod)
    } else {
        match spec_decode_request(args) {
            Err(e) => CallOutcome::Reject(ErrorCode::InvalidArgs(e)),
            Ok(req) => match spec_resolve(resolver, req.parent_window) {
                None => CallOutcome::Reject(ErrorCode::NoWindow),
                Some(w) => CallOutcome::ShowDialog(PendingDialog { window: w }),
            },
        }
    }
}

/// Dispatches one inbound call: validates the method name, decodes the
/// request, resolves its window. The dialog itself is never part of this
/// step; a successful dispatch only names the task to defer.
pub fn handle_call(resolver: &WindowResolver, method: &str, args: &MessageValue) -> (r:
    CallOutcome)
    ensures
        r == spec_handle_call(resolver.entries@, method@, *args),
{
    let m: String = method.to_owned();
    let wanted: String = "showFileOpenDialog".to_owned();
    if !(m == wanted) {
        return CallOutcome::Reject(ErrorCode::InvalidMethod);
    }
    match decode_request(args) {
        Err(e) => CallOutcome::Reject(ErrorCode::InvalidArgs(e)),
        Ok(req) => match resolver.lookup(req.parent_window) {
            None => CallOutcome::Reject(ErrorCode::NoWindow),
            Some(w) => CallOutcome::ShowDialog(PendingDialog { window: w }),
        },
    }
}

/// One host process as the service observes it: the channel registry's slot
/// for the dialog channel, the currently live service, the window
/// resolver's table, the run loop's deferred dialog tasks, and every reply
/// sent so far.
pub struct DialogWorld {
    /// The service id the registry holds a handler for, if any. The handler
    /// keeps only this id — a weak reference — never the service itself.
    pub handler: Option<u64>,
    /// The id of the live service, if one exists.
    pub live: Option<u64>,
    pub resolver: WindowResolver,
    pub pending: Vec<PendingDialog>,
    pub replies: Vec<Reply>,
}

/// A `DialogWorld` in specification form.
#[verifier::ext_equal]
pub ghost struct WorldView {
    pub handler: Option<u64>,
    pub live: Option<u64>,
    pub resolver: Seq<(WindowHandle, NativeWindow)>,
    pub pending: Seq<PendingDialog>,
    pub replies: Seq<Reply>,
}

impl View for DialogWorld {
    type V = WorldView;

    open spec fn view(&self) -> WorldView {
        WorldView {
            handler: self.handler,
            live: self.live,
            resolver: self.resolver.entries@,
            pending: self.pending@,
            replies: self.replies@,
        }
    }
}

/// How the transport disposed of one inbound call.
#[derive(Clone, Copy, PartialEq, Eq, Structural, Debug)]
pub enum Delivery {
    /// No handler is registered on the channel: the transport refuses the
    /// call.
    NotDelivered,
    /// A handler is registered, but its service is gone: the handler's
    /// liveness check fails and it silently does nothing.
    HandlerGone,
    /// The live service handled the call.
    Handled,
}

/// What delivering one call does to the world, and how it is disposed of.
/// A handled call gains exactly one error reply, or exactly one deferred
/// task — never both, and never a dialog on the delivering turn.
pub open spec fn spec_deliver(w: WorldView, method: Seq<char>, args: MessageValue) -> (
    WorldView,
    Delivery,
) {
    if w.handler is None {
        (w, Delivery::NotDelivered)
    } else if w.live != w.handler {
        (w, Delivery::HandlerGone)
    } else {
        match spec_handle_call(w.resolver, method, args) {
            CallOutcome::Reject(c) => (
                WorldView { replies: w.replies.push(Reply::Error(c)), ..w },
                Delivery::Handled,
            ),
            CallOutcome::ShowDialog(p) => (
                WorldView { pending: w.pending.push(p), ..w },
                Delivery::Handled,
            ),
        }
    }
}

/// Delivers one raw call from the transport: refused when no handler is
/// registered, a silent no-op when the registered service is gone, and
/// otherwise dispatched by the live service.
pub fn deliver_call(world: &mut DialogWorld, method: &str, args: &MessageValue) -> (d: Delivery)
    ensures
        final(world)@ == spec_deliver(old(world)@, method@, *args).0,
        d == spec_deliver(old(world)@, method@, *args).1,
{
    let registered: u64 = match world.handler {
        None => {
            return Delivery::NotDelivered;
        },
        Some(id) => id,
    };
    let upgraded: bool = match world.live {
        Some(id) => id == registered,
        None => false,
    };
    if !upgraded {
        return Delivery::HandlerGone;
    }
    match handle_call(&world.resolver, method, args) {
        CallOutcome::Reject(c) => {
            world.replies.push(Reply::Error(c));
        },
        CallOutcome::ShowDialog(p) => {
            world.pending.push(p);
        },
    }
    proof {
        assert(world@ =~= spec_deliver(old(world)@, method@, *args).0);
    }
    Delivery::Handled
}

/// What one deferred run-loop turn does to the world: the oldest pending
/// dialog task is taken, its dialog runs to the given outcome, and exactly
/// one success reply is sent.
pub open spec fn spec_run_next(w: WorldView, result: DialogResult) -> WorldView
    recommends
        w.pending.len() > 0,
{
    WorldView {
        pending: w.pending.drop_first(),
        replies: w.replies.push(spec_encode_dialog_reply(result)),
        ..w
    }
}

/// Runs the oldest deferred dialog task. The native dialog's outcome —
/// produced by the platform adapter on this same turn — is `result`; the
/// task, with the window that owned the dialog, is returned so the caller
/// can hand it to the adapter. Exactly one reply is sent, whatever the
/// outcome.
pub fn run_next_pending(world: &mut DialogWorld, result: DialogResult) -> (p: PendingDialog)
    requires
        old(world).pending@.len() > 0,
    ensures
        final(world)@ == spec_run_next(old(world)@, result),
        p == old(world).pending@[0],
{
    let p = world.pending.remove(0);
    let r = encode_dialog_reply(result);
    world.replies.push(r);
    proof {
        assert(old(world).pending@.remove(0) =~= old(world).pending@.drop_first());
        assert(world@ =~= spec_run_next(old(world)@, result));
    }
    p
}

/// The dialog service's handle: the id under which its channel handler is
/// registered.
#[derive(Clone, Copy, PartialEq, Eq, Structural, Debug)]
pub struct FileOpenDialogService {
    pub id: u64,
}

/// What creating the service does to the world: one registry mutation,
/// binding the channel to the new service's id, and nothing else.
pub open spec fn spec_create(w: WorldView, id: u64) -> WorldView {
    WorldView { handler: Some(id), live: Some(id), ..w }
}

/// What destroying the service does to the world: one registry mutation,
/// clearing the channel's handler, and the service itself is gone. Pending
/// tasks and past replies are untouched: a request already deferred still
/// completes.
pub open spec fn spec_destroy(w: WorldView) -> WorldView {
    WorldView { handler: None, live: None, ..w }
}

impl FileOpenDialogService {
    /// Creates the service under the fresh id `id` and registers its handler
    /// on the channel. The registered handler holds only the id, so the
    /// registry never keeps the service alive.
    pub fn new(world: &mut DialogWorld, id: u64) -> (s: FileOpenDialogService)
        requires
            old(world).live is None,
        ensures
            final(world)@ == spec_create(old(world)@, id),
            s.id == id,
    {
        world.handler = Some(id);
        world.live = Some(id);
        proof {
            assert(world@ =~= spec_create(old(world)@, id));
        }
        FileOpenDialogService { id }
    }

    /// Destroys the service: unregisters the channel handler and ends the
    /// service's life. Calls arriving afterwards are refused by the
    /// transport itself.
    pub fn destroy(self, world: &mut DialogWorld)
        requires
            old(world).live == Some(self.id),
        ensures
            final(world)@ == spec_destroy(old(world)@),
    {
        world.handler = None;
        world.live = None;
        proof {
            assert(world@ =~= spec_destroy(old(world)@));
        }
    }
}

} // verus!
