//! The call envelope shared by local and remote dispatch, and how the fate
//! of a delivered call turns into the caller's result.

use vstd::prelude::*;
use tokio::sync::oneshot;

verus! {

/// tokio's single-use reply sender, carried opaquely.
#[verifier::external_type_specification]
#[verifier::external_body]
#[verifier::reject_recursive_types(T)]
pub struct ExOneshotSender<T>(oneshot::Sender<T>);

/// tokio's single-use reply receiver, carried opaquely.
#[verifier::external_type_specification]
#[verifier::external_body]
#[verifier::reject_recursive_types(T)]
pub struct ExOneshotReceiver<T>(oneshot::Receiver<T>);

/// The error a reply receiver yields when its sender is dropped.
#[verifier::external_type_specification]
#[verifier::external_body]
pub struct ExOneshotRecvError(oneshot::error::RecvError);

/// The value carried across mesh calls; the router never looks inside.
#[derive(Debug, Clone, PartialEq)]
pub enum Payload {
    Json(String),
    Binary(Vec<u8>),
}

/// What a target sends back: its result, or the text of its error.
pub type Reply = Result<Payload, String>;

/// One in-flight call, with the single-use slot for its reply.
pub struct MeshMessage {
    pub target: String,
    pub method: String,
    pub payload: Payload,
    pub reply_tx: oneshot::Sender<Reply>,
}

/// Relies on tokio::sync::oneshot::channel: a linked single-use sender and
/// receiver.
#[verifier::external_body]
fn reply_channel() -> (r: (oneshot::Sender<Reply>, oneshot::Receiver<Reply>)) {
    oneshot::channel()
}

/// Relies on tokio::sync::oneshot::Sender::send: consumes the sender, so at
/// most one reply goes into a slot; `false` when the receiver is gone.
#[verifier::external_body]
fn send_reply(tx: oneshot::Sender<Reply>, reply: Reply) -> (r: bool) {
    tx.send(reply).is_ok()
}

impl MeshMessage {
    /// A call of `method` on `target` with `payload`, and the handle on
    /// which its reply will arrive.
    pub fn new(target: String, method: String, payload: Payload) -> (r: (
        MeshMessage,
        oneshot::Receiver<Reply>,
    ))
        ensures
            r.0.target == target,
            r.0.method == method,
            r.0.payload == payload,
    {
        let (reply_tx, reply_rx) = reply_channel();
        (MeshMessage { target, method, payload, reply_tx }, reply_rx)
    }

    /// Sends the one reply of this call; the message is consumed, so no
    /// second reply can follow. `false` when the caller no longer waits.
    pub fn respond(self, reply: Reply) -> (r: bool) {
        send_reply(self.reply_tx, reply)
    }
}

/// Failures of routing and delivering a call.
#[derive(Debug, Clone, PartialEq)]
pub enum MeshError {
    /// No component of that id, locally or in the cluster.
    TargetNotFound(String),
    /// The target's inbound channel is closed.
    TargetUnavailable(String),
    /// The target dropped the reply slot without replying.
    ReplyDropped(String),
    /// The target replied with an error.
    TargetFailed { target: String, message: String },
    /// The cluster transport failed.
    Transport { target: String, message: String },
}

/// What became of a call after routing: the channel refused it, the reply
/// slot was dropped unanswered, or a reply came back.
pub enum Delivery {
    Rejected,
    Dropped,
    Replied(Reply),
}

/// The caller's result for a call to `target` whose delivery went as `d`.
pub open spec fn outcome_of(target: String, d: Delivery) -> Result<Payload, MeshError> {
    match d {
        Delivery::Rejected => Err(MeshError::TargetUnavailable(target)),
        Delivery::Dropped => Err(MeshError::ReplyDropped(target)),
        Delivery::Replied(Ok(p)) => Ok(p),
        Delivery::Replied(Err(e)) => Err(MeshError::TargetFailed { target, message: e }),
    }
}

/// Turns the fate of a delivered call into the caller's result: the exact
/// reply on success, an error in every other case.
pub fn call_outcome(target: String, d: Delivery) -> (r: Result<Payload, MeshError>)
    ensures
        r == outcome_of(target, d),
{
    match d {
        Delivery::Rejected => Err(MeshError::TargetUnavailable(target)),
        Delivery::Dropped => Err(MeshError::ReplyDropped(target)),
        Delivery::Replied(Ok(p)) => Ok(p),
        Delivery::Replied(Err(e)) => Err(MeshError::TargetFailed { target, message: e }),
    }
}

/// The caller's result for a remote call to `target` whose transport
/// returned `r`.
pub fn remote_outcome(target: String, r: Result<Payload, String>) -> (out: Result<Payload, MeshError>)
    ensures
        match r {
            Ok(p) => out == Ok::<Payload, MeshError>(p),
            Err(e) => out == Err::<Payload, MeshError>(MeshError::Transport { target, message: e }),
        },
{
    match r {
        Ok(p) => Ok(p),
        Err(e) => Err(MeshError::Transport { target, message: e }),
    }
}

/// Every delivery resolves: a dropped reply slot is an error for the caller,
/// never a wait.
pub proof fn dropped_reply_is_error(target: String)
    ensures
        outcome_of(target, Delivery::Dropped) is Err,
{
}

} // verus!
