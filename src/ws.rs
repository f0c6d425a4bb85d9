//! Fan-out of state-change notifications to observers. Each subscriber has
//! its own bounded queue in the channel; a subscriber that falls behind
//! loses its oldest unread messages, and nobody else is affected.

use vstd::prelude::*;
use tokio::sync::broadcast;

verus! {

/// tokio's broadcast sending half, carried opaquely.
#[verifier::external_type_specification]
#[verifier::external_body]
#[verifier::reject_recursive_types(T)]
pub struct ExBroadcastSender<T>(tokio::sync::broadcast::Sender<T>);

/// tokio's broadcast receiving half, carried opaquely.
#[verifier::external_type_specification]
#[verifier::external_body]
#[verifier::reject_recursive_types(T)]
pub struct ExBroadcastReceiver<T>(tokio::sync::broadcast::Receiver<T>);

/// Relies on tokio::sync::broadcast::Sender's `Clone`: another handle that
/// sends into the same channel.
pub assume_specification<T>[ <tokio::sync::broadcast::Sender<T> as Clone>::clone ](
    s: &tokio::sync::broadcast::Sender<T>,
) -> tokio::sync::broadcast::Sender<T>;

/// Messages each subscriber's queue holds before it starts to lag.
pub const BROADCAST_CAPACITY: usize = 256;

/// A content patch; its contents mean nothing to the broadcaster.
#[derive(Debug, Clone, PartialEq)]
pub struct WsPatch {
    pub path: String,
    pub content: String,
}

/// What observers receive.
#[derive(Debug, Clone, PartialEq)]
pub enum BroadcastMessage {
    Patch(WsPatch),
    Shutdown,
}

#[derive(Debug, Clone, Copy, PartialEq, Eq, Structural)]
pub enum WsError {
    /// Every sender is gone; nothing more will arrive.
    ChannelClosed,
}

/// One attempt to take a message from a subscriber's queue.
pub enum RecvEvent {
    Message(BroadcastMessage),
    Empty,
    Closed,
    /// The subscriber fell behind and this many messages were dropped for it.
    Lagged(u64),
}

/// Relies on tokio::sync::broadcast::channel, which panics when the
/// capacity is zero or above `usize::MAX / 2`. The receiver it also returns
/// is dropped at once, so the channel starts without subscribers.
#[verifier::external_body]
fn open_channel(capacity: usize) -> (r: broadcast::Sender<BroadcastMessage>)
    requires
        0 < capacity <= usize::MAX / 2,
{
    broadcast::channel(capacity).0
}

/// Relies on tokio::sync::broadcast::Sender::subscribe: a receiver of every
/// message sent after this call. It panics only at `usize::MAX / 4` live
/// receivers, a count that memory cannot hold.
#[verifier::external_body]
fn subscribe_to(sender: &broadcast::Sender<BroadcastMessage>) -> (r: broadcast::Receiver<BroadcastMessage>) {
    sender.subscribe()
}

/// Relies on tokio::sync::broadcast::Sender::send: with at least one live
/// receiver it returns how many there are; with none it hands the message
/// back, here `None`.
#[verifier::external_body]
fn send_to(sender: &broadcast::Sender<BroadcastMessage>, message: BroadcastMessage) -> (r: Option<usize>)
    ensures
        r matches Some(n) ==> n > 0,
{
    sender.send(message).ok()
}

/// Relies on tokio::sync::broadcast::Sender::receiver_count: the number of
/// receivers of the channel not yet dropped, on any handle of it.
#[verifier::external_body]
fn live_receivers(sender: &broadcast::Sender<BroadcastMessage>) -> (r: usize) {
    sender.receiver_count()
}

/// Relies on tokio::sync::broadcast::Receiver::try_recv: the next queued
/// message, or why there is none, without waiting.
#[verifier::external_body]
fn try_recv_from(receiver: &mut broadcast::Receiver<BroadcastMessage>) -> (r: RecvEvent) {
    match receiver.try_recv() {
        Ok(m) => RecvEvent::Message(m),
        Err(broadcast::error::TryRecvError::Empty) => RecvEvent::Empty,
        Err(broadcast::error::TryRecvError::Closed) => RecvEvent::Closed,
        Err(broadcast::error::TryRecvError::Lagged(n)) => RecvEvent::Lagged(n),
    }
}

/// Publishes notifications to every live subscriber. Clones publish into
/// the same channel and see the same subscribers.
pub struct Broadcaster {
    sender: broadcast::Sender<BroadcastMessage>,
    sent: Ghost<Seq<BroadcastMessage>>,
}

impl Broadcaster {
    /// The messages this handle has handed to the channel, oldest first.
    pub closed spec fn sent(&self) -> Seq<BroadcastMessage> {
        self.sent@
    }

    pub fn new() -> (r: Broadcaster)
        ensures
            r.sent() == Seq::<BroadcastMessage>::empty(),
    {
        Broadcaster { sender: open_channel(BROADCAST_CAPACITY), sent: Ghost(Seq::empty()) }
    }

    /// A new subscriber, which receives every message broadcast from now
    /// on. It counts as live until it is dropped, on whatever path that is.
    pub fn subscribe(&self) -> (r: BroadcastReceiver)
        ensures
            r.skipped() == 0,
    {
        BroadcastReceiver { inner: subscribe_to(&self.sender), skipped: 0 }
    }

    /// Hands `message` to the channel, which queues it for every live
    /// subscriber. Having none is no fault: the result is always `Ok`.
    pub fn broadcast(&mut self, message: BroadcastMessage) -> (r: Result<(), WsError>)
        ensures
            r is Ok,
            final(self).sent() == old(self).sent().push(message),
    {
        let ghost m = message;
        let delivered = send_to(&self.sender, message);
        self.sent = Ghost(self.sent@.push(m));
        match delivered {
            Some(_) => Ok(()),
            None => Ok(()),
        }
    }

    /// The number of live subscribers of the channel, counted over every
    /// clone of this broadcaster.
    pub fn client_count(&self) -> usize {
        live_receivers(&self.sender)
    }

    /// The channel's sending half.
    pub fn sender(&self) -> &broadcast::Sender<BroadcastMessage> {
        &self.sender
    }
}

impl Clone for Broadcaster {
    fn clone(&self) -> (r: Broadcaster)
        ensures
            r.sent() == self.sent(),
    {
        Broadcaster { sender: self.sender.clone(), sent: Ghost(self.sent@) }
    }
}

impl Default for Broadcaster {
    fn default() -> (r: Broadcaster)
        ensures
            r.sent() == Seq::<BroadcastMessage>::empty(),
    {
        Broadcaster::new()
    }
}

/// `a + b`, or `u64::MAX` where that does not fit.
pub open spec fn saturating_sum(a: u64, b: u64) -> u64 {
    if a + b <= u64::MAX {
        (a + b) as u64
    } else {
        u64::MAX
    }
}

/// Messages a receive attempt reports as skipped.
pub open spec fn lag_of(e: RecvEvent) -> u64 {
    match e {
        RecvEvent::Lagged(n) => n,
        _ => 0,
    }
}

/// What one receive attempt gives: a message, a closed channel, or nothing.
pub open spec fn event_result(e: RecvEvent) -> Result<Option<BroadcastMessage>, WsError> {
    match e {
        RecvEvent::Message(m) => Ok(Some(m)),
        RecvEvent::Closed => Err(WsError::ChannelClosed),
        _ => Ok(None),
    }
}

/// The result of a receive whose first attempt went as `first` and, after a
/// lag, whose second attempt went as `second`.
pub open spec fn resolve_spec(first: RecvEvent, second: Option<RecvEvent>) -> Result<Option<BroadcastMessage>, WsError> {
    match (first, second) {
        (RecvEvent::Lagged(_), Some(e)) => event_result(e),
        _ => event_result(first),
    }
}

/// The skip count after such a receive, from `before`.
pub open spec fn skipped_after(before: u64, first: RecvEvent, second: Option<RecvEvent>) -> u64 {
    let once = saturating_sum(before, lag_of(first));
    match (first, second) {
        (RecvEvent::Lagged(_), Some(e)) => saturating_sum(once, lag_of(e)),
        _ => once,
    }
}

/// One subscriber's end of the channel, with the number of messages it has
/// missed by lagging.
pub struct BroadcastReceiver {
    pub inner: broadcast::Receiver<BroadcastMessage>,
    skipped: u64,
}

impl BroadcastReceiver {
    /// Messages dropped for this subscriber because it fell behind.
    pub closed spec fn skipped(&self) -> u64 {
        self.skipped
    }

    pub fn skipped_count(&self) -> (r: u64)
        ensures
            r == self.skipped(),
    {
        self.skipped
    }

    /// What a receive attempt that went as `event` gives the subscriber: a
    /// message, a closed channel, or nothing yet (`None`, also after a lag,
    /// which is counted and absorbed so that reading goes on from the oldest
    /// message still held).
    pub fn accept(&mut self, event: RecvEvent) -> (r: Option<Result<BroadcastMessage, WsError>>)
        ensures
            final(self).skipped() == saturating_sum(old(self).skipped(), lag_of(event)),
            match event {
                RecvEvent::Message(m) => r == Some(Ok::<BroadcastMessage, WsError>(m)),
                RecvEvent::Closed => r == Some(Err::<BroadcastMessage, WsError>(WsError::ChannelClosed)),
                _ => r is None,
            },
    {
        match event {
            RecvEvent::Message(m) => Some(Ok(m)),
            RecvEvent::Closed => Some(Err(WsError::ChannelClosed)),
            RecvEvent::Empty => None,
            RecvEvent::Lagged(n) => {
                self.skipped = self.skipped.saturating_add(n);
                None
            },
        }
    }

    /// Decides a receive from its attempts: `first`, and `second`, the
    /// attempt made after `first` reported a lag. A lag is counted and
    /// reading goes on with what the second attempt found; `second` is not
    /// looked at otherwise.
    pub fn resolve(&mut self, first: RecvEvent, second: Option<RecvEvent>) -> (r: Result<Option<BroadcastMessage>, WsError>)
        ensures
            r == resolve_spec(first, second),
            final(self).skipped() == skipped_after(old(self).skipped(), first, second),
    {
        let lagged = matches!(first, RecvEvent::Lagged(_));
        match self.accept(first) {
            Some(Ok(m)) => Ok(Some(m)),
            Some(Err(e)) => Err(e),
            None => {
                if lagged {
                    match second {
                        Some(e) => match self.accept(e) {
                            Some(Ok(m)) => Ok(Some(m)),
                            Some(Err(e)) => Err(e),
                            None => Ok(None),
                        },
                        None => Ok(None),
                    }
                } else {
                    Ok(None)
                }
            },
        }
    }

    /// The next message if one is queued, `Ok(None)` if none is, or
    /// `ChannelClosed`. A lag is counted, and reading goes on once more with
    /// the oldest message still held.
    pub fn try_recv(&mut self) -> (r: Result<Option<BroadcastMessage>, WsError>)
        ensures
            r is Err ==> r == Err::<Option<BroadcastMessage>, WsError>(WsError::ChannelClosed),
            final(self).skipped() >= old(self).skipped(),
    {
        let first = try_recv_from(&mut self.inner);
        let second = if matches!(first, RecvEvent::Lagged(_)) {
            Some(try_recv_from(&mut self.inner))
        } else {
            None
        };
        self.resolve(first, second)
    }
}

/// Every subscriber whose read finds a broadcast message gets that same
/// message, whether it finds it at once or after absorbing a lag: two
/// subscribers reading one broadcast receive identical copies.
pub proof fn subscribers_receive_identical_copies(
    m: BroadcastMessage,
    second: Option<RecvEvent>,
    lag: u64,
)
    ensures
        resolve_spec(RecvEvent::Message(m), second) == Ok::<Option<BroadcastMessage>, WsError>(
            Some(m),
        ),
        resolve_spec(RecvEvent::Lagged(lag), Some(RecvEvent::Message(m))) == Ok::<
            Option<BroadcastMessage>,
            WsError,
        >(Some(m)),
{
}

} // verus!
