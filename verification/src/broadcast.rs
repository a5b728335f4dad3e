//! The change broadcaster: best-effort fan-out of events to any number of
//! consumers, over a bounded broadcast channel.

use crate::event::{Event, EventView};
use tokio::sync::broadcast::Sender;
use vstd::prelude::*;

verus! {

/// The sending half of tokio's broadcast channel. Verus carries it
/// through and sees nothing inside.
#[verifier::external_type_specification]
#[verifier::external_body]
#[verifier::reject_recursive_types(T)]
pub struct ExSender<T>(tokio::sync::broadcast::Sender<T>);

/// Calls `tokio::sync::broadcast::Sender::send`, which offers `event` to
/// every receiver that is subscribed at this moment and answers with their
/// number, or with an error where there is none. The error is dropped.
///
/// Not proved, and taken from tokio's source: a number that comes back is
/// at least one. Whether one comes back depends on who is subscribed; of
/// that nothing is claimed.
#[verifier::external_body]
fn send(tx: &Sender<Event>, event: Event) -> (receivers: Option<usize>)
    ensures
        receivers matches Some(n) ==> n >= 1,
{
    tx.send(event).ok()
}

/// The publishing side of the mirror.
///
/// Publishing never waits for a consumer. A consumer sees the events that
/// are published after it subscribed, as long as it keeps up: one that is
/// not subscribed yet, or has fallen behind by more than the channel
/// holds, misses events.
pub struct Broadcaster {
    tx: Sender<Event>,
    log: Ghost<Seq<EventView>>,
}

impl Broadcaster {
    /// The events that this broadcaster has published since it was made,
    /// oldest first.
    pub closed spec fn published(&self) -> Seq<EventView> {
        self.log@
    }

    /// The sending half of the channel that this broadcaster publishes on.
    pub closed spec fn channel(&self) -> Sender<Event> {
        self.tx
    }

    /// A broadcaster that publishes on `tx` and has published nothing yet.
    /// Consumers subscribe to the channel itself: keep a clone of `tx` for
    /// them.
    pub fn new(tx: Sender<Event>) -> (broadcaster: Self)
        ensures
            broadcaster.channel() == tx,
            broadcaster.published() == Seq::<EventView>::empty(),
    {
        Broadcaster { tx, log: Ghost(Seq::empty()) }
    }

    /// Publishes `event` and returns the number of consumers it was
    /// offered to, which is zero where nobody is subscribed.
    pub fn publish(&mut self, event: Event) -> (receivers: usize)
        ensures
            final(self).published() == old(self).published().push(event@),
            final(self).channel() == old(self).channel(),
    {
        proof {
            self.log@ = self.log@.push(event@);
        }
        match send(&self.tx, event) {
            Some(receivers) => receivers,
            None => 0,
        }
    }
}

} // verus!
