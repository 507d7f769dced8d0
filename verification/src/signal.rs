//! The shutdown signal shared by everything that runs as long as the machine.
//!
//! The signal is a latch built on an unbounded channel: raising it puts a
//! message into the channel, and polling it only looks whether the channel
//! holds a message, without ever taking one out. A raised signal therefore
//! stays raised for every holder and every later poll, and raising it again
//! does no harm.

use crossbeam_channel::{Receiver, Sender};
use vstd::prelude::*;

verus! {

/// The sending half of a crossbeam channel, carried through opaquely.
#[verifier::external_type_specification]
#[verifier::external_body]
#[verifier::reject_recursive_types(T)]
pub struct ExSender<T>(Sender<T>);

/// The receiving half of a crossbeam channel, carried through opaquely.
#[verifier::external_type_specification]
#[verifier::external_body]
#[verifier::reject_recursive_types(T)]
pub struct ExReceiver<T>(Receiver<T>);

/// The channel that a sending half belongs to. Two halves with the same
/// value here are halves of one channel: what is sent through the one arrives
/// where the other is connected.
pub uninterp spec fn sender_channel(tx: Sender<()>) -> int;

/// The channel that a receiving half belongs to.
pub uninterp spec fn receiver_channel(rx: Receiver<()>) -> int;

/// Opens a channel of unbounded capacity with `crossbeam_channel::unbounded`,
/// which builds one channel and hands out its two halves: both belong to the
/// same channel.
#[verifier::external_body]
fn open_channel() -> (ends: (Sender<()>, Receiver<()>))
    ensures
        sender_channel(ends.0) == receiver_channel(ends.1),
{
    crossbeam_channel::unbounded()
}

/// Makes another sending half with `Sender::clone`, which hands out one more
/// half of the channel of `tx`: the new half belongs to the same channel.
#[verifier::external_body]
fn clone_sender(tx: &Sender<()>) -> (other: Sender<()>)
    ensures
        sender_channel(other) == sender_channel(*tx),
{
    tx.clone()
}

/// Makes another receiving half with `Receiver::clone`, which hands out one
/// more half of the channel of `rx`: the new half belongs to the same channel.
#[verifier::external_body]
fn clone_receiver(rx: &Receiver<()>) -> (other: Receiver<()>)
    ensures
        receiver_channel(other) == receiver_channel(*rx),
{
    rx.clone()
}

/// Puts one message into the channel with `Sender::send` and tells whether
/// the channel took it. What comes back depends on the other holders of the
/// channel, so nothing is claimed about it.
#[verifier::external_body]
fn post(tx: &Sender<()>) -> (delivered: bool) {
    tx.send(()).is_ok()
}

/// Asks `Receiver::is_empty` whether the channel holds no message right now.
/// Other holders may send at any time, so nothing is claimed about the answer.
#[verifier::external_body]
fn channel_is_empty(rx: &Receiver<()>) -> (empty: bool) {
    rx.is_empty()
}

/// A handle on the shutdown signal. Clones share the same signal.
pub struct KillSignal {
    tx: Sender<()>,
    rx: Receiver<()>,
}

impl Clone for KillSignal {
    /// Another handle on the same signal.
    fn clone(&self) -> (other: KillSignal)
        ensures
            other.shares_with(self),
    {
        KillSignal { tx: clone_sender(&self.tx), rx: clone_receiver(&self.rx) }
    }
}

/// What a look at the channel says about the signal: it is raised exactly
/// when the channel holds a message.
pub open spec fn raised_when(channel_empty: bool) -> bool {
    !channel_empty
}

impl KillSignal {
    /// The channel on which this handle raises the signal.
    pub closed spec fn raises_on(&self) -> int {
        sender_channel(self.tx)
    }

    /// The channel on which this handle looks for the signal.
    pub closed spec fn polls_on(&self) -> int {
        receiver_channel(self.rx)
    }

    /// The handle raises the signal on the channel that it polls: what it
    /// sends is what it, and every handle that shares its channel, receives.
    pub open spec fn well_formed(&self) -> bool {
        self.raises_on() == self.polls_on()
    }

    /// The two handles are handles on one signal: they raise it on the same
    /// channel and poll the same channel.
    pub open spec fn shares_with(&self, other: &KillSignal) -> bool {
        self.raises_on() == other.raises_on() && self.polls_on() == other.polls_on()
    }

    /// Reads the signal off the state of its channel.
    pub fn is_raised_when(channel_empty: bool) -> (raised: bool)
        ensures
            raised == raised_when(channel_empty),
    {
        !channel_empty
    }

    /// A fresh signal that nobody has raised, on a channel of its own making.
    pub fn new() -> (signal: KillSignal)
        ensures
            signal.well_formed(),
    {
        let (tx, rx) = open_channel();
        KillSignal { tx, rx }
    }

    /// Whether the signal has been raised, by this handle or by a clone of it.
    /// Polling does not consume the signal.
    pub fn received(&self) -> (raised: bool) {
        Self::is_raised_when(channel_is_empty(&self.rx))
    }

    /// Raises the signal for every holder.
    pub fn send(&self) {
        let _delivered = post(&self.tx);
    }
}

} // verus!
