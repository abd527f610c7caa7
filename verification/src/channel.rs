//! The bounded queue that carries commands from the tray thread to the UI
//! thread.
//!
//! The tray thread must never wait: a stalled platform event loop freezes the
//! tray for the whole desktop. So the sending end only ever offers a command,
//! and a command that the queue does not take is dropped. The queue itself is
//! `async_channel`'s; what is kept here is the record of what was offered to
//! it and what it answered.

use vstd::prelude::*;
use async_channel::{Receiver, Sender};
use crate::command::TrayCommand;

verus! {

/// `async_channel::Sender`, the sending end of a queue. Nothing inside it is
/// visible here.
#[verifier::external_type_specification]
#[verifier::external_body]
#[verifier::reject_recursive_types(T)]
pub struct ExSender<T>(Sender<T>);

/// `async_channel::Receiver`, the receiving end of a queue. It is only
/// carried through to the UI thread.
#[verifier::external_type_specification]
#[verifier::external_body]
#[verifier::reject_recursive_types(T)]
pub struct ExReceiver<T>(Receiver<T>);

/// How many commands the queue holds before further ones are dropped.
pub const COMMAND_CAPACITY: usize = 8;

/// The capacity that the queue behind `sender` was made with: what
/// `async_channel::bounded` was asked for when it made the queue.
pub uninterp spec fn capacity_of(sender: Sender<TrayCommand>) -> nat;

/// What became of a command handed to the queue.
#[derive(Clone, Copy, Debug, PartialEq, Eq, Structural)]
pub enum SendOutcome {
    /// The queue took the command.
    Enqueued,
    /// The queue was at capacity; the command is gone.
    Full,
    /// The consumer has hung up; the command is gone.
    Closed,
}

/// One command offered to the queue, with the queue's answer.
#[derive(Clone, Copy, Debug, PartialEq, Eq, Structural)]
pub struct Offer {
    pub command: TrayCommand,
    pub outcome: SendOutcome,
}

/// The commands of `history` that the queue took, in the order in which they
/// were offered.
pub open spec fn accepted(history: Seq<Offer>) -> Seq<TrayCommand>
    decreases history.len(),
{
    if history.len() == 0 {
        Seq::empty()
    } else if history.last().outcome == SendOutcome::Enqueued {
        accepted(history.drop_last()).push(history.last().command)
    } else {
        accepted(history.drop_last())
    }
}

/// `async_channel::bounded`: makes a queue that holds at most `capacity`
/// messages and returns its two ends. The contract claims that the queue
/// keeps the capacity it was asked for. The outside function panics on a
/// capacity of zero, which `requires` leaves out.
#[verifier::external_body]
fn bounded(capacity: usize) -> (ends: (Sender<TrayCommand>, Receiver<TrayCommand>))
    requires
        capacity > 0,
    ensures
        capacity_of(ends.0) == capacity,
{
    async_channel::bounded(capacity)
}

/// `async_channel::Sender::try_send`: offers `command` to the queue and
/// returns at once. Which outcome comes back depends on what the queue holds
/// and on whether a receiver is left, so nothing is claimed of it.
#[verifier::external_body]
fn try_send(sender: &Sender<TrayCommand>, command: TrayCommand) -> (outcome: SendOutcome) {
    match sender.try_send(command) {
        Ok(()) => SendOutcome::Enqueued,
        Err(async_channel::TrySendError::Full(_)) => SendOutcome::Full,
        Err(async_channel::TrySendError::Closed(_)) => SendOutcome::Closed,
    }
}

/// The sending end of the queue, as the tray thread holds it.
pub struct CommandSender {
    sender: Sender<TrayCommand>,
    offered: Ghost<Seq<Offer>>,
}

impl CommandSender {
    /// Every offer made through this end so far, oldest first.
    pub closed spec fn history(&self) -> Seq<Offer> {
        self.offered@
    }

    /// The capacity of the queue behind this end.
    pub closed spec fn capacity(&self) -> nat {
        capacity_of(self.sender)
    }

    /// Takes over a sending end through which nothing has been offered yet.
    pub fn new(sender: Sender<TrayCommand>) -> (end: CommandSender)
        ensures
            end.history() == Seq::<Offer>::empty(),
            end.capacity() == capacity_of(sender),
    {
        CommandSender { sender, offered: Ghost(Seq::empty()) }
    }

    /// Offers `command` to the queue, once, without waiting, and says what
    /// the queue made of it. A command that is not taken is not kept and not
    /// offered again.
    pub fn offer(&mut self, command: TrayCommand) -> (outcome: SendOutcome)
        ensures
            final(self).history() == old(self).history().push(Offer { command, outcome }),
            final(self).capacity() == old(self).capacity(),
    {
        let outcome: SendOutcome = try_send(&self.sender, command);
        proof {
            self.offered@ = self.offered@.push(Offer { command, outcome });
        }
        outcome
    }
}

/// Makes the queue between the tray thread and the UI thread. The sending end
/// goes to the tray thread, the receiver stays with the UI thread.
pub fn command_channel() -> (ends: (CommandSender, Receiver<TrayCommand>))
    ensures
        ends.0.capacity() == COMMAND_CAPACITY,
        ends.0.history() == Seq::<Offer>::empty(),
{
    let (sender, receiver) = bounded(COMMAND_CAPACITY);
    (CommandSender::new(sender), receiver)
}

/// A command that the queue turned down leaves no trace among the accepted
/// ones: they are what they were before the offer.
pub proof fn dropped_command_is_not_accepted(history: Seq<Offer>, offer: Offer)
    requires
        offer.outcome != SendOutcome::Enqueued,
    ensures
        accepted(history.push(offer)) == accepted(history),
{
    assert(history.push(offer).drop_last() =~= history);
}

/// A command that the queue took is among the accepted ones once, behind all
/// that were taken before it.
pub proof fn taken_command_is_accepted_once(history: Seq<Offer>, offer: Offer)
    requires
        offer.outcome == SendOutcome::Enqueued,
    ensures
        accepted(history.push(offer)) == accepted(history).push(offer.command),
{
    assert(history.push(offer).drop_last() =~= history);
}

/// No more commands are accepted than were offered.
pub proof fn accepted_is_no_longer_than_offered(history: Seq<Offer>)
    ensures
        accepted(history).len() <= history.len(),
    decreases history.len(),
{
    if history.len() > 0 {
        accepted_is_no_longer_than_offered(history.drop_last());
    }
}

/// The commands of `history`, taken or not, in the order of the offers.
pub open spec fn offered_commands(history: Seq<Offer>) -> Seq<TrayCommand> {
    Seq::new(history.len(), |i: int| history[i].command)
}

/// How many of `offers` further commands fit into a queue of `capacity` that
/// holds `held` already.
pub open spec fn room_for(offers: nat, held: nat, capacity: nat) -> int {
    if offers <= capacity - held {
        offers as int
    } else {
        capacity - held
    }
}

/// `history` is a run of offers as an open queue of `capacity` answers it
/// that held `held` commands at the start and from which nothing was taken
/// meanwhile: an offer is taken while there is room and turned down as `Full`
/// from then on.
pub open spec fn answered_undrained(history: Seq<Offer>, held: nat, capacity: nat) -> bool
    decreases history.len(),
{
    history.len() == 0 || {
        &&& answered_undrained(history.drop_last(), held, capacity)
        &&& history.last().outcome == if held + accepted(history.drop_last()).len() < capacity {
            SendOutcome::Enqueued
        } else {
            SendOutcome::Full
        }
    }
}

/// Of a run of offers to a queue that is not drained meanwhile, the first
/// that fit are accepted, in the order of the offers, and no others: with
/// room for `n` more commands, the accepted ones are the first `n` offered,
/// or all of them where fewer were offered.
pub proof fn undrained_queue_takes_the_first_that_fit(
    history: Seq<Offer>,
    held: nat,
    capacity: nat,
)
    requires
        answered_undrained(history, held, capacity),
        held <= capacity,
    ensures
        accepted(history) == offered_commands(history).take(
            room_for(history.len(), held, capacity),
        ),
    decreases history.len(),
{
    let commands = offered_commands(history);
    if history.len() == 0 {
        assert(commands.take(0) =~= Seq::<TrayCommand>::empty());
    } else {
        let before = history.drop_last();
        let commands_before = offered_commands(before);
        undrained_queue_takes_the_first_that_fit(before, held, capacity);
        let fit_before = room_for(before.len(), held, capacity);
        assert(accepted(before).len() == fit_before);
        if held + accepted(before).len() < capacity {
            assert(commands_before.take(fit_before) =~= commands_before);
            assert(commands_before.push(history.last().command) =~= commands);
            assert(commands.take(history.len() as int) =~= commands);
        } else {
            assert(commands_before.take(fit_before) =~= commands.take(fit_before));
        }
    }
}

} // verus!
