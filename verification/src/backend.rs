//! The tray backend as a state machine.
//!
//! A platform event loop cannot be driven from here, so the loop itself lives
//! with the application. It reports what happened as a [`BackendEvent`] and
//! carries out the [`BackendAction`] it gets back. All decisions are taken
//! here: when the tray object is built, which menu event raises which command,
//! and when the loop has to end.

use vstd::prelude::*;
use crate::channel::{
    accepted, answered_undrained, offered_commands, room_for,
    undrained_queue_takes_the_first_that_fit, CommandSender, Offer, SendOutcome,
};
use crate::command::TrayCommand;
use crate::menu::{MenuBindings, MenuItemId};

verus! {

/// Where a backend stands in its life.
#[derive(Clone, Copy, Debug, PartialEq, Eq, Structural)]
pub enum BackendState {
    /// Nothing has happened yet.
    Uninitialized,
    /// The event loop runs and the tray object is being built.
    Building,
    /// The tray is visible and its events are served.
    Running,
    /// The backend is done; its thread ends.
    Stopped,
}

/// What the platform event loop reports.
#[derive(Clone, Debug, PartialEq, Eq)]
pub enum BackendEvent {
    /// The loop has come round; the first time starts the build.
    LoopIteration,
    /// The tray object and its menu exist.
    TrayBuilt,
    /// The tray object could not be made.
    BuildFailed,
    /// The menu item with this identifier was chosen.
    MenuActivated(MenuItemId),
    /// The tray icon itself was activated.
    IconActivated,
    /// The loop or the host cannot go on.
    Fatal,
}

/// What the event loop is asked to do in answer to an event.
#[derive(Clone, Copy, Debug, PartialEq, Eq, Structural)]
pub enum BackendAction {
    /// Build the tray object and its menu now, then report how it went.
    BuildTray,
    /// Hand this command to the queue without waiting.
    Enqueue(TrayCommand),
    /// Carry on.
    Nothing,
    /// Leave the loop.
    Halt,
}

/// The state after `event` arrives in `state`.
pub open spec fn next_state(state: BackendState, event: BackendEvent) -> BackendState {
    match state {
        BackendState::Uninitialized => match event {
            BackendEvent::LoopIteration => BackendState::Building,
            BackendEvent::Fatal => BackendState::Stopped,
            _ => BackendState::Uninitialized,
        },
        BackendState::Building => match event {
            BackendEvent::TrayBuilt => BackendState::Running,
            BackendEvent::BuildFailed => BackendState::Stopped,
            BackendEvent::Fatal => BackendState::Stopped,
            _ => BackendState::Building,
        },
        BackendState::Running => match event {
            BackendEvent::Fatal => BackendState::Stopped,
            _ => BackendState::Running,
        },
        BackendState::Stopped => BackendState::Stopped,
    }
}

/// The answer to `event` arriving in `state`, with the menu bound as in
/// `bindings`.
pub open spec fn action_for(
    state: BackendState,
    bindings: MenuBindings,
    event: BackendEvent,
) -> BackendAction {
    match state {
        BackendState::Uninitialized => match event {
            BackendEvent::LoopIteration => BackendAction::BuildTray,
            BackendEvent::Fatal => BackendAction::Halt,
            _ => BackendAction::Nothing,
        },
        BackendState::Building => match event {
            BackendEvent::BuildFailed => BackendAction::Halt,
            BackendEvent::Fatal => BackendAction::Halt,
            _ => BackendAction::Nothing,
        },
        BackendState::Running => match event {
            BackendEvent::MenuActivated(id) => match bindings.spec_command_for(id@) {
                Some(command) => BackendAction::Enqueue(command),
                None => BackendAction::Nothing,
            },
            BackendEvent::IconActivated => BackendAction::Enqueue(TrayCommand::Show),
            BackendEvent::Fatal => BackendAction::Halt,
            _ => BackendAction::Nothing,
        },
        BackendState::Stopped => BackendAction::Halt,
    }
}

/// The offers that carrying out `action` adds to a sender's history: the one
/// command of an `Enqueue`, with the queue's answer, and nothing otherwise.
pub open spec fn offers_for(action: BackendAction, delivery: Option<SendOutcome>) -> Seq<Offer> {
    match (action, delivery) {
        (BackendAction::Enqueue(command), Some(outcome)) => seq![Offer { command, outcome }],
        _ => Seq::empty(),
    }
}

/// The state after the `events` have arrived one after the other, starting in
/// `state`.
pub open spec fn state_after(state: BackendState, events: Seq<BackendEvent>) -> BackendState
    decreases events.len(),
{
    if events.len() == 0 {
        state
    } else {
        next_state(state_after(state, events.drop_last()), events.last())
    }
}

/// The offers that a run of answers adds to a sender's history, in the order
/// of the answers.
pub open spec fn offers_of_run(pumped: Seq<Pumped>) -> Seq<Offer>
    decreases pumped.len(),
{
    if pumped.len() == 0 {
        Seq::empty()
    } else {
        offers_of_run(pumped.drop_last()) + offers_for(
            pumped.last().action,
            pumped.last().delivery,
        )
    }
}

/// `pumped` answers `events` one for one: each answer is the one that its
/// event gets in the state that the events before it have led to, and it
/// reports a delivery exactly where it raised a command.
pub open spec fn answers_run(
    state: BackendState,
    bindings: MenuBindings,
    events: Seq<BackendEvent>,
    pumped: Seq<Pumped>,
) -> bool {
    &&& pumped.len() == events.len()
    &&& forall|i: int|
        0 <= i < events.len() ==> {
            &&& (#[trigger] pumped[i]).action == action_for(
                state_after(state, events.take(i)),
                bindings,
                events[i],
            )
            &&& pumped[i].delivery is Some <==> pumped[i].action is Enqueue
        }
}

/// The command that `event` raises in a running backend, if any.
pub open spec fn raised_by(bindings: MenuBindings, event: BackendEvent) -> Option<TrayCommand> {
    match action_for(BackendState::Running, bindings, event) {
        BackendAction::Enqueue(command) => Some(command),
        _ => None,
    }
}

/// The commands that `events` raise in a running backend, where each of them
/// raises one.
pub open spec fn commands_raised_by(
    bindings: MenuBindings,
    events: Seq<BackendEvent>,
) -> Seq<TrayCommand> {
    Seq::new(events.len(), |i: int| raised_by(bindings, events[i])->0)
}

/// The answer to an event that [`TrayBackend::pump`] has already acted on.
#[derive(Clone, Copy, Debug, PartialEq, Eq, Structural)]
pub struct Pumped {
    /// The answer to the event. An `Enqueue` has been carried out already.
    pub action: BackendAction,
    /// What the queue made of the command, where there was one.
    pub delivery: Option<SendOutcome>,
}

/// One tray backend: its state and the menu bindings it was made with.
#[derive(Clone, Debug)]
pub struct TrayBackend {
    state: BackendState,
    bindings: MenuBindings,
}

impl TrayBackend {
    /// The state the backend is in.
    pub closed spec fn spec_state(&self) -> BackendState {
        self.state
    }

    /// The menu bindings the backend was made with.
    pub closed spec fn spec_bindings(&self) -> MenuBindings {
        self.bindings
    }

    /// A backend that has not seen its event loop yet.
    pub fn new(bindings: MenuBindings) -> (backend: TrayBackend)
        ensures
            backend.spec_state() == BackendState::Uninitialized,
            backend.spec_bindings() == bindings,
    {
        TrayBackend { state: BackendState::Uninitialized, bindings }
    }

    /// The state the backend is in.
    #[verifier::when_used_as_spec(spec_state)]
    pub fn state(&self) -> (state: BackendState)
        ensures
            state == self.spec_state(),
    {
        self.state
    }

    /// The menu bindings the backend was made with.
    pub fn bindings(&self) -> (bindings: &MenuBindings)
        ensures
            *bindings == self.spec_bindings(),
    {
        &self.bindings
    }

    /// Takes one event: moves to the next state and says what the event loop
    /// has to do. The bindings stay as they are.
    pub fn step(&mut self, event: &BackendEvent) -> (action: BackendAction)
        ensures
            final(self).spec_state() == next_state(old(self).spec_state(), *event),
            final(self).spec_bindings() == old(self).spec_bindings(),
            action == action_for(old(self).spec_state(), old(self).spec_bindings(), *event),
    {
        let action: BackendAction = match self.state {
            BackendState::Uninitialized => match event {
                BackendEvent::LoopIteration => BackendAction::BuildTray,
                BackendEvent::Fatal => BackendAction::Halt,
                _ => BackendAction::Nothing,
            },
            BackendState::Building => match event {
                BackendEvent::BuildFailed => BackendAction::Halt,
                BackendEvent::Fatal => BackendAction::Halt,
                _ => BackendAction::Nothing,
            },
            BackendState::Running => match event {
                BackendEvent::MenuActivated(id) => match self.bindings.command_for(id) {
                    Some(command) => BackendAction::Enqueue(command),
                    None => BackendAction::Nothing,
                },
                BackendEvent::IconActivated => BackendAction::Enqueue(TrayCommand::Show),
                BackendEvent::Fatal => BackendAction::Halt,
                _ => BackendAction::Nothing,
            },
            BackendState::Stopped => BackendAction::Halt,
        };
        let next: BackendState = match self.state {
            BackendState::Uninitialized => match event {
                BackendEvent::LoopIteration => BackendState::Building,
                BackendEvent::Fatal => BackendState::Stopped,
                _ => BackendState::Uninitialized,
            },
            BackendState::Building => match event {
                BackendEvent::TrayBuilt => BackendState::Running,
                BackendEvent::BuildFailed => BackendState::Stopped,
                BackendEvent::Fatal => BackendState::Stopped,
                _ => BackendState::Building,
            },
            BackendState::Running => match event {
                BackendEvent::Fatal => BackendState::Stopped,
                _ => BackendState::Running,
            },
            BackendState::Stopped => BackendState::Stopped,
        };
        self.state = next;
        action
    }

    /// Takes one event as [`TrayBackend::step`] does and, where the answer is
    /// a command, offers it to `sender` at once. The offer never waits: a
    /// command that the queue does not take is dropped, and the backend goes
    /// on either way. Whether the queue takes it is for the queue to say.
    pub fn pump(&mut self, event: &BackendEvent, sender: &mut CommandSender) -> (pumped: Pumped)
        ensures
            final(self).spec_state() == next_state(old(self).spec_state(), *event),
            final(self).spec_bindings() == old(self).spec_bindings(),
            pumped.action == action_for(
                old(self).spec_state(),
                old(self).spec_bindings(),
                *event,
            ),
            pumped.delivery is Some <==> pumped.action is Enqueue,
            final(sender).history() == old(sender).history() + offers_for(
                pumped.action,
                pumped.delivery,
            ),
            final(sender).capacity() == old(sender).capacity(),
    {
        let action: BackendAction = self.step(event);
        match action {
            BackendAction::Enqueue(command) => {
                let outcome: SendOutcome = sender.offer(command);
                assert(old(sender).history().push(Offer { command, outcome }) =~= old(
                    sender,
                ).history() + seq![Offer { command, outcome }]);
                Pumped { action, delivery: Some(outcome) }
            },
            _ => {
                assert(old(sender).history() + Seq::<Offer>::empty() =~= old(sender).history());
                Pumped { action, delivery: None }
            },
        }
    }
}

impl TrayBackend {
    /// Takes the events that one turn of the event loop has found, in their
    /// order, each as [`TrayBackend::pump`] does. No offer waits and none is
    /// repeated: an event whose command the queue turns down is done with.
    pub fn pump_all(&mut self, events: &Vec<BackendEvent>, sender: &mut CommandSender) -> (pumped:
        Vec<Pumped>)
        ensures
            answers_run(old(self).spec_state(), old(self).spec_bindings(), events@, pumped@),
            final(self).spec_state() == state_after(old(self).spec_state(), events@),
            final(self).spec_bindings() == old(self).spec_bindings(),
            final(sender).history() == old(sender).history() + offers_of_run(pumped@),
            final(sender).capacity() == old(sender).capacity(),
    {
        let ghost start = self.spec_state();
        let ghost bindings = self.spec_bindings();
        let ghost history = sender.history();
        let ghost capacity = sender.capacity();
        let mut pumped: Vec<Pumped> = Vec::new();
        let mut at: usize = 0;
        assert(events@.take(0) =~= Seq::<BackendEvent>::empty());
        assert(history + offers_of_run(pumped@) =~= history);
        while at < events.len()
            invariant
                at <= events@.len(),
                pumped@.len() == at,
                self.spec_bindings() == bindings,
                self.spec_state() == state_after(start, events@.take(at as int)),
                sender.capacity() == capacity,
                sender.history() == history + offers_of_run(pumped@),
                forall|i: int|
                    0 <= i < at ==> {
                        &&& (#[trigger] pumped@[i]).action == action_for(
                            state_after(start, events@.take(i)),
                            bindings,
                            events@[i],
                        )
                        &&& pumped@[i].delivery is Some <==> pumped@[i].action is Enqueue
                    },
            decreases events@.len() - at,
        {
            let ghost before = pumped@;
            let answer: Pumped = self.pump(&events[at], sender);
            pumped.push(answer);
            proof {
                assert(events@.take(at + 1).drop_last() =~= events@.take(at as int));
                assert(pumped@.drop_last() =~= before);
                assert(history + offers_of_run(before) + offers_for(answer.action, answer.delivery)
                    =~= history + (offers_of_run(before) + offers_for(
                    answer.action,
                    answer.delivery,
                )));
            }
            at = at + 1;
        }
        assert(events@.take(at as int) =~= events@);
        pumped
    }
}

/// Events that each raise a command leave a running backend running.
pub proof fn raising_events_keep_the_tray_running(
    bindings: MenuBindings,
    events: Seq<BackendEvent>,
)
    requires
        forall|i: int| 0 <= i < events.len() ==> raised_by(bindings, #[trigger] events[i]) is Some,
    ensures
        state_after(BackendState::Running, events) == BackendState::Running,
    decreases events.len(),
{
    if events.len() > 0 {
        raising_events_keep_the_tray_running(bindings, events.drop_last());
    }
}

/// A running backend that is handed a run of events of which each raises a
/// command offers exactly these commands, once each and in the order of the
/// events.
pub proof fn running_tray_offers_each_command_once(
    bindings: MenuBindings,
    events: Seq<BackendEvent>,
    pumped: Seq<Pumped>,
)
    requires
        answers_run(BackendState::Running, bindings, events, pumped),
        forall|i: int| 0 <= i < events.len() ==> raised_by(bindings, #[trigger] events[i]) is Some,
    ensures
        offered_commands(offers_of_run(pumped)) == commands_raised_by(bindings, events),
    decreases events.len(),
{
    if events.len() == 0 {
        assert(offered_commands(offers_of_run(pumped)) =~= commands_raised_by(bindings, events));
    } else {
        let last = events.len() - 1;
        let events_before = events.drop_last();
        let pumped_before = pumped.drop_last();
        assert forall|i: int| 0 <= i < events_before.len() implies (#[trigger] pumped_before[i]).action
            == action_for(
            state_after(BackendState::Running, events_before.take(i)),
            bindings,
            events_before[i],
        ) && (pumped_before[i].delivery is Some <==> pumped_before[i].action is Enqueue) by {
            assert(events_before.take(i) =~= events.take(i));
            assert(pumped_before[i] == pumped[i]);
        }
        running_tray_offers_each_command_once(bindings, events_before, pumped_before);
        assert(events.take(last) =~= events_before);
        raising_events_keep_the_tray_running(bindings, events_before);
        let answer = pumped[last];
        assert(answer.action == action_for(BackendState::Running, bindings, events[last]));
        assert(raised_by(bindings, events[last]) is Some);
        let command = raised_by(bindings, events[last])->0;
        assert(answer.action == BackendAction::Enqueue(command));
        let outcome = answer.delivery->0;
        assert(offers_for(answer.action, answer.delivery) =~= seq![Offer { command, outcome }]);
        assert(offers_of_run(pumped) =~= offers_of_run(pumped_before).push(
            Offer { command, outcome },
        ));
        assert(offered_commands(offers_of_run(pumped)) =~= offered_commands(
            offers_of_run(pumped_before),
        ).push(command));
        assert(commands_raised_by(bindings, events) =~= commands_raised_by(
            bindings,
            events_before,
        ).push(command));
    }
}

/// One turn of a running tray against a queue that is not drained meanwhile:
/// where the turn finds events that each raise a command and the queue has
/// room for `n` more, the commands of the first `n` events are accepted, in
/// the order of the events, and those of the others are dropped; where it
/// finds fewer than `n`, all are accepted.
pub proof fn turn_fills_the_queue_in_event_order(
    bindings: MenuBindings,
    events: Seq<BackendEvent>,
    pumped: Seq<Pumped>,
    held: nat,
    capacity: nat,
)
    requires
        answers_run(BackendState::Running, bindings, events, pumped),
        forall|i: int| 0 <= i < events.len() ==> raised_by(bindings, #[trigger] events[i]) is Some,
        answered_undrained(offers_of_run(pumped), held, capacity),
        held <= capacity,
    ensures
        accepted(offers_of_run(pumped)) == commands_raised_by(bindings, events).take(
            room_for(events.len(), held, capacity),
        ),
{
    running_tray_offers_each_command_once(bindings, events, pumped);
    undrained_queue_takes_the_first_that_fit(offers_of_run(pumped), held, capacity);
    assert(offered_commands(offers_of_run(pumped)).len() == events.len());
}

/// A stopped backend stays stopped and tells its loop to end, whatever
/// arrives.
pub proof fn stopped_is_terminal(bindings: MenuBindings, event: BackendEvent)
    ensures
        next_state(BackendState::Stopped, event) == BackendState::Stopped,
        action_for(BackendState::Stopped, bindings, event) == BackendAction::Halt,
{
}

/// The tray object is asked for exactly once: on a loop iteration that finds
/// the backend uninitialized. The backend is building from then on, so no
/// later iteration asks again.
pub proof fn build_is_asked_once(state: BackendState, bindings: MenuBindings, event: BackendEvent)
    ensures
        action_for(state, bindings, event) == BackendAction::BuildTray <==> state
            == BackendState::Uninitialized && event == BackendEvent::LoopIteration,
        action_for(state, bindings, event) == BackendAction::BuildTray ==> next_state(state, event)
            == BackendState::Building,
{
}

/// Commands are raised only by a running backend, which keeps running, and
/// only by the tray icon or by a menu item that is bound to that command.
pub proof fn commands_come_from_a_running_tray(
    state: BackendState,
    bindings: MenuBindings,
    event: BackendEvent,
    command: TrayCommand,
)
    requires
        action_for(state, bindings, event) == BackendAction::Enqueue(command),
    ensures
        state == BackendState::Running,
        next_state(state, event) == BackendState::Running,
        event matches BackendEvent::MenuActivated(id) ==> bindings.spec_command_for(id@) == Some(
            command,
        ),
        event == BackendEvent::IconActivated ==> command == TrayCommand::Show,
        event is MenuActivated || event is IconActivated,
{
}

/// A menu event whose identifier is neither of the two known ones changes
/// nothing and raises nothing.
pub proof fn unknown_item_is_ignored(state: BackendState, bindings: MenuBindings, id: MenuItemId)
    requires
        id@ != bindings.open@,
        id@ != bindings.quit@,
    ensures
        !(action_for(state, bindings, BackendEvent::MenuActivated(id)) is Enqueue),
        state != BackendState::Stopped ==> action_for(
            state,
            bindings,
            BackendEvent::MenuActivated(id),
        ) == BackendAction::Nothing,
        next_state(state, BackendEvent::MenuActivated(id)) == state,
{
}

/// While the backend runs, the "Open" item raises `Show`, and the "Quit"
/// item, where its identifier differs from that of "Open", raises `Quit`.
pub proof fn bound_items_raise_their_commands(bindings: MenuBindings, id: MenuItemId)
    ensures
        id@ == bindings.open@ ==> action_for(
            BackendState::Running,
            bindings,
            BackendEvent::MenuActivated(id),
        ) == BackendAction::Enqueue(TrayCommand::Show),
        id@ == bindings.quit@ && bindings.distinct() ==> action_for(
            BackendState::Running,
            bindings,
            BackendEvent::MenuActivated(id),
        ) == BackendAction::Enqueue(TrayCommand::Quit),
{
}

} // verus!
