//! The actions that carry out one command.
//!
//! A command is carried out as a short list of actions on the host's pointer
//! and on the CEC bus, performed in order. The first action that fails ends
//! the list. The media commands have no executor: they ask for no action and
//! are reported as unimplemented.

use vstd::prelude::*;
use vstd::string::StringExecFns;
use crate::cec::{frame_for, frame_of, CecFrame};
use crate::config::RemoteCommand;
use crate::pointer::{
    click, half, motion_events, scroll, scroll_events, split_motion, PointerEvent,
    MOTION_PAUSE_MICROS,
};

verus! {

/// One thing for the driver to do on the host.
#[derive(Clone, Copy, Debug, PartialEq, Eq)]
pub enum Action {
    /// Hand an event to the host's pointer.
    Pointer(PointerEvent),
    /// Wait before the next action.
    Pause { micros: u64 },
    /// Transmit a frame on the CEC bus.
    Transmit(CecFrame),
}

/// Why a command was not carried out to its end.
#[derive(Clone, Debug, PartialEq, Eq)]
pub enum DispatchError {
    /// The host's pointer refused an event.
    Input(String),
    /// The CEC bus refused a frame.
    Bus(String),
}

/// Whether anything on the host carries out `command`.
pub open spec fn has_executor(command: RemoteCommand) -> bool {
    match command {
        RemoteCommand::MpdPlayPause => false,
        RemoteCommand::MpdNext => false,
        RemoteCommand::MpdPrevious => false,
        RemoteCommand::TrackpadMove { .. } => true,
        RemoteCommand::TrackpadClick { .. } => true,
        RemoteCommand::TrackpadScroll { .. } => true,
        RemoteCommand::CecImageViewOn => true,
        RemoteCommand::CecActiveSourceSelf => true,
        RemoteCommand::CecActiveSource { .. } => true,
        RemoteCommand::CecStandby => true,
    }
}

/// The actions that carry out `command`, in order.
pub open spec fn plan_of(command: RemoteCommand) -> Seq<Action> {
    match command {
        RemoteCommand::TrackpadMove { delta_x, delta_y } => {
            let events = motion_events(delta_x, delta_y);
            seq![
                Action::Pointer(events.0),
                Action::Pause { micros: MOTION_PAUSE_MICROS },
                Action::Pointer(events.1),
            ]
        },
        RemoteCommand::TrackpadClick { button } => seq![
            Action::Pointer(PointerEvent::Click { button }),
        ],
        RemoteCommand::TrackpadScroll { delta_x, delta_y } => scroll_events(delta_x, delta_y).map(
            |i: int, event: PointerEvent| Action::Pointer(event),
        ),
        RemoteCommand::CecImageViewOn => seq![Action::Transmit(frame_of(command)->0)],
        RemoteCommand::CecActiveSourceSelf => seq![Action::Transmit(frame_of(command)->0)],
        RemoteCommand::CecActiveSource { .. } => seq![Action::Transmit(frame_of(command)->0)],
        RemoteCommand::CecStandby => seq![Action::Transmit(frame_of(command)->0)],
        RemoteCommand::MpdPlayPause => Seq::<Action>::empty(),
        RemoteCommand::MpdNext => Seq::<Action>::empty(),
        RemoteCommand::MpdPrevious => Seq::<Action>::empty(),
    }
}

/// Whether `action` reaches the host's pointer.
pub open spec fn touches_pointer(action: Action) -> bool {
    action is Pointer
}

/// Whether `action` reaches the CEC bus.
pub open spec fn touches_bus(action: Action) -> bool {
    action is Transmit
}

/// The error that a failure of `action` is reported as.
pub open spec fn failure_of(action: Action, detail: String) -> DispatchError {
    match action {
        Action::Pointer(_) => DispatchError::Input(detail),
        Action::Pause { .. } => DispatchError::Input(detail),
        Action::Transmit(_) => DispatchError::Bus(detail),
    }
}

/// Says whether anything on the host carries out `command`.
pub fn is_implemented(command: RemoteCommand) -> (implemented: bool)
    ensures
        implemented == has_executor(command),
{
    match command {
        RemoteCommand::MpdPlayPause => false,
        RemoteCommand::MpdNext => false,
        RemoteCommand::MpdPrevious => false,
        RemoteCommand::TrackpadMove { .. } => true,
        RemoteCommand::TrackpadClick { .. } => true,
        RemoteCommand::TrackpadScroll { .. } => true,
        RemoteCommand::CecImageViewOn => true,
        RemoteCommand::CecActiveSourceSelf => true,
        RemoteCommand::CecActiveSource { .. } => true,
        RemoteCommand::CecStandby => true,
    }
}

/// The single action of a command that speaks to the bus.
fn transmit(command: RemoteCommand) -> (actions: Vec<Action>)
    requires
        frame_of(command) is Some,
    ensures
        actions@ == seq![Action::Transmit(frame_of(command)->0)],
{
    let mut actions: Vec<Action> = Vec::new();
    match frame_for(command) {
        Some(frame) => {
            actions.push(Action::Transmit(frame));
        },
        None => {},
    }
    actions
}

/// Lists the actions that carry out `command`, in order.
pub fn plan(command: RemoteCommand) -> (actions: Vec<Action>)
    ensures
        actions@ == plan_of(command),
{
    match command {
        RemoteCommand::TrackpadMove { delta_x, delta_y } => {
            let events: (PointerEvent, PointerEvent) = split_motion(delta_x, delta_y);
            let mut actions: Vec<Action> = Vec::new();
            actions.push(Action::Pointer(events.0));
            actions.push(Action::Pause { micros: MOTION_PAUSE_MICROS });
            actions.push(Action::Pointer(events.1));
            actions
        },
        RemoteCommand::TrackpadClick { button } => {
            let mut actions: Vec<Action> = Vec::new();
            actions.push(Action::Pointer(click(button)));
            actions
        },
        RemoteCommand::TrackpadScroll { delta_x, delta_y } => {
            let events: Vec<PointerEvent> = scroll(delta_x, delta_y);
            let mut actions: Vec<Action> = Vec::new();
            let mut i: usize = 0;
            while i < events.len()
                invariant
                    i <= events.len(),
                    events@ == scroll_events(delta_x, delta_y),
                    actions@ == events@.take(i as int).map(
                        |i: int, event: PointerEvent| Action::Pointer(event),
                    ),
                decreases events.len() - i,
            {
                actions.push(Action::Pointer(events[i]));
                i = i + 1;
                assert(actions@ == events@.take(i as int).map(
                    |i: int, event: PointerEvent| Action::Pointer(event),
                ));
            }
            assert(events@.take(i as int) == events@);
            actions
        },
        RemoteCommand::CecImageViewOn => transmit(command),
        RemoteCommand::CecActiveSourceSelf => transmit(command),
        RemoteCommand::CecActiveSource { .. } => transmit(command),
        RemoteCommand::CecStandby => transmit(command),
        RemoteCommand::MpdPlayPause => Vec::new(),
        RemoteCommand::MpdNext => Vec::new(),
        RemoteCommand::MpdPrevious => Vec::new(),
    }
}

/// The error to report when `action` failed with `detail`.
pub fn failure(action: Action, detail: String) -> (error: DispatchError)
    ensures
        error == failure_of(action, detail),
{
    match action {
        Action::Pointer(_) => DispatchError::Input(detail),
        Action::Pause { .. } => DispatchError::Input(detail),
        Action::Transmit(_) => DispatchError::Bus(detail),
    }
}

impl DispatchError {
    /// What the adapter said of the failure.
    pub open spec fn detail(self) -> Seq<char> {
        match self {
            DispatchError::Input(detail) => detail@,
            DispatchError::Bus(detail) => detail@,
        }
    }

    /// The text that `message` gives.
    pub open spec fn message_text(self) -> Seq<char> {
        match self {
            DispatchError::Input(detail) => "Input error: "@ + detail@,
            DispatchError::Bus(detail) => "CEC error: "@ + detail@,
        }
    }

    /// The error in words, for a log.
    pub fn message(&self) -> (text: String)
        ensures
            text@ == self.message_text(),
    {
        match self {
            DispatchError::Input(detail) => {
                let mut text: String = String::from_str("Input error: ");
                text.append(detail.as_str());
                text
            },
            DispatchError::Bus(detail) => {
                let mut text: String = String::from_str("CEC error: ");
                text.append(detail.as_str());
                text
            },
        }
    }
}

/// A command without an executor asks for no action, so it reaches neither
/// the pointer nor the bus.
pub proof fn lemma_no_executor_no_action(command: RemoteCommand)
    requires
        !has_executor(command),
    ensures
        plan_of(command).len() == 0,
{
}

/// A command that speaks to the bus asks for its one frame and for nothing
/// else, and no other command reaches the bus. Only a trackpad command
/// reaches the pointer.
pub proof fn lemma_plan_targets(command: RemoteCommand, i: int)
    requires
        0 <= i < plan_of(command).len(),
    ensures
        has_executor(command),
        frame_of(command) is Some ==> plan_of(command) == seq![
            Action::Transmit(frame_of(command)->0),
        ],
        frame_of(command) is None ==> !touches_bus(plan_of(command)[i]),
        touches_pointer(plan_of(command)[i]) ==> command is TrackpadMove || command
            is TrackpadClick || command is TrackpadScroll,
{
}

/// A motion is carried out as two pointer events one pause apart, and the
/// two add up to the motion on each axis, the second being half of it
/// rounded toward zero.
pub proof fn lemma_motion_plan(delta_x: i32, delta_y: i32)
    ensures
        ({
            let actions = plan_of(RemoteCommand::TrackpadMove { delta_x, delta_y });
            &&& actions.len() == 3
            &&& actions[1] == (Action::Pause { micros: MOTION_PAUSE_MICROS })
            &&& MOTION_PAUSE_MICROS == 8333
            &&& actions[0] matches Action::Pointer(PointerEvent::Move { dx: first_x, dy: first_y })
            &&& actions[2] matches Action::Pointer(
                PointerEvent::Move { dx: second_x, dy: second_y },
            )
            &&& first_x + second_x == delta_x
            &&& first_y + second_y == delta_y
            &&& second_x == half(delta_x as int)
            &&& second_y == half(delta_y as int)
        }),
{
}

/// A scroll asks for one action for each axis whose amount is not zero.
pub proof fn lemma_scroll_plan_len(delta_x: i32, delta_y: i32)
    ensures
        plan_of(RemoteCommand::TrackpadScroll { delta_x, delta_y }).len() == (if delta_x != 0 {
            1int
        } else {
            0int
        }) + (if delta_y != 0 {
            1int
        } else {
            0int
        }),
{
}

} // verus!
