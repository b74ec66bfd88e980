//! Pointer control: the events that viewers send, what each asks the
//! platform to do, and their hand-over to whoever listens for them.

use crate::error::AppError;
use tokio::sync::broadcast::Sender;
use vstd::prelude::*;
use vstd::string::StringExecFns;

verus! {

/// One coordinate in the remote surface's space, kept as the bit pattern
/// of the IEEE 754 double that the viewer sent, so that it passes through
/// unchanged.
#[derive(Debug, Clone, Copy, PartialEq, Eq, Structural)]
pub struct Coordinate {
    pub bits: u64,
}

/// One pointer request of a viewer.
#[derive(Debug, Clone, Copy, PartialEq, Eq, Structural)]
pub enum TouchEvent {
    /// The pointer goes down at a point.
    Start { x: Coordinate, y: Coordinate },
    /// The pointer moves to a point while down.
    Move { x: Coordinate, y: Coordinate },
    /// The pointer goes up.
    End,
}

/// What the pointer does.
#[derive(Debug, Clone, Copy, PartialEq, Eq, Structural)]
pub enum PointerKind {
    /// The left button goes down.
    Down,
    /// The pointer is dragged with the left button down.
    Dragged,
    /// The left button goes up.
    Up,
}

/// One pointer action for the platform to perform, at a point.
#[derive(Debug, Clone, Copy, PartialEq, Eq, Structural)]
pub struct PointerAction {
    pub kind: PointerKind,
    pub x: Coordinate,
    pub y: Coordinate,
}

/// The point with both coordinates `0.0`.
pub open spec fn origin() -> Coordinate {
    Coordinate { bits: 0 }
}

/// The pointer action that an event asks for: a press or a drag at the
/// event's point, coordinates untouched, or a release at the origin.
pub open spec fn action_of(event: TouchEvent) -> PointerAction {
    match event {
        TouchEvent::Start { x, y } => PointerAction { kind: PointerKind::Down, x, y },
        TouchEvent::Move { x, y } => PointerAction { kind: PointerKind::Dragged, x, y },
        TouchEvent::End => PointerAction { kind: PointerKind::Up, x: origin(), y: origin() },
    }
}

/// The pointer action that an event asks for.
pub fn pointer_action(event: &TouchEvent) -> (action: PointerAction)
    ensures
        action == action_of(*event),
{
    match event {
        TouchEvent::Start { x, y } => PointerAction { kind: PointerKind::Down, x: *x, y: *y },
        TouchEvent::Move { x, y } => PointerAction { kind: PointerKind::Dragged, x: *x, y: *y },
        TouchEvent::End => PointerAction {
            kind: PointerKind::Up,
            x: Coordinate { bits: 0 },
            y: Coordinate { bits: 0 },
        },
    }
}

#[verifier::external_type_specification]
#[verifier::external_body]
#[verifier::reject_recursive_types(T)]
pub struct ExSender<T>(Sender<T>);

/// The result of routing `event`, given how its hand-over to the
/// listeners went: the pointer action to perform, or the reason why the
/// event reached nobody.
pub open spec fn routed(sent: Result<usize, Seq<char>>, event: TouchEvent) -> Result<
    PointerAction,
    Seq<char>,
> {
    match sent {
        Ok(_) => Ok(action_of(event)),
        Err(reason) => Err("Failed to send event: "@ + reason),
    }
}

/// `tokio`'s `broadcast::Sender::send`: hands the event to every receiver
/// that is subscribed at this moment. It succeeds with their number, which
/// is then at least one, and fails when there is none; the failure comes
/// back as its `Display` text, which is always `channel closed`.
#[verifier::external_body]
fn broadcast_send(tx: &Sender<TouchEvent>, event: TouchEvent) -> (sent: Result<usize, String>)
    ensures
        sent matches Ok(receivers) ==> receivers >= 1,
        sent matches Err(reason) ==> reason@ == "channel closed"@,
{
    match tx.send(event) {
        Ok(receivers) => Ok(receivers),
        Err(e) => Err(e.to_string()),
    }
}

/// Decides what becomes of `event` once its hand-over to the listeners
/// has succeeded or failed.
pub fn route_outcome(sent: Result<usize, String>, event: &TouchEvent) -> (done: Result<
    PointerAction,
    AppError,
>)
    ensures
        match done {
            Ok(action) => routed(outcome_view(sent), *event) == Ok::<PointerAction, Seq<char>>(
                action,
            ),
            Err(AppError::InputError(m)) => routed(outcome_view(sent), *event) == Err::<
                PointerAction,
                Seq<char>,
            >(m@),
            Err(_) => false,
        },
{
    match sent {
        Ok(_) => Ok(pointer_action(event)),
        Err(reason) => Err(
            AppError::InputError(String::from_str("Failed to send event: ").concat(reason.as_str())),
        ),
    }
}

/// A hand-over's result with its text taken by its view.
pub open spec fn outcome_view(sent: Result<usize, String>) -> Result<usize, Seq<char>> {
    match sent {
        Ok(receivers) => Ok(receivers),
        Err(reason) => Err(reason@),
    }
}

/// Passes viewers' pointer events on to whoever listens for them.
pub struct InputHandler {
    tx: Sender<TouchEvent>,
}

impl InputHandler {
    /// The channel that events are passed on through.
    pub closed spec fn channel(&self) -> Sender<TouchEvent> {
        self.tx
    }

    /// A handler that passes events on through `tx`.
    pub fn new(tx: Sender<TouchEvent>) -> (handler: InputHandler)
        ensures
            handler.channel() == tx,
    {
        InputHandler { tx }
    }

    /// Routes one event: hands it to the listeners, and on success says
    /// which pointer action the platform is to perform for it. Success
    /// means that the listeners' queue took the event, not that the
    /// action was performed. Coordinates pass through untouched.
    ///
    /// Whether there is a listener is not this function's to decide: with
    /// one the result is the event's action, without one an input error
    /// that says that the channel is closed.
    pub fn handle_event(&self, event: TouchEvent) -> (done: Result<PointerAction, AppError>)
        ensures
            done matches Ok(action) ==> action == action_of(event),
            done matches Err(e) ==> (e matches AppError::InputError(m) && m@
                == "Failed to send event: "@ + "channel closed"@),
    {
        let sent = broadcast_send(&self.tx, event);
        route_outcome(sent, &event)
    }
}

} // verus!
