//! Whether the pointer is currently held down, and what follows from that.
//!
//! The pointer is released or pressed. Going down presses it and going up
//! releases it; moving changes nothing. A stroke is painted when the
//! pointer goes down and when it moves while pressed.

use vstd::prelude::*;

verus! {

/// What the pointer can report.
#[derive(Clone, Copy, Debug, PartialEq, Eq)]
pub enum PointerEvent {
    Down,
    Move,
    Up,
}

impl PointerEvent {
    /// Whether the pointer is pressed after this event, if `pressed` says
    /// whether it was before.
    pub open spec fn leaves_pressed(self, pressed: bool) -> bool {
        match self {
            PointerEvent::Down => true,
            PointerEvent::Move => pressed,
            PointerEvent::Up => false,
        }
    }

    /// Whether this event paints a stroke, if `pressed` says whether the
    /// pointer was pressed before it.
    pub open spec fn paints(self, pressed: bool) -> bool {
        match self {
            PointerEvent::Down => true,
            PointerEvent::Move => pressed,
            PointerEvent::Up => false,
        }
    }

    /// Whether this event is one of the button, down or up.
    pub open spec fn is_button(self) -> bool {
        self != PointerEvent::Move
    }
}

/// Whether the pointer is pressed after a sequence of events, if `pressed`
/// says whether it was before.
pub open spec fn pressed_after(pressed: bool, events: Seq<PointerEvent>) -> bool
    decreases events.len(),
{
    if events.len() == 0 {
        pressed
    } else {
        events.last().leaves_pressed(pressed_after(pressed, events.drop_last()))
    }
}

/// Whether the event at index `at` of a sequence paints a stroke, if
/// `pressed` says whether the pointer was pressed before the sequence.
pub open spec fn paints_at(pressed: bool, events: Seq<PointerEvent>, at: int) -> bool
    recommends
        0 <= at < events.len(),
{
    events[at].paints(pressed_after(pressed, events.take(at)))
}

/// Only the button counts. After a sequence of events the pointer is
/// pressed if the last button event among them was a down; where there
/// was none, it is as it was before.
pub proof fn lemma_last_button_event_decides(pressed: bool, events: Seq<PointerEvent>)
    ensures
        (forall|i: int| 0 <= i < events.len() ==> !(#[trigger] events[i]).is_button())
            ==> pressed_after(pressed, events) == pressed,
        forall|last: int|
            0 <= last < events.len() && (#[trigger] events[last]).is_button() && (forall|i: int|
                last < i < events.len() ==> !(#[trigger] events[i]).is_button())
                ==> pressed_after(pressed, events) == (events[last] == PointerEvent::Down),
    decreases events.len(),
{
    if events.len() > 0 {
        let before = events.drop_last();
        lemma_last_button_event_decides(pressed, before);
        assert(forall|i: int| 0 <= i < before.len() ==> before[i] == events[i]);
        if !events.last().is_button() {
            assert forall|last: int|
                0 <= last < events.len() && (#[trigger] events[last]).is_button() && (forall|
                    i: int,
                | last < i < events.len() ==> !(#[trigger] events[i]).is_button())
                implies pressed_after(pressed, events) == (events[last] == PointerEvent::Down) by {
                assert(last < before.len());
                assert(before[last].is_button());
                assert forall|i: int| last < i < before.len() implies !(#[trigger] before[
                    i
                ]).is_button() by {
                    assert(before[i] == events[i]);
                }
            }
        } else {
            assert forall|last: int|
                0 <= last < events.len() && (#[trigger] events[last]).is_button() && (forall|
                    i: int,
                | last < i < events.len() ==> !(#[trigger] events[i]).is_button())
                implies pressed_after(pressed, events) == (events[last] == PointerEvent::Down) by {
                if last < events.len() - 1 {
                    assert(!events[events.len() - 1].is_button());
                }
            }
        }
    }
}

/// A move paints exactly while the pointer is held: if the last button
/// event before it was a down. A down always paints, an up never does.
pub proof fn lemma_paints_while_held(pressed: bool, events: Seq<PointerEvent>, at: int)
    requires
        0 <= at < events.len(),
    ensures
        events[at] == PointerEvent::Down ==> paints_at(pressed, events, at),
        events[at] == PointerEvent::Up ==> !paints_at(pressed, events, at),
        events[at] == PointerEvent::Move ==> forall|last: int|
            0 <= last < at && (#[trigger] events[last]).is_button() && (forall|i: int|
                last < i < at ==> !(#[trigger] events[i]).is_button()) ==> paints_at(
                pressed,
                events,
                at,
            ) == (events[last] == PointerEvent::Down),
{
    let before = events.take(at);
    lemma_last_button_event_decides(pressed, before);
    assert(forall|i: int| 0 <= i < before.len() ==> before[i] == events[i]);
    if events[at] == PointerEvent::Move {
        assert forall|last: int|
            0 <= last < at && (#[trigger] events[last]).is_button() && (forall|i: int|
                last < i < at ==> !(#[trigger] events[i]).is_button()) implies paints_at(
            pressed,
            events,
            at,
        ) == (events[last] == PointerEvent::Down) by {
            assert(before[last].is_button());
            assert forall|i: int| last < i < before.len() implies !(#[trigger] before[
                i
            ]).is_button() by {
                assert(before[i] == events[i]);
            }
        }
    }
}

/// The two-state pointer tracker: released (the initial state) or pressed.
#[derive(Debug)]
pub struct PointerState {
    pressed: bool,
}

impl PointerState {
    /// The state this tracker is in: `true` for pressed.
    pub closed spec fn is_pressed(&self) -> bool {
        self.pressed
    }

    /// A tracker in the released state.
    pub fn new() -> (state: Self)
        ensures
            !state.is_pressed(),
    {
        Self { pressed: false }
    }

    /// Moves to the pressed state for `true`, to the released state for `false`.
    pub fn set_pressed(&mut self, pressed: bool)
        ensures
            final(self).is_pressed() == pressed,
    {
        self.pressed = pressed;
    }

    /// Whether the pointer is pressed.
    pub fn pressed(&self) -> (pressed: bool)
        ensures
            pressed == self.is_pressed(),
    {
        self.pressed
    }
}

} // verus!
