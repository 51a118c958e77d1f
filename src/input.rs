use vstd::prelude::*;

use crate::keymap::{key_bytes, translate_key, PhysicalKey};

verus! {

/// Capacity of each of the two bounded queues: local input events and
/// outbound bytes.
pub const QUEUE_CAPACITY: usize = 1024;

/// Mouse input handed to the terminal engine.
#[derive(Clone, Copy, Debug, PartialEq, Eq, Structural)]
pub enum MouseInput {
    /// Scroll by whole lines; positive scrolls up.
    Scroll(isize),
}

/// A local input event on its way to the session.
#[derive(Clone, Copy, Debug, PartialEq, Eq, Structural)]
pub enum AppEvent {
    /// One scancode byte.
    Keyboard(u8),
    Mouse(MouseInput),
}

/// The scroll event for one wheel step: one line, up when the wheel moved by
/// a positive amount and down otherwise, whatever the magnitude.
pub fn scroll_event(positive: bool) -> (r: AppEvent)
    ensures
        r == AppEvent::Mouse(MouseInput::Scroll(if positive { 1isize } else { -1isize })),
{
    let lines: isize = if positive { 1 } else { -1 };
    AppEvent::Mouse(MouseInput::Scroll(lines))
}

/// The keyboard events of one key press or release, one per scancode byte,
/// in the order they go on the queue.
pub fn key_events(key: PhysicalKey, released: bool) -> (r: Vec<AppEvent>)
    ensures
        r@.len() == key_bytes(key, released).len(),
        forall|i: int|
            0 <= i < r@.len() ==> r@[i] == AppEvent::Keyboard(key_bytes(key, released)[i]),
{
    let bytes = translate_key(key, released);
    let mut events: Vec<AppEvent> = Vec::new();
    let mut i: usize = 0;
    while i < bytes.len()
        invariant
            bytes@ == key_bytes(key, released),
            i <= bytes@.len(),
            events@.len() == i,
            forall|j: int| 0 <= j < i ==> events@[j] == AppEvent::Keyboard(bytes@[j]),
        decreases bytes@.len() - i,
    {
        events.push(AppEvent::Keyboard(bytes[i]));
        i = i + 1;
    }
    events
}

} // verus!
