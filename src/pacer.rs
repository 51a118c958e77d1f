use vstd::prelude::*;

verus! {

/// Refresh rate assumed when the display reports none: 60 Hz, in millihertz.
pub const DEFAULT_REFRESH_MILLIHERTZ: u32 = 60000;

/// Frame interval in whole milliseconds for a refresh rate in millihertz.
pub open spec fn frame_interval(refresh_millihertz: Option<u32>) -> int {
    let rate: int = match refresh_millihertz {
        Some(r) => r as int,
        None => 60000,
    };
    1_000_000int / rate
}

/// The pacing interval: one display refresh, rounded down to whole
/// milliseconds, at 60 Hz when the display reports no rate.
pub fn frame_interval_ms(refresh_millihertz: Option<u32>) -> (r: u64)
    requires
        refresh_millihertz matches Some(v) ==> v > 0,
    ensures
        r == frame_interval(refresh_millihertz),
{
    let rate = match refresh_millihertz {
        Some(v) => v,
        None => DEFAULT_REFRESH_MILLIHERTZ,
    };
    1_000_000u64 / (rate as u64)
}

/// Single-slot signal that the framebuffer holds a frame not yet presented.
/// Any number of sets between two reads count as one.
pub struct DirtyFlag {
    set: bool,
}

/// What one pacer tick does.
#[derive(Clone, Copy, Debug, PartialEq, Eq, Structural)]
pub enum TickAction {
    /// Nothing: no engine flush, no framebuffer copy, no present.
    Idle,
    /// Flush the engine, copy the whole framebuffer to the surface and present it.
    Present,
}

/// The action of a tick that finds the flag in state `set`.
pub open spec fn tick_action(set: bool) -> TickAction {
    if set {
        TickAction::Present
    } else {
        TickAction::Idle
    }
}

/// Frames presented (and so flushes and framebuffer copies made) by an action.
pub open spec fn frames(a: TickAction) -> nat {
    match a {
        TickAction::Present => 1,
        TickAction::Idle => 0,
    }
}

/// The flag after a run of events that each either set it (`true`) or leave it
/// alone (`false`), starting from `start`. Nothing but a tick clears it.
pub open spec fn flag_after(start: bool, sets: Seq<bool>) -> bool
    decreases sets.len(),
{
    if sets.len() == 0 {
        start
    } else {
        flag_after(start, sets.drop_last()) || sets.last()
    }
}

impl DirtyFlag {
    pub closed spec fn is_set(&self) -> bool {
        self.set
    }

    pub fn new(set: bool) -> (r: Self)
        ensures
            r.is_set() == set,
    {
        DirtyFlag { set }
    }

    /// Reads the flag without changing it.
    pub fn get(&self) -> (r: bool)
        ensures
            r == self.is_set(),
    {
        self.set
    }

    /// Signals that a new frame may be ready.
    pub fn mark(&mut self)
        ensures
            final(self).is_set(),
    {
        self.set = true;
    }

    /// Clears the flag and returns what it held.
    pub fn test_and_clear(&mut self) -> (was_set: bool)
        ensures
            was_set == old(self).is_set(),
            !final(self).is_set(),
    {
        let was_set = self.set;
        self.set = false;
        was_set
    }
}

/// One tick of the frame pacer: consumes the flag and says whether to present.
pub fn pacer_tick(flag: &mut DirtyFlag) -> (r: TickAction)
    ensures
        r == tick_action(old(flag).is_set()),
        !final(flag).is_set(),
{
    if flag.test_and_clear() {
        TickAction::Present
    } else {
        TickAction::Idle
    }
}

proof fn lemma_flag_after_set(start: bool, sets: Seq<bool>, i: int)
    requires
        0 <= i < sets.len(),
        sets[i],
    ensures
        flag_after(start, sets),
    decreases sets.len(),
{
    if i < sets.len() - 1 {
        lemma_flag_after_set(start, sets.drop_last(), i);
    }
}

/// Coalescing: any number `n >= 1` of events that set the flag between two
/// ticks lead to exactly one presented frame at the next tick, and a tick
/// right after it presents nothing.
pub proof fn lemma_coalescing(sets: Seq<bool>)
    requires
        sets.len() >= 1,
        forall|i: int| 0 <= i < sets.len() ==> sets[i],
    ensures
        frames(tick_action(flag_after(false, sets))) == 1,
        frames(tick_action(false)) == 0,
{
    lemma_flag_after_set(false, sets, 0);
}

/// No lost redraw: if any event between two ticks sets the flag, the next
/// tick presents, whatever the flag held before.
pub proof fn lemma_no_lost_redraw(start: bool, sets: Seq<bool>, i: int)
    requires
        0 <= i < sets.len(),
        sets[i],
    ensures
        tick_action(flag_after(start, sets)) == TickAction::Present,
{
    lemma_flag_after_set(start, sets, i);
}

/// A tick on a clear flag does no flush, no copy and no present.
pub proof fn lemma_idle_tick()
    ensures
        tick_action(false) == TickAction::Idle,
        frames(tick_action(false)) == 0,
{
}

} // verus!
