//! Decision rules of the interactive session: key dispatch for the
//! selectable list, the loop's run/exit state, and the fixed-tick-rate
//! timer that bounds how long an input poll may block.
//!
//! The surrounding loop performs the terminal work — drawing, polling the
//! keyboard, reading the clock — and hands plain values to these functions:
//! the decoded key and the current time in milliseconds since the session
//! started.

use vstd::prelude::*;
use crate::list::StatefulList;
use crate::list::step_next;
use crate::list::step_previous;

verus! {

/// A decoded key press, as the loop dispatches it.
#[derive(Clone, Copy, Debug, PartialEq, Eq, Structural)]
pub enum KeyInput {
    /// The quit key (`q`).
    Quit,
    /// The clear-selection key (`Left`).
    Left,
    /// The move-selection-forward key (`Down`).
    Down,
    /// The move-selection-backward key (`Up`).
    Up,
    /// Any other key: ignored.
    Other,
}

/// The interactive loop's state: it runs until a quit key or a fatal
/// terminal error moves it to `Exiting`, which is terminal.
#[derive(Clone, Copy, Debug, PartialEq, Eq, Structural)]
pub enum LoopState {
    Running,
    Exiting,
}

/// The interactive session's state: the selectable list of fetched names.
pub struct App {
    pub items: StatefulList<String>,
}

impl App {
    /// Builds the session state over the fetched names, nothing selected.
    pub fn new(data: Vec<String>) -> (a: App)
        ensures
            a.items.items_view() == data@,
            a.items.sel() is None,
            a.items.wf(),
    {
        App { items: StatefulList::with_items(data) }
    }

    /// The periodic tick callback: an extension point for time-based
    /// updates, which currently leaves the state unchanged.
    pub fn on_tick(&mut self)
        ensures
            *final(self) == *old(self),
    {
    }

    /// Dispatches one key press: the quit key moves the loop to `Exiting`
    /// and nothing else does; the arrow keys navigate the list; every other
    /// key leaves the state unchanged.
    pub fn handle_key(&mut self, key: KeyInput) -> (s: LoopState)
        requires
            old(self).items.wf(),
        ensures
            final(self).items.wf(),
            final(self).items.items_view() == old(self).items.items_view(),
            s is Exiting <==> key is Quit,
            key is Quit ==> *final(self) == *old(self),
            key is Other ==> *final(self) == *old(self),
            key is Left ==> final(self).items.sel() is None,
            key is Down ==> final(self).items.sel() == (if old(self).items.items_view().len()
                == 0 {
                old(self).items.sel()
            } else {
                step_next(old(self).items.sel(), old(self).items.items_view().len() as int)
            }),
            key is Up ==> final(self).items.sel() == (if old(self).items.items_view().len()
                == 0 {
                old(self).items.sel()
            } else {
                step_previous(old(self).items.sel(), old(self).items.items_view().len() as int)
            }),
    {
        match key {
            KeyInput::Quit => LoopState::Exiting,
            KeyInput::Left => {
                self.items.unselect();
                LoopState::Running
            },
            KeyInput::Down => {
                self.items.next();
                LoopState::Running
            },
            KeyInput::Up => {
                self.items.previous();
                LoopState::Running
            },
            KeyInput::Other => LoopState::Running,
        }
    }
}

/// The fixed-rate tick schedule: remembers when the last tick fired and
/// bounds how long the loop may wait for input before the next one is due.
pub struct TickTimer {
    tick_rate_ms: u64,
    last_tick_ms: u64,
}

impl TickTimer {
    /// The configured interval between ticks, in milliseconds.
    pub closed spec fn tick_rate(self) -> u64 {
        self.tick_rate_ms
    }

    /// When the last tick fired, in milliseconds since the session started.
    pub closed spec fn last_tick(self) -> u64 {
        self.last_tick_ms
    }

    /// Reads when the last tick fired, so the loop can keep its clock
    /// readings from falling behind the schedule.
    pub fn last_tick_ms(&self) -> (t: u64)
        ensures
            t == self.last_tick(),
    {
        self.last_tick_ms
    }

    /// Starts the schedule at the current time.
    pub fn new(tick_rate_ms: u64, now_ms: u64) -> (t: TickTimer)
        ensures
            t.tick_rate() == tick_rate_ms,
            t.last_tick() == now_ms,
    {
        TickTimer { tick_rate_ms, last_tick_ms: now_ms }
    }

    /// The time budget left for polling input before the next tick is due:
    /// the tick rate less the time elapsed since the last tick, and zero
    /// once a tick is already due. The clock is monotonic, so `now_ms`
    /// never precedes the last tick.
    pub fn poll_budget(&self, now_ms: u64) -> (b: u64)
        requires
            now_ms >= self.last_tick(),
        ensures
            b == (if now_ms - self.last_tick() >= self.tick_rate() {
                0int
            } else {
                self.tick_rate() - (now_ms - self.last_tick())
            }),
    {
        let elapsed = now_ms - self.last_tick_ms;
        if elapsed >= self.tick_rate_ms {
            0
        } else {
            self.tick_rate_ms - elapsed
        }
    }

    /// Fires a tick when one is due and reschedules from now: the tick
    /// fires exactly when a full tick interval has elapsed since the last
    /// one, so two consecutive ticks are never closer than the tick rate.
    pub fn try_tick(&mut self, now_ms: u64) -> (fired: bool)
        requires
            now_ms >= old(self).last_tick(),
        ensures
            final(self).tick_rate() == old(self).tick_rate(),
            fired <==> now_ms - old(self).last_tick() >= old(self).tick_rate(),
            fired ==> final(self).last_tick() == now_ms,
            !fired ==> final(self).last_tick() == old(self).last_tick(),
    {
        if now_ms - self.last_tick_ms >= self.tick_rate_ms {
            self.last_tick_ms = now_ms;
            true
        } else {
            false
        }
    }
}

} // verus!
