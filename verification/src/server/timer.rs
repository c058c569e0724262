//! Chess clock of a game.

use vstd::prelude::*;
use crate::board::Side;
use crate::outcome::INITIAL_TIME_MS;
use crate::clock::{elapsed_ms, now};

verus! {

use std::time::Instant;

/// `base` minus `elapsed`, stopping at zero.
pub open spec fn saturating_sub(base: u64, elapsed: u64) -> u64 {
    if elapsed >= base {
        0
    } else {
        (base - elapsed) as u64
    }
}

/// Game clock: the time left of each side; the side to move's time runs from the start of
/// its turn unless the clock is paused.
pub struct GameTimer {
    red_time_ms: u64,
    black_time_ms: u64,
    current_turn: Side,
    turn_start: Option<Instant>,
    paused: bool,
}

impl GameTimer {
    /// Time of Red as of the start of the running turn (or the pause).
    pub closed spec fn red_base(&self) -> u64 {
        self.red_time_ms
    }

    /// Time of Black as of the start of the running turn (or the pause).
    pub closed spec fn black_base(&self) -> u64 {
        self.black_time_ms
    }

    pub closed spec fn turn(&self) -> Side {
        self.current_turn
    }

    pub closed spec fn paused_state(&self) -> bool {
        self.paused
    }

    /// Whether a turn start is recorded (the clock runs).
    pub closed spec fn running(&self) -> bool {
        self.turn_start is Some
    }

    /// The stored time of `side`.
    pub open spec fn base_of(&self, side: Side) -> u64 {
        if side == Side::Red {
            self.red_base()
        } else {
            self.black_base()
        }
    }

    /// Whether the time of `side` is running down.
    pub open spec fn ticking(&self, side: Side) -> bool {
        self.turn() == side && !self.paused_state() && self.running()
    }

    /// Time left of `side` when `elapsed` milliseconds have passed since the turn started.
    pub open spec fn spec_time_left(&self, side: Side, elapsed: u64) -> u64 {
        if self.ticking(side) {
            saturating_sub(self.base_of(side), elapsed)
        } else {
            self.base_of(side)
        }
    }

    /// `after` is this clock once the turn has passed: the mover's time left (at some
    /// instant) is stored and the other side's time starts running.
    pub open spec fn spec_switched(self, after: GameTimer) -> bool {
        &&& after.turn() == self.turn().spec_opponent()
        &&& exists|e: u64| after.base_of(self.turn()) == self.spec_time_left(self.turn(), e)
        &&& after.base_of(self.turn().spec_opponent()) == self.base_of(self.turn().spec_opponent())
        &&& after.paused_state() == self.paused_state()
        &&& after.running()
    }

    /// `after` is this clock once paused: unchanged when already paused, else the mover's
    /// time left (at some instant) is stored and nothing runs.
    pub open spec fn spec_paused(self, after: GameTimer) -> bool {
        if self.paused_state() {
            after == self
        } else {
            &&& after.paused_state()
            &&& !after.running()
            &&& after.turn() == self.turn()
            &&& exists|e: u64| after.base_of(self.turn()) == self.spec_time_left(self.turn(), e)
            &&& after.base_of(self.turn().spec_opponent()) == self.base_of(
                self.turn().spec_opponent(),
            )
        }
    }

    /// `after` is this clock once resumed: unchanged when not paused, else running again
    /// with the stored times.
    pub open spec fn spec_resumed(self, after: GameTimer) -> bool {
        if !self.paused_state() {
            after == self
        } else {
            &&& !after.paused_state()
            &&& after.running()
            &&& after.turn() == self.turn()
            &&& after.red_base() == self.red_base()
            &&& after.black_base() == self.black_base()
        }
    }

    /// A clock with ten minutes for each side, Red to move, running.
    pub fn new() -> (t: GameTimer)
        ensures
            t.red_base() == INITIAL_TIME_MS,
            t.black_base() == INITIAL_TIME_MS,
            t.turn() == Side::Red,
            !t.paused_state(),
            t.running(),
    {
        Self::with_time(INITIAL_TIME_MS)
    }

    /// A clock with `time_ms` for each side, Red to move, running.
    pub fn with_time(time_ms: u64) -> (t: GameTimer)
        ensures
            t.red_base() == time_ms,
            t.black_base() == time_ms,
            t.turn() == Side::Red,
            !t.paused_state(),
            t.running(),
    {
        GameTimer {
            red_time_ms: time_ms,
            black_time_ms: time_ms,
            current_turn: Side::Red,
            turn_start: Some(now()),
            paused: false,
        }
    }

    /// Time left of `side` when `elapsed` milliseconds have passed since the turn started.
    pub fn time_left(&self, side: Side, elapsed: u64) -> (r: u64)
        ensures
            r == self.spec_time_left(side, elapsed),
    {
        let base = match side {
            Side::Red => self.red_time_ms,
            Side::Black => self.black_time_ms,
        };
        if self.current_turn == side && !self.paused && self.turn_start.is_some() {
            base.saturating_sub(elapsed)
        } else {
            base
        }
    }

    /// Time left of `side` now: the stored time, less the time since the turn started when
    /// `side` is to move and the clock runs.
    fn current_time_of(&self, side: Side) -> (r: u64)
        ensures
            exists|e: u64| r == self.spec_time_left(side, e),
    {
        let elapsed = match &self.turn_start {
            Some(start) => elapsed_ms(start),
            None => 0,
        };
        self.time_left(side, elapsed)
    }

    /// Red's time left now.
    pub fn red_time_ms(&self) -> (r: u64)
        ensures
            exists|e: u64| r == self.spec_time_left(Side::Red, e),
    {
        self.current_time_of(Side::Red)
    }

    /// Black's time left now.
    pub fn black_time_ms(&self) -> (r: u64)
        ensures
            exists|e: u64| r == self.spec_time_left(Side::Black, e),
    {
        self.current_time_of(Side::Black)
    }

    /// Ends the turn: the mover's time left is stored and the other side's turn starts.
    pub fn switch_turn(&mut self)
        ensures
            old(self).spec_switched(*final(self)),
    {
        match self.current_turn {
            Side::Red => {
                self.red_time_ms = self.red_time_ms();
            },
            Side::Black => {
                self.black_time_ms = self.black_time_ms();
            },
        }
        self.current_turn = self.current_turn.opponent();
        self.turn_start = Some(now());
    }

    /// Stops the clock, storing the mover's time left. Does nothing when already paused.
    pub fn pause(&mut self)
        ensures
            old(self).spec_paused(*final(self)),
    {
        if !self.paused {
            match self.current_turn {
                Side::Red => {
                    self.red_time_ms = self.red_time_ms();
                },
                Side::Black => {
                    self.black_time_ms = self.black_time_ms();
                },
            }
            self.turn_start = None;
            self.paused = true;
        }
    }

    /// Restarts a paused clock. Does nothing when not paused.
    pub fn resume(&mut self)
        ensures
            old(self).spec_resumed(*final(self)),
    {
        if self.paused {
            self.turn_start = Some(now());
            self.paused = false;
        }
    }

    /// Stops the clock for good (as `pause`).
    pub fn stop(&mut self)
        ensures
            old(self).spec_paused(*final(self)),
    {
        self.pause();
    }

    /// Whether `side` has no time left.
    pub fn is_timeout(&self, side: Side) -> (r: bool)
        ensures
            exists|e: u64| r == (self.spec_time_left(side, e) == 0),
    {
        match side {
            Side::Red => self.red_time_ms() == 0,
            Side::Black => self.black_time_ms() == 0,
        }
    }

    /// The side to move.
    pub fn current_turn(&self) -> (r: Side)
        ensures
            r == self.turn(),
    {
        self.current_turn
    }

    /// Whether the clock is paused.
    pub fn is_paused(&self) -> (r: bool)
        ensures
            r == self.paused_state(),
    {
        self.paused
    }

    /// Sets both stored times (when a game is restored).
    pub fn set_times(&mut self, red_time_ms: u64, black_time_ms: u64)
        ensures
            final(self).red_base() == red_time_ms,
            final(self).black_base() == black_time_ms,
            final(self).turn() == old(self).turn(),
            final(self).paused_state() == old(self).paused_state(),
            final(self).running() == old(self).running(),
    {
        self.red_time_ms = red_time_ms;
        self.black_time_ms = black_time_ms;
    }

    /// Restarts the running turn now (after a reconnection); does nothing while paused.
    pub fn reset_turn_start(&mut self)
        ensures
            final(self).red_base() == old(self).red_base(),
            final(self).black_base() == old(self).black_base(),
            final(self).turn() == old(self).turn(),
            final(self).paused_state() == old(self).paused_state(),
            final(self).running() == (old(self).running() || !old(self).paused_state()),
    {
        if !self.paused {
            self.turn_start = Some(now());
        }
    }
}

impl Default for GameTimer {
    /// The clock of `new`.
    fn default() -> (t: GameTimer)
        ensures
            t.red_base() == INITIAL_TIME_MS,
            t.black_base() == INITIAL_TIME_MS,
            t.turn() == Side::Red,
            !t.paused_state(),
            t.running(),
    {
        GameTimer::new()
    }
}

/// Pausing a running clock and then resuming it hands the turn back to the same side with
/// the clock running: the waiting side's time is untouched, and the mover keeps what it had
/// left at the pause (never more than before).
pub proof fn law_pause_then_resume(t0: GameTimer, t1: GameTimer, t2: GameTimer)
    requires
        !t0.paused_state(),
        t0.spec_paused(t1),
        t1.spec_resumed(t2),
    ensures
        t2.turn() == t0.turn(),
        !t2.paused_state(),
        t2.running(),
        t2.base_of(t0.turn().spec_opponent()) == t0.base_of(t0.turn().spec_opponent()),
        t2.base_of(t0.turn()) <= t0.base_of(t0.turn()),
{
    let e = choose|e: u64| t1.base_of(t0.turn()) == t0.spec_time_left(t0.turn(), e);
    assert(t1.base_of(t0.turn()) == t0.spec_time_left(t0.turn(), e));
}

} // verus!
