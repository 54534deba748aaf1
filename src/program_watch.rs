//! Completion of an uploaded program inferred from telemetry alone, for
//! programs uploaded without the handshake wrapper.
//!
//! While a goal is active, every recognised frame's program machine state is
//! watched: a program that was seen running and is idle again has finished
//! successfully; a program that stays idle, never seen running, for longer
//! than [`START_DEADLINE_MS`] never started and has failed. This signal is
//! weaker than the handshake: it cannot tell a failed run from a finished one.
use crate::state::{DriverState, Resolution};
use crate::telemetry::{TelemetrySample, BODY_SIZE};
use vstd::prelude::*;

verus! {

/// Program machine state of an idle program.
pub const PROGRAM_IDLE: i32 = 1;

/// Program machine state of a running program.
pub const PROGRAM_RUNNING: i32 = 2;

/// How long, in milliseconds, a program may stay idle before it is taken as
/// never started.
pub const START_DEADLINE_MS: u64 = 1000;

/// What has been seen of the active goal's program so far.
#[derive(Clone, Copy, PartialEq, Eq, Structural, Debug)]
pub struct ProgramWatch {
    /// The program has been seen running.
    pub seen_running: bool,
    /// When (in milliseconds of a monotonic clock) the program was first seen
    /// idle without having run.
    pub idle_since_ms: Option<u64>,
}

impl ProgramWatch {
    /// Nothing seen yet.
    pub open spec fn fresh() -> ProgramWatch {
        ProgramWatch { seen_running: false, idle_since_ms: None }
    }

    /// Watch and verdict after a frame with program state `state` arrived at
    /// time `now_ms`, while a goal is active.
    pub open spec fn observed(self, state: i32, now_ms: u64) -> (ProgramWatch, Option<bool>) {
        if self.seen_running {
            if state == PROGRAM_IDLE {
                (ProgramWatch::fresh(), Some(true))
            } else {
                (self, None)
            }
        } else if state == PROGRAM_RUNNING {
            (ProgramWatch { seen_running: true, ..self }, None)
        } else if state == PROGRAM_IDLE {
            match self.idle_since_ms {
                None => (ProgramWatch { idle_since_ms: Some(now_ms), ..self }, None),
                Some(t) => if now_ms > t + START_DEADLINE_MS {
                    (ProgramWatch { idle_since_ms: None, ..self }, Some(false))
                } else {
                    (self, None)
                },
            }
        } else {
            (self, None)
        }
    }

    /// A watch that has seen nothing yet.
    pub fn new() -> (r: ProgramWatch)
        ensures
            r == ProgramWatch::fresh(),
    {
        ProgramWatch { seen_running: false, idle_since_ms: None }
    }

    /// Forgets what was seen: the goal ended some other way, or a new one begins.
    pub fn reset(&mut self)
        ensures
            *final(self) == ProgramWatch::fresh(),
    {
        self.seen_running = false;
        self.idle_since_ms = None;
    }

    /// Takes in the program state `state` of a frame that arrived at `now_ms`
    /// while a goal is active, and returns the verdict that settles the goal,
    /// if the program has now finished or has never started.
    pub fn observe(&mut self, state: i32, now_ms: u64) -> (r: Option<bool>)
        ensures
            (*final(self), r) == old(self).observed(state, now_ms),
    {
        if self.seen_running {
            if state == PROGRAM_IDLE {
                self.reset();
                Some(true)
            } else {
                None
            }
        } else if state == PROGRAM_RUNNING {
            self.seen_running = true;
            None
        } else if state == PROGRAM_IDLE {
            match self.idle_since_ms {
                None => {
                    self.idle_since_ms = Some(now_ms);
                    None
                },
                Some(t) => {
                    if now_ms > t && now_ms - t > START_DEADLINE_MS {
                        self.idle_since_ms = None;
                        Some(false)
                    } else {
                        None
                    }
                },
            }
        } else {
            None
        }
    }
}

impl<C, H, F> DriverState<C, H, F> {
    /// State, watch and outcome after a recognised frame whose fields are `s`
    /// arrived at `now_ms`, when completion is inferred from telemetry.
    pub open spec fn framed_watched(self, watch: ProgramWatch, s: TelemetrySample, now_ms: u64) -> (
        Self,
        ProgramWatch,
        Option<Resolution<C>>,
    ) {
        let (t, fault) = self.framed(s);
        if fault is Some || t.active_goal is None {
            (t, ProgramWatch::fresh(), fault)
        } else {
            let (w, verdict) = watch.observed(s.program_state, now_ms);
            match verdict {
                Some(ok) => (t.without_goal(), w, t.resolution(ok)),
                None => (t, w, None),
            }
        }
    }

    /// Applies the body of a telemetry frame that arrived at `now_ms`, and
    /// settles the active goal from the program state when no handshake is
    /// used. A frame of any size but the recognised one changes nothing. A
    /// fault fails the goal, as with [`DriverState::apply_frame`]; otherwise,
    /// while a goal is active, the frame's program state goes to `watch`,
    /// whose verdict, if any, settles the goal. With no goal left, the watch
    /// starts afresh.
    pub fn apply_frame_watched(&mut self, body: &[u8], watch: &mut ProgramWatch, now_ms: u64) -> (r:
        Option<Resolution<C>>)
        ensures
            body@.len() != BODY_SIZE ==> *final(self) == *old(self) && *final(watch) == *old(watch)
                && r is None,
            body@.len() == BODY_SIZE ==> exists|s: TelemetrySample|
                #[trigger] s.decoded_from(body@) && (*final(self), *final(watch), r) == old(
                    self,
                ).framed_watched(*old(watch), s, now_ms),
    {
        let fault = self.apply_frame(body);
        if body.len() != BODY_SIZE {
            return fault;
        }
        if fault.is_some() || self.active_goal.is_none() {
            watch.reset();
            return fault;
        }
        match watch.observe(self.program_state, now_ms) {
            Some(ok) => self.settle_active_goal(ok),
            None => None,
        }
    }
}

} // verus!
