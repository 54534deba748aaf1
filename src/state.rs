//! The driver's shared state and the lifecycle of its single active goal.
//!
//! A goal is a submitted program run. Its submitter is owed exactly one
//! verdict, delivered through the goal's completion slot `C`; the slot is held
//! here while the goal is active and handed back, inside a [`Resolution`], by
//! whichever path settles the goal first. The handshake slot `H` is taken once
//! by the handshake listener, and the feedback sink `F` receives free-text
//! progress lines.
use crate::telemetry::{decode_frame, TelemetrySample, BODY_SIZE};
use crate::text::same_text;
use vstd::prelude::*;

verus! {

/// The robot machine state that means "normal"; any other value is a fault.
pub const NORMAL_ROBOT_STATE: i32 = 1;

/// A goal that has been accepted and not yet resolved.
pub struct ActiveGoal<C, H, F> {
    pub goal_id: String,
    pub completion: C,
    /// Present until the handshake listener takes it.
    pub handshake: Option<H>,
    pub feedback: F,
}

/// A verdict owed to a submitter, with the completion slot to deliver it on.
#[derive(Debug)]
pub struct Resolution<C> {
    pub completion: C,
    pub success: bool,
}

/// Everything the driver's loops share: connection status, the latest
/// telemetry and the active goal, if any.
pub struct DriverState<C, H, F> {
    /// Whether the telemetry connection is up.
    pub connected: bool,
    /// Robot machine state of the latest frame.
    pub robot_state: i32,
    /// Program machine state of the latest frame.
    pub program_state: i32,
    /// Bit patterns of the joint position doubles of the latest frame.
    pub joint_values: Vec<u64>,
    /// Bit patterns of the joint speed doubles of the latest frame.
    pub joint_speeds: Vec<u64>,
    /// The ten digital inputs of the latest frame.
    pub digital_inputs: Vec<bool>,
    /// The eight digital outputs of the latest frame.
    pub digital_outputs: Vec<bool>,
    pub active_goal: Option<ActiveGoal<C, H, F>>,
}

impl<C, H, F> DriverState<C, H, F> {
    /// A new goal is accepted only while telemetry is connected and no goal is active.
    pub open spec fn accepts_goal(&self) -> bool {
        self.connected && self.active_goal is None
    }

    /// The active goal has id `id`.
    pub open spec fn holds_goal(&self, id: Seq<char>) -> bool {
        self.active_goal matches Some(g) && g.goal_id@ == id
    }

    /// The verdict `success` for the active goal, if there is one.
    pub open spec fn resolution(&self, success: bool) -> Option<Resolution<C>> {
        match self.active_goal {
            Some(g) => Some(Resolution { completion: g.completion, success }),
            None => None,
        }
    }

    /// This state with `goal` registered as the active goal.
    pub open spec fn with_goal(self, goal: ActiveGoal<C, H, F>) -> Self {
        DriverState { active_goal: Some(goal), ..self }
    }

    /// This state with no active goal.
    pub open spec fn without_goal(self) -> Self {
        DriverState { active_goal: None, ..self }
    }

    /// State and outcome of a goal submission: either the goal is registered,
    /// with its handshake slot still to be taken, or the submitter is owed a
    /// failure and nothing changes.
    pub open spec fn submitted(self, goal_id: String, completion: C, handshake: H, feedback: F) -> (
        Self,
        Result<(), Resolution<C>>,
    ) {
        if self.accepts_goal() {
            (
                self.with_goal(
                    ActiveGoal { goal_id, completion, handshake: Some(handshake), feedback },
                ),
                Ok(()),
            )
        } else {
            (self, Err(Resolution { completion, success: false }))
        }
    }

    /// State and outcome of settling goal `id` with `success`: a no-op unless
    /// `id` is the active goal.
    pub open spec fn settled(self, id: Seq<char>, success: bool) -> (Self, Option<
        Resolution<C>,
    >) {
        if self.holds_goal(id) {
            (self.without_goal(), self.resolution(success))
        } else {
            (self, None)
        }
    }

    /// State and outcome of a telemetry read timeout: the connection is down
    /// and the active goal, if any, fails.
    pub open spec fn timed_out(self) -> (Self, Option<Resolution<C>>) {
        (DriverState { connected: false, active_goal: None, ..self }, self.resolution(false))
    }

    /// State after the telemetry connection has been made again.
    pub open spec fn reconnected(self) -> Self {
        DriverState { connected: true, ..self }
    }

    /// State and outcome of the end of the handshake wait for goal `id`: a
    /// confirmed handshake leaves the goal running; otherwise it fails.
    pub open spec fn handshake_waited(self, id: Seq<char>, confirmed: bool) -> (Self, Option<
        Resolution<C>,
    >) {
        if confirmed {
            (self, None)
        } else {
            self.settled(id, false)
        }
    }

    /// This state with the telemetry of `s` recorded.
    pub open spec fn with_sample(self, s: TelemetrySample) -> Self {
        DriverState {
            robot_state: s.robot_state,
            program_state: s.program_state,
            joint_values: s.joint_positions,
            joint_speeds: s.joint_speeds,
            digital_inputs: s.digital_inputs,
            digital_outputs: s.digital_outputs,
            ..self
        }
    }

    /// State and outcome of a recognised frame whose fields are `s`: the
    /// telemetry is recorded, and a robot state other than normal fails the
    /// active goal, if any.
    pub open spec fn framed(self, s: TelemetrySample) -> (Self, Option<Resolution<C>>) {
        if s.robot_state == NORMAL_ROBOT_STATE {
            (self.with_sample(s), None)
        } else {
            (self.with_sample(s).without_goal(), self.resolution(false))
        }
    }

    /// The active goal still has its handshake slot.
    pub open spec fn handshake_pending(&self) -> bool {
        self.active_goal matches Some(g) && g.handshake is Some
    }

    /// State after the handshake listener took the active goal's handshake slot.
    pub open spec fn handshake_taken(self) -> Self {
        match self.active_goal {
            Some(g) if g.handshake is Some => self.with_goal(ActiveGoal { handshake: None, ..g }),
            _ => self,
        }
    }

    /// A state with no telemetry yet, disconnected and without a goal.
    pub fn new() -> (r: Self)
        ensures
            !r.connected,
            r.active_goal is None,
            r.robot_state == 0,
            r.program_state == 0,
            r.joint_values@.len() == 0,
            r.joint_speeds@.len() == 0,
            r.digital_inputs@ == Seq::new(10, |i: int| false),
            r.digital_outputs@ == Seq::new(8, |i: int| false),
    {
        let mut digital_inputs: Vec<bool> = Vec::new();
        for i in 0..10usize
            invariant
                digital_inputs@ == Seq::new(i as nat, |j: int| false),
        {
            digital_inputs.push(false);
            assert(digital_inputs@ =~= Seq::new((i + 1) as nat, |j: int| false));
        }
        let mut digital_outputs: Vec<bool> = Vec::new();
        for i in 0..8usize
            invariant
                digital_outputs@ == Seq::new(i as nat, |j: int| false),
        {
            digital_outputs.push(false);
            assert(digital_outputs@ =~= Seq::new((i + 1) as nat, |j: int| false));
        }
        DriverState {
            connected: false,
            robot_state: 0,
            program_state: 0,
            joint_values: Vec::new(),
            joint_speeds: Vec::new(),
            digital_inputs,
            digital_outputs,
            active_goal: None,
        }
    }

    /// Settles the active goal, whatever its id, with `success`: the goal is
    /// cleared and the verdict owed to it handed back.
    pub fn settle_active_goal(&mut self, success: bool) -> (r: Option<Resolution<C>>)
        ensures
            *final(self) == old(self).without_goal(),
            r == old(self).resolution(success),
    {
        match self.active_goal.take() {
            Some(g) => Some(Resolution { completion: g.completion, success }),
            None => None,
        }
    }

    /// Whether the active goal has id `goal_id`.
    pub fn is_active_goal(&self, goal_id: &str) -> (r: bool)
        ensures
            r == self.holds_goal(goal_id@),
    {
        match &self.active_goal {
            Some(g) => same_text(g.goal_id.as_str(), goal_id),
            None => false,
        }
    }

    /// Submits a goal. It is registered, with its handshake slot, when
    /// telemetry is connected and no goal is active; otherwise nothing changes
    /// and the submitter's failure is handed back.
    pub fn submit_goal(&mut self, goal_id: String, completion: C, handshake: H, feedback: F) -> (r:
        Result<(), Resolution<C>>)
        ensures
            (*final(self), r) == old(self).submitted(goal_id, completion, handshake, feedback),
    {
        if self.connected && self.active_goal.is_none() {
            self.active_goal = Some(
                ActiveGoal { goal_id, completion, handshake: Some(handshake), feedback },
            );
            Ok(())
        } else {
            Err(Resolution { completion, success: false })
        }
    }

    /// Settles goal `goal_id` with `success`, if it is still the active goal.
    /// Settling a goal that is no longer active does nothing.
    pub fn settle_goal(&mut self, goal_id: &str, success: bool) -> (r: Option<Resolution<C>>)
        ensures
            (*final(self), r) == old(self).settled(goal_id@, success),
    {
        if self.is_active_goal(goal_id) {
            self.settle_active_goal(success)
        } else {
            None
        }
    }

    /// The telemetry read timed out: the connection is marked down and the
    /// active goal, if any, fails.
    pub fn telemetry_timed_out(&mut self) -> (r: Option<Resolution<C>>)
        ensures
            (*final(self), r) == old(self).timed_out(),
    {
        self.connected = false;
        self.settle_active_goal(false)
    }

    /// The telemetry connection is up again. No goal is touched.
    pub fn telemetry_reconnected(&mut self)
        ensures
            *final(self) == old(self).reconnected(),
    {
        self.connected = true;
    }

    /// Applies the body of a telemetry frame. A frame of any size but the
    /// recognised one changes nothing. A recognised frame replaces the
    /// telemetry fields, and a robot state other than normal fails the active
    /// goal, if any.
    pub fn apply_frame(&mut self, body: &[u8]) -> (r: Option<Resolution<C>>)
        ensures
            body@.len() != BODY_SIZE ==> *final(self) == *old(self) && r is None,
            body@.len() == BODY_SIZE ==> exists|s: TelemetrySample|
                #[trigger] s.decoded_from(body@) && (*final(self), r) == old(self).framed(s),
    {
        match decode_frame(body) {
            None => None,
            Some(s) => {
                let fault = s.robot_state != NORMAL_ROBOT_STATE;
                self.robot_state = s.robot_state;
                self.program_state = s.program_state;
                self.joint_values = s.joint_positions;
                self.joint_speeds = s.joint_speeds;
                self.digital_inputs = s.digital_inputs;
                self.digital_outputs = s.digital_outputs;
                if fault {
                    self.settle_active_goal(false)
                } else {
                    None
                }
            },
        }
    }

    /// The handshake listener accepted a connection: it takes the handshake
    /// slot of the active goal, with the goal's id, unless there is no active
    /// goal or its slot was already taken.
    pub fn take_handshake(&mut self) -> (r: Option<(String, H)>)
        ensures
            *final(self) == old(self).handshake_taken(),
            old(self).handshake_pending() <==> r is Some,
            r matches Some((id, h)) ==> old(self).active_goal matches Some(g) && id@ == g.goal_id@
                && g.handshake == Some(h),
    {
        match &mut self.active_goal {
            Some(g) => {
                match g.handshake.take() {
                    Some(h) => Some((g.goal_id.clone(), h)),
                    None => None,
                }
            },
            None => None,
        }
    }

    /// The handshake wait of goal `goal_id` ended: confirmed, the goal keeps
    /// running and the listener settles it later; otherwise (refused, or no
    /// answer in time) it fails, if it is still active.
    pub fn finish_handshake_wait(&mut self, goal_id: &str, confirmed: bool) -> (r: Option<
        Resolution<C>,
    >)
        ensures
            (*final(self), r) == old(self).handshake_waited(goal_id@, confirmed),
    {
        if confirmed {
            None
        } else {
            self.settle_goal(goal_id, false)
        }
    }

    /// The feedback sink of goal `goal_id`, while it is the active goal.
    pub fn feedback_sink(&self, goal_id: &str) -> (r: Option<&F>)
        ensures
            r matches Some(f) ==> self.active_goal matches Some(g) && g.feedback == *f,
            r is Some <==> self.holds_goal(goal_id@),
    {
        if self.is_active_goal(goal_id) {
            match &self.active_goal {
                Some(g) => Some(&g.feedback),
                None => None,
            }
        } else {
            None
        }
    }
}

/// Something that happens to the active goal after it was accepted.
pub enum GoalEvent {
    /// Goal `id` settled with the verdict, on an `ok` or `error` line or on a
    /// failure to send the program.
    Settled(Seq<char>, bool),
    /// The handshake wait of goal `id` ended, confirmed or not.
    HandshakeWaited(Seq<char>, bool),
    /// The handshake listener took the handshake slot.
    HandshakeTaken,
    /// The telemetry read timed out.
    TelemetryTimedOut,
    /// A recognised telemetry frame with these fields arrived.
    Frame(TelemetrySample),
}

impl<C, H, F> DriverState<C, H, F> {
    /// State and outcome of `e`, as the matching method of [`DriverState`] has it.
    pub open spec fn after(self, e: GoalEvent) -> (Self, Option<Resolution<C>>) {
        match e {
            GoalEvent::Settled(id, success) => self.settled(id, success),
            GoalEvent::HandshakeWaited(id, confirmed) => self.handshake_waited(id, confirmed),
            GoalEvent::HandshakeTaken => (self.handshake_taken(), None),
            GoalEvent::TelemetryTimedOut => self.timed_out(),
            GoalEvent::Frame(sample) => self.framed(sample),
        }
    }
}

/// A second submission while a goal is active is refused with a failure
/// for its own submitter, and leaves the state, and so every later
/// settlement of the first goal, exactly as it was.
pub proof fn lemma_second_submission_refused<C, H, F>(
    s: DriverState<C, H, F>,
    goal_id: String,
    completion: C,
    handshake: H,
    feedback: F,
    first_id: Seq<char>,
    success: bool,
)
    requires
        s.active_goal is Some,
    ensures
        s.submitted(goal_id, completion, handshake, feedback).0 == s,
        s.submitted(goal_id, completion, handshake, feedback).1 == Err::<(), Resolution<C>>(
            Resolution { completion, success: false },
        ),
        s.submitted(goal_id, completion, handshake, feedback).0.settled(first_id, success)
            == s.settled(first_id, success),
{
}

/// A completion slot is never lost: every event either hands the active
/// goal's slot back, with a verdict, and clears the goal, or keeps the same
/// goal with the same slot; with no goal active, no event resolves anything.
pub proof fn lemma_completion_kept_or_resolved<C, H, F>(s: DriverState<C, H, F>, e: GoalEvent)
    ensures
        match s.active_goal {
            None => s.after(e).1 is None && s.after(e).0.active_goal is None,
            Some(g) => {
                ||| s.after(e).1 matches Some(res) && res.completion == g.completion
                    && s.after(e).0.active_goal is None
                ||| s.after(e).1 is None && (s.after(e).0.active_goal matches Some(h)
                    && h.completion == g.completion && h.goal_id == g.goal_id)
            },
        },
{
}

/// Once one path has resolved the active goal, any other path that comes
/// after it (a racing telemetry fault, a late `ok`, a handshake timeout)
/// resolves nothing.
pub proof fn lemma_resolved_at_most_once<C, H, F>(
    s: DriverState<C, H, F>,
    first: GoalEvent,
    second: GoalEvent,
)
    requires
        s.after(first).1 is Some,
    ensures
        s.after(first).0.after(second).1 is None,
        s.after(first).0.after(second).0.active_goal is None,
{
    lemma_completion_kept_or_resolved(s, first);
    lemma_completion_kept_or_resolved(s.after(first).0, second);
}

/// A telemetry timeout fails the active goal and marks the connection down;
/// the reconnection that follows marks it up again and resolves nothing.
pub proof fn lemma_timeout_then_reconnect<C, H, F>(s: DriverState<C, H, F>)
    ensures
        s.timed_out().1 == s.resolution(false),
        !s.timed_out().0.connected,
        s.timed_out().0.active_goal is None,
        s.timed_out().0.reconnected().connected,
        s.timed_out().0.reconnected().active_goal is None,
{
}

/// A peer that echoes anything but the goal id fails that goal: the
/// handshake wait ends unconfirmed, and the goal is cleared with a failure.
pub proof fn lemma_echo_mismatch_fails_goal<C, H, F>(
    s: DriverState<C, H, F>,
    goal_id: Seq<char>,
    reply: Seq<char>,
)
    requires
        s.holds_goal(goal_id),
        reply != goal_id,
    ensures
        s.handshake_waited(goal_id, reply == goal_id).0 == s.without_goal(),
        s.handshake_waited(goal_id, reply == goal_id).1 == s.resolution(false),
        s.resolution(false) matches Some(res) && !res.success,
{
}

} // verus!
