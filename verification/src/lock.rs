//! Lock state machine, instruction arbitration, and actuator sequencing.

use vstd::prelude::*;

use crate::rpi::{
    DigitalOutput, GpioProvider, LED, LEDState, MIN_STEP_DELAY_MS, MotorDirection, StepMotor,
    Timekeeper, IN_USE_LED_PIN, READY_LED_PIN,
};

verus! {

/// The authoritative position of the lock. Mutated only by the coordinator
/// cycle; initialized at boot from an operator-supplied value.
#[derive(Debug, Clone, Copy, PartialEq, Eq, Structural)]
pub enum LockState {
    Unlocked,
    Locked,
}

/// Provenance tag for an instruction, carried for decisioning and logging.
#[derive(Debug, Clone, Copy, PartialEq, Eq, Structural)]
pub enum InstructionSource {
    Button,
    Api,
    AutoSensor,
}

/// An instruction submitted to the arbiter. `Filler` is a sentinel with no
/// semantic effect beyond occupying queue capacity after a real instruction
/// is accepted.
#[derive(Debug, Clone, Copy, PartialEq, Eq, Structural)]
pub enum LockInstruction {
    EnsureLocked(InstructionSource),
    EnsureUnlocked(InstructionSource),
    Reverse(InstructionSource),
    Filler,
}

/// The physical motion the actuator is asked to perform.
#[derive(Debug, Clone, Copy, PartialEq, Eq, Structural)]
pub enum LockAction {
    Lock,
    Unlock,
}

/// Busy failure: the arbiter's guard or queue is already occupied. Local and
/// non-propagating; the caller decides whether to drop or retry.
#[derive(Debug, Clone, Copy, PartialEq, Eq, Structural)]
pub struct LockInUse;

/// The transition table: which action, if any, a state takes for an
/// instruction. `None` means the requested state is already achieved
/// (or the instruction is a filler sentinel).
pub open spec fn spec_to_action(state: LockState, instruction: LockInstruction) -> Option<
    LockAction,
> {
    match (state, instruction) {
        (LockState::Unlocked, LockInstruction::EnsureLocked(_)) => Some(LockAction::Lock),
        (LockState::Unlocked, LockInstruction::Reverse(_)) => Some(LockAction::Lock),
        (LockState::Locked, LockInstruction::EnsureUnlocked(_)) => Some(LockAction::Unlock),
        (LockState::Locked, LockInstruction::Reverse(_)) => Some(LockAction::Unlock),
        _ => None,
    }
}

/// The state with the opposite position.
pub open spec fn spec_flip(state: LockState) -> LockState {
    match state {
        LockState::Unlocked => LockState::Locked,
        LockState::Locked => LockState::Unlocked,
    }
}

impl LockState {
    /// Pure, total decision function: the single source of truth for
    /// transition logic.
    pub fn to_action(&self, instruction: LockInstruction) -> (r: Option<LockAction>)
        ensures
            r == spec_to_action(*self, instruction),
    {
        match (self, instruction) {
            (LockState::Unlocked, LockInstruction::EnsureLocked(_)) => Some(LockAction::Lock),
            (LockState::Unlocked, LockInstruction::Reverse(_)) => Some(LockAction::Lock),
            (LockState::Locked, LockInstruction::EnsureUnlocked(_)) => Some(LockAction::Unlock),
            (LockState::Locked, LockInstruction::Reverse(_)) => Some(LockAction::Unlock),
            _ => None,
        }
    }

    /// Parses the operator-supplied boot value; the caller normalizes
    /// case and whitespace and decides what a refusal is fatal to.
    pub fn from_name(name: &str) -> (r: Option<LockState>)
        ensures
            name@ == "locked"@ ==> r == Some(LockState::Locked),
            name@ == "unlocked"@ ==> r == Some(LockState::Unlocked),
            name@ != "locked"@ && name@ != "unlocked"@ ==> r is None,
    {
        proof {
            reveal_strlit("locked");
            reveal_strlit("unlocked");
            assert("locked"@.len() == 6);
            assert("unlocked"@.len() == 8);
        }
        if crate::routes::str_eq(name, "locked") {
            Some(LockState::Locked)
        } else if crate::routes::str_eq(name, "unlocked") {
            Some(LockState::Unlocked)
        } else {
            None
        }
    }

    /// Flips the state; committed by the coordinator after an actuation.
    pub fn set_reverse(&mut self)
        ensures
            *final(self) == spec_flip(*old(self)),
    {
        match self {
            LockState::Unlocked => {
                *self = LockState::Locked;
            },
            LockState::Locked => {
                *self = LockState::Unlocked;
            },
        }
    }
}

/// `set_reverse` is an involution: it takes the state to `spec_flip` of
/// it, and flipping twice restores the original state.
pub proof fn lemma_set_reverse_involution(state: LockState)
    ensures
        spec_flip(spec_flip(state)) == state,
{
}

/// The transition table, spelled out row by row. The decision is total,
/// ignores the instruction's source, and a filler never acts.
pub proof fn lemma_to_action_table(src: InstructionSource)
    ensures
        spec_to_action(LockState::Unlocked, LockInstruction::EnsureLocked(src)) == Some(
            LockAction::Lock,
        ),
        spec_to_action(LockState::Unlocked, LockInstruction::Reverse(src)) == Some(
            LockAction::Lock,
        ),
        spec_to_action(LockState::Unlocked, LockInstruction::EnsureUnlocked(src)) is None,
        spec_to_action(LockState::Locked, LockInstruction::EnsureUnlocked(src)) == Some(
            LockAction::Unlock,
        ),
        spec_to_action(LockState::Locked, LockInstruction::Reverse(src)) == Some(
            LockAction::Unlock,
        ),
        spec_to_action(LockState::Locked, LockInstruction::EnsureLocked(src)) is None,
        forall|state: LockState| spec_to_action(state, LockInstruction::Filler) is None,
{
}

/// Admission interface through which producers submit instructions.
/// Submission is non-blocking: a `LockInUse` failure is observed
/// synchronously, and the caller owns the retry policy.
pub trait LockInstructor: Sized {
    /// Internal well-formedness of the submission path.
    spec fn wf(&self) -> bool;

    /// True while an earlier instruction is still in flight, i.e. while a
    /// new submission would be refused.
    spec fn busy(&self) -> bool;

    /// The instructions currently queued, oldest first.
    spec fn pending(&self) -> Seq<LockInstruction>;

    /// Try to submit an instruction. Accepted exactly when nothing is in
    /// flight; an accepted instruction is queued together with a trailing
    /// `Filler` sentinel so that no second instruction can slip in before
    /// the coordinator drains the queue.
    fn send_instruction(&mut self, instruction: LockInstruction) -> (r: Result<(), LockInUse>)
        requires
            old(self).wf(),
        ensures
            final(self).wf(),
            r is Ok <==> !old(self).busy(),
            r is Ok ==> final(self).pending() == old(self).pending() + seq![
                instruction,
                LockInstruction::Filler,
            ],
            r is Ok ==> final(self).busy(),
            r is Err ==> *final(self) == *old(self),
    ;
}

/// The instruction arbiter: a capacity-one real slot plus an exclusive-use
/// guard. The guard is held by the coordinator while it processes an
/// instruction; the `Filler` sentinel keeps the queue full between a
/// producer's accept and the coordinator's drain.
pub struct Arbiter {
    in_use: bool,
    queue: Vec<LockInstruction>,
}

impl Arbiter {
    /// True while the coordinator holds the exclusive-use guard.
    pub closed spec fn guard_held(&self) -> bool {
        self.in_use
    }

    /// The queued instructions, oldest first.
    pub closed spec fn queue_seq(&self) -> Seq<LockInstruction> {
        self.queue@
    }

    /// Protocol invariant. While the guard is free the queue is either empty
    /// or holds exactly one accepted instruction followed by its `Filler`;
    /// while the guard is held only residual fillers remain.
    pub open spec fn inv(&self) -> bool {
        if self.guard_held() {
            self.queue_seq().len() <= 1 && (forall|i: int|
                0 <= i < self.queue_seq().len() ==> self.queue_seq()[i] is Filler)
        } else {
            self.queue_seq().len() == 0 || (self.queue_seq().len() == 2 && self.queue_seq()[1]
                is Filler)
        }
    }

    /// A fresh arbiter: queue empty, guard free.
    pub fn new() -> (r: Arbiter)
        ensures
            r.inv(),
            !r.guard_held(),
            !r.busy(),
            r.queue_seq().len() == 0,
    {
        Arbiter { in_use: false, queue: Vec::new() }
    }

    /// The coordinator's entry into a cycle: if an instruction is waiting,
    /// acquire the guard and dequeue it.
    pub fn begin_cycle(&mut self) -> (r: Option<LockInstruction>)
        requires
            old(self).inv(),
            !old(self).guard_held(),
        ensures
            final(self).inv(),
            old(self).queue_seq().len() == 0 ==> r is None && *final(self) == *old(self),
            old(self).queue_seq().len() > 0 ==> {
                &&& r == Some(old(self).queue_seq()[0])
                &&& final(self).guard_held()
                &&& final(self).queue_seq() == old(self).queue_seq().skip(1)
            },
    {
        if self.queue.len() == 0 {
            None
        } else {
            self.in_use = true;
            let first = self.queue.remove(0);
            Some(first)
        }
    }

    /// The coordinator's exit from a cycle: discard residual fillers and
    /// release the guard, restoring the queue to empty.
    pub fn finish_cycle(&mut self)
        requires
            old(self).inv(),
            old(self).guard_held(),
        ensures
            final(self).inv(),
            !final(self).guard_held(),
            !final(self).busy(),
            final(self).queue_seq().len() == 0,
    {
        while self.queue.len() > 0
            invariant
                self.in_use,
                self.queue@.len() <= 1,
                forall|i: int| 0 <= i < self.queue@.len() ==> self.queue@[i] is Filler,
            decreases self.queue@.len(),
        {
            let _ = self.queue.remove(0);
        }
        self.in_use = false;
    }
}

impl LockInstructor for Arbiter {
    open spec fn wf(&self) -> bool {
        self.inv()
    }

    open spec fn busy(&self) -> bool {
        self.guard_held() || self.queue_seq().len() > 0
    }

    open spec fn pending(&self) -> Seq<LockInstruction> {
        self.queue_seq()
    }

    fn send_instruction(&mut self, instruction: LockInstruction) -> (r: Result<(), LockInUse>)
        ensures
            final(self).guard_held() == old(self).guard_held(),
    {
        if self.in_use || self.queue.len() > 0 {
            Err(LockInUse)
        } else {
            self.queue.push(instruction);
            self.queue.push(LockInstruction::Filler);
            assert(self.queue@ =~= old(self).queue@ + seq![instruction, LockInstruction::Filler]);
            Ok(())
        }
    }
}

/// The motor direction that realizes an action; locking runs
/// counter-clockwise.
pub open spec fn spec_motor_direction(action: LockAction) -> MotorDirection {
    match action {
        LockAction::Lock => MotorDirection::CounterClockwise,
        LockAction::Unlock => MotorDirection::Clockwise,
    }
}

impl LockAction {
    /// See `spec_motor_direction`.
    pub fn motor_direction(&self) -> (r: MotorDirection)
        ensures
            r == spec_motor_direction(*self),
    {
        match self {
            LockAction::Lock => MotorDirection::CounterClockwise,
            LockAction::Unlock => MotorDirection::Clockwise,
        }
    }
}

/// Configuration fault found while validating the timing profile at
/// startup. Fatal: an unsafely-configured actuator must never run.
#[derive(Debug, Clone, Copy, PartialEq, Eq, Structural)]
pub struct ConfigurationFault;

/// The actuator's timing profile: step count, base and target per-step
/// delays, and the acceleration factor of the slow-start/slow-end ramp.
#[derive(Debug, Clone, Copy, PartialEq, Eq, Structural)]
pub struct TimingProfile {
    pub steps: u64,
    pub target_delay_ms: u64,
    pub base_delay_ms: u64,
    pub acceleration_factor: u64,
}

/// Step count of the stock profile.
pub const DEFAULT_STEPS: u64 = 60;

/// Target (fastest) per-step delay of the stock profile, in milliseconds.
pub const DEFAULT_TARGET_DELAY_MS: u64 = 30;

/// Base (slowest) per-step delay of the stock profile, in milliseconds.
pub const DEFAULT_BASE_DELAY_MS: u64 = 40;

/// Acceleration factor of the stock profile, in milliseconds per step.
pub const DEFAULT_ACCELERATION_FACTOR: u64 = 1;

impl TimingProfile {
    /// Hard configuration invariant: at least one step, the base delay at
    /// least the target delay, the target delay long enough for the motor
    /// driver, and the delay ramp free of arithmetic overflow.
    pub open spec fn wf(&self) -> bool {
        &&& self.steps >= 1
        &&& self.base_delay_ms >= self.target_delay_ms
        &&& self.target_delay_ms >= MIN_STEP_DELAY_MS
        &&& (self.steps - 1) * self.acceleration_factor + self.base_delay_ms <= u64::MAX
    }

    /// Startup validation: accepts exactly the well-formed profiles.
    pub fn new(steps: u64, target_delay_ms: u64, base_delay_ms: u64, acceleration_factor: u64)
        -> (r: Result<TimingProfile, ConfigurationFault>)
        ensures
            r is Ok <==> (TimingProfile { steps, target_delay_ms, base_delay_ms,
            acceleration_factor }).wf(),
            r matches Ok(p) ==> p == (TimingProfile { steps, target_delay_ms, base_delay_ms,
            acceleration_factor }),
    {
        if steps < 1 || base_delay_ms < target_delay_ms || target_delay_ms < MIN_STEP_DELAY_MS {
            return Err(ConfigurationFault);
        }
        let ramp_ok = if acceleration_factor == 0 {
            true
        } else {
            steps - 1 <= (u64::MAX - base_delay_ms) / acceleration_factor
        };
        proof {
            let s = steps as int;
            let b = base_delay_ms as int;
            let a = acceleration_factor as int;
            let m = u64::MAX as int;
            if a > 0 {
                assert(((s - 1) <= (m - b) / a) <==> ((s - 1) * a <= m - b)) by (nonlinear_arith)
                    requires
                        a > 0,
                        s >= 1,
                        0 <= b <= m,
                ;
            }
        }
        if ramp_ok {
            Ok(TimingProfile { steps, target_delay_ms, base_delay_ms, acceleration_factor })
        } else {
            Err(ConfigurationFault)
        }
    }
}

/// The stock timing profile; well-formed by construction.
pub open spec fn spec_default_profile() -> TimingProfile {
    TimingProfile {
        steps: DEFAULT_STEPS,
        target_delay_ms: DEFAULT_TARGET_DELAY_MS,
        base_delay_ms: DEFAULT_BASE_DELAY_MS,
        acceleration_factor: DEFAULT_ACCELERATION_FACTOR,
    }
}

impl Default for TimingProfile {
    /// The stock profile; see `spec_default_profile`.
    fn default() -> (r: TimingProfile)
        ensures
            r == spec_default_profile(),
            r.wf(),
    {
        proof {
            assert((DEFAULT_STEPS - 1) * DEFAULT_ACCELERATION_FACTOR == 59) by (nonlinear_arith);
        }
        TimingProfile {
            steps: DEFAULT_STEPS,
            target_delay_ms: DEFAULT_TARGET_DELAY_MS,
            base_delay_ms: DEFAULT_BASE_DELAY_MS,
            acceleration_factor: DEFAULT_ACCELERATION_FACTOR,
        }
    }
}

/// Per-step delay of the acceleration ramp:
/// `max(target, base - min(step, steps - 1 - step) * accel)`. Slow at both
/// ends, fastest in the middle, symmetric around the midpoint.
pub open spec fn spec_delay(step: int, steps: int, accel: int, target: int, base: int) -> int {
    let nearest_edge = if step <= steps - 1 - step {
        step
    } else {
        steps - 1 - step
    };
    let offset = nearest_edge * accel;
    if base - offset >= target {
        base - offset
    } else {
        target
    }
}

/// Computes the per-step delay of the ramp, in milliseconds.
pub fn get_delay(step: u64, steps: u64, accel_factor: u64, target_delay_ms: u64, base_delay_ms:
    u64) -> (r: u64)
    requires
        steps >= 1,
        step < steps,
        base_delay_ms >= target_delay_ms,
        (steps - 1) * accel_factor + base_delay_ms <= u64::MAX,
    ensures
        r == spec_delay(step as int, steps as int, accel_factor as int, target_delay_ms as int,
        base_delay_ms as int),
        target_delay_ms <= r <= base_delay_ms,
{
    let dist_from_end = (steps - 1) - step;
    let nearest_edge = if step < dist_from_end {
        step
    } else {
        dist_from_end
    };
    proof {
        assert(nearest_edge * accel_factor <= (steps - 1) * accel_factor) by (nonlinear_arith)
            requires nearest_edge <= steps - 1, accel_factor >= 0;
    }
    let offset = nearest_edge * accel_factor;
    let acceleration_space = base_delay_ms - target_delay_ms;
    if offset >= acceleration_space {
        return target_delay_ms;
    }
    base_delay_ms - offset
}

/// The ramp is symmetric around the midpoint: the step at the same distance
/// from the far end gets the same delay.
pub proof fn lemma_delay_symmetric(step: int, steps: int, accel: int, target: int, base: int)
    requires
        0 <= step < steps,
    ensures
        spec_delay(step, steps, accel, target, base) == spec_delay(steps - 1 - step, steps, accel,
        target, base),
{
}

/// Within the first half of the ramp, delays never grow as the midpoint
/// nears: the ramp is monotone on each side of the midpoint.
pub proof fn lemma_delay_monotone(step1: int, step2: int, steps: int, accel: int, target: int,
    base: int)
    requires
        0 <= step1 <= step2,
        step2 <= steps - 1 - step2,
        accel >= 0,
    ensures
        spec_delay(step1, steps, accel, target, base) >= spec_delay(step2, steps, accel, target,
        base),
{
    assert(step1 * accel <= step2 * accel) by (nonlinear_arith)
        requires 0 <= step1 <= step2, accel >= 0;
}

/// The physical lock: status LEDs plus the stepper motor, sequenced by a
/// validated timing profile. `history` records every completed actuation.
pub struct Lock<P: DigitalOutput, T: Timekeeper> {
    ready_led: LED<P>,
    in_use_led: LED<P>,
    motor: StepMotor<P, T>,
    profile: TimingProfile,
    history: Ghost<Seq<LockAction>>,
}

impl<P: DigitalOutput, T: Timekeeper> Lock<P, T> {
    /// The validated timing profile driving the motor.
    pub closed spec fn profile(&self) -> TimingProfile {
        self.profile
    }

    /// Every actuation this lock has completed, in order.
    pub closed spec fn history(&self) -> Seq<LockAction> {
        self.history@
    }

    pub open spec fn wf(&self) -> bool {
        self.profile().wf()
    }

    /// Claims the LED and motor pins and installs the stock timing profile.
    pub fn new<G: GpioProvider<Out = P>>(gpio: &G, timer: T) -> (r: Lock<P, T>)
        ensures
            r.wf(),
            r.profile() == spec_default_profile(),
            r.history() == Seq::<LockAction>::empty(),
    {
        Lock {
            ready_led: LED::new(gpio, READY_LED_PIN).with_state(LEDState::On),
            in_use_led: LED::new(gpio, IN_USE_LED_PIN).with_state(LEDState::Off),
            motor: StepMotor::new(gpio, timer),
            profile: TimingProfile::default(),
            history: Ghost(Seq::empty()),
        }
    }

    /// Performs one complete physical actuation: flags the in-use LED,
    /// wakes the motor, runs the configured number of steps through the
    /// delay ramp, and releases the motor. Appends the action to the
    /// history exactly once.
    pub fn act(&mut self, action: &LockAction)
        requires
            old(self).wf(),
        ensures
            final(self).wf(),
            final(self).profile() == old(self).profile(),
            final(self).history() == old(self).history().push(*action),
    {
        self.ready_led.set_state(LEDState::Off);
        self.in_use_led.set_state(LEDState::On);
        self.motor.activate();
        self.motor.set_direction(action.motor_direction());
        let steps = self.profile.steps;
        let mut step: u64 = 0;
        while step < steps
            invariant
                step <= steps,
                steps == self.profile.steps,
                self.profile == old(self).profile,
                self.history == old(self).history,
                self.profile.wf(),
            decreases steps - step,
        {
            let delay = get_delay(
                step,
                steps,
                self.profile.acceleration_factor,
                self.profile.target_delay_ms,
                self.profile.base_delay_ms,
            );
            self.motor.take_step(delay);
            step = step + 1;
        }
        self.motor.deactivate();
        self.ready_led.set_state(LEDState::On);
        self.in_use_led.set_state(LEDState::Off);
        self.history = Ghost(self.history@.push(*action));
    }
}

/// One complete coordinator cycle, the sole consumer of the arbiter and
/// the only writer of the lock state. If an instruction is waiting: take
/// the guard, compute the action via the state machine, actuate to
/// completion before committing the flipped state (or commit nothing on a
/// no-op), then drain residual fillers. The queue is empty and the guard
/// free when the cycle completes.
pub fn run_lock_cycle<P: DigitalOutput, T: Timekeeper>(
    arbiter: &mut Arbiter,
    state: &mut LockState,
    lock: &mut Lock<P, T>,
) -> (processed: Option<LockInstruction>)
    requires
        old(arbiter).inv(),
        !old(arbiter).guard_held(),
        old(lock).wf(),
    ensures
        final(arbiter).inv(),
        !final(arbiter).guard_held(),
        !final(arbiter).busy(),
        final(arbiter).queue_seq().len() == 0,
        final(lock).wf(),
        final(lock).profile() == old(lock).profile(),
        processed == (if old(arbiter).queue_seq().len() == 0 {
            Option::<LockInstruction>::None
        } else {
            Some(old(arbiter).queue_seq()[0])
        }),
        match processed {
            None => *final(state) == *old(state) && final(lock).history() == old(lock).history(),
            Some(i) => match spec_to_action(*old(state), i) {
                Some(a) => *final(state) == spec_flip(*old(state)) && final(lock).history()
                    == old(lock).history().push(a),
                None => *final(state) == *old(state) && final(lock).history() == old(
                    lock,
                ).history(),
            },
        },
{
    match arbiter.begin_cycle() {
        None => None,
        Some(instruction) => {
            match state.to_action(instruction) {
                Some(action) => {
                    lock.act(&action);
                    state.set_reverse();
                },
                None => {},
            }
            arbiter.finish_cycle();
            Some(instruction)
        },
    }
}

} // verus!
