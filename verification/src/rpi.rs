//! Hardware abstraction and device drivers: digital I/O capabilities, LED,
//! stepper motor, button and ultrasonic ranging sensor.

pub mod mock;

use vstd::prelude::*;

verus! {

/// Broadcom pin numbers of the two status LEDs.
pub const READY_LED_PIN: u8 = 17;

/// See `READY_LED_PIN`.
pub const IN_USE_LED_PIN: u8 = 22;

/// Pins of the stepper driver.
pub const MOTOR_DIR_PIN: u8 = 23;

/// See `MOTOR_DIR_PIN`.
pub const MOTOR_STEP_PIN: u8 = 24;

/// See `MOTOR_DIR_PIN`.
pub const MOTOR_ENABLE_PIN: u8 = 18;

/// See `MOTOR_DIR_PIN`.
pub const MOTOR_SLEEP_PIN: u8 = 4;

/// Pin of the physical button (pull-up: low while pressed).
pub const BUTTON_PIN: u8 = 21;

/// Pins of the ultrasonic ranging sensor.
pub const ULTRASONIC_TRIGGER_PIN: u8 = 16;

/// See `ULTRASONIC_TRIGGER_PIN`.
pub const ULTRASONIC_ECHO_PIN: u8 = 20;

/// Digital-output capability of one pin. Implemented by the deterministic
/// stub in this crate and by the hardware layer outside it; the physical
/// effect of a write carries no contract.
pub trait DigitalOutput {
    fn set_high(&mut self);

    fn set_low(&mut self);
}

/// Digital-input capability of one pin. The observed level carries no
/// contract: hardware may change it between any two reads.
pub trait DigitalInput {
    fn is_high(&self) -> bool;

    fn is_low(&self) -> bool;
}

/// Pin provider keyed by stable pin identifiers.
pub trait GpioProvider {
    type Out: DigitalOutput;

    type In: DigitalInput;

    fn get_output(&self, pin: u8) -> Self::Out;

    fn get_input(&self, pin: u8) -> Self::In;

    fn get_input_pullup(&self, pin: u8) -> Self::In;
}

/// Timing capability: delays, and a restartable stopwatch. The stopwatch
/// reading never moves backwards, and moves strictly forward at each query
/// until it saturates, so a wait bounded by a reading is a bounded wait.
pub trait Timekeeper {
    /// The stopwatch reading, in microseconds since the last restart.
    /// Implementations outside the verifier inherit the default and make
    /// no timing claims.
    open spec fn reading_us(&self) -> nat {
        0
    }

    fn restart(&mut self)
        ensures
            final(self).reading_us() == 0,
    ;

    fn elapsed_us(&mut self) -> (r: u64)
        ensures
            r == final(self).reading_us(),
            final(self).reading_us() >= old(self).reading_us(),
            old(self).reading_us() < u64::MAX ==> final(self).reading_us() > old(
                self,
            ).reading_us(),
    ;

    fn wait_us(&mut self, us: u64);

    fn wait_ms(&mut self, ms: u64);
}

/// Logical level of a status LED.
#[derive(Debug, Clone, Copy, PartialEq, Eq, Structural)]
pub enum LEDState {
    On,
    Off,
}

/// A status LED on one output pin.
pub struct LED<P: DigitalOutput> {
    pin: P,
}

impl<P: DigitalOutput> LED<P> {
    /// Claims one of the two status LED pins.
    pub fn new<G: GpioProvider<Out = P>>(gpio: &G, pin: u8) -> (r: LED<P>)
        requires
            pin == READY_LED_PIN || pin == IN_USE_LED_PIN,
    {
        LED { pin: gpio.get_output(pin) }
    }

    pub fn set_state(&mut self, state: LEDState) {
        match state {
            LEDState::On => self.pin.set_high(),
            LEDState::Off => self.pin.set_low(),
        }
    }

    pub fn with_state(self, state: LEDState) -> (r: LED<P>) {
        let mut led = self;
        led.set_state(state);
        led
    }
}

/// Direction of motor rotation; locking runs counter-clockwise.
#[derive(Debug, Clone, Copy, PartialEq, Eq, Structural)]
pub enum MotorDirection {
    Clockwise,
    CounterClockwise,
}

/// The fixed cyclic phase table for one direction: the clockwise order is
/// the counter-clockwise order reversed.
pub open spec fn spec_step_pattern(direction: MotorDirection) -> Seq<u8> {
    match direction {
        MotorDirection::CounterClockwise => seq![1u8, 2u8, 4u8, 8u8],
        MotorDirection::Clockwise => seq![8u8, 4u8, 2u8, 1u8],
    }
}

impl MotorDirection {
    /// The 4-position phase pattern table driving the motor this direction.
    pub fn step_pattern(&self) -> (r: [u8; 4])
        ensures
            r@ == spec_step_pattern(*self),
    {
        let r = match self {
            MotorDirection::CounterClockwise => [1u8, 2u8, 4u8, 8u8],
            MotorDirection::Clockwise => [8u8, 4u8, 2u8, 1u8],
        };
        proof {
            assert(r@ =~= spec_step_pattern(*self));
        }
        r
    }
}

/// The shortest per-step delay the motor driver tolerates, in milliseconds.
pub const MIN_STEP_DELAY_MS: u64 = 3;

/// The 4-phase stepper motor behind a step/direction driver.
pub struct StepMotor<P: DigitalOutput, T: Timekeeper> {
    pub dir_pin: P,
    pub step_pin: P,
    enable_pin: P,
    sleep_pin: P,
    timer: T,
}

impl<P: DigitalOutput, T: Timekeeper> StepMotor<P, T> {
    /// Claims the four driver pins and leaves the motor deactivated.
    pub fn new<G: GpioProvider<Out = P>>(gpio: &G, timer: T) -> (r: StepMotor<P, T>) {
        let mut motor = StepMotor {
            dir_pin: gpio.get_output(MOTOR_DIR_PIN),
            step_pin: gpio.get_output(MOTOR_STEP_PIN),
            enable_pin: gpio.get_output(MOTOR_ENABLE_PIN),
            sleep_pin: gpio.get_output(MOTOR_SLEEP_PIN),
            timer,
        };
        motor.step_pin.set_low();
        motor.deactivate();
        motor
    }

    /// Wakes the driver and enables the coils.
    pub fn activate(&mut self) {
        self.sleep_pin.set_high();
        self.timer.wait_ms(3);
        self.enable_pin.set_low();
        self.timer.wait_ms(3);
    }

    /// Disables the coils and puts the driver to sleep.
    pub fn deactivate(&mut self) {
        self.sleep_pin.set_low();
        self.timer.wait_ms(3);
        self.enable_pin.set_high();
        self.timer.wait_ms(3);
    }

    /// Latches the rotation direction, then waits for it to settle.
    pub fn set_direction(&mut self, direction: MotorDirection) {
        match direction {
            MotorDirection::Clockwise => self.dir_pin.set_high(),
            MotorDirection::CounterClockwise => self.dir_pin.set_low(),
        }
        self.timer.wait_ms(5);
    }

    /// One discrete step: a short pulse on the step pin, then the per-step
    /// hold delay. The driver needs at least `MIN_STEP_DELAY_MS` between
    /// steps.
    pub fn take_step(&mut self, step_delay_ms: u64)
        requires
            step_delay_ms >= MIN_STEP_DELAY_MS,
    {
        self.step_pin.set_high();
        self.timer.wait_us(50);
        self.step_pin.set_low();
        self.timer.wait_ms(step_delay_ms);
    }
}

/// How long the button input must stay asserted to count as a press, in
/// milliseconds.
pub const DEBOUNCE_MS: u64 = 50;

/// Leading-edge debounce: a press is confirmed exactly when the pull-up
/// input read low (asserted) on both time-separated samples.
pub fn debounce_confirm(first_sample_high: bool, second_sample_high: bool) -> (r: bool)
    ensures
        r == (!first_sample_high && !second_sample_high),
{
    !first_sample_high && !second_sample_high
}

/// The physical button on a pull-up input pin.
pub struct Button<I: DigitalInput, T: Timekeeper> {
    pin: I,
    timer: T,
}

impl<I: DigitalInput, T: Timekeeper> Button<I, T> {
    pub fn new<G: GpioProvider<In = I>>(gpio: &G, timer: T) -> (r: Button<I, T>) {
        Button { pin: gpio.get_input_pullup(BUTTON_PIN), timer }
    }

    /// A button on an already-claimed input pin.
    pub fn with_pin(pin: I, timer: T) -> (r: Button<I, T>) {
        Button { pin, timer }
    }

    /// Samples the input, waits out the debounce interval, and resamples;
    /// reports a press only if both samples were asserted.
    pub fn check_is_pressed_debounced(&mut self) -> (r: bool) {
        let first = self.pin.is_high();
        if first {
            return false;
        }
        self.timer.wait_ms(DEBOUNCE_MS);
        let second = self.pin.is_high();
        debounce_confirm(first, second)
    }
}

/// Longest time to wait for the echo's rising edge, in microseconds.
pub const ECHO_TIMEOUT_US: u64 = 100_000;

/// Longest echo high-duration the sensor will report, in microseconds;
/// keeps every ranging read bounded in time and every conversion in range.
pub const ECHO_MEASURE_LIMIT_US: u64 = 1_000_000;

/// Speed of sound used for ranging, in meters per second.
pub const SPEED_OF_SOUND_M_PER_S: u64 = 343;

/// Failure of one ranging sample.
#[derive(Debug, Clone, Copy, PartialEq, Eq, Structural)]
pub enum ReadEchoError {
    Timeout,
}

impl ReadEchoError {
    /// Human-readable description of the failure.
    pub fn message(&self) -> (r: &'static str)
        ensures
            r@ == "Echo read timed out"@,
    {
        "Echo read timed out"
    }
}

/// What one poll of the echo line decides while waiting for the rising
/// edge. The wait continues only while the line is still low and the
/// elapsed time is within the bound, so a timeout is reported at the first
/// observation past the bound and never later.
#[derive(Debug, Clone, Copy, PartialEq, Eq, Structural)]
pub enum EchoWait {
    EdgeSeen,
    KeepWaiting,
    TimedOut,
}

/// Decision function of the echo edge wait.
pub fn echo_wait_step(echo_low: bool, elapsed_us: u64, timeout_us: u64) -> (r: EchoWait)
    ensures
        r is EdgeSeen <==> !echo_low,
        r is TimedOut <==> (echo_low && elapsed_us > timeout_us),
        r is KeepWaiting <==> (echo_low && elapsed_us <= timeout_us),
{
    if !echo_low {
        EchoWait::EdgeSeen
    } else if elapsed_us > timeout_us {
        EchoWait::TimedOut
    } else {
        EchoWait::KeepWaiting
    }
}

/// Distance in micrometers travelled one way by an echo that was in flight
/// for `echo_us` microseconds: `distance = speed_of_sound * duration / 2`,
/// with the speed of sound at 343 micrometers per microsecond.
pub open spec fn spec_distance_um(echo_us: int) -> int {
    343 * echo_us / 2
}

/// Whole centimeters of a micrometer distance: round to the nearest
/// millimeter, then truncate to centimeters.
pub open spec fn spec_um_to_cm(um: int) -> int {
    ((um + 500) / 1000) / 10
}

/// The longest one-way distance the sensor can report, in micrometers:
/// `spec_distance_um` of `ECHO_MEASURE_LIMIT_US`.
pub const MAX_DISTANCE_UM: u64 = 171_500_000;

/// A sub-millimeter distance measurement from one ranging cycle.
#[derive(Debug, Clone, Copy, PartialEq, Eq, Structural)]
pub struct SonicDistance {
    value_um: u64,
}

impl SonicDistance {
    /// The stored measurement in micrometers.
    pub closed spec fn um(&self) -> u64 {
        self.value_um
    }

    /// The measurement is within the sensor's range.
    pub open spec fn wf(&self) -> bool {
        self.um() <= MAX_DISTANCE_UM
    }

    /// Converts a measured echo high-duration to a distance.
    pub fn from_echo_micros(echo_us: u64) -> (r: SonicDistance)
        requires
            echo_us <= ECHO_MEASURE_LIMIT_US,
        ensures
            r.um() == spec_distance_um(echo_us as int),
            r.wf(),
    {
        SonicDistance { value_um: 343 * echo_us / 2 }
    }

    /// The measurement in whole centimeters (nearest millimeter, truncated
    /// to centimeters).
    pub fn as_cm_u64(&self) -> (r: u64)
        requires
            self.wf(),
        ensures
            r == spec_um_to_cm(self.um() as int),
    {
        ((self.value_um + 500) / 1000) / 10
    }
}

/// The ultrasonic ranging sensor: a trigger output and an echo input.
pub struct UltrasonicSensor<I: DigitalInput, O: DigitalOutput, T: Timekeeper> {
    pub trigger_pin: O,
    pub echo_pin: I,
    timer: T,
}

impl<I: DigitalInput, O: DigitalOutput, T: Timekeeper> UltrasonicSensor<I, O, T> {
    /// Claims the sensor's trigger and echo pins.
    pub fn new<G: GpioProvider<Out = O, In = I>>(gpio: &G, timer: T) -> (r: UltrasonicSensor<
        I,
        O,
        T,
    >) {
        UltrasonicSensor {
            trigger_pin: gpio.get_output(ULTRASONIC_TRIGGER_PIN),
            echo_pin: gpio.get_input(ULTRASONIC_ECHO_PIN),
            timer,
        }
    }

    /// A sensor on already-claimed pins.
    pub fn with_pins(trigger_pin: O, echo_pin: I, timer: T) -> (r: UltrasonicSensor<I, O, T>) {
        UltrasonicSensor { trigger_pin, echo_pin, timer }
    }

    /// The sensor's stopwatch reading, in microseconds.
    pub closed spec fn timing_us(&self) -> nat {
        self.timer.reading_us()
    }

    /// Raises the trigger line for the requested number of microseconds.
    fn send_trigger(&mut self, micros: u64) {
        self.trigger_pin.set_high();
        self.timer.wait_us(micros);
        self.trigger_pin.set_low();
    }

    /// Waits for the echo's rising edge, bounded by `ECHO_TIMEOUT_US`, then
    /// measures the echo high-duration, bounded by `ECHO_MEASURE_LIMIT_US`.
    /// Must run immediately after `send_trigger`, or the measurement will
    /// be wrong.
    fn read_echo(&mut self) -> (r: Result<u64, ReadEchoError>)
        ensures
            r matches Ok(us) ==> us == final(self).timing_us() && us <= ECHO_MEASURE_LIMIT_US,
            r is Err ==> final(self).timing_us() > ECHO_TIMEOUT_US,
    {
        self.timer.restart();
        loop
            invariant_except_break
                self.timer.reading_us() <= ECHO_TIMEOUT_US,
            decreases ECHO_TIMEOUT_US - self.timer.reading_us(),
        {
            let low = self.echo_pin.is_low();
            let elapsed = self.timer.elapsed_us();
            match echo_wait_step(low, elapsed, ECHO_TIMEOUT_US) {
                EchoWait::EdgeSeen => {
                    break ;
                },
                EchoWait::TimedOut => {
                    return Err(ReadEchoError::Timeout);
                },
                EchoWait::KeepWaiting => {},
            }
        }
        self.timer.restart();
        let mut high_us: u64 = 0;
        loop
            invariant
                high_us == self.timer.reading_us(),
                high_us <= ECHO_MEASURE_LIMIT_US,
            decreases ECHO_MEASURE_LIMIT_US - self.timer.reading_us(),
        {
            if !self.echo_pin.is_high() {
                break ;
            }
            high_us = self.timer.elapsed_us();
            if high_us > ECHO_MEASURE_LIMIT_US {
                return Err(ReadEchoError::Timeout);
            }
        }
        Ok(high_us)
    }

    /// One ranging cycle: emit the trigger pulse, wait for the echo within
    /// the bound, and convert the measured duration to a distance.
    pub fn read_distance(&mut self) -> (r: Result<SonicDistance, ReadEchoError>)
        ensures
            r matches Ok(d) ==> d.um() == spec_distance_um(final(self).timing_us() as int)
                && d.wf(),
            r is Err ==> final(self).timing_us() > ECHO_TIMEOUT_US,
    {
        self.send_trigger(10);
        match self.read_echo() {
            Ok(echo_us) => Ok(SonicDistance::from_echo_micros(echo_us)),
            Err(e) => Err(e),
        }
    }
}

} // verus!
