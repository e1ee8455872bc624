use doorlock::lock::LockAction;
use doorlock::rpi::mock::{MockGpio, MockInputPin, MockOutputPin, MockTimer};
use doorlock::rpi::{
    debounce_confirm, echo_wait_step, Button, EchoWait, MotorDirection, ReadEchoError,
    SonicDistance, UltrasonicSensor, BUTTON_PIN, ECHO_TIMEOUT_US, ULTRASONIC_ECHO_PIN,
    ULTRASONIC_TRIGGER_PIN,
};

#[test]
fn mock_gpio_hands_out_pins() {
    let gpio = MockGpio::new().unwrap();
    let pin = gpio.get(17).unwrap();
    let _out = pin.into_output();
    let pin = gpio.get(21).unwrap();
    let _input = pin.into_input_pullup();
    let pin = gpio.get(20).unwrap();
    let _input = pin.into_input();
}

#[test]
fn mock_output_writes_are_noops() {
    let mut out = MockOutputPin::new(24);
    out.set_high();
    out.set_low();
}

#[test]
fn mock_input_reports_fixed_levels() {
    let pin = MockInputPin::new(21);
    assert!(pin.is_high());
    assert!(pin.is_low());
    let pin = pin.with_levels(false, true);
    assert!(!pin.is_high());
    assert!(pin.is_low());
}

#[test]
fn motor_direction_patterns() {
    assert_eq!(
        MotorDirection::CounterClockwise.step_pattern(),
        [0b0001, 0b0010, 0b0100, 0b1000]
    );
    assert_eq!(
        MotorDirection::Clockwise.step_pattern(),
        [0b1000, 0b0100, 0b0010, 0b0001]
    );
}

#[test]
fn action_to_direction() {
    assert_eq!(
        LockAction::Lock.motor_direction(),
        MotorDirection::CounterClockwise
    );
    assert_eq!(
        LockAction::Unlock.motor_direction(),
        MotorDirection::Clockwise
    );
}

#[test]
fn debounce_needs_both_samples_asserted() {
    // pull-up input: low means pressed
    assert!(debounce_confirm(false, false));
    assert!(!debounce_confirm(true, false));
    assert!(!debounce_confirm(false, true));
    assert!(!debounce_confirm(true, true));
}

#[test]
fn unpressed_button_reports_no_press() {
    let mut button = Button::new(&MockGpio, MockTimer::new(1));
    assert!(!button.check_is_pressed_debounced());
}

#[test]
fn pressed_button_confirms_after_debounce() {
    let pin = MockInputPin::new(BUTTON_PIN).with_levels(false, true);
    let mut button = Button::with_pin(pin, MockTimer::new(1));
    assert!(button.check_is_pressed_debounced());
}

#[test]
fn echo_wait_decision_table() {
    // the rising edge ends the wait regardless of the clock
    assert_eq!(echo_wait_step(false, 0, 100), EchoWait::EdgeSeen);
    assert_eq!(echo_wait_step(false, 101, 100), EchoWait::EdgeSeen);
    // within the bound the wait continues
    assert_eq!(echo_wait_step(true, 100, 100), EchoWait::KeepWaiting);
    // past the bound the wait never continues
    assert_eq!(echo_wait_step(true, 101, 100), EchoWait::TimedOut);
    assert_eq!(echo_wait_step(true, u64::MAX, 100), EchoWait::TimedOut);
}

#[test]
fn ranging_times_out_without_echo_edge() {
    // the stub echo input never leaves its low idle level
    let mut sensor = UltrasonicSensor::new(&MockGpio, MockTimer::new(60_000));
    assert_eq!(sensor.read_distance(), Err(ReadEchoError::Timeout));
}

#[test]
fn echo_timeout_bound_is_100_ms() {
    assert_eq!(ECHO_TIMEOUT_US, 100_000);
}

#[test]
fn ranging_reads_immediate_echo_as_zero_distance() {
    let trigger = MockOutputPin::new(ULTRASONIC_TRIGGER_PIN);
    // edge already present, and the echo line already back low
    let echo = MockInputPin::new(ULTRASONIC_ECHO_PIN).with_levels(false, false);
    let mut sensor = UltrasonicSensor::with_pins(trigger, echo, MockTimer::new(10));
    let distance = sensor.read_distance().unwrap();
    assert_eq!(distance.as_cm_u64(), 0);
}

#[test]
fn distance_round_trip_representative() {
    // an echo of 2*d/v seconds converts back to d centimeters
    let cases: [(u64, u64); 3] = [(292, 5), (2915, 50), (23324, 400)];
    for (echo_us, cm) in cases {
        let d = SonicDistance::from_echo_micros(echo_us);
        assert_eq!(d.as_cm_u64(), cm);
    }
}

#[test]
fn distance_rounds_to_nearest_millimeter() {
    // 128 us -> 21,952 um -> 22 mm -> 2 cm
    let d = SonicDistance::from_echo_micros(128);
    assert_eq!(d.as_cm_u64(), 2);
    // 2 us -> 343 um -> 0 mm (rounds down) -> 0 cm
    let d = SonicDistance::from_echo_micros(2);
    assert_eq!(d.as_cm_u64(), 0);
    // 3 us -> 514 um -> 1 mm -> 0 cm
    let d = SonicDistance::from_echo_micros(3);
    assert_eq!(d.as_cm_u64(), 0);
}

#[test]
fn echo_error_message() {
    assert_eq!(ReadEchoError::Timeout.message(), "Echo read timed out");
}
