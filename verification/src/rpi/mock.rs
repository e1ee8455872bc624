//! Deterministic stubs for the digital I/O and timing capabilities: fixed
//! logic levels, no-op writes, and a stopwatch that advances a fixed tick
//! per query. Substitutable for the hardware layer in every driver.

use vstd::prelude::*;

use crate::rpi::{DigitalInput, DigitalOutput, GpioProvider, Timekeeper};

verus! {

/// Declares anyhow's error type so the stub provider can keep its
/// `Result<_, anyhow::Error>` interface; the stubs never construct one.
#[verifier::external_type_specification]
#[verifier::external_body]
pub struct ExAnyhowError(anyhow::Error);

/// Stub pin provider.
pub struct MockGpio;

impl MockGpio {
    pub fn new() -> (r: Result<MockGpio, anyhow::Error>)
        ensures
            r is Ok,
    {
        Ok(MockGpio)
    }

    pub fn get(&self, pin_id: u8) -> (r: Result<MockPin, anyhow::Error>)
        ensures
            r matches Ok(p) && p.id() == pin_id,
    {
        Ok(MockPin::new(pin_id))
    }
}

/// A stub pin not yet configured as input or output.
pub struct MockPin {
    gpio_id: u8,
}

impl MockPin {
    /// The pin identifier this stub was obtained under.
    pub closed spec fn id(&self) -> u8 {
        self.gpio_id
    }

    pub fn new(gpio_id: u8) -> (r: MockPin)
        ensures
            r.id() == gpio_id,
    {
        MockPin { gpio_id }
    }

    pub fn into_output(self) -> (r: MockOutputPin)
        ensures
            r.id() == self.id(),
    {
        MockOutputPin::new(self.gpio_id)
    }

    pub fn into_input_pullup(self) -> (r: MockInputPin)
        ensures
            r.id() == self.id(),
            r.high(),
            r.low(),
    {
        MockInputPin::new(self.gpio_id)
    }

    pub fn into_input(self) -> (r: MockInputPin)
        ensures
            r.id() == self.id(),
            r.high(),
            r.low(),
    {
        MockInputPin::new(self.gpio_id)
    }
}

/// Stub output pin: writes are no-ops.
pub struct MockOutputPin {
    gpio_id: u8,
}

impl MockOutputPin {
    /// The pin identifier this stub was obtained under.
    pub closed spec fn id(&self) -> u8 {
        self.gpio_id
    }

    pub fn new(id: u8) -> (r: MockOutputPin)
        ensures
            r.id() == id,
    {
        MockOutputPin { gpio_id: id }
    }

    pub fn set_high(&mut self) {
    }

    pub fn set_low(&mut self) {
    }
}

impl DigitalOutput for MockOutputPin {
    fn set_high(&mut self) {
    }

    fn set_low(&mut self) {
    }
}

/// Stub input pin reporting fixed logic levels. A fresh stub answers both
/// queries with `true`, like an idle pull-up input that never sees an echo;
/// `with_levels` fixes other levels for driving a scenario.
pub struct MockInputPin {
    gpio_id: u8,
    level_high: bool,
    level_low: bool,
}

impl MockInputPin {
    /// The pin identifier this stub was obtained under.
    pub closed spec fn id(&self) -> u8 {
        self.gpio_id
    }

    /// The fixed answer of `is_high`.
    pub closed spec fn high(&self) -> bool {
        self.level_high
    }

    /// The fixed answer of `is_low`.
    pub closed spec fn low(&self) -> bool {
        self.level_low
    }

    pub fn new(id: u8) -> (r: MockInputPin)
        ensures
            r.id() == id,
            r.high(),
            r.low(),
    {
        MockInputPin { gpio_id: id, level_high: true, level_low: true }
    }

    /// The same pin with the fixed levels replaced.
    pub fn with_levels(self, high: bool, low: bool) -> (r: MockInputPin)
        ensures
            r.id() == self.id(),
            r.high() == high,
            r.low() == low,
    {
        MockInputPin { gpio_id: self.gpio_id, level_high: high, level_low: low }
    }

    pub fn is_high(&self) -> (r: bool)
        ensures
            r == self.high(),
    {
        self.level_high
    }

    pub fn is_low(&self) -> (r: bool)
        ensures
            r == self.low(),
    {
        self.level_low
    }
}

impl DigitalInput for MockInputPin {
    fn is_high(&self) -> bool {
        self.level_high
    }

    fn is_low(&self) -> bool {
        self.level_low
    }
}

impl GpioProvider for MockGpio {
    type Out = MockOutputPin;

    type In = MockInputPin;

    fn get_output(&self, pin: u8) -> MockOutputPin {
        MockOutputPin::new(pin)
    }

    fn get_input(&self, pin: u8) -> MockInputPin {
        MockInputPin::new(pin)
    }

    fn get_input_pullup(&self, pin: u8) -> MockInputPin {
        MockInputPin::new(pin)
    }
}

/// Stub stopwatch: each query advances the reading by a fixed tick (at
/// least one microsecond), saturating at the largest representable value;
/// waits advance it by the waited time.
pub struct MockTimer {
    now_us: u64,
    tick_us: u64,
}

impl MockTimer {
    /// A stub stopwatch advancing `tick_us` per query.
    pub fn new(tick_us: u64) -> (r: MockTimer)
        ensures
            r.reading_us() == 0,
    {
        MockTimer { now_us: 0, tick_us }
    }

    fn advance(&mut self, us: u64)
        ensures
            final(self).now_us >= old(self).now_us,
            old(self).now_us < u64::MAX ==> final(self).now_us > old(self).now_us,
    {
        let step = if us == 0 {
            1
        } else {
            us
        };
        if self.now_us <= u64::MAX - step {
            self.now_us = self.now_us + step;
        } else {
            self.now_us = u64::MAX;
        }
    }
}

impl Timekeeper for MockTimer {
    closed spec fn reading_us(&self) -> nat {
        self.now_us as nat
    }

    fn restart(&mut self) {
        self.now_us = 0;
    }

    fn elapsed_us(&mut self) -> (r: u64) {
        let tick = self.tick_us;
        self.advance(tick);
        self.now_us
    }

    fn wait_us(&mut self, us: u64) {
        self.advance(us);
    }

    fn wait_ms(&mut self, ms: u64) {
        if ms <= u64::MAX / 1000 {
            self.advance(ms * 1000);
        } else {
            self.now_us = u64::MAX;
        }
    }
}

} // verus!
