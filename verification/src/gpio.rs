//! Output pins: the messages of failed pin operations, and the status LED's
//! blink pattern.
use vstd::prelude::*;

verus! {

/// An operation on an output pin.
#[derive(Debug, Clone, Copy, PartialEq, Eq, Structural)]
pub enum PinOp {
    /// Turning the pin into an output driver.
    Init,
    /// Driving the pin high.
    SetHigh,
    /// Driving the pin low.
    SetLow,
    /// Inverting the pin's level.
    Toggle,
}

/// The message of a failed `op`.
pub open spec fn pin_failure_text(op: PinOp) -> Seq<char> {
    match op {
        PinOp::Init => "Failed to initialize output"@,
        PinOp::SetHigh => "Failed to set high"@,
        PinOp::SetLow => "Failed to set low"@,
        PinOp::Toggle => "Failed to toggle"@,
    }
}

/// The message of a failed `op`.
pub fn pin_failure_message(op: PinOp) -> (msg: &'static str)
    ensures
        msg@ == pin_failure_text(op),
{
    match op {
        PinOp::Init => "Failed to initialize output",
        PinOp::SetHigh => "Failed to set high",
        PinOp::SetLow => "Failed to set low",
        PinOp::Toggle => "Failed to toggle",
    }
}

/// The outcome of `op` whose driver call answered `driver`: success, or the
/// operation's message whatever the driver's error.
pub fn pin_outcome(op: PinOp, driver: Result<(), i32>) -> (r: Result<(), &'static str>)
    ensures
        driver is Ok ==> r is Ok,
        driver is Err ==> (r matches Err(msg) && msg@ == pin_failure_text(op)),
{
    match driver {
        Ok(()) => Ok(()),
        Err(_) => Err(pin_failure_message(op)),
    }
}

/// How long the status LED stays in each level, in milliseconds.
pub const BLINK_HALF_PERIOD_MS: u32 = 500;

/// The status LED's blinker: on for half a period, off for half a period.
pub struct LedBlink {
    high_next: bool,
}

impl View for LedBlink {
    type V = bool;

    /// Whether the next phase drives the LED high.
    closed spec fn view(&self) -> bool {
        self.high_next
    }
}

impl LedBlink {
    /// A blinker that starts with the LED on.
    pub fn new() -> (r: Self)
        ensures
            r@,
    {
        LedBlink { high_next: true }
    }

    /// The next phase: the level to drive and how long to hold it.
    pub fn next_phase(&mut self) -> (r: (bool, u32))
        ensures
            r == (old(self)@, BLINK_HALF_PERIOD_MS),
            final(self)@ == !old(self)@,
    {
        let level = self.high_next;
        self.high_next = !level;
        (level, BLINK_HALF_PERIOD_MS)
    }
}

} // verus!
