//! The boundary to the physical GPIO driver (the `rppal` crate).
//!
//! The hardware is an external collaborator: whether a pin can be acquired or
//! driven depends on the machine, so nothing is promised of the outcome of
//! these calls.  The verified functions below fix only the order of the calls
//! — acquire the pin, keep its level across drops, then drive or read it —
//! and hand every outcome on as a plain value for the controller to settle.

use vstd::prelude::*;

verus! {

/// Declares rppal's handle to the GPIO peripheral so it can stand in
/// signatures; the value is opaque here.
#[verifier::external_type_specification]
#[verifier::external_body]
pub struct ExGpio(rppal::gpio::Gpio);

/// Declares rppal's unconfigured pin type.
#[verifier::external_type_specification]
#[verifier::external_body]
pub struct ExPin(rppal::gpio::Pin);

/// Declares rppal's output-mode pin type.
#[verifier::external_type_specification]
#[verifier::external_body]
pub struct ExOutputPin(rppal::gpio::OutputPin);

/// Declares rppal's GPIO error type; it is carried through and rendered as
/// text, never inspected.
#[verifier::external_type_specification]
#[verifier::external_body]
pub struct ExGpioError(rppal::gpio::Error);

/// Relies on rppal's `Gpio::new`: opens the GPIO peripheral, failing on
/// machines without one.  Nothing is promised of the outcome.
pub assume_specification [ rppal::gpio::Gpio::new ]() -> Result<
    rppal::gpio::Gpio,
    rppal::gpio::Error,
>;

/// Relies on rppal's `Gpio::get`: claims the pin with the given BCM number,
/// failing when it is unavailable or already taken.
pub assume_specification [ rppal::gpio::Gpio::get ](
    gpio: &rppal::gpio::Gpio,
    pin: u8,
) -> Result<rppal::gpio::Pin, rppal::gpio::Error>;

/// Relies on rppal's `Pin::into_output`: switches the pin to output mode,
/// leaving its logic level unchanged.
pub assume_specification [ rppal::gpio::Pin::into_output ](
    pin: rppal::gpio::Pin,
) -> rppal::gpio::OutputPin;

/// Relies on rppal's `OutputPin::set_reset_on_drop`: decides whether the pin
/// reverts to its previous mode when the handle is dropped.
pub assume_specification [ rppal::gpio::OutputPin::set_reset_on_drop ](
    pin: &mut rppal::gpio::OutputPin,
    reset_on_drop: bool,
);

/// Relies on rppal's `OutputPin::set_high`: drives the pin's output level
/// high.
pub assume_specification [ rppal::gpio::OutputPin::set_high ](
    pin: &mut rppal::gpio::OutputPin,
);

/// Relies on rppal's `OutputPin::set_low`: drives the pin's output level low.
pub assume_specification [ rppal::gpio::OutputPin::set_low ](
    pin: &mut rppal::gpio::OutputPin,
);

/// Relies on rppal's `OutputPin::is_set_high`: reads whether the pin's level
/// is currently high.  The result reflects machine state, so nothing is
/// promised of it.
pub assume_specification [ rppal::gpio::OutputPin::is_set_high ](
    pin: &rppal::gpio::OutputPin,
) -> bool;

/// Relies on the `Display` impl of rppal's `gpio::Error`: renders the failure
/// cause as text for logging.
#[verifier::external_body]
fn gpio_error_text(e: &rppal::gpio::Error) -> String {
    format!("{}", e)
}

/// Claims `pin` as an output pin whose level survives both the conversion and
/// the later drop of the handle, as the hardware expects of a relay channel.
fn acquire_output(pin: u8) -> Result<rppal::gpio::OutputPin, String> {
    let gpio = match rppal::gpio::Gpio::new() {
        Ok(g) => g,
        Err(e) => {
            return Err(gpio_error_text(&e));
        },
    };
    let claimed = match gpio.get(pin) {
        Ok(p) => p,
        Err(e) => {
            return Err(gpio_error_text(&e));
        },
    };
    let mut out = claimed.into_output();
    out.set_reset_on_drop(false);
    Ok(out)
}

/// Drives `pin` high.  Whether the write succeeds depends on the hardware;
/// the caller settles the cached state from the outcome.
pub fn set_high(pin: u8) -> Result<(), String> {
    match acquire_output(pin) {
        Ok(mut out) => {
            out.set_high();
            Ok(())
        },
        Err(e) => Err(e),
    }
}

/// Drives `pin` low; the counterpart of `set_high`.
pub fn set_low(pin: u8) -> Result<(), String> {
    match acquire_output(pin) {
        Ok(mut out) => {
            out.set_low();
            Ok(())
        },
        Err(e) => Err(e),
    }
}

/// Drives `pin` to the requested level.
pub fn write_level(pin: u8, high: bool) -> Result<(), String> {
    if high {
        set_high(pin)
    } else {
        set_low(pin)
    }
}

/// Probes the output level currently set on `pin`, for the initial cached
/// state at startup.
pub fn get_status(pin: u8) -> Result<bool, String> {
    match acquire_output(pin) {
        Ok(out) => Ok(out.is_set_high()),
        Err(e) => Err(e),
    }
}

} // verus!
