//! The output driver: owns the physical output channels, translates a color
//! into per-channel PWM settings, and applies all three channels as one unit.

use vstd::prelude::*;
use vstd::arithmetic::div_mod::{lemma_div_is_ordered, lemma_div_multiples_vanish, lemma_div_nonincreasing};
use vstd::arithmetic::mul::lemma_mul_inequality;

use crate::color::Color;

verus! {

/// The BCM number of the line driving the red channel.
pub const RED_CHANNEL_PIN: u8 = 17;
/// The BCM number of the line driving the green channel.
pub const GREEN_CHANNEL_PIN: u8 = 27;
/// The BCM number of the line driving the blue channel.
pub const BLUE_CHANNEL_PIN: u8 = 22;

/// The oscillation frequency shared by all three channels, in hertz.
pub const OSCILLATION_HZ: u64 = 60;

/// The ways the driver can fail.
#[derive(Clone, Copy, PartialEq, Eq, Structural, Debug)]
pub enum DriverError {
    /// A physical channel could not be claimed at startup.
    ChannelUnavailable,
    /// A write to a physical channel failed.
    WriteFailed,
}

#[verifier::external_type_specification]
#[verifier::external_body]
pub struct ExGpio(rppal::gpio::Gpio);

#[verifier::external_type_specification]
#[verifier::external_body]
pub struct ExOutputPin(rppal::gpio::OutputPin);

#[verifier::external_type_specification]
#[verifier::external_body]
pub struct ExGpioError(rppal::gpio::Error);

/// Relies on `rppal::gpio::Gpio::new`: opens the GPIO peripheral. Whether it
/// succeeds depends on the machine the process runs on.
#[verifier::external_body]
fn gpio_open() -> (r: Result<rppal::gpio::Gpio, rppal::gpio::Error>) {
    rppal::gpio::Gpio::new()
}

/// Relies on `rppal::gpio::Gpio::get`: claims the line with the given BCM
/// number; it fails if the line is unknown or already in use.
/// `Pin::into_output` switches the claimed line's hardware mode to output
/// and changes its type.
#[verifier::external_body]
fn gpio_claim_output(
    gpio: &rppal::gpio::Gpio,
    pin: u8,
) -> (r: Result<rppal::gpio::OutputPin, rppal::gpio::Error>) {
    Ok(gpio.get(pin)?.into_output())
}

/// Relies on `rppal::gpio::OutputPin::set_pwm`: configures the line's
/// software PWM signal with the given period and pulse width, both in
/// nanoseconds.
#[verifier::external_body]
fn pin_set_pwm(
    pin: &mut rppal::gpio::OutputPin,
    period_ns: u64,
    pulse_ns: u64,
) -> (r: Result<(), rppal::gpio::Error>) {
    pin.set_pwm(
        core::time::Duration::from_nanos(period_ns),
        core::time::Duration::from_nanos(pulse_ns),
    )
}

/// The PWM period, in nanoseconds, of a signal oscillating at the given
/// frequency.
pub fn period_ns(frequency_hz: u64) -> (p: u64)
    requires
        1 <= frequency_hz,
    ensures
        p == 1_000_000_000int / frequency_hz as int,
        p <= 1_000_000_000,
{
    proof {
        lemma_div_nonincreasing(1_000_000_000int, frequency_hz as int);
    }
    1_000_000_000u64 / frequency_hz
}

/// The pulse width, in nanoseconds, that drives one channel at the given
/// intensity: the fraction `intensity / 255` of the period, the duty cycle
/// of an 8-bit channel.
pub fn pulse_ns(intensity: u8, period_ns: u64) -> (p: u64)
    requires
        period_ns <= 1_000_000_000,
    ensures
        p == (period_ns * intensity) as int / 255,
        p <= period_ns,
{
    proof {
        lemma_mul_inequality(intensity as int, 255, period_ns as int);
        lemma_div_is_ordered(
            period_ns as int * intensity as int,
            period_ns as int * 255,
            255,
        );
        lemma_div_multiples_vanish(period_ns as int, 255);
        assert(period_ns as int * 255 == 255 * period_ns as int);
        assert(intensity as int * period_ns as int == period_ns as int * intensity as int);
    }
    (period_ns * (intensity as u64)) / 255
}

struct GpioChannels {
    red: rppal::gpio::OutputPin,
    green: rppal::gpio::OutputPin,
    blue: rppal::gpio::OutputPin,
}

/// The output driver. It owns the three physical channels (when any are
/// attached) and is the only component that writes to them.
pub struct OutputDriver {
    frequency_hz: u64,
    channels: Option<GpioChannels>,
    attempted: Ghost<Option<Color>>,
}

impl OutputDriver {
    /// The frequency the driver oscillates its channels at, in hertz.
    pub closed spec fn frequency_spec(&self) -> u64 {
        self.frequency_hz
    }

    /// Whether the driver holds physical channels.
    pub closed spec fn is_attached(&self) -> bool {
        self.channels is Some
    }

    /// The last color this driver attempted to apply, if any.
    pub closed spec fn attempted_spec(&self) -> Option<Color> {
        self.attempted@
    }

    /// Well-formedness: the frequency is nonzero, so a period exists.
    pub closed spec fn wf(&self) -> bool {
        1 <= self.frequency_hz
    }

    /// Acquires the three fixed physical channels, to be driven at the
    /// shared oscillation frequency. Failing to claim any channel is
    /// reported; callers treat that as fatal at startup.
    pub fn acquire() -> (r: Result<OutputDriver, DriverError>)
        ensures
            r matches Ok(d) ==> d.wf() && d.is_attached() && d.frequency_spec() == OSCILLATION_HZ
                && d.attempted_spec() is None,
            r matches Err(e) ==> e == DriverError::ChannelUnavailable,
    {
        let gpio = match gpio_open() {
            Ok(g) => g,
            Err(_) => {
                return Err(DriverError::ChannelUnavailable);
            },
        };
        let red = match gpio_claim_output(&gpio, RED_CHANNEL_PIN) {
            Ok(p) => p,
            Err(_) => {
                return Err(DriverError::ChannelUnavailable);
            },
        };
        let green = match gpio_claim_output(&gpio, GREEN_CHANNEL_PIN) {
            Ok(p) => p,
            Err(_) => {
                return Err(DriverError::ChannelUnavailable);
            },
        };
        let blue = match gpio_claim_output(&gpio, BLUE_CHANNEL_PIN) {
            Ok(p) => p,
            Err(_) => {
                return Err(DriverError::ChannelUnavailable);
            },
        };
        Ok(OutputDriver {
            frequency_hz: OSCILLATION_HZ,
            channels: Some(GpioChannels { red, green, blue }),
            attempted: Ghost(None),
        })
    }

    /// A driver with no physical channels attached: applying a color records
    /// the attempt and succeeds without touching hardware. This serves hosts
    /// where the GPIO peripheral is absent.
    pub fn detached() -> (d: OutputDriver)
        ensures
            d.wf(),
            !d.is_attached(),
            d.frequency_spec() == OSCILLATION_HZ,
            d.attempted_spec() is None,
    {
        OutputDriver { frequency_hz: OSCILLATION_HZ, channels: None, attempted: Ghost(None) }
    }

    /// Applies a color to all three channels as one unit: each channel's
    /// pulse width is its intensity's fraction of the period. The writes
    /// happen in a fixed order and stop at the first failure; a partial
    /// application is reported, not rolled back, since the hardware has no
    /// multi-channel transaction.
    pub(crate) fn apply(&mut self, color: Color) -> (r: Result<(), DriverError>)
        requires
            old(self).wf(),
        ensures
            final(self).wf(),
            final(self).frequency_spec() == old(self).frequency_spec(),
            final(self).is_attached() == old(self).is_attached(),
            final(self).attempted_spec() == Some(color),
            !old(self).is_attached() ==> r is Ok,
            r matches Err(e) ==> e == DriverError::WriteFailed && old(self).is_attached(),
    {
        self.attempted = Ghost(Some(color));
        let period: u64 = period_ns(self.frequency_hz);
        match &mut self.channels {
            None => Ok(()),
            Some(ch) => {
                if pin_set_pwm(&mut ch.red, period, pulse_ns(color.red, period)).is_err() {
                    return Err(DriverError::WriteFailed);
                }
                if pin_set_pwm(&mut ch.green, period, pulse_ns(color.green, period)).is_err() {
                    return Err(DriverError::WriteFailed);
                }
                if pin_set_pwm(&mut ch.blue, period, pulse_ns(color.blue, period)).is_err() {
                    return Err(DriverError::WriteFailed);
                }
                Ok(())
            },
        }
    }
}

} // verus!
