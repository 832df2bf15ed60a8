//! The transport to the chip.
//!
//! [`RF24`] owns the physical resources — the SPI bus and the CE line —
//! through `rppal`, and keeps a ghost shadow of the chip's state that
//! advances by [`apply_frame`] with every frame confirmed sent.  [`Link`]
//! lets the driver run over that hardware or over the simulated chip with
//! one and the same verified logic.
//!
//! The only trusted code in this crate lives here: the declarations of the
//! `rppal` types and the small `#[verifier::external_body]` wrappers that
//! make one library call each.

use vstd::prelude::*;

use crate::chip::ChipSpec;
use crate::chip::apply_frame;
use crate::chip::frame_response;
use crate::sim::SimChip;

verus! {

#[verifier::external_type_specification]
#[verifier::external_body]
pub struct ExSpi(rppal::spi::Spi);

#[verifier::external_type_specification]
#[verifier::external_body]
pub struct ExSpiError(rppal::spi::Error);

#[verifier::external_type_specification]
#[verifier::external_body]
pub struct ExGpio(rppal::gpio::Gpio);

#[verifier::external_type_specification]
#[verifier::external_body]
pub struct ExPin(rppal::gpio::Pin);

#[verifier::external_type_specification]
#[verifier::external_body]
pub struct ExOutputPin(rppal::gpio::OutputPin);

#[verifier::external_type_specification]
#[verifier::external_body]
pub struct ExGpioError(rppal::gpio::Error);

/// What a driver operation can fail with.  Configuration errors are
/// detected before any bus traffic; bus errors carry the underlying
/// `rppal` error; `Timeout` reports a TX FIFO that never drained.
#[derive(Debug)]
pub enum RF24Error {
    SpiError(rppal::spi::Error),
    GpioError(rppal::gpio::Error),
    InvalidChannel,
    InvalidAddressWidth,
    InvalidPayloadSize,
    InvalidPipe,
    Timeout,
}

/// Relies on rppal::spi::Spi::new: opens SPI bus 0, slave select 0, at
/// 10 MHz in mode 0 (the chip's limits from its datasheet).
#[verifier::external_body]
fn spi_open() -> (r: Result<rppal::spi::Spi, rppal::spi::Error>) {
    rppal::spi::Spi::new(
        rppal::spi::Bus::Spi0,
        rppal::spi::SlaveSelect::Ss0,
        10_000_000,
        rppal::spi::Mode::Mode0,
    )
}

/// Relies on rppal::spi::Spi::transfer: sends `write` and stores what the
/// chip answers in `read`, as many bytes as the shorter buffer holds.  The
/// buffers are slices, so their lengths cannot change; what the read bytes
/// are depends on the device.
#[verifier::external_body]
fn spi_transfer(spi: &rppal::spi::Spi, read: &mut Vec<u8>, write: &Vec<u8>) -> (r: Result<
    usize,
    rppal::spi::Error,
>)
    ensures
        final(read)@.len() == old(read)@.len(),
{
    spi.transfer(read.as_mut_slice(), write.as_slice())
}

/// Relies on rppal::gpio::Gpio::new: opens the GPIO peripheral.
#[verifier::external_body]
fn gpio_open() -> (r: Result<rppal::gpio::Gpio, rppal::gpio::Error>) {
    rppal::gpio::Gpio::new()
}

/// Relies on rppal::gpio::Gpio::get: claims one GPIO pin by its BCM
/// number.
#[verifier::external_body]
fn gpio_get(gpio: &rppal::gpio::Gpio, pin: u8) -> (r: Result<
    rppal::gpio::Pin,
    rppal::gpio::Error,
>) {
    gpio.get(pin)
}

/// Relies on rppal::gpio::Pin::into_output_low: turns the pin into an
/// output driven low.
#[verifier::external_body]
fn pin_into_output_low(pin: rppal::gpio::Pin) -> (r: rppal::gpio::OutputPin) {
    pin.into_output_low()
}

/// Relies on rppal::gpio::OutputPin::set_high: drives the pin high.
#[verifier::external_body]
fn pin_set_high(pin: &mut rppal::gpio::OutputPin) {
    pin.set_high();
}

/// Relies on rppal::gpio::OutputPin::set_low: drives the pin low.
#[verifier::external_body]
fn pin_set_low(pin: &mut rppal::gpio::OutputPin) {
    pin.set_low();
}

/// Relies on rppal::hal::Delay: its DelayNs implementation sleeps at least
/// the requested number of microseconds.
#[verifier::external_body]
fn hw_delay_us(us: u32) {
    embedded_hal::delay::DelayNs::delay_us(&mut rppal::hal::Delay::new(), us);
}

/// A zero-filled buffer of the given length.
fn zero_vec(n: usize) -> (v: Vec<u8>)
    ensures
        v@.len() == n,
{
    let mut v: Vec<u8> = Vec::new();
    while v.len() < n
        invariant
            v@.len() <= n,
        decreases n - v@.len(),
    {
        v.push(0);
    }
    v
}

/// The SPI and CE transport to a physical chip.
///
/// The ghost `model` is the driver's shadow of the chip: it starts at the
/// datasheet's reset state and advances by [`apply_frame`] with every
/// frame whose transfer succeeded.  A frame whose transfer failed leaves
/// the shadow at the last confirmed state.
pub struct RF24 {
    spi: rppal::spi::Spi,
    ce_pin: rppal::gpio::OutputPin,
    model: Ghost<ChipSpec>,
}

impl RF24 {
    /// The shadow of the chip state.
    pub closed spec fn chip(&self) -> ChipSpec {
        self.model@
    }

    /// Claims the CE pin (driven low) and the SPI bus, then waits the
    /// chip's power-on settle time of at least 5 ms.
    pub fn new(ce_pin_number: u8) -> (r: Result<RF24, RF24Error>)
        ensures
            r is Ok ==> r->Ok_0.chip() == ChipSpec::reset(),
            r is Err ==> r->Err_0 is GpioError || r->Err_0 is SpiError,
    {
        let gpio = match gpio_open() {
            Ok(g) => g,
            Err(e) => {
                return Err(RF24Error::GpioError(e));
            },
        };
        let pin = match gpio_get(&gpio, ce_pin_number) {
            Ok(p) => p,
            Err(e) => {
                return Err(RF24Error::GpioError(e));
            },
        };
        let ce_pin = pin_into_output_low(pin);
        let spi = match spi_open() {
            Ok(s) => s,
            Err(e) => {
                return Err(RF24Error::SpiError(e));
            },
        };
        hw_delay_us(5000);
        Ok(RF24 { spi, ce_pin, model: Ghost(ChipSpec::reset()) })
    }

    /// One full-duplex SPI exchange.  On success the shadow advances by
    /// the frame and the response has the frame's length; on a bus error
    /// the shadow keeps the last confirmed state.
    pub fn command(&mut self, data_out: &Vec<u8>) -> (r: Result<Vec<u8>, RF24Error>)
        ensures
            r is Ok ==> final(self).chip() == apply_frame(old(self).chip(), data_out@)
                && r->Ok_0@.len() == data_out@.len(),
            r is Err ==> final(self).chip() == old(self).chip() && r->Err_0 is SpiError,
    {
        let mut data_in = zero_vec(data_out.len());
        match spi_transfer(&self.spi, &mut data_in, data_out) {
            Ok(_) => {
                self.model = Ghost(apply_frame(self.model@, data_out@));
                Ok(data_in)
            },
            Err(e) => Err(RF24Error::SpiError(e)),
        }
    }

    /// Raises the CE line.
    pub fn set_ce_high(&mut self)
        ensures
            final(self).chip() == (ChipSpec { ce_high: true, ..old(self).chip() }),
    {
        pin_set_high(&mut self.ce_pin);
        self.model = Ghost(ChipSpec { ce_high: true, ..self.model@ });
    }

    /// Lowers the CE line.
    pub fn set_ce_low(&mut self)
        ensures
            final(self).chip() == (ChipSpec { ce_high: false, ..old(self).chip() }),
    {
        pin_set_low(&mut self.ce_pin);
        self.model = Ghost(ChipSpec { ce_high: false, ..self.model@ });
    }
}

/// The transport a driver instance talks through: the physical chip, or
/// the simulator.
pub enum Link {
    Hw(RF24),
    Sim(SimChip),
}

impl Link {
    /// The chip state this transport is at: the hardware shadow, or the
    /// simulator's actual state.
    pub open spec fn chip(&self) -> ChipSpec {
        match self {
            Link::Hw(h) => h.chip(),
            Link::Sim(s) => s.chip(),
        }
    }

    /// One full-duplex SPI exchange.  On success the chip state advances
    /// by the frame and the response has the frame's length.  What the
    /// response bytes hold depends on the device behind a hardware link;
    /// the simulator never fails and answers exactly what the model says.
    pub fn command(&mut self, data_out: &Vec<u8>) -> (r: Result<Vec<u8>, RF24Error>)
        ensures
            r is Ok ==> final(self).chip() == apply_frame(old(self).chip(), data_out@)
                && r->Ok_0@.len() == data_out@.len(),
            r is Err ==> final(self).chip() == old(self).chip() && r->Err_0 is SpiError,
            *old(self) is Sim ==> r is Ok && r->Ok_0@ == frame_response(
                old(self).chip(),
                data_out@,
            ),
            *old(self) is Sim <==> *final(self) is Sim,
    {
        match self {
            Link::Hw(h) => h.command(data_out),
            Link::Sim(s) => Ok(s.transfer(data_out)),
        }
    }

    /// Drives the CE line.
    pub fn set_ce(&mut self, high: bool)
        ensures
            final(self).chip() == (ChipSpec { ce_high: high, ..old(self).chip() }),
            *old(self) is Sim <==> *final(self) is Sim,
    {
        match self {
            Link::Hw(h) => {
                if high {
                    h.set_ce_high();
                } else {
                    h.set_ce_low();
                }
            },
            Link::Sim(s) => s.set_ce(high),
        }
    }

    /// Waits at least `us` microseconds (simulated time passes for free).
    pub fn delay_us(&mut self, us: u32)
        ensures
            final(self).chip() == old(self).chip(),
            *old(self) is Sim <==> *final(self) is Sim,
    {
        match self {
            Link::Hw(_) => hw_delay_us(us),
            Link::Sim(s) => s.delay_us(us),
        }
    }
}

} // verus!
