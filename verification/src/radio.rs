//! The radio driver.
//!
//! [`Radio`] owns one chip through a [`Link`] and drives it through the
//! command set: configure once, then transmit fixed-size payloads, listen,
//! or scan the band.  Every operation's contract says exactly how the chip
//! model advances; the mode invariant in [`Radio::wf`] ties the driver's
//! declared mode to the CE line and the PRIM_RX bit at all times.

use vstd::prelude::*;

use crate::chip::ChipSpec;
use crate::chip::read_byte;
use crate::chip::spec_rx_address;
use crate::chip::spec_tx_address;
use crate::protocol::DataRate;
use crate::protocol::PowerLevel;
use crate::protocol::Register;
use crate::protocol::flush_rx_frame;
use crate::protocol::flush_tx_frame;
use crate::protocol::payload_frame;
use crate::protocol::read_address_frame;
use crate::protocol::read_register_frame;
use crate::protocol::write_address_frame;
use crate::protocol::write_register_frame;
use crate::registers::CRCO;
use crate::registers::EN_CRC;
use crate::registers::MASK_MAX_RT;
use crate::registers::MASK_RX_DR;
use crate::registers::MASK_TX_DS;
use crate::registers::PWR_UP;
use crate::registers::StatusRegister;
use crate::rf24::Link;
use crate::rf24::RF24;
use crate::rf24::RF24Error;

verus! {

/// The driver's operating mode.  `Transmitting` exists only for the
/// moment of a send's CE pulse; every operation returns the driver to
/// `Standby` or `Listening`.
#[derive(Clone, Copy, Debug, PartialEq, Eq, Structural)]
pub enum Mode {
    Standby,
    Listening,
    Transmitting,
}

/// The static payload width `configure` programs on every pipe: the size
/// of the controller state frame.
pub const PAYLOAD_WIDTH: u8 = 13;

/// How many times `send` polls a full TX FIFO before giving up with
/// `Timeout`.
pub const SEND_POLL_LIMIT: u32 = 1000;

/// The driver: a transport plus the configuration it has programmed.
pub struct Radio {
    pub link: Link,
    pub address: [u8; 5],
    pub rate: DataRate,
    pub power_level: PowerLevel,
    pub channel: u8,
    /// Shadow of the chip's CONFIG register; the chip is never read back
    /// to learn it.
    pub config: u8,
    pub mode: Mode,
}

impl Radio {
    /// The driver invariant.  The channel is in range, the CONFIG shadow
    /// matches the chip, and the declared mode agrees with the CE line
    /// and the PRIM_RX bit: `Listening` means CE high with PRIM_RX set,
    /// `Transmitting` means CE high with PRIM_RX clear, and `Standby`
    /// means CE low.
    pub open spec fn wf(&self) -> bool {
        &&& self.channel <= 127
        &&& self.config == self.link.chip().config
        &&& self.link.chip().wf()
        &&& match self.mode {
            Mode::Standby => !self.link.chip().ce_high,
            Mode::Listening => self.link.chip().ce_high && self.link.chip().prim_rx(),
            Mode::Transmitting => self.link.chip().ce_high && !self.link.chip().prim_rx(),
        }
    }

    /// Writes the CONFIG register and the shadow together.  Callers must
    /// re-establish the mode invariant themselves when they change
    /// PRIM_RX.
    fn write_config(&mut self, value: u8) -> (r: Result<(), RF24Error>)
        ensures
            old(self).link is Sim ==> r is Ok,
            old(self).link is Sim <==> final(self).link is Sim,
            r is Ok ==> final(self).config == value && final(self).link.chip() == (ChipSpec {
                config: value,
                ..old(self).link.chip()
            }),
            r is Err ==> r->Err_0 is SpiError && final(self).config == old(self).config && final(self).link.chip() == old(self).link.chip(),
            final(self).address == old(self).address,
            final(self).rate == old(self).rate,
            final(self).power_level == old(self).power_level,
            final(self).channel == old(self).channel,
            final(self).mode == old(self).mode,
    {
        let f = write_register_frame(Register::CONFIG, value);
        match self.link.command(&f) {
            Ok(_) => {
                self.config = value;
                Ok(())
            },
            Err(e) => Err(e),
        }
    }

    /// Selects the radio channel.  Channels above 127 do not exist and
    /// are rejected, with `InvalidChannel`, before any bus traffic; on
    /// success the chip's RF_CH register holds exactly the channel.
    pub fn set_channel(&mut self, channel: u8) -> (r: Result<(), RF24Error>)
        requires
            old(self).wf(),
        ensures
            final(self).address == old(self).address && final(self).rate == old(self).rate
                && final(self).power_level == old(self).power_level,
            old(self).link is Sim && channel <= 127 ==> r is Ok,
            old(self).link is Sim <==> final(self).link is Sim,
            final(self).wf(),
            (channel > 127) <==> (r is Err && r->Err_0 is InvalidChannel),
            r is Err ==> r->Err_0 is InvalidChannel || r->Err_0 is SpiError,
            r is Ok ==> final(self).channel == channel && final(self).link.chip() == (ChipSpec {
                rf_ch: channel,
                ..old(self).link.chip()
            }) && final(self).address == old(self).address && final(self).rate == old(self).rate
                && final(self).power_level == old(self).power_level && final(self).config == old(self).config && final(self).mode == old(self).mode,
            r is Err ==> final(self).link.chip() == old(self).link.chip() && final(self).address
                == old(self).address && final(self).channel == old(self).channel && final(self).config == old(self).config && final(self).mode == old(self).mode,
    {
        if channel > 127 {
            return Err(RF24Error::InvalidChannel);
        }
        let f = write_register_frame(Register::RF_CH, channel);
        match self.link.command(&f) {
            Ok(_) => {
                self.channel = channel;
                Ok(())
            },
            Err(e) => Err(e),
        }
    }

    /// Programs the symmetric link address: the same five bytes go to RX
    /// pipe 0 and to TX_ADDR.  Anything but exactly five bytes is
    /// rejected, with `InvalidAddressWidth`, before any bus traffic; on
    /// success both registers read back as that address.
    pub fn set_address(&mut self, address: &[u8]) -> (r: Result<(), RF24Error>)
        requires
            old(self).wf(),
        ensures
            final(self).rate == old(self).rate && final(self).power_level == old(self).power_level,
            old(self).link is Sim && address@.len() == 5 ==> r is Ok,
            old(self).link is Sim <==> final(self).link is Sim,
            final(self).wf(),
            (address@.len() != 5) <==> (r is Err && r->Err_0 is InvalidAddressWidth),
            r is Err ==> r->Err_0 is InvalidAddressWidth || r->Err_0 is SpiError,
            r is Ok ==> final(self).address@ == address@ && spec_rx_address(final(self).link.chip(), 0) == address@ && spec_tx_address(final(self).link.chip()) == address@ && final(self).link.chip() == (ChipSpec {
                rx_addr_p0: final(self).link.chip().rx_addr_p0,
                tx_addr: final(self).link.chip().tx_addr,
                ..old(self).link.chip()
            }) && final(self).rate == old(self).rate && final(self).power_level == old(self).power_level && final(self).channel == old(self).channel && final(self).config == old(self).config && final(self).mode == old(self).mode,
            r is Err ==> final(self).address == old(self).address && final(self).channel == old(self).channel && final(self).config == old(self).config && final(self).mode == old(self).mode,
            r is Err && r->Err_0 is InvalidAddressWidth ==> final(self).link.chip() == old(self).link.chip(),
    {
        if address.len() != 5 {
            return Err(RF24Error::InvalidAddressWidth);
        }
        let a: [u8; 5] = [address[0], address[1], address[2], address[3], address[4]];
        let f0 = write_address_frame(Register::RX_ADDR_P0, &a);
        match self.link.command(&f0) {
            Ok(_) => (),
            Err(e) => {
                return Err(e);
            },
        }
        let f1 = write_address_frame(Register::TX_ADDR, &a);
        match self.link.command(&f1) {
            Ok(_) => (),
            Err(e) => {
                return Err(e);
            },
        }
        self.address = a;
        proof {
            assert(a@ =~= address@);
            assert(self.link.chip().rx_addr_p0 =~= seq![a@[4], a@[3], a@[2], a@[1], a@[0]]);
            assert(self.link.chip().tx_addr =~= seq![a@[4], a@[3], a@[2], a@[1], a@[0]]);
            assert(spec_rx_address(self.link.chip(), 0) =~= address@);
            assert(spec_tx_address(self.link.chip()) =~= address@);
        }
        Ok(())
    }

    /// The configured channel.
    pub fn channel(&self) -> (r: u8)
        ensures
            r == self.channel,
    {
        self.channel
    }

    /// Builds a driver over an already-open transport whose chip is at
    /// its reset state, then programs the link address and the channel.
    pub fn with_link(
        link: Link,
        address: &[u8],
        rate: DataRate,
        power_level: PowerLevel,
        channel: u8,
    ) -> (r: Result<Radio, RF24Error>)
        requires
            link.chip() == ChipSpec::reset(),
        ensures
            link is Sim && address@.len() == 5 && channel <= 127 ==> r is Ok
                && r->Ok_0.link is Sim,
            (address@.len() != 5) <==> (r is Err && r->Err_0 is InvalidAddressWidth),
            (address@.len() == 5 && channel > 127) <==> (r is Err && r->Err_0 is InvalidChannel),
            r is Err ==> r->Err_0 is InvalidAddressWidth || r->Err_0 is InvalidChannel
                || r->Err_0 is SpiError,
            r is Ok ==> ({
                let radio = r->Ok_0;
                radio.wf() && radio.mode == Mode::Standby && radio.channel == channel
                    && radio.address@ == address@ && radio.rate == rate && radio.power_level
                    == power_level && radio.link.chip().rf_ch == channel && spec_rx_address(
                    radio.link.chip(),
                    0,
                ) == address@ && spec_tx_address(radio.link.chip()) == address@
            }),
    {
        if address.len() != 5 {
            return Err(RF24Error::InvalidAddressWidth);
        }
        if channel > 127 {
            return Err(RF24Error::InvalidChannel);
        }
        let mut radio = Radio {
            link,
            address: [0; 5],
            rate,
            power_level,
            channel: 0,
            config: 0x08,
            mode: Mode::Standby,
        };
        match radio.set_address(address) {
            Ok(_) => (),
            Err(e) => {
                return Err(e);
            },
        }
        match radio.set_channel(channel) {
            Ok(_) => (),
            Err(e) => {
                return Err(e);
            },
        }
        Ok(radio)
    }

    /// Opens the hardware transport on the given CE pin and builds a
    /// driver over it.
    pub fn new(
        address: &[u8],
        rate: DataRate,
        power_level: PowerLevel,
        channel: u8,
        ce_pin_number: u8,
    ) -> (r: Result<Radio, RF24Error>)
        ensures
            (address@.len() != 5) <==> (r is Err && r->Err_0 is InvalidAddressWidth),
            (address@.len() == 5 && channel > 127) <==> (r is Err && r->Err_0 is InvalidChannel),
            r is Err ==> r->Err_0 is InvalidAddressWidth || r->Err_0 is InvalidChannel
                || r->Err_0 is GpioError || r->Err_0 is SpiError,
            r is Ok ==> ({
                let radio = r->Ok_0;
                radio.wf() && radio.mode == Mode::Standby && radio.channel == channel
                    && radio.address@ == address@ && radio.rate == rate && radio.power_level
                    == power_level
            }),
    {
        if address.len() != 5 {
            return Err(RF24Error::InvalidAddressWidth);
        }
        if channel > 127 {
            return Err(RF24Error::InvalidChannel);
        }
        let rf24 = match RF24::new(ce_pin_number) {
            Ok(t) => t,
            Err(e) => {
                return Err(e);
            },
        };
        Radio::with_link(Link::Hw(rf24), address, rate, power_level, channel)
    }

    /// Brings the chip into its configured standby state with one fixed
    /// write sequence: CONFIG with CRC enabled (two bytes) and all three
    /// interrupt sources masked, the channel, the data rate and power,
    /// auto-acknowledgment off, no extra features, the static payload
    /// width on all six pipes, both FIFOs flushed, the interrupt flags
    /// cleared, and finally PWR_UP — then the chip's power-up settle time
    /// of at least 130 ms.  Afterwards the interrupt flags read as clear
    /// and PWR_UP reads as set.
    #[verifier::rlimit(100)]
    pub fn configure(&mut self) -> (r: Result<(), RF24Error>)
        requires
            old(self).wf(),
            old(self).mode is Standby,
        ensures
            final(self).address == old(self).address && final(self).rate == old(self).rate
                && final(self).power_level == old(self).power_level,
            old(self).link is Sim ==> r is Ok,
            old(self).link is Sim <==> final(self).link is Sim,
            final(self).wf(),
            final(self).mode is Standby,
            r is Err ==> r->Err_0 is SpiError,
            r is Ok ==> final(self).link.chip() == (ChipSpec {
                config: 0x7E,
                rf_ch: old(self).channel,
                rf_setup: (old(self).rate.spec_value() + old(self).power_level.spec_value()) as u8,
                en_aa: 0,
                feature: 0,
                rx_pw: seq![
                    PAYLOAD_WIDTH,
                    PAYLOAD_WIDTH,
                    PAYLOAD_WIDTH,
                    PAYLOAD_WIDTH,
                    PAYLOAD_WIDTH,
                    PAYLOAD_WIDTH,
                ],
                rx_dr: false,
                tx_ds: false,
                max_rt: false,
                tx_fifo: 0,
                rx_fifo: 0,
                ..old(self).link.chip()
            }),
            r is Ok ==> final(self).link.chip().pwr_up() && !final(self).link.chip().prim_rx()
                && !final(self).link.chip().rx_dr && !final(self).link.chip().tx_ds && !final(self).link.chip().max_rt,
            r is Ok ==> final(self).config == 0x7E && final(self).channel == old(self).channel
                && final(self).address == old(self).address && final(self).rate == old(self).rate
                && final(self).power_level == old(self).power_level,
    {
        let base: u8 = MASK_RX_DR + MASK_TX_DS + MASK_MAX_RT + EN_CRC + CRCO;
        self.write_config(base)?;
        let f = write_register_frame(Register::RF_CH, self.channel);
        self.link.command(&f)?;
        let rf: u8 = self.rate.value() + self.power_level.value();
        let f = write_register_frame(Register::RF_SETUP, rf);
        self.link.command(&f)?;
        let f = write_register_frame(Register::EN_AA, 0);
        self.link.command(&f)?;
        let f = write_register_frame(Register::FEATURE, 0);
        self.link.command(&f)?;
        let f = write_register_frame(Register::RX_PW_P0, PAYLOAD_WIDTH);
        self.link.command(&f)?;
        let f = write_register_frame(Register::RX_PW_P1, PAYLOAD_WIDTH);
        self.link.command(&f)?;
        let f = write_register_frame(Register::RX_PW_P2, PAYLOAD_WIDTH);
        self.link.command(&f)?;
        let f = write_register_frame(Register::RX_PW_P3, PAYLOAD_WIDTH);
        self.link.command(&f)?;
        let f = write_register_frame(Register::RX_PW_P4, PAYLOAD_WIDTH);
        self.link.command(&f)?;
        let f = write_register_frame(Register::RX_PW_P5, PAYLOAD_WIDTH);
        self.link.command(&f)?;
        let f = flush_rx_frame();
        self.link.command(&f)?;
        let f = flush_tx_frame();
        self.link.command(&f)?;
        let f = write_register_frame(Register::STATUS, 0x70);
        self.link.command(&f)?;
        self.write_config(base + PWR_UP)?;
        self.link.delay_us(130_000);
        proof {
            assert(self.link.chip().rx_pw =~= seq![
                PAYLOAD_WIDTH,
                PAYLOAD_WIDTH,
                PAYLOAD_WIDTH,
                PAYLOAD_WIDTH,
                PAYLOAD_WIDTH,
                PAYLOAD_WIDTH,
            ]);
            assert(self.link.chip() =~= (ChipSpec {
                config: 0x7E,
                rf_ch: old(self).channel,
                rf_setup: (old(self).rate.spec_value() + old(self).power_level.spec_value()) as u8,
                en_aa: 0,
                feature: 0,
                rx_pw: seq![
                    PAYLOAD_WIDTH,
                    PAYLOAD_WIDTH,
                    PAYLOAD_WIDTH,
                    PAYLOAD_WIDTH,
                    PAYLOAD_WIDTH,
                    PAYLOAD_WIDTH,
                ],
                rx_dr: false,
                tx_ds: false,
                max_rt: false,
                tx_fifo: 0,
                rx_fifo: 0,
                ..old(self).link.chip()
            }));
        }
        Ok(())
    }

    /// Sets PWR_UP, leaving every other CONFIG bit as it is, then waits
    /// the chip's power-up settle time.
    pub fn power_up(&mut self) -> (r: Result<(), RF24Error>)
        requires
            old(self).wf(),
        ensures
            final(self).address == old(self).address && final(self).rate == old(self).rate
                && final(self).power_level == old(self).power_level,
            old(self).link is Sim ==> r is Ok,
            old(self).link is Sim <==> final(self).link is Sim,
            final(self).wf(),
            r is Err ==> r->Err_0 is SpiError,
            r is Ok ==> final(self).link.chip() == (ChipSpec {
                config: final(self).config,
                ..old(self).link.chip()
            }) && final(self).config == (if old(self).config / 2 % 2 == 1 {
                old(self).config
            } else {
                (old(self).config + 2) as u8
            }) && final(self).link.chip().pwr_up() && final(self).mode == old(self).mode && final(self).channel == old(self).channel && final(self).address == old(self).address,
    {
        if (self.config / 2) % 2 == 0 {
            let v = self.config + 2;
            self.write_config(v)?;
        }
        self.link.delay_us(130_000);
        Ok(())
    }

    /// Clears PWR_UP, leaving every other CONFIG bit as it is.
    pub fn power_down(&mut self) -> (r: Result<(), RF24Error>)
        requires
            old(self).wf(),
        ensures
            final(self).address == old(self).address && final(self).rate == old(self).rate
                && final(self).power_level == old(self).power_level,
            old(self).link is Sim ==> r is Ok,
            old(self).link is Sim <==> final(self).link is Sim,
            final(self).wf(),
            r is Err ==> r->Err_0 is SpiError,
            r is Ok ==> final(self).link.chip() == (ChipSpec {
                config: final(self).config,
                ..old(self).link.chip()
            }) && final(self).config == (if old(self).config / 2 % 2 == 1 {
                (old(self).config - 2) as u8
            } else {
                old(self).config
            }) && !final(self).link.chip().pwr_up() && final(self).mode == old(self).mode && final(self).channel == old(self).channel && final(self).address == old(self).address,
    {
        if (self.config / 2) % 2 == 1 {
            let v = self.config - 2;
            self.write_config(v)?;
        }
        Ok(())
    }

    /// Enters receive mode: sets PRIM_RX and PWR_UP, clears the
    /// interrupt flags, raises CE and waits the RX settling time.
    pub fn start_listening(&mut self) -> (r: Result<(), RF24Error>)
        requires
            old(self).wf(),
            old(self).mode is Standby,
        ensures
            final(self).address == old(self).address && final(self).rate == old(self).rate
                && final(self).power_level == old(self).power_level,
            old(self).link is Sim ==> r is Ok,
            old(self).link is Sim <==> final(self).link is Sim,
            final(self).wf(),
            r is Err ==> r->Err_0 is SpiError && final(self).mode is Standby && !final(self).link.chip().ce_high,
            r is Ok ==> final(self).mode is Listening && final(self).link.chip() == (ChipSpec {
                config: final(self).config,
                rx_dr: false,
                tx_ds: false,
                max_rt: false,
                ce_high: true,
                ..old(self).link.chip()
            }) && final(self).config == (old(self).config / 4 * 4 + 3) as u8 && final(self).link.chip().prim_rx() && final(self).link.chip().pwr_up() && final(self).channel
                == old(self).channel && final(self).address == old(self).address,
    {
        let v = self.config / 4 * 4 + 3;
        self.write_config(v)?;
        let f = write_register_frame(Register::STATUS, 0x70);
        self.link.command(&f)?;
        self.link.set_ce(true);
        self.mode = Mode::Listening;
        self.link.delay_us(130);
        Ok(())
    }

    /// Leaves receive mode: lowers CE, waits the settling time, flushes
    /// the TX FIFO and clears PRIM_RX.
    pub fn stop_listening(&mut self) -> (r: Result<(), RF24Error>)
        requires
            old(self).wf(),
            old(self).mode is Listening,
        ensures
            final(self).address == old(self).address && final(self).rate == old(self).rate
                && final(self).power_level == old(self).power_level,
            old(self).link is Sim ==> r is Ok,
            old(self).link is Sim <==> final(self).link is Sim,
            final(self).wf(),
            final(self).mode is Standby,
            !final(self).link.chip().ce_high,
            r is Err ==> r->Err_0 is SpiError,
            r is Ok ==> final(self).link.chip() == (ChipSpec {
                config: final(self).config,
                tx_fifo: 0,
                ce_high: false,
                ..old(self).link.chip()
            }) && final(self).config == (old(self).config - 1) as u8 && !final(self).link.chip().prim_rx() && final(self).channel == old(self).channel && final(self).address == old(self).address,
    {
        self.link.set_ce(false);
        self.mode = Mode::Standby;
        self.link.delay_us(130);
        let f = flush_tx_frame();
        self.link.command(&f)?;
        let v = self.config - 1;
        self.write_config(v)?;
        Ok(())
    }

    /// Drops to standby: lowers CE and waits the settling time.  The
    /// CONFIG register is left as it is.
    pub fn standby(&mut self)
        requires
            old(self).wf(),
        ensures
            final(self).address == old(self).address && final(self).rate == old(self).rate
                && final(self).power_level == old(self).power_level,
            old(self).link is Sim <==> final(self).link is Sim,
            final(self).wf(),
            final(self).mode is Standby,
            final(self).link.chip() == (ChipSpec { ce_high: false, ..old(self).link.chip() }),
            final(self).config == old(self).config && final(self).channel == old(self).channel
                && final(self).address == old(self).address,
    {
        self.link.set_ce(false);
        self.mode = Mode::Standby;
        self.link.delay_us(130);
    }

    /// Readies the chip for transmitting: lowers CE, flushes the TX FIFO
    /// and clears PRIM_RX, ending in standby.
    pub fn set_tx_mode(&mut self) -> (r: Result<(), RF24Error>)
        requires
            old(self).wf(),
        ensures
            final(self).address == old(self).address && final(self).rate == old(self).rate
                && final(self).power_level == old(self).power_level,
            old(self).link is Sim ==> r is Ok,
            old(self).link is Sim <==> final(self).link is Sim,
            final(self).wf(),
            final(self).mode is Standby,
            r is Err ==> r->Err_0 is SpiError,
            r is Ok ==> final(self).link.chip() == (ChipSpec {
                config: final(self).config,
                tx_fifo: 0,
                ce_high: false,
                ..old(self).link.chip()
            }) && final(self).config == (old(self).config - old(self).config % 2) as u8 && !final(self).link.chip().prim_rx() && final(self).channel == old(self).channel && final(self).address == old(self).address,
    {
        self.link.set_ce(false);
        self.mode = Mode::Standby;
        self.link.delay_us(130);
        let f = flush_tx_frame();
        self.link.command(&f)?;
        if self.config % 2 == 1 {
            let v = self.config - 1;
            self.write_config(v)?;
        }
        Ok(())
    }

    /// The shared transmit path: waits (boundedly) for TX FIFO room,
    /// queues the payload with the requested TX command, pulses CE for at
    /// least 10 µs — the edge that launches the packet — and clears the
    /// interrupt flags.
    fn transmit(&mut self, data: &[u8], ack: bool) -> (r: Result<(), RF24Error>)
        requires
            old(self).wf(),
            old(self).mode is Standby,
            !old(self).link.chip().prim_rx(),
        ensures
            final(self).address == old(self).address && final(self).rate == old(self).rate
                && final(self).power_level == old(self).power_level,
            old(self).link is Sim && 1 <= data@.len() <= 32 && old(self).link.chip().tx_fifo < 3 ==> r is Ok,
            old(self).link is Sim <==> final(self).link is Sim,
            final(self).wf(),
            final(self).mode is Standby,
            (data@.len() == 0 || data@.len() > 32) <==> (r is Err
                && r->Err_0 is InvalidPayloadSize),
            r is Err && r->Err_0 is InvalidPayloadSize ==> final(self).link.chip() == old(self).link.chip(),
            r is Err ==> r->Err_0 is InvalidPayloadSize || r->Err_0 is Timeout
                || r->Err_0 is SpiError,
            r is Ok ==> final(self).link.chip() == (ChipSpec {
                tx_fifo: if old(self).link.chip().tx_fifo < 3 {
                    old(self).link.chip().tx_fifo + 1
                } else {
                    old(self).link.chip().tx_fifo
                },
                rx_dr: false,
                tx_ds: false,
                max_rt: false,
                ce_high: false,
                ..old(self).link.chip()
            }) && final(self).channel == old(self).channel && final(self).address == old(self).address && final(self).config == old(self).config,
    {
        if data.len() == 0 || data.len() > 32 {
            return Err(RF24Error::InvalidPayloadSize);
        }
        let mut attempts: u32 = 0;
        let mut ready = false;
        while !ready && attempts < SEND_POLL_LIMIT
            invariant
                1 <= data@.len() <= 32,
                old(self).link is Sim <==> self.link is Sim,
                old(self).link is Sim && old(self).link.chip().tx_fifo < 3 ==> (ready || attempts
                    == 0),
                self.wf(),
                self.mode is Standby,
                !self.link.chip().prim_rx(),
                self.link.chip() == old(self).link.chip(),
                self.channel == old(self).channel,
                self.address == old(self).address,
                self.config == old(self).config,
                self.rate == old(self).rate,
                self.power_level == old(self).power_level,
                attempts <= SEND_POLL_LIMIT,
            decreases SEND_POLL_LIMIT - attempts,
        {
            let fr = read_register_frame(Register::STATUS);
            let resp = match self.link.command(&fr) {
                Ok(v) => v,
                Err(e) => {
                    return Err(e);
                },
            };
            proof {
                if self.link is Sim {
                    // over the simulator the answered STATUS byte is the
                    // model's, whose TX_FULL bit tracks the FIFO depth
                    crate::chip::lemma_status_byte_decodes(self.link.chip());
                }
            }
            if resp[1] & 0x01 == 0 {
                ready = true;
            } else {
                self.link.delay_us(100);
            }
            attempts = attempts + 1;
        }
        if !ready {
            return Err(RF24Error::Timeout);
        }
        let pf = payload_frame(data, ack);
        match self.link.command(&pf) {
            Ok(_) => (),
            Err(e) => {
                return Err(e);
            },
        }
        self.link.set_ce(true);
        self.mode = Mode::Transmitting;
        proof {
            // the transmit pulse is observed here: CE high with PRIM_RX
            // clear, as the mode invariant demands
            assert(self.wf());
        }
        self.link.delay_us(15);
        self.link.set_ce(false);
        self.mode = Mode::Standby;
        let sf = write_register_frame(Register::STATUS, 0x70);
        match self.link.command(&sf) {
            Ok(_) => (),
            Err(e) => {
                return Err(e);
            },
        }
        Ok(())
    }

    /// Transmits one payload of 1 to 32 bytes with the W_TX_PAYLOAD
    /// command, so the receiver acknowledges it when auto-acknowledgment
    /// is enabled.  The chip must be in standby with PRIM_RX clear, as
    /// `configure`, `set_tx_mode` and `stop_listening` leave it; a TX
    /// FIFO that never drains ends the wait with `Timeout` instead of
    /// spinning forever.
    pub fn send(&mut self, data: &[u8]) -> (r: Result<(), RF24Error>)
        requires
            old(self).wf(),
            old(self).mode is Standby,
            !old(self).link.chip().prim_rx(),
        ensures
            final(self).address == old(self).address && final(self).rate == old(self).rate
                && final(self).power_level == old(self).power_level,
            old(self).link is Sim && 1 <= data@.len() <= 32 && old(self).link.chip().tx_fifo < 3
                ==> r is Ok,
            old(self).link is Sim <==> final(self).link is Sim,
            final(self).wf(),
            final(self).mode is Standby,
            (data@.len() == 0 || data@.len() > 32) <==> (r is Err
                && r->Err_0 is InvalidPayloadSize),
            r is Err && r->Err_0 is InvalidPayloadSize ==> final(self).link.chip() == old(self).link.chip(),
            r is Err ==> r->Err_0 is InvalidPayloadSize || r->Err_0 is Timeout
                || r->Err_0 is SpiError,
            r is Ok ==> final(self).link.chip() == (ChipSpec {
                tx_fifo: if old(self).link.chip().tx_fifo < 3 {
                    old(self).link.chip().tx_fifo + 1
                } else {
                    old(self).link.chip().tx_fifo
                },
                rx_dr: false,
                tx_ds: false,
                max_rt: false,
                ce_high: false,
                ..old(self).link.chip()
            }) && final(self).channel == old(self).channel && final(self).address == old(self).address && final(self).config == old(self).config,
    {
        self.transmit(data, true)
    }

    /// Transmits one payload of 1 to 32 bytes with the
    /// W_TX_PAYLOAD_NOACK command, asking the receiver not to
    /// acknowledge it (the FEATURE register must have EN_DYN_ACK set for
    /// the chip to honor the command).
    pub fn send_no_ack(&mut self, data: &[u8]) -> (r: Result<(), RF24Error>)
        requires
            old(self).wf(),
            old(self).mode is Standby,
            !old(self).link.chip().prim_rx(),
        ensures
            final(self).address == old(self).address && final(self).rate == old(self).rate
                && final(self).power_level == old(self).power_level,
            old(self).link is Sim && 1 <= data@.len() <= 32 && old(self).link.chip().tx_fifo < 3
                ==> r is Ok,
            old(self).link is Sim <==> final(self).link is Sim,
            final(self).wf(),
            final(self).mode is Standby,
            (data@.len() == 0 || data@.len() > 32) <==> (r is Err
                && r->Err_0 is InvalidPayloadSize),
            r is Err && r->Err_0 is InvalidPayloadSize ==> final(self).link.chip() == old(self).link.chip(),
            r is Err ==> r->Err_0 is InvalidPayloadSize || r->Err_0 is Timeout
                || r->Err_0 is SpiError,
            r is Ok ==> final(self).link.chip() == (ChipSpec {
                tx_fifo: if old(self).link.chip().tx_fifo < 3 {
                    old(self).link.chip().tx_fifo + 1
                } else {
                    old(self).link.chip().tx_fifo
                },
                rx_dr: false,
                tx_ds: false,
                max_rt: false,
                ce_high: false,
                ..old(self).link.chip()
            }) && final(self).channel == old(self).channel && final(self).address == old(self).address && final(self).config == old(self).config,
    {
        self.transmit(data, false)
    }

    /// Reads one register over the bus and returns its value byte.  What
    /// the byte holds depends on the device; the chip state is unchanged.
    pub fn read_register(&mut self, reg: Register) -> (r: Result<u8, RF24Error>)
        requires
            old(self).wf(),
        ensures
            final(self).address == old(self).address && final(self).rate == old(self).rate
                && final(self).power_level == old(self).power_level,
            final(self).wf(),
            final(self).link.chip() == old(self).link.chip(),
            final(self).channel == old(self).channel && final(self).address == old(self).address
                && final(self).config == old(self).config && final(self).mode == old(self).mode,
            r is Err ==> r->Err_0 is SpiError,
            old(self).link is Sim ==> r is Ok && r->Ok_0 == read_byte(
                old(self).link.chip(),
                reg.spec_addr(),
                1,
            ),
            old(self).link is Sim <==> final(self).link is Sim,
    {
        let f = read_register_frame(reg);
        let resp = match self.link.command(&f) {
            Ok(v) => v,
            Err(e) => {
                return Err(e);
            },
        };
        Ok(resp[1])
    }

    /// Samples the received-power detector: bit 0 of the RPD register, a
    /// coarse carrier sense for the tuned channel.
    pub fn received_power_detector(&mut self) -> (r: Result<bool, RF24Error>)
        requires
            old(self).wf(),
        ensures
            final(self).address == old(self).address && final(self).rate == old(self).rate
                && final(self).power_level == old(self).power_level,
            old(self).link is Sim <==> final(self).link is Sim,
            final(self).wf(),
            final(self).link.chip() == old(self).link.chip(),
            final(self).channel == old(self).channel && final(self).address == old(self).address
                && final(self).config == old(self).config && final(self).mode == old(self).mode,
            r is Err ==> r->Err_0 is SpiError,
            old(self).link is Sim ==> r is Ok && r->Ok_0 == old(self).link.chip().rpd,
    {
        let v = match self.read_register(Register::RPD) {
            Ok(v) => v,
            Err(e) => {
                return Err(e);
            },
        };
        proof {
            assert(1u8 & 0x01 != 0 && 0u8 & 0x01 == 0) by (bit_vector);
        }
        Ok(v & 0x01 != 0)
    }

    /// Reads back a pipe's five-byte receive address, most significant
    /// byte first.  Pipes 2 to 5 are synthesized from pipe 1's four high
    /// bytes and the pipe's own least significant byte, exactly as the
    /// hardware aliases them.  Pipes above 5 do not exist.
    pub fn rx_address(&mut self, pipe: u8) -> (r: Result<[u8; 5], RF24Error>)
        requires
            old(self).wf(),
        ensures
            final(self).address == old(self).address && final(self).rate == old(self).rate
                && final(self).power_level == old(self).power_level,
            old(self).link is Sim <==> final(self).link is Sim,
            final(self).wf(),
            final(self).link.chip() == old(self).link.chip(),
            final(self).channel == old(self).channel && final(self).address == old(self).address
                && final(self).config == old(self).config && final(self).mode == old(self).mode,
            (pipe > 5) <==> (r is Err && r->Err_0 is InvalidPipe),
            r is Err ==> r->Err_0 is InvalidPipe || r->Err_0 is SpiError,
            old(self).link is Sim && pipe <= 5 ==> r is Ok && r->Ok_0@ == spec_rx_address(
                old(self).link.chip(),
                pipe,
            ),
    {
        if pipe > 5 {
            return Err(RF24Error::InvalidPipe);
        }
        if pipe < 2 {
            let reg = if pipe == 0 {
                Register::RX_ADDR_P0
            } else {
                Register::RX_ADDR_P1
            };
            let f = read_address_frame(reg);
            let resp = match self.link.command(&f) {
                Ok(v) => v,
                Err(e) => {
                    return Err(e);
                },
            };
            let out = [resp[5], resp[4], resp[3], resp[2], resp[1]];
            proof {
                if old(self).link is Sim {
                    assert(out@ =~= spec_rx_address(old(self).link.chip(), pipe));
                }
            }
            Ok(out)
        } else {
            let f = read_address_frame(Register::RX_ADDR_P1);
            let p1 = match self.link.command(&f) {
                Ok(v) => v,
                Err(e) => {
                    return Err(e);
                },
            };
            let reg = if pipe == 2 {
                Register::RX_ADDR_P2
            } else if pipe == 3 {
                Register::RX_ADDR_P3
            } else if pipe == 4 {
                Register::RX_ADDR_P4
            } else {
                Register::RX_ADDR_P5
            };
            let lsb = match self.read_register(reg) {
                Ok(v) => v,
                Err(e) => {
                    return Err(e);
                },
            };
            let out = [p1[5], p1[4], p1[3], p1[2], lsb];
            proof {
                if old(self).link is Sim {
                    assert(out@ =~= spec_rx_address(old(self).link.chip(), pipe));
                }
            }
            Ok(out)
        }
    }

    /// Reads back the five-byte transmit address, most significant byte
    /// first.
    pub fn tx_address(&mut self) -> (r: Result<[u8; 5], RF24Error>)
        requires
            old(self).wf(),
        ensures
            final(self).address == old(self).address && final(self).rate == old(self).rate
                && final(self).power_level == old(self).power_level,
            old(self).link is Sim <==> final(self).link is Sim,
            final(self).wf(),
            final(self).link.chip() == old(self).link.chip(),
            final(self).channel == old(self).channel && final(self).address == old(self).address
                && final(self).config == old(self).config && final(self).mode == old(self).mode,
            r is Err ==> r->Err_0 is SpiError,
            old(self).link is Sim ==> r is Ok && r->Ok_0@ == spec_tx_address(
                old(self).link.chip(),
            ),
    {
        let f = read_address_frame(Register::TX_ADDR);
        let resp = match self.link.command(&f) {
            Ok(v) => v,
            Err(e) => {
                return Err(e);
            },
        };
        let out = [resp[5], resp[4], resp[3], resp[2], resp[1]];
        proof {
            if old(self).link is Sim {
                assert(out@ =~= spec_tx_address(old(self).link.chip()));
            }
        }
        Ok(out)
    }

    /// Writes the least significant address byte of one of pipes 2 to 5.
    /// The pipe's effective address then reads back as pipe 1's four
    /// high bytes followed by this byte.
    pub fn set_pipe_address_lsb(&mut self, pipe: u8, lsb: u8) -> (r: Result<(), RF24Error>)
        requires
            old(self).wf(),
        ensures
            final(self).address == old(self).address && final(self).rate == old(self).rate
                && final(self).power_level == old(self).power_level,
            old(self).link is Sim && 2 <= pipe <= 5 ==> r is Ok,
            old(self).link is Sim <==> final(self).link is Sim,
            final(self).wf(),
            (pipe < 2 || pipe > 5) <==> (r is Err && r->Err_0 is InvalidPipe),
            r is Err ==> r->Err_0 is InvalidPipe || r->Err_0 is SpiError,
            r is Err ==> final(self).link.chip() == old(self).link.chip(),
            final(self).channel == old(self).channel && final(self).address == old(self).address
                && final(self).config == old(self).config && final(self).mode == old(self).mode,
            r is Ok ==> final(self).link.chip() == (if pipe == 2 {
                ChipSpec { rx_addr_p2: lsb, ..old(self).link.chip() }
            } else if pipe == 3 {
                ChipSpec { rx_addr_p3: lsb, ..old(self).link.chip() }
            } else if pipe == 4 {
                ChipSpec { rx_addr_p4: lsb, ..old(self).link.chip() }
            } else {
                ChipSpec { rx_addr_p5: lsb, ..old(self).link.chip() }
            }) && spec_rx_address(final(self).link.chip(), pipe) == seq![
                old(self).link.chip().rx_addr_p1[4],
                old(self).link.chip().rx_addr_p1[3],
                old(self).link.chip().rx_addr_p1[2],
                old(self).link.chip().rx_addr_p1[1],
                lsb,
            ],
    {
        if pipe < 2 || pipe > 5 {
            return Err(RF24Error::InvalidPipe);
        }
        let reg = if pipe == 2 {
            Register::RX_ADDR_P2
        } else if pipe == 3 {
            Register::RX_ADDR_P3
        } else if pipe == 4 {
            Register::RX_ADDR_P4
        } else {
            Register::RX_ADDR_P5
        };
        let f = write_register_frame(reg, lsb);
        match self.link.command(&f) {
            Ok(_) => (),
            Err(e) => {
                return Err(e);
            },
        }
        proof {
            assert(spec_rx_address(self.link.chip(), pipe) =~= seq![
                old(self).link.chip().rx_addr_p1[4],
                old(self).link.chip().rx_addr_p1[3],
                old(self).link.chip().rx_addr_p1[2],
                old(self).link.chip().rx_addr_p1[1],
                lsb,
            ]);
        }
        Ok(())
    }

    /// Programs the air data rate and transmit power into RF_SETUP and
    /// records them.  The continuous-wave and reserved bits are left
    /// clear.
    pub fn set_rf(&mut self, rate: DataRate, power_level: PowerLevel) -> (r: Result<
        (),
        RF24Error,
    >)
        requires
            old(self).wf(),
        ensures
            final(self).wf(),
            old(self).link is Sim ==> r is Ok,
            old(self).link is Sim <==> final(self).link is Sim,
            r is Err ==> r->Err_0 is SpiError && final(self).link.chip() == old(self).link.chip()
                && final(self).rate == old(self).rate && final(self).power_level == old(self).power_level,
            r is Ok ==> final(self).rate == rate && final(self).power_level == power_level
                && final(self).link.chip() == (ChipSpec {
                rf_setup: (rate.spec_value() + power_level.spec_value()) as u8,
                ..old(self).link.chip()
            }),
            final(self).channel == old(self).channel && final(self).address == old(self).address
                && final(self).config == old(self).config && final(self).mode == old(self).mode,
    {
        let v: u8 = rate.value() + power_level.value();
        let f = write_register_frame(Register::RF_SETUP, v);
        match self.link.command(&f) {
            Ok(_) => {
                self.rate = rate;
                self.power_level = power_level;
                Ok(())
            },
            Err(e) => Err(e),
        }
    }

    /// Clears the three STATUS interrupt flags by writing 1 to their
    /// bits.
    pub fn clear_status(&mut self) -> (r: Result<(), RF24Error>)
        requires
            old(self).wf(),
        ensures
            final(self).address == old(self).address && final(self).rate == old(self).rate
                && final(self).power_level == old(self).power_level,
            final(self).wf(),
            old(self).link is Sim ==> r is Ok,
            old(self).link is Sim <==> final(self).link is Sim,
            r is Err ==> r->Err_0 is SpiError && final(self).link.chip() == old(self).link.chip(),
            r is Ok ==> final(self).link.chip() == (ChipSpec {
                rx_dr: false,
                tx_ds: false,
                max_rt: false,
                ..old(self).link.chip()
            }),
            final(self).channel == old(self).channel && final(self).address == old(self).address
                && final(self).config == old(self).config && final(self).mode == old(self).mode,
    {
        let f = write_register_frame(Register::STATUS, 0x70);
        match self.link.command(&f) {
            Ok(_) => Ok(()),
            Err(e) => Err(e),
        }
    }

    /// Reads STATUS and decodes it through the register codec.  Over the
    /// simulator the decoded fields are exactly the model's flags.
    pub fn status(&mut self) -> (r: Result<StatusRegister, RF24Error>)
        requires
            old(self).wf(),
        ensures
            final(self).address == old(self).address && final(self).rate == old(self).rate
                && final(self).power_level == old(self).power_level,
            final(self).wf(),
            final(self).link.chip() == old(self).link.chip(),
            final(self).channel == old(self).channel && final(self).address == old(self).address
                && final(self).config == old(self).config && final(self).mode == old(self).mode,
            r is Err ==> r->Err_0 is SpiError,
            old(self).link is Sim ==> r is Ok && r->Ok_0 == StatusRegister::decoded(
                old(self).link.chip().status_byte(),
            ),
            old(self).link is Sim <==> final(self).link is Sim,
    {
        let v = match self.read_register(Register::STATUS) {
            Ok(v) => v,
            Err(e) => {
                return Err(e);
            },
        };
        Ok(StatusRegister::new(v))
    }

    /// Drops every queued payload from the TX FIFO.
    pub fn flush_tx(&mut self) -> (r: Result<(), RF24Error>)
        requires
            old(self).wf(),
        ensures
            final(self).address == old(self).address && final(self).rate == old(self).rate
                && final(self).power_level == old(self).power_level,
            old(self).link is Sim ==> r is Ok,
            old(self).link is Sim <==> final(self).link is Sim,
            final(self).wf(),
            final(self).channel == old(self).channel && final(self).address == old(self).address
                && final(self).config == old(self).config && final(self).mode == old(self).mode,
            r is Err ==> r->Err_0 is SpiError && final(self).link.chip() == old(self).link.chip(),
            r is Ok ==> final(self).link.chip() == (ChipSpec {
                tx_fifo: 0,
                ..old(self).link.chip()
            }),
    {
        let f = flush_tx_frame();
        match self.link.command(&f) {
            Ok(_) => Ok(()),
            Err(e) => Err(e),
        }
    }

    /// Drops every queued payload from the RX FIFO.
    pub fn flush_rx(&mut self) -> (r: Result<(), RF24Error>)
        requires
            old(self).wf(),
        ensures
            final(self).address == old(self).address && final(self).rate == old(self).rate
                && final(self).power_level == old(self).power_level,
            old(self).link is Sim ==> r is Ok,
            old(self).link is Sim <==> final(self).link is Sim,
            final(self).wf(),
            final(self).channel == old(self).channel && final(self).address == old(self).address
                && final(self).config == old(self).config && final(self).mode == old(self).mode,
            r is Err ==> r->Err_0 is SpiError && final(self).link.chip() == old(self).link.chip(),
            r is Ok ==> final(self).link.chip() == (ChipSpec {
                rx_fifo: 0,
                ..old(self).link.chip()
            }),
    {
        let f = flush_rx_frame();
        match self.link.command(&f) {
            Ok(_) => Ok(()),
            Err(e) => Err(e),
        }
    }

    /// Enables or disables auto-acknowledgment on all six pipes at once.
    pub fn set_auto_ack(&mut self, enable: bool) -> (r: Result<(), RF24Error>)
        requires
            old(self).wf(),
        ensures
            final(self).address == old(self).address && final(self).rate == old(self).rate
                && final(self).power_level == old(self).power_level,
            old(self).link is Sim ==> r is Ok,
            old(self).link is Sim <==> final(self).link is Sim,
            final(self).wf(),
            final(self).channel == old(self).channel && final(self).address == old(self).address
                && final(self).config == old(self).config && final(self).mode == old(self).mode,
            r is Err ==> r->Err_0 is SpiError && final(self).link.chip() == old(self).link.chip(),
            r is Ok ==> final(self).link.chip() == (ChipSpec {
                en_aa: if enable {
                    0x3F
                } else {
                    0
                },
                ..old(self).link.chip()
            }),
    {
        let v: u8 = if enable { 0x3F } else { 0 };
        let f = write_register_frame(Register::EN_AA, v);
        match self.link.command(&f) {
            Ok(_) => Ok(()),
            Err(e) => Err(e),
        }
    }

    /// Sets the static payload width of every pipe.  Widths above the
    /// chip's 32-byte maximum are rejected with `InvalidPayloadSize`
    /// before any bus traffic.
    pub fn set_payload_size(&mut self, size: u8) -> (r: Result<(), RF24Error>)
        requires
            old(self).wf(),
        ensures
            final(self).address == old(self).address && final(self).rate == old(self).rate
                && final(self).power_level == old(self).power_level,
            old(self).link is Sim && size <= 32 ==> r is Ok,
            old(self).link is Sim <==> final(self).link is Sim,
            final(self).wf(),
            final(self).channel == old(self).channel && final(self).address == old(self).address
                && final(self).config == old(self).config && final(self).mode == old(self).mode,
            (size > 32) <==> (r is Err && r->Err_0 is InvalidPayloadSize),
            r is Err ==> r->Err_0 is InvalidPayloadSize || r->Err_0 is SpiError,
            r is Err && r->Err_0 is InvalidPayloadSize ==> final(self).link.chip() == old(self).link.chip(),
            r is Ok ==> final(self).link.chip() == (ChipSpec {
                rx_pw: seq![size, size, size, size, size, size],
                ..old(self).link.chip()
            }),
    {
        if size > 32 {
            return Err(RF24Error::InvalidPayloadSize);
        }
        let f = write_register_frame(Register::RX_PW_P0, size);
        self.link.command(&f)?;
        let f = write_register_frame(Register::RX_PW_P1, size);
        self.link.command(&f)?;
        let f = write_register_frame(Register::RX_PW_P2, size);
        self.link.command(&f)?;
        let f = write_register_frame(Register::RX_PW_P3, size);
        self.link.command(&f)?;
        let f = write_register_frame(Register::RX_PW_P4, size);
        self.link.command(&f)?;
        let f = write_register_frame(Register::RX_PW_P5, size);
        self.link.command(&f)?;
        proof {
            assert(self.link.chip().rx_pw =~= seq![size, size, size, size, size, size]);
            assert(self.link.chip() =~= (ChipSpec {
                rx_pw: seq![size, size, size, size, size, size],
                ..old(self).link.chip()
            }));
        }
        Ok(())
    }

    /// Enables or disables dynamic payload length on all six pipes at
    /// once.
    pub fn set_dynamic_payload(&mut self, enable: bool) -> (r: Result<(), RF24Error>)
        requires
            old(self).wf(),
        ensures
            final(self).address == old(self).address && final(self).rate == old(self).rate
                && final(self).power_level == old(self).power_level,
            old(self).link is Sim ==> r is Ok,
            old(self).link is Sim <==> final(self).link is Sim,
            final(self).wf(),
            final(self).channel == old(self).channel && final(self).address == old(self).address
                && final(self).config == old(self).config && final(self).mode == old(self).mode,
            r is Err ==> r->Err_0 is SpiError && final(self).link.chip() == old(self).link.chip(),
            r is Ok ==> final(self).link.chip() == (ChipSpec {
                dynpd: if enable {
                    0x3F
                } else {
                    0
                },
                ..old(self).link.chip()
            }),
    {
        let v: u8 = if enable { 0x3F } else { 0 };
        let f = write_register_frame(Register::DYNPD, v);
        match self.link.command(&f) {
            Ok(_) => Ok(()),
            Err(e) => Err(e),
        }
    }

    /// Writes the FEATURE register.
    pub fn set_feature(&mut self, value: u8) -> (r: Result<(), RF24Error>)
        requires
            old(self).wf(),
        ensures
            final(self).address == old(self).address && final(self).rate == old(self).rate
                && final(self).power_level == old(self).power_level,
            old(self).link is Sim ==> r is Ok,
            old(self).link is Sim <==> final(self).link is Sim,
            final(self).wf(),
            final(self).channel == old(self).channel && final(self).address == old(self).address
                && final(self).config == old(self).config && final(self).mode == old(self).mode,
            r is Err ==> r->Err_0 is SpiError && final(self).link.chip() == old(self).link.chip(),
            r is Ok ==> final(self).link.chip() == (ChipSpec {
                feature: value,
                ..old(self).link.chip()
            }),
    {
        let f = write_register_frame(Register::FEATURE, value);
        match self.link.command(&f) {
            Ok(_) => Ok(()),
            Err(e) => Err(e),
        }
    }

    /// Surveys the band: for each of the `passes` rounds, tunes every
    /// channel from 0 to 125 in turn, listens briefly, samples the
    /// received-power detector and drops back to standby.  The result
    /// holds one hit count per channel, each at most `passes` — and over
    /// the simulator exactly the number of passes whose carrier bit was
    /// set.  The sweep touches nothing but the channel, the CONFIG power
    /// and role bits, the interrupt flags and the TX FIFO; afterwards the
    /// chip sits in standby on the last channel tuned, powered up with
    /// PRIM_RX clear.
    pub fn scan(&mut self, passes: u8) -> (r: Result<Vec<u8>, RF24Error>)
        requires
            old(self).wf(),
            old(self).mode is Standby,
        ensures
            old(self).link is Sim ==> r is Ok && (forall|i: int|
                0 <= i < 126 ==> r->Ok_0@[i] == (if old(self).link.chip().rpd {
                    passes
                } else {
                    0u8
                })),
            old(self).link is Sim <==> final(self).link is Sim,
            final(self).wf(),
            final(self).address == old(self).address && final(self).rate == old(self).rate
                && final(self).power_level == old(self).power_level,
            r is Ok ==> final(self).mode is Standby,
            r is Err ==> r->Err_0 is SpiError,
            r is Ok ==> r->Ok_0@.len() == 126 && (forall|i: int|
                0 <= i < 126 ==> r->Ok_0@[i] <= passes),
            r is Ok && passes == 0 ==> final(self).link.chip() == old(self).link.chip() && final(self).channel == old(self).channel && final(self).config == old(self).config,
            r is Ok && passes > 0 ==> final(self).channel == 125 && final(self).config == (old(self).config / 4 * 4 + 2) as u8 && final(self).link.chip() == (ChipSpec {
                rf_ch: 125,
                config: (old(self).config / 4 * 4 + 2) as u8,
                rx_dr: false,
                tx_ds: false,
                max_rt: false,
                tx_fifo: 0,
                ce_high: false,
                ..old(self).link.chip()
            }),
    {
        let ghost cfg_swept: u8 = (old(self).config / 4 * 4 + 2) as u8;
        let mut counts: Vec<u8> = Vec::new();
        while counts.len() < 126
            invariant
                counts@.len() <= 126,
                forall|i: int| 0 <= i < counts@.len() ==> counts@[i] == 0,
            decreases 126 - counts@.len(),
        {
            counts.push(0);
        }
        let mut p: u8 = 0;
        while p < passes
            invariant
                cfg_swept == (old(self).config / 4 * 4 + 2) as u8,
                old(self).link is Sim <==> self.link is Sim,
                self.wf(),
                self.mode is Standby,
                p <= passes,
                counts@.len() == 126,
                forall|i: int| 0 <= i < 126 ==> counts@[i] <= p,
                self.address == old(self).address,
                self.rate == old(self).rate,
                self.power_level == old(self).power_level,
                self.link.chip().rpd == old(self).link.chip().rpd,
                p == 0 ==> self.link.chip() == old(self).link.chip() && self.config == old(self).config && self.channel == old(self).channel,
                p > 0 ==> self.channel == 125 && self.config == cfg_swept && self.link.chip() == (ChipSpec {
                    rf_ch: 125,
                    config: cfg_swept,
                    rx_dr: false,
                    tx_ds: false,
                    max_rt: false,
                    tx_fifo: 0,
                    ce_high: false,
                    ..old(self).link.chip()
                }),
                old(self).link is Sim ==> (forall|i: int|
                    0 <= i < 126 ==> counts@[i] == (if old(self).link.chip().rpd {
                        p
                    } else {
                        0u8
                    })),
            decreases passes - p,
        {
            let mut ch: u8 = 0;
            while ch < 126
                invariant
                    cfg_swept == (old(self).config / 4 * 4 + 2) as u8,
                    old(self).link is Sim <==> self.link is Sim,
                    self.wf(),
                    self.mode is Standby,
                    p < passes,
                    ch <= 126,
                    counts@.len() == 126,
                    forall|i: int| 0 <= i < ch ==> counts@[i] <= p + 1,
                    forall|i: int| ch <= i < 126 ==> counts@[i] <= p,
                    self.address == old(self).address,
                    self.rate == old(self).rate,
                    self.power_level == old(self).power_level,
                    self.link.chip().rpd == old(self).link.chip().rpd,
                    (p == 0 && ch == 0) ==> self.link.chip() == old(self).link.chip() && self.config == old(self).config && self.channel == old(self).channel,
                    (p > 0 || ch > 0) ==> ({
                        let last: u8 = if ch > 0 {
                            (ch - 1) as u8
                        } else {
                            125u8
                        };
                        self.channel == last && self.config == cfg_swept && self.link.chip() == (ChipSpec {
                            rf_ch: last,
                            config: cfg_swept,
                            rx_dr: false,
                            tx_ds: false,
                            max_rt: false,
                            tx_fifo: 0,
                            ce_high: false,
                            ..old(self).link.chip()
                        })
                    }),
                    old(self).link is Sim ==> (forall|i: int|
                        0 <= i < ch ==> counts@[i] == (if old(self).link.chip().rpd {
                            (p + 1) as u8
                        } else {
                            0u8
                        })) && (forall|i: int|
                        ch <= i < 126 ==> counts@[i] == (if old(self).link.chip().rpd {
                            p
                        } else {
                            0u8
                        })),
                decreases 126 - ch,
            {
                proof {
                    let c0 = old(self).config;
                    let k = c0 / 4;
                    assert(k <= 63 && (k * 4 + 2) / 4 == k) by (nonlinear_arith)
                        requires
                            0 <= c0 <= 255 && k == c0 / 4,
                    ;
                    assert(cfg_swept == k * 4 + 2);
                }
                self.set_channel(ch)?;
                self.start_listening()?;
                let hit = self.received_power_detector()?;
                self.stop_listening()?;
                if hit {
                    let c = counts[ch as usize];
                    counts[ch as usize] = c + 1;
                }
                ch += 1;
            }
            p += 1;
        }
        Ok(counts)
    }
}

/// A read-back of the registers a diagnostic dump shows.  Every value is
/// whatever the device answered; pipes 2 to 5 appear as their distinct
/// least significant byte.
#[derive(Clone, Copy, Debug)]
pub struct RegisterDump {
    pub status: u8,
    pub config: u8,
    pub en_aa: u8,
    pub en_rxaddr: u8,
    pub rf_ch: u8,
    pub rf_setup: u8,
    pub dynpd: u8,
    pub feature: u8,
    pub rx_addr_p0: [u8; 5],
    pub rx_addr_p1: [u8; 5],
    pub rx_addr_p2: u8,
    pub rx_addr_p3: u8,
    pub rx_addr_p4: u8,
    pub rx_addr_p5: u8,
    pub tx_addr: [u8; 5],
}

impl Radio {
    /// Reads every register a diagnostic dump shows.  Read-only: the chip
    /// state is exactly what it was, apart from the bus traffic itself.
    /// Over the simulator every returned field is exactly the model's
    /// value; over hardware the fields hold whatever the device answered.
    pub fn register_dump(&mut self) -> (r: Result<RegisterDump, RF24Error>)
        requires
            old(self).wf(),
        ensures
            final(self).address == old(self).address && final(self).rate == old(self).rate
                && final(self).power_level == old(self).power_level,
            old(self).link is Sim ==> r is Ok && ({
                let c = old(self).link.chip();
                let d = r->Ok_0;
                &&& d.status == c.status_byte()
                &&& d.config == c.config
                &&& d.en_aa == c.en_aa
                &&& d.en_rxaddr == c.en_rxaddr
                &&& d.rf_ch == c.rf_ch
                &&& d.rf_setup == c.rf_setup
                &&& d.dynpd == c.dynpd
                &&& d.feature == c.feature
                &&& d.rx_addr_p0@ == spec_rx_address(c, 0)
                &&& d.rx_addr_p1@ == spec_rx_address(c, 1)
                &&& d.rx_addr_p2 == c.rx_addr_p2
                &&& d.rx_addr_p3 == c.rx_addr_p3
                &&& d.rx_addr_p4 == c.rx_addr_p4
                &&& d.rx_addr_p5 == c.rx_addr_p5
                &&& d.tx_addr@ == spec_tx_address(c)
            }),
            old(self).link is Sim <==> final(self).link is Sim,
            final(self).wf(),
            final(self).link.chip() == old(self).link.chip(),
            final(self).channel == old(self).channel && final(self).address == old(self).address
                && final(self).config == old(self).config && final(self).mode == old(self).mode,
            r is Err ==> r->Err_0 is SpiError,
    {
        let status = self.read_register(Register::STATUS)?;
        let config = self.read_register(Register::CONFIG)?;
        let en_aa = self.read_register(Register::EN_AA)?;
        let en_rxaddr = self.read_register(Register::EN_RXADDR)?;
        let rf_ch = self.read_register(Register::RF_CH)?;
        let rf_setup = self.read_register(Register::RF_SETUP)?;
        let dynpd = self.read_register(Register::DYNPD)?;
        let feature = self.read_register(Register::FEATURE)?;
        let rx_addr_p0 = match self.rx_address(0) {
            Ok(v) => v,
            Err(e) => {
                return Err(e);
            },
        };
        let rx_addr_p1 = match self.rx_address(1) {
            Ok(v) => v,
            Err(e) => {
                return Err(e);
            },
        };
        let rx_addr_p2 = self.read_register(Register::RX_ADDR_P2)?;
        let rx_addr_p3 = self.read_register(Register::RX_ADDR_P3)?;
        let rx_addr_p4 = self.read_register(Register::RX_ADDR_P4)?;
        let rx_addr_p5 = self.read_register(Register::RX_ADDR_P5)?;
        let tx_addr = match self.tx_address() {
            Ok(v) => v,
            Err(e) => {
                return Err(e);
            },
        };
        Ok(
            RegisterDump {
                status,
                config,
                en_aa,
                en_rxaddr,
                rf_ch,
                rf_setup,
                dynpd,
                feature,
                rx_addr_p0,
                rx_addr_p1,
                rx_addr_p2,
                rx_addr_p3,
                rx_addr_p4,
                rx_addr_p5,
                tx_addr,
            },
        )
    }
}

} // verus!
