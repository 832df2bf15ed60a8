//! The SPI command set of the NRF24L01+.
//!
//! Every exchange with the chip is one full-duplex SPI frame: a command
//! byte, then that command's payload bytes.  This module gives names to the
//! commands and register addresses and builds the exact byte frames the
//! driver puts on the bus.

use vstd::prelude::*;

verus! {

/// An SPI command of the chip.  Register reads and writes carry the
/// register address in their low five bits.
#[allow(non_camel_case_types)]
#[derive(Clone, Copy, Debug, PartialEq, Eq, Structural)]
pub enum Command {
    R_REGISTER,
    W_REGISTER,
    R_RX_PAYLOAD,
    W_TX_PAYLOAD,
    FLUSH_TX,
    FLUSH_RX,
    REUSE_TX_PL,
    R_RX_PL_WID,
    W_ACK_PAYLOAD,
    W_TX_PAYLOAD_NOACK,
    NOP,
}

impl Command {
    /// The command's base byte value.
    pub open spec fn spec_value(self) -> u8 {
        match self {
            Command::R_REGISTER => 0x00,
            Command::W_REGISTER => 0x20,
            Command::R_RX_PAYLOAD => 0x61,
            Command::W_TX_PAYLOAD => 0xA0,
            Command::FLUSH_TX => 0xE1,
            Command::FLUSH_RX => 0xE2,
            Command::REUSE_TX_PL => 0xE3,
            Command::R_RX_PL_WID => 0x60,
            Command::W_ACK_PAYLOAD => 0xA8,
            Command::W_TX_PAYLOAD_NOACK => 0xB0,
            Command::NOP => 0xFF,
        }
    }

    /// The command's base byte value.
    pub fn value(&self) -> (r: u8)
        ensures
            r == self.spec_value(),
    {
        match self {
            Command::R_REGISTER => 0x00,
            Command::W_REGISTER => 0x20,
            Command::R_RX_PAYLOAD => 0x61,
            Command::W_TX_PAYLOAD => 0xA0,
            Command::FLUSH_TX => 0xE1,
            Command::FLUSH_RX => 0xE2,
            Command::REUSE_TX_PL => 0xE3,
            Command::R_RX_PL_WID => 0x60,
            Command::W_ACK_PAYLOAD => 0xA8,
            Command::W_TX_PAYLOAD_NOACK => 0xB0,
            Command::NOP => 0xFF,
        }
    }
}

/// A register address of the chip.
#[allow(non_camel_case_types)]
#[derive(Clone, Copy, Debug, PartialEq, Eq, Structural)]
pub enum Register {
    CONFIG,
    EN_AA,
    EN_RXADDR,
    SETUP_AW,
    SETUP_RETR,
    RF_CH,
    RF_SETUP,
    STATUS,
    OBSERVE_TX,
    RPD,
    RX_ADDR_P0,
    RX_ADDR_P1,
    RX_ADDR_P2,
    RX_ADDR_P3,
    RX_ADDR_P4,
    RX_ADDR_P5,
    TX_ADDR,
    RX_PW_P0,
    RX_PW_P1,
    RX_PW_P2,
    RX_PW_P3,
    RX_PW_P4,
    RX_PW_P5,
    FIFO_STATUS,
    DYNPD,
    FEATURE,
}

impl Register {
    /// The register's address on the SPI bus.
    pub open spec fn spec_addr(self) -> u8 {
        match self {
            Register::CONFIG => 0x00,
            Register::EN_AA => 0x01,
            Register::EN_RXADDR => 0x02,
            Register::SETUP_AW => 0x03,
            Register::SETUP_RETR => 0x04,
            Register::RF_CH => 0x05,
            Register::RF_SETUP => 0x06,
            Register::STATUS => 0x07,
            Register::OBSERVE_TX => 0x08,
            Register::RPD => 0x09,
            Register::RX_ADDR_P0 => 0x0A,
            Register::RX_ADDR_P1 => 0x0B,
            Register::RX_ADDR_P2 => 0x0C,
            Register::RX_ADDR_P3 => 0x0D,
            Register::RX_ADDR_P4 => 0x0E,
            Register::RX_ADDR_P5 => 0x0F,
            Register::TX_ADDR => 0x10,
            Register::RX_PW_P0 => 0x11,
            Register::RX_PW_P1 => 0x12,
            Register::RX_PW_P2 => 0x13,
            Register::RX_PW_P3 => 0x14,
            Register::RX_PW_P4 => 0x15,
            Register::RX_PW_P5 => 0x16,
            Register::FIFO_STATUS => 0x17,
            Register::DYNPD => 0x1C,
            Register::FEATURE => 0x1D,
        }
    }

    /// The register's address on the SPI bus.  Addresses fit in the five
    /// low bits of a command byte.
    pub fn addr(&self) -> (r: u8)
        ensures
            r == self.spec_addr(),
            r <= 0x1D,
    {
        match self {
            Register::CONFIG => 0x00,
            Register::EN_AA => 0x01,
            Register::EN_RXADDR => 0x02,
            Register::SETUP_AW => 0x03,
            Register::SETUP_RETR => 0x04,
            Register::RF_CH => 0x05,
            Register::RF_SETUP => 0x06,
            Register::STATUS => 0x07,
            Register::OBSERVE_TX => 0x08,
            Register::RPD => 0x09,
            Register::RX_ADDR_P0 => 0x0A,
            Register::RX_ADDR_P1 => 0x0B,
            Register::RX_ADDR_P2 => 0x0C,
            Register::RX_ADDR_P3 => 0x0D,
            Register::RX_ADDR_P4 => 0x0E,
            Register::RX_ADDR_P5 => 0x0F,
            Register::TX_ADDR => 0x10,
            Register::RX_PW_P0 => 0x11,
            Register::RX_PW_P1 => 0x12,
            Register::RX_PW_P2 => 0x13,
            Register::RX_PW_P3 => 0x14,
            Register::RX_PW_P4 => 0x15,
            Register::RX_PW_P5 => 0x16,
            Register::FIFO_STATUS => 0x17,
            Register::DYNPD => 0x1C,
            Register::FEATURE => 0x1D,
        }
    }
}

/// The air data rate, encoded into RF_SETUP.
#[allow(non_camel_case_types)]
#[derive(Clone, Copy, Debug, PartialEq, Eq, Structural)]
pub enum DataRate {
    _250Kbps,
    _1Mbps,
    _2Mbps,
}

impl DataRate {
    /// The rate's contribution to the RF_SETUP byte (bits 5 and 3).
    pub open spec fn spec_value(self) -> u8 {
        match self {
            DataRate::_250Kbps => 0x20,
            DataRate::_1Mbps => 0x00,
            DataRate::_2Mbps => 0x08,
        }
    }

    /// The rate's contribution to the RF_SETUP byte.
    pub fn value(&self) -> (r: u8)
        ensures
            r == self.spec_value(),
    {
        match self {
            DataRate::_250Kbps => 0x20,
            DataRate::_1Mbps => 0x00,
            DataRate::_2Mbps => 0x08,
        }
    }
}

/// The transmit output power, encoded into RF_SETUP.
#[allow(non_camel_case_types)]
#[derive(Clone, Copy, Debug, PartialEq, Eq, Structural)]
pub enum PowerLevel {
    _18dBm,
    _12dBm,
    _6dBm,
    _0dBm,
}

impl PowerLevel {
    /// The power level's contribution to the RF_SETUP byte (bits 2 and 1).
    pub open spec fn spec_value(self) -> u8 {
        match self {
            PowerLevel::_18dBm => 0x00,
            PowerLevel::_12dBm => 0x02,
            PowerLevel::_6dBm => 0x04,
            PowerLevel::_0dBm => 0x06,
        }
    }

    /// The power level's contribution to the RF_SETUP byte.
    pub fn value(&self) -> (r: u8)
        ensures
            r == self.spec_value(),
    {
        match self {
            PowerLevel::_18dBm => 0x00,
            PowerLevel::_12dBm => 0x02,
            PowerLevel::_6dBm => 0x04,
            PowerLevel::_0dBm => 0x06,
        }
    }
}

/// The frame that writes `value` into a one-byte register.
pub open spec fn spec_write_frame(reg: Register, value: u8) -> Seq<u8> {
    seq![(0x20 + reg.spec_addr()) as u8, value]
}

/// The frame that reads a one-byte register (the second byte only clocks
/// the response out).
pub open spec fn spec_read_frame(reg: Register) -> Seq<u8> {
    seq![reg.spec_addr(), 0]
}

/// The frame that reads a five-byte address register.
pub open spec fn spec_read_address_frame(reg: Register) -> Seq<u8> {
    seq![reg.spec_addr(), 0, 0, 0, 0, 0]
}

/// The frame that writes a five-byte address register.  The chip takes the
/// least significant address byte first, so the buffer goes out reversed.
pub open spec fn spec_write_address_frame(reg: Register, address: Seq<u8>) -> Seq<u8> {
    seq![
        (0x20 + reg.spec_addr()) as u8,
        address[4],
        address[3],
        address[2],
        address[1],
        address[0],
    ]
}

/// The frame that queues a transmit payload, with or without a requested
/// acknowledgment.
pub open spec fn spec_payload_frame(data: Seq<u8>, ack: bool) -> Seq<u8> {
    seq![if ack { 0xA0u8 } else { 0xB0u8 }] + data
}

/// The one-byte frame that flushes the TX FIFO.
pub open spec fn spec_flush_tx_frame() -> Seq<u8> {
    seq![0xE1u8]
}

/// The one-byte frame that flushes the RX FIFO.
pub open spec fn spec_flush_rx_frame() -> Seq<u8> {
    seq![0xE2u8]
}

/// Builds the frame that writes `value` into a one-byte register.
pub fn write_register_frame(reg: Register, value: u8) -> (r: Vec<u8>)
    ensures
        r@ == spec_write_frame(reg, value),
{
    let mut v: Vec<u8> = Vec::new();
    v.push(Command::W_REGISTER.value() + reg.addr());
    v.push(value);
    proof {
        assert(v@ =~= spec_write_frame(reg, value));
    }
    v
}

/// Builds the frame that reads a one-byte register.
pub fn read_register_frame(reg: Register) -> (r: Vec<u8>)
    ensures
        r@ == spec_read_frame(reg),
{
    let mut v: Vec<u8> = Vec::new();
    v.push(Command::R_REGISTER.value() + reg.addr());
    v.push(0);
    proof {
        assert(v@ =~= spec_read_frame(reg));
    }
    v
}

/// Builds the frame that reads a five-byte address register.
pub fn read_address_frame(reg: Register) -> (r: Vec<u8>)
    ensures
        r@ == spec_read_address_frame(reg),
{
    let mut v: Vec<u8> = Vec::new();
    v.push(Command::R_REGISTER.value() + reg.addr());
    v.push(0);
    v.push(0);
    v.push(0);
    v.push(0);
    v.push(0);
    proof {
        assert(v@ =~= spec_read_address_frame(reg));
    }
    v
}

/// Builds the frame that writes a five-byte address register, least
/// significant byte first.
pub fn write_address_frame(reg: Register, address: &[u8; 5]) -> (r: Vec<u8>)
    ensures
        r@ == spec_write_address_frame(reg, address@),
{
    let mut v: Vec<u8> = Vec::new();
    v.push(Command::W_REGISTER.value() + reg.addr());
    v.push(address[4]);
    v.push(address[3]);
    v.push(address[2]);
    v.push(address[1]);
    v.push(address[0]);
    proof {
        assert(v@ =~= spec_write_address_frame(reg, address@));
    }
    v
}

/// Builds the frame that queues a transmit payload.
pub fn payload_frame(data: &[u8], ack: bool) -> (r: Vec<u8>)
    ensures
        r@ == spec_payload_frame(data@, ack),
{
    let mut v: Vec<u8> = Vec::new();
    if ack {
        v.push(Command::W_TX_PAYLOAD.value());
    } else {
        v.push(Command::W_TX_PAYLOAD_NOACK.value());
    }
    let mut i: usize = 0;
    while i < data.len()
        invariant
            i <= data@.len(),
            v@.len() == 1 + i,
            v@[0] == (if ack { 0xA0u8 } else { 0xB0u8 }),
            forall|j: int| 0 <= j < i ==> v@[j + 1] == data@[j],
        decreases data@.len() - i,
    {
        v.push(data[i]);
        i += 1;
    }
    proof {
        assert(v@ =~= spec_payload_frame(data@, ack));
    }
    v
}

/// Builds the frame that flushes the TX FIFO.
pub fn flush_tx_frame() -> (r: Vec<u8>)
    ensures
        r@ == spec_flush_tx_frame(),
{
    let mut v: Vec<u8> = Vec::new();
    v.push(Command::FLUSH_TX.value());
    proof {
        assert(v@ =~= spec_flush_tx_frame());
    }
    v
}

/// Builds the frame that flushes the RX FIFO.
pub fn flush_rx_frame() -> (r: Vec<u8>)
    ensures
        r@ == spec_flush_rx_frame(),
{
    let mut v: Vec<u8> = Vec::new();
    v.push(Command::FLUSH_RX.value());
    proof {
        assert(v@ =~= spec_flush_rx_frame());
    }
    v
}

} // verus!
