//! Driver for the NRF24L01+ 2.4 GHz radio transceiver.
//!
//! The chip is driven over SPI: every command is one full-duplex transfer
//! whose first response byte is a snapshot of the STATUS register.  This
//! crate models the chip's register file and command set, verifies the
//! driver logic against that model, and performs the actual bus traffic
//! through a thin trusted layer over the `rppal` SPI and GPIO bindings.
//!
//! - [`registers`] decodes and encodes each register's bit fields, with
//!   proved round-trip laws.
//! - [`protocol`] names the SPI commands and register addresses and builds
//!   the exact byte frames.
//! - [`chip`] is the ghost model of the chip: how any frame changes its
//!   state and what it answers.
//! - [`sim`] executes that model, so the driver can run and be observed
//!   without hardware.
//! - [`rf24`] holds the hardware transport and the only trusted code.
//! - [`radio`] is the driver itself: configure, transmit, listen, scan.
//! - [`controller`] packs sampled gamepad state into the 13-byte frame the
//!   link carries.

pub mod chip;
pub mod controller;
pub mod protocol;
pub mod radio;
pub mod registers;
pub mod rf24;
pub mod sim;
