//! A model of the NRF24L01+ seen over the SPI bus.
//!
//! `ChipSpec` is the ghost state of the chip: its register file, the two
//! FIFO fill levels, the carrier-sense bit and the CE line.  `apply_frame`
//! and `frame_response` say, for every SPI frame, how that state changes
//! and what the chip shifts back — with the first response byte always a
//! STATUS snapshot, as the datasheet promises for every command.
//!
//! The model covers what this driver exercises: one-byte register reads
//! and writes, five-byte address reads and writes, payload queueing and
//! FIFO flushes.  Received payloads are not modeled (the driver never
//! reads one), so the pipe-number field of STATUS always shows an empty
//! RX FIFO, and the OBSERVE_TX counters read as zero.  Addresses are kept
//! in wire order: least significant byte first, as they cross the bus.
//!
//! The driver's contracts speak of this model; the simulator in `sim`
//! executes it, so tests can watch any register through real frames.

use vstd::prelude::*;

use crate::protocol::Register;
use crate::protocol::spec_read_frame;
use crate::protocol::spec_write_address_frame;
use crate::protocol::spec_write_frame;
use crate::registers::FIFOStatusRegister;
use crate::registers::StatusRegister;

verus! {

/// The modeled state of the chip.
#[verifier::ext_equal]
pub struct ChipSpec {
    pub config: u8,
    pub en_aa: u8,
    pub en_rxaddr: u8,
    pub setup_aw: u8,
    pub setup_retr: u8,
    pub rf_ch: u8,
    pub rf_setup: u8,
    /// STATUS interrupt flags, cleared by writing 1 to their bits.
    pub rx_dr: bool,
    pub tx_ds: bool,
    pub max_rt: bool,
    /// Pipe 0 and pipe 1 receive addresses, wire order (LSB first).
    pub rx_addr_p0: Seq<u8>,
    pub rx_addr_p1: Seq<u8>,
    /// Pipes 2 to 5 store only their distinct least significant byte.
    pub rx_addr_p2: u8,
    pub rx_addr_p3: u8,
    pub rx_addr_p4: u8,
    pub rx_addr_p5: u8,
    /// Transmit address, wire order (LSB first).
    pub tx_addr: Seq<u8>,
    /// Static payload widths of pipes 0 to 5.
    pub rx_pw: Seq<u8>,
    pub dynpd: u8,
    pub feature: u8,
    /// Payloads queued in the TX FIFO (hardware depth 3).
    pub tx_fifo: nat,
    /// Payloads queued in the RX FIFO (hardware depth 3).
    pub rx_fifo: nat,
    /// The received-power detector bit.
    pub rpd: bool,
    /// The CE line driven by the host.
    pub ce_high: bool,
}

impl ChipSpec {
    /// Structural bounds: address buffers hold five bytes, six pipes have a
    /// payload width, and the FIFOs are at most three deep.
    pub open spec fn wf(self) -> bool {
        self.rx_addr_p0.len() == 5 && self.rx_addr_p1.len() == 5 && self.tx_addr.len() == 5
            && self.rx_pw.len() == 6 && self.tx_fifo <= 3 && self.rx_fifo <= 3
    }

    /// The chip's power-on register values, from the datasheet's reset
    /// table.
    pub open spec fn reset() -> ChipSpec {
        ChipSpec {
            config: 0x08,
            en_aa: 0x3F,
            en_rxaddr: 0x03,
            setup_aw: 0x03,
            setup_retr: 0x03,
            rf_ch: 0x02,
            rf_setup: 0x0E,
            rx_dr: false,
            tx_ds: false,
            max_rt: false,
            rx_addr_p0: seq![0xE7u8, 0xE7, 0xE7, 0xE7, 0xE7],
            rx_addr_p1: seq![0xC2u8, 0xC2, 0xC2, 0xC2, 0xC2],
            rx_addr_p2: 0xC3,
            rx_addr_p3: 0xC4,
            rx_addr_p4: 0xC5,
            rx_addr_p5: 0xC6,
            tx_addr: seq![0xE7u8, 0xE7, 0xE7, 0xE7, 0xE7],
            rx_pw: seq![0u8, 0, 0, 0, 0, 0],
            dynpd: 0x00,
            feature: 0x00,
            tx_fifo: 0,
            rx_fifo: 0,
            rpd: false,
            ce_high: false,
        }
    }

    /// The PRIM_RX bit of CONFIG: the chip is a primary receiver.
    pub open spec fn prim_rx(self) -> bool {
        self.config % 2 == 1
    }

    /// The PWR_UP bit of CONFIG: the chip is powered up.
    pub open spec fn pwr_up(self) -> bool {
        self.config / 2 % 2 == 1
    }

    /// The STATUS byte the chip answers as the first byte of every
    /// response: the interrupt flags, an RX-empty pipe number, and the
    /// TX-FIFO-full flag.
    pub open spec fn status_byte(self) -> u8 {
        ((if self.rx_dr {
            0x40int
        } else {
            0int
        }) + (if self.tx_ds {
            0x20int
        } else {
            0int
        }) + (if self.max_rt {
            0x10int
        } else {
            0int
        }) + 0x0Eint + (if self.tx_fifo == 3 {
            1int
        } else {
            0int
        })) as u8
    }

    /// The FIFO_STATUS byte: fill flags computed from the FIFO depths.
    pub open spec fn fifo_status_byte(self) -> u8 {
        ((if self.tx_fifo == 3 {
            0x20int
        } else {
            0int
        }) + (if self.tx_fifo == 0 {
            0x10int
        } else {
            0int
        }) + (if self.rx_fifo == 3 {
            0x02int
        } else {
            0int
        }) + (if self.rx_fifo == 0 {
            0x01int
        } else {
            0int
        })) as u8
    }

    /// What a one-byte read of register `reg` returns.
    pub open spec fn reg_value(self, reg: u8) -> u8 {
        if reg == 0x00 {
            self.config
        } else if reg == 0x01 {
            self.en_aa
        } else if reg == 0x02 {
            self.en_rxaddr
        } else if reg == 0x03 {
            self.setup_aw
        } else if reg == 0x04 {
            self.setup_retr
        } else if reg == 0x05 {
            self.rf_ch
        } else if reg == 0x06 {
            self.rf_setup
        } else if reg == 0x07 {
            self.status_byte()
        } else if reg == 0x08 {
            0
        } else if reg == 0x09 {
            if self.rpd {
                1
            } else {
                0
            }
        } else if reg == 0x0C {
            self.rx_addr_p2
        } else if reg == 0x0D {
            self.rx_addr_p3
        } else if reg == 0x0E {
            self.rx_addr_p4
        } else if reg == 0x0F {
            self.rx_addr_p5
        } else if 0x11 <= reg <= 0x16 {
            self.rx_pw[reg - 0x11]
        } else if reg == 0x17 {
            self.fifo_status_byte()
        } else if reg == 0x1C {
            self.dynpd
        } else if reg == 0x1D {
            self.feature
        } else {
            0
        }
    }
}

/// The chip state after a register write: `data` is the frame without its
/// command byte.  A write to STATUS clears the interrupt flags whose bits
/// are 1 in the written byte; address registers take all five bytes;
/// writes to read-only or unmodeled registers change nothing.
pub open spec fn apply_write(c: ChipSpec, reg: u8, data: Seq<u8>) -> ChipSpec {
    if data.len() == 0 {
        c
    } else {
        let v = data[0];
        if reg == 0x00 {
            ChipSpec { config: v, ..c }
        } else if reg == 0x01 {
            ChipSpec { en_aa: v, ..c }
        } else if reg == 0x02 {
            ChipSpec { en_rxaddr: v, ..c }
        } else if reg == 0x03 {
            ChipSpec { setup_aw: v, ..c }
        } else if reg == 0x04 {
            ChipSpec { setup_retr: v, ..c }
        } else if reg == 0x05 {
            ChipSpec { rf_ch: (v % 0x80) as u8, ..c }
        } else if reg == 0x06 {
            ChipSpec { rf_setup: v, ..c }
        } else if reg == 0x07 {
            ChipSpec {
                rx_dr: c.rx_dr && !(v / 0x40 % 2 == 1),
                tx_ds: c.tx_ds && !(v / 0x20 % 2 == 1),
                max_rt: c.max_rt && !(v / 0x10 % 2 == 1),
                ..c
            }
        } else if reg == 0x0A {
            if data.len() == 5 {
                ChipSpec { rx_addr_p0: data, ..c }
            } else {
                c
            }
        } else if reg == 0x0B {
            if data.len() == 5 {
                ChipSpec { rx_addr_p1: data, ..c }
            } else {
                c
            }
        } else if reg == 0x0C {
            ChipSpec { rx_addr_p2: v, ..c }
        } else if reg == 0x0D {
            ChipSpec { rx_addr_p3: v, ..c }
        } else if reg == 0x0E {
            ChipSpec { rx_addr_p4: v, ..c }
        } else if reg == 0x0F {
            ChipSpec { rx_addr_p5: v, ..c }
        } else if reg == 0x10 {
            if data.len() == 5 {
                ChipSpec { tx_addr: data, ..c }
            } else {
                c
            }
        } else if 0x11 <= reg <= 0x16 {
            ChipSpec { rx_pw: c.rx_pw.update(reg - 0x11, (v % 0x40) as u8), ..c }
        } else if reg == 0x1C {
            ChipSpec { dynpd: v, ..c }
        } else if reg == 0x1D {
            ChipSpec { feature: v, ..c }
        } else {
            c
        }
    }
}

/// The chip state after one SPI frame.  Command bytes 0x20 to 0x3F write
/// the register in their low five bits; 0xA0 and 0xB0 queue a payload
/// (dropped when the TX FIFO is full); 0xE1 and 0xE2 flush a FIFO; reads
/// and unknown commands leave the state as it is.
pub open spec fn apply_frame(c: ChipSpec, f: Seq<u8>) -> ChipSpec {
    if f.len() == 0 {
        c
    } else {
        let cmd = f[0];
        if 0x20 <= cmd < 0x40 {
            apply_write(c, (cmd - 0x20) as u8, f.skip(1))
        } else if cmd == 0xA0 || cmd == 0xB0 {
            if c.tx_fifo < 3 {
                ChipSpec { tx_fifo: c.tx_fifo + 1, ..c }
            } else {
                c
            }
        } else if cmd == 0xE1 {
            ChipSpec { tx_fifo: 0, ..c }
        } else if cmd == 0xE2 {
            ChipSpec { rx_fifo: 0, ..c }
        } else {
            c
        }
    }
}

/// Byte `i` (for `i >= 1`) of the response to a read of register `reg`.
/// Address registers shift their bytes out in wire order; a one-byte
/// register repeats its value for as long as the master keeps clocking.
pub open spec fn read_byte(c: ChipSpec, reg: u8, i: int) -> u8 {
    if reg == 0x0A {
        if 1 <= i <= 5 {
            c.rx_addr_p0[i - 1]
        } else {
            0
        }
    } else if reg == 0x0B {
        if 1 <= i <= 5 {
            c.rx_addr_p1[i - 1]
        } else {
            0
        }
    } else if reg == 0x10 {
        if 1 <= i <= 5 {
            c.tx_addr[i - 1]
        } else {
            0
        }
    } else {
        c.reg_value(reg)
    }
}

/// The full response to one SPI frame: a STATUS snapshot first, then the
/// bytes of the register being read, and zeros for every other command.
pub open spec fn frame_response(c: ChipSpec, f: Seq<u8>) -> Seq<u8> {
    Seq::new(
        f.len(),
        |i: int|
            if i == 0 {
                c.status_byte()
            } else if f[0] < 0x20 {
                read_byte(c, f[0], i)
            } else {
                0
            },
    )
}

/// The five-byte receive address of a pipe as a caller sees it, most
/// significant byte first.  Pipes 2 to 5 share pipe 1's four high bytes
/// and contribute only their own least significant byte; pipes above 5 do
/// not exist and read as zeros here.
pub open spec fn spec_rx_address(c: ChipSpec, pipe: u8) -> Seq<u8> {
    if pipe == 0 {
        c.rx_addr_p0.reverse()
    } else if pipe == 1 {
        c.rx_addr_p1.reverse()
    } else if pipe <= 5 {
        seq![
            c.rx_addr_p1[4],
            c.rx_addr_p1[3],
            c.rx_addr_p1[2],
            c.rx_addr_p1[1],
            if pipe == 2 {
                c.rx_addr_p2
            } else if pipe == 3 {
                c.rx_addr_p3
            } else if pipe == 4 {
                c.rx_addr_p4
            } else {
                c.rx_addr_p5
            },
        ]
    } else {
        seq![0u8, 0, 0, 0, 0]
    }
}

/// The five-byte transmit address as a caller sees it, most significant
/// byte first.
pub open spec fn spec_tx_address(c: ChipSpec) -> Seq<u8> {
    c.tx_addr.reverse()
}

/// Law: every SPI frame keeps the chip model well formed.
pub proof fn lemma_apply_frame_wf(c: ChipSpec, f: Seq<u8>)
    requires
        c.wf(),
    ensures
        apply_frame(c, f).wf(),
{
}

/// Law: the STATUS byte the model answers decodes, through the register
/// codec, to exactly the model's interrupt flags, an RX-empty pipe number
/// and the TX-full flag.
pub proof fn lemma_status_byte_decodes(c: ChipSpec)
    requires
        c.wf(),
    ensures
        ({
            let s = StatusRegister::decoded(c.status_byte());
            s.rx_dr == c.rx_dr && s.tx_ds == c.tx_ds && s.max_rt == c.max_rt && s.rx_p_no == 7
                && s.tx_full == (c.tx_fifo == 3)
        }),
{
    let ta: u8 = if c.rx_dr { 0x40 } else { 0 };
    let tb: u8 = if c.tx_ds { 0x20 } else { 0 };
    let tc: u8 = if c.max_rt { 0x10 } else { 0 };
    let td: u8 = if c.tx_fifo == 3 { 1 } else { 0 };
    let b = c.status_byte();
    assert(b == ta + tb + tc + 0x0E + td);
    assert(((b & 0x40 != 0) == (ta == 0x40)) && ((b & 0x20 != 0) == (tb == 0x20)) && ((b & 0x10
        != 0) == (tc == 0x10)) && ((b & 0x0E) >> 1 == 7) && ((b & 0x01 != 0) == (td == 1)))
        by (bit_vector)
        requires
            b == ta + tb + tc + 0x0E + td,
            (ta == 0x40 || ta == 0) && (tb == 0x20 || tb == 0) && (tc == 0x10 || tc == 0) && (td
                == 1 || td == 0),
    ;
}

/// Law: the FIFO_STATUS byte the model answers decodes, through the
/// register codec, to exactly the model's FIFO fill flags, with the
/// payload-reuse flag clear.
pub proof fn lemma_fifo_status_byte_decodes(c: ChipSpec)
    requires
        c.wf(),
    ensures
        ({
            let f = FIFOStatusRegister::decoded(c.fifo_status_byte());
            !f.tx_reuse && f.tx_full == (c.tx_fifo == 3) && f.tx_empty == (c.tx_fifo == 0)
                && f.rx_full == (c.rx_fifo == 3) && f.rx_empty == (c.rx_fifo == 0)
        }),
{
    let ta: u8 = if c.tx_fifo == 3 { 0x20 } else { 0 };
    let tb: u8 = if c.tx_fifo == 0 { 0x10 } else { 0 };
    let tc: u8 = if c.rx_fifo == 3 { 0x02 } else { 0 };
    let td: u8 = if c.rx_fifo == 0 { 0x01 } else { 0 };
    let b = c.fifo_status_byte();
    assert(b == ta + tb + tc + td);
    assert(((b & 0x40 != 0) == false) && ((b & 0x20 != 0) == (ta == 0x20)) && ((b & 0x10 != 0) == (
    tb == 0x10)) && ((b & 0x02 != 0) == (tc == 0x02)) && ((b & 0x01 != 0) == (td == 0x01)))
        by (bit_vector)
        requires
            b == ta + tb + tc + td,
            (ta == 0x20 || ta == 0) && (tb == 0x10 || tb == 0) && (tc == 0x02 || tc == 0) && (td
                == 0x01 || td == 0),
    ;
}

/// Law: writing a channel and then reading RF_CH gives that channel back:
/// the read's payload byte equals the channel for every channel in range.
pub proof fn lemma_channel_read_back(c: ChipSpec, ch: u8)
    requires
        c.wf(),
        ch <= 127,
    ensures
        apply_frame(c, spec_write_frame(Register::RF_CH, ch)).rf_ch == ch,
        frame_response(
            apply_frame(c, spec_write_frame(Register::RF_CH, ch)),
            spec_read_frame(Register::RF_CH),
        )[1] == ch,
{
    let c2 = apply_frame(c, spec_write_frame(Register::RF_CH, ch));
    assert(c2.rf_ch == ch);
}

/// Law: writing the same five-byte address to pipe 0 and to TX_ADDR makes
/// both registers read back as exactly that address, for every address.
pub proof fn lemma_address_read_back(c: ChipSpec, a: Seq<u8>)
    requires
        c.wf(),
        a.len() == 5,
    ensures
        ({
            let c2 = apply_frame(
                apply_frame(c, spec_write_address_frame(Register::RX_ADDR_P0, a)),
                spec_write_address_frame(Register::TX_ADDR, a),
            );
            spec_rx_address(c2, 0) == a && spec_tx_address(c2) == a
        }),
{
    let c1 = apply_frame(c, spec_write_address_frame(Register::RX_ADDR_P0, a));
    let c2 = apply_frame(c1, spec_write_address_frame(Register::TX_ADDR, a));
    let wire = spec_write_address_frame(Register::RX_ADDR_P0, a).skip(1);
    assert(wire =~= seq![a[4], a[3], a[2], a[1], a[0]]);
    assert(c2.rx_addr_p0 =~= seq![a[4], a[3], a[2], a[1], a[0]]);
    assert(c2.tx_addr =~= seq![a[4], a[3], a[2], a[1], a[0]]);
    assert(spec_rx_address(c2, 0) =~= a);
    assert(spec_tx_address(c2) =~= a);
}

/// Law: writing a pipe-2-to-5 address byte changes only that pipe's least
/// significant byte; the pipe then reads back as pipe 1's four high bytes
/// followed by the byte written, for every byte and every prior state.
pub proof fn lemma_pipe_alias(c: ChipSpec, lsb: u8)
    requires
        c.wf(),
    ensures
        ({
            let c2 = apply_frame(c, spec_write_frame(Register::RX_ADDR_P2, lsb));
            spec_rx_address(c2, 2) == seq![
                c.rx_addr_p1[4],
                c.rx_addr_p1[3],
                c.rx_addr_p1[2],
                c.rx_addr_p1[1],
                lsb,
            ] && spec_rx_address(c2, 1) == spec_rx_address(c, 1)
        }),
{
    let c2 = apply_frame(c, spec_write_frame(Register::RX_ADDR_P2, lsb));
    assert(c2.rx_addr_p2 == lsb);
    assert(c2.rx_addr_p1 == c.rx_addr_p1);
    assert(spec_rx_address(c2, 2) =~= seq![
        c.rx_addr_p1[4],
        c.rx_addr_p1[3],
        c.rx_addr_p1[2],
        c.rx_addr_p1[1],
        lsb,
    ]);
}

} // verus!
