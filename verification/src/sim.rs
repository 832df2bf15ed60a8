//! An executable model of the NRF24L01+.
//!
//! `SimChip` holds the same state as [`crate::chip::ChipSpec`] and answers
//! SPI frames exactly as `apply_frame` and `frame_response` say — that is
//! proved, not assumed.  It stands in for the hardware behind the driver,
//! so every driver operation can be run and its bus traffic inspected
//! without a radio attached.  Each frame, CE edge and delay request is
//! appended to `events` for inspection.

use vstd::prelude::*;

use crate::chip::ChipSpec;
use crate::chip::apply_frame;
use crate::chip::frame_response;
use crate::chip::read_byte;

verus! {

/// One observable action the driver performed against the simulated chip.
#[derive(Debug, PartialEq, Eq)]
pub enum Event {
    /// An SPI frame, as written on the bus.
    Frame(Vec<u8>),
    /// The CE line went high.
    CeHigh,
    /// The CE line went low.
    CeLow,
    /// The driver asked to wait this many microseconds.
    DelayUs(u32),
}

/// The simulated chip: the modeled registers, plus a log of everything the
/// driver did to it.
pub struct SimChip {
    pub config: u8,
    pub en_aa: u8,
    pub en_rxaddr: u8,
    pub setup_aw: u8,
    pub setup_retr: u8,
    pub rf_ch: u8,
    pub rf_setup: u8,
    pub rx_dr: bool,
    pub tx_ds: bool,
    pub max_rt: bool,
    pub rx_addr_p0: [u8; 5],
    pub rx_addr_p1: [u8; 5],
    pub rx_addr_p2: u8,
    pub rx_addr_p3: u8,
    pub rx_addr_p4: u8,
    pub rx_addr_p5: u8,
    pub tx_addr: [u8; 5],
    pub rx_pw: [u8; 6],
    pub dynpd: u8,
    pub feature: u8,
    pub tx_fifo: u8,
    pub rx_fifo: u8,
    pub rpd: bool,
    pub ce_high: bool,
    /// Everything the driver has done, in order.
    pub events: Vec<Event>,
}

impl SimChip {
    /// The chip state this simulator currently holds.
    pub open spec fn chip(&self) -> ChipSpec {
        ChipSpec {
            config: self.config,
            en_aa: self.en_aa,
            en_rxaddr: self.en_rxaddr,
            setup_aw: self.setup_aw,
            setup_retr: self.setup_retr,
            rf_ch: self.rf_ch,
            rf_setup: self.rf_setup,
            rx_dr: self.rx_dr,
            tx_ds: self.tx_ds,
            max_rt: self.max_rt,
            rx_addr_p0: self.rx_addr_p0@,
            rx_addr_p1: self.rx_addr_p1@,
            rx_addr_p2: self.rx_addr_p2,
            rx_addr_p3: self.rx_addr_p3,
            rx_addr_p4: self.rx_addr_p4,
            rx_addr_p5: self.rx_addr_p5,
            tx_addr: self.tx_addr@,
            rx_pw: self.rx_pw@,
            dynpd: self.dynpd,
            feature: self.feature,
            tx_fifo: self.tx_fifo as nat,
            rx_fifo: self.rx_fifo as nat,
            rpd: self.rpd,
            ce_high: self.ce_high,
        }
    }

    /// A freshly powered-on chip, with the datasheet's reset values and an
    /// empty event log.
    pub fn new() -> (r: SimChip)
        ensures
            r.chip() == ChipSpec::reset(),
            r.events@.len() == 0,
    {
        let r = SimChip {
            config: 0x08,
            en_aa: 0x3F,
            en_rxaddr: 0x03,
            setup_aw: 0x03,
            setup_retr: 0x03,
            rf_ch: 0x02,
            rf_setup: 0x0E,
            rx_dr: false,
            tx_ds: false,
            max_rt: false,
            rx_addr_p0: [0xE7; 5],
            rx_addr_p1: [0xC2; 5],
            rx_addr_p2: 0xC3,
            rx_addr_p3: 0xC4,
            rx_addr_p4: 0xC5,
            rx_addr_p5: 0xC6,
            tx_addr: [0xE7; 5],
            rx_pw: [0; 6],
            dynpd: 0x00,
            feature: 0x00,
            tx_fifo: 0,
            rx_fifo: 0,
            rpd: false,
            ce_high: false,
            events: Vec::new(),
        };
        proof {
            assert(r.chip().rx_addr_p0 =~= ChipSpec::reset().rx_addr_p0);
            assert(r.chip().rx_addr_p1 =~= ChipSpec::reset().rx_addr_p1);
            assert(r.chip().tx_addr =~= ChipSpec::reset().tx_addr);
            assert(r.chip().rx_pw =~= ChipSpec::reset().rx_pw);
            assert(r.chip() =~= ChipSpec::reset());
        }
        r
    }

    /// The STATUS byte the chip would answer right now.
    fn status_byte_value(&self) -> (r: u8)
        ensures
            r == self.chip().status_byte(),
    {
        let mut v: u8 = 0x0E;
        if self.rx_dr {
            v += 0x40;
        }
        if self.tx_ds {
            v += 0x20;
        }
        if self.max_rt {
            v += 0x10;
        }
        if self.tx_fifo == 3 {
            v += 1;
        }
        v
    }

    /// The FIFO_STATUS byte the chip would answer right now.
    fn fifo_status_byte_value(&self) -> (r: u8)
        ensures
            r == self.chip().fifo_status_byte(),
    {
        let mut v: u8 = 0;
        if self.tx_fifo == 3 {
            v += 0x20;
        }
        if self.tx_fifo == 0 {
            v += 0x10;
        }
        if self.rx_fifo == 3 {
            v += 0x02;
        }
        if self.rx_fifo == 0 {
            v += 0x01;
        }
        v
    }

    /// What a one-byte read of register `reg` returns.
    fn reg_value(&self, reg: u8) -> (r: u8)
        ensures
            r == self.chip().reg_value(reg),
    {
        if reg == 0x00 {
            self.config
        } else if reg == 0x01 {
            self.en_aa
        } else if reg == 0x02 {
            self.en_rxaddr
        } else if reg == 0x03 {
            self.setup_aw
        } else if reg == 0x04 {
            self.setup_retr
        } else if reg == 0x05 {
            self.rf_ch
        } else if reg == 0x06 {
            self.rf_setup
        } else if reg == 0x07 {
            self.status_byte_value()
        } else if reg == 0x08 {
            0
        } else if reg == 0x09 {
            if self.rpd {
                1
            } else {
                0
            }
        } else if reg == 0x0C {
            self.rx_addr_p2
        } else if reg == 0x0D {
            self.rx_addr_p3
        } else if reg == 0x0E {
            self.rx_addr_p4
        } else if reg == 0x0F {
            self.rx_addr_p5
        } else if 0x11 <= reg && reg <= 0x16 {
            self.rx_pw[(reg - 0x11) as usize]
        } else if reg == 0x17 {
            self.fifo_status_byte_value()
        } else if reg == 0x1C {
            self.dynpd
        } else if reg == 0x1D {
            self.feature
        } else {
            0
        }
    }

    /// Byte `i` of the response to a read of register `reg`.
    fn read_byte_value(&self, reg: u8, i: usize) -> (r: u8)
        requires
            1 <= i,
        ensures
            r == read_byte(self.chip(), reg, i as int),
    {
        if reg == 0x0A {
            if i <= 5 {
                self.rx_addr_p0[i - 1]
            } else {
                0
            }
        } else if reg == 0x0B {
            if i <= 5 {
                self.rx_addr_p1[i - 1]
            } else {
                0
            }
        } else if reg == 0x10 {
            if i <= 5 {
                self.tx_addr[i - 1]
            } else {
                0
            }
        } else {
            self.reg_value(reg)
        }
    }

    /// Builds the response to `data_out` from the current state.
    fn response_for(&self, data_out: &Vec<u8>) -> (r: Vec<u8>)
        ensures
            r@ == frame_response(self.chip(), data_out@),
    {
        let n = data_out.len();
        let mut r: Vec<u8> = Vec::new();
        if n == 0 {
            proof {
                assert(r@ =~= frame_response(self.chip(), data_out@));
            }
            return r;
        }
        r.push(self.status_byte_value());
        let cmd = data_out[0];
        let mut i: usize = 1;
        while i < n
            invariant
                1 <= i <= n,
                n == data_out@.len(),
                cmd == data_out@[0],
                r@.len() == i,
                r@[0] == self.chip().status_byte(),
                forall|j: int|
                    1 <= j < i ==> r@[j] == (if cmd < 0x20 {
                        read_byte(self.chip(), cmd, j)
                    } else {
                        0u8
                    }),
            decreases n - i,
        {
            let b = if cmd < 0x20 {
                self.read_byte_value(cmd, i)
            } else {
                0
            };
            r.push(b);
            i += 1;
        }
        proof {
            assert(r@ =~= frame_response(self.chip(), data_out@));
        }
        r
    }

    /// Applies the state change of one frame.
    fn apply(&mut self, data_out: &Vec<u8>)
        ensures
            final(self).chip() == apply_frame(old(self).chip(), data_out@),
            final(self).events == old(self).events,
    {
        let n = data_out.len();
        if n == 0 {
            return;
        }
        let cmd = data_out[0];
        if 0x20 <= cmd && cmd < 0x40 {
            let reg = cmd - 0x20;
            if n >= 2 {
                let v = data_out[1];
                if reg == 0x00 {
                    self.config = v;
                } else if reg == 0x01 {
                    self.en_aa = v;
                } else if reg == 0x02 {
                    self.en_rxaddr = v;
                } else if reg == 0x03 {
                    self.setup_aw = v;
                } else if reg == 0x04 {
                    self.setup_retr = v;
                } else if reg == 0x05 {
                    self.rf_ch = v % 0x80;
                } else if reg == 0x06 {
                    self.rf_setup = v;
                } else if reg == 0x07 {
                    if (v / 0x40) % 2 == 1 {
                        self.rx_dr = false;
                    }
                    if (v / 0x20) % 2 == 1 {
                        self.tx_ds = false;
                    }
                    if (v / 0x10) % 2 == 1 {
                        self.max_rt = false;
                    }
                } else if reg == 0x0A {
                    if n == 6 {
                        self.rx_addr_p0[0] = data_out[1];
                        self.rx_addr_p0[1] = data_out[2];
                        self.rx_addr_p0[2] = data_out[3];
                        self.rx_addr_p0[3] = data_out[4];
                        self.rx_addr_p0[4] = data_out[5];
                        proof {
                            assert(self.rx_addr_p0@ =~= data_out@.skip(1));
                        }
                    }
                } else if reg == 0x0B {
                    if n == 6 {
                        self.rx_addr_p1[0] = data_out[1];
                        self.rx_addr_p1[1] = data_out[2];
                        self.rx_addr_p1[2] = data_out[3];
                        self.rx_addr_p1[3] = data_out[4];
                        self.rx_addr_p1[4] = data_out[5];
                        proof {
                            assert(self.rx_addr_p1@ =~= data_out@.skip(1));
                        }
                    }
                } else if reg == 0x0C {
                    self.rx_addr_p2 = v;
                } else if reg == 0x0D {
                    self.rx_addr_p3 = v;
                } else if reg == 0x0E {
                    self.rx_addr_p4 = v;
                } else if reg == 0x0F {
                    self.rx_addr_p5 = v;
                } else if reg == 0x10 {
                    if n == 6 {
                        self.tx_addr[0] = data_out[1];
                        self.tx_addr[1] = data_out[2];
                        self.tx_addr[2] = data_out[3];
                        self.tx_addr[3] = data_out[4];
                        self.tx_addr[4] = data_out[5];
                        proof {
                            assert(self.tx_addr@ =~= data_out@.skip(1));
                        }
                    }
                } else if 0x11 <= reg && reg <= 0x16 {
                    self.rx_pw[(reg - 0x11) as usize] = v % 0x40;
                    proof {
                        assert(self.rx_pw@ =~= old(self).chip().rx_pw.update(
                            reg - 0x11,
                            (v % 0x40) as u8,
                        ));
                    }
                } else if reg == 0x1C {
                    self.dynpd = v;
                } else if reg == 0x1D {
                    self.feature = v;
                }
            }
        } else if cmd == 0xA0 || cmd == 0xB0 {
            if self.tx_fifo < 3 {
                self.tx_fifo += 1;
            }
        } else if cmd == 0xE1 {
            self.tx_fifo = 0;
        } else if cmd == 0xE2 {
            self.rx_fifo = 0;
        }
        proof {
            assert(self.chip() =~= apply_frame(old(self).chip(), data_out@));
        }
    }

    /// One full-duplex SPI exchange: the state advances by `apply_frame`,
    /// the returned bytes are `frame_response`, and the frame is logged.
    pub fn transfer(&mut self, data_out: &Vec<u8>) -> (r: Vec<u8>)
        ensures
            final(self).chip() == apply_frame(old(self).chip(), data_out@),
            r@ == frame_response(old(self).chip(), data_out@),
            r@.len() == data_out@.len(),
    {
        let response = self.response_for(data_out);
        self.apply(data_out);
        self.events.push(Event::Frame(data_out.clone()));
        response
    }

    /// Drives the CE line and logs the edge.
    pub fn set_ce(&mut self, high: bool)
        ensures
            final(self).chip() == (ChipSpec { ce_high: high, ..old(self).chip() }),
    {
        self.ce_high = high;
        if high {
            self.events.push(Event::CeHigh);
        } else {
            self.events.push(Event::CeLow);
        }
        proof {
            assert(self.chip() =~= (ChipSpec { ce_high: high, ..old(self).chip() }));
        }
    }

    /// Logs a requested delay; simulated time needs no waiting.
    pub fn delay_us(&mut self, us: u32)
        ensures
            final(self).chip() == old(self).chip(),
    {
        self.events.push(Event::DelayUs(us));
        proof {
            assert(self.chip() =~= old(self).chip());
        }
    }
}

} // verus!
