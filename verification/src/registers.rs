//! Typed views of the NRF24L01+ register file.
//!
//! Every register is an 8-bit value (addresses hold 3 to 5 bytes and are
//! modeled separately).  Each register type decodes a raw byte into named
//! fields with `new` and re-encodes it with `to_u8`.  The two directions are
//! lossless on the bits the datasheet defines: the round-trip laws at the
//! bottom of this file state that exactly.

use vstd::prelude::*;

verus! {

// CONFIG register bits
pub const MASK_RX_DR: u8 = 0x40;
pub const MASK_TX_DS: u8 = 0x20;
pub const MASK_MAX_RT: u8 = 0x10;
pub const EN_CRC: u8 = 0x08;
pub const CRCO: u8 = 0x04;
pub const PWR_UP: u8 = 0x02;
pub const PRIM_RX: u8 = 0x01;

// EN_AA register bits
pub const ENAA_P5: u8 = 0x20;
pub const ENAA_P4: u8 = 0x10;
pub const ENAA_P3: u8 = 0x08;
pub const ENAA_P2: u8 = 0x04;
pub const ENAA_P1: u8 = 0x02;
pub const ENAA_P0: u8 = 0x01;

// EN_RXADDR register bits
pub const ERX_P5: u8 = 0x20;
pub const ERX_P4: u8 = 0x10;
pub const ERX_P3: u8 = 0x08;
pub const ERX_P2: u8 = 0x04;
pub const ERX_P1: u8 = 0x02;
pub const ERX_P0: u8 = 0x01;

// RF_SETUP register bits
pub const CONT_WAVE: u8 = 0x80;
pub const RF_DR_LOW: u8 = 0x20;
pub const RF_DR_HIGH: u8 = 0x08;
pub const RF_PWR: u8 = 0x06;

// STATUS register bits
pub const RX_DR: u8 = 0x40;
pub const TX_DS: u8 = 0x20;
pub const MAX_RT: u8 = 0x10;
pub const RX_P_NO: u8 = 0x0E;
pub const TX_FULL: u8 = 0x01;

// FIFO_STATUS register bits
pub const TX_REUSE: u8 = 0x40;
pub const FIFO_FULL: u8 = 0x20;
pub const TX_EMPTY: u8 = 0x10;
pub const RX_FULL: u8 = 0x02;
pub const RX_EMPTY: u8 = 0x01;

// DYNPD register bits
pub const DPL_P5: u8 = 0x20;
pub const DPL_P4: u8 = 0x10;
pub const DPL_P3: u8 = 0x08;
pub const DPL_P2: u8 = 0x04;
pub const DPL_P1: u8 = 0x02;
pub const DPL_P0: u8 = 0x01;

// FEATURE register bits
pub const EN_DPL: u8 = 0x04;
pub const EN_ACK_PAY: u8 = 0x02;
pub const EN_DYN_ACK: u8 = 0x01;

/// True when at least one bit of `mask` is set in `value`.
pub open spec fn bit_set(value: u8, mask: u8) -> bool {
    value & mask != 0
}

/// Reports whether any bit of `bit` is set in `value`.
pub fn is_bit_set(value: u8, bit: u8) -> (r: bool)
    ensures
        r == bit_set(value, bit),
{
    value & bit != 0
}

/// `mask` when `cond` holds, zero otherwise: one term of an encoded register
/// byte.
pub open spec fn mask_if(cond: bool, mask: u8) -> u8 {
    if cond {
        mask
    } else {
        0
    }
}

/// A register field was given a value outside its documented range; the
/// payload names the field.
#[derive(Clone, Copy, Debug)]
pub enum RegisterError {
    InvalidValue(&'static str),
}

/// The CONFIG register (address 0x00): interrupt masks, CRC settings, power
/// state and the RX/TX role.
#[derive(Clone, Copy, Debug, PartialEq, Eq, Structural)]
pub struct ConfigRegister {
    pub mask_max_rt: bool,
    pub mask_tx_ds: bool,
    pub mask_rx_dr: bool,
    pub en_crc: bool,
    pub crc0: bool,
    pub pwr_up: bool,
    pub prim_rx: bool,
}

impl ConfigRegister {
    /// The register decoded from a raw byte.
    pub open spec fn decoded(value: u8) -> ConfigRegister {
        ConfigRegister {
            mask_rx_dr: bit_set(value, MASK_RX_DR),
            mask_tx_ds: bit_set(value, MASK_TX_DS),
            mask_max_rt: bit_set(value, MASK_MAX_RT),
            en_crc: bit_set(value, EN_CRC),
            crc0: bit_set(value, CRCO),
            pwr_up: bit_set(value, PWR_UP),
            prim_rx: bit_set(value, PRIM_RX),
        }
    }

    /// The raw byte this register encodes to.
    pub open spec fn spec_raw(self) -> u8 {
        mask_if(self.mask_rx_dr, MASK_RX_DR) | mask_if(self.mask_tx_ds, MASK_TX_DS)
            | mask_if(self.mask_max_rt, MASK_MAX_RT) | mask_if(self.en_crc, EN_CRC)
            | mask_if(self.crc0, CRCO) | mask_if(self.pwr_up, PWR_UP)
            | mask_if(self.prim_rx, PRIM_RX)
    }

    /// Decodes a CONFIG byte read from the device.
    pub fn new(value: u8) -> (r: Self)
        ensures
            r == Self::decoded(value),
    {
        Self {
            mask_rx_dr: is_bit_set(value, MASK_RX_DR),
            mask_tx_ds: is_bit_set(value, MASK_TX_DS),
            mask_max_rt: is_bit_set(value, MASK_MAX_RT),
            en_crc: is_bit_set(value, EN_CRC),
            crc0: is_bit_set(value, CRCO),
            pwr_up: is_bit_set(value, PWR_UP),
            prim_rx: is_bit_set(value, PRIM_RX),
        }
    }

    pub fn set_mask_rx_dr(&mut self, value: bool)
        ensures
            *final(self) == (ConfigRegister { mask_rx_dr: value, ..*old(self) }),
    {
        self.mask_rx_dr = value;
    }

    pub fn mask_rx_dr(&self) -> (r: bool)
        ensures
            r == self.mask_rx_dr,
    {
        self.mask_rx_dr
    }

    pub fn set_mask_tx_ds(&mut self, value: bool)
        ensures
            *final(self) == (ConfigRegister { mask_tx_ds: value, ..*old(self) }),
    {
        self.mask_tx_ds = value;
    }

    pub fn mask_tx_ds(&self) -> (r: bool)
        ensures
            r == self.mask_tx_ds,
    {
        self.mask_tx_ds
    }

    pub fn set_mask_max_rt(&mut self, value: bool)
        ensures
            *final(self) == (ConfigRegister { mask_max_rt: value, ..*old(self) }),
    {
        self.mask_max_rt = value;
    }

    pub fn mask_max_rt(&self) -> (r: bool)
        ensures
            r == self.mask_max_rt,
    {
        self.mask_max_rt
    }

    pub fn set_en_crc(&mut self, value: bool)
        ensures
            *final(self) == (ConfigRegister { en_crc: value, ..*old(self) }),
    {
        self.en_crc = value;
    }

    pub fn en_crc(&self) -> (r: bool)
        ensures
            r == self.en_crc,
    {
        self.en_crc
    }

    pub fn set_crc0(&mut self, value: bool)
        ensures
            *final(self) == (ConfigRegister { crc0: value, ..*old(self) }),
    {
        self.crc0 = value;
    }

    pub fn crc0(&self) -> (r: bool)
        ensures
            r == self.crc0,
    {
        self.crc0
    }

    pub fn set_pwr_up(&mut self, value: bool)
        ensures
            *final(self) == (ConfigRegister { pwr_up: value, ..*old(self) }),
    {
        self.pwr_up = value;
    }

    pub fn pwr_up(&self) -> (r: bool)
        ensures
            r == self.pwr_up,
    {
        self.pwr_up
    }

    pub fn set_prim_rx(&mut self, value: bool)
        ensures
            *final(self) == (ConfigRegister { prim_rx: value, ..*old(self) }),
    {
        self.prim_rx = value;
    }

    pub fn prim_rx(&self) -> (r: bool)
        ensures
            r == self.prim_rx,
    {
        self.prim_rx
    }

    /// Encodes the register into the byte written to the device.
    pub fn to_u8(&self) -> (r: u8)
        ensures
            r == self.spec_raw(),
    {
        let a = if self.mask_rx_dr { MASK_RX_DR } else { 0 };
        let b = if self.mask_tx_ds { MASK_TX_DS } else { 0 };
        let c = if self.mask_max_rt { MASK_MAX_RT } else { 0 };
        let d = if self.en_crc { EN_CRC } else { 0 };
        let e = if self.crc0 { CRCO } else { 0 };
        let f = if self.pwr_up { PWR_UP } else { 0 };
        let g = if self.prim_rx { PRIM_RX } else { 0 };
        a | b | c | d | e | f | g
    }
}

/// Law: decoding a CONFIG byte and re-encoding it keeps exactly the defined
/// bits (bit 7 is reserved and reads back as zero).
pub proof fn lemma_config_reencode(value: u8)
    ensures
        ConfigRegister::decoded(value).spec_raw() == value & 0x7F,
{
    assert((if value & 0x40 != 0 { 0x40u8 } else { 0u8 })
        | (if value & 0x20 != 0 { 0x20u8 } else { 0u8 })
        | (if value & 0x10 != 0 { 0x10u8 } else { 0u8 })
        | (if value & 0x08 != 0 { 0x08u8 } else { 0u8 })
        | (if value & 0x04 != 0 { 0x04u8 } else { 0u8 })
        | (if value & 0x02 != 0 { 0x02u8 } else { 0u8 })
        | (if value & 0x01 != 0 { 0x01u8 } else { 0u8 }) == value & 0x7F) by (bit_vector);
}

/// Law: every CONFIG register value survives an encode/decode round trip.
pub proof fn lemma_config_roundtrip(c: ConfigRegister)
    ensures
        ConfigRegister::decoded(c.spec_raw()) == c,
{
    let ta: u8 = if c.mask_rx_dr { 0x40 } else { 0 };
    let tb: u8 = if c.mask_tx_ds { 0x20 } else { 0 };
    let tc: u8 = if c.mask_max_rt { 0x10 } else { 0 };
    let td: u8 = if c.en_crc { 0x08 } else { 0 };
    let te: u8 = if c.crc0 { 0x04 } else { 0 };
    let tf: u8 = if c.pwr_up { 0x02 } else { 0 };
    let tg: u8 = if c.prim_rx { 0x01 } else { 0 };
    let r = ta | tb | tc | td | te | tf | tg;
    assert(((r & 0x40 != 0) == (ta == 0x40)) && ((r & 0x20 != 0) == (tb == 0x20)) && ((r & 0x10
        != 0) == (tc == 0x10)) && ((r & 0x08 != 0) == (td == 0x08)) && ((r & 0x04 != 0) == (te
        == 0x04)) && ((r & 0x02 != 0) == (tf == 0x02)) && ((r & 0x01 != 0) == (tg == 0x01)))
        by (bit_vector)
        requires
            r == (ta | tb | tc | td | te | tf | tg),
            (ta == 0x40 || ta == 0) && (tb == 0x20 || tb == 0) && (tc == 0x10 || tc == 0) && (td
                == 0x08 || td == 0) && (te == 0x04 || te == 0) && (tf == 0x02 || tf == 0) && (tg
                == 0x01 || tg == 0),
    ;
}

/// The EN_AA register (address 0x01): per-pipe Enhanced ShockBurst
/// auto-acknowledgment enables.
#[derive(Clone, Copy, Debug, PartialEq, Eq, Structural)]
pub struct EnableAutoAcknowledgmentRegister {
    pub en_aa_p5: bool,
    pub en_aa_p4: bool,
    pub en_aa_p3: bool,
    pub en_aa_p2: bool,
    pub en_aa_p1: bool,
    pub en_aa_p0: bool,
}

impl EnableAutoAcknowledgmentRegister {
    /// The register decoded from a raw byte.
    pub open spec fn decoded(value: u8) -> EnableAutoAcknowledgmentRegister {
        EnableAutoAcknowledgmentRegister {
            en_aa_p5: bit_set(value, ENAA_P5),
            en_aa_p4: bit_set(value, ENAA_P4),
            en_aa_p3: bit_set(value, ENAA_P3),
            en_aa_p2: bit_set(value, ENAA_P2),
            en_aa_p1: bit_set(value, ENAA_P1),
            en_aa_p0: bit_set(value, ENAA_P0),
        }
    }

    /// The raw byte this register encodes to.
    pub open spec fn spec_raw(self) -> u8 {
        mask_if(self.en_aa_p5, ENAA_P5) | mask_if(self.en_aa_p4, ENAA_P4)
            | mask_if(self.en_aa_p3, ENAA_P3) | mask_if(self.en_aa_p2, ENAA_P2)
            | mask_if(self.en_aa_p1, ENAA_P1) | mask_if(self.en_aa_p0, ENAA_P0)
    }

    /// Decodes an EN_AA byte read from the device.
    pub fn new(value: u8) -> (r: Self)
        ensures
            r == Self::decoded(value),
    {
        Self {
            en_aa_p5: is_bit_set(value, ENAA_P5),
            en_aa_p4: is_bit_set(value, ENAA_P4),
            en_aa_p3: is_bit_set(value, ENAA_P3),
            en_aa_p2: is_bit_set(value, ENAA_P2),
            en_aa_p1: is_bit_set(value, ENAA_P1),
            en_aa_p0: is_bit_set(value, ENAA_P0),
        }
    }

    /// Encodes the register into the byte written to the device.
    pub fn to_u8(&self) -> (r: u8)
        ensures
            r == self.spec_raw(),
    {
        let a = if self.en_aa_p5 { ENAA_P5 } else { 0 };
        let b = if self.en_aa_p4 { ENAA_P4 } else { 0 };
        let c = if self.en_aa_p3 { ENAA_P3 } else { 0 };
        let d = if self.en_aa_p2 { ENAA_P2 } else { 0 };
        let e = if self.en_aa_p1 { ENAA_P1 } else { 0 };
        let f = if self.en_aa_p0 { ENAA_P0 } else { 0 };
        a | b | c | d | e | f
    }
}

/// Law: decoding an EN_AA byte and re-encoding it keeps exactly the defined
/// bits (bits 6 and 7 are reserved).
pub proof fn lemma_en_aa_reencode(value: u8)
    ensures
        EnableAutoAcknowledgmentRegister::decoded(value).spec_raw() == value & 0x3F,
{
    assert((if value & 0x20 != 0 { 0x20u8 } else { 0u8 })
        | (if value & 0x10 != 0 { 0x10u8 } else { 0u8 })
        | (if value & 0x08 != 0 { 0x08u8 } else { 0u8 })
        | (if value & 0x04 != 0 { 0x04u8 } else { 0u8 })
        | (if value & 0x02 != 0 { 0x02u8 } else { 0u8 })
        | (if value & 0x01 != 0 { 0x01u8 } else { 0u8 }) == value & 0x3F) by (bit_vector);
}

/// Law: every EN_AA register value survives an encode/decode round trip.
pub proof fn lemma_en_aa_roundtrip(c: EnableAutoAcknowledgmentRegister)
    ensures
        EnableAutoAcknowledgmentRegister::decoded(c.spec_raw()) == c,
{
    let ta: u8 = if c.en_aa_p5 { 0x20 } else { 0 };
    let tb: u8 = if c.en_aa_p4 { 0x10 } else { 0 };
    let tc: u8 = if c.en_aa_p3 { 0x08 } else { 0 };
    let td: u8 = if c.en_aa_p2 { 0x04 } else { 0 };
    let te: u8 = if c.en_aa_p1 { 0x02 } else { 0 };
    let tf: u8 = if c.en_aa_p0 { 0x01 } else { 0 };
    let r = ta | tb | tc | td | te | tf;
    assert(((r & 0x20 != 0) == (ta == 0x20)) && ((r & 0x10 != 0) == (tb == 0x10)) && ((r & 0x08
        != 0) == (tc == 0x08)) && ((r & 0x04 != 0) == (td == 0x04)) && ((r & 0x02 != 0) == (te
        == 0x02)) && ((r & 0x01 != 0) == (tf == 0x01))) by (bit_vector)
        requires
            r == (ta | tb | tc | td | te | tf),
            (ta == 0x20 || ta == 0) && (tb == 0x10 || tb == 0) && (tc == 0x08 || tc == 0) && (td
                == 0x04 || td == 0) && (te == 0x02 || te == 0) && (tf == 0x01 || tf == 0),
    ;
}

/// The EN_RXADDR register (address 0x02): per-pipe receive enables.
#[derive(Clone, Copy, Debug, PartialEq, Eq, Structural)]
pub struct EnableRXAddressesRegister {
    pub erx_p5: bool,
    pub erx_p4: bool,
    pub erx_p3: bool,
    pub erx_p2: bool,
    pub erx_p1: bool,
    pub erx_p0: bool,
}

impl EnableRXAddressesRegister {
    /// The register decoded from a raw byte.
    pub open spec fn decoded(value: u8) -> EnableRXAddressesRegister {
        EnableRXAddressesRegister {
            erx_p5: bit_set(value, ERX_P5),
            erx_p4: bit_set(value, ERX_P4),
            erx_p3: bit_set(value, ERX_P3),
            erx_p2: bit_set(value, ERX_P2),
            erx_p1: bit_set(value, ERX_P1),
            erx_p0: bit_set(value, ERX_P0),
        }
    }

    /// The raw byte this register encodes to.
    pub open spec fn spec_raw(self) -> u8 {
        mask_if(self.erx_p5, ERX_P5) | mask_if(self.erx_p4, ERX_P4) | mask_if(self.erx_p3, ERX_P3)
            | mask_if(self.erx_p2, ERX_P2) | mask_if(self.erx_p1, ERX_P1)
            | mask_if(self.erx_p0, ERX_P0)
    }

    /// Decodes an EN_RXADDR byte read from the device.
    pub fn new(value: u8) -> (r: Self)
        ensures
            r == Self::decoded(value),
    {
        Self {
            erx_p5: is_bit_set(value, ERX_P5),
            erx_p4: is_bit_set(value, ERX_P4),
            erx_p3: is_bit_set(value, ERX_P3),
            erx_p2: is_bit_set(value, ERX_P2),
            erx_p1: is_bit_set(value, ERX_P1),
            erx_p0: is_bit_set(value, ERX_P0),
        }
    }

    /// Encodes the register into the byte written to the device.
    pub fn to_u8(&self) -> (r: u8)
        ensures
            r == self.spec_raw(),
    {
        let a = if self.erx_p5 { ERX_P5 } else { 0 };
        let b = if self.erx_p4 { ERX_P4 } else { 0 };
        let c = if self.erx_p3 { ERX_P3 } else { 0 };
        let d = if self.erx_p2 { ERX_P2 } else { 0 };
        let e = if self.erx_p1 { ERX_P1 } else { 0 };
        let f = if self.erx_p0 { ERX_P0 } else { 0 };
        a | b | c | d | e | f
    }
}

/// Law: decoding an EN_RXADDR byte and re-encoding it keeps exactly the
/// defined bits (bits 6 and 7 are reserved).
pub proof fn lemma_en_rxaddr_reencode(value: u8)
    ensures
        EnableRXAddressesRegister::decoded(value).spec_raw() == value & 0x3F,
{
    assert((if value & 0x20 != 0 { 0x20u8 } else { 0u8 })
        | (if value & 0x10 != 0 { 0x10u8 } else { 0u8 })
        | (if value & 0x08 != 0 { 0x08u8 } else { 0u8 })
        | (if value & 0x04 != 0 { 0x04u8 } else { 0u8 })
        | (if value & 0x02 != 0 { 0x02u8 } else { 0u8 })
        | (if value & 0x01 != 0 { 0x01u8 } else { 0u8 }) == value & 0x3F) by (bit_vector);
}

/// Law: every EN_RXADDR register value survives an encode/decode round trip.
pub proof fn lemma_en_rxaddr_roundtrip(c: EnableRXAddressesRegister)
    ensures
        EnableRXAddressesRegister::decoded(c.spec_raw()) == c,
{
    let ta: u8 = if c.erx_p5 { 0x20 } else { 0 };
    let tb: u8 = if c.erx_p4 { 0x10 } else { 0 };
    let tc: u8 = if c.erx_p3 { 0x08 } else { 0 };
    let td: u8 = if c.erx_p2 { 0x04 } else { 0 };
    let te: u8 = if c.erx_p1 { 0x02 } else { 0 };
    let tf: u8 = if c.erx_p0 { 0x01 } else { 0 };
    let r = ta | tb | tc | td | te | tf;
    assert(((r & 0x20 != 0) == (ta == 0x20)) && ((r & 0x10 != 0) == (tb == 0x10)) && ((r & 0x08
        != 0) == (tc == 0x08)) && ((r & 0x04 != 0) == (td == 0x04)) && ((r & 0x02 != 0) == (te
        == 0x02)) && ((r & 0x01 != 0) == (tf == 0x01))) by (bit_vector)
        requires
            r == (ta | tb | tc | td | te | tf),
            (ta == 0x20 || ta == 0) && (tb == 0x10 || tb == 0) && (tc == 0x08 || tc == 0) && (td
                == 0x04 || td == 0) && (te == 0x02 || te == 0) && (tf == 0x01 || tf == 0),
    ;
}

/// The SETUP_AW register (address 0x03): the address width code.
///
/// Code 1 means 3-byte addresses, 2 means 4 bytes, 3 means 5 bytes; 0 is
/// illegal, and so is anything above 3.
#[derive(Clone, Copy, Debug, PartialEq, Eq, Structural)]
pub struct SetupAddressWidthsRegister {
    pub aw: u8,
}

impl SetupAddressWidthsRegister {
    /// Builds the register from an address width code, rejecting codes the
    /// datasheet marks illegal.
    pub fn new(value: u8) -> (r: Result<Self, RegisterError>)
        ensures
            (value == 0 || value > 3) <==> r is Err,
            r is Err ==> r->Err_0 is InvalidValue,
            r is Ok ==> r->Ok_0.aw == value,
    {
        if value == 0 || value > 3 {
            Err(RegisterError::InvalidValue("aw"))
        } else {
            Ok(Self { aw: value })
        }
    }

    /// Encodes the register into the byte written to the device.
    pub fn to_u8(&self) -> (r: u8)
        ensures
            r == self.aw,
    {
        self.aw
    }
}

/// The SETUP_RETR register (address 0x04): the auto-retransmit delay code
/// (`ard`, high nibble, delay is `(ard + 1) * 250` microseconds) and the
/// auto-retransmit count (`arc`, low nibble).
#[derive(Clone, Copy, Debug, PartialEq, Eq, Structural)]
pub struct SetupRetransmitsRegister {
    pub ard: u8,
    pub arc: u8,
}

impl SetupRetransmitsRegister {
    /// The register decoded from a raw byte.
    pub open spec fn decoded(value: u8) -> SetupRetransmitsRegister {
        SetupRetransmitsRegister { ard: value >> 4, arc: value & 0x0F }
    }

    /// The raw byte this register encodes to.
    pub open spec fn spec_raw(self) -> u8 {
        (self.ard << 4) | self.arc
    }

    /// Both nibbles are in range.
    pub open spec fn valid(self) -> bool {
        self.ard <= 0x0F && self.arc <= 0x0F
    }

    /// Decodes a SETUP_RETR byte read from the device.
    pub fn new(value: u8) -> (r: Self)
        ensures
            r == Self::decoded(value),
            r.valid(),
    {
        proof {
            assert(value >> 4 <= 0x0F && value & 0x0F <= 0x0F) by (bit_vector);
        }
        Self { ard: value >> 4, arc: value & 0x0F }
    }

    /// Encodes the register into the byte written to the device.
    pub fn to_u8(&self) -> (r: u8)
        ensures
            r == self.spec_raw(),
    {
        (self.ard << 4) | self.arc
    }
}

/// Law: decoding a SETUP_RETR byte and re-encoding it reproduces the byte
/// exactly (all eight bits are defined).
pub proof fn lemma_setup_retr_reencode(value: u8)
    ensures
        SetupRetransmitsRegister::decoded(value).spec_raw() == value,
{
    assert(((value >> 4) << 4) | (value & 0x0F) == value) by (bit_vector);
}

/// Law: every in-range SETUP_RETR register value survives an encode/decode
/// round trip.
pub proof fn lemma_setup_retr_roundtrip(c: SetupRetransmitsRegister)
    requires
        c.valid(),
    ensures
        SetupRetransmitsRegister::decoded(c.spec_raw()) == c,
{
    let a = c.ard;
    let b = c.arc;
    assert(((a << 4) | b) >> 4 == a && ((a << 4) | b) & 0x0F == b) by (bit_vector)
        requires
            a <= 0x0F && b <= 0x0F,
    ;
}

/// The RF_CH register (address 0x05): the radio channel, 0 to 127.  The
/// carrier frequency is `2400 + rf_ch` MHz.
#[derive(Clone, Copy, Debug, PartialEq, Eq, Structural)]
pub struct RFChannelRegister {
    pub rf_ch: u8,
}

impl RFChannelRegister {
    /// The register decoded from an in-range byte: the byte is the
    /// channel.
    pub open spec fn decoded(value: u8) -> RFChannelRegister {
        RFChannelRegister { rf_ch: value }
    }

    /// The channel is in the chip's range, 0 to 127.
    pub open spec fn valid(self) -> bool {
        self.rf_ch <= 0x7F
    }

    /// Builds the register from a channel number, rejecting channels the
    /// chip does not have.
    pub fn new(value: u8) -> (r: Result<Self, RegisterError>)
        ensures
            (value > 0x7F) <==> r is Err,
            r is Err ==> r->Err_0 is InvalidValue,
            r is Ok ==> r->Ok_0 == Self::decoded(value) && r->Ok_0.valid(),
    {
        if value > 0x7F {
            Err(RegisterError::InvalidValue("rf_ch"))
        } else {
            Ok(Self { rf_ch: value })
        }
    }

    /// Encodes the register into the byte written to the device.
    pub fn to_u8(&self) -> (r: u8)
        ensures
            r == self.rf_ch,
    {
        self.rf_ch
    }
}

/// Law: decoding an in-range RF_CH byte and re-encoding it reproduces the
/// byte exactly.
pub proof fn lemma_rf_ch_reencode(value: u8)
    requires
        value <= 0x7F,
    ensures
        RFChannelRegister::decoded(value).rf_ch == value,
{
}

/// Law: every in-range channel survives an encode/decode round trip.
pub proof fn lemma_rf_ch_roundtrip(c: RFChannelRegister)
    requires
        c.valid(),
    ensures
        RFChannelRegister::decoded(c.rf_ch) == c,
{
}

/// The RF_SETUP register (address 0x06): continuous-wave flag, data rate code
/// and output power code.
///
/// The data rate code packs RF_DR_LOW (bit 5 of the register) into bit 1 and
/// RF_DR_HIGH (bit 3) into bit 0: `0b00` is 1 Mbps, `0b01` is 2 Mbps and
/// `0b10` is 250 kbps.  The power code occupies register bits 2:1: `0b00` is
/// -18 dBm up to `0b11` for 0 dBm.
#[derive(Clone, Copy, Debug, PartialEq, Eq, Structural)]
pub struct RFSetupRegister {
    pub cont_wave: bool,
    pub rf_dr: u8,
    pub rf_pwr: u8,
}

impl RFSetupRegister {
    /// The register decoded from a raw byte.
    pub open spec fn decoded(value: u8) -> RFSetupRegister {
        RFSetupRegister {
            cont_wave: bit_set(value, CONT_WAVE),
            rf_dr: mask_if(bit_set(value, RF_DR_LOW), 2) | mask_if(bit_set(value, RF_DR_HIGH), 1),
            rf_pwr: (value & RF_PWR) >> 1,
        }
    }

    /// The raw byte this register encodes to.
    pub open spec fn spec_raw(self) -> u8 {
        (((self.rf_dr >> 1) << 5) | ((self.rf_dr & 1) << 3)) | mask_if(self.cont_wave, CONT_WAVE)
            | ((self.rf_pwr & 0b11) << 1)
    }

    /// Both codes are in range.
    pub open spec fn valid(self) -> bool {
        self.rf_dr <= 3 && self.rf_pwr <= 3
    }

    /// Decodes an RF_SETUP byte read from the device.
    pub fn new(value: u8) -> (r: Self)
        ensures
            r == Self::decoded(value),
            r.valid(),
    {
        proof {
            assert((value & 0x06) >> 1 <= 3) by (bit_vector);
        }
        let dr_low: u8 = if is_bit_set(value, RF_DR_LOW) { 2 } else { 0 };
        let dr_high: u8 = if is_bit_set(value, RF_DR_HIGH) { 1 } else { 0 };
        proof {
            assert((dr_low | dr_high) <= 3) by (bit_vector)
                requires
                    (dr_low == 2 || dr_low == 0) && (dr_high == 1 || dr_high == 0),
            ;
        }
        Self {
            cont_wave: is_bit_set(value, CONT_WAVE),
            rf_dr: dr_low | dr_high,
            rf_pwr: (value & RF_PWR) >> 1,
        }
    }

    /// Encodes the register into the byte written to the device.
    pub fn to_u8(&self) -> (r: u8)
        ensures
            r == self.spec_raw(),
    {
        let dr = ((self.rf_dr >> 1) << 5) | ((self.rf_dr & 1) << 3);
        let cw = if self.cont_wave { CONT_WAVE } else { 0 };
        dr | cw | ((self.rf_pwr & 0b11) << 1)
    }
}

/// Law: decoding an RF_SETUP byte and re-encoding it keeps exactly the
/// defined bits (bit 4 is PLL_LOCK, a test-mode bit this model treats as
/// reserved, and bits 0 and 6 are unused).
pub proof fn lemma_rf_setup_reencode(value: u8)
    ensures
        RFSetupRegister::decoded(value).spec_raw() == value & 0xAE,
{
    let dr: u8 = (if value & 0x20 != 0 { 2u8 } else { 0u8 }) | (if value & 0x08 != 0 {
        1u8
    } else {
        0u8
    });
    assert((((dr >> 1) << 5) | ((dr & 1) << 3)) | (if value & 0x80 != 0 { 0x80u8 } else { 0u8 }) | (
    (((value & 0x06) >> 1) & 0b11) << 1) == value & 0xAE) by (bit_vector)
        requires
            dr == (if value & 0x20 != 0 { 2u8 } else { 0u8 }) | (if value & 0x08 != 0 {
                1u8
            } else {
                0u8
            }),
    ;
}

/// Law: every in-range RF_SETUP register value survives an encode/decode
/// round trip.
pub proof fn lemma_rf_setup_roundtrip(c: RFSetupRegister)
    requires
        c.valid(),
    ensures
        RFSetupRegister::decoded(c.spec_raw()) == c,
{
    let dr = c.rf_dr;
    let pw = c.rf_pwr;
    let cw: u8 = if c.cont_wave { 0x80 } else { 0 };
    let r = (((dr >> 1) << 5) | ((dr & 1) << 3)) | cw | ((pw & 0b11) << 1);
    assert(((r & 0x80 != 0) == (cw == 0x80)) && ((if r & 0x20 != 0 { 2u8 } else { 0u8 }) | (if r
        & 0x08 != 0 { 1u8 } else { 0u8 }) == dr) && ((r & 0x06) >> 1 == pw)) by (bit_vector)
        requires
            r == ((((dr >> 1) << 5) | ((dr & 1) << 3)) | cw | ((pw & 0b11) << 1)),
            dr <= 3 && pw <= 3 && (cw == 0x80 || cw == 0),
    ;
}

/// The STATUS register (address 0x07): the three interrupt flags (cleared by
/// writing 1), the pipe number holding the next RX payload (7 when the RX
/// FIFO is empty), and the TX-FIFO-full flag.
#[derive(Clone, Copy, Debug, PartialEq, Eq, Structural)]
pub struct StatusRegister {
    pub rx_dr: bool,
    pub tx_ds: bool,
    pub max_rt: bool,
    pub rx_p_no: u8,
    pub tx_full: bool,
}

impl StatusRegister {
    /// The register decoded from a raw byte.
    pub open spec fn decoded(value: u8) -> StatusRegister {
        StatusRegister {
            rx_dr: bit_set(value, RX_DR),
            tx_ds: bit_set(value, TX_DS),
            max_rt: bit_set(value, MAX_RT),
            rx_p_no: (value & RX_P_NO) >> 1,
            tx_full: bit_set(value, TX_FULL),
        }
    }

    /// The raw byte this register encodes to.
    pub open spec fn spec_raw(self) -> u8 {
        mask_if(self.rx_dr, RX_DR) | mask_if(self.tx_ds, TX_DS) | mask_if(self.max_rt, MAX_RT) | ((
        self.rx_p_no & 0b111) << 1) | mask_if(self.tx_full, TX_FULL)
    }

    /// The pipe number fits in its three bits.
    pub open spec fn valid(self) -> bool {
        self.rx_p_no <= 7
    }

    /// Decodes a STATUS byte read from the device.
    pub fn new(value: u8) -> (r: Self)
        ensures
            r == Self::decoded(value),
            r.valid(),
    {
        proof {
            assert((value & 0x0E) >> 1 <= 7) by (bit_vector);
        }
        Self {
            rx_dr: is_bit_set(value, RX_DR),
            tx_ds: is_bit_set(value, TX_DS),
            max_rt: is_bit_set(value, MAX_RT),
            rx_p_no: (value & RX_P_NO) >> 1,
            tx_full: is_bit_set(value, TX_FULL),
        }
    }

    /// Encodes the register into the byte written to the device.
    pub fn to_u8(&self) -> (r: u8)
        ensures
            r == self.spec_raw(),
    {
        let a = if self.rx_dr { RX_DR } else { 0 };
        let b = if self.tx_ds { TX_DS } else { 0 };
        let c = if self.max_rt { MAX_RT } else { 0 };
        let e = if self.tx_full { TX_FULL } else { 0 };
        a | b | c | ((self.rx_p_no & 0b111) << 1) | e
    }
}

/// Law: decoding a STATUS byte and re-encoding it keeps exactly the defined
/// bits (bit 7 is reserved).
pub proof fn lemma_status_reencode(value: u8)
    ensures
        StatusRegister::decoded(value).spec_raw() == value & 0x7F,
{
    assert((if value & 0x40 != 0 { 0x40u8 } else { 0u8 })
        | (if value & 0x20 != 0 { 0x20u8 } else { 0u8 })
        | (if value & 0x10 != 0 { 0x10u8 } else { 0u8 }) | ((((value & 0x0E) >> 1) & 0b111) << 1)
        | (if value & 0x01 != 0 { 0x01u8 } else { 0u8 }) == value & 0x7F) by (bit_vector);
}

/// Law: every in-range STATUS register value survives an encode/decode round
/// trip.
pub proof fn lemma_status_roundtrip(c: StatusRegister)
    requires
        c.valid(),
    ensures
        StatusRegister::decoded(c.spec_raw()) == c,
{
    let ta: u8 = if c.rx_dr { 0x40 } else { 0 };
    let tb: u8 = if c.tx_ds { 0x20 } else { 0 };
    let tc: u8 = if c.max_rt { 0x10 } else { 0 };
    let te: u8 = if c.tx_full { 0x01 } else { 0 };
    let p = c.rx_p_no;
    let r = ta | tb | tc | ((p & 0b111) << 1) | te;
    assert(((r & 0x40 != 0) == (ta == 0x40)) && ((r & 0x20 != 0) == (tb == 0x20)) && ((r & 0x10
        != 0) == (tc == 0x10)) && ((r & 0x0E) >> 1 == p) && ((r & 0x01 != 0) == (te == 0x01)))
        by (bit_vector)
        requires
            r == (ta | tb | tc | ((p & 0b111) << 1) | te),
            p <= 7,
            (ta == 0x40 || ta == 0) && (tb == 0x20 || tb == 0) && (tc == 0x10 || tc == 0) && (te
                == 0x01 || te == 0),
    ;
}

/// The OBSERVE_TX register (address 0x08): lost-packet count (high nibble,
/// saturates at 15, reset by writing RF_CH) and retransmit count (low
/// nibble, reset at the start of each new packet).
#[derive(Clone, Copy, Debug, PartialEq, Eq, Structural)]
pub struct ObserveTXRegister {
    pub plos_cnt: u8,
    pub arc_cnt: u8,
}

impl ObserveTXRegister {
    /// The register decoded from a raw byte.
    pub open spec fn decoded(value: u8) -> ObserveTXRegister {
        ObserveTXRegister { plos_cnt: (value & 0xF0) >> 4, arc_cnt: value & 0x0F }
    }

    /// The raw byte this register encodes to.
    pub open spec fn spec_raw(self) -> u8 {
        (self.plos_cnt << 4) | self.arc_cnt
    }

    /// Both nibbles are in range.
    pub open spec fn valid(self) -> bool {
        self.plos_cnt <= 0x0F && self.arc_cnt <= 0x0F
    }

    /// Decodes an OBSERVE_TX byte read from the device.
    pub fn new(value: u8) -> (r: Self)
        ensures
            r == Self::decoded(value),
            r.valid(),
    {
        proof {
            assert((value & 0xF0) >> 4 <= 0x0F && value & 0x0F <= 0x0F) by (bit_vector);
        }
        Self { plos_cnt: (value & 0xF0) >> 4, arc_cnt: value & 0x0F }
    }

    /// Encodes the register into the byte it was read from.
    pub fn to_u8(&self) -> (r: u8)
        ensures
            r == self.spec_raw(),
    {
        (self.plos_cnt << 4) | self.arc_cnt
    }
}

/// Law: decoding an OBSERVE_TX byte and re-encoding it reproduces the byte
/// exactly (all eight bits are defined).
pub proof fn lemma_observe_tx_reencode(value: u8)
    ensures
        ObserveTXRegister::decoded(value).spec_raw() == value,
{
    assert((((value & 0xF0) >> 4) << 4) | (value & 0x0F) == value) by (bit_vector);
}

/// Law: every in-range OBSERVE_TX register value survives an encode/decode
/// round trip.
pub proof fn lemma_observe_tx_roundtrip(c: ObserveTXRegister)
    requires
        c.valid(),
    ensures
        ObserveTXRegister::decoded(c.spec_raw()) == c,
{
    let a = c.plos_cnt;
    let b = c.arc_cnt;
    assert((((a << 4) | b) & 0xF0) >> 4 == a && ((a << 4) | b) & 0x0F == b) by (bit_vector)
        requires
            a <= 0x0F && b <= 0x0F,
    ;
}

/// The RPD register (address 0x09): the received-power detector, a one-bit
/// carrier sense used by the channel scanner.
#[derive(Clone, Copy, Debug, PartialEq, Eq, Structural)]
pub struct RPDRegister {
    pub rpd: bool,
}

impl RPDRegister {
    /// The register decoded from a raw byte.
    pub open spec fn decoded(value: u8) -> RPDRegister {
        RPDRegister { rpd: bit_set(value, 0x01) }
    }

    /// The raw byte this register encodes to.
    pub open spec fn spec_raw(self) -> u8 {
        mask_if(self.rpd, 0x01)
    }

    /// Decodes an RPD byte read from the device.
    pub fn new(value: u8) -> (r: Self)
        ensures
            r == Self::decoded(value),
    {
        Self { rpd: is_bit_set(value, 0x01) }
    }

    /// Encodes the register into the byte it was read from.
    pub fn to_u8(&self) -> (r: u8)
        ensures
            r == self.spec_raw(),
    {
        if self.rpd {
            0x01
        } else {
            0
        }
    }
}

/// Law: decoding an RPD byte and re-encoding it keeps exactly the one
/// defined bit.
pub proof fn lemma_rpd_reencode(value: u8)
    ensures
        RPDRegister::decoded(value).spec_raw() == value & 0x01,
{
    assert((if value & 0x01 != 0 { 0x01u8 } else { 0u8 }) == value & 0x01) by (bit_vector);
}

/// Law: every RPD register value survives an encode/decode round trip.
pub proof fn lemma_rpd_roundtrip(c: RPDRegister)
    ensures
        RPDRegister::decoded(c.spec_raw()) == c,
{
    assert(0x01u8 & 0x01 != 0 && 0u8 & 0x01 == 0) by (bit_vector);
}

/// An RX or TX address register (addresses 0x0A, 0x0B and 0x10 hold 3 to 5
/// bytes; 0x0C through 0x0F hold a single byte).  Shorter addresses are kept
/// left-aligned over a zero-filled 5-byte buffer.
#[derive(Clone, Copy, Debug)]
pub struct AddressRegister {
    pub address: [u8; 5],
    pub size: u8,
}

impl AddressRegister {
    /// Builds the register from up to five address bytes.
    pub fn new(value: &[u8]) -> (r: AddressRegister)
        requires
            value@.len() <= 5,
        ensures
            r.size == value@.len(),
            forall|i: int| 0 <= i < value@.len() ==> r.address@[i] == value@[i],
            forall|i: int| value@.len() <= i < 5 ==> r.address@[i] == 0,
    {
        let mut address: [u8; 5] = [0; 5];
        let mut i: usize = 0;
        while i < value.len()
            invariant
                i <= value@.len() <= 5,
                forall|j: int| 0 <= j < i ==> address@[j] == value@[j],
                forall|j: int| i <= j < 5 ==> address@[j] == 0,
            decreases value@.len() - i,
        {
            address[i] = value[i];
            i += 1;
        }
        AddressRegister { address, size: value.len() as u8 }
    }

    /// The stored 5-byte buffer, as written to the device.
    pub fn to_slice(&self) -> (r: &[u8])
        ensures
            r@ == self.address@,
    {
        &self.address
    }
}

/// An RX_PW_Pn register (addresses 0x11 through 0x16): the static payload
/// width of one pipe, 0 (pipe unused) to 32 bytes.
#[derive(Clone, Copy, Debug, PartialEq, Eq, Structural)]
pub struct RXPayloadSizePipeRegister {
    pub width: u8,
}

impl RXPayloadSizePipeRegister {
    /// The register decoded from an in-range byte: the byte is the width.
    pub open spec fn decoded(value: u8) -> RXPayloadSizePipeRegister {
        RXPayloadSizePipeRegister { width: value }
    }

    /// The width is in the chip's range: 0 (pipe unused) to 32 bytes.
    pub open spec fn valid(self) -> bool {
        self.width <= 32
    }

    /// Builds the register from a payload width, rejecting widths above
    /// the chip's 32-byte maximum.
    pub fn new(value: u8) -> (r: Result<Self, RegisterError>)
        ensures
            (value > 32) <==> r is Err,
            r is Err ==> r->Err_0 is InvalidValue,
            r is Ok ==> r->Ok_0 == Self::decoded(value) && r->Ok_0.valid(),
    {
        if value > 32 {
            Err(RegisterError::InvalidValue("width"))
        } else {
            Ok(Self { width: value })
        }
    }

    /// Encodes the register into the byte written to the device.
    pub fn to_u8(&self) -> (r: u8)
        ensures
            r == self.width,
    {
        self.width
    }
}

/// Law: decoding an in-range RX_PW_Pn byte and re-encoding it reproduces
/// the byte exactly.
pub proof fn lemma_rx_pw_reencode(value: u8)
    requires
        value <= 32,
    ensures
        RXPayloadSizePipeRegister::decoded(value).width == value,
{
}

/// Law: every in-range payload width survives an encode/decode round trip.
pub proof fn lemma_rx_pw_roundtrip(c: RXPayloadSizePipeRegister)
    requires
        c.valid(),
    ensures
        RXPayloadSizePipeRegister::decoded(c.width) == c,
{
}

/// The FIFO_STATUS register (address 0x17): fill flags of the TX and RX
/// FIFOs and the payload-reuse flag.
#[derive(Clone, Copy, Debug, PartialEq, Eq, Structural)]
pub struct FIFOStatusRegister {
    pub tx_reuse: bool,
    pub tx_full: bool,
    pub tx_empty: bool,
    pub rx_full: bool,
    pub rx_empty: bool,
}

impl FIFOStatusRegister {
    /// The register decoded from a raw byte.
    pub open spec fn decoded(value: u8) -> FIFOStatusRegister {
        FIFOStatusRegister {
            tx_reuse: bit_set(value, TX_REUSE),
            tx_full: bit_set(value, FIFO_FULL),
            tx_empty: bit_set(value, TX_EMPTY),
            rx_full: bit_set(value, RX_FULL),
            rx_empty: bit_set(value, RX_EMPTY),
        }
    }

    /// The raw byte this register encodes to.
    pub open spec fn spec_raw(self) -> u8 {
        mask_if(self.tx_reuse, TX_REUSE) | mask_if(self.tx_full, FIFO_FULL)
            | mask_if(self.tx_empty, TX_EMPTY) | mask_if(self.rx_full, RX_FULL)
            | mask_if(self.rx_empty, RX_EMPTY)
    }

    /// Decodes a FIFO_STATUS byte read from the device.
    pub fn new(value: u8) -> (r: Self)
        ensures
            r == Self::decoded(value),
    {
        Self {
            tx_reuse: is_bit_set(value, TX_REUSE),
            tx_full: is_bit_set(value, FIFO_FULL),
            tx_empty: is_bit_set(value, TX_EMPTY),
            rx_full: is_bit_set(value, RX_FULL),
            rx_empty: is_bit_set(value, RX_EMPTY),
        }
    }

    /// Encodes the register into the byte it was read from.
    pub fn to_u8(&self) -> (r: u8)
        ensures
            r == self.spec_raw(),
    {
        let a = if self.tx_reuse { TX_REUSE } else { 0 };
        let b = if self.tx_full { FIFO_FULL } else { 0 };
        let c = if self.tx_empty { TX_EMPTY } else { 0 };
        let d = if self.rx_full { RX_FULL } else { 0 };
        let e = if self.rx_empty { RX_EMPTY } else { 0 };
        a | b | c | d | e
    }
}

/// Law: decoding a FIFO_STATUS byte and re-encoding it keeps exactly the
/// defined bits (bits 2, 3 and 7 are reserved).
pub proof fn lemma_fifo_status_reencode(value: u8)
    ensures
        FIFOStatusRegister::decoded(value).spec_raw() == value & 0x73,
{
    assert((if value & 0x40 != 0 { 0x40u8 } else { 0u8 })
        | (if value & 0x20 != 0 { 0x20u8 } else { 0u8 })
        | (if value & 0x10 != 0 { 0x10u8 } else { 0u8 })
        | (if value & 0x02 != 0 { 0x02u8 } else { 0u8 })
        | (if value & 0x01 != 0 { 0x01u8 } else { 0u8 }) == value & 0x73) by (bit_vector);
}

/// Law: every FIFO_STATUS register value survives an encode/decode round
/// trip.
pub proof fn lemma_fifo_status_roundtrip(c: FIFOStatusRegister)
    ensures
        FIFOStatusRegister::decoded(c.spec_raw()) == c,
{
    let ta: u8 = if c.tx_reuse { 0x40 } else { 0 };
    let tb: u8 = if c.tx_full { 0x20 } else { 0 };
    let tc: u8 = if c.tx_empty { 0x10 } else { 0 };
    let td: u8 = if c.rx_full { 0x02 } else { 0 };
    let te: u8 = if c.rx_empty { 0x01 } else { 0 };
    let r = ta | tb | tc | td | te;
    assert(((r & 0x40 != 0) == (ta == 0x40)) && ((r & 0x20 != 0) == (tb == 0x20)) && ((r & 0x10
        != 0) == (tc == 0x10)) && ((r & 0x02 != 0) == (td == 0x02)) && ((r & 0x01 != 0) == (te
        == 0x01))) by (bit_vector)
        requires
            r == (ta | tb | tc | td | te),
            (ta == 0x40 || ta == 0) && (tb == 0x20 || tb == 0) && (tc == 0x10 || tc == 0) && (td
                == 0x02 || td == 0) && (te == 0x01 || te == 0),
    ;
}

/// The DYNPD register (address 0x1C): per-pipe dynamic-payload-length
/// enables.
#[derive(Clone, Copy, Debug, PartialEq, Eq, Structural)]
pub struct DynamicPayloadRegister {
    pub dpl_p5: bool,
    pub dpl_p4: bool,
    pub dpl_p3: bool,
    pub dpl_p2: bool,
    pub dpl_p1: bool,
    pub dpl_p0: bool,
}

impl DynamicPayloadRegister {
    /// The register decoded from a raw byte.
    pub open spec fn decoded(value: u8) -> DynamicPayloadRegister {
        DynamicPayloadRegister {
            dpl_p5: bit_set(value, DPL_P5),
            dpl_p4: bit_set(value, DPL_P4),
            dpl_p3: bit_set(value, DPL_P3),
            dpl_p2: bit_set(value, DPL_P2),
            dpl_p1: bit_set(value, DPL_P1),
            dpl_p0: bit_set(value, DPL_P0),
        }
    }

    /// The raw byte this register encodes to.
    pub open spec fn spec_raw(self) -> u8 {
        mask_if(self.dpl_p5, DPL_P5) | mask_if(self.dpl_p4, DPL_P4) | mask_if(self.dpl_p3, DPL_P3)
            | mask_if(self.dpl_p2, DPL_P2) | mask_if(self.dpl_p1, DPL_P1)
            | mask_if(self.dpl_p0, DPL_P0)
    }

    /// Decodes a DYNPD byte read from the device.
    pub fn new(value: u8) -> (r: Self)
        ensures
            r == Self::decoded(value),
    {
        Self {
            dpl_p5: is_bit_set(value, DPL_P5),
            dpl_p4: is_bit_set(value, DPL_P4),
            dpl_p3: is_bit_set(value, DPL_P3),
            dpl_p2: is_bit_set(value, DPL_P2),
            dpl_p1: is_bit_set(value, DPL_P1),
            dpl_p0: is_bit_set(value, DPL_P0),
        }
    }

    /// Encodes the register into the byte written to the device.
    pub fn to_u8(&self) -> (r: u8)
        ensures
            r == self.spec_raw(),
    {
        let a = if self.dpl_p5 { DPL_P5 } else { 0 };
        let b = if self.dpl_p4 { DPL_P4 } else { 0 };
        let c = if self.dpl_p3 { DPL_P3 } else { 0 };
        let d = if self.dpl_p2 { DPL_P2 } else { 0 };
        let e = if self.dpl_p1 { DPL_P1 } else { 0 };
        let f = if self.dpl_p0 { DPL_P0 } else { 0 };
        a | b | c | d | e | f
    }
}

/// Law: decoding a DYNPD byte and re-encoding it keeps exactly the defined
/// bits (bits 6 and 7 are reserved).
pub proof fn lemma_dynpd_reencode(value: u8)
    ensures
        DynamicPayloadRegister::decoded(value).spec_raw() == value & 0x3F,
{
    assert((if value & 0x20 != 0 { 0x20u8 } else { 0u8 })
        | (if value & 0x10 != 0 { 0x10u8 } else { 0u8 })
        | (if value & 0x08 != 0 { 0x08u8 } else { 0u8 })
        | (if value & 0x04 != 0 { 0x04u8 } else { 0u8 })
        | (if value & 0x02 != 0 { 0x02u8 } else { 0u8 })
        | (if value & 0x01 != 0 { 0x01u8 } else { 0u8 }) == value & 0x3F) by (bit_vector);
}

/// Law: every DYNPD register value survives an encode/decode round trip.
pub proof fn lemma_dynpd_roundtrip(c: DynamicPayloadRegister)
    ensures
        DynamicPayloadRegister::decoded(c.spec_raw()) == c,
{
    let ta: u8 = if c.dpl_p5 { 0x20 } else { 0 };
    let tb: u8 = if c.dpl_p4 { 0x10 } else { 0 };
    let tc: u8 = if c.dpl_p3 { 0x08 } else { 0 };
    let td: u8 = if c.dpl_p2 { 0x04 } else { 0 };
    let te: u8 = if c.dpl_p1 { 0x02 } else { 0 };
    let tf: u8 = if c.dpl_p0 { 0x01 } else { 0 };
    let r = ta | tb | tc | td | te | tf;
    assert(((r & 0x20 != 0) == (ta == 0x20)) && ((r & 0x10 != 0) == (tb == 0x10)) && ((r & 0x08
        != 0) == (tc == 0x08)) && ((r & 0x04 != 0) == (td == 0x04)) && ((r & 0x02 != 0) == (te
        == 0x02)) && ((r & 0x01 != 0) == (tf == 0x01))) by (bit_vector)
        requires
            r == (ta | tb | tc | td | te | tf),
            (ta == 0x20 || ta == 0) && (tb == 0x10 || tb == 0) && (tc == 0x08 || tc == 0) && (td
                == 0x04 || td == 0) && (te == 0x02 || te == 0) && (tf == 0x01 || tf == 0),
    ;
}

/// The FEATURE register (address 0x1D): dynamic payload length, ACK payload
/// and no-ACK command enables.
#[derive(Clone, Copy, Debug, PartialEq, Eq, Structural)]
pub struct FeatureRegister {
    pub en_dpl: bool,
    pub en_ack_pay: bool,
    pub en_dyn_ack: bool,
}

impl FeatureRegister {
    /// The register decoded from a raw byte.
    pub open spec fn decoded(value: u8) -> FeatureRegister {
        FeatureRegister {
            en_dpl: bit_set(value, EN_DPL),
            en_ack_pay: bit_set(value, EN_ACK_PAY),
            en_dyn_ack: bit_set(value, EN_DYN_ACK),
        }
    }

    /// The raw byte this register encodes to.
    pub open spec fn spec_raw(self) -> u8 {
        mask_if(self.en_dpl, EN_DPL) | mask_if(self.en_ack_pay, EN_ACK_PAY)
            | mask_if(self.en_dyn_ack, EN_DYN_ACK)
    }

    /// Decodes a FEATURE byte read from the device.
    pub fn new(value: u8) -> (r: Self)
        ensures
            r == Self::decoded(value),
    {
        Self {
            en_dpl: is_bit_set(value, EN_DPL),
            en_ack_pay: is_bit_set(value, EN_ACK_PAY),
            en_dyn_ack: is_bit_set(value, EN_DYN_ACK),
        }
    }

    /// Encodes the register into the byte written to the device.
    pub fn to_u8(&self) -> (r: u8)
        ensures
            r == self.spec_raw(),
    {
        let a = if self.en_dpl { EN_DPL } else { 0 };
        let b = if self.en_ack_pay { EN_ACK_PAY } else { 0 };
        let c = if self.en_dyn_ack { EN_DYN_ACK } else { 0 };
        a | b | c
    }
}

/// Law: decoding a FEATURE byte and re-encoding it keeps exactly the defined
/// bits (bits 3 through 7 are reserved).
pub proof fn lemma_feature_reencode(value: u8)
    ensures
        FeatureRegister::decoded(value).spec_raw() == value & 0x07,
{
    assert((if value & 0x04 != 0 { 0x04u8 } else { 0u8 })
        | (if value & 0x02 != 0 { 0x02u8 } else { 0u8 })
        | (if value & 0x01 != 0 { 0x01u8 } else { 0u8 }) == value & 0x07) by (bit_vector);
}

/// Law: every FEATURE register value survives an encode/decode round trip.
pub proof fn lemma_feature_roundtrip(c: FeatureRegister)
    ensures
        FeatureRegister::decoded(c.spec_raw()) == c,
{
    let ta: u8 = if c.en_dpl { 0x04 } else { 0 };
    let tb: u8 = if c.en_ack_pay { 0x02 } else { 0 };
    let tc: u8 = if c.en_dyn_ack { 0x01 } else { 0 };
    let r = ta | tb | tc;
    assert(((r & 0x04 != 0) == (ta == 0x04)) && ((r & 0x02 != 0) == (tb == 0x02)) && ((r & 0x01
        != 0) == (tc == 0x01))) by (bit_vector)
        requires
            r == (ta | tb | tc),
            (ta == 0x04 || ta == 0) && (tb == 0x02 || tb == 0) && (tc == 0x01 || tc == 0),
    ;
}

} // verus!
