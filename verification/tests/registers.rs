//! Byte-level checks of the register codecs: decode/encode round trips on
//! concrete values, defined-bit masking, and construction-time validation.

use nrf24::registers::ConfigRegister;
use nrf24::registers::DynamicPayloadRegister;
use nrf24::registers::EnableAutoAcknowledgmentRegister;
use nrf24::registers::EnableRXAddressesRegister;
use nrf24::registers::FIFOStatusRegister;
use nrf24::registers::FeatureRegister;
use nrf24::registers::ObserveTXRegister;
use nrf24::registers::RFChannelRegister;
use nrf24::registers::RFSetupRegister;
use nrf24::registers::RPDRegister;
use nrf24::registers::RXPayloadSizePipeRegister;
use nrf24::registers::RegisterError;
use nrf24::registers::SetupAddressWidthsRegister;
use nrf24::registers::SetupRetransmitsRegister;
use nrf24::registers::StatusRegister;
use nrf24::registers::AddressRegister;
use nrf24::registers::is_bit_set;
use nrf24::protocol::Command;
use nrf24::protocol::Register;

#[test]
fn bit_probe() {
    assert!(is_bit_set(0x40, 0x40));
    assert!(!is_bit_set(0x3F, 0x40));
    assert!(is_bit_set(0xFF, 0x01));
}

#[test]
fn config_decode_fields() {
    let c = ConfigRegister::new(0x7E);
    assert!(c.mask_rx_dr() && c.mask_tx_ds() && c.mask_max_rt());
    assert!(c.en_crc() && c.crc0() && c.pwr_up());
    assert!(!c.prim_rx());
}

#[test]
fn config_roundtrip_bytes() {
    for raw in [0x00u8, 0x0E, 0x7C, 0x7E, 0x7F, 0x55, 0x2A] {
        assert_eq!(ConfigRegister::new(raw).to_u8(), raw);
    }
    // bit 7 is reserved and drops out
    assert_eq!(ConfigRegister::new(0xFF).to_u8(), 0x7F);
    assert_eq!(ConfigRegister::new(0x80).to_u8(), 0x00);
}

#[test]
fn config_setters_and_getters() {
    let mut c = ConfigRegister::new(0x00);
    c.set_mask_rx_dr(true);
    c.set_mask_tx_ds(true);
    c.set_mask_max_rt(true);
    c.set_en_crc(true);
    c.set_crc0(true);
    c.set_pwr_up(true);
    c.set_prim_rx(true);
    assert_eq!(c.to_u8(), 0x7F);
    c.set_prim_rx(false);
    assert!(!c.prim_rx());
    assert_eq!(c.to_u8(), 0x7E);
}

#[test]
fn en_aa_roundtrip() {
    assert_eq!(EnableAutoAcknowledgmentRegister::new(0x3F).to_u8(), 0x3F);
    assert_eq!(EnableAutoAcknowledgmentRegister::new(0x00).to_u8(), 0x00);
    assert_eq!(EnableAutoAcknowledgmentRegister::new(0x15).to_u8(), 0x15);
    // bits 6 and 7 are reserved
    assert_eq!(EnableAutoAcknowledgmentRegister::new(0xFF).to_u8(), 0x3F);
}

#[test]
fn en_rxaddr_roundtrip() {
    assert_eq!(EnableRXAddressesRegister::new(0x03).to_u8(), 0x03);
    assert_eq!(EnableRXAddressesRegister::new(0x2A).to_u8(), 0x2A);
    assert_eq!(EnableRXAddressesRegister::new(0xC0).to_u8(), 0x00);
}

#[test]
fn setup_aw_validation() {
    assert!(matches!(
        SetupAddressWidthsRegister::new(0),
        Err(RegisterError::InvalidValue("aw"))
    ));
    assert!(matches!(
        SetupAddressWidthsRegister::new(4),
        Err(RegisterError::InvalidValue("aw"))
    ));
    for code in 1u8..=3 {
        let r = SetupAddressWidthsRegister::new(code).unwrap();
        assert_eq!(r.to_u8(), code);
    }
}

#[test]
fn setup_retr_nibbles() {
    // delay code in the high nibble, retransmit count in the low nibble
    let r = SetupRetransmitsRegister::new(0xA5);
    assert_eq!(r.ard, 0x0A);
    assert_eq!(r.arc, 0x05);
    assert_eq!(r.to_u8(), 0xA5);
    assert_eq!(SetupRetransmitsRegister::new(0x00).to_u8(), 0x00);
    assert_eq!(SetupRetransmitsRegister::new(0xFF).to_u8(), 0xFF);
}

#[test]
fn rf_channel_validates_its_range() {
    assert_eq!(RFChannelRegister::new(0x02).unwrap().to_u8(), 0x02);
    assert_eq!(RFChannelRegister::new(125).unwrap().to_u8(), 125);
    assert_eq!(RFChannelRegister::new(127).unwrap().to_u8(), 127);
    assert!(matches!(
        RFChannelRegister::new(128),
        Err(RegisterError::InvalidValue("rf_ch"))
    ));
    assert!(matches!(
        RFChannelRegister::new(0xFF),
        Err(RegisterError::InvalidValue("rf_ch"))
    ));
}

#[test]
fn rf_setup_codec() {
    // 0x26: 250 kbps (bit 5), 0 dBm (bits 2:1)
    let r = RFSetupRegister::new(0x26);
    assert!(!r.cont_wave);
    assert_eq!(r.rf_dr, 0b10);
    assert_eq!(r.rf_pwr, 0b11);
    assert_eq!(r.to_u8(), 0x26);
    // 0x0E: 2 Mbps (bit 3), 0 dBm
    let r = RFSetupRegister::new(0x0E);
    assert_eq!(r.rf_dr, 0b01);
    assert_eq!(r.rf_pwr, 0b11);
    assert_eq!(r.to_u8(), 0x0E);
    // continuous wave flag survives
    let r = RFSetupRegister::new(0x80);
    assert!(r.cont_wave);
    assert_eq!(r.to_u8(), 0x80);
    // PLL_LOCK (bit 4) and the unused bits 0 and 6 drop out
    assert_eq!(RFSetupRegister::new(0x51).to_u8(), 0x00);
}

#[test]
fn status_codec() {
    let s = StatusRegister::new(0x5E);
    assert!(s.rx_dr && !s.tx_ds && s.max_rt);
    assert_eq!(s.rx_p_no, 0x07);
    assert!(!s.tx_full);
    assert_eq!(s.to_u8(), 0x5E);
    let s = StatusRegister::new(0x0F);
    assert_eq!(s.rx_p_no, 0x07);
    assert!(s.tx_full);
    assert_eq!(StatusRegister::new(0xFF).to_u8(), 0x7F);
}

#[test]
fn observe_tx_counters() {
    let o = ObserveTXRegister::new(0xC4);
    assert_eq!(o.plos_cnt, 0x0C);
    assert_eq!(o.arc_cnt, 0x04);
    assert_eq!(o.to_u8(), 0xC4);
}

#[test]
fn rpd_single_bit() {
    assert!(RPDRegister::new(0x01).rpd);
    assert!(!RPDRegister::new(0x00).rpd);
    assert!(RPDRegister::new(0xFF).rpd);
    assert_eq!(RPDRegister::new(0xFF).to_u8(), 0x01);
}

#[test]
fn rx_payload_width_validates_its_range() {
    assert_eq!(RXPayloadSizePipeRegister::new(0).unwrap().to_u8(), 0);
    assert_eq!(RXPayloadSizePipeRegister::new(13).unwrap().to_u8(), 13);
    assert_eq!(RXPayloadSizePipeRegister::new(32).unwrap().to_u8(), 32);
    assert!(matches!(
        RXPayloadSizePipeRegister::new(33),
        Err(RegisterError::InvalidValue("width"))
    ));
    assert!(matches!(
        RXPayloadSizePipeRegister::new(0xFF),
        Err(RegisterError::InvalidValue("width"))
    ));
}

#[test]
fn fifo_status_codec() {
    let f = FIFOStatusRegister::new(0x11);
    assert!(f.tx_empty && f.rx_empty);
    assert!(!f.tx_reuse && !f.tx_full && !f.rx_full);
    assert_eq!(f.to_u8(), 0x11);
    assert_eq!(FIFOStatusRegister::new(0xFF).to_u8(), 0x73);
}

#[test]
fn dynpd_roundtrip() {
    assert_eq!(DynamicPayloadRegister::new(0x3F).to_u8(), 0x3F);
    assert_eq!(DynamicPayloadRegister::new(0x2A).to_u8(), 0x2A);
    assert_eq!(DynamicPayloadRegister::new(0xC0).to_u8(), 0x00);
}

#[test]
fn feature_roundtrip() {
    let f = FeatureRegister::new(0x07);
    assert!(f.en_dpl && f.en_ack_pay && f.en_dyn_ack);
    assert_eq!(f.to_u8(), 0x07);
    assert_eq!(FeatureRegister::new(0xF8).to_u8(), 0x00);
}

#[test]
fn address_register_pads_with_zeros() {
    let a = AddressRegister::new(&[0xE7, 0xE7, 0xE7]);
    assert_eq!(a.size, 3);
    assert_eq!(a.to_slice(), &[0xE7, 0xE7, 0xE7, 0x00, 0x00]);
    let full = AddressRegister::new(&[1, 2, 3, 4, 5]);
    assert_eq!(full.size, 5);
    assert_eq!(full.to_slice(), &[1, 2, 3, 4, 5]);
}

#[test]
fn commands_and_register_addresses_are_bit_exact() {
    assert_eq!(Command::R_REGISTER.value(), 0x00);
    assert_eq!(Command::W_REGISTER.value(), 0x20);
    assert_eq!(Command::W_TX_PAYLOAD.value(), 0xA0);
    assert_eq!(Command::W_TX_PAYLOAD_NOACK.value(), 0xB0);
    assert_eq!(Command::FLUSH_TX.value(), 0xE1);
    assert_eq!(Command::FLUSH_RX.value(), 0xE2);
    assert_eq!(Command::NOP.value(), 0xFF);
    assert_eq!(Register::CONFIG.addr(), 0x00);
    assert_eq!(Register::RF_CH.addr(), 0x05);
    assert_eq!(Register::STATUS.addr(), 0x07);
    assert_eq!(Register::RX_ADDR_P0.addr(), 0x0A);
    assert_eq!(Register::TX_ADDR.addr(), 0x10);
    assert_eq!(Register::FIFO_STATUS.addr(), 0x17);
    assert_eq!(Register::DYNPD.addr(), 0x1C);
    assert_eq!(Register::FEATURE.addr(), 0x1D);
}
