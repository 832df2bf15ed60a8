//! End-to-end driver scenarios, run against the simulated chip: every SPI
//! frame, CE edge and delay the driver produces is inspected through the
//! simulator's event log and register state.

use nrf24::protocol::DataRate;
use nrf24::protocol::PowerLevel;
use nrf24::protocol::Register;
use nrf24::radio::Mode;
use nrf24::radio::Radio;
use nrf24::rf24::Link;
use nrf24::rf24::RF24Error;
use nrf24::sim::Event;
use nrf24::sim::SimChip;

fn sim_radio(address: &[u8], channel: u8) -> Radio {
    Radio::with_link(
        Link::Sim(SimChip::new()),
        address,
        DataRate::_250Kbps,
        PowerLevel::_0dBm,
        channel,
    )
    .unwrap()
}

fn sim(radio: &Radio) -> &SimChip {
    match &radio.link {
        Link::Sim(s) => s,
        Link::Hw(_) => panic!("expected a simulator link"),
    }
}

fn sim_mut(radio: &mut Radio) -> &mut SimChip {
    match &mut radio.link {
        Link::Sim(s) => s,
        Link::Hw(_) => panic!("expected a simulator link"),
    }
}

#[test]
fn channel_rejected_above_127_and_read_back_below() {
    let mut radio = sim_radio(b"aaaaa", 2);
    for ch in [128u8, 200, 255] {
        assert!(matches!(
            radio.set_channel(ch),
            Err(RF24Error::InvalidChannel)
        ));
    }
    for ch in [0u8, 1, 76, 125, 127] {
        radio.set_channel(ch).unwrap();
        assert_eq!(radio.channel(), ch);
        // reflected by an actual register read over the bus
        assert_eq!(radio.read_register(Register::RF_CH).unwrap(), ch);
    }
}

#[test]
fn address_rejected_unless_five_bytes() {
    let mut radio = sim_radio(b"aaaaa", 2);
    assert!(matches!(
        radio.set_address(b"aaaa"),
        Err(RF24Error::InvalidAddressWidth)
    ));
    assert!(matches!(
        radio.set_address(b"aaaaaa"),
        Err(RF24Error::InvalidAddressWidth)
    ));
    assert!(matches!(
        radio.set_address(b""),
        Err(RF24Error::InvalidAddressWidth)
    ));
    radio.set_address(&[0xDE, 0xAD, 0xBE, 0xEF, 0x42]).unwrap();
    assert_eq!(radio.rx_address(0).unwrap(), [0xDE, 0xAD, 0xBE, 0xEF, 0x42]);
    assert_eq!(radio.tx_address().unwrap(), [0xDE, 0xAD, 0xBE, 0xEF, 0x42]);
}

#[test]
fn with_link_validates_before_any_traffic() {
    let r = Radio::with_link(
        Link::Sim(SimChip::new()),
        b"aaaa",
        DataRate::_1Mbps,
        PowerLevel::_18dBm,
        2,
    );
    assert!(matches!(r, Err(RF24Error::InvalidAddressWidth)));
    let r = Radio::with_link(
        Link::Sim(SimChip::new()),
        b"aaaaa",
        DataRate::_1Mbps,
        PowerLevel::_18dBm,
        200,
    );
    assert!(matches!(r, Err(RF24Error::InvalidChannel)));
}

#[test]
fn configure_clears_interrupts_and_powers_up() {
    let mut radio = sim_radio(b"aaaaa", 76);
    // make the interrupt flags dirty first
    {
        let chip = sim_mut(&mut radio);
        chip.rx_dr = true;
        chip.tx_ds = true;
        chip.max_rt = true;
    }
    radio.configure().unwrap();
    let status = radio.read_register(Register::STATUS).unwrap();
    assert_eq!(status & 0x70, 0, "interrupt flags must read as cleared");
    let config = radio.read_register(Register::CONFIG).unwrap();
    assert_eq!(config & 0x02, 0x02, "PWR_UP must read as set");
    assert_eq!(config, 0x7E);
    // auto-ack off, no features, static width 13 on every pipe
    assert_eq!(radio.read_register(Register::EN_AA).unwrap(), 0);
    assert_eq!(radio.read_register(Register::FEATURE).unwrap(), 0);
    for reg in [
        Register::RX_PW_P0,
        Register::RX_PW_P1,
        Register::RX_PW_P2,
        Register::RX_PW_P3,
        Register::RX_PW_P4,
        Register::RX_PW_P5,
    ] {
        assert_eq!(radio.read_register(reg).unwrap(), 13);
    }
    assert_eq!(sim(&radio).tx_fifo, 0);
    assert_eq!(sim(&radio).rx_fifo, 0);
}

#[test]
fn full_setup_reads_back() {
    // configure with address "aaaaa", channel 125, 250 kbps, 0 dBm
    let mut radio = sim_radio(b"aaaaa", 125);
    radio.configure().unwrap();
    assert_eq!(radio.channel(), 125);
    assert_eq!(radio.read_register(Register::RF_CH).unwrap(), 125);
    assert_eq!(radio.rx_address(0).unwrap(), [0x61; 5]);
    assert_eq!(radio.tx_address().unwrap(), [0x61; 5]);
    // 250 kbps sets RF_DR_LOW (0x20); 0 dBm sets bits 2:1 (0x06)
    assert_eq!(radio.read_register(Register::RF_SETUP).unwrap(), 0x26);
}

#[test]
fn send_writes_one_payload_then_pulses_ce_then_clears_status() {
    let mut radio = sim_radio(b"aaaaa", 76);
    radio.configure().unwrap();
    let start = sim(&radio).events.len();
    radio.send(&[0x05]).unwrap();
    let events = &sim(&radio).events[start..];

    // exactly one W_TX_PAYLOAD command went over the bus
    let payload_frames: Vec<&Vec<u8>> = events
        .iter()
        .filter_map(|e| match e {
            Event::Frame(f) if f.first() == Some(&0xA0) => Some(f),
            _ => None,
        })
        .collect();
    assert_eq!(payload_frames.len(), 1);
    assert_eq!(payload_frames[0].as_slice(), &[0xA0, 0x05]);

    // ... followed by a CE pulse of at least 10 us, then a STATUS clear
    let at = events
        .iter()
        .position(|e| matches!(e, Event::Frame(f) if f.first() == Some(&0xA0)))
        .unwrap();
    assert_eq!(events[at + 1], Event::CeHigh);
    match events[at + 2] {
        Event::DelayUs(us) => assert!(us >= 10),
        _ => panic!("expected a delay between the CE edges"),
    }
    assert_eq!(events[at + 3], Event::CeLow);
    assert_eq!(events[at + 4], Event::Frame(vec![0x27, 0x70]));

    // the payload sits in the TX FIFO and the driver is back in standby
    assert_eq!(sim(&radio).tx_fifo, 1);
    assert!(matches!(radio.mode, Mode::Standby));
}

#[test]
fn send_rejects_bad_payload_sizes() {
    let mut radio = sim_radio(b"aaaaa", 76);
    radio.configure().unwrap();
    assert!(matches!(
        radio.send(&[]),
        Err(RF24Error::InvalidPayloadSize)
    ));
    assert!(matches!(
        radio.send(&[0u8; 33]),
        Err(RF24Error::InvalidPayloadSize)
    ));
    radio.send(&[0u8; 32]).unwrap();
}

#[test]
fn send_times_out_on_a_stuck_full_fifo() {
    let mut radio = sim_radio(b"aaaaa", 76);
    radio.configure().unwrap();
    sim_mut(&mut radio).tx_fifo = 3;
    assert!(matches!(radio.send(&[0x05]), Err(RF24Error::Timeout)));
}

#[test]
fn listening_drives_ce_and_prim_rx_together() {
    let mut radio = sim_radio(b"aaaaa", 76);
    radio.configure().unwrap();
    radio.start_listening().unwrap();
    assert!(matches!(radio.mode, Mode::Listening));
    assert!(sim(&radio).ce_high);
    let config = radio.read_register(Register::CONFIG).unwrap();
    assert_eq!(config & 0x01, 0x01, "PRIM_RX set while listening");
    assert_eq!(config & 0x02, 0x02, "PWR_UP set while listening");

    radio.stop_listening().unwrap();
    assert!(matches!(radio.mode, Mode::Standby));
    assert!(!sim(&radio).ce_high);
    let config = radio.read_register(Register::CONFIG).unwrap();
    assert_eq!(config & 0x01, 0, "PRIM_RX clear after stop_listening");
    assert_eq!(sim(&radio).tx_fifo, 0, "TX FIFO flushed on the way out");
}

#[test]
fn scan_counts_are_bounded_by_the_pass_count() {
    let mut radio = sim_radio(b"aaaaa", 76);
    radio.configure().unwrap();

    // a quiet band: no channel ever shows carrier
    let counts = radio.scan(2).unwrap();
    assert_eq!(counts.len(), 126);
    assert!(counts.iter().all(|&c| c == 0));

    // a saturated band: every sample sees carrier, so every channel hits
    // the pass count exactly
    sim_mut(&mut radio).rpd = true;
    let counts = radio.scan(3).unwrap();
    assert_eq!(counts.len(), 126);
    assert!(counts.iter().all(|&c| c == 3));

    // the sweep leaves the chip in standby on the last channel tuned,
    // with the configured CONFIG value intact
    assert_eq!(radio.channel(), 125);
    assert_eq!(radio.read_register(Register::RF_CH).unwrap(), 125);
    assert_eq!(radio.read_register(Register::CONFIG).unwrap(), 0x7E);
    assert!(!sim(&radio).ce_high);

    // zero passes sample nothing
    let counts = radio.scan(0).unwrap();
    assert!(counts.iter().all(|&c| c == 0));
}

#[test]
fn pipe_2_aliases_pipe_1_high_bytes() {
    let mut radio = sim_radio(b"aaaaa", 76);
    // pipe 1 still holds its reset address 0xC2 x5
    radio.set_pipe_address_lsb(2, 0xC3).unwrap();
    let p1 = radio.rx_address(1).unwrap();
    let p2 = radio.rx_address(2).unwrap();
    assert_eq!(p1, [0xC2, 0xC2, 0xC2, 0xC2, 0xC2]);
    assert_eq!(p2, [p1[0], p1[1], p1[2], p1[3], 0xC3]);
}

#[test]
fn pipe_lsb_writes_validate_the_pipe() {
    let mut radio = sim_radio(b"aaaaa", 76);
    assert!(matches!(
        radio.set_pipe_address_lsb(0, 0x11),
        Err(RF24Error::InvalidPipe)
    ));
    assert!(matches!(
        radio.set_pipe_address_lsb(1, 0x11),
        Err(RF24Error::InvalidPipe)
    ));
    assert!(matches!(
        radio.set_pipe_address_lsb(6, 0x11),
        Err(RF24Error::InvalidPipe)
    ));
    for (pipe, lsb) in [(2u8, 0xC3u8), (3, 0xC4), (4, 0xC5), (5, 0xC6)] {
        radio.set_pipe_address_lsb(pipe, lsb).unwrap();
        assert_eq!(radio.rx_address(pipe).unwrap()[4], lsb);
    }
}

#[test]
fn rx_address_validates_the_pipe() {
    let mut radio = sim_radio(b"aaaaa", 76);
    assert!(matches!(radio.rx_address(6), Err(RF24Error::InvalidPipe)));
    assert!(matches!(radio.rx_address(255), Err(RF24Error::InvalidPipe)));
}

#[test]
fn payload_size_validates_and_programs_every_pipe() {
    let mut radio = sim_radio(b"aaaaa", 76);
    assert!(matches!(
        radio.set_payload_size(33),
        Err(RF24Error::InvalidPayloadSize)
    ));
    radio.set_payload_size(32).unwrap();
    assert_eq!(radio.read_register(Register::RX_PW_P0).unwrap(), 32);
    assert_eq!(radio.read_register(Register::RX_PW_P5).unwrap(), 32);
}

#[test]
fn auto_ack_and_features_toggle() {
    let mut radio = sim_radio(b"aaaaa", 76);
    radio.set_auto_ack(false).unwrap();
    assert_eq!(radio.read_register(Register::EN_AA).unwrap(), 0);
    radio.set_auto_ack(true).unwrap();
    assert_eq!(radio.read_register(Register::EN_AA).unwrap(), 0x3F);
    radio.set_dynamic_payload(true).unwrap();
    assert_eq!(radio.read_register(Register::DYNPD).unwrap(), 0x3F);
    radio.set_feature(0x07).unwrap();
    assert_eq!(radio.read_register(Register::FEATURE).unwrap(), 0x07);
}

#[test]
fn power_bit_toggles_without_touching_the_rest() {
    let mut radio = sim_radio(b"aaaaa", 76);
    radio.configure().unwrap();
    radio.power_down().unwrap();
    assert_eq!(radio.read_register(Register::CONFIG).unwrap(), 0x7C);
    radio.power_up().unwrap();
    assert_eq!(radio.read_register(Register::CONFIG).unwrap(), 0x7E);
}

#[test]
fn received_power_detector_follows_the_carrier_bit() {
    let mut radio = sim_radio(b"aaaaa", 76);
    assert!(!radio.received_power_detector().unwrap());
    sim_mut(&mut radio).rpd = true;
    assert!(radio.received_power_detector().unwrap());
}

#[test]
fn register_dump_is_read_only() {
    let mut radio = sim_radio(b"aaaaa", 125);
    radio.configure().unwrap();
    let before_fifo = sim(&radio).tx_fifo;
    let dump = radio.register_dump().unwrap();
    assert_eq!(dump.rf_ch, 125);
    assert_eq!(dump.config, 0x7E);
    assert_eq!(dump.en_aa, 0);
    assert_eq!(dump.rx_addr_p0, [0x61; 5]);
    assert_eq!(dump.tx_addr, [0x61; 5]);
    assert_eq!(dump.rx_addr_p2, 0xC3);
    assert_eq!(sim(&radio).tx_fifo, before_fifo);
}

#[test]
fn standby_lowers_ce() {
    let mut radio = sim_radio(b"aaaaa", 76);
    radio.configure().unwrap();
    radio.start_listening().unwrap();
    radio.standby();
    assert!(matches!(radio.mode, Mode::Standby));
    assert!(!sim(&radio).ce_high);
    // set_tx_mode then also clears PRIM_RX and flushes the TX FIFO
    radio.set_tx_mode().unwrap();
    let config = radio.read_register(Register::CONFIG).unwrap();
    assert_eq!(config & 0x01, 0);
}

#[test]
fn set_rf_programs_rate_and_power() {
    let mut radio = sim_radio(b"aaaaa", 76);
    radio
        .set_rf(DataRate::_2Mbps, PowerLevel::_12dBm)
        .unwrap();
    // 2 Mbps sets RF_DR_HIGH (0x08); -12 dBm sets bit 1 (0x02)
    assert_eq!(radio.read_register(Register::RF_SETUP).unwrap(), 0x0A);
    radio
        .set_rf(DataRate::_1Mbps, PowerLevel::_18dBm)
        .unwrap();
    assert_eq!(radio.read_register(Register::RF_SETUP).unwrap(), 0x00);
}

#[test]
fn clear_status_resets_the_interrupt_flags() {
    let mut radio = sim_radio(b"aaaaa", 76);
    {
        let chip = sim_mut(&mut radio);
        chip.rx_dr = true;
        chip.tx_ds = true;
        chip.max_rt = true;
    }
    let before = radio.status().unwrap();
    assert!(before.rx_dr && before.tx_ds && before.max_rt);
    radio.clear_status().unwrap();
    let after = radio.status().unwrap();
    assert!(!after.rx_dr && !after.tx_ds && !after.max_rt);
    assert_eq!(after.rx_p_no, 7);
    assert!(!after.tx_full);
}

#[test]
fn send_no_ack_uses_the_noack_command() {
    let mut radio = sim_radio(b"aaaaa", 76);
    radio.configure().unwrap();
    radio.set_feature(0x01).unwrap(); // EN_DYN_ACK
    let start = sim(&radio).events.len();
    radio.send_no_ack(&[0xAB, 0xCD]).unwrap();
    let events = &sim(&radio).events[start..];
    let noack_frames: Vec<&Vec<u8>> = events
        .iter()
        .filter_map(|e| match e {
            Event::Frame(f) if f.first() == Some(&0xB0) => Some(f),
            _ => None,
        })
        .collect();
    assert_eq!(noack_frames.len(), 1);
    assert_eq!(noack_frames[0].as_slice(), &[0xB0, 0xAB, 0xCD]);
    assert_eq!(sim(&radio).tx_fifo, 1);
}
