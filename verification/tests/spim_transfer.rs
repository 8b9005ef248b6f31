use udma_hal::dma::{Bank, Udma, Xfer};
use udma_hal::ifram::IframRange;
use udma_hal::periph::PeriphId;
use udma_hal::spim::{Spim, SpimChannel};
use udma_hal::spim_cmd::{SpimClkPha, SpimClkPol, SpimCmd, SpimCs, SpimEndian, SpimMode};

fn test_spim(tx: usize, rx: usize, sot_wait: u8, eot_wait: u8) -> Spim {
    Spim::new(
        SpimChannel::Channel0,
        25_000_000,
        100_000_000,
        SpimClkPol::LeadingEdgeRise,
        SpimClkPha::CaptureOnLeading,
        SpimCs::Cs0,
        sot_wait,
        eot_wait,
        None,
        tx,
        rx,
        None,
    )
    .unwrap()
}

fn cmds(x: &Xfer) -> &Vec<u32> {
    match x {
        Xfer::Cmds(w) => w,
        _ => panic!("expected a command upload, got {:?}", x),
    }
}

fn tx_bytes(x: &Xfer) -> &Vec<u8> {
    match x {
        Xfer::TxBytes(b) => b,
        _ => panic!("expected a transmit enqueue, got {:?}", x),
    }
}

#[test]
fn construction_uploads_one_config_command() {
    let s = test_spim(8, 8, 0, 0);
    // divider = 100 MHz / (2 * 25 MHz) = 2
    assert_eq!(s.log.len(), 1);
    assert_eq!(cmds(&s.log[0]), &vec![0x0000_0002u32]);
    assert_eq!(s.tx_buf_len_bytes, 8);
    assert_eq!(s.rx_buf_len_bytes, 8);
    assert_eq!(s.mode, SpimMode::Standard);
    assert_eq!(s.get_endianness(), SpimEndian::MsbFirst);
    // 8 + 8 + 16 bytes, rounded up to one page
    assert_eq!(s.ifram.len_bytes, 4096);
}

#[test]
fn exact_fit_framed_payload_is_one_shot() {
    let mut s = test_spim(8, 8, 0, 0);
    let payload = [1u8, 2, 3, 4, 5, 6, 7, 8];
    s.tx_data_async(&payload, true, false);
    // chip-select assertion, then a single data-phase upload holding both
    // the data instruction and the chip-select release, then the bytes
    assert_eq!(s.log.len(), 4);
    assert_eq!(cmds(&s.log[1]), &vec![0x1000_0000u32]);
    assert_eq!(cmds(&s.log[2]), &vec![0x6007_0007u32, 0x9000_0000u32]);
    assert_eq!(tx_bytes(&s.log[3]), &payload.to_vec());
}

#[test]
fn one_byte_past_fit_takes_two_data_enqueues() {
    let mut s = test_spim(8, 8, 0, 0);
    let payload = [9u8, 8, 7, 6, 5, 4, 3, 2, 1];
    s.tx_data_async(&payload, true, false);
    // assertion, first chunk of eight, second chunk of one, then the
    // separate chip-select release
    assert_eq!(s.log.len(), 7);
    assert_eq!(cmds(&s.log[1]), &vec![0x1000_0000u32]);
    assert_eq!(cmds(&s.log[2]), &vec![0x6007_0007u32]);
    assert_eq!(tx_bytes(&s.log[3]), &payload[..8].to_vec());
    assert_eq!(cmds(&s.log[4]), &vec![0x6007_0000u32]);
    assert_eq!(tx_bytes(&s.log[5]), &vec![1u8]);
    assert_eq!(cmds(&s.log[6]), &vec![0x9000_0000u32]);
}

#[test]
fn framing_waits_carry_the_configured_cycles() {
    let mut s = test_spim(4, 4, 5, 7);
    let payload = [0xAAu8; 5];
    s.tx_data_async(&payload, true, true);
    // start: assert chip select then wait 5 cycles
    assert_eq!(cmds(&s.log[1]), &vec![0x1000_0000u32, 0x5000_0105u32]);
    // end: wait 7 cycles then release with the event flag set
    let last = cmds(&s.log[s.log.len() - 1]);
    assert_eq!(last, &vec![0x5000_0107u32, 0x9000_0001u32]);
}

#[test]
fn unframed_payload_sends_no_chip_select_commands() {
    let mut s = test_spim(8, 8, 0, 0);
    s.tx_data_async(&[0x55u8, 0x66], false, false);
    assert_eq!(s.log.len(), 3);
    assert_eq!(cmds(&s.log[1]), &vec![0x6007_0001u32]);
    assert_eq!(tx_bytes(&s.log[2]), &vec![0x55u8, 0x66]);
}

#[test]
fn empty_framed_payload_still_frames() {
    let mut s = test_spim(8, 8, 0, 0);
    s.tx_data_async(&[], true, false);
    assert_eq!(s.log.len(), 3);
    assert_eq!(cmds(&s.log[1]), &vec![0x1000_0000u32]);
    assert_eq!(cmds(&s.log[2]), &vec![0x9000_0000u32]);
}

#[test]
fn from_parts_sends_resident_bytes_without_copying() {
    let mut s = test_spim(8, 8, 0, 0);
    s.write_tx(2, &[0xAB, 0xCD]);
    s.tx_data_async_from_parts(2, 2, false, false);
    assert_eq!(s.log.len(), 3);
    assert_eq!(cmds(&s.log[1]), &vec![0x6007_0001u32]);
    assert_eq!(tx_bytes(&s.log[2]), &vec![0xABu8, 0xCD]);
    // the staged bytes are still in place
    assert_eq!(s.tx_buf()[2], 0xAB);
    assert_eq!(s.tx_buf()[3], 0xCD);
}

#[test]
fn long_command_lists_upload_four_words_at_a_time() {
    let mut s = test_spim(4, 4, 0, 0);
    let list = [
        SpimCmd::Dummy(1),
        SpimCmd::Dummy(2),
        SpimCmd::Dummy(3),
        SpimCmd::Dummy(4),
        SpimCmd::Dummy(5),
    ];
    s.send_cmd_list(&list);
    assert_eq!(s.log.len(), 3);
    assert_eq!(
        cmds(&s.log[1]),
        &vec![0x4001_0000u32, 0x4002_0000, 0x4003_0000, 0x4004_0000]
    );
    assert_eq!(cmds(&s.log[2]), &vec![0x4005_0000u32]);
}

#[test]
fn busy_flags_follow_enqueue_and_drain() {
    let mut s = test_spim(4, 4, 0, 0);
    // construction left the configuration upload active on the custom bank
    assert!(s.udma_busy(Bank::Custom));
    assert!(s.is_tx_busy());
    assert!(!s.udma_busy(Bank::Tx));
    assert!(!s.udma_busy(Bank::Rx));
    assert!(s.udma_can_enqueue(Bank::Custom));
    // a second upload behind the active one sets the shadow bit
    s.send_cmd_list(&[SpimCmd::Dummy(1)]);
    assert!(!s.udma_can_enqueue(Bank::Custom));
    s.tx_data_await(false);
    assert!(!s.is_tx_busy());
    assert!(s.udma_can_enqueue(Bank::Custom));
}

#[test]
fn deposit_rx_fills_the_receive_area_prefix() {
    let mut s = test_spim(4, 4, 0, 0);
    s.deposit_rx(&[9, 8, 7]);
    assert_eq!(s.rx_buf().as_slice(), &[9, 8, 7, 0]);
}

#[test]
fn raw_parts_round_trip_keeps_the_configuration() {
    let region = IframRange::request(4096, Some(0x6000_0000)).unwrap();
    assert_eq!(region.phys_base, 0x6000_0000);
    assert_eq!(region.len_bytes, 4096);
    let s = Spim::new_with_ifram(
        SpimChannel::Channel2,
        10_000_000,
        200_000_000,
        SpimClkPol::LeadingEdgeRise,
        SpimClkPha::CaptureOnLeading,
        SpimCs::Cs1,
        3,
        4,
        None,
        64,
        32,
        Some(6),
        Some(SpimMode::Quad),
        region,
    );
    let (channel, cs, sot, eot, evch, mode, align, ifram, tx_len, rx_len, dummy) =
        s.into_raw_parts();
    let r = Spim::from_raw_parts(
        channel, cs, sot, eot, evch, mode, align, ifram, tx_len, rx_len, dummy,
    );
    assert!(matches!(r.channel, SpimChannel::Channel2));
    assert!(matches!(r.cs, SpimCs::Cs1));
    assert_eq!(r.sot_wait, 3);
    assert_eq!(r.eot_wait, 4);
    assert!(r.event_channel.is_none());
    assert_eq!(r.mode, SpimMode::Quad);
    assert_eq!(r.ifram, region);
    assert_eq!(r.tx_buf_len_bytes, 64);
    assert_eq!(r.rx_buf_len_bytes, 32);
    assert_eq!(r.dummy_cycles, 6);
    // reconstruction issues no configuration command
    assert_eq!(r.log.len(), 0);
}

#[test]
fn endianness_setter_round_trips() {
    let mut s = test_spim(4, 4, 0, 0);
    s.set_endianness(SpimEndian::LsbFirst);
    assert_eq!(s.get_endianness(), SpimEndian::LsbFirst);
    // the transmit instruction then carries the endian bit
    s.tx_data_async(&[1u8], false, false);
    assert_eq!(cmds(&s.log[1]), &vec![0x6007_0000u32 | (1 << 26)]);
}

#[test]
fn spim_channels_name_their_peripherals() {
    assert!(matches!(SpimChannel::Channel0.periph_id(), PeriphId::Spim0));
    assert!(matches!(SpimChannel::Channel3.periph_id(), PeriphId::Spim3));
}

#[test]
fn physical_views_follow_the_region_layout() {
    let mut s = test_spim(8, 4, 0, 0);
    let (tx_phys, tx_len) = s.tx_buf_phys();
    let (rx_phys, rx_len) = s.rx_buf_phys();
    assert_eq!(tx_len, 8);
    assert_eq!(rx_len, 4);
    // the receive area sits immediately after the transmit area
    assert_eq!(rx_phys, tx_phys + 8);
    assert_eq!(tx_phys, s.ifram.phys_base);
    // staging through the mutable view reaches the same area
    s.tx_buf_mut()[0] = 0x5A;
    assert_eq!(s.tx_buf()[0], 0x5A);
}

#[test]
fn region_request_skips_rounding_at_a_page_boundary() {
    // 2040 + 2040 + 16 bytes is exactly one page
    let s = test_spim(2040, 2040, 0, 0);
    assert_eq!(s.ifram.len_bytes, 4096);
    // one byte more rounds up to the next page
    let t = test_spim(2041, 2040, 0, 0);
    assert_eq!(t.ifram.len_bytes, 8192);
}
