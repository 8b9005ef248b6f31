use udma_hal::dma::Xfer;
use udma_hal::spim::{Spim, SpimChannel};
use udma_hal::periph::EventChannel;
use udma_hal::spim_cmd::{SpimClkPha, SpimClkPol, SpimCs, SpimMode};

fn mem_spim(tx: usize, rx: usize) -> Spim {
    Spim::new(
        SpimChannel::Channel1,
        25_000_000,
        100_000_000,
        SpimClkPol::LeadingEdgeRise,
        SpimClkPha::CaptureOnLeading,
        SpimCs::Cs0,
        0,
        0,
        None,
        tx,
        rx,
        None,
    )
    .unwrap()
}

fn cmds(x: &Xfer) -> &Vec<u32> {
    match x {
        Xfer::Cmds(w) => w,
        _ => panic!("expected a command upload, got {:?}", x),
    }
}

fn tx_bytes(x: &Xfer) -> &Vec<u8> {
    match x {
        Xfer::TxBytes(b) => b,
        _ => panic!("expected a transmit enqueue, got {:?}", x),
    }
}

fn rx_req(x: &Xfer) -> usize {
    match x {
        Xfer::RxReq(n) => *n,
        _ => panic!("expected a receive request, got {:?}", x),
    }
}

#[test]
fn flash_id_decodes_first_three_rx_bytes() {
    let mut s = mem_spim(8, 8);
    s.deposit_rx(&[0x11, 0x22, 0x33, 0xEE, 0xEE, 0xEE, 0xEE, 0xEE]);
    let id = s.mem_read_id_flash();
    assert_eq!(id, 0x0033_2211);
    // chip select on, identity opcode, receive instruction for three
    // bytes, the request itself, chip select off
    assert_eq!(s.log.len(), 6);
    assert_eq!(cmds(&s.log[1]), &vec![0x1000_0000u32]);
    assert_eq!(cmds(&s.log[2]), &vec![0x2007_009Fu32]);
    assert_eq!(cmds(&s.log[3]), &vec![0x7007_0002u32]);
    assert_eq!(rx_req(&s.log[4]), 3);
    assert_eq!(cmds(&s.log[5]), &vec![0x9000_0000u32]);
}

#[test]
fn flash_id_in_quad_mode_uses_the_quad_opcode() {
    let mut s = mem_spim(8, 8);
    s.mode = SpimMode::Quad;
    s.deposit_rx(&[0xC2, 0x20, 0x16, 0, 0, 0, 0, 0]);
    let id = s.mem_read_id_flash();
    assert_eq!(id, 0x0016_20C2);
    assert_eq!(cmds(&s.log[2]), &vec![0x2807_00AFu32]);
}

#[test]
fn ram_id_skips_three_dummy_bytes() {
    let mut s = mem_spim(8, 8);
    s.deposit_rx(&[0xAA, 0xBB, 0xCC, 0x04, 0x05, 0x06, 0x07, 0xEE]);
    let id = s.mem_read_id_ram();
    // decoded little-endian from receive offsets 3, 4, 5 and 6
    assert_eq!(id, 0x0706_0504);
    assert_eq!(cmds(&s.log[2]), &vec![0x2007_009Fu32]);
    assert_eq!(rx_req(&s.log[4]), 7);
}

#[test]
fn qpi_enable_sends_at_old_width_and_ends_quad() {
    let mut s = mem_spim(8, 8);
    s.mem_qpi_mode(true);
    assert_eq!(s.mode, SpimMode::Quad);
    // the enable opcode went out at standard width
    assert_eq!(cmds(&s.log[2]), &vec![0x2007_0035u32]);

    let mut q = mem_spim(8, 8);
    q.mode = SpimMode::Quad;
    q.mem_qpi_mode(true);
    assert_eq!(q.mode, SpimMode::Quad);
    // already quad: the enable opcode goes out at quad width
    assert_eq!(cmds(&q.log[2]), &vec![0x2807_0035u32]);
}

#[test]
fn qpi_disable_sends_at_quad_width_and_ends_standard() {
    let mut s = mem_spim(8, 8);
    s.mode = SpimMode::Quad;
    s.mem_qpi_mode(false);
    assert_eq!(s.mode, SpimMode::Standard);
    // the disable opcode is clocked out at quad width
    assert_eq!(cmds(&s.log[2]), &vec![0x2807_00F5u32]);

    let mut t = mem_spim(8, 8);
    t.mem_qpi_mode(false);
    // from standard the driver still clocks the opcode at quad width
    assert_eq!(t.mode, SpimMode::Standard);
    assert_eq!(cmds(&t.log[2]), &vec![0x2807_00F5u32]);
}

#[test]
fn write_status_register_forces_standard_mode() {
    let mut s = mem_spim(8, 8);
    s.mode = SpimMode::Quad;
    s.mem_write_status_register(0x42, 0x07);
    assert_eq!(s.mode, SpimMode::Standard);
    // first the quad-mode exit: chip select, 0xF5 at quad width, release
    assert_eq!(cmds(&s.log[1]), &vec![0x1000_0000u32]);
    assert_eq!(cmds(&s.log[2]), &vec![0x2807_00F5u32]);
    assert_eq!(cmds(&s.log[3]), &vec![0x9000_0000u32]);
    // then the write itself: opcode 0x1, two data bytes
    assert_eq!(cmds(&s.log[4]), &vec![0x1000_0000u32]);
    assert_eq!(cmds(&s.log[5]), &vec![0x2007_0001u32]);
    assert_eq!(cmds(&s.log[6]), &vec![0x6007_0001u32]);
    assert_eq!(tx_bytes(&s.log[7]), &vec![0x42u8, 0x07]);
    assert_eq!(cmds(&s.log[8]), &vec![0x9000_0000u32]);
    assert_eq!(s.log.len(), 9);
}

#[test]
fn write_status_register_from_standard_skips_the_exit() {
    let mut s = mem_spim(8, 8);
    s.mem_write_status_register(0x10, 0x00);
    assert_eq!(s.mode, SpimMode::Standard);
    assert_eq!(s.log.len(), 6);
    assert_eq!(cmds(&s.log[2]), &vec![0x2007_0001u32]);
    assert_eq!(tx_bytes(&s.log[4]), &vec![0x10u8, 0x00]);
}

#[test]
fn mem_read_chunks_advance_the_device_address() {
    let mut s = mem_spim(8, 4);
    s.deposit_rx(&[0xDE, 0xAD, 0xBE, 0xEF]);
    let mut buf = vec![0u8; 10];
    let ok = s.mem_read(0x010203, &mut buf, false);
    assert!(ok);
    // each chunk copies the receive area's prefix
    assert_eq!(
        buf,
        vec![0xDE, 0xAD, 0xBE, 0xEF, 0xDE, 0xAD, 0xBE, 0xEF, 0xDE, 0xAD]
    );
    // three chunks of six transfers each, after the construction upload
    assert_eq!(s.log.len(), 19);
    for (k, (addr_bytes, chunk_len)) in [
        ([0x01u8, 0x02, 0x03], 4usize),
        ([0x01, 0x02, 0x07], 4),
        ([0x01, 0x02, 0x0B], 2),
    ]
    .iter()
    .enumerate()
    {
        let base = 1 + 6 * k;
        // chip select on
        assert_eq!(cmds(&s.log[base]), &vec![0x1000_0000u32]);
        // read opcode 0xEB and the three-byte address phase
        assert_eq!(cmds(&s.log[base + 1]), &vec![0x2007_00EBu32, 0x6007_0002]);
        // the chunk's device address, base plus bytes read so far
        assert_eq!(tx_bytes(&s.log[base + 2]), &addr_bytes.to_vec());
        // receive instruction and request sized to the chunk
        assert_eq!(
            cmds(&s.log[base + 3]),
            &vec![0x7000_0000u32 | 0x0007_0000 | (*chunk_len as u32 - 1)]
        );
        assert_eq!(rx_req(&s.log[base + 4]), *chunk_len);
        // chip select off
        assert_eq!(cmds(&s.log[base + 5]), &vec![0x9000_0000u32]);
    }
}

#[test]
fn mem_read_with_dummy_cycles_pads_the_address_phase() {
    let mut s = Spim::new(
        SpimChannel::Channel1,
        25_000_000,
        100_000_000,
        SpimClkPol::LeadingEdgeRise,
        SpimClkPha::CaptureOnLeading,
        SpimCs::Cs0,
        0,
        0,
        None,
        16,
        8,
        Some(6),
    )
    .unwrap();
    let mut buf = vec![0u8; 2];
    let ok = s.mem_read(0xABCDEF, &mut buf, true);
    assert!(ok);
    // address phase is 3 bytes plus dummy_cycles / 2 = 6 bytes in all
    assert_eq!(cmds(&s.log[2]), &vec![0x2007_00EBu32, 0x6007_0005]);
    assert_eq!(
        tx_bytes(&s.log[3]),
        &vec![0xABu8, 0xCD, 0xEF, 0xFF, 0xFF, 0xFF]
    );
}

#[test]
fn ram_write_chunks_by_transmit_capacity() {
    let mut s = mem_spim(4, 4);
    let data = [10u8, 20, 30, 40, 50, 60];
    s.mem_ram_write(0x020304, &data, false);
    // two chunks of six transfers each, after the construction upload
    assert_eq!(s.log.len(), 13);
    // first chunk: write opcode 0x38, address 0x020304, four bytes
    assert_eq!(cmds(&s.log[1]), &vec![0x1000_0000u32]);
    assert_eq!(cmds(&s.log[2]), &vec![0x2007_0038u32, 0x6007_0002]);
    assert_eq!(tx_bytes(&s.log[3]), &vec![0x02u8, 0x03, 0x04]);
    assert_eq!(cmds(&s.log[4]), &vec![0x6007_0003u32]);
    assert_eq!(tx_bytes(&s.log[5]), &vec![10u8, 20, 30, 40]);
    assert_eq!(cmds(&s.log[6]), &vec![0x9000_0000u32]);
    // second chunk: address advanced by four, two bytes
    assert_eq!(tx_bytes(&s.log[9]), &vec![0x02u8, 0x03, 0x08]);
    assert_eq!(cmds(&s.log[10]), &vec![0x6007_0001u32]);
    assert_eq!(tx_bytes(&s.log[11]), &vec![50u8, 60]);
}

#[test]
fn chip_select_release_emits_event_only_when_bound() {
    let mut s = Spim::new(
        SpimChannel::Channel1,
        25_000_000,
        100_000_000,
        SpimClkPol::LeadingEdgeRise,
        SpimClkPha::CaptureOnLeading,
        SpimCs::Cs0,
        0,
        0,
        Some(EventChannel::Channel3),
        8,
        8,
        None,
    )
    .unwrap();
    s.deposit_rx(&[1, 2, 3]);
    s.mem_read_id_flash();
    // the release carries the event flag because a channel is bound
    assert_eq!(cmds(&s.log[5]), &vec![0x9000_0001u32]);
}
