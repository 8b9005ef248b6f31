use udma_hal::periph::EventChannel;
use udma_hal::spim_cmd::{
    SpimByteAlign, SpimCheckType, SpimClkPha, SpimClkPol, SpimCmd, SpimCs, SpimEndian,
    SpimEventGen, SpimMode, SpimWaitType, SpimWordsPerXfer,
};

#[test]
fn encode_config() {
    let w = SpimCmd::Config(SpimClkPol::LeadingEdgeFall, SpimClkPha::CaptureOnTrailing, 4)
        .encode();
    assert_eq!(w, 0x0000_0304);
    let w0 = SpimCmd::Config(SpimClkPol::LeadingEdgeRise, SpimClkPha::CaptureOnLeading, 2)
        .encode();
    assert_eq!(w0, 0x0000_0002);
}

#[test]
fn encode_start_xfer() {
    assert_eq!(SpimCmd::StartXfer(SpimCs::Cs0).encode(), 0x1000_0000);
    assert_eq!(SpimCmd::StartXfer(SpimCs::Cs2).encode(), 0x1000_0002);
}

#[test]
fn encode_send_cmd() {
    // opcode 2 in bits 31-28, the bit length less one in bits 20-16, the
    // command value in bits 15-0
    assert_eq!(
        SpimCmd::SendCmd(SpimMode::Standard, 8, 0x9F).encode(),
        0x2007_009F
    );
    assert_eq!(
        SpimCmd::SendCmd(SpimMode::Quad, 8, 0xAF).encode(),
        0x2800_0000 | 0x0007_0000 | 0xAF
    );
    assert_eq!(SpimCmd::SendCmd(SpimMode::Standard, 1, 0x1).encode(), 0x2000_0001);
}

#[test]
fn encode_send_addr() {
    assert_eq!(SpimCmd::SendAddr(SpimMode::Quad, 24).encode(), 0x3818_0000);
    assert_eq!(SpimCmd::SendAddr(SpimMode::Standard, 0).encode(), 0x3000_0000);
}

#[test]
fn encode_dummy() {
    assert_eq!(SpimCmd::Dummy(8).encode(), 0x4008_0000);
    assert_eq!(SpimCmd::Dummy(0).encode(), 0x4000_0000);
}

#[test]
fn encode_wait() {
    assert_eq!(
        SpimCmd::Wait(SpimWaitType::Event(EventChannel::Channel2)).encode(),
        0x5000_0002
    );
    assert_eq!(
        SpimCmd::Wait(SpimWaitType::Cycles(5)).encode(),
        0x5000_0105
    );
}

#[test]
fn encode_tx_data() {
    // 8 bits per word less one in bits 20-16, the length less one in bits 15-0
    assert_eq!(
        SpimCmd::TxData(
            SpimMode::Standard,
            SpimWordsPerXfer::Words1,
            8,
            SpimEndian::MsbFirst,
            8,
        )
        .encode(),
        0x6007_0007
    );
    assert_eq!(
        SpimCmd::TxData(
            SpimMode::Quad,
            SpimWordsPerXfer::Words1,
            8,
            SpimEndian::LsbFirst,
            1,
        )
        .encode(),
        0x6000_0000 | (1 << 27) | (1 << 26) | 0x0007_0000
    );
}

#[test]
fn encode_rx_data() {
    assert_eq!(
        SpimCmd::RxData(
            SpimMode::Standard,
            SpimWordsPerXfer::Words1,
            8,
            SpimEndian::MsbFirst,
            3,
        )
        .encode(),
        0x7007_0002
    );
}

#[test]
fn encode_repeat_and_end() {
    assert_eq!(SpimCmd::RepeatNextCmd(0x1234).encode(), 0x8000_1234);
    assert_eq!(SpimCmd::EndXfer(SpimEventGen::Enabled).encode(), 0x9000_0001);
    assert_eq!(SpimCmd::EndXfer(SpimEventGen::Disabled).encode(), 0x9000_0000);
    assert_eq!(SpimCmd::EndRepeat.encode(), 0xA000_0000);
}

#[test]
fn encode_rx_check() {
    assert_eq!(
        SpimCmd::RxCheck(
            SpimMode::Quad,
            SpimByteAlign::Disable,
            SpimCheckType::OnlyOnes,
            4,
            0xFFFF,
        )
        .encode(),
        0xBD04_FFFF
    );
}

#[test]
fn encode_full_duplex() {
    assert_eq!(
        SpimCmd::FullDuplex(SpimByteAlign::Enable, 0x10).encode(),
        0xC000_0010
    );
}

#[test]
fn from_le_bytes_composes() {
    assert_eq!(udma_hal::spim::u32_from_le_bytes(0x11, 0x22, 0x33, 0x44), 0x4433_2211);
    assert_eq!(udma_hal::spim::u32_from_le_bytes(0x9F, 0, 0, 0), 0x9F);
}
