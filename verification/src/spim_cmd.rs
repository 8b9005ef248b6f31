//! The SPI-master command set: a closed family of instructions, each packed
//! into one 32-bit word consumed by the controller's internal command
//! processor.  The opcode sits in bits 31–28; the remaining bits carry mode
//! flags, operand sizes and immediate data in a fixed per-opcode layout.
//!
//! [`SpimCmd::encode`] is the only place a command turns into a word, and its
//! contract pins every bit.

use vstd::prelude::*;
use crate::periph::EventChannel;

verus! {

/// Clock polarity of the SPI interface.
#[derive(Clone, Copy, PartialEq, Eq, Structural, Debug)]
pub enum SpimClkPol {
    LeadingEdgeRise,
    LeadingEdgeFall,
}

impl SpimClkPol {
    pub open spec fn spec_value(self) -> u32 {
        match self {
            SpimClkPol::LeadingEdgeRise => 0,
            SpimClkPol::LeadingEdgeFall => 1,
        }
    }

    pub fn value(self) -> (r: u32)
        ensures
            r == self.spec_value(),
    {
        match self {
            SpimClkPol::LeadingEdgeRise => 0,
            SpimClkPol::LeadingEdgeFall => 1,
        }
    }
}

/// Clock phase of the SPI interface.
#[derive(Clone, Copy, PartialEq, Eq, Structural, Debug)]
pub enum SpimClkPha {
    CaptureOnLeading,
    CaptureOnTrailing,
}

impl SpimClkPha {
    pub open spec fn spec_value(self) -> u32 {
        match self {
            SpimClkPha::CaptureOnLeading => 0,
            SpimClkPha::CaptureOnTrailing => 1,
        }
    }

    pub fn value(self) -> (r: u32)
        ensures
            r == self.spec_value(),
    {
        match self {
            SpimClkPha::CaptureOnLeading => 0,
            SpimClkPha::CaptureOnTrailing => 1,
        }
    }
}

/// One of the four chip-select lines of a SPI-master channel.
#[derive(Clone, Copy, PartialEq, Eq, Structural, Debug)]
pub enum SpimCs {
    Cs0,
    Cs1,
    Cs2,
    Cs3,
}

impl SpimCs {
    pub open spec fn spec_value(self) -> u32 {
        match self {
            SpimCs::Cs0 => 0,
            SpimCs::Cs1 => 1,
            SpimCs::Cs2 => 2,
            SpimCs::Cs3 => 3,
        }
    }

    pub fn value(self) -> (r: u32)
        ensures
            r == self.spec_value(),
    {
        match self {
            SpimCs::Cs0 => 0,
            SpimCs::Cs1 => 1,
            SpimCs::Cs2 => 2,
            SpimCs::Cs3 => 3,
        }
    }
}

/// Wire width of a transfer: one data line (standard) or four (quad).
#[derive(Clone, Copy, PartialEq, Eq, Structural, Debug)]
pub enum SpimMode {
    Standard,
    Quad,
}

impl SpimMode {
    pub open spec fn spec_value(self) -> u32 {
        match self {
            SpimMode::Standard => 0,
            SpimMode::Quad => 1,
        }
    }

    pub fn value(self) -> (r: u32)
        ensures
            r == self.spec_value(),
    {
        match self {
            SpimMode::Standard => 0,
            SpimMode::Quad => 1,
        }
    }
}

/// Whether the controller realigns data to byte boundaries.
#[derive(Clone, Copy, PartialEq, Eq, Structural, Debug)]
pub enum SpimByteAlign {
    Enable,
    Disable,
}

impl SpimByteAlign {
    pub open spec fn spec_value(self) -> u32 {
        match self {
            SpimByteAlign::Enable => 0,
            SpimByteAlign::Disable => 1,
        }
    }

    pub fn value(self) -> (r: u32)
        ensures
            r == self.spec_value(),
    {
        match self {
            SpimByteAlign::Enable => 0,
            SpimByteAlign::Disable => 1,
        }
    }
}

/// What a receive-and-check instruction compares against.
#[derive(Clone, Copy, PartialEq, Eq, Structural, Debug)]
pub enum SpimCheckType {
    Allbits,
    OnlyOnes,
    OnlyZeros,
}

impl SpimCheckType {
    pub open spec fn spec_value(self) -> u32 {
        match self {
            SpimCheckType::Allbits => 0,
            SpimCheckType::OnlyOnes => 1,
            SpimCheckType::OnlyZeros => 2,
        }
    }

    pub fn value(self) -> (r: u32)
        ensures
            r == self.spec_value(),
    {
        match self {
            SpimCheckType::Allbits => 0,
            SpimCheckType::OnlyOnes => 1,
            SpimCheckType::OnlyZeros => 2,
        }
    }
}

/// Whether ending a transfer also emits the completion event.
#[derive(Clone, Copy, PartialEq, Eq, Structural, Debug)]
pub enum SpimEventGen {
    Disabled,
    Enabled,
}

impl SpimEventGen {
    pub open spec fn spec_value(self) -> u32 {
        match self {
            SpimEventGen::Disabled => 0,
            SpimEventGen::Enabled => 1,
        }
    }

    pub fn value(self) -> (r: u32)
        ensures
            r == self.spec_value(),
    {
        match self {
            SpimEventGen::Disabled => 0,
            SpimEventGen::Enabled => 1,
        }
    }
}

/// How many words move per transfer beat.
#[derive(Clone, Copy, PartialEq, Eq, Structural, Debug)]
pub enum SpimWordsPerXfer {
    Words1,
    Words2,
    Words4,
}

impl SpimWordsPerXfer {
    pub open spec fn spec_value(self) -> u32 {
        match self {
            SpimWordsPerXfer::Words1 => 0,
            SpimWordsPerXfer::Words2 => 1,
            SpimWordsPerXfer::Words4 => 2,
        }
    }

    pub fn value(self) -> (r: u32)
        ensures
            r == self.spec_value(),
    {
        match self {
            SpimWordsPerXfer::Words1 => 0,
            SpimWordsPerXfer::Words2 => 1,
            SpimWordsPerXfer::Words4 => 2,
        }
    }
}

/// Bit order of data movement.
#[derive(Clone, Copy, PartialEq, Eq, Structural, Debug)]
pub enum SpimEndian {
    MsbFirst,
    LsbFirst,
}

impl SpimEndian {
    pub open spec fn spec_value(self) -> u32 {
        match self {
            SpimEndian::MsbFirst => 0,
            SpimEndian::LsbFirst => 1,
        }
    }

    pub fn value(self) -> (r: u32)
        ensures
            r == self.spec_value(),
    {
        match self {
            SpimEndian::MsbFirst => 0,
            SpimEndian::LsbFirst => 1,
        }
    }
}

/// What a wait instruction waits on: a routed event channel, or a plain
/// cycle count.
#[derive(Clone, Copy, PartialEq, Eq, Structural, Debug)]
pub enum SpimWaitType {
    Event(EventChannel),
    Cycles(u8),
}

impl SpimWaitType {
    /// The operand field of a wait instruction.  An event channel is coded by
    /// its index; a cycle count carries a marker bit above the count.
    pub open spec fn spec_wait_code(self) -> u32 {
        match self {
            SpimWaitType::Event(EventChannel::Channel0) => 0,
            SpimWaitType::Event(EventChannel::Channel1) => 1,
            SpimWaitType::Event(EventChannel::Channel2) => 2,
            SpimWaitType::Event(EventChannel::Channel3) => 3,
            SpimWaitType::Cycles(cyc) => cyc as u32 | 0x100,
        }
    }
}

/// One instruction for the SPI-master's command processor.
#[derive(Clone, Copy, PartialEq, Eq, Structural, Debug)]
pub enum SpimCmd {
    /// Clock polarity, clock phase, clock divider.
    Config(SpimClkPol, SpimClkPha, u8),
    /// Assert a chip-select line.
    StartXfer(SpimCs),
    /// Mode, command bit length (1–32), command value, left-aligned.
    SendCmd(SpimMode, u8, u16),
    /// Mode, number of address bits (masked to 5 bits).
    SendAddr(SpimMode, u8),
    /// Number of dummy cycles (masked to 5 bits).
    Dummy(u8),
    /// Wait on an event channel or for a cycle count.
    Wait(SpimWaitType),
    /// Mode, words per beat, bits per word (1–32), bit order, number of
    /// words to send (1–65536).
    TxData(SpimMode, SpimWordsPerXfer, u8, SpimEndian, u32),
    /// Mode, words per beat, bits per word (1–32), bit order, number of
    /// words to receive (1–65536).
    RxData(SpimMode, SpimWordsPerXfer, u8, SpimEndian, u32),
    /// Repeat the next command this many times.
    RepeatNextCmd(u16),
    /// De-assert chip select, optionally emitting the completion event.
    EndXfer(SpimEventGen),
    /// Close a repeat block.
    EndRepeat,
    /// Mode, byte alignment, check kind, comparison size (masked to 4 bits),
    /// comparison pattern.
    RxCheck(SpimMode, SpimByteAlign, SpimCheckType, u8, u16),
    /// Byte alignment, data size.
    FullDuplex(SpimByteAlign, u16),
}

impl SpimCmd {
    /// Operand ranges under which a command packs without truncating a
    /// field: counted operands are biased by one before packing, so they
    /// must be at least one, and wide enough fields must fit their lanes.
    pub open spec fn spec_encodable(self) -> bool {
        match self {
            SpimCmd::SendCmd(_, size, _) => 1 <= size,
            SpimCmd::TxData(_, _, bits_per_word, _, len) =>
                1 <= bits_per_word <= 32 && 1 <= len <= 0x10000,
            SpimCmd::RxData(_, _, bits_per_word, _, len) =>
                1 <= bits_per_word <= 32 && 1 <= len <= 0x10000,
            _ => true,
        }
    }

    /// The 32-bit word this command packs to.
    pub open spec fn spec_encode(self) -> u32 {
        match self {
            SpimCmd::Config(pol, pha, div) =>
                (0u32 << 28) | (pol.spec_value() << 9) | (pha.spec_value() << 8) | (div as u32),
            SpimCmd::StartXfer(cs) => (1u32 << 28) | cs.spec_value(),
            SpimCmd::SendCmd(mode, size, cmd) =>
                (2u32 << 28) | (mode.spec_value() << 27)
                    | ((((size - 1) as u32) & 0x1F) << 16) | (cmd as u32),
            SpimCmd::SendAddr(mode, size) =>
                (3u32 << 28) | (mode.spec_value() << 27) | (((size as u32) & 0x1F) << 16),
            SpimCmd::Dummy(cycles) => (4u32 << 28) | (((cycles as u32) & 0x1F) << 16),
            SpimCmd::Wait(wait_type) => (5u32 << 28) | wait_type.spec_wait_code(),
            SpimCmd::TxData(mode, words_per_xfer, bits_per_word, endian, len) =>
                (6u32 << 28) | (mode.spec_value() << 27)
                    | ((words_per_xfer.spec_value() & 0x3) << 21)
                    | (((bits_per_word - 1) as u32) << 16)
                    | ((len - 1) as u32)
                    | (endian.spec_value() << 26),
            SpimCmd::RxData(mode, words_per_xfer, bits_per_word, endian, len) =>
                (7u32 << 28) | (mode.spec_value() << 27)
                    | ((words_per_xfer.spec_value() & 0x3) << 21)
                    | (((bits_per_word - 1) as u32) << 16)
                    | ((len - 1) as u32)
                    | (endian.spec_value() << 26),
            SpimCmd::RepeatNextCmd(count) => (8u32 << 28) | (count as u32),
            SpimCmd::EndXfer(event) => (9u32 << 28) | event.spec_value(),
            SpimCmd::EndRepeat => 10u32 << 28,
            SpimCmd::RxCheck(mode, align, check_type, size, data) =>
                (11u32 << 28) | (mode.spec_value() << 27) | (align.spec_value() << 26)
                    | (check_type.spec_value() << 24)
                    | (((size as u32) & 0xF) << 16) | (data as u32),
            SpimCmd::FullDuplex(align, len) =>
                (12u32 << 28) | (align.spec_value() << 26) | (len as u32),
        }
    }

    /// Packs this command into the 32-bit word the command processor
    /// consumes, bit-exactly as [`SpimCmd::spec_encode`] lays it out.
    pub fn encode(self) -> (r: u32)
        requires
            self.spec_encodable(),
        ensures
            r == self.spec_encode(),
    {
        match self {
            SpimCmd::Config(pol, pha, div) =>
                (0u32 << 28) | (pol.value() << 9) | (pha.value() << 8) | (div as u32),
            SpimCmd::StartXfer(cs) => (1u32 << 28) | cs.value(),
            SpimCmd::SendCmd(mode, size, cmd) =>
                (2u32 << 28) | (mode.value() << 27)
                    | ((((size - 1) as u32) & 0x1F) << 16) | (cmd as u32),
            SpimCmd::SendAddr(mode, size) =>
                (3u32 << 28) | (mode.value() << 27) | (((size as u32) & 0x1F) << 16),
            SpimCmd::Dummy(cycles) => (4u32 << 28) | (((cycles as u32) & 0x1F) << 16),
            SpimCmd::Wait(wait_type) => {
                let wait_code: u32 = match wait_type {
                    SpimWaitType::Event(EventChannel::Channel0) => 0,
                    SpimWaitType::Event(EventChannel::Channel1) => 1,
                    SpimWaitType::Event(EventChannel::Channel2) => 2,
                    SpimWaitType::Event(EventChannel::Channel3) => 3,
                    SpimWaitType::Cycles(cyc) => (cyc as u32) | 0x100,
                };
                (5u32 << 28) | wait_code
            },
            SpimCmd::TxData(mode, words_per_xfer, bits_per_word, endian, len) =>
                (6u32 << 28) | (mode.value() << 27)
                    | ((words_per_xfer.value() & 0x3) << 21)
                    | (((bits_per_word as u32) - 1) << 16)
                    | (len - 1)
                    | (endian.value() << 26),
            SpimCmd::RxData(mode, words_per_xfer, bits_per_word, endian, len) =>
                (7u32 << 28) | (mode.value() << 27)
                    | ((words_per_xfer.value() & 0x3) << 21)
                    | (((bits_per_word as u32) - 1) << 16)
                    | (len - 1)
                    | (endian.value() << 26),
            SpimCmd::RepeatNextCmd(count) => (8u32 << 28) | (count as u32),
            SpimCmd::EndXfer(event) => (9u32 << 28) | event.value(),
            SpimCmd::EndRepeat => 10u32 << 28,
            SpimCmd::RxCheck(mode, align, check_type, size, data) =>
                (11u32 << 28) | (mode.value() << 27) | (align.value() << 26)
                    | (check_type.value() << 24)
                    | (((size as u32) & 0xF) << 16) | (data as u32),
            SpimCmd::FullDuplex(align, len) =>
                (12u32 << 28) | (align.value() << 26) | (len as u32),
        }
    }
}

} // verus!
