//! The SPI-master driver over the shared DMA engine.
//!
//! A driver instance owns the model of everything the hardware sees of it:
//! the three DMA banks of its register window, the transfer region laid out
//! as transmit area, receive area and a four-word command area, and the
//! configuration the instance was built with.  Every operation records the
//! transfers it hands the engine in a log of [`Xfer`] entries, and its
//! contract states that log extension exactly, so the full command stream a
//! call produces — opcodes, operand fields, payload bytes, chunk boundaries
//! — is pinned down.
//!
//! The engine itself is assumed to complete every transfer it is handed
//! (the hardware gives no other option short of a reset); the points where
//! the original hardware is busy-waited on are modeled by
//! [`Spim::udma_await`], which accounts that completion.  Received bytes
//! enter through [`Spim::deposit_rx`], the model of the controller writing
//! the receive region.

use vstd::prelude::*;
use crate::dma::{
    Bank, BankRegs, DmaOp, Udma, Xfer, spec_ops_of, CFG_EN, CFG_SIZE_8, CFG_SIZE_32,
};
use crate::ifram::IframRange;
use crate::periph::{EventChannel, PeriphId};
use crate::spim_cmd::{
    SpimByteAlign, SpimClkPha, SpimClkPol, SpimCmd, SpimCs, SpimEndian, SpimEventGen, SpimMode,
    SpimWaitType, SpimWordsPerXfer,
};

verus! {

/// Byte length of the command area at the end of the transfer region.
pub const SPIM_CMD_BUF_LEN_BYTES: usize = 16;

/// Which of the four SPI-master channels a driver instance sits on.
#[derive(Clone, Copy, PartialEq, Eq, Structural, Debug)]
pub enum SpimChannel {
    Channel0,
    Channel1,
    Channel2,
    Channel3,
}

impl SpimChannel {
    /// The peripheral identity of this channel, for clock gating and event
    /// routing.
    pub open spec fn spec_periph_id(self) -> PeriphId {
        match self {
            SpimChannel::Channel0 => PeriphId::Spim0,
            SpimChannel::Channel1 => PeriphId::Spim1,
            SpimChannel::Channel2 => PeriphId::Spim2,
            SpimChannel::Channel3 => PeriphId::Spim3,
        }
    }

    /// The peripheral identity of this channel, for clock gating and event
    /// routing.
    pub fn periph_id(self) -> (r: PeriphId)
        ensures
            r == self.spec_periph_id(),
    {
        match self {
            SpimChannel::Channel0 => PeriphId::Spim0,
            SpimChannel::Channel1 => PeriphId::Spim1,
            SpimChannel::Channel2 => PeriphId::Spim2,
            SpimChannel::Channel3 => PeriphId::Spim3,
        }
    }
}

/// The encodings of a command list.
pub open spec fn spec_encoded(cmds: Seq<SpimCmd>) -> Seq<u32> {
    cmds.map_values(|c: SpimCmd| c.spec_encode())
}

/// Every command in a list packs without truncation.
pub open spec fn spec_all_encodable(cmds: Seq<SpimCmd>) -> bool {
    forall|i: int| 0 <= i < cmds.len() ==> #[trigger] cmds[i].spec_encodable()
}

/// The transfers a command-list upload hands the engine: the list's words,
/// four at a time, each batch one custom-bank enqueue.
pub open spec fn spec_cmd_list_ops(cmds: Seq<SpimCmd>) -> Seq<DmaOp>
    decreases cmds.len(),
{
    if cmds.len() <= 0 {
        Seq::empty()
    } else if cmds.len() <= 4 {
        seq![DmaOp::Cmds(spec_encoded(cmds))]
    } else {
        seq![DmaOp::Cmds(spec_encoded(cmds.take(4)))] + spec_cmd_list_ops(cmds.skip(4))
    }
}

/// The SPI-master driver state: channel configuration, modeled bank
/// registers, the transfer region's contents, and the log of transfers
/// handed to the engine.
pub struct Spim {
    /// Receive bank registers.
    pub rx_bank: BankRegs,
    /// Transmit bank registers.
    pub tx_bank: BankRegs,
    /// Custom (command-upload) bank registers.
    pub custom_bank: BankRegs,
    /// Which SPI-master channel this instance drives.
    pub channel: SpimChannel,
    /// Chip-select line framed transfers assert.
    pub cs: SpimCs,
    /// Cycles to wait between chip-select assertion and data start.
    pub sot_wait: u8,
    /// Cycles to wait between data end and chip-select de-assertion.
    pub eot_wait: u8,
    /// Routing channel that signals transfer completion, if one was bound.
    pub event_channel: Option<EventChannel>,
    /// Current wire width: standard or quad.
    pub mode: SpimMode,
    /// Byte-alignment setting carried for commands that take it.
    pub align: SpimByteAlign,
    /// The DMA-reachable region backing the three areas below.
    pub ifram: IframRange,
    /// Byte length of the transmit area at the start of the region.
    pub tx_buf_len_bytes: usize,
    /// Byte length of the receive area, immediately after the transmit area.
    pub rx_buf_len_bytes: usize,
    /// Dummy cycles memory-chip reads insert after the address phase.
    pub dummy_cycles: u8,
    /// Bit order for data movement.
    pub endianness: SpimEndian,
    /// Contents of the transmit area.
    pub tx_mem: Vec<u8>,
    /// Contents of the receive area.
    pub rx_mem: Vec<u8>,
    /// Contents of the command area, as the four words the engine fetches.
    pub cmd_mem: Vec<u32>,
    /// Every transfer handed to the engine, in order.
    pub log: Vec<Xfer>,
}

impl Spim {
    /// Structural soundness of an instance: area lengths fit the 16-bit
    /// hardware length field, the modeled contents match those lengths, and
    /// the backing region really holds all three areas.
    pub open spec fn wf(self) -> bool {
        &&& self.tx_buf_len_bytes < 65536
        &&& self.rx_buf_len_bytes < 65536
        &&& self.tx_mem@.len() == self.tx_buf_len_bytes
        &&& self.rx_mem@.len() == self.rx_buf_len_bytes
        &&& self.cmd_mem@.len() == 4
        &&& self.ifram.spec_valid()
        &&& self.ifram.len_bytes >= self.tx_buf_len_bytes + self.rx_buf_len_bytes
            + SPIM_CMD_BUF_LEN_BYTES
    }

    /// The sequence of transfers handed to the engine so far.
    pub open spec fn ops(self) -> Seq<DmaOp> {
        spec_ops_of(self.log@)
    }

    /// Physical address of the transmit area.
    pub open spec fn spec_tx_phys(self) -> u32 {
        self.ifram.phys_base
    }

    /// Physical address of the receive area.
    pub open spec fn spec_rx_phys(self) -> u32 {
        (self.ifram.phys_base + self.tx_buf_len_bytes) as u32
    }

    /// Physical address of the command area.
    pub open spec fn spec_cmd_phys(self) -> u32 {
        (self.ifram.phys_base + self.tx_buf_len_bytes + self.rx_buf_len_bytes) as u32
    }

    /// The fixed identity and layout of an instance: everything construction
    /// decides once and no operation moves.
    pub open spec fn spec_same_config(self, other: Spim) -> bool {
        &&& other.channel == self.channel
        &&& other.cs == self.cs
        &&& other.sot_wait == self.sot_wait
        &&& other.eot_wait == self.eot_wait
        &&& other.event_channel == self.event_channel
        &&& other.align == self.align
        &&& other.ifram == self.ifram
        &&& other.tx_buf_len_bytes == self.tx_buf_len_bytes
        &&& other.rx_buf_len_bytes == self.rx_buf_len_bytes
        &&& other.dummy_cycles == self.dummy_cycles
    }

    /// The transfer one enqueue hands the engine, as fetched from the
    /// instance's memory at that moment.
    pub open spec fn spec_enqueue_op(self, bank: Bank, offset: int, len_bytes: int) -> DmaOp {
        match bank {
            Bank::Tx => DmaOp::TxBytes(self.tx_mem@.subrange(offset, offset + len_bytes)),
            Bank::Rx => DmaOp::RxReq(len_bytes),
            Bank::Custom => DmaOp::Cmds(
                self.cmd_mem@.subrange(offset / 4, (offset + len_bytes) / 4),
            ),
        }
    }

    /// Hands the engine one transfer over a range of this instance's
    /// transfer region: writes the chosen bank's source-address, size and
    /// configuration registers (the enable bit ORed in), and records what
    /// the engine will fetch.
    ///
    /// `offset` is relative to the targeted area; a custom-bank range must
    /// be word-aligned inside the command area.
    pub fn udma_enqueue(&mut self, bank: Bank, offset: usize, len_bytes: usize, config: u32)
        requires
            old(self).wf(),
            bank == Bank::Tx ==> offset + len_bytes <= old(self).tx_buf_len_bytes,
            bank == Bank::Rx ==> offset + len_bytes <= old(self).rx_buf_len_bytes,
            bank == Bank::Custom ==> offset % 4 == 0 && len_bytes % 4 == 0 && offset + len_bytes
                <= SPIM_CMD_BUF_LEN_BYTES,
        ensures
            final(self).wf(),
            old(self).spec_same_config(*final(self)),
            final(self).mode == old(self).mode,
            final(self).endianness == old(self).endianness,
            final(self).tx_mem@ == old(self).tx_mem@,
            final(self).rx_mem@ == old(self).rx_mem@,
            final(self).cmd_mem@ == old(self).cmd_mem@,
            final(self).ops() == old(self).ops() + seq![
                old(self).spec_enqueue_op(bank, offset as int, len_bytes as int)
            ],
            bank == Bank::Tx ==> final(self).tx_bank == old(self).tx_bank.spec_after_enqueue(
                (old(self).spec_tx_phys() + offset) as u32, len_bytes as u32, config,
            ) && final(self).rx_bank == old(self).rx_bank && final(self).custom_bank == old(
                self,
            ).custom_bank,
            bank == Bank::Rx ==> final(self).rx_bank == old(self).rx_bank.spec_after_enqueue(
                (old(self).spec_rx_phys() + offset) as u32, len_bytes as u32, config,
            ) && final(self).tx_bank == old(self).tx_bank && final(self).custom_bank == old(
                self,
            ).custom_bank,
            bank == Bank::Custom ==> final(self).custom_bank == old(
                self,
            ).custom_bank.spec_after_enqueue(
                (old(self).spec_cmd_phys() + offset) as u32, len_bytes as u32, config,
            ) && final(self).tx_bank == old(self).tx_bank && final(self).rx_bank == old(
                self,
            ).rx_bank,
    {
        let entry: Xfer;
        let addr: u32;
        match bank {
            Bank::Tx => {
                entry = Xfer::TxBytes(copy_byte_range(&self.tx_mem, offset, len_bytes));
                addr = self.ifram.phys_base + (offset as u32);
            },
            Bank::Rx => {
                entry = Xfer::RxReq(len_bytes);
                addr = self.ifram.phys_base + (self.tx_buf_len_bytes as u32) + (offset as u32);
            },
            Bank::Custom => {
                entry = Xfer::Cmds(copy_word_range(&self.cmd_mem, offset / 4, len_bytes / 4));
                addr = self.ifram.phys_base + (self.tx_buf_len_bytes as u32)
                    + (self.rx_buf_len_bytes as u32) + (offset as u32);
            },
        }
        let ghost op = entry@;
        match bank {
            Bank::Tx => self.tx_bank.enqueue(addr, len_bytes as u32, config),
            Bank::Rx => self.rx_bank.enqueue(addr, len_bytes as u32, config),
            Bank::Custom => self.custom_bank.enqueue(addr, len_bytes as u32, config),
        }
        self.log.push(entry);
        proof {
            assert(final(self).ops() =~= old(self).ops() + seq![op]);
        }
    }

    /// Spins until the chosen bank reports idle, and accounts the engine
    /// completing everything queued on it: this is the state a busy-wait on
    /// the real registers observes when it ends.
    pub fn udma_await(&mut self, bank: Bank)
        ensures
            old(self).spec_same_config(*final(self)),
            final(self).mode == old(self).mode,
            final(self).endianness == old(self).endianness,
            final(self).tx_mem@ == old(self).tx_mem@,
            final(self).rx_mem@ == old(self).rx_mem@,
            final(self).cmd_mem@ == old(self).cmd_mem@,
            final(self).log@ == old(self).log@,
            final(self).wf() == old(self).wf(),
            bank == Bank::Tx ==> final(self).tx_bank == old(self).tx_bank.spec_after_drain()
                && final(self).rx_bank == old(self).rx_bank && final(self).custom_bank == old(
                self,
            ).custom_bank,
            bank == Bank::Rx ==> final(self).rx_bank == old(self).rx_bank.spec_after_drain()
                && final(self).tx_bank == old(self).tx_bank && final(self).custom_bank == old(
                self,
            ).custom_bank,
            bank == Bank::Custom ==> final(self).custom_bank == old(
                self,
            ).custom_bank.spec_after_drain() && final(self).tx_bank == old(self).tx_bank
                && final(self).rx_bank == old(self).rx_bank,
            !final(self).bank(bank).spec_busy(),
            final(self).bank(bank).spec_can_enqueue(),
    {
        match bank {
            Bank::Tx => self.tx_bank.drain(),
            Bank::Rx => self.rx_bank.drain(),
            Bank::Custom => self.custom_bank.drain(),
        }
    }
}

impl Udma for Spim {
    open spec fn bank(&self, bank: Bank) -> BankRegs {
        match bank {
            Bank::Rx => self.rx_bank,
            Bank::Tx => self.tx_bank,
            Bank::Custom => self.custom_bank,
        }
    }

    fn udma_busy(&self, bank: Bank) -> (r: bool) {
        let regs = match bank {
            Bank::Rx => &self.rx_bank,
            Bank::Tx => &self.tx_bank,
            Bank::Custom => &self.custom_bank,
        };
        regs.saddr != 0
    }

    fn udma_can_enqueue(&self, bank: Bank) -> (r: bool) {
        let regs = match bank {
            Bank::Rx => &self.rx_bank,
            Bank::Tx => &self.tx_bank,
            Bank::Custom => &self.custom_bank,
        };
        regs.cfg & crate::dma::CFG_SHADOW == 0
    }
}

/// Smallest page multiple at or above `n`: the length a freshly obtained
/// transfer region is rounded to.
pub open spec fn spec_page_round(n: int) -> int {
    if n % 4096 == 0 {
        n
    } else {
        (n / 4096 + 1) * 4096
    }
}

impl Spim {
    /// Builds a driver instance on a freshly obtained transfer region of
    /// `max_tx_len_bytes + max_rx_len_bytes + 16` bytes, rounded up to page
    /// granularity, and immediately uploads one configuration command
    /// programming divider, polarity and phase.
    ///
    /// The clock divider is `sys_clk_freq / (2 * spi_clk_freq)` and must
    /// stay below 256; the area lengths must fit the 16-bit hardware length
    /// field.  Construction yields no instance only if the region cannot be
    /// obtained, which the modeled allocator never refuses.
    pub fn new(
        channel: SpimChannel,
        spi_clk_freq: u32,
        sys_clk_freq: u32,
        pol: SpimClkPol,
        pha: SpimClkPha,
        chip_select: SpimCs,
        sot_wait: u8,
        eot_wait: u8,
        event_channel: Option<EventChannel>,
        max_tx_len_bytes: usize,
        max_rx_len_bytes: usize,
        dummy_cycles: Option<u8>,
    ) -> (r: Option<Spim>)
        requires
            max_tx_len_bytes < 65536,
            max_rx_len_bytes < 65536,
            spi_clk_freq > 0,
            2 * spi_clk_freq <= u32::MAX,
            sys_clk_freq as int / (2 * spi_clk_freq) < 256,
        ensures
            r matches Some(s) ==> {
                &&& s.wf()
                &&& s.channel == channel
                &&& s.cs == chip_select
                &&& s.sot_wait == sot_wait
                &&& s.eot_wait == eot_wait
                &&& s.event_channel == event_channel
                &&& s.mode == SpimMode::Standard
                &&& s.align == SpimByteAlign::Disable
                &&& s.tx_buf_len_bytes == max_tx_len_bytes
                &&& s.rx_buf_len_bytes == max_rx_len_bytes
                &&& s.dummy_cycles == match dummy_cycles {
                    Some(d) => d,
                    None => 0,
                }
                &&& s.endianness == SpimEndian::MsbFirst
                &&& s.ifram.len_bytes == spec_page_round(
                    max_tx_len_bytes + max_rx_len_bytes + SPIM_CMD_BUF_LEN_BYTES,
                )
                &&& s.ifram.phys_base == crate::ifram::IFRAM_DEFAULT_BASE
                &&& s.tx_mem@ == Seq::new(max_tx_len_bytes as nat, |i: int| 0u8)
                &&& s.rx_mem@ == Seq::new(max_rx_len_bytes as nat, |i: int| 0u8)
                &&& s.ops() == seq![
                    DmaOp::Cmds(seq![
                        SpimCmd::Config(
                            pol,
                            pha,
                            (sys_clk_freq as int / (2 * spi_clk_freq)) as u8,
                        ).spec_encode(),
                    ]),
                ]
            },
            r is Some,
    {
        let mut reqlen: usize = max_tx_len_bytes + max_rx_len_bytes + SPIM_CMD_BUF_LEN_BYTES;
        if reqlen % 4096 != 0 {
            // round up to the nearest page size
            reqlen = (reqlen / 4096 + 1) * 4096;
        }
        match IframRange::request(reqlen, None) {
            Some(ifram) => Some(
                Self::new_with_ifram(
                    channel,
                    spi_clk_freq,
                    sys_clk_freq,
                    pol,
                    pha,
                    chip_select,
                    sot_wait,
                    eot_wait,
                    event_channel,
                    max_tx_len_bytes,
                    max_rx_len_bytes,
                    dummy_cycles,
                    None,
                    ifram,
                ),
            ),
            None => None,
        }
    }

    /// Builds a driver instance over a transfer region the caller already
    /// owns, and immediately uploads one configuration command programming
    /// divider, polarity and phase.  The region must hold the two data
    /// areas plus the 16-byte command area.
    pub fn new_with_ifram(
        channel: SpimChannel,
        spi_clk_freq: u32,
        sys_clk_freq: u32,
        pol: SpimClkPol,
        pha: SpimClkPha,
        chip_select: SpimCs,
        sot_wait: u8,
        eot_wait: u8,
        event_channel: Option<EventChannel>,
        max_tx_len_bytes: usize,
        max_rx_len_bytes: usize,
        dummy_cycles: Option<u8>,
        mode: Option<SpimMode>,
        ifram: IframRange,
    ) -> (s: Spim)
        requires
            max_tx_len_bytes < 65536,
            max_rx_len_bytes < 65536,
            spi_clk_freq > 0,
            2 * spi_clk_freq <= u32::MAX,
            sys_clk_freq as int / (2 * spi_clk_freq) < 256,
            ifram.spec_valid(),
            ifram.len_bytes >= max_tx_len_bytes + max_rx_len_bytes + SPIM_CMD_BUF_LEN_BYTES,
        ensures
            s.wf(),
            s.channel == channel,
            s.cs == chip_select,
            s.sot_wait == sot_wait,
            s.eot_wait == eot_wait,
            s.event_channel == event_channel,
            s.mode == match mode {
                Some(m) => m,
                None => SpimMode::Standard,
            },
            s.align == SpimByteAlign::Disable,
            s.ifram == ifram,
            s.tx_buf_len_bytes == max_tx_len_bytes,
            s.rx_buf_len_bytes == max_rx_len_bytes,
            s.dummy_cycles == match dummy_cycles {
                Some(d) => d,
                None => 0,
            },
            s.endianness == SpimEndian::MsbFirst,
            s.tx_mem@ == Seq::new(max_tx_len_bytes as nat, |i: int| 0u8),
            s.rx_mem@ == Seq::new(max_rx_len_bytes as nat, |i: int| 0u8),
            s.ops() == seq![
                DmaOp::Cmds(seq![
                    SpimCmd::Config(pol, pha, (sys_clk_freq as int / (2 * spi_clk_freq)) as u8)
                        .spec_encode(),
                ]),
            ],
    {
        let clk_div: u32 = sys_clk_freq / (2 * spi_clk_freq);
        let mode_val = match mode {
            Some(m) => m,
            None => SpimMode::Standard,
        };
        let dummy = match dummy_cycles {
            Some(d) => d,
            None => 0,
        };
        let mut spim = Spim {
            rx_bank: BankRegs::idle(),
            tx_bank: BankRegs::idle(),
            custom_bank: BankRegs::idle(),
            channel,
            cs: chip_select,
            sot_wait,
            eot_wait,
            event_channel,
            mode: mode_val,
            align: SpimByteAlign::Disable,
            ifram,
            tx_buf_len_bytes: max_tx_len_bytes,
            rx_buf_len_bytes: max_rx_len_bytes,
            dummy_cycles: dummy,
            endianness: SpimEndian::MsbFirst,
            tx_mem: vec![0u8; max_tx_len_bytes],
            rx_mem: vec![0u8; max_rx_len_bytes],
            cmd_mem: vec![0u32; 4],
            log: Vec::new(),
        };
        let cfg_list = [SpimCmd::Config(pol, pha, clk_div as u8)];
        proof {
            let c = SpimCmd::Config(pol, pha, (sys_clk_freq as int / (2 * spi_clk_freq)) as u8);
            assert(clk_div as u8 == (sys_clk_freq as int / (2 * spi_clk_freq)) as u8);
            assert(cfg_list@ =~= seq![c]);
            assert(spim.ops() =~= Seq::<DmaOp>::empty());
        }
        spim.send_cmd_list(&cfg_list);
        proof {
            let c = SpimCmd::Config(pol, pha, (sys_clk_freq as int / (2 * spi_clk_freq)) as u8);
            assert(spec_encoded(cfg_list@) =~= seq![c.spec_encode()]);
            assert(spim.ops() =~= seq![DmaOp::Cmds(seq![c.spec_encode()])]);
        }
        spim
    }

    /// Reassembles an instance from parts carried across a thread boundary.
    /// The region's contents are not tracked across the crossing, so the
    /// modeled areas start out zeroed; no configuration command is issued.
    pub fn from_raw_parts(
        channel: SpimChannel,
        cs: SpimCs,
        sot_wait: u8,
        eot_wait: u8,
        event_channel: Option<EventChannel>,
        mode: SpimMode,
        align: SpimByteAlign,
        ifram: IframRange,
        tx_buf_len_bytes: usize,
        rx_buf_len_bytes: usize,
        dummy_cycles: u8,
    ) -> (s: Spim)
        requires
            tx_buf_len_bytes < 65536,
            rx_buf_len_bytes < 65536,
            ifram.spec_valid(),
            ifram.len_bytes >= tx_buf_len_bytes + rx_buf_len_bytes + SPIM_CMD_BUF_LEN_BYTES,
        ensures
            s.wf(),
            s.channel == channel,
            s.cs == cs,
            s.sot_wait == sot_wait,
            s.eot_wait == eot_wait,
            s.event_channel == event_channel,
            s.mode == mode,
            s.align == align,
            s.ifram == ifram,
            s.tx_buf_len_bytes == tx_buf_len_bytes,
            s.rx_buf_len_bytes == rx_buf_len_bytes,
            s.dummy_cycles == dummy_cycles,
            s.endianness == SpimEndian::MsbFirst,
            s.ops() == Seq::<DmaOp>::empty(),
    {
        let s = Spim {
            rx_bank: BankRegs::idle(),
            tx_bank: BankRegs::idle(),
            custom_bank: BankRegs::idle(),
            channel,
            cs,
            sot_wait,
            eot_wait,
            event_channel,
            mode,
            align,
            ifram,
            tx_buf_len_bytes,
            rx_buf_len_bytes,
            dummy_cycles,
            endianness: SpimEndian::MsbFirst,
            tx_mem: vec![0u8; tx_buf_len_bytes],
            rx_mem: vec![0u8; rx_buf_len_bytes],
            cmd_mem: vec![0u32; 4],
            log: Vec::new(),
        };
        proof {
            assert(s.ops() =~= Seq::<DmaOp>::empty());
        }
        s
    }

    /// Takes an instance apart into the values that cross a thread
    /// boundary: channel, chip select, the two wait counts, the event
    /// channel, mode, alignment, the region descriptor, the two area
    /// lengths and the dummy-cycle count, in that order.
    pub fn into_raw_parts(&self) -> (r: (
        SpimChannel,
        SpimCs,
        u8,
        u8,
        Option<EventChannel>,
        SpimMode,
        SpimByteAlign,
        IframRange,
        usize,
        usize,
        u8,
    ))
        ensures
            r == (
                self.channel,
                self.cs,
                self.sot_wait,
                self.eot_wait,
                self.event_channel,
                self.mode,
                self.align,
                self.ifram,
                self.tx_buf_len_bytes,
                self.rx_buf_len_bytes,
                self.dummy_cycles,
            ),
    {
        (
            self.channel,
            self.cs,
            self.sot_wait,
            self.eot_wait,
            self.event_channel,
            self.mode,
            self.align,
            self.ifram,
            self.tx_buf_len_bytes,
            self.rx_buf_len_bytes,
            self.dummy_cycles,
        )
    }

    /// Sets the bit order for data movement.  Transfers to memory devices
    /// disregard this and always move most-significant bit first.
    pub fn set_endianness(&mut self, endianness: SpimEndian)
        ensures
            *final(self) == (Spim { endianness, ..*old(self) }),
    {
        self.endianness = endianness;
    }

    /// The current bit order for data movement.
    pub fn get_endianness(&self) -> (r: SpimEndian)
        ensures
            r == self.endianness,
    {
        self.endianness
    }

    /// The receive area's current contents.
    pub fn rx_buf(&self) -> (r: &Vec<u8>)
        ensures
            r@ == self.rx_mem@,
    {
        &self.rx_mem
    }

    /// The transmit area's current contents.
    pub fn tx_buf(&self) -> (r: &Vec<u8>)
        ensures
            r@ == self.tx_mem@,
    {
        &self.tx_mem
    }

    /// The transmit area's contents, writable in place for callers that
    /// stage a payload before [`Spim::tx_data_async_from_parts`].  The
    /// area's length is part of the instance's well-formedness; a caller
    /// that resizes the vector walks away from it.
    pub fn tx_buf_mut(&mut self) -> (r: &mut Vec<u8>)
        ensures
            *r == old(self).tx_mem,
            *final(self) == (Spim { tx_mem: *final(r), ..*old(self) }),
    {
        &mut self.tx_mem
    }

    /// The physical address and byte length of the transmit area, as the
    /// engine reaches it.
    pub fn tx_buf_phys(&self) -> (r: (u32, usize))
        requires
            self.wf(),
        ensures
            r.0 == self.spec_tx_phys(),
            r.1 == self.tx_buf_len_bytes,
    {
        (self.ifram.phys_base, self.tx_buf_len_bytes)
    }

    /// The physical address and byte length of the receive area, as the
    /// engine reaches it.
    pub fn rx_buf_phys(&self) -> (r: (u32, usize))
        requires
            self.wf(),
        ensures
            r.0 == self.spec_rx_phys(),
            r.1 == self.rx_buf_len_bytes,
    {
        (self.ifram.phys_base + (self.tx_buf_len_bytes as u32), self.rx_buf_len_bytes)
    }

    /// Stages bytes into the transmit area at a caller-chosen offset,
    /// leaving the rest of the area alone.
    pub fn write_tx(&mut self, offset: usize, data: &[u8])
        requires
            old(self).wf(),
            offset + data@.len() <= old(self).tx_buf_len_bytes,
        ensures
            final(self).wf(),
            *final(self) == (Spim { tx_mem: final(self).tx_mem, ..*old(self) }),
            final(self).tx_mem@ == old(self).tx_mem@.take(offset as int) + data@ + old(
                self,
            ).tx_mem@.skip(offset + data@.len()),
    {
        let len: usize = data.len();
        let mut i: usize = 0;
        while i < len
            invariant
                i <= len,
                len == data@.len(),
                offset + len <= old(self).tx_buf_len_bytes,
                offset + len <= old(self).tx_mem@.len(),
                *self == (Spim { tx_mem: self.tx_mem, ..*old(self) }),
                self.tx_mem@.len() == old(self).tx_mem@.len(),
                forall|j: int| 0 <= j < i ==> self.tx_mem@[offset + j] == data@[j],
                forall|j: int| 0 <= j < offset ==> self.tx_mem@[j] == old(self).tx_mem@[j],
                forall|j: int| offset + len <= j < self.tx_mem@.len() ==> self.tx_mem@[j] == old(
                    self,
                ).tx_mem@[j],
                forall|j: int| offset + i <= j < offset + len ==> self.tx_mem@[j] == old(
                    self,
                ).tx_mem@[j],
            decreases len - i,
        {
            self.tx_mem[offset + i] = data[i];
            i = i + 1;
        }
        proof {
            assert(final(self).tx_mem@ =~= old(self).tx_mem@.take(offset as int) + data@ + old(
                self,
            ).tx_mem@.skip(offset + data@.len()));
        }
    }

    /// Models the controller depositing received bytes at the start of the
    /// receive area; the rest of the area keeps its old contents.  The
    /// environment — a test bench, or the register shim reading the real
    /// region back — supplies what the attached device returned.
    pub fn deposit_rx(&mut self, data: &[u8])
        requires
            old(self).wf(),
            data@.len() <= old(self).rx_buf_len_bytes,
        ensures
            final(self).wf(),
            *final(self) == (Spim { rx_mem: final(self).rx_mem, ..*old(self) }),
            final(self).rx_mem@ == data@ + old(self).rx_mem@.skip(data@.len() as int),
    {
        let len: usize = data.len();
        let mut i: usize = 0;
        while i < len
            invariant
                i <= len,
                len == data@.len(),
                len <= old(self).rx_mem@.len(),
                *self == (Spim { rx_mem: self.rx_mem, ..*old(self) }),
                self.rx_mem@.len() == old(self).rx_mem@.len(),
                forall|j: int| 0 <= j < i ==> self.rx_mem@[j] == data@[j],
                forall|j: int| i <= j < self.rx_mem@.len() ==> self.rx_mem@[j] == old(
                    self,
                ).rx_mem@[j],
            decreases len - i,
        {
            self.rx_mem[i] = data[i];
            i = i + 1;
        }
        proof {
            assert(final(self).rx_mem@ =~= data@ + old(self).rx_mem@.skip(data@.len() as int));
        }
    }

    /// Encodes up to four commands at a time into the command area and
    /// hands each batch to the custom bank, without waiting between
    /// batches.  Correctness of back-to-back batches rests on the bank's
    /// two-deep queue; lists longer than eight words can outrun it — an
    /// open hazard of the hardware, preserved as such.
    pub fn send_cmd_list(&mut self, cmds: &[SpimCmd])
        requires
            old(self).wf(),
            spec_all_encodable(cmds@),
        ensures
            final(self).wf(),
            old(self).spec_same_config(*final(self)),
            final(self).mode == old(self).mode,
            final(self).endianness == old(self).endianness,
            final(self).tx_mem@ == old(self).tx_mem@,
            final(self).rx_mem@ == old(self).rx_mem@,
            final(self).tx_bank == old(self).tx_bank,
            final(self).rx_bank == old(self).rx_bank,
            final(self).ops() == old(self).ops() + spec_cmd_list_ops(cmds@),
    {
        let total: usize = cmds.len();
        proof {
            assert(cmds@.skip(0) =~= cmds@);
        }
        let mut idx: usize = 0;
        while idx < total
            invariant
                idx <= total,
                total == cmds@.len(),
                spec_all_encodable(cmds@),
                self.wf(),
                old(self).spec_same_config(*self),
                self.mode == old(self).mode,
                self.endianness == old(self).endianness,
                self.tx_mem@ == old(self).tx_mem@,
                self.rx_mem@ == old(self).rx_mem@,
                self.tx_bank == old(self).tx_bank,
                self.rx_bank == old(self).rx_bank,
                self.ops() + spec_cmd_list_ops(cmds@.skip(idx as int)) == old(self).ops()
                    + spec_cmd_list_ops(cmds@),
            decreases total - idx,
        {
            let remaining = total - idx;
            let k: usize = if remaining < 4 { remaining } else { 4 };
            let ghost pre_chunk = *self;
            let mut j: usize = 0;
            while j < k
                invariant
                    j <= k,
                    k <= 4,
                    idx + k <= total,
                    total == cmds@.len(),
                    spec_all_encodable(cmds@),
                    *self == (Spim { cmd_mem: self.cmd_mem, ..pre_chunk }),
                    self.cmd_mem@.len() == 4,
                    forall|t: int| 0 <= t < j ==> self.cmd_mem@[t] == cmds@[idx + t].spec_encode(),
                decreases k - j,
            {
                self.cmd_mem[j] = cmds[idx + j].encode();
                j = j + 1;
            }
            let ghost pre_enqueue = *self;
            self.udma_enqueue(Bank::Custom, 0, 4 * k, CFG_EN | CFG_SIZE_32);
            proof {
                lemma_cmd_list_ops_step(cmds@, idx as int, k as int);
                assert(pre_enqueue.cmd_mem@.subrange(0, k as int) =~= spec_encoded(
                    cmds@.subrange(idx as int, idx + k),
                ));
                assert(self.ops() + spec_cmd_list_ops(cmds@.skip(idx + k)) =~= old(self).ops()
                    + spec_cmd_list_ops(cmds@));
            }
            idx = idx + k;
        }
        proof {
            assert(cmds@.skip(idx as int) =~= Seq::<SpimCmd>::empty());
            assert(final(self).ops() =~= old(self).ops() + spec_cmd_list_ops(cmds@));
        }
    }

    /// Whether either the transmit bank or the custom bank still holds an
    /// active transfer.
    pub fn is_tx_busy(&self) -> (r: bool)
        ensures
            r == (self.tx_bank.spec_busy() || self.custom_bank.spec_busy()),
    {
        self.udma_busy(Bank::Tx) || self.udma_busy(Bank::Custom)
    }

    /// Spins until both the transmit and the custom bank report idle,
    /// yielding cooperatively under a scheduler when asked to; accounts the
    /// engine completing everything queued on both banks.
    pub fn tx_data_await(&mut self, _use_yield: bool)
        ensures
            old(self).spec_same_config(*final(self)),
            final(self).mode == old(self).mode,
            final(self).endianness == old(self).endianness,
            final(self).tx_mem@ == old(self).tx_mem@,
            final(self).rx_mem@ == old(self).rx_mem@,
            final(self).cmd_mem@ == old(self).cmd_mem@,
            final(self).log@ == old(self).log@,
            final(self).wf() == old(self).wf(),
            final(self).tx_bank == old(self).tx_bank.spec_after_drain(),
            final(self).custom_bank == old(self).custom_bank.spec_after_drain(),
            final(self).rx_bank == old(self).rx_bank,
            !final(self).is_tx_busy_spec(),
    {
        self.udma_await(Bank::Tx);
        self.udma_await(Bank::Custom);
    }

    /// Either the transmit bank or the custom bank holds an active
    /// transfer.
    pub open spec fn is_tx_busy_spec(self) -> bool {
        self.tx_bank.spec_busy() || self.custom_bank.spec_busy()
    }
}

/// Peeling one batch off a command list: the transfers of the whole list
/// are the first batch's upload followed by the transfers of the rest.
proof fn lemma_cmd_list_ops_step(cmds: Seq<SpimCmd>, idx: int, k: int)
    requires
        0 <= idx < cmds.len(),
        k == vstd::math::min(4, cmds.len() - idx),
    ensures
        spec_cmd_list_ops(cmds.skip(idx)) == seq![
            DmaOp::Cmds(spec_encoded(cmds.subrange(idx, idx + k)))
        ] + spec_cmd_list_ops(cmds.skip(idx + k)),
    decreases cmds.len() - idx,
{
    let s = cmds.skip(idx);
    if s.len() <= 4 {
        assert(k == s.len());
        assert(s =~= cmds.subrange(idx, idx + k));
        assert(cmds.skip(idx + k) =~= Seq::<SpimCmd>::empty());
        assert(spec_cmd_list_ops(cmds.skip(idx + k)) =~= Seq::<DmaOp>::empty());
        assert(spec_cmd_list_ops(s) =~= seq![
            DmaOp::Cmds(spec_encoded(cmds.subrange(idx, idx + k)))
        ] + spec_cmd_list_ops(cmds.skip(idx + k)));
    } else {
        assert(k == 4);
        assert(s.take(4) =~= cmds.subrange(idx, idx + 4));
        assert(s.skip(4) =~= cmds.skip(idx + 4));
    }
}

/// The command list that asserts a chip-select line: the assertion itself,
/// followed by a start-of-transfer wait when one is configured.
pub open spec fn spec_start_cmds(cs: SpimCs, sot_wait: u8) -> Seq<SpimCmd> {
    if sot_wait == 0 {
        seq![SpimCmd::StartXfer(cs)]
    } else {
        seq![SpimCmd::StartXfer(cs), SpimCmd::Wait(SpimWaitType::Cycles(sot_wait))]
    }
}

/// The command list that de-asserts chip select: an end-of-transfer wait
/// when one is configured, then the de-assertion with its event flag.
pub open spec fn spec_end_cmds(eot_wait: u8, evt: SpimEventGen) -> Seq<SpimCmd> {
    if eot_wait == 0 {
        seq![SpimCmd::EndXfer(evt)]
    } else {
        seq![SpimCmd::Wait(SpimWaitType::Cycles(eot_wait)), SpimCmd::EndXfer(evt)]
    }
}

/// The data instruction of one transmit chunk.
pub open spec fn spec_tx_data_cmd(mode: SpimMode, endian: SpimEndian, tx_len: int) -> SpimCmd {
    SpimCmd::TxData(mode, SpimWordsPerXfer::Words1, 8, endian, tx_len as u32)
}

/// The transfers of the chunk loop of a transmit, from `sent` bytes already
/// moved: each chunk takes at most the transmit area's capacity, uploads its
/// data instruction — folded together with the chip-select release when the
/// whole payload fits one chunk and framing is on ("one-shot") — and hands
/// the chunk's bytes to the transmit bank.
pub open spec fn spec_tx_chunk_ops(
    mode: SpimMode,
    endian: SpimEndian,
    evt: SpimEventGen,
    use_cs: bool,
    src: Seq<u8>,
    cap: int,
    sent: int,
) -> Seq<DmaOp>
    decreases src.len() - sent,
    when 0 <= sent && (sent >= src.len() || 0 < cap)
{
    if sent >= src.len() {
        Seq::empty()
    } else {
        let tx_len: int = if src.len() - sent < cap {
            src.len() - sent
        } else {
            cap
        };
        let cmds: Seq<SpimCmd> = if tx_len == src.len() && use_cs {
            seq![spec_tx_data_cmd(mode, endian, tx_len), SpimCmd::EndXfer(evt)]
        } else {
            seq![spec_tx_data_cmd(mode, endian, tx_len)]
        };
        spec_cmd_list_ops(cmds) + seq![DmaOp::TxBytes(src.subrange(sent, sent + tx_len))]
            + spec_tx_chunk_ops(mode, endian, evt, use_cs, src, cap, sent + tx_len)
    }
}

/// Everything a framed or unframed transmit hands the engine: the
/// chip-select assertion when framing is on, the chunk loop, and — unless
/// the one-shot path already folded it in — the chip-select release.
pub open spec fn spec_tx_ops(
    mode: SpimMode,
    endian: SpimEndian,
    cs: SpimCs,
    sot_wait: u8,
    eot_wait: u8,
    use_cs: bool,
    eot_event: bool,
    src: Seq<u8>,
    cap: int,
) -> Seq<DmaOp> {
    let evt = if eot_event {
        SpimEventGen::Enabled
    } else {
        SpimEventGen::Disabled
    };
    let pre: Seq<DmaOp> = if use_cs {
        spec_cmd_list_ops(spec_start_cmds(cs, sot_wait))
    } else {
        Seq::empty()
    };
    let one_shot = use_cs && 0 < src.len() <= cap;
    let post: Seq<DmaOp> = if use_cs && !one_shot {
        spec_cmd_list_ops(spec_end_cmds(eot_wait, evt))
    } else {
        Seq::empty()
    };
    pre + spec_tx_chunk_ops(mode, endian, evt, use_cs, src, cap, 0) + post
}

impl Spim {
    /// Queues a payload into the interface and returns once the last chunk
    /// is enqueued, which can be before transmission finishes.  With
    /// `use_cs` the payload is framed by chip-select assertion and release;
    /// `eot_event` carries the completion-event flag into the release.
    /// The exact transfers handed to the engine are
    /// [`spec_tx_ops`] over the payload.
    pub fn tx_data_async(&mut self, data: &[u8], use_cs: bool, eot_event: bool)
        requires
            old(self).wf(),
            data@.len() > 0 ==> old(self).tx_buf_len_bytes > 0,
        ensures
            final(self).wf(),
            old(self).spec_same_config(*final(self)),
            final(self).mode == old(self).mode,
            final(self).endianness == old(self).endianness,
            final(self).rx_mem@ == old(self).rx_mem@,
            final(self).rx_bank == old(self).rx_bank,
            final(self).ops() == old(self).ops() + spec_tx_ops(
                old(self).mode,
                old(self).endianness,
                old(self).cs,
                old(self).sot_wait,
                old(self).eot_wait,
                use_cs,
                eot_event,
                data@,
                old(self).tx_buf_len_bytes as int,
            ),
    {
        self.tx_data_async_inner(Some(data), None, use_cs, eot_event);
    }

    /// Like [`Spim::tx_data_async`], but the payload already sits in the
    /// transmit area at `start`, so nothing is copied; the `(start, len)`
    /// pair names the resident bytes to send.
    pub fn tx_data_async_from_parts(
        &mut self,
        start: usize,
        len: usize,
        use_cs: bool,
        eot_event: bool,
    )
        requires
            old(self).wf(),
            start + len <= old(self).tx_buf_len_bytes,
        ensures
            final(self).wf(),
            old(self).spec_same_config(*final(self)),
            final(self).mode == old(self).mode,
            final(self).endianness == old(self).endianness,
            final(self).rx_mem@ == old(self).rx_mem@,
            final(self).rx_bank == old(self).rx_bank,
            final(self).tx_mem@ == old(self).tx_mem@,
            final(self).ops() == old(self).ops() + spec_tx_ops(
                old(self).mode,
                old(self).endianness,
                old(self).cs,
                old(self).sot_wait,
                old(self).eot_wait,
                use_cs,
                eot_event,
                old(self).tx_mem@.subrange(start as int, start + len),
                old(self).tx_buf_len_bytes as int,
            ),
    {
        self.tx_data_async_inner(None, Some((start, len)), use_cs, eot_event);
    }

    /// The shared body of the two transmit entry points: `data` names a
    /// payload to copy chunk by chunk, `parts` a payload already resident
    /// in the transmit area.  When both are given, `data` takes precedence.
    #[verifier::rlimit(100)]
    #[verifier::spinoff_prover]
    fn tx_data_async_inner(
        &mut self,
        data: Option<&[u8]>,
        parts: Option<(usize, usize)>,
        use_cs: bool,
        eot_event: bool,
    )
        requires
            old(self).wf(),
            data is Some || parts is Some,
            data matches Some(d) ==> (d@.len() > 0 ==> old(self).tx_buf_len_bytes > 0),
            data is None ==> (parts matches Some(p) ==> p.0 + p.1 <= old(self).tx_buf_len_bytes),
        ensures
            final(self).wf(),
            old(self).spec_same_config(*final(self)),
            final(self).mode == old(self).mode,
            final(self).endianness == old(self).endianness,
            final(self).rx_mem@ == old(self).rx_mem@,
            final(self).rx_bank == old(self).rx_bank,
            data is None ==> final(self).tx_mem@ == old(self).tx_mem@,
            final(self).ops() == old(self).ops() + spec_tx_ops(
                old(self).mode,
                old(self).endianness,
                old(self).cs,
                old(self).sot_wait,
                old(self).eot_wait,
                use_cs,
                eot_event,
                match data {
                    Some(d) => d@,
                    None => match parts {
                        Some(p) => old(self).tx_mem@.subrange(p.0 as int, p.0 + p.1),
                        None => Seq::empty(),
                    },
                },
                old(self).tx_buf_len_bytes as int,
            ),
    {
        let ghost src: Seq<u8> = match data {
            Some(d) => d@,
            None => match parts {
                Some(p) => old(self).tx_mem@.subrange(p.0 as int, p.0 + p.1),
                None => Seq::empty(),
            },
        };
        let total: usize = match data {
            Some(d) => d.len(),
            None => match parts {
                Some(p) => p.1,
                None => 0,
            },
        };
        let cap: usize = self.tx_buf_len_bytes;
        let evt = if eot_event {
            SpimEventGen::Enabled
        } else {
            SpimEventGen::Disabled
        };

        if use_cs {
            // ensure any previous transaction is completed
            self.udma_await(Bank::Custom);
            self.udma_await(Bank::Tx);
            if self.sot_wait == 0 {
                let start_list = [SpimCmd::StartXfer(self.cs)];
                proof {
                    assert(start_list@ =~= spec_start_cmds(old(self).cs, old(self).sot_wait));
                }
                self.send_cmd_list(&start_list);
            } else {
                let start_list = [
                    SpimCmd::StartXfer(self.cs),
                    SpimCmd::Wait(SpimWaitType::Cycles(self.sot_wait)),
                ];
                proof {
                    assert(start_list@ =~= spec_start_cmds(old(self).cs, old(self).sot_wait));
                }
                self.send_cmd_list(&start_list);
            }
            // wait for CS to assert
            self.udma_await(Bank::Custom);
        }
        let ghost pre_ops: Seq<DmaOp> = old(self).ops() + if use_cs {
            spec_cmd_list_ops(spec_start_cmds(old(self).cs, old(self).sot_wait))
        } else {
            Seq::empty()
        };
        proof {
            assert(self.ops() =~= pre_ops);
        }

        let mut one_shot = false;
        let mut words_sent: usize = 0;
        while words_sent < total
            invariant
                self.wf(),
                old(self).spec_same_config(*self),
                self.mode == old(self).mode,
                self.endianness == old(self).endianness,
                self.rx_mem@ == old(self).rx_mem@,
                self.rx_bank == old(self).rx_bank,
                cap == self.tx_buf_len_bytes,
                total == src.len(),
                words_sent <= total,
                total > 0 ==> cap > 0,
                data matches Some(d) ==> src == d@,
                data is None ==> self.tx_mem@ == old(self).tx_mem@,
                data is None ==> (parts matches Some(p) ==> p.0 + p.1 <= cap && src == old(
                    self,
                ).tx_mem@.subrange(p.0 as int, p.0 + p.1) && total == p.1),
                data is None ==> (parts is None ==> total == 0),
                one_shot == (use_cs && 0 < total <= cap && words_sent > 0),
                self.ops() + spec_tx_chunk_ops(
                    old(self).mode,
                    old(self).endianness,
                    evt,
                    use_cs,
                    src,
                    cap as int,
                    words_sent as int,
                ) == pre_ops + spec_tx_chunk_ops(
                    old(self).mode,
                    old(self).endianness,
                    evt,
                    use_cs,
                    src,
                    cap as int,
                    0,
                ),
            decreases total - words_sent,
        {
            // determine the valid length of data we could send
            let remaining = total - words_sent;
            let tx_len: usize = if remaining < cap {
                remaining
            } else {
                cap
            };
            let ghost chunk_cmds: Seq<SpimCmd> = if tx_len == total && use_cs {
                seq![
                    spec_tx_data_cmd(old(self).mode, old(self).endianness, tx_len as int),
                    SpimCmd::EndXfer(evt),
                ]
            } else {
                seq![spec_tx_data_cmd(old(self).mode, old(self).endianness, tx_len as int)]
            };
            if tx_len == total && use_cs {
                one_shot = true;
                let cmd_list_oneshot = [
                    SpimCmd::TxData(
                        self.mode,
                        SpimWordsPerXfer::Words1,
                        8,
                        self.get_endianness(),
                        tx_len as u32,
                    ),
                    SpimCmd::EndXfer(evt),
                ];
                proof {
                    assert(cmd_list_oneshot@ =~= chunk_cmds);
                    assert(cmd_list_oneshot@[0].spec_encodable());
                    assert(cmd_list_oneshot@[1].spec_encodable());
                }
                self.send_cmd_list(&cmd_list_oneshot);
            } else {
                let cmd_list_repeated = [
                    SpimCmd::TxData(
                        self.mode,
                        SpimWordsPerXfer::Words1,
                        8,
                        self.get_endianness(),
                        tx_len as u32,
                    ),
                ];
                proof {
                    assert(cmd_list_repeated@ =~= chunk_cmds);
                    assert(cmd_list_repeated@[0].spec_encodable());
                }
                self.send_cmd_list(&cmd_list_repeated);
            }
            let ghost after_cmds = *self;
            if let Some(d) = data {
                self.write_tx(0, &d[words_sent..words_sent + tx_len]);
                self.udma_enqueue(Bank::Tx, 0, tx_len, CFG_EN | CFG_SIZE_8);
                proof {
                    assert(self.tx_mem@.subrange(0, tx_len as int) =~= src.subrange(
                        words_sent as int,
                        words_sent + tx_len,
                    ));
                }
            } else {
                let p = parts.unwrap();
                self.udma_enqueue(Bank::Tx, p.0 + words_sent, tx_len, CFG_EN | CFG_SIZE_8);
                proof {
                    assert(self.tx_mem@.subrange(
                        p.0 + words_sent,
                        p.0 + words_sent + tx_len,
                    ) =~= src.subrange(words_sent as int, words_sent + tx_len));
                }
            }
            proof {
                lemma_tx_chunk_ops_step(
                    old(self).mode,
                    old(self).endianness,
                    evt,
                    use_cs,
                    src,
                    cap as int,
                    words_sent as int,
                );
                assert(self.ops() + spec_tx_chunk_ops(
                    old(self).mode,
                    old(self).endianness,
                    evt,
                    use_cs,
                    src,
                    cap as int,
                    words_sent + tx_len,
                ) =~= pre_ops + spec_tx_chunk_ops(
                    old(self).mode,
                    old(self).endianness,
                    evt,
                    use_cs,
                    src,
                    cap as int,
                    0,
                ));
            }
            words_sent = words_sent + tx_len;

            // wait until the transfer is done before the next chunk; the
            // last chunk falls through without waiting
            if words_sent < total {
                self.udma_await(Bank::Tx);
            }
        }
        if use_cs && !one_shot {
            // wait for all data to transmit before de-asserting CS
            self.udma_await(Bank::Tx);
            if self.eot_wait == 0 {
                let end_list = [SpimCmd::EndXfer(evt)];
                proof {
                    assert(end_list@ =~= spec_end_cmds(old(self).eot_wait, evt));
                }
                self.send_cmd_list(&end_list);
            } else {
                let end_list = [
                    SpimCmd::Wait(SpimWaitType::Cycles(self.eot_wait)),
                    SpimCmd::EndXfer(evt),
                ];
                proof {
                    assert(end_list@ =~= spec_end_cmds(old(self).eot_wait, evt));
                }
                self.send_cmd_list(&end_list);
            }
            self.udma_await(Bank::Custom);
        }
        proof {
            assert(spec_tx_chunk_ops(
                old(self).mode,
                old(self).endianness,
                evt,
                use_cs,
                src,
                cap as int,
                src.len() as int,
            ) =~= Seq::<DmaOp>::empty());
            assert(final(self).ops() =~= old(self).ops() + spec_tx_ops(
                old(self).mode,
                old(self).endianness,
                old(self).cs,
                old(self).sot_wait,
                old(self).eot_wait,
                use_cs,
                eot_event,
                src,
                cap as int,
            ));
        }
    }
}

/// Peeling one chunk off the transmit loop: from `sent` bytes moved, the
/// remaining transfers are the chunk's command upload, its bytes, then the
/// transfers from `sent + tx_len`.
proof fn lemma_tx_chunk_ops_step(
    mode: SpimMode,
    endian: SpimEndian,
    evt: SpimEventGen,
    use_cs: bool,
    src: Seq<u8>,
    cap: int,
    sent: int,
)
    requires
        0 < cap,
        0 <= sent < src.len(),
    ensures
        spec_tx_chunk_ops(mode, endian, evt, use_cs, src, cap, sent) == {
            let tx_len: int = if src.len() - sent < cap {
                src.len() - sent
            } else {
                cap
            };
            let cmds: Seq<SpimCmd> = if tx_len == src.len() && use_cs {
                seq![spec_tx_data_cmd(mode, endian, tx_len), SpimCmd::EndXfer(evt)]
            } else {
                seq![spec_tx_data_cmd(mode, endian, tx_len)]
            };
            spec_cmd_list_ops(cmds) + seq![DmaOp::TxBytes(src.subrange(sent, sent + tx_len))]
                + spec_tx_chunk_ops(mode, endian, evt, use_cs, src, cap, sent + tx_len)
        },
{
}

/// One-shot law: a framed payload of exactly the transmit area's capacity
/// is sent with a single data-phase command upload that carries both the
/// data instruction and the chip-select release, and no separate release
/// follows.
pub proof fn lemma_tx_exact_fit_is_one_shot(
    mode: SpimMode,
    endian: SpimEndian,
    cs: SpimCs,
    sot_wait: u8,
    eot_wait: u8,
    eot_event: bool,
    src: Seq<u8>,
    cap: int,
)
    requires
        0 < cap,
        src.len() == cap,
    ensures
        spec_tx_ops(mode, endian, cs, sot_wait, eot_wait, true, eot_event, src, cap)
            == spec_cmd_list_ops(spec_start_cmds(cs, sot_wait)) + seq![
            DmaOp::Cmds(seq![
                spec_tx_data_cmd(mode, endian, cap).spec_encode(),
                SpimCmd::EndXfer(
                    if eot_event {
                        SpimEventGen::Enabled
                    } else {
                        SpimEventGen::Disabled
                    },
                ).spec_encode(),
            ]),
            DmaOp::TxBytes(src),
        ],
{
    let evt = if eot_event {
        SpimEventGen::Enabled
    } else {
        SpimEventGen::Disabled
    };
    lemma_tx_chunk_ops_step(mode, endian, evt, true, src, cap, 0);
    let cmds = seq![spec_tx_data_cmd(mode, endian, cap), SpimCmd::EndXfer(evt)];
    assert(src.subrange(0, cap) =~= src);
    assert(spec_tx_chunk_ops(mode, endian, evt, true, src, cap, cap) =~= Seq::<DmaOp>::empty());
    assert(spec_encoded(cmds) =~= seq![
        spec_tx_data_cmd(mode, endian, cap).spec_encode(),
        SpimCmd::EndXfer(evt).spec_encode(),
    ]);
    assert(spec_tx_ops(mode, endian, cs, sot_wait, eot_wait, true, eot_event, src, cap)
        =~= spec_cmd_list_ops(spec_start_cmds(cs, sot_wait)) + seq![
        DmaOp::Cmds(seq![
            spec_tx_data_cmd(mode, endian, cap).spec_encode(),
            SpimCmd::EndXfer(evt).spec_encode(),
        ]),
        DmaOp::TxBytes(src),
    ]);
}

/// Overflow law: a framed payload one byte past the transmit area's
/// capacity is sent in two data-phase chunks — two command uploads and two
/// transmit enqueues — and the chip-select release follows separately.
pub proof fn lemma_tx_one_past_fit_two_chunks(
    mode: SpimMode,
    endian: SpimEndian,
    cs: SpimCs,
    sot_wait: u8,
    eot_wait: u8,
    eot_event: bool,
    src: Seq<u8>,
    cap: int,
)
    requires
        0 < cap,
        src.len() == cap + 1,
    ensures
        spec_tx_ops(mode, endian, cs, sot_wait, eot_wait, true, eot_event, src, cap)
            == spec_cmd_list_ops(spec_start_cmds(cs, sot_wait)) + seq![
            DmaOp::Cmds(seq![spec_tx_data_cmd(mode, endian, cap).spec_encode()]),
            DmaOp::TxBytes(src.take(cap)),
            DmaOp::Cmds(seq![spec_tx_data_cmd(mode, endian, 1).spec_encode()]),
            DmaOp::TxBytes(src.skip(cap)),
        ] + spec_cmd_list_ops(spec_end_cmds(
            eot_wait,
            if eot_event {
                SpimEventGen::Enabled
            } else {
                SpimEventGen::Disabled
            },
        )),
{
    let evt = if eot_event {
        SpimEventGen::Enabled
    } else {
        SpimEventGen::Disabled
    };
    lemma_tx_chunk_ops_step(mode, endian, evt, true, src, cap, 0);
    lemma_tx_chunk_ops_step(mode, endian, evt, true, src, cap, cap);
    assert(src.subrange(0, cap) =~= src.take(cap));
    assert(src.subrange(cap, cap + 1) =~= src.skip(cap));
    assert(spec_tx_chunk_ops(mode, endian, evt, true, src, cap, cap + 1)
        =~= Seq::<DmaOp>::empty());
    assert(spec_encoded(seq![spec_tx_data_cmd(mode, endian, cap)]) =~= seq![
        spec_tx_data_cmd(mode, endian, cap).spec_encode(),
    ]);
    assert(spec_encoded(seq![spec_tx_data_cmd(mode, endian, 1)]) =~= seq![
        spec_tx_data_cmd(mode, endian, 1).spec_encode(),
    ]);
    assert(spec_tx_ops(mode, endian, cs, sot_wait, eot_wait, true, eot_event, src, cap)
        =~= spec_cmd_list_ops(spec_start_cmds(cs, sot_wait)) + seq![
        DmaOp::Cmds(seq![spec_tx_data_cmd(mode, endian, cap).spec_encode()]),
        DmaOp::TxBytes(src.take(cap)),
        DmaOp::Cmds(seq![spec_tx_data_cmd(mode, endian, 1).spec_encode()]),
        DmaOp::TxBytes(src.skip(cap)),
    ] + spec_cmd_list_ops(spec_end_cmds(eot_wait, evt)));
}

/// The event flag a chip-select release carries: enabled exactly when a
/// completion-event channel is bound.
pub open spec fn spec_cs_event(event_channel: Option<EventChannel>) -> SpimEventGen {
    if event_channel is Some {
        SpimEventGen::Enabled
    } else {
        SpimEventGen::Disabled
    }
}

/// The transfers of one chip-select move of the memory-chip protocol:
/// assertion with its start-of-transfer wait, or release with its
/// end-of-transfer wait and the bound event flag.
pub open spec fn spec_mem_cs_ops(
    activate: bool,
    cs: SpimCs,
    sot_wait: u8,
    eot_wait: u8,
    event_channel: Option<EventChannel>,
) -> Seq<DmaOp> {
    if activate {
        spec_cmd_list_ops(spec_start_cmds(cs, sot_wait))
    } else {
        spec_cmd_list_ops(spec_end_cmds(eot_wait, spec_cs_event(event_channel)))
    }
}

/// The single-word upload of one opcode byte, clocked out at width `mode`.
pub open spec fn spec_mem_cmd_ops(mode: SpimMode, cmd: u8) -> Seq<DmaOp> {
    seq![DmaOp::Cmds(seq![SpimCmd::SendCmd(mode, 8, cmd as u16).spec_encode()])]
}

/// The transfers of an identity read: assert chip select, send the
/// identity opcode, upload the receive instruction for `n` bytes, request
/// those bytes into the receive area, release chip select.
pub open spec fn spec_mem_read_id_ops(
    mode: SpimMode,
    cs: SpimCs,
    sot_wait: u8,
    eot_wait: u8,
    event_channel: Option<EventChannel>,
    cmd: u8,
    n: int,
) -> Seq<DmaOp> {
    spec_mem_cs_ops(true, cs, sot_wait, eot_wait, event_channel) + spec_mem_cmd_ops(mode, cmd)
        + seq![
        DmaOp::Cmds(seq![
            SpimCmd::RxData(
                mode,
                SpimWordsPerXfer::Words1,
                8,
                SpimEndian::MsbFirst,
                n as u32,
            ).spec_encode(),
        ]),
        DmaOp::RxReq(n),
    ] + spec_mem_cs_ops(false, cs, sot_wait, eot_wait, event_channel)
}

/// A 32-bit value from four bytes, least-significant byte first.
pub open spec fn spec_u32_from_le_bytes(b0: u8, b1: u8, b2: u8, b3: u8) -> u32 {
    (b0 as u32) | ((b1 as u32) << 8) | ((b2 as u32) << 16) | ((b3 as u32) << 24)
}

/// A 32-bit value from four bytes, least-significant byte first.
pub fn u32_from_le_bytes(b0: u8, b1: u8, b2: u8, b3: u8) -> (r: u32)
    ensures
        r == spec_u32_from_le_bytes(b0, b1, b2, b3),
{
    (b0 as u32) | ((b1 as u32) << 8) | ((b2 as u32) << 16) | ((b3 as u32) << 24)
}

impl Spim {
    /// Moves chip select for the memory-chip protocol; `activate` is the
    /// logical sense, so `true` drives the line low.  Assertion sends the
    /// start command (plus the start-of-transfer wait when configured);
    /// release sends the end-of-transfer wait when configured and the end
    /// command, emitting the completion event exactly when a channel is
    /// bound.
    fn mem_cs(&mut self, activate: bool)
        requires
            old(self).wf(),
        ensures
            final(self).wf(),
            old(self).spec_same_config(*final(self)),
            final(self).mode == old(self).mode,
            final(self).endianness == old(self).endianness,
            final(self).tx_mem@ == old(self).tx_mem@,
            final(self).rx_mem@ == old(self).rx_mem@,
            final(self).tx_bank == old(self).tx_bank,
            final(self).rx_bank == old(self).rx_bank,
            final(self).ops() == old(self).ops() + spec_mem_cs_ops(
                activate,
                old(self).cs,
                old(self).sot_wait,
                old(self).eot_wait,
                old(self).event_channel,
            ),
    {
        if activate {
            if self.sot_wait == 0 {
                let cmd_list = [SpimCmd::StartXfer(self.cs)];
                proof {
                    assert(cmd_list@ =~= spec_start_cmds(old(self).cs, old(self).sot_wait));
                }
                self.send_cmd_list(&cmd_list);
            } else {
                let cmd_list = [
                    SpimCmd::StartXfer(self.cs),
                    SpimCmd::Wait(SpimWaitType::Cycles(self.sot_wait)),
                ];
                proof {
                    assert(cmd_list@ =~= spec_start_cmds(old(self).cs, old(self).sot_wait));
                }
                self.send_cmd_list(&cmd_list);
            }
        } else {
            let evt = if self.event_channel.is_some() {
                SpimEventGen::Enabled
            } else {
                SpimEventGen::Disabled
            };
            if self.eot_wait == 0 {
                let cmd_list = [SpimCmd::EndXfer(evt)];
                proof {
                    assert(cmd_list@ =~= spec_end_cmds(
                        old(self).eot_wait,
                        spec_cs_event(old(self).event_channel),
                    ));
                }
                self.send_cmd_list(&cmd_list);
            } else {
                let cmd_list = [
                    SpimCmd::Wait(SpimWaitType::Cycles(self.eot_wait)),
                    SpimCmd::EndXfer(evt),
                ];
                proof {
                    assert(cmd_list@ =~= spec_end_cmds(
                        old(self).eot_wait,
                        spec_cs_event(old(self).event_channel),
                    ));
                }
                self.send_cmd_list(&cmd_list);
            }
        }
    }

    /// Sends one opcode byte at the current wire width and blocks until the
    /// command processor has consumed it.
    fn mem_send_cmd(&mut self, cmd: u8)
        requires
            old(self).wf(),
        ensures
            final(self).wf(),
            old(self).spec_same_config(*final(self)),
            final(self).mode == old(self).mode,
            final(self).endianness == old(self).endianness,
            final(self).tx_mem@ == old(self).tx_mem@,
            final(self).rx_mem@ == old(self).rx_mem@,
            final(self).tx_bank == old(self).tx_bank,
            final(self).rx_bank == old(self).rx_bank,
            !final(self).custom_bank.spec_busy(),
            final(self).ops() == old(self).ops() + spec_mem_cmd_ops(old(self).mode, cmd),
    {
        let cmd_list = [SpimCmd::SendCmd(self.mode, 8, cmd as u16)];
        proof {
            assert(cmd_list@ =~= seq![SpimCmd::SendCmd(old(self).mode, 8, cmd as u16)]);
            assert(spec_encoded(cmd_list@) =~= seq![
                SpimCmd::SendCmd(old(self).mode, 8, cmd as u16).spec_encode(),
            ]);
        }
        self.send_cmd_list(&cmd_list);
        self.udma_await(Bank::Custom);
        proof {
            assert(final(self).ops() =~= old(self).ops() + spec_mem_cmd_ops(
                old(self).mode,
                cmd,
            ));
        }
    }

    /// Reads a flash chip's identity: asserts chip select, sends the
    /// identity opcode of the current width, receives three bytes, and
    /// decodes them little-endian from receive offsets 0, 1 and 2.
    pub fn mem_read_id_flash(&mut self) -> (r: u32)
        requires
            old(self).wf(),
            old(self).rx_buf_len_bytes >= 3,
        ensures
            final(self).wf(),
            old(self).spec_same_config(*final(self)),
            final(self).mode == old(self).mode,
            final(self).endianness == old(self).endianness,
            final(self).tx_mem@ == old(self).tx_mem@,
            final(self).rx_mem@ == old(self).rx_mem@,
            r == spec_u32_from_le_bytes(
                old(self).rx_mem@[0],
                old(self).rx_mem@[1],
                old(self).rx_mem@[2],
                0,
            ),
            final(self).ops() == old(self).ops() + spec_mem_read_id_ops(
                old(self).mode,
                old(self).cs,
                old(self).sot_wait,
                old(self).eot_wait,
                old(self).event_channel,
                if old(self).mode == SpimMode::Standard { 0x9F } else { 0xAF },
                3,
            ),
    {
        self.mem_cs(true);

        // send the identity opcode
        match self.mode {
            SpimMode::Standard => self.mem_send_cmd(0x9F),
            SpimMode::Quad => self.mem_send_cmd(0xAF),
        }

        // read back the identity bytes
        let cmd_list = [
            SpimCmd::RxData(self.mode, SpimWordsPerXfer::Words1, 8, SpimEndian::MsbFirst, 3),
        ];
        proof {
            assert(spec_encoded(cmd_list@) =~= seq![
                SpimCmd::RxData(
                    old(self).mode,
                    SpimWordsPerXfer::Words1,
                    8,
                    SpimEndian::MsbFirst,
                    3u32,
                ).spec_encode(),
            ]);
        }
        self.send_cmd_list(&cmd_list);
        self.udma_enqueue(Bank::Rx, 0, 3, CFG_EN | CFG_SIZE_8);
        self.udma_await(Bank::Rx);

        let ret = u32_from_le_bytes(self.rx_mem[0], self.rx_mem[1], self.rx_mem[2], 0);

        self.mem_cs(false);
        proof {
            assert(final(self).ops() =~= old(self).ops() + spec_mem_read_id_ops(
                old(self).mode,
                old(self).cs,
                old(self).sot_wait,
                old(self).eot_wait,
                old(self).event_channel,
                if old(self).mode == SpimMode::Standard { 0x9F } else { 0xAF },
                3,
            ));
        }
        ret
    }

    /// Reads a RAM chip's identity: asserts chip select, sends the standard
    /// identity opcode, receives seven bytes — three dummy address bytes
    /// come first — and decodes the identity little-endian from receive
    /// offsets 3, 4, 5 and 6.
    pub fn mem_read_id_ram(&mut self) -> (r: u32)
        requires
            old(self).wf(),
            old(self).rx_buf_len_bytes >= 7,
        ensures
            final(self).wf(),
            old(self).spec_same_config(*final(self)),
            final(self).mode == old(self).mode,
            final(self).endianness == old(self).endianness,
            final(self).tx_mem@ == old(self).tx_mem@,
            final(self).rx_mem@ == old(self).rx_mem@,
            r == spec_u32_from_le_bytes(
                old(self).rx_mem@[3],
                old(self).rx_mem@[4],
                old(self).rx_mem@[5],
                old(self).rx_mem@[6],
            ),
            final(self).ops() == old(self).ops() + spec_mem_read_id_ops(
                old(self).mode,
                old(self).cs,
                old(self).sot_wait,
                old(self).eot_wait,
                old(self).event_channel,
                0x9F,
                7,
            ),
    {
        self.mem_cs(true);

        // send the identity opcode
        self.mem_send_cmd(0x9F);

        // read back the identity bytes
        let cmd_list = [
            SpimCmd::RxData(self.mode, SpimWordsPerXfer::Words1, 8, SpimEndian::MsbFirst, 7),
        ];
        proof {
            assert(spec_encoded(cmd_list@) =~= seq![
                SpimCmd::RxData(
                    old(self).mode,
                    SpimWordsPerXfer::Words1,
                    8,
                    SpimEndian::MsbFirst,
                    7u32,
                ).spec_encode(),
            ]);
        }
        self.send_cmd_list(&cmd_list);
        self.udma_enqueue(Bank::Rx, 0, 7, CFG_EN | CFG_SIZE_8);
        self.udma_await(Bank::Rx);

        let ret = u32_from_le_bytes(
            self.rx_mem[3],
            self.rx_mem[4],
            self.rx_mem[5],
            self.rx_mem[6],
        );

        self.mem_cs(false);
        proof {
            assert(final(self).ops() =~= old(self).ops() + spec_mem_read_id_ops(
                old(self).mode,
                old(self).cs,
                old(self).sot_wait,
                old(self).eot_wait,
                old(self).event_channel,
                0x9F,
                7,
            ));
        }
        ret
    }

    /// Switches the attached chip between standard and quad ("QPI") wire
    /// width.  The enable opcode is clocked out at the old width and the
    /// driver moves to quad afterwards; the disable opcode is clocked out
    /// already at quad width — the chip decodes it that way — and the
    /// driver moves to standard afterwards.  Either way the opcode is
    /// framed by chip select.
    pub fn mem_qpi_mode(&mut self, activate: bool)
        requires
            old(self).wf(),
        ensures
            final(self).wf(),
            old(self).spec_same_config(*final(self)),
            final(self).endianness == old(self).endianness,
            final(self).tx_mem@ == old(self).tx_mem@,
            final(self).rx_mem@ == old(self).rx_mem@,
            final(self).mode == if activate {
                SpimMode::Quad
            } else {
                SpimMode::Standard
            },
            final(self).ops() == old(self).ops() + spec_mem_cs_ops(
                true,
                old(self).cs,
                old(self).sot_wait,
                old(self).eot_wait,
                old(self).event_channel,
            ) + spec_mem_cmd_ops(
                if activate {
                    old(self).mode
                } else {
                    SpimMode::Quad
                },
                if activate {
                    0x35
                } else {
                    0xF5
                },
            ) + spec_mem_cs_ops(
                false,
                old(self).cs,
                old(self).sot_wait,
                old(self).eot_wait,
                old(self).event_channel,
            ),
    {
        self.mem_cs(true);
        if activate {
            self.mem_send_cmd(0x35);
        } else {
            self.mode = SpimMode::Quad;  // the chip already decodes at quad width
            self.mem_send_cmd(0xF5);
        }
        self.mem_cs(false);
        // change the driver's width only after the command has been sent
        if activate {
            self.mode = SpimMode::Quad;
        } else {
            self.mode = SpimMode::Standard;
        }
    }
}

/// The three address bytes of a memory-chip command, most significant
/// first: bits 23 down to 0 of the device address.
pub open spec fn spec_addr_bytes(a: u32) -> Seq<u8> {
    seq![((a >> 16) & 0xFF) as u8, ((a >> 8) & 0xFF) as u8, (a & 0xFF) as u8]
}

/// The transmit-area prefix a read command clocks out: the three address
/// bytes, filler for the dummy cycles, and — when the dummy-cycle count
/// asks for more than the six bytes staged — whatever already sat in the
/// area beyond them.  `tx0` is the transmit area's contents at entry.
pub open spec fn spec_mem_read_header(chunk_addr: u32, tx0: Seq<u8>, apd: int) -> Seq<u8> {
    (spec_addr_bytes(chunk_addr) + seq![0xFFu8, 0xFFu8, 0xFFu8] + tx0.skip(6)).take(apd)
}

/// The transfers of one chunk of a memory-chip read at `chunk_addr`:
/// assert chip select, upload the read opcode and the address-phase data
/// instruction, clock out the address header, upload the receive
/// instruction, request the chunk into the receive area, release chip
/// select.
pub open spec fn spec_mem_read_chunk_ops(
    mode: SpimMode,
    cs: SpimCs,
    sot_wait: u8,
    eot_wait: u8,
    event_channel: Option<EventChannel>,
    chunk_addr: u32,
    chunk_len: int,
    apd: int,
    tx0: Seq<u8>,
) -> Seq<DmaOp> {
    spec_mem_cs_ops(true, cs, sot_wait, eot_wait, event_channel) + seq![
        DmaOp::Cmds(seq![
            SpimCmd::SendCmd(mode, 8, 0xEB).spec_encode(),
            SpimCmd::TxData(
                mode,
                SpimWordsPerXfer::Words1,
                8,
                SpimEndian::MsbFirst,
                apd as u32,
            ).spec_encode(),
        ]),
        DmaOp::TxBytes(spec_mem_read_header(chunk_addr, tx0, apd)),
        DmaOp::Cmds(seq![
            SpimCmd::RxData(
                mode,
                SpimWordsPerXfer::Words1,
                8,
                SpimEndian::MsbFirst,
                chunk_len as u32,
            ).spec_encode(),
        ]),
        DmaOp::RxReq(chunk_len),
    ] + spec_mem_cs_ops(false, cs, sot_wait, eot_wait, event_channel)
}

/// The transfers of a memory-chip read from `offset` bytes already read:
/// one full chunk sequence per receive-area-sized chunk, each chunk's
/// device address the base address plus the bytes read before it.
pub open spec fn spec_mem_read_ops(
    mode: SpimMode,
    cs: SpimCs,
    sot_wait: u8,
    eot_wait: u8,
    event_channel: Option<EventChannel>,
    addr: u32,
    total: int,
    cap: int,
    apd: int,
    tx0: Seq<u8>,
    offset: int,
) -> Seq<DmaOp>
    decreases total - offset,
    when 0 <= offset && (offset >= total || 0 < cap)
{
    if offset >= total {
        Seq::empty()
    } else {
        let chunk_len: int = if total - offset < cap {
            total - offset
        } else {
            cap
        };
        spec_mem_read_chunk_ops(
            mode,
            cs,
            sot_wait,
            eot_wait,
            event_channel,
            (addr + offset) as u32,
            chunk_len,
            apd,
            tx0,
        ) + spec_mem_read_ops(
            mode,
            cs,
            sot_wait,
            eot_wait,
            event_channel,
            addr,
            total,
            cap,
            apd,
            tx0,
            offset + chunk_len,
        )
    }
}

/// What a memory-chip read delivers into the caller's buffer when the
/// receive area holds `rx`: each chunk copies the area's prefix of the
/// chunk's length.
pub open spec fn spec_mem_read_fill(rx: Seq<u8>, total: int, cap: int) -> Seq<u8>
    decreases total,
    when total <= 0 || 0 < cap
{
    if total <= 0 {
        Seq::empty()
    } else {
        let chunk_len: int = if total < cap {
            total
        } else {
            cap
        };
        rx.take(chunk_len) + spec_mem_read_fill(rx, total - chunk_len, cap)
    }
}

/// Chunk addresses accumulate: the transfers of a read from `offset` bytes
/// in are exactly those of a fresh read based at `addr + offset`.  So over
/// a buffer spanning several receive-area-sized chunks, every chunk issues
/// the full address-send-and-read sequence, at a device address equal to
/// the base address plus the bytes read before it.
pub proof fn lemma_mem_read_rebase(
    mode: SpimMode,
    cs: SpimCs,
    sot_wait: u8,
    eot_wait: u8,
    event_channel: Option<EventChannel>,
    addr: u32,
    total: int,
    cap: int,
    apd: int,
    tx0: Seq<u8>,
    offset: int,
)
    requires
        0 < cap,
        0 <= offset <= total,
        addr + total <= u32::MAX,
    ensures
        spec_mem_read_ops(
            mode,
            cs,
            sot_wait,
            eot_wait,
            event_channel,
            addr,
            total,
            cap,
            apd,
            tx0,
            offset,
        ) == spec_mem_read_ops(
            mode,
            cs,
            sot_wait,
            eot_wait,
            event_channel,
            (addr + offset) as u32,
            total - offset,
            cap,
            apd,
            tx0,
            0,
        ),
    decreases total - offset,
{
    if offset < total {
        let chunk_len: int = if total - offset < cap {
            total - offset
        } else {
            cap
        };
        lemma_mem_read_rebase(
            mode,
            cs,
            sot_wait,
            eot_wait,
            event_channel,
            addr,
            total,
            cap,
            apd,
            tx0,
            offset + chunk_len,
        );
        lemma_mem_read_rebase(
            mode,
            cs,
            sot_wait,
            eot_wait,
            event_channel,
            (addr + offset) as u32,
            total - offset,
            cap,
            apd,
            tx0,
            chunk_len,
        );
    }
}

/// The transfers of one chunk of a RAM write at `chunk_addr`: assert chip
/// select, upload the write opcode and the address-phase data instruction,
/// clock out the three address bytes, upload the data instruction for the
/// chunk, clock out the chunk's bytes, release chip select.
pub open spec fn spec_mem_write_chunk_ops(
    mode: SpimMode,
    cs: SpimCs,
    sot_wait: u8,
    eot_wait: u8,
    event_channel: Option<EventChannel>,
    chunk_addr: u32,
    chunk: Seq<u8>,
) -> Seq<DmaOp> {
    spec_mem_cs_ops(true, cs, sot_wait, eot_wait, event_channel) + seq![
        DmaOp::Cmds(seq![
            SpimCmd::SendCmd(mode, 8, 0x38).spec_encode(),
            SpimCmd::TxData(
                mode,
                SpimWordsPerXfer::Words1,
                8,
                SpimEndian::MsbFirst,
                3u32,
            ).spec_encode(),
        ]),
        DmaOp::TxBytes(spec_addr_bytes(chunk_addr)),
        DmaOp::Cmds(seq![
            SpimCmd::TxData(
                mode,
                SpimWordsPerXfer::Words1,
                8,
                SpimEndian::MsbFirst,
                chunk.len() as u32,
            ).spec_encode(),
        ]),
        DmaOp::TxBytes(chunk),
    ] + spec_mem_cs_ops(false, cs, sot_wait, eot_wait, event_channel)
}

/// The transfers of a RAM write from `offset` bytes already written: one
/// full chunk sequence per transmit-area-sized chunk, each chunk's device
/// address the base address plus the bytes written before it.
pub open spec fn spec_mem_write_ops(
    mode: SpimMode,
    cs: SpimCs,
    sot_wait: u8,
    eot_wait: u8,
    event_channel: Option<EventChannel>,
    addr: u32,
    src: Seq<u8>,
    cap: int,
    offset: int,
) -> Seq<DmaOp>
    decreases src.len() - offset,
    when 0 <= offset && (offset >= src.len() || 0 < cap)
{
    if offset >= src.len() {
        Seq::empty()
    } else {
        let chunk_len: int = if src.len() - offset < cap {
            src.len() - offset
        } else {
            cap
        };
        spec_mem_write_chunk_ops(
            mode,
            cs,
            sot_wait,
            eot_wait,
            event_channel,
            (addr + offset) as u32,
            src.subrange(offset, offset + chunk_len),
        ) + spec_mem_write_ops(
            mode,
            cs,
            sot_wait,
            eot_wait,
            event_channel,
            addr,
            src,
            cap,
            offset + chunk_len,
        )
    }
}

impl Spim {
    /// Writes the chip's status and configuration registers: forces
    /// standard width if quad was active, frames opcode 0x1 and the two
    /// bytes in chip select, and waits for the bytes to clock out.  The
    /// documented command sequence is preserved as it stands; its author
    /// flags it as unreliable on real parts.
    pub fn mem_write_status_register(&mut self, status: u8, config: u8)
        requires
            old(self).wf(),
            old(self).tx_buf_len_bytes >= 2,
        ensures
            final(self).wf(),
            old(self).spec_same_config(*final(self)),
            final(self).endianness == old(self).endianness,
            final(self).rx_mem@ == old(self).rx_mem@,
            final(self).mode == SpimMode::Standard,
            final(self).ops() == old(self).ops() + (if old(self).mode != SpimMode::Standard {
                spec_mem_cs_ops(
                    true,
                    old(self).cs,
                    old(self).sot_wait,
                    old(self).eot_wait,
                    old(self).event_channel,
                ) + spec_mem_cmd_ops(SpimMode::Quad, 0xF5) + spec_mem_cs_ops(
                    false,
                    old(self).cs,
                    old(self).sot_wait,
                    old(self).eot_wait,
                    old(self).event_channel,
                )
            } else {
                Seq::empty()
            }) + spec_mem_cs_ops(
                true,
                old(self).cs,
                old(self).sot_wait,
                old(self).eot_wait,
                old(self).event_channel,
            ) + spec_mem_cmd_ops(SpimMode::Standard, 0x1) + seq![
                DmaOp::Cmds(seq![
                    SpimCmd::TxData(
                        SpimMode::Standard,
                        SpimWordsPerXfer::Words1,
                        8,
                        SpimEndian::MsbFirst,
                        2u32,
                    ).spec_encode(),
                ]),
                DmaOp::TxBytes(seq![status, config]),
            ] + spec_mem_cs_ops(
                false,
                old(self).cs,
                old(self).sot_wait,
                old(self).eot_wait,
                old(self).event_channel,
            ),
    {
        if self.mode != SpimMode::Standard {
            self.mem_qpi_mode(false);
        }
        self.mem_cs(true);
        self.mem_send_cmd(0x1);
        let cmd_list = [
            SpimCmd::TxData(self.mode, SpimWordsPerXfer::Words1, 8, SpimEndian::MsbFirst, 2),
        ];
        proof {
            assert(spec_encoded(cmd_list@) =~= seq![
                SpimCmd::TxData(
                    SpimMode::Standard,
                    SpimWordsPerXfer::Words1,
                    8,
                    SpimEndian::MsbFirst,
                    2u32,
                ).spec_encode(),
            ]);
        }
        self.send_cmd_list(&cmd_list);
        let payload = [status, config];
        self.write_tx(0, &payload);
        proof {
            assert(self.tx_mem@.subrange(0, 2) =~= seq![status, config]);
        }
        self.udma_enqueue(Bank::Tx, 0, 2, CFG_EN | CFG_SIZE_8);
        self.udma_await(Bank::Tx);
        self.mem_cs(false);
    }

    /// Reads from the attached memory chip into `buf`, chunked by the
    /// receive area's capacity — the chunk size doubles as the device's
    /// page-wrap boundary.  Each chunk sends read opcode 0xEB with the
    /// chunk's big-endian device address and dummy-cycle filler, then
    /// requests the chunk into the receive area and copies it out.
    ///
    /// On real hardware the receive wait is bounded by an empirical
    /// timeout in quad mode, and a chunk that exhausts it turns the result
    /// `false` without aborting the remaining chunks; the modeled engine
    /// completes every transfer, so the timeout never fires and the result
    /// is always `true`.
    #[verifier::rlimit(100)]
    #[verifier::spinoff_prover]
    pub fn mem_read(&mut self, addr: u32, buf: &mut Vec<u8>, _use_yield: bool) -> (r: bool)
        requires
            old(self).wf(),
            old(self).rx_buf_len_bytes > 0,
            old(self).tx_buf_len_bytes >= 6,
            3 + old(self).dummy_cycles as int / 2 <= old(self).tx_buf_len_bytes,
            addr + old(buf)@.len() <= u32::MAX,
        ensures
            final(self).wf(),
            old(self).spec_same_config(*final(self)),
            final(self).mode == old(self).mode,
            final(self).endianness == old(self).endianness,
            final(self).rx_mem@ == old(self).rx_mem@,
            final(self).tx_mem@.skip(6) == old(self).tx_mem@.skip(6),
            final(buf)@ == spec_mem_read_fill(
                old(self).rx_mem@,
                old(buf)@.len() as int,
                old(self).rx_buf_len_bytes as int,
            ),
            final(self).ops() == old(self).ops() + spec_mem_read_ops(
                old(self).mode,
                old(self).cs,
                old(self).sot_wait,
                old(self).eot_wait,
                old(self).event_channel,
                addr,
                old(buf)@.len() as int,
                old(self).rx_buf_len_bytes as int,
                3 + old(self).dummy_cycles as int / 2,
                old(self).tx_mem@,
                0,
            ),
            r == true,
    {
        let total: usize = buf.len();
        let cap: usize = self.rx_buf_len_bytes;
        let apd: usize = 3 + (self.dummy_cycles / 2) as usize;
        let ghost tx0 = old(self).tx_mem@;
        let success = true;
        let mut offset: usize = 0;
        while offset < total
            invariant
                self.wf(),
                old(self).spec_same_config(*self),
                self.mode == old(self).mode,
                self.endianness == old(self).endianness,
                self.rx_mem@ == old(self).rx_mem@,
                self.tx_mem@.skip(6) == tx0.skip(6),
                self.tx_mem@.len() == tx0.len(),
                tx0 == old(self).tx_mem@,
                offset <= total,
                cap == self.rx_buf_len_bytes,
                cap > 0,
                apd == 3 + old(self).dummy_cycles as int / 2,
                3 <= apd <= self.tx_buf_len_bytes,
                self.tx_buf_len_bytes >= 6,
                addr + total <= u32::MAX,
                buf@.len() == total,
                old(buf)@.len() == total,
                buf@.skip(offset as int) == old(buf)@.skip(offset as int),
                buf@.take(offset as int) + spec_mem_read_fill(
                    old(self).rx_mem@,
                    total - offset,
                    cap as int,
                ) == spec_mem_read_fill(old(self).rx_mem@, total as int, cap as int),
                self.ops() + spec_mem_read_ops(
                    old(self).mode,
                    old(self).cs,
                    old(self).sot_wait,
                    old(self).eot_wait,
                    old(self).event_channel,
                    addr,
                    total as int,
                    cap as int,
                    apd as int,
                    tx0,
                    offset as int,
                ) == old(self).ops() + spec_mem_read_ops(
                    old(self).mode,
                    old(self).cs,
                    old(self).sot_wait,
                    old(self).eot_wait,
                    old(self).event_channel,
                    addr,
                    total as int,
                    cap as int,
                    apd as int,
                    tx0,
                    0,
                ),
            decreases total - offset,
        {
            let remaining = total - offset;
            let chunk_len: usize = if remaining < cap {
                remaining
            } else {
                cap
            };
            let chunk_addr: u32 = addr + (offset as u32);
            let ghost pre_ops = self.ops();
            // stage the big-endian address, then filler for the dummy cycles
            let hdr = [
                ((chunk_addr >> 16) & 0xFF) as u8,
                ((chunk_addr >> 8) & 0xFF) as u8,
                (chunk_addr & 0xFF) as u8,
            ];
            self.write_tx(0, &hdr);
            let filler = [0xFFu8, 0xFFu8, 0xFFu8];
            self.write_tx(3, &filler);
            self.mem_cs(true);
            let cmd_list = [
                SpimCmd::SendCmd(self.mode, 8, 0xEB),
                SpimCmd::TxData(
                    self.mode,
                    SpimWordsPerXfer::Words1,
                    8,
                    SpimEndian::MsbFirst,
                    apd as u32,
                ),
            ];
            proof {
                assert(spec_encoded(cmd_list@) =~= seq![
                    SpimCmd::SendCmd(old(self).mode, 8, 0xEB).spec_encode(),
                    SpimCmd::TxData(
                        old(self).mode,
                        SpimWordsPerXfer::Words1,
                        8,
                        SpimEndian::MsbFirst,
                        apd as u32,
                    ).spec_encode(),
                ]);
            }
            self.send_cmd_list(&cmd_list);
            self.udma_enqueue(Bank::Tx, 0, apd, CFG_EN | CFG_SIZE_8);
            proof {
                assert(self.tx_mem@.subrange(0, apd as int) =~= spec_mem_read_header(
                    chunk_addr,
                    tx0,
                    apd as int,
                ));
            }
            let rd_cmd = [
                SpimCmd::RxData(
                    self.mode,
                    SpimWordsPerXfer::Words1,
                    8,
                    SpimEndian::MsbFirst,
                    chunk_len as u32,
                ),
            ];
            self.udma_await(Bank::Tx);
            proof {
                assert(spec_encoded(rd_cmd@) =~= seq![
                    SpimCmd::RxData(
                        old(self).mode,
                        SpimWordsPerXfer::Words1,
                        8,
                        SpimEndian::MsbFirst,
                        chunk_len as u32,
                    ).spec_encode(),
                ]);
            }
            self.send_cmd_list(&rd_cmd);
            self.udma_enqueue(Bank::Rx, 0, chunk_len, CFG_EN | CFG_SIZE_8);
            // the hardware wait carries the quad-mode timeout heuristic;
            // the modeled engine always completes, so it never fires
            self.udma_await(Bank::Rx);
            self.mem_cs(false);
            proof {
                assert(self.ops() =~= pre_ops + spec_mem_read_chunk_ops(
                    old(self).mode,
                    old(self).cs,
                    old(self).sot_wait,
                    old(self).eot_wait,
                    old(self).event_channel,
                    chunk_addr,
                    chunk_len as int,
                    apd as int,
                    tx0,
                ));
                assert(self.ops() + spec_mem_read_ops(
                    old(self).mode,
                    old(self).cs,
                    old(self).sot_wait,
                    old(self).eot_wait,
                    old(self).event_channel,
                    addr,
                    total as int,
                    cap as int,
                    apd as int,
                    tx0,
                    offset + chunk_len,
                ) =~= old(self).ops() + spec_mem_read_ops(
                    old(self).mode,
                    old(self).cs,
                    old(self).sot_wait,
                    old(self).eot_wait,
                    old(self).event_channel,
                    addr,
                    total as int,
                    cap as int,
                    apd as int,
                    tx0,
                    0,
                ));
            }
            let ghost buf_before = buf@;
            let mut i: usize = 0;
            while i < chunk_len
                invariant
                    i <= chunk_len,
                    offset + chunk_len <= total,
                    total == buf@.len(),
                    total == buf_before.len(),
                    chunk_len <= self.rx_mem@.len(),
                    self.rx_mem@ == old(self).rx_mem@,
                    forall|j: int| 0 <= j < i ==> buf@[offset + j] == self.rx_mem@[j],
                    forall|j: int| 0 <= j < offset ==> buf@[j] == buf_before[j],
                    forall|j: int| offset + i <= j < total ==> buf@[j] == buf_before[j],
                decreases chunk_len - i,
            {
                let b = self.rx_mem[i];
                buf[offset + i] = b;
                i = i + 1;
            }
            proof {
                assert forall|j: int| offset + chunk_len <= j < total implies buf@[j] == old(
                    buf,
                )@[j] by {
                    assert(buf_before[j] == buf_before.skip(offset as int)[j - offset]);
                    assert(old(buf)@[j] == old(buf)@.skip(offset as int)[j - offset]);
                }
                assert(buf@.take(offset + chunk_len) =~= buf_before.take(offset as int)
                    + old(self).rx_mem@.take(chunk_len as int));
                assert(buf@.skip(offset + chunk_len) =~= old(buf)@.skip(offset + chunk_len));
                assert(buf@.take(offset + chunk_len) + spec_mem_read_fill(
                    old(self).rx_mem@,
                    total - offset - chunk_len,
                    cap as int,
                ) =~= spec_mem_read_fill(old(self).rx_mem@, total as int, cap as int));
            }
            offset = offset + chunk_len;
        }
        proof {
            assert(buf@.take(total as int) =~= buf@);
            assert(final(self).ops() =~= old(self).ops() + spec_mem_read_ops(
                old(self).mode,
                old(self).cs,
                old(self).sot_wait,
                old(self).eot_wait,
                old(self).event_channel,
                addr,
                total as int,
                cap as int,
                apd as int,
                tx0,
                0,
            ));
        }
        success
    }

    /// Writes `buf` to the attached RAM chip — not valid for flash, which
    /// needs a programming routine — chunked by the transmit area's
    /// capacity.  Each chunk sends write opcode 0x38 with the chunk's
    /// big-endian device address, then clocks the chunk's bytes out.
    #[verifier::rlimit(100)]
    #[verifier::spinoff_prover]
    pub fn mem_ram_write(&mut self, addr: u32, buf: &[u8], _use_yield: bool)
        requires
            old(self).wf(),
            old(self).tx_buf_len_bytes >= 3,
            addr + buf@.len() <= u32::MAX,
        ensures
            final(self).wf(),
            old(self).spec_same_config(*final(self)),
            final(self).mode == old(self).mode,
            final(self).endianness == old(self).endianness,
            final(self).rx_mem@ == old(self).rx_mem@,
            final(self).ops() == old(self).ops() + spec_mem_write_ops(
                old(self).mode,
                old(self).cs,
                old(self).sot_wait,
                old(self).eot_wait,
                old(self).event_channel,
                addr,
                buf@,
                old(self).tx_buf_len_bytes as int,
                0,
            ),
    {
        let total: usize = buf.len();
        let cap: usize = self.tx_buf_len_bytes;
        let mut offset: usize = 0;
        while offset < total
            invariant
                self.wf(),
                old(self).spec_same_config(*self),
                self.mode == old(self).mode,
                self.endianness == old(self).endianness,
                self.rx_mem@ == old(self).rx_mem@,
                offset <= total,
                total == buf@.len(),
                cap == self.tx_buf_len_bytes,
                cap >= 3,
                addr + total <= u32::MAX,
                self.ops() + spec_mem_write_ops(
                    old(self).mode,
                    old(self).cs,
                    old(self).sot_wait,
                    old(self).eot_wait,
                    old(self).event_channel,
                    addr,
                    buf@,
                    cap as int,
                    offset as int,
                ) == old(self).ops() + spec_mem_write_ops(
                    old(self).mode,
                    old(self).cs,
                    old(self).sot_wait,
                    old(self).eot_wait,
                    old(self).event_channel,
                    addr,
                    buf@,
                    cap as int,
                    0,
                ),
            decreases total - offset,
        {
            let remaining = total - offset;
            let chunk_len: usize = if remaining < cap {
                remaining
            } else {
                cap
            };
            let chunk_addr: u32 = addr + (offset as u32);
            let ghost pre_ops = self.ops();
            let hdr = [
                ((chunk_addr >> 16) & 0xFF) as u8,
                ((chunk_addr >> 8) & 0xFF) as u8,
                (chunk_addr & 0xFF) as u8,
            ];
            self.write_tx(0, &hdr);
            proof {
                assert(self.tx_mem@.subrange(0, 3) =~= spec_addr_bytes(chunk_addr));
            }
            self.mem_cs(true);
            let cmd_list = [
                SpimCmd::SendCmd(self.mode, 8, 0x38),
                SpimCmd::TxData(self.mode, SpimWordsPerXfer::Words1, 8, SpimEndian::MsbFirst, 3),
            ];
            proof {
                assert(spec_encoded(cmd_list@) =~= seq![
                    SpimCmd::SendCmd(old(self).mode, 8, 0x38).spec_encode(),
                    SpimCmd::TxData(
                        old(self).mode,
                        SpimWordsPerXfer::Words1,
                        8,
                        SpimEndian::MsbFirst,
                        3u32,
                    ).spec_encode(),
                ]);
            }
            self.send_cmd_list(&cmd_list);
            self.udma_enqueue(Bank::Tx, 0, 3, CFG_EN | CFG_SIZE_8);
            let wr_cmd = [
                SpimCmd::TxData(
                    self.mode,
                    SpimWordsPerXfer::Words1,
                    8,
                    SpimEndian::MsbFirst,
                    chunk_len as u32,
                ),
            ];
            self.udma_await(Bank::Tx);
            proof {
                assert(spec_encoded(wr_cmd@) =~= seq![
                    SpimCmd::TxData(
                        old(self).mode,
                        SpimWordsPerXfer::Words1,
                        8,
                        SpimEndian::MsbFirst,
                        chunk_len as u32,
                    ).spec_encode(),
                ]);
            }
            self.send_cmd_list(&wr_cmd);
            self.write_tx(0, &buf[offset..offset + chunk_len]);
            proof {
                assert(self.tx_mem@.subrange(0, chunk_len as int) =~= buf@.subrange(
                    offset as int,
                    offset + chunk_len,
                ));
            }
            self.udma_enqueue(Bank::Tx, 0, chunk_len, CFG_EN | CFG_SIZE_8);
            self.udma_await(Bank::Tx);
            self.mem_cs(false);
            proof {
                assert(self.ops() =~= pre_ops + spec_mem_write_chunk_ops(
                    old(self).mode,
                    old(self).cs,
                    old(self).sot_wait,
                    old(self).eot_wait,
                    old(self).event_channel,
                    chunk_addr,
                    buf@.subrange(offset as int, offset + chunk_len),
                ));
                assert(self.ops() + spec_mem_write_ops(
                    old(self).mode,
                    old(self).cs,
                    old(self).sot_wait,
                    old(self).eot_wait,
                    old(self).event_channel,
                    addr,
                    buf@,
                    cap as int,
                    offset + chunk_len,
                ) =~= old(self).ops() + spec_mem_write_ops(
                    old(self).mode,
                    old(self).cs,
                    old(self).sot_wait,
                    old(self).eot_wait,
                    old(self).event_channel,
                    addr,
                    buf@,
                    cap as int,
                    0,
                ));
            }
            offset = offset + chunk_len;
        }
        proof {
            assert(final(self).ops() =~= old(self).ops() + spec_mem_write_ops(
                old(self).mode,
                old(self).cs,
                old(self).sot_wait,
                old(self).eot_wait,
                old(self).event_channel,
                addr,
                buf@,
                old(self).tx_buf_len_bytes as int,
                0,
            ));
        }
    }
}

/// A fresh copy of `src[start .. start + len]`.
fn copy_byte_range(src: &Vec<u8>, start: usize, len: usize) -> (r: Vec<u8>)
    requires
        start + len <= src@.len(),
    ensures
        r@ == src@.subrange(start as int, (start + len) as int),
{
    let n: usize = src.len();
    let mut out: Vec<u8> = Vec::new();
    let mut i: usize = 0;
    while i < len
        invariant
            i <= len,
            n == src@.len(),
            start + len <= n,
            out@ == src@.subrange(start as int, (start + i) as int),
        decreases len - i,
    {
        out.push(src[start + i]);
        proof {
            assert(out@ =~= src@.subrange(start as int, (start + i + 1) as int));
        }
        i = i + 1;
    }
    out
}

/// A fresh copy of `src[start .. start + len]`.
fn copy_word_range(src: &Vec<u32>, start: usize, len: usize) -> (r: Vec<u32>)
    requires
        start + len <= src@.len(),
    ensures
        r@ == src@.subrange(start as int, (start + len) as int),
{
    let n: usize = src.len();
    let mut out: Vec<u32> = Vec::new();
    let mut i: usize = 0;
    while i < len
        invariant
            i <= len,
            n == src@.len(),
            start + len <= n,
            out@ == src@.subrange(start as int, (start + i) as int),
        decreases len - i,
    {
        out.push(src[start + i]);
        proof {
            assert(out@ =~= src@.subrange(start as int, (start + i + 1) as int));
        }
        i = i + 1;
    }
    out
}

} // verus!
