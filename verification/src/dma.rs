//! The generic DMA-bank primitive shared by every peripheral behind the
//! engine: each peripheral exposes up to three banks (receive, transmit,
//! custom) of four word registers — source address, byte size,
//! configuration, interrupt configuration.
//!
//! [`BankRegs`] models one bank's registers.  A bank's address register is
//! nonzero exactly while a transfer is active, and the configuration word's
//! shadow bit is set exactly while a second transfer is queued behind the
//! active one (the hardware queue is two deep).  [`Xfer`] records one
//! transfer as handed to the engine, so that driver contracts can pin down
//! the exact sequence of commands and data a call produces.

use vstd::prelude::*;

verus! {

/// Configuration bit: start a transfer.
pub const CFG_EN: u32 = 0b01_0000;

/// Configuration bit: continuous mode.
pub const CFG_CONT: u32 = 0b00_0001;

/// Configuration field: 8-bit transfer elements.
pub const CFG_SIZE_8: u32 = 0b00_0000;

/// Configuration field: 16-bit transfer elements.
pub const CFG_SIZE_16: u32 = 0b00_0010;

/// Configuration field: 32-bit transfer elements.
pub const CFG_SIZE_32: u32 = 0b00_0100;

/// Configuration bit on write: stop and clear all pending transfers.
pub const CFG_CLEAR: u32 = 0b10_0000;

/// Configuration bit on read: a transfer is pending.
pub const CFG_PENDING: u32 = 0b10_0000;

/// Configuration bit on read: a shadow transfer is queued behind the
/// active one.
pub const CFG_SHADOW: u32 = 0b10_0000;

/// Which register bank of a peripheral's window a transfer targets.
#[derive(Clone, Copy, PartialEq, Eq, Structural, Debug)]
pub enum Bank {
    Rx,
    Tx,
    Custom,
}

impl Bank {
    /// Word offset of this bank inside the peripheral's register window.
    pub open spec fn spec_word_offset(self) -> usize {
        match self {
            Bank::Rx => 0,
            Bank::Tx => 4,
            Bank::Custom => 8,
        }
    }

    /// Word offset of this bank inside the peripheral's register window.
    pub fn word_offset(self) -> (r: usize)
        ensures
            r == self.spec_word_offset(),
    {
        match self {
            Bank::Rx => 0,
            Bank::Tx => 4,
            Bank::Custom => 8,
        }
    }
}

/// The four registers of a bank, as word offsets inside the bank.
#[derive(Clone, Copy, PartialEq, Eq, Structural, Debug)]
pub enum DmaReg {
    Saddr,
    Size,
    Cfg,
    IntCfg,
}

impl DmaReg {
    /// Word offset of this register inside its bank.
    pub open spec fn spec_word_offset(self) -> usize {
        match self {
            DmaReg::Saddr => 0,
            DmaReg::Size => 1,
            DmaReg::Cfg => 2,
            DmaReg::IntCfg => 3,
        }
    }

    /// Word offset of this register inside its bank.
    pub fn word_offset(self) -> (r: usize)
        ensures
            r == self.spec_word_offset(),
    {
        match self {
            DmaReg::Saddr => 0,
            DmaReg::Size => 1,
            DmaReg::Cfg => 2,
            DmaReg::IntCfg => 3,
        }
    }
}

/// Model of one DMA bank's four registers.
#[derive(Clone, Copy, PartialEq, Eq, Structural, Debug)]
pub struct BankRegs {
    /// Source address of the active transfer; nonzero exactly while a
    /// transfer is active.
    pub saddr: u32,
    /// Byte size of the most recently enqueued transfer.
    pub size: u32,
    /// Configuration word; the shadow bit is set exactly while a second
    /// transfer is queued behind the active one.
    pub cfg: u32,
    /// Interrupt configuration, unused by this core.
    pub int_cfg: u32,
}

impl BankRegs {
    /// A bank at rest: no transfer active, nothing queued.
    pub open spec fn spec_idle() -> BankRegs {
        BankRegs { saddr: 0, size: 0, cfg: 0, int_cfg: 0 }
    }

    /// A transfer is active.
    pub open spec fn spec_busy(self) -> bool {
        self.saddr != 0
    }

    /// No shadow transfer is queued, so one more enqueue fits behind the
    /// active transfer.
    pub open spec fn spec_can_enqueue(self) -> bool {
        self.cfg & CFG_SHADOW == 0
    }

    /// The registers after handing the engine a transfer of `size` bytes at
    /// `addr` with configuration `config`: the enable bit is always set, and
    /// the shadow bit reads back set when the bank was already busy.
    pub open spec fn spec_after_enqueue(self, addr: u32, size: u32, config: u32) -> BankRegs {
        BankRegs {
            saddr: addr,
            size: size,
            cfg: if self.spec_busy() {
                config | CFG_EN | CFG_SHADOW
            } else {
                config | CFG_EN
            },
            int_cfg: self.int_cfg,
        }
    }

    /// The registers after the engine has drained the bank: the address
    /// register reads zero and the shadow bit clears.
    pub open spec fn spec_after_drain(self) -> BankRegs {
        BankRegs { saddr: 0, size: self.size, cfg: self.cfg & !CFG_SHADOW, int_cfg: self.int_cfg }
    }

    /// A bank at rest: no transfer active, nothing queued.
    pub fn idle() -> (r: BankRegs)
        ensures
            r == BankRegs::spec_idle(),
    {
        BankRegs { saddr: 0, size: 0, cfg: 0, int_cfg: 0 }
    }

    /// Writes the three registers of an enqueue in the hardware order:
    /// source address, byte size, then configuration with the enable bit.
    pub fn enqueue(&mut self, addr: u32, size: u32, config: u32)
        requires
            addr != 0,
        ensures
            *final(self) == old(self).spec_after_enqueue(addr, size, config),
    {
        let was_busy = self.saddr != 0;
        self.saddr = addr;
        self.size = size;
        if was_busy {
            self.cfg = config | CFG_EN | CFG_SHADOW;
        } else {
            self.cfg = config | CFG_EN;
        }
    }

    /// Accounts the engine finishing everything queued on this bank.  The
    /// hardware is assumed to complete every transfer it is handed; a driver
    /// busy-waits on [`BankRegs::spec_busy`] and this is the state it
    /// observes when the wait ends.
    pub fn drain(&mut self)
        ensures
            *final(self) == old(self).spec_after_drain(),
            !final(self).spec_busy(),
            final(self).spec_can_enqueue(),
    {
        self.saddr = 0;
        self.cfg = self.cfg & !CFG_SHADOW;
        proof {
            let c = old(self).cfg;
            assert((c & !CFG_SHADOW) & CFG_SHADOW == 0) by (bit_vector);
        }
    }
}

/// One transfer as handed to the DMA engine, with a snapshot of what the
/// engine would fetch from memory at that moment.
#[derive(PartialEq, Eq, Debug)]
pub enum Xfer {
    /// A custom-bank enqueue: the command words uploaded to the command
    /// processor.
    Cmds(Vec<u32>),
    /// A transmit-bank enqueue: the bytes handed out of the transmit region.
    TxBytes(Vec<u8>),
    /// A receive-bank enqueue: the number of bytes requested into the
    /// receive region.
    RxReq(usize),
}

/// Mathematical view of one transfer.
pub enum DmaOp {
    /// Command words uploaded to the command processor.
    Cmds(Seq<u32>),
    /// Bytes handed out of the transmit region.
    TxBytes(Seq<u8>),
    /// Number of bytes requested into the receive region.
    RxReq(int),
}

impl View for Xfer {
    type V = DmaOp;

    open spec fn view(&self) -> DmaOp {
        match self {
            Xfer::Cmds(words) => DmaOp::Cmds(words@),
            Xfer::TxBytes(bytes) => DmaOp::TxBytes(bytes@),
            Xfer::RxReq(n) => DmaOp::RxReq(*n as int),
        }
    }
}

/// The views of a recorded transfer sequence.
pub open spec fn spec_ops_of(log: Seq<Xfer>) -> Seq<DmaOp> {
    log.map_values(|x: Xfer| x@)
}

/// The shared bank interface: every peripheral driver over the engine
/// exposes its banks' registers and answers the two status questions from
/// them the same way.
pub trait Udma {
    /// The modeled registers of one bank.
    spec fn bank(&self, bank: Bank) -> BankRegs;

    /// Whether a transfer is active on the bank: its source-address
    /// register reads nonzero.
    fn udma_busy(&self, bank: Bank) -> (r: bool)
        ensures
            r == self.bank(bank).spec_busy();

    /// Whether one more transfer fits behind the active one: the
    /// configuration register's shadow bit reads clear.
    fn udma_can_enqueue(&self, bank: Bank) -> (r: bool)
        ensures
            r == self.bank(bank).spec_can_enqueue();
}

} // verus!
