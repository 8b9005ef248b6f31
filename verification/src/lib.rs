//! Verified driver core for a shared-DMA ("UDMA") peripheral complex.
//!
//! Several serial peripherals on the target part move data through one common
//! register template: per-peripheral banks of four words (source address,
//! size, configuration, interrupt configuration) plus a process-wide pair of
//! words that gate clocks and route completion events.  This crate verifies
//! the logic of that layer — the clock/event bookkeeping, the generic bank
//! primitive, the SPI-master command encoder and its transfer engine, and the
//! memory-chip protocol built on top — against a model of the hardware-visible
//! state: the register words a driver owns, the DMA-reachable transfer region,
//! and the exact sequence of transfers handed to the engine.
//!
//! Volatile access to the real registers is a thin unverified shim kept
//! outside this crate; everything here is ordinary data, so every register
//! value, command word and transfer is pinned down by a contract.

pub mod dma;
pub mod global;
pub mod ifram;
pub mod periph;
pub mod spim;
pub mod spim_cmd;
