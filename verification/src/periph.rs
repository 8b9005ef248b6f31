//! Peripheral identity tables: the clock-gate bit and event base id of each
//! peripheral served by the shared DMA engine, the per-kind event sub-offsets,
//! and the four event-routing channels.

use vstd::prelude::*;

verus! {

/// One peripheral behind the shared DMA engine.  Each carries a one-hot bit
/// in the clock-gate register, given by [`PeriphId::mask`].
#[derive(Clone, Copy, PartialEq, Eq, Structural, Debug)]
pub enum PeriphId {
    Uart0,
    Uart1,
    Uart2,
    Uart3,
    Spim0,
    Spim1,
    Spim2,
    Spim3,
    I2c0,
    I2c1,
    I2c2,
    I2c3,
    Sdio,
    I2s,
    Cam,
    Filter,
    Scif,
    Spis0,
    Spis1,
    Adc,
}

impl PeriphId {
    /// Position of this peripheral's bit in the clock-gate register.
    pub open spec fn spec_bit_index(self) -> u32 {
        match self {
            PeriphId::Uart0 => 0,
            PeriphId::Uart1 => 1,
            PeriphId::Uart2 => 2,
            PeriphId::Uart3 => 3,
            PeriphId::Spim0 => 4,
            PeriphId::Spim1 => 5,
            PeriphId::Spim2 => 6,
            PeriphId::Spim3 => 7,
            PeriphId::I2c0 => 8,
            PeriphId::I2c1 => 9,
            PeriphId::I2c2 => 10,
            PeriphId::I2c3 => 11,
            PeriphId::Sdio => 12,
            PeriphId::I2s => 13,
            PeriphId::Cam => 14,
            PeriphId::Filter => 15,
            PeriphId::Scif => 16,
            PeriphId::Spis0 => 17,
            PeriphId::Spis1 => 18,
            PeriphId::Adc => 19,
        }
    }

    /// One-hot clock-gate mask of this peripheral.
    pub open spec fn spec_mask(self) -> u32 {
        1u32 << self.spec_bit_index()
    }

    /// The peripheral whose clock-gate bit sits at position `index`.
    pub open spec fn spec_from_bit_index(index: u32) -> PeriphId {
        if index == 0 { PeriphId::Uart0 }
        else if index == 1 { PeriphId::Uart1 }
        else if index == 2 { PeriphId::Uart2 }
        else if index == 3 { PeriphId::Uart3 }
        else if index == 4 { PeriphId::Spim0 }
        else if index == 5 { PeriphId::Spim1 }
        else if index == 6 { PeriphId::Spim2 }
        else if index == 7 { PeriphId::Spim3 }
        else if index == 8 { PeriphId::I2c0 }
        else if index == 9 { PeriphId::I2c1 }
        else if index == 10 { PeriphId::I2c2 }
        else if index == 11 { PeriphId::I2c3 }
        else if index == 12 { PeriphId::Sdio }
        else if index == 13 { PeriphId::I2s }
        else if index == 14 { PeriphId::Cam }
        else if index == 15 { PeriphId::Filter }
        else if index == 16 { PeriphId::Scif }
        else if index == 17 { PeriphId::Spis0 }
        else if index == 18 { PeriphId::Spis1 }
        else { PeriphId::Adc }
    }

    /// This peripheral's one-hot bit in the clock-gate register.
    pub fn mask(self) -> (r: u32)
        ensures
            r == self.spec_mask(),
    {
        match self {
            PeriphId::Uart0 => 1u32 << 0,
            PeriphId::Uart1 => 1u32 << 1,
            PeriphId::Uart2 => 1u32 << 2,
            PeriphId::Uart3 => 1u32 << 3,
            PeriphId::Spim0 => 1u32 << 4,
            PeriphId::Spim1 => 1u32 << 5,
            PeriphId::Spim2 => 1u32 << 6,
            PeriphId::Spim3 => 1u32 << 7,
            PeriphId::I2c0 => 1u32 << 8,
            PeriphId::I2c1 => 1u32 << 9,
            PeriphId::I2c2 => 1u32 << 10,
            PeriphId::I2c3 => 1u32 << 11,
            PeriphId::Sdio => 1u32 << 12,
            PeriphId::I2s => 1u32 << 13,
            PeriphId::Cam => 1u32 << 14,
            PeriphId::Filter => 1u32 << 15,
            PeriphId::Scif => 1u32 << 16,
            PeriphId::Spis0 => 1u32 << 17,
            PeriphId::Spis1 => 1u32 << 18,
            PeriphId::Adc => 1u32 << 19,
        }
    }

    /// Recovers a peripheral from its one-hot clock-gate mask, for callers
    /// that carried the mask across a process boundary as a primitive.
    pub fn from_u32(value: u32) -> (r: Option<PeriphId>)
        ensures
            r matches Some(p) ==> value == p.spec_mask(),
            (exists|p: PeriphId| value == p.spec_mask()) ==> r is Some,
    {
        let mut index: u32 = 0;
        let mut found: Option<PeriphId> = None;
        while index < 20
            invariant
                index <= 20,
                found matches Some(p) ==> value == p.spec_mask(),
                found is None ==> forall|i: u32| i < index ==>
                    value != #[trigger] PeriphId::spec_from_bit_index(i).spec_mask(),
            decreases 20 - index,
        {
            let candidate = Self::from_bit_index(index);
            if candidate.mask() == value {
                found = Some(candidate);
            }
            index = index + 1;
        }
        proof {
            if found is None {
                assert forall|p: PeriphId| value != p.spec_mask() by {
                    let i = p.spec_bit_index();
                    assert(PeriphId::spec_from_bit_index(i) == p);
                    assert(i < 20);
                }
            }
        }
        found
    }

    /// The peripheral whose clock-gate bit sits at position `index`.
    pub fn from_bit_index(index: u32) -> (r: PeriphId)
        ensures
            r == PeriphId::spec_from_bit_index(index),
    {
        if index == 0 { PeriphId::Uart0 }
        else if index == 1 { PeriphId::Uart1 }
        else if index == 2 { PeriphId::Uart2 }
        else if index == 3 { PeriphId::Uart3 }
        else if index == 4 { PeriphId::Spim0 }
        else if index == 5 { PeriphId::Spim1 }
        else if index == 6 { PeriphId::Spim2 }
        else if index == 7 { PeriphId::Spim3 }
        else if index == 8 { PeriphId::I2c0 }
        else if index == 9 { PeriphId::I2c1 }
        else if index == 10 { PeriphId::I2c2 }
        else if index == 11 { PeriphId::I2c3 }
        else if index == 12 { PeriphId::Sdio }
        else if index == 13 { PeriphId::I2s }
        else if index == 14 { PeriphId::Cam }
        else if index == 15 { PeriphId::Filter }
        else if index == 16 { PeriphId::Scif }
        else if index == 17 { PeriphId::Spis0 }
        else if index == 18 { PeriphId::Spis1 }
        else { PeriphId::Adc }
    }
}

/// Round trip between a peripheral and its bit position: the tables above are
/// mutually inverse, so distinct peripherals sit at distinct bit positions.
pub proof fn lemma_bit_index_round_trip(p: PeriphId)
    ensures
        PeriphId::spec_from_bit_index(p.spec_bit_index()) == p,
        p.spec_bit_index() < 20,
{
}

/// Distinct peripherals own disjoint clock-gate masks.
pub proof fn lemma_masks_disjoint(a: PeriphId, b: PeriphId)
    requires
        a != b,
    ensures
        a.spec_mask() & b.spec_mask() == 0,
{
    lemma_bit_index_round_trip(a);
    lemma_bit_index_round_trip(b);
    let i = a.spec_bit_index();
    let j = b.spec_bit_index();
    assert(i != j);
    assert((1u32 << i) & (1u32 << j) == 0) by (bit_vector)
        requires i != j, i < 20, j < 20;
}

/// A peripheral's clock-gate mask is never zero.
pub proof fn lemma_mask_nonzero(p: PeriphId)
    ensures
        p.spec_mask() != 0,
{
    let i = p.spec_bit_index();
    assert(1u32 << i != 0) by (bit_vector)
        requires i < 20;
}

/// Base event id of each peripheral: its four (or fewer) event lines occupy
/// ids starting here.  The ADC deviates from the stride-of-four pattern.
#[derive(Clone, Copy, PartialEq, Eq, Structural, Debug)]
pub enum PeriphEventId {
    Uart0,
    Uart1,
    Uart2,
    Uart3,
    Spim0,
    Spim1,
    Spim2,
    Spim3,
    I2c0,
    I2c1,
    I2c2,
    I2c3,
    Sdio,
    I2s,
    Cam,
    Adc,
    Filter,
    Scif,
    Spis0,
    Spis1,
}

impl PeriphEventId {
    /// Numeric base id of this peripheral's event block.
    pub open spec fn spec_id(self) -> u32 {
        match self {
            PeriphEventId::Uart0 => 0,
            PeriphEventId::Uart1 => 4,
            PeriphEventId::Uart2 => 8,
            PeriphEventId::Uart3 => 12,
            PeriphEventId::Spim0 => 16,
            PeriphEventId::Spim1 => 20,
            PeriphEventId::Spim2 => 24,
            PeriphEventId::Spim3 => 28,
            PeriphEventId::I2c0 => 32,
            PeriphEventId::I2c1 => 36,
            PeriphEventId::I2c2 => 40,
            PeriphEventId::I2c3 => 44,
            PeriphEventId::Sdio => 48,
            PeriphEventId::I2s => 52,
            PeriphEventId::Cam => 56,
            PeriphEventId::Adc => 57,
            PeriphEventId::Filter => 60,
            PeriphEventId::Scif => 64,
            PeriphEventId::Spis0 => 68,
            PeriphEventId::Spis1 => 72,
        }
    }

    /// The event base of a given peripheral.
    pub open spec fn spec_from_periph(id: PeriphId) -> PeriphEventId {
        match id {
            PeriphId::Uart0 => PeriphEventId::Uart0,
            PeriphId::Uart1 => PeriphEventId::Uart1,
            PeriphId::Uart2 => PeriphEventId::Uart2,
            PeriphId::Uart3 => PeriphEventId::Uart3,
            PeriphId::Spim0 => PeriphEventId::Spim0,
            PeriphId::Spim1 => PeriphEventId::Spim1,
            PeriphId::Spim2 => PeriphEventId::Spim2,
            PeriphId::Spim3 => PeriphEventId::Spim3,
            PeriphId::I2c0 => PeriphEventId::I2c0,
            PeriphId::I2c1 => PeriphEventId::I2c1,
            PeriphId::I2c2 => PeriphEventId::I2c2,
            PeriphId::I2c3 => PeriphEventId::I2c3,
            PeriphId::Sdio => PeriphEventId::Sdio,
            PeriphId::I2s => PeriphEventId::I2s,
            PeriphId::Cam => PeriphEventId::Cam,
            PeriphId::Filter => PeriphEventId::Filter,
            PeriphId::Scif => PeriphEventId::Scif,
            PeriphId::Spis0 => PeriphEventId::Spis0,
            PeriphId::Spis1 => PeriphEventId::Spis1,
            PeriphId::Adc => PeriphEventId::Adc,
        }
    }

    /// The event base of a given peripheral.
    pub fn from_periph(id: PeriphId) -> (r: PeriphEventId)
        ensures
            r == PeriphEventId::spec_from_periph(id),
    {
        match id {
            PeriphId::Uart0 => PeriphEventId::Uart0,
            PeriphId::Uart1 => PeriphEventId::Uart1,
            PeriphId::Uart2 => PeriphEventId::Uart2,
            PeriphId::Uart3 => PeriphEventId::Uart3,
            PeriphId::Spim0 => PeriphEventId::Spim0,
            PeriphId::Spim1 => PeriphEventId::Spim1,
            PeriphId::Spim2 => PeriphEventId::Spim2,
            PeriphId::Spim3 => PeriphEventId::Spim3,
            PeriphId::I2c0 => PeriphEventId::I2c0,
            PeriphId::I2c1 => PeriphEventId::I2c1,
            PeriphId::I2c2 => PeriphEventId::I2c2,
            PeriphId::I2c3 => PeriphEventId::I2c3,
            PeriphId::Sdio => PeriphEventId::Sdio,
            PeriphId::I2s => PeriphEventId::I2s,
            PeriphId::Cam => PeriphEventId::Cam,
            PeriphId::Filter => PeriphEventId::Filter,
            PeriphId::Scif => PeriphEventId::Scif,
            PeriphId::Spis0 => PeriphEventId::Spis0,
            PeriphId::Spis1 => PeriphEventId::Spis1,
            PeriphId::Adc => PeriphEventId::Adc,
        }
    }

    /// Numeric base id of this peripheral's event block.
    pub fn id(self) -> (r: u32)
        ensures
            r == self.spec_id(),
    {
        match self {
            PeriphEventId::Uart0 => 0,
            PeriphEventId::Uart1 => 4,
            PeriphEventId::Uart2 => 8,
            PeriphEventId::Uart3 => 12,
            PeriphEventId::Spim0 => 16,
            PeriphEventId::Spim1 => 20,
            PeriphEventId::Spim2 => 24,
            PeriphEventId::Spim3 => 28,
            PeriphEventId::I2c0 => 32,
            PeriphEventId::I2c1 => 36,
            PeriphEventId::I2c2 => 40,
            PeriphEventId::I2c3 => 44,
            PeriphEventId::Sdio => 48,
            PeriphEventId::I2s => 52,
            PeriphEventId::Cam => 56,
            PeriphEventId::Adc => 57,
            PeriphEventId::Filter => 60,
            PeriphEventId::Scif => 64,
            PeriphEventId::Spis0 => 68,
            PeriphEventId::Spis1 => 72,
        }
    }
}

/// The event base of a peripheral, as a number.
pub open spec fn spec_event_base(p: PeriphId) -> u32 {
    PeriphEventId::spec_from_periph(p).spec_id()
}

/// Event base ids stay at or below 72, so any composed id with a sub-offset
/// of at most 3 fits the 8-bit routing lane.
pub proof fn lemma_event_base_bounded(p: PeriphId)
    ensures
        spec_event_base(p) <= 72,
{
}

/// Event lines of a UART peripheral.
#[derive(Clone, Copy, PartialEq, Eq, Structural, Debug)]
pub enum EventUartOffset {
    Rx,
    Tx,
    RxChar,
    Error,
}

impl EventUartOffset {
    pub open spec fn spec_offset(self) -> u32 {
        match self {
            EventUartOffset::Rx => 0,
            EventUartOffset::Tx => 1,
            EventUartOffset::RxChar => 2,
            EventUartOffset::Error => 3,
        }
    }
}

/// Event lines of a SPI-master peripheral.
#[derive(Clone, Copy, PartialEq, Eq, Structural, Debug)]
pub enum EventSpimOffset {
    Rx,
    Tx,
    Cmd,
    Eot,
}

impl EventSpimOffset {
    pub open spec fn spec_offset(self) -> u32 {
        match self {
            EventSpimOffset::Rx => 0,
            EventSpimOffset::Tx => 1,
            EventSpimOffset::Cmd => 2,
            EventSpimOffset::Eot => 3,
        }
    }
}

/// Event lines of an I2C peripheral.
#[derive(Clone, Copy, PartialEq, Eq, Structural, Debug)]
pub enum EventI2cOffset {
    Rx,
    Tx,
    Cmd,
    Eot,
}

impl EventI2cOffset {
    pub open spec fn spec_offset(self) -> u32 {
        match self {
            EventI2cOffset::Rx => 0,
            EventI2cOffset::Tx => 1,
            EventI2cOffset::Cmd => 2,
            EventI2cOffset::Eot => 3,
        }
    }
}

/// Event lines of the SDIO peripheral.
#[derive(Clone, Copy, PartialEq, Eq, Structural, Debug)]
pub enum EventSdioOffset {
    Rx,
    Tx,
    Eot,
    Error,
}

impl EventSdioOffset {
    pub open spec fn spec_offset(self) -> u32 {
        match self {
            EventSdioOffset::Rx => 0,
            EventSdioOffset::Tx => 1,
            EventSdioOffset::Eot => 2,
            EventSdioOffset::Error => 3,
        }
    }
}

/// Event lines of the I2S peripheral.
#[derive(Clone, Copy, PartialEq, Eq, Structural, Debug)]
pub enum EventI2sOffset {
    Rx,
    Tx,
}

impl EventI2sOffset {
    pub open spec fn spec_offset(self) -> u32 {
        match self {
            EventI2sOffset::Rx => 0,
            EventI2sOffset::Tx => 1,
        }
    }
}

/// Event line of the camera interface.
#[derive(Clone, Copy, PartialEq, Eq, Structural, Debug)]
pub enum EventCamOffset {
    Rx,
}

impl EventCamOffset {
    pub open spec fn spec_offset(self) -> u32 {
        match self {
            EventCamOffset::Rx => 0,
        }
    }
}

/// Event line of the ADC.
#[derive(Clone, Copy, PartialEq, Eq, Structural, Debug)]
pub enum EventAdcOffset {
    Rx,
}

impl EventAdcOffset {
    pub open spec fn spec_offset(self) -> u32 {
        match self {
            EventAdcOffset::Rx => 0,
        }
    }
}

/// Event lines of the filter engine.
#[derive(Clone, Copy, PartialEq, Eq, Structural, Debug)]
pub enum EventFilterOffset {
    Eot,
    Active,
}

impl EventFilterOffset {
    pub open spec fn spec_offset(self) -> u32 {
        match self {
            EventFilterOffset::Eot => 0,
            EventFilterOffset::Active => 1,
        }
    }
}

/// Event lines of the SCIF peripheral.
#[derive(Clone, Copy, PartialEq, Eq, Structural, Debug)]
pub enum EventScifOffset {
    Rx,
    Tx,
    RxChar,
    Error,
}

impl EventScifOffset {
    pub open spec fn spec_offset(self) -> u32 {
        match self {
            EventScifOffset::Rx => 0,
            EventScifOffset::Tx => 1,
            EventScifOffset::RxChar => 2,
            EventScifOffset::Error => 3,
        }
    }
}

/// Event lines of a SPI-slave peripheral.
#[derive(Clone, Copy, PartialEq, Eq, Structural, Debug)]
pub enum EventSpisOffset {
    Rx,
    Tx,
    Eot,
}

impl EventSpisOffset {
    pub open spec fn spec_offset(self) -> u32 {
        match self {
            EventSpisOffset::Rx => 0,
            EventSpisOffset::Tx => 1,
            EventSpisOffset::Eot => 2,
        }
    }
}

/// A typed event descriptor: which kind of peripheral, and which of its
/// event lines.  The numeric sub-offset is added to the peripheral's base id.
#[derive(Clone, Copy, PartialEq, Eq, Structural, Debug)]
pub enum PeriphEventType {
    Uart(EventUartOffset),
    Spim(EventSpimOffset),
    I2c(EventI2cOffset),
    Sdio(EventSdioOffset),
    I2s(EventI2sOffset),
    Cam(EventCamOffset),
    Adc(EventAdcOffset),
    Filter(EventFilterOffset),
    Scif(EventScifOffset),
    Spis(EventSpisOffset),
}

impl PeriphEventType {
    /// Numeric sub-offset of this event line within its peripheral's block.
    pub open spec fn spec_offset(self) -> u32 {
        match self {
            PeriphEventType::Uart(t) => t.spec_offset(),
            PeriphEventType::Spim(t) => t.spec_offset(),
            PeriphEventType::I2c(t) => t.spec_offset(),
            PeriphEventType::Sdio(t) => t.spec_offset(),
            PeriphEventType::I2s(t) => t.spec_offset(),
            PeriphEventType::Cam(t) => t.spec_offset(),
            PeriphEventType::Adc(t) => t.spec_offset(),
            PeriphEventType::Filter(t) => t.spec_offset(),
            PeriphEventType::Scif(t) => t.spec_offset(),
            PeriphEventType::Spis(t) => t.spec_offset(),
        }
    }

    /// Numeric sub-offset of this event line within its peripheral's block.
    pub fn offset(self) -> (r: u32)
        ensures
            r == self.spec_offset(),
            r <= 3,
    {
        match self {
            PeriphEventType::Uart(t) => match t {
                EventUartOffset::Rx => 0,
                EventUartOffset::Tx => 1,
                EventUartOffset::RxChar => 2,
                EventUartOffset::Error => 3,
            },
            PeriphEventType::Spim(t) => match t {
                EventSpimOffset::Rx => 0,
                EventSpimOffset::Tx => 1,
                EventSpimOffset::Cmd => 2,
                EventSpimOffset::Eot => 3,
            },
            PeriphEventType::I2c(t) => match t {
                EventI2cOffset::Rx => 0,
                EventI2cOffset::Tx => 1,
                EventI2cOffset::Cmd => 2,
                EventI2cOffset::Eot => 3,
            },
            PeriphEventType::Sdio(t) => match t {
                EventSdioOffset::Rx => 0,
                EventSdioOffset::Tx => 1,
                EventSdioOffset::Eot => 2,
                EventSdioOffset::Error => 3,
            },
            PeriphEventType::I2s(t) => match t {
                EventI2sOffset::Rx => 0,
                EventI2sOffset::Tx => 1,
            },
            PeriphEventType::Cam(t) => match t {
                EventCamOffset::Rx => 0,
            },
            PeriphEventType::Adc(t) => match t {
                EventAdcOffset::Rx => 0,
            },
            PeriphEventType::Filter(t) => match t {
                EventFilterOffset::Eot => 0,
                EventFilterOffset::Active => 1,
            },
            PeriphEventType::Scif(t) => match t {
                EventScifOffset::Rx => 0,
                EventScifOffset::Tx => 1,
                EventScifOffset::RxChar => 2,
                EventScifOffset::Error => 3,
            },
            PeriphEventType::Spis(t) => match t {
                EventSpisOffset::Rx => 0,
                EventSpisOffset::Tx => 1,
                EventSpisOffset::Eot => 2,
            },
        }
    }
}

/// One of the four event-routing slots.  Each occupies one byte lane of the
/// event-routing register, at the shift given by [`EventChannel::lane_shift`].
#[derive(Clone, Copy, PartialEq, Eq, Structural, Debug)]
pub enum EventChannel {
    Channel0,
    Channel1,
    Channel2,
    Channel3,
}

impl EventChannel {
    /// Bit shift of this channel's byte lane in the event-routing register.
    pub open spec fn spec_lane_shift(self) -> u32 {
        match self {
            EventChannel::Channel0 => 0,
            EventChannel::Channel1 => 8,
            EventChannel::Channel2 => 16,
            EventChannel::Channel3 => 24,
        }
    }

    /// Bit shift of this channel's byte lane in the event-routing register.
    pub fn lane_shift(self) -> (r: u32)
        ensures
            r == self.spec_lane_shift(),
    {
        match self {
            EventChannel::Channel0 => 0,
            EventChannel::Channel1 => 8,
            EventChannel::Channel2 => 16,
            EventChannel::Channel3 => 24,
        }
    }

    /// Recovers a channel from its lane shift, for callers that carried the
    /// shift across a process boundary as a primitive.
    pub fn from_u32(value: u32) -> (r: Option<EventChannel>)
        ensures
            r matches Some(c) ==> value == c.spec_lane_shift(),
            r is None ==> forall|c: EventChannel| value != c.spec_lane_shift(),
    {
        if value == 0 { Some(EventChannel::Channel0) }
        else if value == 8 { Some(EventChannel::Channel1) }
        else if value == 16 { Some(EventChannel::Channel2) }
        else if value == 24 { Some(EventChannel::Channel3) }
        else { None }
    }
}

} // verus!
