//! Process-wide configuration of the shared DMA engine: the clock-gate
//! register (one bit per peripheral) and the event-routing register (four
//! byte lanes, one per routing channel).
//!
//! [`GlobalConfig`] owns the model of those two words.  Every operation is a
//! plain read-modify-write whose exact result is stated in its contract; a
//! thin unverified shim mirrors the words to the memory-mapped hardware.

use vstd::prelude::*;
use crate::periph::{
    EventChannel, PeriphEventType, PeriphId, lemma_masks_disjoint, lemma_mask_nonzero,
    spec_event_base,
};

verus! {

/// Value of the event-routing register after writing `id` into the byte lane
/// at bit shift `sh`: only that lane's eight bits change.
pub open spec fn spec_lane_set(r: u32, id: u32, sh: u32) -> u32 {
    (r & !(0xFFu32 << sh)) | (id << sh)
}

/// The byte lane at bit shift `sh` of the event-routing register.
pub open spec fn spec_lane_get(r: u32, sh: u32) -> u32 {
    (r >> sh) & 0xFF
}

/// The routed event id composed for a peripheral and one of its event lines:
/// the peripheral's base id plus the line's sub-offset.
pub open spec fn spec_composed_id(p: PeriphId, t: PeriphEventType) -> u32 {
    (spec_event_base(p) + t.spec_offset()) as u32
}

/// The two process-wide configuration words of the DMA engine.
///
/// This is the model of the hardware register pair: writes land here, and the
/// unverified register shim copies the words out verbatim.  Concurrent
/// initialisers must serialise their read-modify-write sequences externally,
/// exactly as they must on the real registers.
pub struct GlobalConfig {
    /// Clock-gate register: one bit per peripheral, set while its clock runs.
    pub clock_gate: u32,
    /// Event-routing register: four byte lanes, each holding a routed event id.
    pub event_in: u32,
}

impl GlobalConfig {
    /// A configuration with every clock gated off and no event routed, the
    /// reset state of the register pair.
    pub fn new() -> (r: GlobalConfig)
        ensures
            r.clock_gate == 0,
            r.event_in == 0,
    {
        GlobalConfig { clock_gate: 0, event_in: 0 }
    }

    /// Ungates one peripheral's clock: sets exactly its bit.
    pub fn clock_on(&mut self, peripheral: PeriphId)
        ensures
            final(self).clock_gate == old(self).clock_gate | peripheral.spec_mask(),
            final(self).event_in == old(self).event_in,
    {
        self.clock_gate = self.clock_gate | peripheral.mask();
    }

    /// Gates one peripheral's clock off: clears exactly its bit.
    pub fn clock_off(&mut self, peripheral: PeriphId)
        ensures
            final(self).clock_gate == old(self).clock_gate & !peripheral.spec_mask(),
            final(self).event_in == old(self).event_in,
    {
        self.clock_gate = self.clock_gate & !peripheral.mask();
    }

    /// The raw clock-gate register.
    pub fn raw_clock_map(&self) -> (r: u32)
        ensures
            r == self.clock_gate,
    {
        self.clock_gate
    }

    /// Whether a peripheral's clock is currently ungated.
    pub fn is_clock_set(&self, peripheral: PeriphId) -> (r: bool)
        ensures
            r == ((self.clock_gate & peripheral.spec_mask()) != 0),
    {
        (self.clock_gate & peripheral.mask()) != 0
    }

    /// Routes a peripheral's event line to a channel: writes the composed id
    /// into that channel's byte lane, leaving the other three lanes alone.
    pub fn map_event(
        &mut self,
        peripheral: PeriphId,
        event_type: PeriphEventType,
        to_channel: EventChannel,
    )
        ensures
            final(self).event_in == spec_lane_set(
                old(self).event_in,
                spec_composed_id(peripheral, event_type),
                to_channel.spec_lane_shift(),
            ),
            final(self).clock_gate == old(self).clock_gate,
    {
        let event_offset: u32 = event_type.offset();
        self.map_event_with_offset(peripheral, event_offset, to_channel);
    }

    /// Same as [`GlobalConfig::map_event`], but for callers that already
    /// reduced a typed event descriptor to its primitive sub-offset, as
    /// happens when the descriptor crossed a process boundary.
    pub fn map_event_with_offset(
        &mut self,
        peripheral: PeriphId,
        event_offset: u32,
        to_channel: EventChannel,
    )
        requires
            spec_event_base(peripheral) + event_offset < 256,
        ensures
            final(self).event_in == spec_lane_set(
                old(self).event_in,
                (spec_event_base(peripheral) + event_offset) as u32,
                to_channel.spec_lane_shift(),
            ),
            final(self).clock_gate == old(self).clock_gate,
    {
        let base = crate::periph::PeriphEventId::from_periph(peripheral);
        let id: u32 = base.id() + event_offset;
        let sh = to_channel.lane_shift();
        self.event_in = (self.event_in & !(0xFFu32 << sh)) | (id << sh);
    }

    /// The raw event-routing register.
    pub fn raw_event_map(&self) -> (r: u32)
        ensures
            r == self.event_in,
    {
        self.event_in
    }
}

/// Shared interface to the process-wide configuration, for drivers that take
/// either this model or another holder of the same register pair.
pub trait UdmaGlobalConfig {
    /// The clock-gate register held by this implementation.
    spec fn clock_map(&self) -> u32;

    /// The event-routing register held by this implementation.
    spec fn event_map(&self) -> u32;

    /// Gates one peripheral's clock on or off, touching only its bit.
    fn clock(&mut self, peripheral: PeriphId, enable: bool)
        ensures
            final(self).clock_map() == if enable {
                old(self).clock_map() | peripheral.spec_mask()
            } else {
                old(self).clock_map() & !peripheral.spec_mask()
            },
            final(self).event_map() == old(self).event_map();

    /// Routes a peripheral's event line to a channel, touching only that
    /// channel's byte lane.
    fn udma_event_map(
        &mut self,
        peripheral: PeriphId,
        event_type: PeriphEventType,
        to_channel: EventChannel,
    )
        ensures
            final(self).event_map() == spec_lane_set(
                old(self).event_map(),
                spec_composed_id(peripheral, event_type),
                to_channel.spec_lane_shift(),
            ),
            final(self).clock_map() == old(self).clock_map();
}

impl UdmaGlobalConfig for GlobalConfig {
    open spec fn clock_map(&self) -> u32 {
        self.clock_gate
    }

    open spec fn event_map(&self) -> u32 {
        self.event_in
    }

    fn clock(&mut self, peripheral: PeriphId, enable: bool) {
        if enable {
            self.clock_on(peripheral);
        } else {
            self.clock_off(peripheral);
        }
    }

    fn udma_event_map(
        &mut self,
        peripheral: PeriphId,
        event_type: PeriphEventType,
        to_channel: EventChannel,
    ) {
        self.map_event(peripheral, event_type, to_channel);
    }
}

/// Channels at distinct lanes have distinct shifts.
pub proof fn lemma_lane_shift_injective(a: EventChannel, b: EventChannel)
    requires
        a.spec_lane_shift() == b.spec_lane_shift(),
    ensures
        a == b,
{
}

/// Writing a byte lane reads back exactly, and leaves any other lane alone.
pub proof fn lemma_lane_set_get(r: u32, id: u32, sh: u32, sh2: u32)
    requires
        id < 256,
        sh == 0 || sh == 8 || sh == 16 || sh == 24,
        sh2 == 0 || sh2 == 8 || sh2 == 16 || sh2 == 24,
        sh2 != sh,
    ensures
        spec_lane_get(spec_lane_set(r, id, sh), sh) == id,
        spec_lane_get(spec_lane_set(r, id, sh), sh2) == spec_lane_get(r, sh2),
{
    assert((((r & !(0xFFu32 << sh)) | (id << sh)) >> sh) & 0xFF == id) by (bit_vector)
        requires
            id < 256,
            sh == 0 || sh == 8 || sh == 16 || sh == 24,
    ;
    assert((((r & !(0xFFu32 << sh)) | (id << sh)) >> sh2) & 0xFF == (r >> sh2) & 0xFF)
        by (bit_vector)
        requires
            id < 256,
            sh == 0 || sh == 8 || sh == 16 || sh == 24,
            sh2 == 0 || sh2 == 8 || sh2 == 16 || sh2 == 24,
            sh2 != sh,
    ;
}

/// Routing an event writes `base id + sub-offset` into exactly the requested
/// channel's lane; the other three lanes read back unchanged.
pub proof fn lemma_map_event_routes(
    r: u32,
    p: PeriphId,
    t: PeriphEventType,
    c: EventChannel,
    other: EventChannel,
)
    requires
        other != c,
    ensures
        spec_lane_get(
            spec_lane_set(r, spec_composed_id(p, t), c.spec_lane_shift()),
            c.spec_lane_shift(),
        ) == spec_event_base(p) + t.spec_offset(),
        spec_lane_get(
            spec_lane_set(r, spec_composed_id(p, t), c.spec_lane_shift()),
            other.spec_lane_shift(),
        ) == spec_lane_get(r, other.spec_lane_shift()),
{
    crate::periph::lemma_event_base_bounded(p);
    if c.spec_lane_shift() == other.spec_lane_shift() {
        lemma_lane_shift_injective(c, other);
    }
    lemma_lane_set_get(
        r,
        spec_composed_id(p, t),
        c.spec_lane_shift(),
        other.spec_lane_shift(),
    );
}

/// Ungating a clock makes its bit read as set; gating it off, as clear.
pub proof fn lemma_clock_reads_back(r: u32, p: PeriphId)
    ensures
        (r | p.spec_mask()) & p.spec_mask() != 0,
        (r & !p.spec_mask()) & p.spec_mask() == 0,
{
    lemma_mask_nonzero(p);
    let m = p.spec_mask();
    assert((r | m) & m != 0 && (r & !m) & m == 0) by (bit_vector)
        requires m != 0;
}

/// Gating a clock on or off twice is the same as doing it once.
pub proof fn lemma_clock_idempotent(r: u32, m: u32)
    ensures
        (r | m) | m == r | m,
        (r & !m) & !m == r & !m,
{
    assert((r | m) | m == r | m && (r & !m) & !m == r & !m) by (bit_vector);
}

/// Gating one peripheral's clock never moves another peripheral's bit.
pub proof fn lemma_clock_isolated(r: u32, p: PeriphId, q: PeriphId)
    requires
        p != q,
    ensures
        ((r | p.spec_mask()) & q.spec_mask()) == (r & q.spec_mask()),
        ((r & !p.spec_mask()) & q.spec_mask()) == (r & q.spec_mask()),
{
    lemma_masks_disjoint(p, q);
    let m1 = p.spec_mask();
    let m2 = q.spec_mask();
    assert(((r | m1) & m2) == (r & m2) && ((r & !m1) & m2) == (r & m2)) by (bit_vector)
        requires m1 & m2 == 0;
}

} // verus!
