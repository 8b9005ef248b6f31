use udma_hal::global::{GlobalConfig, UdmaGlobalConfig};
use udma_hal::periph::{
    EventChannel, EventSpimOffset, EventUartOffset, PeriphEventId, PeriphEventType, PeriphId,
};

#[test]
fn clock_on_sets_exactly_one_bit() {
    let mut g = GlobalConfig::new();
    assert_eq!(g.raw_clock_map(), 0);
    g.clock_on(PeriphId::Spim1);
    assert!(g.is_clock_set(PeriphId::Spim1));
    assert_eq!(g.raw_clock_map(), 1 << 5);
    assert!(!g.is_clock_set(PeriphId::Spim0));
    assert!(!g.is_clock_set(PeriphId::Uart0));
}

#[test]
fn clock_off_clears_only_its_bit() {
    let mut g = GlobalConfig::new();
    g.clock_on(PeriphId::Uart0);
    g.clock_on(PeriphId::Adc);
    g.clock_off(PeriphId::Uart0);
    assert!(!g.is_clock_set(PeriphId::Uart0));
    assert!(g.is_clock_set(PeriphId::Adc));
    assert_eq!(g.raw_clock_map(), 1 << 19);
}

#[test]
fn clock_toggling_is_idempotent() {
    let mut g = GlobalConfig::new();
    g.clock_on(PeriphId::I2c2);
    let once = g.raw_clock_map();
    g.clock_on(PeriphId::I2c2);
    assert_eq!(g.raw_clock_map(), once);
    g.clock_off(PeriphId::I2c2);
    let off_once = g.raw_clock_map();
    g.clock_off(PeriphId::I2c2);
    assert_eq!(g.raw_clock_map(), off_once);
    assert_eq!(g.raw_clock_map(), 0);
}

#[test]
fn clock_trait_dispatches_on_enable() {
    let mut g = GlobalConfig::new();
    g.clock(PeriphId::Sdio, true);
    assert!(g.is_clock_set(PeriphId::Sdio));
    g.clock(PeriphId::Sdio, false);
    assert!(!g.is_clock_set(PeriphId::Sdio));
}

#[test]
fn map_event_writes_exactly_one_lane() {
    let mut g = GlobalConfig::new();
    g.map_event(
        PeriphId::Spim0,
        PeriphEventType::Spim(EventSpimOffset::Eot),
        EventChannel::Channel1,
    );
    // Spim0's base id is 16, the end-of-transfer line adds 3
    assert_eq!(g.raw_event_map(), 19 << 8);
    g.map_event(
        PeriphId::Uart1,
        PeriphEventType::Uart(EventUartOffset::Rx),
        EventChannel::Channel0,
    );
    // Uart1's base id is 4; channel 1's lane is untouched
    assert_eq!(g.raw_event_map(), (19 << 8) | 4);
    g.map_event(
        PeriphId::Spim0,
        PeriphEventType::Spim(EventSpimOffset::Rx),
        EventChannel::Channel1,
    );
    // rewriting channel 1 overwrites only its own lane
    assert_eq!(g.raw_event_map(), (16 << 8) | 4);
}

#[test]
fn map_event_with_offset_matches_typed_form() {
    let mut g = GlobalConfig::new();
    g.map_event_with_offset(PeriphId::Spim2, 2, EventChannel::Channel3);
    // Spim2's base id is 24, the command line adds 2
    assert_eq!(g.raw_event_map(), 26 << 24);
    let mut typed = GlobalConfig::new();
    typed.map_event(
        PeriphId::Spim2,
        PeriphEventType::Spim(EventSpimOffset::Cmd),
        EventChannel::Channel3,
    );
    assert_eq!(g.raw_event_map(), typed.raw_event_map());
}

#[test]
fn udma_event_map_trait_routes_like_map_event() {
    let mut g = GlobalConfig::new();
    g.udma_event_map(
        PeriphId::Cam,
        PeriphEventType::Cam(udma_hal::periph::EventCamOffset::Rx),
        EventChannel::Channel2,
    );
    // Cam's base id is 56
    assert_eq!(g.raw_event_map(), 56 << 16);
}

#[test]
fn event_base_ids_follow_the_table() {
    assert_eq!(PeriphEventId::from_periph(PeriphId::Uart0).id(), 0);
    assert_eq!(PeriphEventId::from_periph(PeriphId::Spim3).id(), 28);
    // the ADC breaks the stride-of-four pattern
    assert_eq!(PeriphEventId::from_periph(PeriphId::Adc).id(), 57);
    assert_eq!(PeriphEventId::from_periph(PeriphId::Cam).id(), 56);
    assert_eq!(PeriphEventId::from_periph(PeriphId::Spis1).id(), 72);
}

#[test]
fn periph_masks_round_trip() {
    assert_eq!(PeriphId::Spim0.mask(), 1 << 4);
    assert_eq!(PeriphId::Scif.mask(), 1 << 16);
    assert!(matches!(PeriphId::from_u32(1 << 4), Some(PeriphId::Spim0)));
    assert!(matches!(PeriphId::from_u32(1 << 19), Some(PeriphId::Adc)));
    assert!(PeriphId::from_u32(3).is_none());
    assert!(PeriphId::from_u32(0).is_none());
}

#[test]
fn event_channel_lanes_round_trip() {
    assert_eq!(EventChannel::Channel0.lane_shift(), 0);
    assert_eq!(EventChannel::Channel3.lane_shift(), 24);
    assert!(matches!(
        EventChannel::from_u32(16),
        Some(EventChannel::Channel2)
    ));
    assert!(EventChannel::from_u32(7).is_none());
}
