use lifx_lan::bulb::{Bulb, Color, IpAddress, SocketAddress, LONG_MAX_AGE, SHORT_MAX_AGE};
use lifx_lan::codec::Request;
use lifx_lan::refreshable_data::{Refresh, RefreshableData};

fn addr() -> SocketAddress {
    SocketAddress { ip: IpAddress::V4(0xC0A8_0002), port: 56700 }
}

#[test]
fn fresh_field_always_requests() {
    let mut f: RefreshableData<String> = RefreshableData::with_config(1000, Request::GetLabel, 0);
    assert_eq!(f.check(0), Some(Request::GetLabel));
    assert_eq!(f.check(1), Some(Request::GetLabel));
    assert_eq!(f.check(u64::MAX), Some(Request::GetLabel));
}

#[test]
fn fresh_dynamic_field_uses_policy_for_absence() {
    let refresh = Refresh::ByShape {
        absent: None,
        plain: Some(Request::GetPower),
        single_zone: None,
        multi_zone: None,
    };
    let mut f: RefreshableData<u16> = RefreshableData::with_dyn_config(1000, refresh, 0);
    assert_eq!(f.check(0), None);
    f.update(3, 10);
    assert_eq!(f.check(2000), Some(Request::GetPower));
}

#[test]
fn fresh_until_max_age_then_requests() {
    let mut f: RefreshableData<u16> = RefreshableData::with_config(5000, Request::GetPower, 0);
    f.update(7, 1000);
    assert_eq!(f.check(1000), None);
    assert_eq!(f.check(3500), None);
    assert_eq!(f.check(6000), None);
    assert_eq!(f.check(6001), Some(Request::GetPower));
    // issuing the request counts as a refresh
    assert_eq!(f.check(6002), None);
    assert_eq!(f.check(11001), None);
    assert_eq!(f.check(11002), Some(Request::GetPower));
    assert_eq!(f.as_ref(), Some(&7));
}

#[test]
fn clock_going_back_counts_as_no_time() {
    let mut f: RefreshableData<u16> = RefreshableData::with_config(5000, Request::GetPower, 0);
    f.update(7, 10_000);
    assert!(!f.needs_update(0));
    assert_eq!(f.check(0), None);
}

#[test]
fn update_twice_keeps_value_and_moves_time() {
    let mut f: RefreshableData<String> = RefreshableData::with_config(100, Request::GetLabel, 0);
    f.update("Lamp".to_string(), 5);
    f.update("Lamp".to_string(), 9);
    assert_eq!(f.as_ref(), Some(&"Lamp".to_string()));
    assert_eq!(f.last_updated, 9);
    assert_eq!(f.max_age, Some(100));
    assert_eq!(f.check(109), None);
    assert_eq!(f.check(110), Some(Request::GetLabel));
}

#[test]
fn no_max_age_never_refreshes() {
    let mut f: RefreshableData<u32> = RefreshableData::with_config(100, Request::GetHostFirmware, 0);
    f.keep_updated(None);
    assert!(!f.needs_update(0));
    assert_eq!(f.check(1_000_000), None);
    f.keep_updated(Some(10));
    assert_eq!(f.check(1_000_000), Some(Request::GetHostFirmware));
}

#[test]
fn get_and_get_blocking_return_value() {
    let mut f: RefreshableData<u32> = RefreshableData::with_config(100, Request::GetHostFirmware, 0);
    assert_eq!(f.get(), None);
    f.update(42, 0);
    assert_eq!(f.get(), Some(&42));
    assert_eq!(f.get_blocking(), 42);
}

#[test]
fn new_bulb_requests_every_field_in_order() {
    let mut b = Bulb::new(addr(), 0xABCD, 0);
    let reqs = b.evaluate(0);
    assert_eq!(
        reqs,
        vec![
            Request::GetLabel,
            Request::GetPower,
            Request::GetVersion,
            Request::GetVersion,
            Request::GetLocation,
            Request::GetHostFirmware,
            Request::GetWifiFirmware,
        ]
    );
    assert!(b.name().is_none());
    assert!(b.power().is_none());
    assert!(b.color().is_none());
    assert!(b.color_single().is_none());
    assert!(b.color_multi().is_none());
    b.set_name();
}

#[test]
fn bulb_skips_fresh_fields() {
    let mut b = Bulb::new(addr(), 0xABCD, 0);
    b.name.update("Lamp".to_string(), 0);
    b.power.update(65535, 0);
    b.color.update(Color::Single(None), 0);
    b.model.update((1, 1), 0);
    let reqs = b.evaluate(SHORT_MAX_AGE);
    assert_eq!(
        reqs,
        vec![Request::GetLocation, Request::GetHostFirmware, Request::GetWifiFirmware]
    );
    let reqs = b.evaluate(SHORT_MAX_AGE + 1);
    assert_eq!(
        reqs,
        vec![
            Request::GetPower,
            Request::LightGet,
            Request::GetLocation,
            Request::GetHostFirmware,
            Request::GetWifiFirmware,
        ]
    );
    let reqs = b.evaluate(LONG_MAX_AGE + 1);
    assert_eq!(reqs[0], Request::GetLabel);
}

#[test]
fn multizone_colour_requests_zone_range() {
    let mut b = Bulb::new(addr(), 1, 0);
    b.color.update(Color::Multi(vec![]), 0);
    let reqs = b.evaluate(SHORT_MAX_AGE + 1);
    assert!(reqs.contains(&Request::GetColorZones { start_index: 0, end_index: 255 }));
    assert!(b.color_multi().is_some());
    assert!(b.color_single().is_none());
}

#[test]
fn largest_times_do_not_overflow() {
    let mut f: RefreshableData<u16> = RefreshableData::with_config(5, Request::GetPower, 0);
    f.update(1, u64::MAX - 5);
    assert_eq!(f.check(u64::MAX), None);
    let mut g: RefreshableData<u16> = RefreshableData::with_config(u64::MAX, Request::GetPower, 0);
    g.update(1, 0);
    assert_eq!(g.check(u64::MAX), None);
    let mut h: RefreshableData<u16> = RefreshableData::with_config(0, Request::GetPower, 0);
    h.update(1, 7);
    assert_eq!(h.check(7), None);
    assert_eq!(h.check(8), Some(Request::GetPower));
}

#[test]
fn constructors_stamp_the_time_they_are_given() {
    let f: RefreshableData<u16> = RefreshableData::with_config(5000, Request::GetPower, 1234);
    assert_eq!(f.last_updated, 1234);
    assert_eq!(f.max_age, Some(5000));
    assert!(f.data.is_none());
    let g: RefreshableData<u16> =
        RefreshableData::with_dyn_config(7, Refresh::Fixed(Request::GetLabel), 99);
    assert_eq!(g.last_updated, 99);
    assert_eq!(g.refresh, Refresh::Fixed(Request::GetLabel));
    let b = Bulb::new(addr(), 3, 42);
    assert_eq!(b.name.last_updated, 42);
    assert_eq!(b.color.last_updated, 42);
    assert_eq!(b.wifi_firmware.last_updated, 42);
    assert_eq!(b.name.max_age, Some(LONG_MAX_AGE));
    assert_eq!(b.power.max_age, Some(SHORT_MAX_AGE));
}

#[test]
fn new_bulb_is_well_formed_until_its_policy_changes() {
    let mut b = Bulb::new(addr(), 3, 0);
    assert!(b.is_wf());
    b.evaluate(10);
    b.color.update(Color::Single(None), 10);
    assert!(b.is_wf());
    b.power.keep_updated(None);
    assert!(!b.is_wf());
}
