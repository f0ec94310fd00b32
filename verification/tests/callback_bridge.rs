use std::cell::Cell;

use mobilesync_bridge::callback::IDeviceEvent;
use mobilesync_bridge::callback::IDeviceEventCallback;
use mobilesync_bridge::callback::IDeviceEventType;
use mobilesync_bridge::callback::RawIDeviceEvent;
use mobilesync_bridge::callback::decode_event;
use mobilesync_bridge::callback::idevice_event_callback;

fn raw(code: i32, udid: &str) -> RawIDeviceEvent {
    RawIDeviceEvent { event_code: code, udid: Some(udid.to_string()) }
}

#[test]
fn decode_well_shaped_records() {
    let d = decode_event(&raw(1, "udid-a")).unwrap();
    assert_eq!(d.udid, "udid-a");
    assert!(matches!(d.event_type, IDeviceEventType::Add));
    let d = decode_event(&raw(2, "udid-b")).unwrap();
    assert!(matches!(d.event_type, IDeviceEventType::Remove));
    let d = decode_event(&raw(3, "udid-c")).unwrap();
    assert!(matches!(d.event_type, IDeviceEventType::Paired));
}

#[test]
fn decode_rejects_malformed_records() {
    assert!(decode_event(&raw(0, "udid-a")).is_none());
    assert!(decode_event(&raw(4, "udid-a")).is_none());
    assert!(decode_event(&raw(-1, "udid-a")).is_none());
    assert!(decode_event(&RawIDeviceEvent { event_code: 1, udid: None }).is_none());
}

#[test]
fn no_filter_forwards_every_event() {
    let seen: Cell<u32> = Cell::new(0);
    let handler = |_e: IDeviceEvent, c: &Cell<u32>| c.set(c.get() + 1);
    let mut cb = IDeviceEventCallback::new(handler, &seen, None);
    for (code, udid) in [(1, "one"), (2, "two"), (3, "three")] {
        let r = raw(code, udid);
        let forwarded = idevice_event_callback(&mut cb, Some(&r));
        assert_eq!(forwarded.unwrap().udid, udid);
    }
    assert_eq!(seen.get(), 3);
}

#[test]
fn filter_forwards_only_the_named_device() {
    let seen: Cell<u32> = Cell::new(0);
    let handler = |e: IDeviceEvent, c: &Cell<u32>| {
        assert_eq!(e.udid, "kept");
        c.set(c.get() + 1);
    };
    let mut cb = IDeviceEventCallback::new(handler, &seen, Some("kept".to_string()));
    let dropped = idevice_event_callback(&mut cb, Some(&raw(1, "other")));
    assert!(dropped.is_none());
    assert_eq!(seen.get(), 0);
    let forwarded = idevice_event_callback(&mut cb, Some(&raw(1, "kept")));
    assert_eq!(forwarded.unwrap().udid, "kept");
    assert_eq!(seen.get(), 1);
}

#[test]
fn malformed_records_are_dropped_before_the_handler() {
    let seen: Cell<u32> = Cell::new(0);
    let handler = |_e: IDeviceEvent, c: &Cell<u32>| c.set(c.get() + 1);
    let mut cb = IDeviceEventCallback::new(handler, &seen, None);
    assert!(idevice_event_callback(&mut cb, None).is_none());
    assert!(idevice_event_callback(&mut cb, Some(&raw(7, "x"))).is_none());
    let no_udid = RawIDeviceEvent { event_code: 1, udid: None };
    assert!(idevice_event_callback(&mut cb, Some(&no_udid)).is_none());
    assert_eq!(seen.get(), 0);
}

#[test]
fn call_hands_event_and_context_to_the_handler() {
    let seen: Cell<i64> = Cell::new(0);
    let handler = |e: IDeviceEvent, c: &Cell<i64>| {
        assert_eq!(e.udid, "direct");
        c.set(c.get() + 41);
    };
    let mut cb = IDeviceEventCallback::new(handler, &seen, None);
    cb.call(IDeviceEvent { udid: "direct".to_string(), event_type: IDeviceEventType::Add });
    assert_eq!(seen.get(), 41);
}
