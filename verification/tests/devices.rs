use std::path::PathBuf;

use scrollock::device_discovery::{
    find_match, inspect, looks_like_mouse, render_listing, try_match, DeviceInfo,
    DeviceProbe, Listed, MatchCriteria,
};

fn device(phys: Option<&str>) -> DeviceInfo {
    DeviceInfo {
        path: PathBuf::from("/dev/input/event0"),
        name: "Test Mouse".to_owned(),
        phys: phys.map(str::to_owned),
        unique_name: None,
        vendor_id: 0x046d,
        product_id: 0xc539,
        bus_type: 3,
        keys: Vec::new(),
        axes: Vec::new(),
    }
}

#[test]
fn matches_requires_vendor_and_product() {
    let dev = device(None);
    let criteria = MatchCriteria {
        vendor_id: 0x046d,
        product_id: 0xc539,
        name: None,
        phys: None,
    };
    assert!(scrollock::device_discovery::matches(&dev, &criteria));

    let wrong_vendor = MatchCriteria {
        vendor_id: 0x1234,
        product_id: 0xc539,
        name: None,
        phys: None,
    };
    assert!(!scrollock::device_discovery::matches(&dev, &wrong_vendor));
}

#[test]
fn matches_ignores_port_when_phys_is_none() {
    // Mouse plugged into a port; criteria does not pin a port.
    let dev = device(Some("usb-0000:00:14.0-2/input0"));
    let criteria = MatchCriteria {
        vendor_id: 0x046d,
        product_id: 0xc539,
        name: None,
        phys: None,
    };
    assert!(scrollock::device_discovery::matches(&dev, &criteria));
}

#[test]
fn matches_rejects_different_port_when_phys_pinned() {
    let dev = device(Some("usb-0000:00:14.0-2/input0"));
    let criteria = MatchCriteria {
        vendor_id: 0x046d,
        product_id: 0xc539,
        name: None,
        phys: Some("usb-0000:00:14.0-5/input2"),
    };
    assert!(!scrollock::device_discovery::matches(&dev, &criteria));
}

#[test]
fn without_phys_clears_port_but_keeps_ids_and_name() {
    let criteria = MatchCriteria {
        vendor_id: 0x046d,
        product_id: 0xc539,
        name: Some("Test Mouse"),
        phys: Some("usb-0000:00:14.0-5/input2"),
    };
    let relaxed = criteria.without_phys();
    assert_eq!(relaxed.vendor_id, 0x046d);
    assert_eq!(relaxed.product_id, 0xc539);
    assert_eq!(relaxed.name, Some("Test Mouse"));
    assert!(relaxed.phys.is_none());

    // The relaxed criteria now matches a device on a different port.
    let dev = device(Some("usb-0000:00:14.0-2/input0"));
    assert!(scrollock::device_discovery::matches(&dev, &relaxed));
}

#[test]
fn the_first_match_wins_and_any_port_will_do() {
    let other = DeviceInfo {
        vendor_id: 1,
        ..device(None)
    };
    let near = DeviceInfo {
        path: PathBuf::from("/dev/input/event1"),
        ..device(Some("port-a"))
    };
    let far = DeviceInfo {
        path: PathBuf::from("/dev/input/event2"),
        ..device(Some("port-b"))
    };
    let all = vec![other, near, far];
    let pinned = |phys: &'static str| MatchCriteria {
        vendor_id: 0x046d,
        product_id: 0xc539,
        name: Some("Test Mouse"),
        phys: Some(phys),
    };
    let path = |found: Option<&DeviceInfo>| found.map(|d| d.path.clone());
    assert_eq!(
        path(find_match(&all, &pinned("port-b"))),
        Some(PathBuf::from("/dev/input/event2"))
    );
    assert_eq!(path(find_match(&all, &pinned("port-c"))), None);
    assert_eq!(
        path(try_match(&all, &pinned("port-b"))),
        Some(PathBuf::from("/dev/input/event2"))
    );
    assert_eq!(
        path(try_match(&all, &pinned("port-c"))),
        Some(PathBuf::from("/dev/input/event1"))
    );
    let named = MatchCriteria {
        name: Some("Other Mouse"),
        phys: None,
        ..pinned("port-b")
    };
    assert_eq!(path(try_match(&all, &named)), None);
}

fn probe(name: Option<&str>, keys: Option<Vec<u16>>, axes: Option<Vec<u16>>) -> DeviceProbe {
    DeviceProbe {
        path: PathBuf::from("/dev/input/event7"),
        name: name.map(str::to_owned),
        phys: Some("p".to_owned()),
        unique_name: None,
        vendor_id: 7,
        product_id: 8,
        bus_type: 3,
        keys,
        axes,
    }
}

#[test]
fn only_mice_are_candidates() {
    let keys = || Some(vec![30, 0x116, 0x110, 0x112]);
    let axes = || Some(vec![8, 1, 0, 9]);
    let info = inspect(probe(Some("Mouse"), keys(), axes())).expect("a mouse");
    assert_eq!(info.path, PathBuf::from("/dev/input/event7"));
    assert_eq!(info.name, "Mouse");
    assert_eq!(info.phys.as_deref(), Some("p"));
    assert_eq!((info.vendor_id, info.product_id), (7, 8));
    assert_eq!(info.vendor_hex(), "0007");
    assert_eq!(info.product_hex(), "0008");
    assert_eq!(info.keys, vec![0x110, 0x112, 0x116]);
    assert_eq!(info.axes, vec![0, 1, 8]);

    assert_eq!(
        inspect(probe(None, keys(), axes())).expect("a mouse").name,
        ""
    );
    assert!(inspect(probe(Some("Scrollock virtual mouse"), keys(), axes())).is_none());
    assert!(inspect(probe(Some("m"), None, axes())).is_none());
    assert!(inspect(probe(Some("m"), keys(), None)).is_none());
    assert!(inspect(probe(Some("m"), Some(vec![0x111]), axes())).is_none());
    assert!(inspect(probe(Some("m"), keys(), Some(vec![0]))).is_none());
    assert!(looks_like_mouse(&keys(), &axes()));
    assert!(!looks_like_mouse(&keys(), &Some(vec![1])));
}

#[test]
fn listing_shows_every_candidate() {
    assert_eq!(
        render_listing(&Vec::new()),
        "No mouse-like input devices found under /dev/input/.\n\
         Hint: you may need to run this with elevated privileges.\n"
    );
    let first = DeviceInfo {
        keys: vec![0x110, 0x112],
        axes: vec![0, 1],
        unique_name: Some("u-1".to_owned()),
        ..device(Some("port"))
    };
    let second = DeviceInfo {
        bus_type: 0x4242,
        ..device(None)
    };
    let listed = vec![
        Listed {
            shown_path: "/dev/input/event0",
            device: &first,
        },
        Listed {
            shown_path: "/dev/input/event9",
            device: &second,
        },
    ];
    assert_eq!(
        render_listing(&listed),
        "Candidate mice:\n\n\
         [1] /dev/input/event0\n    name: Test Mouse\n    usb-id: 046d:c539 (bus: USB)\n    \
         phys: port\n    unique: u-1\n    supports:\n      EV_KEY: BTN_LEFT BTN_MIDDLE\n      \
         EV_REL: REL_X REL_Y\n\n\
         [2] /dev/input/event9\n    name: Test Mouse\n    usb-id: 046d:c539 (bus: Unknown)\n    \
         supports:\n\n"
    );
}
