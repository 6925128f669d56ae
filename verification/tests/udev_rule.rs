use scrollock::udev_rule::{
    normalize_hex_id, parse_device_ids, render_rule, root_objection, DeviceIds,
};


#[test]
fn parses_and_normalizes_usb_ids() {
    let ids = parse_device_ids("ID_VENDOR_ID=046D\nID_MODEL_ID=C539\n").unwrap();
    assert_eq!(
        ids,
        DeviceIds {
            vendor: "046d".to_owned(),
            product: "c539".to_owned(),
        }
    );
}

#[test]
fn rejects_missing_or_invalid_usb_ids() {
    assert!(parse_device_ids("ID_VENDOR_ID=046d\n").is_none());
    assert!(parse_device_ids("ID_VENDOR_ID=not-hex\nID_MODEL_ID=c539\n").is_none());
}

#[test]
fn renders_targeted_uaccess_rule() {
    let rule = render_rule(&DeviceIds {
        vendor: "046d".to_owned(),
        product: "c539".to_owned(),
    });
    assert!(rule.contains("KERNEL==\"uinput\", SUBSYSTEM==\"misc\", TAG+=\"uaccess\", OPTIONS+=\"static_node=uinput\""));
    assert!(rule.contains("ENV{ID_VENDOR_ID}==\"046d\""));
    assert!(rule.contains("ENV{ID_MODEL_ID}==\"c539\""));
}

#[test]
fn renders_named_rule_label() {
    let rule = render_rule(&DeviceIds {
        vendor: "1234".to_owned(),
        product: "abcd".to_owned(),
    });
    assert!(rule.contains("GOTO=\"scrollock_end\""));
    assert!(rule.contains("LABEL=\"scrollock_end\""));
}

#[test]
fn the_last_setting_of_a_property_counts() {
    let ids = parse_device_ids(
        "ID_VENDOR_ID=1111\r\nnoise\nID_MODEL_ID=2222\nID_VENDOR_ID= aBcD \nX=Y=Z",
    )
    .unwrap();
    assert_eq!(ids.vendor, "abcd");
    assert_eq!(ids.product, "2222");
    assert!(parse_device_ids("ID_VENDOR_ID=1111\nID_MODEL_ID=2222\nID_MODEL_ID=x").is_none());
}

#[test]
fn ids_have_four_digits() {
    assert_eq!(normalize_hex_id("046D").as_deref(), Some("046d"));
    assert!(normalize_hex_id("46d").is_none());
    assert!(normalize_hex_id("0046d").is_none());
    assert!(normalize_hex_id("04é").is_none());
    assert!(normalize_hex_id("0x6d").is_none());
}

#[test]
fn the_whole_rule() {
    let rule = render_rule(&DeviceIds {
        vendor: "046d".to_owned(),
        product: "c539".to_owned(),
    });
    assert_eq!(
        rule,
        "ACTION!=\"add|change\", GOTO=\"scrollock_end\"\n\
\n\
KERNEL==\"uinput\", SUBSYSTEM==\"misc\", TAG+=\"uaccess\", OPTIONS+=\"static_node=uinput\"\n\
\n\
KERNEL==\"event[0-9]*\", SUBSYSTEM==\"input\", ENV{ID_VENDOR_ID}==\"046d\", ENV{ID_MODEL_ID}==\"c539\", MODE=\"0600\", TAG+=\"uaccess\"\n\
\n\
LABEL=\"scrollock_end\"\n"
    );
}

#[test]
fn rules_are_for_root() {
    assert!(root_objection(true).is_none());
    assert_eq!(
        root_objection(false),
        Some("udev rule management requires root; run this command with sudo")
    );
}
