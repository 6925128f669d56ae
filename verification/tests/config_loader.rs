use std::path::PathBuf;

use scrollock::cli::Args;
use scrollock::config_loader::{
    directory_owner, effective_config_path, file_owner, first_objection, human_id, legacy_sibling,
    migrate_legacy_path, preferred_config_path, resolve, shadows_plain_path, sudo_owner,
    sudo_user_name, temporary_name, with_saved_device, ConfigOnDisk, ConfigPlaces, CoreFileConfig,
    DaemonFileConfig, DeviceMatchConfig, PathState,
};
use scrollock::device_discovery::DeviceInfo;
use scrollock::digits::{decimal_text, hex4, parse_hex_id, parse_u32, parse_usize};
use scrollock::errors::DaemonError;
use scrollock::foreground::ForegroundFileConfig;
use scrollock::{Binary64, ConfigError, CoreConfig, Mode, SpeedStep};

const BOGUS_DEVICE: &str = "/dev/input/event-scrollock-test-bogus";

fn args_with_config(path: PathBuf) -> Args {
    Args {
        config: Some(path),
        ..plain_args()
    }
}

fn plain_args() -> Args {
    Args {
        device: None,
        config: None,
        setup: false,
        pin_port: false,
        install_service: false,
        remove_service: false,
        install_udev_rule: false,
        remove_udev_rule: false,
        start: false,
        stop: false,
        restart: false,
        list_devices: false,
        no_grab: false,
        dry_run: false,
        no_interactive: false,
        verbose: 0,
        safety_timeout_seconds: None,
        detect_foreground: false,
    }
}

fn synthetic_device() -> DeviceInfo {
    DeviceInfo {
        path: PathBuf::from("/dev/input/event99"),
        name: "Test Mouse".to_owned(),
        phys: Some("usb-0000:00:14.0-5/input2".to_owned()),
        unique_name: None,
        vendor_id: 0x046d,
        product_id: 0xc539,
        bus_type: 3,
        keys: Vec::new(),
        axes: Vec::new(),
    }
}

fn block(vendor_id: &str, product_id: &str, name: Option<&str>) -> DeviceMatchConfig {
    DeviceMatchConfig {
        vendor_id: vendor_id.to_owned(),
        product_id: product_id.to_owned(),
        name: name.map(str::to_owned),
        phys: None,
    }
}

#[test]
fn from_device_omits_phys_by_default() {
    let cfg = DeviceMatchConfig::from_device(&synthetic_device(), false);
    assert_eq!(cfg.vendor_id, "046d");
    assert_eq!(cfg.product_id, "c539");
    assert_eq!(cfg.name.as_deref(), Some("Test Mouse"));
    assert!(
        cfg.phys.is_none(),
        "phys must not be written without --pin-port: {:?}",
        cfg.phys
    );
}

#[test]
fn from_device_writes_phys_when_pinned() {
    let cfg = DeviceMatchConfig::from_device(&synthetic_device(), true);
    assert_eq!(cfg.phys.as_deref(), Some("usb-0000:00:14.0-5/input2"));
}

#[test]
fn save_device_to_config_writes_minimal_toml() {
    let saved = with_saved_device(
        DaemonFileConfig::default(),
        PathBuf::from(BOGUS_DEVICE),
        None,
        false,
    );
    assert_eq!(saved.device, Some(PathBuf::from(BOGUS_DEVICE)));
    assert!(saved.device_match.is_none());
}

#[test]
fn save_device_to_config_preserves_existing_values() {
    let file = DaemonFileConfig {
        grab: Some(false),
        device_match: Some(block("1", "2", None)),
        core: CoreFileConfig {
            deadzone_units: Some(42),
            scroll_speed_steps: Some(vec![SpeedStep {
                distance_units: 50,
                speed_detents_per_second: Binary64 {
                    bits: 6.0f64.to_bits(),
                },
            }]),
            ..CoreFileConfig::default()
        },
        ..DaemonFileConfig::default()
    };
    let loaded = with_saved_device(file, PathBuf::from(BOGUS_DEVICE), None, false);

    assert_eq!(loaded.device, Some(PathBuf::from(BOGUS_DEVICE)));
    assert!(loaded.device_match.is_none());
    assert_eq!(loaded.grab, Some(false));
    assert_eq!(loaded.core.deadzone_units, Some(42));
    assert_eq!(
        loaded.core.scroll_speed_steps.unwrap()[0].distance_units,
        50
    );
}

#[test]
fn a_probed_device_is_saved_by_its_ids_and_found_again() {
    let file = DaemonFileConfig {
        device: Some(PathBuf::from("/old")),
        dry_run: Some(true),
        ..DaemonFileConfig::default()
    };
    let info = synthetic_device();
    let saved = with_saved_device(file, PathBuf::from("/dev/x"), Some(&info), true);
    assert!(saved.device.is_none());
    assert_eq!(saved.dry_run, Some(true));
    let resolved = resolve(&plain_args(), Some(saved)).unwrap();
    let m = resolved.device_match.expect("the saved ids");
    assert_eq!((m.vendor_id, m.product_id), (0x046d, 0xc539));
    assert_eq!(m.name.as_deref(), Some("Test Mouse"));
    assert_eq!(m.phys.as_deref(), Some("usb-0000:00:14.0-5/input2"));
    assert!(resolved.dry_run);
}

#[test]
fn resolve_loads_min_hires_units_per_event() {
    let file = DaemonFileConfig {
        core: CoreFileConfig {
            min_hires_units_per_event: Some(30),
            ..CoreFileConfig::default()
        },
        ..DaemonFileConfig::default()
    };
    let resolved = resolve(&args_with_config(PathBuf::from("/c")), Some(file)).unwrap();
    assert_eq!(resolved.core.min_hires_units_per_event, 30);
}

#[test]
fn resolve_parses_device_match_block() {
    let file = DaemonFileConfig {
        device_match: Some(block("046D", "C539", Some("Logitech USB Receiver"))),
        ..DaemonFileConfig::default()
    };
    let resolved = resolve(&args_with_config(PathBuf::from("/c")), Some(file)).unwrap();
    let m = resolved.device_match.expect("device_match should parse");
    assert_eq!(m.vendor_id, 0x046d);
    assert_eq!(m.product_id, 0xc539);
    assert_eq!(m.name.as_deref(), Some("Logitech USB Receiver"));
    assert!(resolved.device.is_none());
    assert_eq!(m.human_id(), "046d:c539");
    assert_eq!(m.as_criteria().name, Some("Logitech USB Receiver"));
    assert_eq!(m.as_criteria().phys, None);
}

#[test]
fn resolve_rejects_invalid_device_match_hex() {
    let file = DaemonFileConfig {
        device_match: Some(block("not-hex", "c539", None)),
        ..DaemonFileConfig::default()
    };
    let err = resolve(&args_with_config(PathBuf::from("/c")), Some(file)).unwrap_err();
    match err {
        DaemonError::DeviceMatchInvalid { field, value } => {
            assert_eq!(field, "vendor_id");
            assert_eq!(value, "not-hex");
        }
        other => panic!("unexpected error: {other:?}"),
    }
}

#[test]
fn resolve_rejects_an_invalid_product_id() {
    let file = DaemonFileConfig {
        device_match: Some(block("1", "", None)),
        ..DaemonFileConfig::default()
    };
    match resolve(&plain_args(), Some(file)).unwrap_err() {
        DaemonError::DeviceMatchInvalid { field, value } => {
            assert_eq!(field, "product_id");
            assert_eq!(value, "");
        }
        other => panic!("unexpected error: {other:?}"),
    }
}

#[test]
fn resolve_rejects_settings_that_make_no_sense() {
    let file = DaemonFileConfig {
        core: CoreFileConfig {
            tick_hz: Some(0),
            ..CoreFileConfig::default()
        },
        ..DaemonFileConfig::default()
    };
    assert!(matches!(
        resolve(&plain_args(), Some(file)).unwrap_err(),
        DaemonError::ConfigInvalid(ConfigError::BadTickHz(0))
    ));
}

#[test]
fn cli_device_arg_overrides_device_match() {
    let file = DaemonFileConfig {
        device_match: Some(block("046d", "c539", None)),
        ..DaemonFileConfig::default()
    };
    let mut args = args_with_config(PathBuf::from("/c"));
    args.device = Some(PathBuf::from(BOGUS_DEVICE));

    let resolved = resolve(&args, Some(file)).unwrap();
    assert!(resolved.device_match.is_none());
    assert_eq!(resolved.device, Some(PathBuf::from(BOGUS_DEVICE)));
}

#[test]
fn without_a_file_the_defaults_apply() {
    let resolved = resolve(&plain_args(), None).unwrap();
    assert_eq!(resolved.core, CoreConfig::default());
    assert!(resolved.device.is_none());
    assert!(resolved.device_match.is_none());
    assert!(resolved.grab);
    assert!(!resolved.dry_run);
    assert_eq!(resolved.safety_timeout_seconds, None);
    assert!(!resolved.foreground.enabled);
}

#[test]
fn file_and_command_line_are_merged() {
    let file = || DaemonFileConfig {
        device: Some(PathBuf::from("/dev/file")),
        grab: Some(true),
        dry_run: Some(false),
        safety_timeout_seconds: Some(5),
        foreground: Some(ForegroundFileConfig {
            enabled: Some(true),
            ..ForegroundFileConfig::default()
        }),
        ..DaemonFileConfig::default()
    };
    let resolved = resolve(&plain_args(), Some(file())).unwrap();
    assert_eq!(resolved.device, Some(PathBuf::from("/dev/file")));
    assert_eq!(resolved.safety_timeout_seconds, Some(5));
    assert!(resolved.grab);
    assert!(resolved.foreground.enabled);

    let args = Args {
        no_grab: true,
        dry_run: true,
        safety_timeout_seconds: Some(9),
        ..plain_args()
    };
    let resolved = resolve(&args, Some(file())).unwrap();
    assert!(!resolved.grab);
    assert!(resolved.dry_run);
    assert_eq!(resolved.safety_timeout_seconds, Some(9));

    let both = DaemonFileConfig {
        device_match: Some(block("1", "2", None)),
        ..file()
    };
    assert!(shadows_plain_path(&both));
    assert!(!shadows_plain_path(&file()));
    let resolved = resolve(&plain_args(), Some(both)).unwrap();
    assert!(resolved.device.is_none());
    assert!(resolved.device_match.is_some());
}

#[test]
fn every_core_setting_of_a_file_counts() {
    let number = |x: f64| Binary64 { bits: x.to_bits() };
    let steps = vec![SpeedStep {
        distance_units: 77,
        speed_detents_per_second: number(7.0),
    }];
    let file = CoreFileConfig {
        mode: Some(Mode::HoldProgressive),
        hold_threshold_ms: Some(1),
        deadzone_units: Some(2),
        full_speed_units: Some(3),
        max_offset_units: Some(400),
        min_speed_detents_per_second: Some(number(5.0)),
        max_speed_detents_per_second: Some(number(6.0)),
        acceleration_exponent: Some(number(7.0)),
        scroll_speed_steps: Some(steps.clone()),
        tick_hz: Some(8),
        invert_vertical: Some(true),
        invert_horizontal: Some(true),
        suppress_motion_while_pending: Some(false),
        suppress_motion_while_scrolling: Some(false),
        replay_pending_motion_on_click: Some(true),
        emit_hires_wheel: Some(false),
        emit_legacy_wheel: Some(false),
        min_hires_units_per_event: Some(9),
        horizontal_scroll: Some(false),
        max_detents_per_tick: Some(10),
    };
    assert_eq!(
        file.into_core(CoreConfig::default()),
        CoreConfig {
            mode: Mode::HoldProgressive,
            hold_threshold_ms: 1,
            deadzone_units: 2,
            full_speed_units: 3,
            max_offset_units: 400,
            min_speed_detents_per_second: number(5.0),
            max_speed_detents_per_second: number(6.0),
            acceleration_exponent: number(7.0),
            scroll_speed_steps: steps,
            tick_hz: 8,
            invert_vertical: true,
            invert_horizontal: true,
            suppress_motion_while_pending: false,
            suppress_motion_while_scrolling: false,
            replay_pending_motion_on_click: true,
            emit_hires_wheel: false,
            emit_legacy_wheel: false,
            min_hires_units_per_event: 9,
            horizontal_scroll: false,
            max_detents_per_tick: 10,
        }
    );
    assert_eq!(
        CoreFileConfig::default().into_core(CoreConfig::default()),
        CoreConfig::default()
    );
}

#[test]
fn parse_hex_id_accepts_common_forms() {
    assert_eq!(parse_hex_id("046d"), Some(0x046d));
    assert_eq!(parse_hex_id("046D"), Some(0x046d));
    assert_eq!(parse_hex_id("0x046d"), Some(0x046d));
    assert_eq!(parse_hex_id("  c539  "), Some(0xc539));
    assert_eq!(parse_hex_id("1"), Some(0x0001));
}

#[test]
fn parse_hex_id_rejects_garbage() {
    assert_eq!(parse_hex_id(""), None);
    assert_eq!(parse_hex_id("zzz"), None);
    assert_eq!(parse_hex_id("12345"), None);
}

#[test]
fn parse_hex_id_at_its_edges() {
    assert_eq!(parse_hex_id("0X1f"), Some(0x1f));
    assert_eq!(parse_hex_id("+1f"), None);
    assert_eq!(parse_hex_id("0x+1"), None);
    assert_eq!(parse_hex_id(" 0xFfFf\t"), Some(0xffff));
    assert_eq!(parse_hex_id("+"), None);
    assert_eq!(parse_hex_id("-1"), None);
    assert_eq!(parse_hex_id("0x"), None);
    assert_eq!(parse_hex_id("0x0x1"), None);
    assert_eq!(parse_hex_id("ffff"), Some(0xffff));
    assert_eq!(parse_hex_id("é"), None);
    assert_eq!(parse_hex_id("1 2"), None);
}

#[test]
fn ids_read_back() {
    for id in 0..=u16::MAX {
        let text = hex4(id);
        assert_eq!(text, format!("{id:04x}"));
        assert_eq!(parse_hex_id(&text), Some(id));
    }
}

#[test]
fn numbers_agree_with_the_standard_library() {
    for n in [0u128, 9, 10, 99, 100, 12_345, u128::from(u64::MAX), u128::MAX] {
        assert_eq!(decimal_text(n), n.to_string());
    }
    for s in [
        "", "0", "7", "+7", "-7", "007", "4294967295", "4294967296", "99999999999999999999", "1a",
        "a", " 1", "1 ", "++1", "+", "18446744073709551615", "18446744073709551616",
    ] {
        assert_eq!(parse_u32(s), s.parse::<u32>().ok(), "{s}");
        assert_eq!(parse_usize(s), s.parse::<usize>().ok(), "{s}");
    }
    assert_eq!(human_id(1, 0x2bc), "0001:02bc");
}

fn nothing_on_disk() -> ConfigOnDisk {
    ConfigOnDisk {
        preferred_exists: false,
        legacy: None,
        legacy_exists: false,
    }
}

#[test]
fn explicit_config_path_wins() {
    let path = PathBuf::from("/tmp/scrollock-explicit/config.toml");
    let args = args_with_config(path.clone());
    let places = || ConfigPlaces {
        sudo_user: Some(PathBuf::from("/home/u/c")),
        default: Some(PathBuf::from("/root/c")),
    };
    assert_eq!(
        effective_config_path(&args, places(), nothing_on_disk()),
        Some(path)
    );
    assert_eq!(
        effective_config_path(&plain_args(), places(), nothing_on_disk()),
        Some(PathBuf::from("/home/u/c"))
    );
    let no_sudo = ConfigPlaces {
        sudo_user: None,
        ..places()
    };
    assert_eq!(
        preferred_config_path(&plain_args(), no_sudo),
        Some(PathBuf::from("/root/c"))
    );
    let nowhere = ConfigPlaces {
        sudo_user: None,
        default: None,
    };
    assert_eq!(
        effective_config_path(&plain_args(), nowhere, nothing_on_disk()),
        None
    );
}

#[test]
fn legacy_sibling_swaps_directory_case() {
    let legacy = legacy_sibling("/home/user/.config/scrollock/config.toml").unwrap();
    assert_eq!(legacy, "/home/user/.config/Scrollock/config.toml");
}

#[test]
fn legacy_sibling_returns_none_for_unrelated_path() {
    assert!(legacy_sibling("/etc/something/else/config.toml").is_none());
    assert!(legacy_sibling("").is_none());
    assert!(legacy_sibling("/").is_none());
}

#[test]
fn migrate_legacy_path_prefers_existing_legacy_when_new_missing() {
    let legacy = PathBuf::from("/base/Scrollock/config.toml");
    let resolved = migrate_legacy_path(
        PathBuf::from("/base/scrollock/config.toml"),
        ConfigOnDisk {
            preferred_exists: false,
            legacy: Some(legacy.clone()),
            legacy_exists: true,
        },
    );
    assert_eq!(resolved, legacy);
}

#[test]
fn migrate_legacy_path_keeps_preferred_when_new_exists() {
    let preferred = PathBuf::from("/base/scrollock/config.toml");
    for (preferred_exists, legacy_exists) in [(true, true), (true, false), (false, false)] {
        let resolved = migrate_legacy_path(
            preferred.clone(),
            ConfigOnDisk {
                preferred_exists,
                legacy: Some(PathBuf::from("/base/Scrollock/config.toml")),
                legacy_exists,
            },
        );
        assert_eq!(resolved, preferred);
    }
}

#[test]
fn sudo_callers_are_recognised() {
    assert_eq!(sudo_user_name(Some("ann")), Some("ann"));
    assert_eq!(sudo_user_name(Some("root")), None);
    assert_eq!(sudo_user_name(Some("")), None);
    assert_eq!(sudo_user_name(None), None);
    assert_eq!(sudo_owner(Some("1000"), Some("100")), Some((1000, 100)));
    assert_eq!(sudo_owner(Some("x"), Some("100")), None);
    assert_eq!(sudo_owner(Some("1"), None), None);
    assert_eq!(file_owner(&plain_args(), Some((1, 2))), Some((1, 2)));
    assert_eq!(
        file_owner(&args_with_config(PathBuf::from("/c")), Some((1, 2))),
        None
    );
    assert_eq!(directory_owner(Some((1, 2)), false), Some((1, 2)));
    assert_eq!(directory_owner(Some((1, 2)), true), None);
}

#[test]
fn links_stand_in_the_way_of_writing() {
    let mut states = vec![PathState::Missing, PathState::Plain, PathState::Plain];
    assert_eq!(first_objection(&states), None);
    states.push(PathState::Symlink);
    states.push(PathState::Unreadable);
    assert_eq!(first_objection(&states), Some(3));
    assert_eq!(first_objection(&vec![PathState::Unreadable, PathState::Symlink]), Some(0));
    assert_eq!(first_objection(&Vec::new()), None);
}

#[test]
fn temporary_files_are_hidden() {
    assert_eq!(temporary_name("config.toml", 1234), ".config.toml.1234.tmp");
}
