use evdev::{EventType, KeyCode, RelativeAxisCode};
use scrollock::event_router::{
    classify, dry_run_describe, passthrough_actions, route, RoutedEvent,
};
use scrollock::record::{InputRecord, InputSummary};
use scrollock::virtual_mouse::{
    encode_action, encode_batch, middle_click, release_all_buttons, supported_axes,
    supported_buttons,
};
use scrollock::{CoreAction, CoreInputEvent, MouseButton};


#[test]
fn middledown_forwards_middle_press() {
    assert_eq!(
        passthrough_actions(&RoutedEvent::Core(CoreInputEvent::MiddleDown)),
        vec![CoreAction::ForwardMouseButton {
            button: MouseButton::Middle,
            pressed: true,
        }]
    );
}

#[test]
fn middleup_forwards_middle_release() {
    assert_eq!(
        passthrough_actions(&RoutedEvent::Core(CoreInputEvent::MiddleUp)),
        vec![CoreAction::ForwardMouseButton {
            button: MouseButton::Middle,
            pressed: false,
        }]
    );
}

#[test]
fn motion_is_forwarded() {
    assert_eq!(
        passthrough_actions(&RoutedEvent::Core(CoreInputEvent::Motion { dx: 3, dy: -4 })),
        vec![CoreAction::ForwardMotion { dx: 3, dy: -4 }]
    );
}

#[test]
fn wheel_is_forwarded() {
    assert_eq!(
        passthrough_actions(&RoutedEvent::Core(CoreInputEvent::Wheel {
            vertical: 1,
            horizontal: 0,
        })),
        vec![CoreAction::ForwardWheel {
            vertical: 1,
            horizontal: 0,
        }]
    );
}

#[test]
fn wheel_hi_res_is_emitted() {
    assert_eq!(
        passthrough_actions(&RoutedEvent::Core(CoreInputEvent::WheelHiRes {
            vertical_units: 120,
            horizontal_units: 0,
        })),
        vec![CoreAction::EmitWheelHiRes {
            vertical_units: 120,
            horizontal_units: 0,
        }]
    );
}

#[test]
fn direct_button_is_forwarded() {
    assert_eq!(
        passthrough_actions(&RoutedEvent::DirectButton {
            button: MouseButton::Back,
            pressed: true,
        }),
        vec![CoreAction::ForwardMouseButton {
            button: MouseButton::Back,
            pressed: true,
        }]
    );
}

#[test]
fn ignore_and_tick_produce_no_actions() {
    assert!(passthrough_actions(&RoutedEvent::Ignore).is_empty());
    assert!(
        passthrough_actions(&RoutedEvent::Core(CoreInputEvent::Tick { dt_micros: 1000 }))
            .is_empty()
    );
}

fn record(kind: u16, code: u16, value: i32) -> InputRecord {
    InputRecord { kind, code, value }
}

#[test]
fn codes_are_those_of_the_kernel() {
    assert_eq!(scrollock::record::EV_KEY, EventType::KEY.0);
    assert_eq!(scrollock::record::EV_REL, EventType::RELATIVE.0);
    assert_eq!(
        supported_buttons(),
        vec![
            KeyCode::BTN_LEFT.0,
            KeyCode::BTN_RIGHT.0,
            KeyCode::BTN_MIDDLE.0,
            KeyCode::BTN_SIDE.0,
            KeyCode::BTN_EXTRA.0,
            KeyCode::BTN_FORWARD.0,
            KeyCode::BTN_BACK.0,
        ]
    );
    assert_eq!(
        supported_axes(),
        vec![
            RelativeAxisCode::REL_X.0,
            RelativeAxisCode::REL_Y.0,
            RelativeAxisCode::REL_WHEEL.0,
            RelativeAxisCode::REL_HWHEEL.0,
            RelativeAxisCode::REL_WHEEL_HI_RES.0,
            RelativeAxisCode::REL_HWHEEL_HI_RES.0,
        ]
    );
}

#[test]
fn records_are_sorted_by_kind_and_code() {
    let cases = [
        (record(1, 0x112, 1), RoutedEvent::Core(CoreInputEvent::MiddleDown)),
        (record(1, 0x112, 0), RoutedEvent::Core(CoreInputEvent::MiddleUp)),
        (record(1, 0x112, 2), RoutedEvent::Ignore),
        (record(1, 0x110, 1), RoutedEvent::Core(CoreInputEvent::LeftDown)),
        (record(1, 0x110, 0), RoutedEvent::Core(CoreInputEvent::LeftUp)),
        (record(1, 0x110, 2), RoutedEvent::Ignore),
        (record(1, 0x111, 1), RoutedEvent::Core(CoreInputEvent::RightDown)),
        (record(1, 0x111, 0), RoutedEvent::Core(CoreInputEvent::RightUp)),
        (
            record(1, 0x113, 1),
            RoutedEvent::DirectButton {
                button: MouseButton::Side,
                pressed: true,
            },
        ),
        (
            record(1, 0x114, 0),
            RoutedEvent::DirectButton {
                button: MouseButton::Extra,
                pressed: false,
            },
        ),
        (
            record(1, 0x115, 1),
            RoutedEvent::DirectButton {
                button: MouseButton::Forward,
                pressed: true,
            },
        ),
        (
            record(1, 0x116, 0),
            RoutedEvent::DirectButton {
                button: MouseButton::Back,
                pressed: false,
            },
        ),
        (record(1, 0x116, 2), RoutedEvent::Ignore),
        (
            record(2, 0, -7),
            RoutedEvent::Core(CoreInputEvent::Motion { dx: -7, dy: 0 }),
        ),
        (
            record(2, 1, 7),
            RoutedEvent::Core(CoreInputEvent::Motion { dx: 0, dy: 7 }),
        ),
        (
            record(2, 8, 1),
            RoutedEvent::Core(CoreInputEvent::Wheel {
                vertical: 1,
                horizontal: 0,
            }),
        ),
        (
            record(2, 6, -1),
            RoutedEvent::Core(CoreInputEvent::Wheel {
                vertical: 0,
                horizontal: -1,
            }),
        ),
        (
            record(2, 11, 120),
            RoutedEvent::Core(CoreInputEvent::WheelHiRes {
                vertical_units: 120,
                horizontal_units: 0,
            }),
        ),
        (
            record(2, 12, -15),
            RoutedEvent::Core(CoreInputEvent::WheelHiRes {
                vertical_units: 0,
                horizontal_units: -15,
            }),
        ),
        (record(2, 2, 1), RoutedEvent::Ignore),
        (record(0, 0, 0), RoutedEvent::Ignore),
        (record(3, 0, 5), RoutedEvent::Ignore),
        (record(1, 30, 1), RoutedEvent::Ignore),
    ];
    for (record, routed) in cases {
        assert_eq!(classify(&record), routed, "{record:?}");
    }
    assert_eq!(
        route(InputSummary::Key {
            code: 0x112,
            value: 1
        }),
        RoutedEvent::Core(CoreInputEvent::MiddleDown)
    );
    assert_eq!(route(InputSummary::Other), RoutedEvent::Ignore);
}

#[test]
fn passing_a_record_through_gives_it_back() {
    for code in supported_buttons() {
        for value in 0..2 {
            let original = record(1, code, value);
            let mut out = Vec::new();
            encode_batch(&passthrough_actions(&classify(&original)), &mut out);
            assert_eq!(out, vec![original]);
        }
    }
    for code in supported_axes() {
        for value in [-3, 4] {
            let original = record(2, code, value);
            let mut out = vec![record(9, 9, 9)];
            encode_batch(&passthrough_actions(&classify(&original)), &mut out);
            assert_eq!(out, vec![original]);
        }
        let mut out = Vec::new();
        encode_batch(&passthrough_actions(&classify(&record(2, code, 0))), &mut out);
        assert!(out.is_empty());
    }
}

#[test]
fn actions_are_encoded_in_order() {
    let mut out = Vec::new();
    encode_batch(
        &[
            CoreAction::ForwardMotion { dx: 2, dy: -3 },
            CoreAction::Suppress,
            CoreAction::EmitWheelDetents {
                vertical: -1,
                horizontal: 0,
            },
            CoreAction::EmitWheelHiRes {
                vertical_units: -120,
                horizontal_units: 30,
            },
            CoreAction::EmitMiddleClick,
        ],
        &mut out,
    );
    assert_eq!(
        out,
        vec![
            record(2, 0, 2),
            record(2, 1, -3),
            record(2, 8, -1),
            record(2, 11, -120),
            record(2, 12, 30),
        ]
    );
    encode_action(
        &CoreAction::ForwardWheel {
            vertical: 0,
            horizontal: 2,
        },
        &mut out,
    );
    assert_eq!(out.len(), 6);
    assert_eq!(out[5], record(2, 6, 2));
}

#[test]
fn clicks_and_releases_are_key_records() {
    assert_eq!(middle_click(), (record(1, 0x112, 1), record(1, 0x112, 0)));
    let released = release_all_buttons();
    assert_eq!(released.len(), 7);
    for (r, code) in released.iter().zip(supported_buttons()) {
        assert_eq!(*r, record(1, code, 0));
    }
}

#[test]
fn dry_runs_say_what_but_not_how_far() {
    let said = |action: CoreAction| dry_run_describe(&action);
    assert_eq!(
        said(CoreAction::ForwardMouseButton {
            button: MouseButton::Back,
            pressed: true
        })
        .as_deref(),
        Some("ForwardMouseButton(Back, pressed=true)")
    );
    assert_eq!(
        said(CoreAction::ForwardMotion { dx: 5, dy: 6 }).as_deref(),
        Some("ForwardMotion(<redacted>)")
    );
    assert_eq!(
        said(CoreAction::ForwardWheel {
            vertical: 1,
            horizontal: 0
        })
        .as_deref(),
        Some("ForwardWheel(<redacted>)")
    );
    assert_eq!(
        said(CoreAction::EmitWheelDetents {
            vertical: -3,
            horizontal: 0
        })
        .as_deref(),
        Some("EmitWheelDetents(direction=-)")
    );
    assert_eq!(
        said(CoreAction::EmitWheelHiRes {
            vertical_units: 15,
            horizontal_units: 0
        })
        .as_deref(),
        Some("EmitWheelHiRes(direction=+)")
    );
    assert_eq!(
        said(CoreAction::EmitWheelHiRes {
            vertical_units: 0,
            horizontal_units: 9
        })
        .as_deref(),
        Some("EmitWheelHiRes(direction=0)")
    );
    assert_eq!(
        said(CoreAction::EmitMiddleClick).as_deref(),
        Some("EmitMiddleClick")
    );
    assert_eq!(
        said(CoreAction::EnterScrollMode).as_deref(),
        Some("EnterScrollMode")
    );
    assert_eq!(
        said(CoreAction::ExitScrollMode).as_deref(),
        Some("ExitScrollMode")
    );
    assert!(said(CoreAction::Suppress).is_none());
}
