use scrollock::foreground::filter::ForegroundSourceKind;
use scrollock::foreground::providers::sway::{
    find_focused, handle_window_event, interpret_event, node_to_app, EventOutcome,
};
use scrollock::foreground::providers::sway_ipc::{
    decode_header, encode_message, read_header, send_msg, subscribe_payload, ByteOrder, FrameError,
    IPC_GET_TREE, IPC_SUBSCRIBE, MAX_PAYLOAD_BYTES,
};
use scrollock::json::{parse_text, Json};

fn json(text: &str) -> Json {
    parse_text(text).expect("valid JSON")
}

#[test]
fn finds_wayland_node_with_app_id() {
    let tree = json(
        r#"{
            "focused": false,
            "nodes": [
                {"focused": false, "nodes": [
                    {"focused": true, "app_id": "org.mozilla.firefox", "name": "Firefox", "pid": 42}
                ]}
            ]
        }"#,
    );
    let app = find_focused(&tree).expect("focused node");
    assert_eq!(app.app_id.as_deref(), Some("org.mozilla.firefox"));
    assert_eq!(app.title.as_deref(), Some("Firefox"));
    assert_eq!(app.pid, Some(42));
    assert_eq!(app.source, ForegroundSourceKind::Sway);
}

#[test]
fn finds_xwayland_node_with_window_properties() {
    let tree = json(
        r#"{
            "focused": false,
            "nodes": [
                {"focused": true, "name": "Blender",
                 "window_properties": {"class": "Blender", "instance": "blender"}}
            ]
        }"#,
    );
    let app = find_focused(&tree).expect("focused node");
    assert_eq!(app.class.as_deref(), Some("Blender"));
    assert_eq!(app.resource_class.as_deref(), Some("blender"));
    assert!(app.app_id.is_none());
}

#[test]
fn returns_none_without_focused_node() {
    let tree = json(
        r#"{
            "focused": false,
            "nodes": [{"focused": false, "nodes": []}]
        }"#,
    );
    assert!(find_focused(&tree).is_none());
}

#[test]
fn focus_event_updates_from_container() {
    let payload = r#"{
        "change": "focus",
        "container": {"app_id": "org.mozilla.firefox", "name": "Firefox", "pid": 42}
    }"#;
    match handle_window_event(payload.as_bytes()) {
        EventOutcome::Update(app) => {
            assert_eq!(app.app_id.as_deref(), Some("org.mozilla.firefox"));
            assert_eq!(app.pid, Some(42));
        }
        other => panic!("expected Update, got {other:?}"),
    }
}

#[test]
fn title_event_only_updates_focused_container() {
    let focused = r#"{
        "change": "title",
        "container": {"focused": true, "app_id": "code", "name": "new title"}
    }"#;
    assert!(matches!(
        handle_window_event(focused.as_bytes()),
        EventOutcome::Update(_)
    ));

    let unfocused = r#"{
        "change": "title",
        "container": {"focused": false, "app_id": "code", "name": "bg"}
    }"#;
    assert!(matches!(
        handle_window_event(unfocused.as_bytes()),
        EventOutcome::Ignore
    ));
}

#[test]
fn close_event_forces_tree_refresh() {
    let payload = r#"{"change": "close", "container": {"app_id": "mpv"}}"#;
    assert!(matches!(
        handle_window_event(payload.as_bytes()),
        EventOutcome::NeedsTreeRefresh
    ));
}

#[test]
fn unrelated_and_invalid_events() {
    let moved = r#"{"change": "move", "container": {}}"#;
    assert!(matches!(
        handle_window_event(moved.as_bytes()),
        EventOutcome::Ignore
    ));
    assert!(matches!(
        handle_window_event(b"{not json"),
        EventOutcome::NeedsTreeRefresh
    ));
}

#[test]
fn searches_floating_nodes() {
    let tree = json(
        r#"{
            "focused": false,
            "nodes": [],
            "floating_nodes": [
                {"focused": true, "app_id": "mpv", "name": "video"}
            ]
        }"#,
    );
    let app = find_focused(&tree).expect("focused floating node");
    assert_eq!(app.app_id.as_deref(), Some("mpv"));
}

#[test]
fn tiled_nodes_go_before_floating_ones() {
    let tree = json(
        r#"{"floating_nodes": [{"focused": true, "app_id": "f"}],
            "nodes": [{"nodes": [1, {"focused": true, "app_id": "t"}]}]}"#,
    );
    let app = find_focused(&tree).expect("focused node");
    assert_eq!(app.app_id.as_deref(), Some("t"));
    assert!(find_focused(&Json::Null).is_none());
}

#[test]
fn node_fields_are_kept_as_they_are() {
    let node = Json::Object(vec![
        ("app_id".to_owned(), Json::Text(String::new())),
        ("name".to_owned(), Json::Text(" spaced ".to_owned())),
        ("pid".to_owned(), Json::Number(None)),
    ]);
    let app = node_to_app(&node);
    assert!(app.app_id.is_none());
    assert_eq!(app.title.as_deref(), Some(" spaced "));
    assert!(app.pid.is_none());
    assert!(matches!(
        interpret_event(&Json::Object(vec![(
            "change".to_owned(),
            Json::Text("focus".to_owned())
        )])),
        EventOutcome::NeedsTreeRefresh
    ));
}

#[test]
fn messages_are_framed() {
    assert_eq!(subscribe_payload(), br#"["window"]"#.to_vec());
    let message = encode_message(ByteOrder::Little, IPC_SUBSCRIBE, b"ab").unwrap();
    assert_eq!(
        message,
        [b"i3-ipc".as_slice(), &[2, 0, 0, 0], &[2, 0, 0, 0], b"ab"].concat()
    );
    let message = encode_message(ByteOrder::Big, IPC_GET_TREE, b"").unwrap();
    assert_eq!(
        message,
        [b"i3-ipc".as_slice(), &[0, 0, 0, 0], &[0, 0, 0, 4]].concat()
    );
}

#[test]
fn native_messages_are_in_the_order_of_the_machine() {
    let payload = vec![7u8; 300];
    let message = send_msg(0x0102_0304, &payload).unwrap();
    let mut expected = b"i3-ipc".to_vec();
    expected.extend_from_slice(&300u32.to_ne_bytes());
    expected.extend_from_slice(&0x0102_0304u32.to_ne_bytes());
    expected.extend_from_slice(&payload);
    assert_eq!(message, expected);
    let mut header = [0u8; 14];
    header.copy_from_slice(&message[..14]);
    assert_eq!(read_header(&header), Ok((0x0102_0304, 300)));
}

#[test]
fn headers_are_checked() {
    for order in [ByteOrder::Little, ByteOrder::Big] {
        for length in [0u32, 1, 70_000, MAX_PAYLOAD_BYTES, MAX_PAYLOAD_BYTES + 1] {
            let bytes = |n: u32| match order {
                ByteOrder::Little => n.to_le_bytes(),
                ByteOrder::Big => n.to_be_bytes(),
            };
            let mut header = [0u8; 14];
            header[..6].copy_from_slice(b"i3-ipc");
            header[6..10].copy_from_slice(&bytes(length));
            header[10..].copy_from_slice(&bytes(0x8000_0003));
            let expected = if length > MAX_PAYLOAD_BYTES {
                Err(FrameError::PayloadTooLarge)
            } else {
                Ok((0x8000_0003, length))
            };
            assert_eq!(decode_header(order, &header), expected);
            header[3] = b'x';
            assert_eq!(decode_header(order, &header), Err(FrameError::BadMagic));
        }
    }
}
