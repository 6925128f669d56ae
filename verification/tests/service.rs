use scrollock::cli::Args;
use scrollock::service::{
    quote_systemd_arg, render_unit, render_user_service, requested_action, systemctl_verb,
    user_objection, ServiceAction,
};


#[test]
fn service_unit_uses_current_binary_and_config() {
    let unit = render_user_service(
        "/home/me/.cargo/bin/scrollock",
        "/home/me/.config/Scrollock/config.toml",
    )
    .unwrap();

    assert!(unit.contains(
        "ExecStart=/home/me/.cargo/bin/scrollock --no-interactive --config /home/me/.config/Scrollock/config.toml"
    ));
    assert!(unit.contains("Restart=on-failure"));
    assert!(unit.contains("WantedBy=default.target"));
}

#[test]
fn service_unit_quotes_paths_with_spaces() {
    let unit = render_user_service(
        "/home/me/bin with spaces/scrollock",
        "/home/me/config with spaces/config.toml",
    )
    .unwrap();

    assert!(unit.contains(
        "ExecStart=\"/home/me/bin with spaces/scrollock\" --no-interactive --config \"/home/me/config with spaces/config.toml\""
    ));
    assert!(unit.contains("ReadWritePaths=\"/home/me/config with spaces\""));
}

#[test]
fn requested_action_detects_remove_service() {
    let args = Args {
        device: None,
        config: None,
        setup: false,
        pin_port: false,
        install_service: false,
        remove_service: true,
        install_udev_rule: false,
        remove_udev_rule: false,
        start: false,
        stop: false,
        restart: false,
        list_devices: false,
        no_grab: false,
        dry_run: false,
        no_interactive: false,
        verbose: 0,
        safety_timeout_seconds: None,
        detect_foreground: false,
    };

    assert_eq!(requested_action(&args), Some(ServiceAction::Remove));
}

#[test]
fn arguments_are_quoted_where_needed() {
    assert_eq!(quote_systemd_arg("/plain/path"), "/plain/path");
    assert_eq!(quote_systemd_arg(""), "");
    assert_eq!(quote_systemd_arg("/a b"), "\"/a b\"");
    assert_eq!(quote_systemd_arg("a\"b"), "\"a\\\"b\"");
    assert_eq!(quote_systemd_arg("a\\b"), "\"a\\\\b\"");
    assert_eq!(quote_systemd_arg("a\u{3000}b"), "\"a\u{3000}b\"");
}

#[test]
fn the_whole_unit() {
    assert_eq!(
        render_unit("/bin/s", "/c/config.toml", "/c"),
        "[Unit]\n\
Description=Progressive middle-button autoscroll daemon for Wayland\n\
Documentation=https://github.com/docloulou/Scrollock\n\
After=graphical-session.target\n\
PartOf=graphical-session.target\n\
\n\
[Service]\n\
Type=simple\n\
ExecStart=/bin/s --no-interactive --config /c/config.toml\n\
Restart=on-failure\n\
RestartSec=2\n\
PrivateTmp=true\n\
NoNewPrivileges=true\n\
ProtectSystem=strict\n\
ProtectHome=read-only\n\
ReadWritePaths=/c\n\
\n\
[Install]\n\
WantedBy=default.target\n"
    );
    assert!(render_user_service("/bin/s", "/").is_none());
}

#[test]
fn actions_have_verbs() {
    assert_eq!(
        systemctl_verb(ServiceAction::Start),
        Some(("start", "Started"))
    );
    assert_eq!(systemctl_verb(ServiceAction::Stop), Some(("stop", "Stopped")));
    assert_eq!(
        systemctl_verb(ServiceAction::Restart),
        Some(("restart", "Restarted"))
    );
    assert_eq!(systemctl_verb(ServiceAction::Remove), None);
    assert!(user_objection(false).is_none());
    assert!(user_objection(true).is_some());
}
