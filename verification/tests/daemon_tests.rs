use zed_flutter::daemon::{emulators_from, parse_daemon_message, DaemonCommand, DaemonSession};
use zed_flutter::json::{Json, JsonNumber};

fn s(t: &str) -> String {
    t.to_string()
}

fn obj(members: Vec<(&str, Json)>) -> Json {
    Json::Object(members.into_iter().map(|(k, v)| (s(k), v)).collect())
}

fn st(t: &str) -> Json {
    Json::Str(s(t))
}

#[test]
fn simple_commands() {
    let cases = vec![
        (DaemonCommand::daemon_version(), "daemon.version"),
        (DaemonCommand::device_enable(), "device.enable"),
        (DaemonCommand::device_disable(), "device.disable"),
        (DaemonCommand::get_emulators(), "emulator.getEmulators"),
        (DaemonCommand::serve_devtools(), "devtools.serve"),
        (DaemonCommand::shutdown(), "daemon.shutdown"),
    ];
    for (c, m) in cases {
        assert_eq!(c.method, m);
        assert_eq!(c.params, Json::Null);
    }
}

#[test]
fn launch_emulator_command() {
    let c = DaemonCommand::launch_emulator("Pixel_7");
    assert_eq!(c.method, "emulator.launch");
    assert_eq!(c.params, obj(vec![("emulatorId", st("Pixel_7"))]));
}

#[test]
fn start_app_command() {
    let c = DaemonCommand::start_app("emulator-5554", "/work/demo", "profile", "lib/main.dart");
    assert_eq!(c.method, "app.start");
    assert_eq!(
        c.params,
        obj(vec![
            ("deviceId", st("emulator-5554")),
            ("projectDirectory", st("/work/demo")),
            ("mode", st("profile")),
            ("target", st("lib/main.dart")),
        ])
    );
}

#[test]
fn restart_stop_and_extension_commands() {
    let c = DaemonCommand::restart_app("app-1", true);
    assert_eq!(c.method, "app.restart");
    assert_eq!(c.params, obj(vec![("appId", st("app-1")), ("fullRestart", Json::Bool(true))]));
    let c = DaemonCommand::stop_app("app-1");
    assert_eq!(c.method, "app.stop");
    assert_eq!(c.params, obj(vec![("appId", st("app-1"))]));
    let c = DaemonCommand::call_service_extension("app-1", "ext.flutter.debugPaint", obj(vec![("enabled", Json::Bool(true))]));
    assert_eq!(c.method, "app.callServiceExtension");
    assert_eq!(
        c.params,
        obj(vec![
            ("appId", st("app-1")),
            ("methodName", st("ext.flutter.debugPaint")),
            ("params", obj(vec![("enabled", Json::Bool(true))])),
        ])
    );
}

#[test]
fn requests_are_numbered_from_one() {
    let mut session = DaemonSession::new();
    let (id1, line1) = session.encode_request(DaemonCommand::daemon_version());
    let (id2, _) = session.encode_request(DaemonCommand::device_enable());
    assert_eq!(id1, 1);
    assert_eq!(id2, 2);
    assert_eq!(
        line1,
        Json::Array(vec![obj(vec![
            ("id", Json::Number(JsonNumber::PosInt(1))),
            ("method", st("daemon.version")),
            ("params", Json::Null),
        ])])
    );
}

#[test]
fn matching_response_yields_result() {
    let mut session = DaemonSession::new();
    let msg = obj(vec![("id", Json::Number(JsonNumber::PosInt(1))), ("result", st("0.6.1"))]);
    assert_eq!(session.receive(1, msg), Some(st("0.6.1")));
    let msg = obj(vec![("id", Json::Number(JsonNumber::PosInt(2)))]);
    assert_eq!(session.receive(2, msg), Some(Json::Null));
}

#[test]
fn other_responses_are_skipped() {
    let mut session = DaemonSession::new();
    let msg = obj(vec![("id", Json::Number(JsonNumber::PosInt(5))), ("result", Json::Bool(true))]);
    assert_eq!(session.receive(1, msg), None);
    assert_eq!(session.app_state().device_count(), 0);
}

fn added(id: &str) -> Json {
    obj(vec![
        ("event", st("device.added")),
        ("params", obj(vec![("id", st(id)), ("name", st("Pixel")), ("platform", st("android-arm64"))])),
    ])
}

#[test]
fn device_events_update_state() {
    let mut session = DaemonSession::new();
    assert_eq!(session.receive(1, added("d1")), None);
    assert_eq!(session.receive(1, added("d2")), None);
    assert_eq!(session.app_state().device_count(), 2);
    let removed = obj(vec![("event", st("device.removed")), ("params", obj(vec![("id", st("d1"))]))]);
    assert_eq!(session.receive(1, removed), None);
    let devices = session.app_state().get_devices();
    assert_eq!(devices.len(), 1);
    assert_eq!(devices[0].id, "d2");
    assert_eq!(devices[0].platform, "android-arm64");
    assert_eq!(session.get_devices().len(), 1);
}

#[test]
fn other_events_change_nothing() {
    let mut session = DaemonSession::new();
    session.handle_event(&added("d1"));
    for name in ["daemon.connected", "app.start", "app.log", "app.stop", "something.else"] {
        session.handle_event(&obj(vec![("event", st(name)), ("params", obj(vec![("id", st("d1"))]))]));
    }
    assert_eq!(session.app_state().device_count(), 1);
}

#[test]
fn device_added_without_params_is_ignored() {
    let mut session = DaemonSession::new();
    session.handle_event(&obj(vec![("event", st("device.added"))]));
    assert_eq!(session.app_state().device_count(), 0);
}

#[test]
fn device_removed_without_id_is_ignored() {
    let mut session = DaemonSession::new();
    session.handle_event(&added("d1"));
    session.handle_event(&obj(vec![("event", st("device.removed")), ("params", obj(vec![]))]));
    assert_eq!(session.app_state().device_count(), 1);
}

#[test]
fn response_with_matching_id_does_not_apply_event() {
    let mut session = DaemonSession::new();
    let msg = obj(vec![
        ("id", Json::Number(JsonNumber::PosInt(1))),
        ("event", st("device.added")),
        ("params", obj(vec![("id", st("d1"))])),
    ]);
    assert_eq!(session.receive(1, msg), Some(Json::Null));
    assert_eq!(session.app_state().device_count(), 0);
}

#[test]
fn emulator_list() {
    let items = vec![obj(vec![("id", st("Pixel_7"))]), obj(vec![("id", st("iOS"))])];
    assert_eq!(emulators_from(&Json::Array(items.iter().map(|j| j.duplicate()).collect())), items);
    assert!(emulators_from(&Json::Null).is_empty());
    assert!(emulators_from(&obj(vec![])).is_empty());
}

#[test]
fn version_is_recorded() {
    let mut session = DaemonSession::new();
    session.record_version(&st("0.6.1"));
    session.record_version(&Json::Null);
    assert_eq!(session.app_state().device_count(), 0);
}

#[test]
fn blank_line_carries_no_message() {
    assert_eq!(parse_daemon_message(""), Ok(None));
}

#[test]
fn first_element_of_array_line() {
    let r = parse_daemon_message(r#"[{"event":"device.added","params":{"id":"d1","ephemeral":false}},{"id":9}]"#);
    assert_eq!(
        r,
        Ok(Some(obj(vec![
            ("event", st("device.added")),
            ("params", obj(vec![("ephemeral", Json::Bool(false)), ("id", st("d1"))])),
        ])))
    );
    assert_eq!(
        parse_daemon_message(r#"[{"id":2,"result":-3}]"#),
        Ok(Some(obj(vec![("id", Json::Number(JsonNumber::PosInt(2))), ("result", Json::Number(JsonNumber::NegInt(-3)))])))
    );
    assert_eq!(parse_daemon_message("[]"), Ok(None));
}

#[test]
fn non_array_lines_are_refused() {
    let err = Err(s("无法解析 daemon 响应"));
    assert_eq!(parse_daemon_message("{\"id\":1}"), err);
    assert_eq!(parse_daemon_message("Waiting for another flutter command to release the startup lock..."), err);
    assert_eq!(parse_daemon_message("[{"), err);
}

#[test]
fn parsed_line_feeds_the_session() {
    let mut session = DaemonSession::new();
    let msg = parse_daemon_message(r#"[{"event":"device.added","params":{"id":"d1"}}]"#).unwrap().unwrap();
    assert_eq!(session.receive(1, msg), None);
    assert_eq!(session.app_state().device_count(), 1);
    let msg = parse_daemon_message(r#"[{"id":1,"result":"0.6.1"}]"#).unwrap().unwrap();
    assert_eq!(session.receive(1, msg), Some(st("0.6.1")));
}
