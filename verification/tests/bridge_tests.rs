use zed_flutter::bridge::{
    daemon_start_result, devices_result, emulators_result, notification_ends_session, plan_request,
    response_body, route_request, success_result, RequestPlan, ResponseBody, Route, INTERNAL_ERROR,
};
use zed_flutter::json::Json;
use zed_flutter::protocols::methods;

fn s(t: &str) -> String {
    t.to_string()
}

fn obj(members: Vec<(&str, Json)>) -> Json {
    Json::Object(members.into_iter().map(|(k, v)| (s(k), v)).collect())
}

fn st(t: &str) -> Json {
    Json::Str(s(t))
}

#[test]
fn routes_of_all_methods() {
    let cases = vec![
        (methods::DAEMON_START, Route::DaemonStart),
        (methods::DAEMON_SHUTDOWN, Route::DaemonShutdown),
        (methods::DEVICE_GET_DEVICES, Route::GetDevices),
        (methods::DEVICE_ENABLE, Route::DeviceEnable),
        (methods::DEVICE_DISABLE, Route::DeviceDisable),
        (methods::EMULATOR_GET_EMULATORS, Route::GetEmulators),
        (methods::EMULATOR_LAUNCH, Route::LaunchEmulator),
        (methods::APP_START, Route::AppStart),
        (methods::APP_RESTART, Route::AppRestart),
        (methods::APP_STOP, Route::AppStop),
        (methods::APP_CALL_SERVICE_EXTENSION, Route::CallServiceExtension),
        (methods::DEVTOOLS_SERVE, Route::DevtoolsServe),
    ];
    for (m, r) in cases {
        assert_eq!(route_request(m), Some(r));
    }
    assert_eq!(route_request("flutter/app/debugPort"), None);
    assert_eq!(route_request("textDocument/hover"), None);
}

#[test]
fn method_names() {
    assert_eq!(methods::DAEMON_START, "flutter/daemon/start");
    assert_eq!(methods::APP_STOP, methods::APP_STOP_EVENT);
    assert_eq!(methods::DEVTOOLS_SERVE, "flutter/devtools/serve");
}

fn forward(plan: Result<RequestPlan, String>) -> (String, Json) {
    match plan {
        Ok(RequestPlan::Forward(c)) => (c.method, c.params),
        other => panic!("unexpected plan {:?}", other),
    }
}

#[test]
fn unknown_method_is_refused() {
    let r = plan_request("flutter/unknown", &Json::Null);
    assert_eq!(r.unwrap_err(), "未知方法: flutter/unknown");
}

#[test]
fn daemon_and_listing_plans() {
    assert!(matches!(plan_request(methods::DAEMON_START, &Json::Null), Ok(RequestPlan::RestartDaemon)));
    assert!(matches!(plan_request(methods::DAEMON_SHUTDOWN, &Json::Null), Ok(RequestPlan::ShutdownDaemon)));
    assert!(matches!(plan_request(methods::DEVICE_GET_DEVICES, &Json::Null), Ok(RequestPlan::ListDevices)));
    assert!(matches!(plan_request(methods::EMULATOR_GET_EMULATORS, &Json::Null), Ok(RequestPlan::ListEmulators)));
    match plan_request(methods::DEVICE_ENABLE, &Json::Null) {
        Ok(RequestPlan::SendThenReply(c, j)) => {
            assert_eq!(c.method, "device.enable");
            assert_eq!(c.params, Json::Null);
            assert_eq!(j, obj(vec![("success", Json::Bool(true))]));
        }
        other => panic!("unexpected plan {:?}", other),
    }
    assert_eq!(forward(plan_request(methods::DEVICE_DISABLE, &Json::Null)), (s("device.disable"), Json::Null));
    assert_eq!(forward(plan_request(methods::DEVTOOLS_SERVE, &Json::Null)), (s("devtools.serve"), Json::Null));
}

#[test]
fn app_start_defaults() {
    let params = obj(vec![("deviceId", st("macos")), ("projectRoot", st("/work/demo"))]);
    let (m, p) = forward(plan_request(methods::APP_START, &params));
    assert_eq!(m, "app.start");
    assert_eq!(
        p,
        obj(vec![
            ("deviceId", st("macos")),
            ("projectDirectory", st("/work/demo")),
            ("mode", st("debug")),
            ("target", st("lib/main.dart")),
        ])
    );
}

#[test]
fn app_start_given_mode_and_target() {
    let params = obj(vec![
        ("deviceId", st("macos")),
        ("projectRoot", st("/work/demo")),
        ("mode", st("release")),
        ("target", st("lib/other.dart")),
    ]);
    let (_, p) = forward(plan_request(methods::APP_START, &params));
    assert_eq!(p.get("mode"), Some(&st("release")));
    assert_eq!(p.get("target"), Some(&st("lib/other.dart")));
}

#[test]
fn missing_parameters_are_refused() {
    assert_eq!(plan_request(methods::APP_START, &obj(vec![])).unwrap_err(), "缺少 deviceId 参数");
    assert_eq!(
        plan_request(methods::APP_START, &obj(vec![("deviceId", st("macos"))])).unwrap_err(),
        "缺少 projectRoot 参数"
    );
    assert_eq!(plan_request(methods::APP_RESTART, &Json::Null).unwrap_err(), "缺少 appId 参数");
    assert_eq!(plan_request(methods::APP_STOP, &obj(vec![("appId", Json::Bool(true))])).unwrap_err(), "缺少 appId 参数");
    assert_eq!(plan_request(methods::EMULATOR_LAUNCH, &obj(vec![])).unwrap_err(), "缺少 emulatorId 参数");
    assert_eq!(
        plan_request(methods::APP_CALL_SERVICE_EXTENSION, &obj(vec![("appId", st("a"))])).unwrap_err(),
        "缺少 methodName 参数"
    );
}

#[test]
fn restart_stop_launch_plans() {
    let (m, p) = forward(plan_request(methods::APP_RESTART, &obj(vec![("appId", st("a"))])));
    assert_eq!(m, "app.restart");
    assert_eq!(p, obj(vec![("appId", st("a")), ("fullRestart", Json::Bool(false))]));
    let (_, p) = forward(plan_request(methods::APP_RESTART, &obj(vec![("appId", st("a")), ("fullRestart", Json::Bool(true))])));
    assert_eq!(p, obj(vec![("appId", st("a")), ("fullRestart", Json::Bool(true))]));
    let (m, p) = forward(plan_request(methods::APP_STOP, &obj(vec![("appId", st("a"))])));
    assert_eq!(m, "app.stop");
    assert_eq!(p, obj(vec![("appId", st("a"))]));
    let (m, p) = forward(plan_request(methods::EMULATOR_LAUNCH, &obj(vec![("emulatorId", st("Pixel_7"))])));
    assert_eq!(m, "emulator.launch");
    assert_eq!(p, obj(vec![("emulatorId", st("Pixel_7"))]));
}

#[test]
fn service_extension_plan() {
    let params = obj(vec![
        ("appId", st("a")),
        ("methodName", st("ext.flutter.repaintRainbow")),
        ("params", obj(vec![("enabled", st("true"))])),
    ]);
    let (m, p) = forward(plan_request(methods::APP_CALL_SERVICE_EXTENSION, &params));
    assert_eq!(m, "app.callServiceExtension");
    assert_eq!(
        p,
        obj(vec![
            ("appId", st("a")),
            ("methodName", st("ext.flutter.repaintRainbow")),
            ("params", obj(vec![("enabled", st("true"))])),
        ])
    );
    let (_, p) = forward(plan_request(
        methods::APP_CALL_SERVICE_EXTENSION,
        &obj(vec![("appId", st("a")), ("methodName", st("m"))]),
    ));
    assert_eq!(p.get("params"), Some(&Json::Null));
}

#[test]
fn result_bodies() {
    assert_eq!(success_result(), obj(vec![("success", Json::Bool(true))]));
    assert_eq!(
        daemon_start_result(vec![st("d")]),
        obj(vec![("success", Json::Bool(true)), ("devices", Json::Array(vec![st("d")]))])
    );
    assert_eq!(devices_result(vec![]), obj(vec![("devices", Json::Array(vec![]))]));
    assert_eq!(emulators_result(vec![Json::Null]), obj(vec![("emulators", Json::Array(vec![Json::Null]))]));
}

#[test]
fn responses() {
    match response_body(Ok(Json::Bool(true))) {
        ResponseBody::Result(j) => assert_eq!(j, Json::Bool(true)),
        other => panic!("unexpected {:?}", other),
    }
    match response_body(Err(s("boom"))) {
        ResponseBody::Error { code, message } => {
            assert_eq!(code, -32603);
            assert_eq!(code, INTERNAL_ERROR);
            assert_eq!(message, "boom");
        }
        other => panic!("unexpected {:?}", other),
    }
}

#[test]
fn exit_ends_session() {
    assert!(notification_ends_session("exit"));
    assert!(!notification_ends_session("initialized"));
    assert!(!notification_ends_session("textDocument/didOpen"));
}
