//! The bridge server's handling of the editor's requests: which custom
//! method a request names, what it asks of the daemon, and the answer.
use vstd::prelude::*;

use crate::daemon::{DaemonCommand, DaemonCommandView, command};
use crate::json::{Json, JsonModel, entry_models_of, lemma_entry_models_of, models_of, object};
use crate::protocols::methods;
use crate::state::{bool_or, str_or};
use crate::text::str_eq;

verus! {

/// The custom methods the bridge answers.
#[derive(Debug, Clone, Copy, PartialEq, Eq, Structural)]
pub enum Route {
    DaemonStart,
    DaemonShutdown,
    GetDevices,
    DeviceEnable,
    DeviceDisable,
    GetEmulators,
    LaunchEmulator,
    AppStart,
    AppRestart,
    AppStop,
    CallServiceExtension,
    DevtoolsServe,
}

/// The method a request name stands for.
pub open spec fn route_of(method: Seq<char>) -> Option<Route> {
    if method == methods::DAEMON_START@ {
        Some(Route::DaemonStart)
    } else if method == methods::DAEMON_SHUTDOWN@ {
        Some(Route::DaemonShutdown)
    } else if method == methods::DEVICE_GET_DEVICES@ {
        Some(Route::GetDevices)
    } else if method == methods::DEVICE_ENABLE@ {
        Some(Route::DeviceEnable)
    } else if method == methods::DEVICE_DISABLE@ {
        Some(Route::DeviceDisable)
    } else if method == methods::EMULATOR_GET_EMULATORS@ {
        Some(Route::GetEmulators)
    } else if method == methods::EMULATOR_LAUNCH@ {
        Some(Route::LaunchEmulator)
    } else if method == methods::APP_START@ {
        Some(Route::AppStart)
    } else if method == methods::APP_RESTART@ {
        Some(Route::AppRestart)
    } else if method == methods::APP_STOP@ {
        Some(Route::AppStop)
    } else if method == methods::APP_CALL_SERVICE_EXTENSION@ {
        Some(Route::CallServiceExtension)
    } else if method == methods::DEVTOOLS_SERVE@ {
        Some(Route::DevtoolsServe)
    } else {
        None
    }
}

/// The method a request names, if the bridge knows it.
pub fn route_request(method: &str) -> (r: Option<Route>)
    ensures
        r == route_of(method@),
{
    if str_eq(method, methods::DAEMON_START) {
        Some(Route::DaemonStart)
    } else if str_eq(method, methods::DAEMON_SHUTDOWN) {
        Some(Route::DaemonShutdown)
    } else if str_eq(method, methods::DEVICE_GET_DEVICES) {
        Some(Route::GetDevices)
    } else if str_eq(method, methods::DEVICE_ENABLE) {
        Some(Route::DeviceEnable)
    } else if str_eq(method, methods::DEVICE_DISABLE) {
        Some(Route::DeviceDisable)
    } else if str_eq(method, methods::EMULATOR_GET_EMULATORS) {
        Some(Route::GetEmulators)
    } else if str_eq(method, methods::EMULATOR_LAUNCH) {
        Some(Route::LaunchEmulator)
    } else if str_eq(method, methods::APP_START) {
        Some(Route::AppStart)
    } else if str_eq(method, methods::APP_RESTART) {
        Some(Route::AppRestart)
    } else if str_eq(method, methods::APP_STOP) {
        Some(Route::AppStop)
    } else if str_eq(method, methods::APP_CALL_SERVICE_EXTENSION) {
        Some(Route::CallServiceExtension)
    } else if str_eq(method, methods::DEVTOOLS_SERVE) {
        Some(Route::DevtoolsServe)
    } else {
        None
    }
}

/// What answering a request takes.
#[derive(Debug)]
pub enum RequestPlan {
    /// Shut down the running daemon if any, start a new one, and answer
    /// with its devices.
    RestartDaemon,
    /// Shut down the running daemon if any, and answer with success.
    ShutdownDaemon,
    /// Answer with the devices of the daemon, started if need be.
    ListDevices,
    /// Answer with the emulators of the daemon, started if need be.
    ListEmulators,
    /// Send this command to the daemon, started if need be, and answer with
    /// its result.
    Forward(DaemonCommand),
    /// Send this command to the daemon, started if need be, and once it has
    /// answered, answer with this value.
    SendThenReply(DaemonCommand, Json),
}

/// Model of a plan.
pub enum PlanView {
    RestartDaemon,
    ShutdownDaemon,
    ListDevices,
    ListEmulators,
    Forward(DaemonCommandView),
    SendThenReply(DaemonCommandView, JsonModel),
}

impl View for RequestPlan {
    type V = PlanView;

    open spec fn view(&self) -> PlanView {
        match self {
            RequestPlan::RestartDaemon => PlanView::RestartDaemon,
            RequestPlan::ShutdownDaemon => PlanView::ShutdownDaemon,
            RequestPlan::ListDevices => PlanView::ListDevices,
            RequestPlan::ListEmulators => PlanView::ListEmulators,
            RequestPlan::Forward(c) => PlanView::Forward(c@),
            RequestPlan::SendThenReply(c, j) => PlanView::SendThenReply(c@, j@),
        }
    }
}

/// `{"success": true}`.
pub open spec fn success_json() -> JsonModel {
    object(seq![("success"@, JsonModel::Bool(true))])
}

/// The error for a missing request parameter.
pub open spec fn missing_param(name: Seq<char>) -> Seq<char> {
    "缺少 "@ + name + " 参数"@
}

/// The error for a method the bridge does not know.
pub open spec fn unknown_method(method: Seq<char>) -> Seq<char> {
    "未知方法: "@ + method
}

/// The member `key`, or `null` when there is none.
pub open spec fn member_or_null(j: JsonModel, key: Seq<char>) -> JsonModel {
    match j.get(key) {
        Some(v) => v,
        None => JsonModel::Null,
    }
}

/// The string parameter `name`, or the error that it is missing.
pub open spec fn required_str(params: JsonModel, name: Seq<char>) -> Result<Seq<char>, Seq<char>> {
    match params.str_member(name) {
        Some(v) => Ok(v),
        None => Err(missing_param(name)),
    }
}

/// What the request `method` with `params` takes, or why it is refused.
/// Parameters are checked before any daemon is started.
pub open spec fn plan_of(method: Seq<char>, params: JsonModel) -> Result<PlanView, Seq<char>> {
    match route_of(method) {
        None => Err(unknown_method(method)),
        Some(Route::DaemonStart) => Ok(PlanView::RestartDaemon),
        Some(Route::DaemonShutdown) => Ok(PlanView::ShutdownDaemon),
        Some(Route::GetDevices) => Ok(PlanView::ListDevices),
        Some(Route::DeviceEnable) => Ok(
            PlanView::SendThenReply(command("device.enable"@, JsonModel::Null), success_json()),
        ),
        Some(Route::DeviceDisable) => Ok(
            PlanView::Forward(command("device.disable"@, JsonModel::Null)),
        ),
        Some(Route::GetEmulators) => Ok(PlanView::ListEmulators),
        Some(Route::LaunchEmulator) => match required_str(params, "emulatorId"@) {
            Err(e) => Err(e),
            Ok(id) => Ok(
                PlanView::Forward(
                    command("emulator.launch"@, object(seq![("emulatorId"@, JsonModel::Str(id))])),
                ),
            ),
        },
        Some(Route::AppStart) => match required_str(params, "deviceId"@) {
            Err(e) => Err(e),
            Ok(device_id) => match required_str(params, "projectRoot"@) {
                Err(e) => Err(e),
                Ok(project_root) => Ok(
                    PlanView::Forward(
                        command(
                            "app.start"@,
                            object(
                                seq![
                                    ("deviceId"@, JsonModel::Str(device_id)),
                                    ("projectDirectory"@, JsonModel::Str(project_root)),
                                    (
                                        "mode"@,
                                        JsonModel::Str(str_or(params.str_member("mode"@), "debug"@)),
                                    ),
                                    (
                                        "target"@,
                                        JsonModel::Str(
                                            str_or(params.str_member("target"@), "lib/main.dart"@),
                                        ),
                                    ),
                                ],
                            ),
                        ),
                    ),
                ),
            },
        },
        Some(Route::AppRestart) => match required_str(params, "appId"@) {
            Err(e) => Err(e),
            Ok(app_id) => Ok(
                PlanView::Forward(
                    command(
                        "app.restart"@,
                        object(
                            seq![
                                ("appId"@, JsonModel::Str(app_id)),
                                (
                                    "fullRestart"@,
                                    JsonModel::Bool(bool_or(params.bool_member("fullRestart"@), false)),
                                ),
                            ],
                        ),
                    ),
                ),
            ),
        },
        Some(Route::AppStop) => match required_str(params, "appId"@) {
            Err(e) => Err(e),
            Ok(app_id) => Ok(
                PlanView::Forward(
                    command("app.stop"@, object(seq![("appId"@, JsonModel::Str(app_id))])),
                ),
            ),
        },
        Some(Route::CallServiceExtension) => match required_str(params, "appId"@) {
            Err(e) => Err(e),
            Ok(app_id) => match required_str(params, "methodName"@) {
                Err(e) => Err(e),
                Ok(name) => Ok(
                    PlanView::Forward(
                        command(
                            "app.callServiceExtension"@,
                            object(
                                seq![
                                    ("appId"@, JsonModel::Str(app_id)),
                                    ("methodName"@, JsonModel::Str(name)),
                                    ("params"@, member_or_null(params, "params"@)),
                                ],
                            ),
                        ),
                    ),
                ),
            },
        },
        Some(Route::DevtoolsServe) => Ok(
            PlanView::Forward(command("devtools.serve"@, JsonModel::Null)),
        ),
    }
}

/// Each method name reaches its own route.
pub proof fn lemma_routes_of_method_names()
    ensures
        route_of("flutter/daemon/start"@) == Some(Route::DaemonStart),
        route_of("flutter/daemon/shutdown"@) == Some(Route::DaemonShutdown),
        route_of("flutter/device/getDevices"@) == Some(Route::GetDevices),
        route_of("flutter/device/enable"@) == Some(Route::DeviceEnable),
        route_of("flutter/device/disable"@) == Some(Route::DeviceDisable),
        route_of("flutter/emulator/getEmulators"@) == Some(Route::GetEmulators),
        route_of("flutter/emulator/launch"@) == Some(Route::LaunchEmulator),
        route_of("flutter/app/start"@) == Some(Route::AppStart),
        route_of("flutter/app/restart"@) == Some(Route::AppRestart),
        route_of("flutter/app/stop"@) == Some(Route::AppStop),
        route_of("flutter/app/callServiceExtension"@) == Some(Route::CallServiceExtension),
        route_of("flutter/devtools/serve"@) == Some(Route::DevtoolsServe),
{
    reveal_strlit("flutter/daemon/start");
    reveal_strlit("flutter/daemon/shutdown");
    reveal_strlit("flutter/device/getDevices");
    reveal_strlit("flutter/device/enable");
    reveal_strlit("flutter/device/disable");
    reveal_strlit("flutter/emulator/getEmulators");
    reveal_strlit("flutter/emulator/launch");
    reveal_strlit("flutter/app/start");
    reveal_strlit("flutter/app/restart");
    reveal_strlit("flutter/app/stop");
    reveal_strlit("flutter/app/callServiceExtension");
    reveal_strlit("flutter/devtools/serve");
    assert("flutter/daemon/start"@.len() == 20);
    assert("flutter/daemon/shutdown"@.len() == 23);
    assert("flutter/device/getDevices"@.len() == 25);
    assert("flutter/device/enable"@.len() == 21);
    assert("flutter/device/disable"@.len() == 22);
    assert("flutter/emulator/getEmulators"@.len() == 29);
    assert("flutter/emulator/launch"@.len() == 23);
    assert("flutter/app/start"@.len() == 17);
    assert("flutter/app/restart"@.len() == 19);
    assert("flutter/app/stop"@.len() == 16);
    assert("flutter/app/callServiceExtension"@.len() == 32);
    assert("flutter/devtools/serve"@.len() == 22);
    assert("flutter/daemon/shutdown"@[8] == 'd' && "flutter/emulator/launch"@[8] == 'e');
    assert("flutter/device/disable"@[11] == 'i' && "flutter/devtools/serve"@[11] == 't');
}

/// `flutter/app/restart` asks the daemon for `app.restart` of the given
/// application, copying `fullRestart` when it is a boolean (hot restart when
/// true, hot reload when false) and asking for a hot reload otherwise.
pub proof fn lemma_restart_copies_full_restart(params: JsonModel, app_id: Seq<char>, full: bool)
    requires
        params.str_member("appId"@) == Some(app_id),
        params.bool_member("fullRestart"@) == Some(full) || (params.bool_member("fullRestart"@) is None
            && !full),
    ensures
        plan_of("flutter/app/restart"@, params) == Ok::<PlanView, Seq<char>>(
            PlanView::Forward(
                command(
                    "app.restart"@,
                    object(
                        seq![
                            ("appId"@, JsonModel::Str(app_id)),
                            ("fullRestart"@, JsonModel::Bool(full)),
                        ],
                    ),
                ),
            ),
        ),
{
    lemma_routes_of_method_names();
}

/// `flutter/app/start` asks the daemon for `app.start` on the given device
/// and project, with the given mode and target, or `debug` and
/// `lib/main.dart` when they are not given as strings.
pub proof fn lemma_start_copies_parameters(
    params: JsonModel,
    device_id: Seq<char>,
    root: Seq<char>,
    mode: Seq<char>,
    target: Seq<char>,
)
    requires
        params.str_member("deviceId"@) == Some(device_id),
        params.str_member("projectRoot"@) == Some(root),
        params.str_member("mode"@) == Some(mode) || (params.str_member("mode"@) is None && mode
            == "debug"@),
        params.str_member("target"@) == Some(target) || (params.str_member("target"@) is None
            && target == "lib/main.dart"@),
    ensures
        plan_of("flutter/app/start"@, params) == Ok::<PlanView, Seq<char>>(
            PlanView::Forward(
                command(
                    "app.start"@,
                    object(
                        seq![
                            ("deviceId"@, JsonModel::Str(device_id)),
                            ("projectDirectory"@, JsonModel::Str(root)),
                            ("mode"@, JsonModel::Str(mode)),
                            ("target"@, JsonModel::Str(target)),
                        ],
                    ),
                ),
            ),
        ),
{
    lemma_routes_of_method_names();
}

/// `flutter/app/start` without a string `deviceId` is refused for that; with
/// one but without a string `projectRoot`, it is refused for the root.
pub proof fn lemma_start_requires_device_and_root(params: JsonModel)
    ensures
        params.str_member("deviceId"@) is None ==> plan_of("flutter/app/start"@, params) == Err::<
            PlanView,
            Seq<char>,
        >("缺少 "@ + "deviceId"@ + " 参数"@),
        params.str_member("deviceId"@) is Some && params.str_member("projectRoot"@) is None
            ==> plan_of("flutter/app/start"@, params) == Err::<PlanView, Seq<char>>(
            "缺少 "@ + "projectRoot"@ + " 参数"@,
        ),
{
    lemma_routes_of_method_names();
}

/// `flutter/app/stop` asks the daemon for `app.stop` of the given
/// application, and is refused without a string `appId`; so is
/// `flutter/app/restart`.
pub proof fn lemma_stop_copies_app_id(params: JsonModel)
    ensures
        params.str_member("appId"@) matches Some(app_id) ==> plan_of("flutter/app/stop"@, params)
            == Ok::<PlanView, Seq<char>>(
            PlanView::Forward(command("app.stop"@, object(seq![("appId"@, JsonModel::Str(app_id))]))),
        ),
        params.str_member("appId"@) is None ==> plan_of("flutter/app/stop"@, params) == Err::<
            PlanView,
            Seq<char>,
        >("缺少 "@ + "appId"@ + " 参数"@),
        params.str_member("appId"@) is None ==> plan_of("flutter/app/restart"@, params) == Err::<
            PlanView,
            Seq<char>,
        >("缺少 "@ + "appId"@ + " 参数"@),
{
    lemma_routes_of_method_names();
}

/// `flutter/emulator/launch` asks the daemon to launch the given emulator,
/// and is refused without a string `emulatorId`.
pub proof fn lemma_launch_copies_emulator_id(params: JsonModel)
    ensures
        params.str_member("emulatorId"@) matches Some(id) ==> plan_of(
            "flutter/emulator/launch"@,
            params,
        ) == Ok::<PlanView, Seq<char>>(
            PlanView::Forward(
                command("emulator.launch"@, object(seq![("emulatorId"@, JsonModel::Str(id))])),
            ),
        ),
        params.str_member("emulatorId"@) is None ==> plan_of("flutter/emulator/launch"@, params)
            == Err::<PlanView, Seq<char>>("缺少 "@ + "emulatorId"@ + " 参数"@),
{
    lemma_routes_of_method_names();
}

/// `flutter/app/callServiceExtension` passes the application, the method
/// name and the `params` member (or `null`) to the daemon unchanged.
pub proof fn lemma_service_extension_copies_parameters(
    params: JsonModel,
    app_id: Seq<char>,
    name: Seq<char>,
    ext: JsonModel,
)
    requires
        params.str_member("appId"@) == Some(app_id),
        params.str_member("methodName"@) == Some(name),
        params.get("params"@) == Some(ext) || (params.get("params"@) is None && ext
            == JsonModel::Null),
    ensures
        plan_of("flutter/app/callServiceExtension"@, params) == Ok::<PlanView, Seq<char>>(
            PlanView::Forward(
                command(
                    "app.callServiceExtension"@,
                    object(
                        seq![
                            ("appId"@, JsonModel::Str(app_id)),
                            ("methodName"@, JsonModel::Str(name)),
                            ("params"@, ext),
                        ],
                    ),
                ),
            ),
        ),
{
    lemma_routes_of_method_names();
}

/// The requests without parameters: daemon start and shutdown, the device
/// and emulator listings, enabling device polling (`device.enable`, then
/// success), disabling it, and DevTools.
pub proof fn lemma_plans_without_parameters(params: JsonModel)
    ensures
        plan_of("flutter/daemon/start"@, params) == Ok::<PlanView, Seq<char>>(PlanView::RestartDaemon),
        plan_of("flutter/daemon/shutdown"@, params) == Ok::<PlanView, Seq<char>>(
            PlanView::ShutdownDaemon,
        ),
        plan_of("flutter/device/getDevices"@, params) == Ok::<PlanView, Seq<char>>(
            PlanView::ListDevices,
        ),
        plan_of("flutter/emulator/getEmulators"@, params) == Ok::<PlanView, Seq<char>>(
            PlanView::ListEmulators,
        ),
        plan_of("flutter/device/enable"@, params) == Ok::<PlanView, Seq<char>>(
            PlanView::SendThenReply(
                command("device.enable"@, JsonModel::Null),
                object(seq![("success"@, JsonModel::Bool(true))]),
            ),
        ),
        plan_of("flutter/device/disable"@, params) == Ok::<PlanView, Seq<char>>(
            PlanView::Forward(command("device.disable"@, JsonModel::Null)),
        ),
        plan_of("flutter/devtools/serve"@, params) == Ok::<PlanView, Seq<char>>(
            PlanView::Forward(command("devtools.serve"@, JsonModel::Null)),
        ),
{
    lemma_routes_of_method_names();
}

/// A request for any other method is refused with an error naming it.
pub proof fn lemma_unknown_methods_refused(method: Seq<char>, params: JsonModel)
    requires
        method != "flutter/daemon/start"@,
        method != "flutter/daemon/shutdown"@,
        method != "flutter/device/getDevices"@,
        method != "flutter/device/enable"@,
        method != "flutter/device/disable"@,
        method != "flutter/emulator/getEmulators"@,
        method != "flutter/emulator/launch"@,
        method != "flutter/app/start"@,
        method != "flutter/app/restart"@,
        method != "flutter/app/stop"@,
        method != "flutter/app/callServiceExtension"@,
        method != "flutter/devtools/serve"@,
    ensures
        plan_of(method, params) == Err::<PlanView, Seq<char>>("未知方法: "@ + method),
{
}

fn required(params: &Json, name: &str) -> (r: Result<String, String>)
    ensures
        match r {
            Ok(v) => required_str(params@, name@) == Ok::<Seq<char>, Seq<char>>(v@),
            Err(e) => required_str(params@, name@) == Err::<Seq<char>, Seq<char>>(e@),
        },
{
    match params.str_member(name) {
        Some(v) => Ok(v),
        None => {
            let mut e: String = "缺少 ".to_owned();
            e.append(name);
            e.append(" 参数");
            Err(e)
        },
    }
}

/// The plan for answering the request `method` with `params`.
pub fn plan_request(method: &str, params: &Json) -> (r: Result<RequestPlan, String>)
    ensures
        match r {
            Ok(p) => plan_of(method@, params@) == Ok::<PlanView, Seq<char>>(p@),
            Err(e) => plan_of(method@, params@) == Err::<PlanView, Seq<char>>(e@),
        },
{
    match route_request(method) {
        None => {
            let mut e: String = "未知方法: ".to_owned();
            e.append(method);
            Err(e)
        },
        Some(Route::DaemonStart) => Ok(RequestPlan::RestartDaemon),
        Some(Route::DaemonShutdown) => Ok(RequestPlan::ShutdownDaemon),
        Some(Route::GetDevices) => Ok(RequestPlan::ListDevices),
        Some(Route::DeviceEnable) => Ok(
            RequestPlan::SendThenReply(DaemonCommand::device_enable(), success_result()),
        ),
        Some(Route::DeviceDisable) => Ok(RequestPlan::Forward(DaemonCommand::device_disable())),
        Some(Route::GetEmulators) => Ok(RequestPlan::ListEmulators),
        Some(Route::LaunchEmulator) => match required(params, "emulatorId") {
            Err(e) => Err(e),
            Ok(id) => Ok(RequestPlan::Forward(DaemonCommand::launch_emulator(id.as_str()))),
        },
        Some(Route::AppStart) => {
            let device_id = match required(params, "deviceId") {
                Err(e) => return Err(e),
                Ok(v) => v,
            };
            let project_root = match required(params, "projectRoot") {
                Err(e) => return Err(e),
                Ok(v) => v,
            };
            let mode: String = match params.str_member("mode") {
                Some(v) => v,
                None => "debug".to_owned(),
            };
            let target: String = match params.str_member("target") {
                Some(v) => v,
                None => "lib/main.dart".to_owned(),
            };
            let c = DaemonCommand::start_app(
                device_id.as_str(),
                project_root.as_str(),
                mode.as_str(),
                target.as_str(),
            );
            Ok(RequestPlan::Forward(c))
        },
        Some(Route::AppRestart) => match required(params, "appId") {
            Err(e) => Err(e),
            Ok(app_id) => {
                let full = match params.bool_member("fullRestart") {
                    Some(b) => b,
                    None => false,
                };
                Ok(RequestPlan::Forward(DaemonCommand::restart_app(app_id.as_str(), full)))
            },
        },
        Some(Route::AppStop) => match required(params, "appId") {
            Err(e) => Err(e),
            Ok(app_id) => Ok(RequestPlan::Forward(DaemonCommand::stop_app(app_id.as_str()))),
        },
        Some(Route::CallServiceExtension) => {
            let app_id = match required(params, "appId") {
                Err(e) => return Err(e),
                Ok(v) => v,
            };
            let name = match required(params, "methodName") {
                Err(e) => return Err(e),
                Ok(v) => v,
            };
            let ext_params = match params.get("params") {
                Some(p) => p.duplicate(),
                None => Json::Null,
            };
            let c = DaemonCommand::call_service_extension(app_id.as_str(), name.as_str(), ext_params);
            Ok(RequestPlan::Forward(c))
        },
        Some(Route::DevtoolsServe) => Ok(RequestPlan::Forward(DaemonCommand::serve_devtools())),
    }
}

fn array_of(items: Vec<Json>) -> (r: Json)
    ensures
        r@ == JsonModel::Array(models_of(items@)),
{
    Json::Array(items)
}

/// `{"success": true}`: the answer to a request that needs no data.
pub fn success_result() -> (r: Json)
    ensures
        r@ == success_json(),
{
    let entries: Vec<(String, Json)> = vec![("success".to_owned(), Json::Bool(true))];
    proof {
        lemma_entry_models_of(entries@);
        assert(entry_models_of(entries@) =~= success_json()->Object_0);
    }
    Json::Object(entries)
}

/// The answer to a daemon start: success and the devices it reported.
pub fn daemon_start_result(devices: Vec<Json>) -> (r: Json)
    ensures
        r@ == object(
            seq![
                ("success"@, JsonModel::Bool(true)),
                ("devices"@, JsonModel::Array(models_of(devices@))),
            ],
        ),
{
    let entries: Vec<(String, Json)> = vec![
        ("success".to_owned(), Json::Bool(true)),
        ("devices".to_owned(), array_of(devices)),
    ];
    proof {
        lemma_entry_models_of(entries@);
        assert(entry_models_of(entries@) =~= seq![
            ("success"@, JsonModel::Bool(true)),
            ("devices"@, entries@[1].1@),
        ]);
    }
    Json::Object(entries)
}

/// The answer to a device listing.
pub fn devices_result(devices: Vec<Json>) -> (r: Json)
    ensures
        r@ == object(seq![("devices"@, JsonModel::Array(models_of(devices@)))]),
{
    let entries: Vec<(String, Json)> = vec![("devices".to_owned(), array_of(devices))];
    proof {
        lemma_entry_models_of(entries@);
        assert(entry_models_of(entries@) =~= seq![("devices"@, entries@[0].1@)]);
    }
    Json::Object(entries)
}

/// The answer to an emulator listing.
pub fn emulators_result(emulators: Vec<Json>) -> (r: Json)
    ensures
        r@ == object(seq![("emulators"@, JsonModel::Array(models_of(emulators@)))]),
{
    let entries: Vec<(String, Json)> = vec![("emulators".to_owned(), array_of(emulators))];
    proof {
        lemma_entry_models_of(entries@);
        assert(entry_models_of(entries@) =~= seq![("emulators"@, entries@[0].1@)]);
    }
    Json::Object(entries)
}

/// The JSON-RPC code of an error answered to the editor.
pub const INTERNAL_ERROR: i32 = -32603;

/// The body of the answer to a request: its result, or an internal error
/// carrying the message.
#[derive(Debug)]
pub enum ResponseBody {
    Result(Json),
    Error { code: i32, message: String },
}

/// The answer for the outcome of handling a request.
pub fn response_body(outcome: Result<Json, String>) -> (r: ResponseBody)
    ensures
        match outcome {
            Ok(j) => r matches ResponseBody::Result(v) && v@ == j@,
            Err(m) => r matches ResponseBody::Error { code, message } && code == INTERNAL_ERROR
                && message@ == m@,
        },
{
    match outcome {
        Ok(j) => ResponseBody::Result(j),
        Err(m) => ResponseBody::Error { code: INTERNAL_ERROR, message: m },
    }
}

/// Whether a notification ends the session (`exit`); the bridge ignores
/// every other notification.
pub fn notification_ends_session(method: &str) -> (r: bool)
    ensures
        r == (method@ == "exit"@),
{
    str_eq(method, "exit")
}

} // verus!
