//! The bridge's side of the Flutter daemon protocol: the commands it sends,
//! the numbering of requests, and what it makes of each message it reads.
//!
//! Messages are JSON-RPC lines: a request is a one-element array holding an
//! object with `id`, `method` and `params`; the daemon answers with an object
//! that carries the same `id` and a `result`, and sends events as objects
//! with an `event` name and `params`.
use vstd::prelude::*;

use crate::json::{Json, JsonModel, JsonNumber, NumberModel, lemma_entry_models_of, entry_models_of, models_of, object, json_text_value, parse_json_text};
use crate::state::{AppState, AppStateView, DeviceEntry, device_from_json, str_or, describes_device_of};
use crate::text::str_eq;

verus! {

/// A command for the daemon: its method name and parameters.
#[derive(Debug)]
pub struct DaemonCommand {
    pub method: String,
    pub params: Json,
}

/// Model of a command.
pub struct DaemonCommandView {
    pub method: Seq<char>,
    pub params: JsonModel,
}

impl View for DaemonCommand {
    type V = DaemonCommandView;

    open spec fn view(&self) -> DaemonCommandView {
        DaemonCommandView { method: self.method@, params: self.params@ }
    }
}

/// The model of a command.
pub open spec fn command(method: Seq<char>, params: JsonModel) -> DaemonCommandView {
    DaemonCommandView { method, params }
}

fn make(method: &str, params: Json) -> (r: DaemonCommand)
    ensures
        r@ == command(method@, params@),
{
    DaemonCommand { method: method.to_owned(), params }
}

fn object1(k0: &str, v0: Json) -> (r: Json)
    ensures
        r@ == object(seq![(k0@, v0@)]),
{
    let entries: Vec<(String, Json)> = vec![(k0.to_owned(), v0)];
    proof {
        lemma_entry_models_of(entries@);
        assert(entry_models_of(entries@) =~= seq![(k0@, v0@)]);
    }
    Json::Object(entries)
}

fn object2(k0: &str, v0: Json, k1: &str, v1: Json) -> (r: Json)
    ensures
        r@ == object(seq![(k0@, v0@), (k1@, v1@)]),
{
    let entries: Vec<(String, Json)> = vec![(k0.to_owned(), v0), (k1.to_owned(), v1)];
    proof {
        lemma_entry_models_of(entries@);
        assert(entry_models_of(entries@) =~= seq![(k0@, v0@), (k1@, v1@)]);
    }
    Json::Object(entries)
}

fn object3(k0: &str, v0: Json, k1: &str, v1: Json, k2: &str, v2: Json) -> (r: Json)
    ensures
        r@ == object(seq![(k0@, v0@), (k1@, v1@), (k2@, v2@)]),
{
    let entries: Vec<(String, Json)> = vec![
        (k0.to_owned(), v0),
        (k1.to_owned(), v1),
        (k2.to_owned(), v2),
    ];
    proof {
        lemma_entry_models_of(entries@);
        assert(entry_models_of(entries@) =~= seq![(k0@, v0@), (k1@, v1@), (k2@, v2@)]);
    }
    Json::Object(entries)
}

fn object4(k0: &str, v0: Json, k1: &str, v1: Json, k2: &str, v2: Json, k3: &str, v3: Json) -> (r:
    Json)
    ensures
        r@ == object(seq![(k0@, v0@), (k1@, v1@), (k2@, v2@), (k3@, v3@)]),
{
    let entries: Vec<(String, Json)> = vec![
        (k0.to_owned(), v0),
        (k1.to_owned(), v1),
        (k2.to_owned(), v2),
        (k3.to_owned(), v3),
    ];
    proof {
        lemma_entry_models_of(entries@);
        assert(entry_models_of(entries@) =~= seq![(k0@, v0@), (k1@, v1@), (k2@, v2@), (k3@, v3@)]);
    }
    Json::Object(entries)
}

fn string_json(s: &str) -> (r: Json)
    ensures
        r@ == JsonModel::Str(s@),
{
    Json::Str(s.to_owned())
}

impl DaemonCommand {
    /// `daemon.version`, the handshake.
    pub fn daemon_version() -> (r: Self)
        ensures
            r@ == command("daemon.version"@, JsonModel::Null),
    {
        make("daemon.version", Json::Null)
    }

    /// `device.enable`: start reporting devices.
    pub fn device_enable() -> (r: Self)
        ensures
            r@ == command("device.enable"@, JsonModel::Null),
    {
        make("device.enable", Json::Null)
    }

    /// `device.disable`: stop reporting devices.
    pub fn device_disable() -> (r: Self)
        ensures
            r@ == command("device.disable"@, JsonModel::Null),
    {
        make("device.disable", Json::Null)
    }

    /// `emulator.getEmulators`.
    pub fn get_emulators() -> (r: Self)
        ensures
            r@ == command("emulator.getEmulators"@, JsonModel::Null),
    {
        make("emulator.getEmulators", Json::Null)
    }

    /// `emulator.launch` for `emulator_id`.
    pub fn launch_emulator(emulator_id: &str) -> (r: Self)
        ensures
            r@ == command(
                "emulator.launch"@,
                object(seq![("emulatorId"@, JsonModel::Str(emulator_id@))]),
            ),
    {
        make("emulator.launch", object1("emulatorId", string_json(emulator_id)))
    }

    /// `app.start`: run the project at `project_root` on `device_id`.
    pub fn start_app(device_id: &str, project_root: &str, mode: &str, target: &str) -> (r: Self)
        ensures
            r@ == command(
                "app.start"@,
                object(
                    seq![
                        ("deviceId"@, JsonModel::Str(device_id@)),
                        ("projectDirectory"@, JsonModel::Str(project_root@)),
                        ("mode"@, JsonModel::Str(mode@)),
                        ("target"@, JsonModel::Str(target@)),
                    ],
                ),
            ),
    {
        make(
            "app.start",
            object4(
                "deviceId",
                string_json(device_id),
                "projectDirectory",
                string_json(project_root),
                "mode",
                string_json(mode),
                "target",
                string_json(target),
            ),
        )
    }

    /// `app.restart`: a hot reload, or a hot restart when `full_restart`.
    pub fn restart_app(app_id: &str, full_restart: bool) -> (r: Self)
        ensures
            r@ == command(
                "app.restart"@,
                object(
                    seq![
                        ("appId"@, JsonModel::Str(app_id@)),
                        ("fullRestart"@, JsonModel::Bool(full_restart)),
                    ],
                ),
            ),
    {
        make(
            "app.restart",
            object2("appId", string_json(app_id), "fullRestart", Json::Bool(full_restart)),
        )
    }

    /// `app.stop`.
    pub fn stop_app(app_id: &str) -> (r: Self)
        ensures
            r@ == command("app.stop"@, object(seq![("appId"@, JsonModel::Str(app_id@))])),
    {
        make("app.stop", object1("appId", string_json(app_id)))
    }

    /// `app.callServiceExtension`: call the VM service extension `method`.
    pub fn call_service_extension(app_id: &str, method: &str, params: Json) -> (r: Self)
        ensures
            r@ == command(
                "app.callServiceExtension"@,
                object(
                    seq![
                        ("appId"@, JsonModel::Str(app_id@)),
                        ("methodName"@, JsonModel::Str(method@)),
                        ("params"@, params@),
                    ],
                ),
            ),
    {
        make(
            "app.callServiceExtension",
            object3(
                "appId",
                string_json(app_id),
                "methodName",
                string_json(method),
                "params",
                params,
            ),
        )
    }

    /// `devtools.serve`.
    pub fn serve_devtools() -> (r: Self)
        ensures
            r@ == command("devtools.serve"@, JsonModel::Null),
    {
        make("devtools.serve", Json::Null)
    }

    /// `daemon.shutdown`.
    pub fn shutdown() -> (r: Self)
        ensures
            r@ == command("daemon.shutdown"@, JsonModel::Null),
    {
        make("daemon.shutdown", Json::Null)
    }
}

/// The identifier that follows `id`; identifiers wrap around.
pub open spec fn next_request_id(id: u64) -> u64 {
    if id == u64::MAX {
        0
    } else {
        (id + 1) as u64
    }
}

/// The request line for `method` with `params`, numbered `id`.
pub open spec fn request_json(id: u64, method: Seq<char>, params: JsonModel) -> JsonModel {
    JsonModel::Array(
        seq![
            object(
                seq![
                    ("id"@, JsonModel::Number(NumberModel::PosInt(id))),
                    ("method"@, JsonModel::Str(method)),
                    ("params"@, params),
                ],
            ),
        ],
    )
}

/// The numeric `id` of a daemon message, if it has one.
pub open spec fn message_id(msg: JsonModel) -> Option<u64> {
    match msg.get("id"@) {
        Some(v) => v.as_u64(),
        None => None,
    }
}

/// The `result` of a response, `null` when it has none.
pub open spec fn message_result(msg: JsonModel) -> JsonModel {
    match msg.get("result"@) {
        Some(v) => v,
        None => JsonModel::Null,
    }
}

/// Whether a message is an event notification.
pub open spec fn is_event(msg: JsonModel) -> bool {
    msg.get("event"@) is Some
}

/// What an event does to the state: `device.added` records the device its
/// `params` describe, `device.removed` forgets the device named by the
/// `id` of its `params`, and every other event leaves the state alone.
pub open spec fn event_effect(s: AppStateView, msg: JsonModel) -> AppStateView {
    let name = str_or(msg.str_member("event"@), "unknown"@);
    if name == "device.added"@ {
        match msg.get("params"@) {
            Some(p) => AppStateView {
                devices: s.devices.insert(device_from_json(p).id, device_from_json(p)),
                apps: s.apps,
            },
            None => s,
        }
    } else if name == "device.removed"@ {
        match msg.get("params"@) {
            Some(p) => match p.str_member("id"@) {
                Some(id) => AppStateView { devices: s.devices.remove(id), apps: s.apps },
                None => s,
            },
            None => s,
        }
    } else {
        s
    }
}

/// A `device.added` event records the device its `params` describe under
/// that device's id, whatever the payload (emulators and physical devices
/// alike), replacing any device with that id; other devices and the
/// applications are untouched.
pub proof fn lemma_device_added_records_device(s: AppStateView, msg: JsonModel, p: JsonModel)
    requires
        msg.str_member("event"@) == Some("device.added"@),
        msg.get("params"@) == Some(p),
    ensures
        event_effect(s, msg).devices == s.devices.insert(device_from_json(p).id, device_from_json(p)),
        event_effect(s, msg).devices.contains_key(device_from_json(p).id),
        event_effect(s, msg).devices[device_from_json(p).id] == device_from_json(p),
        forall|k: Seq<char>|
            k != device_from_json(p).id ==> (#[trigger] event_effect(s, msg).devices.contains_key(k)
                == s.devices.contains_key(k)),
        event_effect(s, msg).apps == s.apps,
{
}

/// A `device.removed` event whose `params` carry a string `id` forgets the
/// device with that id and nothing else; without such an id it changes
/// nothing.
pub proof fn lemma_device_removed_forgets_device(s: AppStateView, msg: JsonModel, q: JsonModel)
    requires
        msg.str_member("event"@) == Some("device.removed"@),
        msg.get("params"@) == Some(q),
    ensures
        q.str_member("id"@) matches Some(id) ==> event_effect(s, msg).devices == s.devices.remove(id)
            && !event_effect(s, msg).devices.contains_key(id),
        q.str_member("id"@) is None ==> event_effect(s, msg) == s,
        event_effect(s, msg).apps == s.apps,
{
    reveal_strlit("device.added");
    reveal_strlit("device.removed");
    assert("device.added"@.len() != "device.removed"@.len());
}

/// A device announced by `device.added` and then withdrawn by a
/// `device.removed` naming its id is gone, and the other devices are those
/// before the announcement; applications are untouched.
pub proof fn lemma_added_then_removed(s: AppStateView, added: JsonModel, p: JsonModel, removed: JsonModel, q: JsonModel)
    requires
        added.str_member("event"@) == Some("device.added"@),
        added.get("params"@) == Some(p),
        removed.str_member("event"@) == Some("device.removed"@),
        removed.get("params"@) == Some(q),
        q.str_member("id"@) == Some(device_from_json(p).id),
    ensures
        event_effect(event_effect(s, added), removed).devices == s.devices.remove(
            device_from_json(p).id,
        ),
        event_effect(event_effect(s, added), removed).apps == s.apps,
{
    reveal_strlit("device.added");
    reveal_strlit("device.removed");
    assert("device.added"@.len() != "device.removed"@.len());
    let id = device_from_json(p).id;
    assert(s.devices.insert(id, device_from_json(p)).remove(id) =~= s.devices.remove(id));
}

/// Events other than `device.added` and `device.removed` leave the state
/// unchanged.
pub proof fn lemma_other_events_keep_state(s: AppStateView, msg: JsonModel)
    requires
        str_or(msg.str_member("event"@), "unknown"@) != "device.added"@,
        str_or(msg.str_member("event"@), "unknown"@) != "device.removed"@,
    ensures
        event_effect(s, msg) == s,
{
}

/// Consecutive requests get different numbers.
pub proof fn lemma_request_ids_differ(id: u64)
    ensures
        next_request_id(id) != id,
{
}

/// The error for a daemon line that is not a JSON array.
pub open spec fn unreadable_line() -> Seq<char> {
    "无法解析 daemon 响应"@
}

/// The message a daemon line carries: none on a blank line; otherwise the
/// line must be a JSON array, and its first element, if any, is the
/// message.
pub fn parse_daemon_message(line: &str) -> (r: Result<Option<Json>, String>)
    ensures
        line@.len() == 0 ==> r matches Ok(None),
        line@.len() > 0 ==> match json_text_value(line@) {
            Some(JsonModel::Array(items)) => r matches Ok(o) && (items.len() == 0 ==> o is None) && (
            items.len() > 0 ==> (o matches Some(m) && m@ == items[0])),
            _ => r matches Err(e) && e@ == unreadable_line(),
        },
{
    if line.is_empty() {
        return Ok(None);
    }
    match parse_json_text(line) {
        Some(Json::Array(items)) => {
            proof {
                crate::json::lemma_models_of(items@);
            }
            if items.len() == 0 {
                Ok(None)
            } else {
                let mut items = items;
                let first = items.remove(0);
                Ok(Some(first))
            }
        },
        _ => Err("无法解析 daemon 响应".to_owned()),
    }
}

/// The list of emulators in an `emulator.getEmulators` result: its items
/// when it is an array, and none otherwise.
pub open spec fn emulator_list(result: JsonModel) -> Seq<JsonModel> {
    match result.as_array() {
        Some(items) => items,
        None => Seq::empty(),
    }
}

/// The items of an `emulator.getEmulators` result.
pub fn emulators_from(result: &Json) -> (r: Vec<Json>)
    ensures
        models_of(r@) == emulator_list(result@),
{
    match result.as_array() {
        Some(items) => {
            let mut out: Vec<Json> = Vec::new();
            let mut i: usize = 0;
            while i < items.len()
                invariant
                    i <= items.len(),
                    models_of(out@) == models_of(items@.subrange(0, i as int)),
                decreases items.len() - i,
            {
                let c = items[i].duplicate();
                proof {
                    assert(items@.subrange(0, i + 1).drop_last() =~= items@.subrange(0, i as int));
                    assert(out@.push(c).drop_last() =~= out@);
                }
                out.push(c);
                i = i + 1;
            }
            proof {
                assert(items@.subrange(0, items@.len() as int) =~= items@);
            }
            out
        },
        None => {
            let out: Vec<Json> = Vec::new();
            proof {
                assert(out@ =~= Seq::<Json>::empty());
            }
            out
        },
    }
}

/// The protocol state kept for one daemon: the next request number, the
/// protocol version it announced, and the devices and applications it
/// reported.
pub struct DaemonSession {
    next_id: u64,
    version: Option<String>,
    app_state: AppState,
}

/// Model of a session.
pub struct DaemonSessionView {
    pub next_id: u64,
    pub version: Option<Seq<char>>,
    pub state: AppStateView,
}

impl View for DaemonSession {
    type V = DaemonSessionView;

    closed spec fn view(&self) -> DaemonSessionView {
        DaemonSessionView {
            next_id: self.next_id,
            version: self.version.deep_view(),
            state: self.app_state@,
        }
    }
}

impl DaemonSession {
    /// The internal invariant.
    pub closed spec fn wf(&self) -> bool {
        self.app_state.wf()
    }

    /// A session before the handshake: requests are numbered from 1.
    pub fn new() -> (r: Self)
        ensures
            r.wf(),
            r@.next_id == 1,
            r@.version is None,
            r@.state.devices == Map::<Seq<char>, crate::state::DeviceEntryView>::empty(),
            r@.state.apps == Map::<Seq<char>, crate::state::AppEntryView>::empty(),
    {
        DaemonSession { next_id: 1, version: None, app_state: AppState::new() }
    }

    /// The device and application state.
    pub fn app_state(&self) -> (r: &AppState)
        requires
            self.wf(),
        ensures
            r.wf(),
            r@ == self@.state,
    {
        &self.app_state
    }

    /// Numbers the request for `command` and encodes it; returns the number
    /// and the JSON line to send.
    pub fn encode_request(&mut self, command: DaemonCommand) -> (r: (u64, Json))
        requires
            old(self).wf(),
        ensures
            final(self).wf(),
            r.0 == old(self)@.next_id,
            r.1@ == request_json(r.0, command@.method, command@.params),
            final(self)@ == (DaemonSessionView {
                next_id: next_request_id(old(self)@.next_id),
                ..old(self)@
            }),
    {
        let id = self.next_id;
        self.next_id = if id == u64::MAX {
            0
        } else {
            id + 1
        };
        let DaemonCommand { method, params } = command;
        let body = object3(
            "id",
            Json::Number(JsonNumber::PosInt(id)),
            "method",
            Json::Str(method),
            "params",
            params,
        );
        let items: Vec<Json> = vec![body];
        proof {
            crate::json::lemma_models_of(items@);
            assert(models_of(items@) =~= seq![items@[0]@]);
        }
        (id, Json::Array(items))
    }

    /// Records the protocol version the daemon answered the handshake with.
    pub fn record_version(&mut self, result: &Json)
        requires
            old(self).wf(),
        ensures
            final(self).wf(),
            final(self)@ == (DaemonSessionView { version: result@.as_str(), ..old(self)@ }),
    {
        self.version = match result.as_str() {
            Some(v) => Some(v.clone()),
            None => None,
        };
    }

    /// Applies an event notification to the state.
    pub fn handle_event(&mut self, msg: &Json)
        requires
            old(self).wf(),
        ensures
            final(self).wf(),
            final(self)@ == (DaemonSessionView {
                state: event_effect(old(self)@.state, msg@),
                ..old(self)@
            }),
    {
        let name: String = match msg.str_member("event") {
            Some(n) => n,
            None => "unknown".to_owned(),
        };
        if str_eq(name.as_str(), "device.added") {
            match msg.get("params") {
                Some(p) => {
                    let device = DeviceEntry::from_daemon(p.duplicate());
                    self.app_state.add_device(device);
                },
                None => {},
            }
        } else if str_eq(name.as_str(), "device.removed") {
            match msg.get("params") {
                Some(p) => match p.str_member("id") {
                    Some(id) => self.app_state.remove_device(id.as_str()),
                    None => {},
                },
                None => {},
            }
        }
    }

    /// Handles one message read while waiting for the answer to request
    /// `target_id`: the answer yields its `result` (`null` when absent);
    /// any other message yields nothing, and an event is applied first.
    pub fn receive(&mut self, target_id: u64, msg: Json) -> (r: Option<Json>)
        requires
            old(self).wf(),
        ensures
            final(self).wf(),
            message_id(msg@) == Some(target_id) ==> (r matches Some(v) && v@ == message_result(
                msg@,
            )) && final(self)@ == old(self)@,
            message_id(msg@) != Some(target_id) ==> r is None && final(self)@ == (if is_event(msg@) {
                DaemonSessionView { state: event_effect(old(self)@.state, msg@), ..old(self)@ }
            } else {
                old(self)@
            }),
    {
        let id = match msg.get("id") {
            Some(v) => v.as_u64(),
            None => None,
        };
        if id == Some(target_id) {
            return match msg.get("result") {
                Some(v) => Some(v.duplicate()),
                None => Some(Json::Null),
            };
        }
        if msg.get("event").is_some() {
            self.handle_event(&msg);
        }
        None
    }

    /// The JSON descriptions of the reported devices, one per id.
    pub fn get_devices(&self) -> (r: Vec<Json>)
        requires
            self.wf(),
        ensures
            r@.len() == self@.state.devices.len(),
            forall|i: int|
                0 <= i < r@.len() ==> describes_device_of(self@.state.devices, #[trigger] r@[i]@),
            forall|i: int, j: int| 0 <= i < j < r@.len() ==> r@[i]@ != r@[j]@,
    {
        self.app_state.get_devices_json()
    }
}

} // verus!
