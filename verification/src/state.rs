//! The bridge server's state: the devices the Flutter daemon reports and the
//! applications running on them.
use vstd::prelude::*;

use crate::json::{Json, JsonModel, lemma_entry_models_of, lemma_lookup_at};
use crate::registry::{Keyed, Registry};

verus! {

/// Declares `std::time::Instant` (the clock reading taken when an
/// application started) as an opaque type: values are carried through
/// unchanged and nothing is claimed about what they hold.
#[verifier::external_type_specification]
#[verifier::external_body]
pub struct ExInstant(std::time::Instant);

/// A device reported by the Flutter daemon.
#[derive(Debug)]
pub struct DeviceEntry {
    pub id: String,
    pub name: String,
    pub platform: String,
    pub platform_type: String,
    pub category: Option<String>,
    pub ephemeral: bool,
    pub emulator: bool,
    pub emulator_id: Option<String>,
    pub sdk: Option<String>,
}

/// Model of a device entry.
pub struct DeviceEntryView {
    pub id: Seq<char>,
    pub name: Seq<char>,
    pub platform: Seq<char>,
    pub platform_type: Seq<char>,
    pub category: Option<Seq<char>>,
    pub ephemeral: bool,
    pub emulator: bool,
    pub emulator_id: Option<Seq<char>>,
    pub sdk: Option<Seq<char>>,
}

impl View for DeviceEntry {
    type V = DeviceEntryView;

    open spec fn view(&self) -> DeviceEntryView {
        DeviceEntryView {
            id: self.id@,
            name: self.name@,
            platform: self.platform@,
            platform_type: self.platform_type@,
            category: self.category.deep_view(),
            ephemeral: self.ephemeral,
            emulator: self.emulator,
            emulator_id: self.emulator_id.deep_view(),
            sdk: self.sdk.deep_view(),
        }
    }
}

/// An application started on a device.
#[derive(Debug)]
pub struct AppEntry {
    pub app_id: String,
    pub device_id: String,
    pub project_directory: String,
    pub mode: String,
    pub ws_uri: Option<String>,
    pub dtd_uri: Option<String>,
    pub started_at: std::time::Instant,
}

/// Model of an application entry.
pub struct AppEntryView {
    pub app_id: Seq<char>,
    pub device_id: Seq<char>,
    pub project_directory: Seq<char>,
    pub mode: Seq<char>,
    pub ws_uri: Option<Seq<char>>,
    pub dtd_uri: Option<Seq<char>>,
    pub started_at: std::time::Instant,
}

impl View for AppEntry {
    type V = AppEntryView;

    open spec fn view(&self) -> AppEntryView {
        AppEntryView {
            app_id: self.app_id@,
            device_id: self.device_id@,
            project_directory: self.project_directory@,
            mode: self.mode@,
            ws_uri: self.ws_uri.deep_view(),
            dtd_uri: self.dtd_uri.deep_view(),
            started_at: self.started_at,
        }
    }
}

fn copy_opt(o: &Option<String>) -> (r: Option<String>)
    ensures
        r.deep_view() == o.deep_view(),
{
    match o {
        Some(s) => Some(s.clone()),
        None => None,
    }
}

impl Keyed for DeviceEntry {
    open spec fn view_key(v: DeviceEntryView) -> Seq<char> {
        v.id
    }

    fn key(&self) -> (r: &String) {
        &self.id
    }

    fn duplicate(&self) -> (r: Self) {
        DeviceEntry {
            id: self.id.clone(),
            name: self.name.clone(),
            platform: self.platform.clone(),
            platform_type: self.platform_type.clone(),
            category: copy_opt(&self.category),
            ephemeral: self.ephemeral,
            emulator: self.emulator,
            emulator_id: copy_opt(&self.emulator_id),
            sdk: copy_opt(&self.sdk),
        }
    }
}

impl Keyed for AppEntry {
    open spec fn view_key(v: AppEntryView) -> Seq<char> {
        v.app_id
    }

    fn key(&self) -> (r: &String) {
        &self.app_id
    }

    fn duplicate(&self) -> (r: Self) {
        AppEntry {
            app_id: self.app_id.clone(),
            device_id: self.device_id.clone(),
            project_directory: self.project_directory.clone(),
            mode: self.mode.clone(),
            ws_uri: copy_opt(&self.ws_uri),
            dtd_uri: copy_opt(&self.dtd_uri),
            started_at: self.started_at,
        }
    }
}


/// `o`'s string, or `d` when there is none.
pub open spec fn str_or(o: Option<Seq<char>>, d: Seq<char>) -> Seq<char> {
    match o {
        Some(t) => t,
        None => d,
    }
}

/// `o`'s boolean, or `d` when there is none.
pub open spec fn bool_or(o: Option<bool>, d: bool) -> bool {
    match o {
        Some(b) => b,
        None => d,
    }
}

/// The JSON value of an optional string: the string, or `null`.
pub open spec fn opt_str_json(o: Option<Seq<char>>) -> JsonModel {
    match o {
        Some(t) => JsonModel::Str(t),
        None => JsonModel::Null,
    }
}

/// The device described by a daemon `device.added` payload: missing or
/// mistyped members fall back to defaults.
pub open spec fn device_from_json(params: JsonModel) -> DeviceEntryView {
    DeviceEntryView {
        id: str_or(params.str_member("id"@), ""@),
        name: str_or(params.str_member("name"@), "Unknown"@),
        platform: str_or(params.str_member("platform"@), "unknown"@),
        platform_type: str_or(params.str_member("platformType"@), "unknown"@),
        category: params.str_member("category"@),
        ephemeral: bool_or(params.bool_member("ephemeral"@), false),
        emulator: bool_or(params.bool_member("emulator"@), false),
        emulator_id: params.str_member("emulatorId"@),
        sdk: params.str_member("sdk"@),
    }
}

/// The JSON object that describes a device to the editor.
pub open spec fn device_json(d: DeviceEntryView) -> JsonModel {
    JsonModel::Object(
        seq![
            ("id"@, JsonModel::Str(d.id)),
            ("name"@, JsonModel::Str(d.name)),
            ("platform"@, JsonModel::Str(d.platform)),
            ("platformType"@, JsonModel::Str(d.platform_type)),
            ("category"@, opt_str_json(d.category)),
            ("ephemeral"@, JsonModel::Bool(d.ephemeral)),
            ("emulator"@, JsonModel::Bool(d.emulator)),
            ("emulatorId"@, opt_str_json(d.emulator_id)),
            ("sdk"@, opt_str_json(d.sdk)),
        ],
    )
}

/// Reading back the JSON description of a device gives the same device.
pub proof fn lemma_device_json_round_trip(d: DeviceEntryView)
    ensures
        device_from_json(device_json(d)) == d,
{
    reveal_strlit("id");
    reveal_strlit("name");
    reveal_strlit("platform");
    reveal_strlit("platformType");
    reveal_strlit("category");
    reveal_strlit("ephemeral");
    reveal_strlit("emulator");
    reveal_strlit("emulatorId");
    reveal_strlit("sdk");
    assert("id"@.len() == 2 && "name"@.len() == 4 && "sdk"@.len() == 3);
    assert("platform"@.len() == 8 && "category"@.len() == 8 && "emulator"@.len() == 8);
    assert("ephemeral"@.len() == 9 && "emulatorId"@.len() == 10 && "platformType"@.len() == 12);
    assert("platform"@[0] == 'p' && "category"@[0] == 'c' && "emulator"@[0] == 'e');
    let es = device_json(d)->Object_0;
    lemma_lookup_at(es, "id"@, 0);
    lemma_lookup_at(es, "name"@, 1);
    lemma_lookup_at(es, "platform"@, 2);
    lemma_lookup_at(es, "platformType"@, 3);
    lemma_lookup_at(es, "category"@, 4);
    lemma_lookup_at(es, "ephemeral"@, 5);
    lemma_lookup_at(es, "emulator"@, 6);
    lemma_lookup_at(es, "emulatorId"@, 7);
    lemma_lookup_at(es, "sdk"@, 8);
}

/// Whether `listed` holds each device of `devices` exactly once, as
/// `get_devices` returns them.
pub open spec fn lists_devices(devices: Map<Seq<char>, DeviceEntryView>, listed: Seq<DeviceEntryView>) -> bool {
    &&& listed.len() == devices.len()
    &&& forall|i: int|
        0 <= i < listed.len() ==> #[trigger] devices.contains_key(listed[i].id) && devices[listed[i].id]
            == listed[i]
    &&& forall|i: int, j: int| 0 <= i < j < listed.len() ==> listed[i].id != listed[j].id
}

/// Every recorded device appears in a listing of the devices; in
/// particular a device just recorded with `add_device` is listed by
/// `get_devices`.
pub proof fn lemma_every_device_listed(
    devices: Map<Seq<char>, DeviceEntryView>,
    listed: Seq<DeviceEntryView>,
    k: Seq<char>,
)
    requires
        devices.dom().finite(),
        lists_devices(devices, listed),
        devices.contains_key(k),
    ensures
        exists|i: int| 0 <= i < listed.len() && #[trigger] listed[i] == devices[k],
{
    let ids = listed.map_values(|d: DeviceEntryView| d.id);
    assert forall|a: int, b: int| 0 <= a < b < ids.len() implies ids[a] != ids[b] by {
        assert(listed[a].id != listed[b].id);
    }
    assert(ids.no_duplicates());
    ids.unique_seq_to_set();
    if !ids.contains(k) {
        let rest = devices.dom().remove(k);
        assert forall|x: Seq<char>| ids.to_set().contains(x) implies rest.contains(x) by {
            let i = choose|i: int| 0 <= i < ids.len() && ids[i] == x;
            assert(devices.contains_key(listed[i].id));
        }
        vstd::set_lib::lemma_len_subset(ids.to_set(), rest);
        assert(false);
    }
    let i = choose|i: int| 0 <= i < ids.len() && ids[i] == k;
    assert(devices.contains_key(listed[i].id));
}

/// Recording a device under an id not seen before and then forgetting
/// that id leaves the devices as they were.
pub proof fn lemma_remove_undoes_add_device(before: AppStateView, d: DeviceEntryView)
    requires
        !before.devices.contains_key(d.id),
    ensures
        before.devices.insert(d.id, d).remove(d.id) == before.devices,
{
    assert(before.devices.insert(d.id, d).remove(d.id) =~= before.devices);
}

/// Recording a device adds one to the count when its id is new, and
/// leaves the count alone when it replaces a device with the same id.
pub proof fn lemma_device_count_after_add(before: AppStateView, d: DeviceEntryView)
    requires
        before.devices.dom().finite(),
    ensures
        before.devices.insert(d.id, d).len() == if before.devices.contains_key(d.id) {
            before.devices.len()
        } else {
            before.devices.len() + 1
        },
{
    if before.devices.contains_key(d.id) {
        assert(before.devices.insert(d.id, d).dom() =~= before.devices.dom());
    }
}

/// Recording the same device twice is the same as recording it once.
pub proof fn lemma_add_device_idempotent(before: AppStateView, d: DeviceEntryView)
    ensures
        before.devices.insert(d.id, d).insert(d.id, d) == before.devices.insert(d.id, d),
{
    assert(before.devices.insert(d.id, d).insert(d.id, d) =~= before.devices.insert(d.id, d));
}

fn string_or(o: Option<String>, d: &str) -> (r: String)
    ensures
        r@ == str_or(o.deep_view(), d@),
{
    match o {
        Some(t) => t,
        None => d.to_owned(),
    }
}

fn opt_json(o: &Option<String>) -> (r: Json)
    ensures
        r@ == opt_str_json(o.deep_view()),
{
    match o {
        Some(t) => Json::Str(t.clone()),
        None => Json::Null,
    }
}

impl DeviceEntry {
    /// The device described by a daemon payload.
    pub fn from_daemon(params: Json) -> (r: Self)
        ensures
            r@ == device_from_json(params@),
    {
        let ephemeral = match params.bool_member("ephemeral") {
            Some(b) => b,
            None => false,
        };
        let emulator = match params.bool_member("emulator") {
            Some(b) => b,
            None => false,
        };
        DeviceEntry {
            id: string_or(params.str_member("id"), ""),
            name: string_or(params.str_member("name"), "Unknown"),
            platform: string_or(params.str_member("platform"), "unknown"),
            platform_type: string_or(params.str_member("platformType"), "unknown"),
            category: params.str_member("category"),
            ephemeral,
            emulator,
            emulator_id: params.str_member("emulatorId"),
            sdk: params.str_member("sdk"),
        }
    }

    /// The JSON description of this device.
    pub fn to_json(&self) -> (r: Json)
        ensures
            r@ == device_json(self@),
    {
        let entries: Vec<(String, Json)> = vec![
            ("id".to_owned(), Json::Str(self.id.clone())),
            ("name".to_owned(), Json::Str(self.name.clone())),
            ("platform".to_owned(), Json::Str(self.platform.clone())),
            ("platformType".to_owned(), Json::Str(self.platform_type.clone())),
            ("category".to_owned(), opt_json(&self.category)),
            ("ephemeral".to_owned(), Json::Bool(self.ephemeral)),
            ("emulator".to_owned(), Json::Bool(self.emulator)),
            ("emulatorId".to_owned(), opt_json(&self.emulator_id)),
            ("sdk".to_owned(), opt_json(&self.sdk)),
        ];
        proof {
            lemma_entry_models_of(entries@);
            assert(crate::json::entry_models_of(entries@) =~= device_json(self@)->Object_0);
        }
        Json::Object(entries)
    }
}

/// Whether `j` is the JSON description of one of `devices`.
pub open spec fn describes_device_of(devices: Map<Seq<char>, DeviceEntryView>, j: JsonModel) -> bool {
    exists|k: Seq<char>| #[trigger] devices.contains_key(k) && j == device_json(devices[k])
}

/// The registry of devices and applications.
pub struct AppState {
    devices: Registry<DeviceEntry>,
    apps: Registry<AppEntry>,
}

/// Model of the state: devices by id and applications by id.
pub struct AppStateView {
    pub devices: Map<Seq<char>, DeviceEntryView>,
    pub apps: Map<Seq<char>, AppEntryView>,
}

impl View for AppState {
    type V = AppStateView;

    closed spec fn view(&self) -> AppStateView {
        AppStateView { devices: self.devices@, apps: self.apps@ }
    }
}

impl AppState {
    /// The internal invariant of both registries.
    pub closed spec fn wf(&self) -> bool {
        self.devices.wf() && self.apps.wf()
    }

    /// Each device is stored under its id and each application under its
    /// id, and there are finitely many of both.
    pub proof fn lemma_keys(&self)
        requires
            self.wf(),
        ensures
            self@.devices.dom().finite(),
            self@.apps.dom().finite(),
            forall|k: Seq<char>| #[trigger] self@.devices.contains_key(k) ==> self@.devices[k].id == k,
            forall|k: Seq<char>| #[trigger] self@.apps.contains_key(k) ==> self@.apps[k].app_id == k,
    {
        self.devices.lemma_wf();
        self.apps.lemma_wf();
    }

    /// An empty state.
    pub fn new() -> (r: Self)
        ensures
            r.wf(),
            r@.devices == Map::<Seq<char>, DeviceEntryView>::empty(),
            r@.apps == Map::<Seq<char>, AppEntryView>::empty(),
    {
        AppState { devices: Registry::new(), apps: Registry::new() }
    }

    /// Records `device`, replacing any device with the same id.
    pub fn add_device(&mut self, device: DeviceEntry)
        requires
            old(self).wf(),
        ensures
            final(self).wf(),
            final(self)@.devices == old(self)@.devices.insert(device@.id, device@),
            final(self)@.apps == old(self)@.apps,
    {
        self.devices.insert(device);
    }

    /// Forgets the device with id `device_id`, if any.
    pub fn remove_device(&mut self, device_id: &str)
        requires
            old(self).wf(),
        ensures
            final(self).wf(),
            final(self)@.devices == old(self)@.devices.remove(device_id@),
            final(self)@.apps == old(self)@.apps,
    {
        self.devices.remove(device_id);
    }

    /// All devices, one per id, in some order.
    pub fn get_devices(&self) -> (r: Vec<DeviceEntry>)
        requires
            self.wf(),
        ensures
            lists_devices(self@.devices, r@.map_values(|d: DeviceEntry| d@)),
    {
        let r = self.devices.values();
        proof {
            let listed = r@.map_values(|d: DeviceEntry| d@);
            assert forall|i: int| 0 <= i < listed.len() implies #[trigger] self@.devices.contains_key(
                listed[i].id,
            ) && self@.devices[listed[i].id] == listed[i] by {
                assert(listed[i] == r@[i]@);
            }
            assert forall|i: int, j: int| 0 <= i < j < listed.len() implies listed[i].id
                != listed[j].id by {
                assert(listed[i] == r@[i]@);
                assert(listed[j] == r@[j]@);
            }
        }
        r
    }

    /// The JSON descriptions of all devices, one per id, in some order.
    pub fn get_devices_json(&self) -> (r: Vec<Json>)
        requires
            self.wf(),
        ensures
            r@.len() == self@.devices.len(),
            forall|i: int|
                0 <= i < r@.len() ==> describes_device_of(self@.devices, #[trigger] r@[i]@),
            forall|i: int, j: int| 0 <= i < j < r@.len() ==> r@[i]@ != r@[j]@,
    {
        let devices = self.devices.values();
        let mut out: Vec<Json> = Vec::new();
        let mut i: usize = 0;
        while i < devices.len()
            invariant
                i <= devices@.len(),
                out@.len() == i,
                forall|j: int| 0 <= j < i ==> (#[trigger] out@[j])@ == device_json(devices@[j]@),
            decreases devices.len() - i,
        {
            let j = devices[i].to_json();
            out.push(j);
            i = i + 1;
        }
        proof {
            assert forall|a: int| 0 <= a < out@.len() implies describes_device_of(
                self@.devices,
                #[trigger] out@[a]@,
            ) by {
                let k = devices@[a].id@;
                assert(self@.devices.contains_key(k));
            }
            assert forall|a: int, b: int| 0 <= a < b < out@.len() implies out@[a]@ != out@[b]@ by {
                if out@[a]@ == out@[b]@ {
                    let ea = device_json(devices@[a]@)->Object_0;
                    let eb = device_json(devices@[b]@)->Object_0;
                    assert(ea[0] == eb[0]);
                }
            }
        }
        out
    }

    /// The number of devices.
    pub fn device_count(&self) -> (r: usize)
        requires
            self.wf(),
        ensures
            r == self@.devices.len(),
    {
        self.devices.len()
    }

    /// Records `app`, replacing any application with the same id.
    pub fn add_app(&mut self, app: AppEntry)
        requires
            old(self).wf(),
        ensures
            final(self).wf(),
            final(self)@.apps == old(self)@.apps.insert(app@.app_id, app@),
            final(self)@.devices == old(self)@.devices,
    {
        self.apps.insert(app);
    }

    /// Forgets the application with id `app_id`, if any.
    pub fn remove_app(&mut self, app_id: &str)
        requires
            old(self).wf(),
        ensures
            final(self).wf(),
            final(self)@.apps == old(self)@.apps.remove(app_id@),
            final(self)@.devices == old(self)@.devices,
    {
        self.apps.remove(app_id);
    }

    /// All applications, one per id, in some order.
    pub fn get_apps(&self) -> (r: Vec<AppEntry>)
        requires
            self.wf(),
        ensures
            r@.len() == self@.apps.len(),
            forall|i: int|
                #![trigger r@[i]]
                0 <= i < r@.len() ==> self@.apps.contains_key(r@[i].app_id@)
                    && self@.apps[r@[i].app_id@] == r@[i]@,
            forall|i: int, j: int| 0 <= i < j < r@.len() ==> r@[i].app_id@ != r@[j].app_id@,
    {
        self.apps.values()
    }

    /// Whether any application is recorded.
    pub fn has_running_apps(&self) -> (r: bool)
        requires
            self.wf(),
        ensures
            r == (self@.apps != Map::<Seq<char>, AppEntryView>::empty()),
    {
        !self.apps.is_empty()
    }
}

} // verus!
