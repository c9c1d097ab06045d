use zed_flutter::json::{Json, JsonNumber};
use zed_flutter::state::{AppEntry, AppState, DeviceEntry};

fn s(t: &str) -> String {
    t.to_string()
}

fn obj(members: Vec<(&str, Json)>) -> Json {
    Json::Object(members.into_iter().map(|(k, v)| (s(k), v)).collect())
}

fn device(id: &str, name: &str) -> DeviceEntry {
    DeviceEntry {
        id: s(id),
        name: s(name),
        platform: s("android"),
        platform_type: s("android"),
        category: Some(s("mobile")),
        ephemeral: true,
        emulator: false,
        emulator_id: None,
        sdk: Some(s("Android 14")),
    }
}

fn app(id: &str) -> AppEntry {
    AppEntry {
        app_id: s(id),
        device_id: s("emulator-5554"),
        project_directory: s("/work/demo"),
        mode: s("debug"),
        ws_uri: None,
        dtd_uri: None,
        started_at: std::time::Instant::now(),
    }
}

#[test]
fn from_daemon_reads_all_fields() {
    let params = obj(vec![
        ("id", Json::Str(s("emulator-5554"))),
        ("name", Json::Str(s("sdk gphone64"))),
        ("platform", Json::Str(s("android-x64"))),
        ("platformType", Json::Str(s("android"))),
        ("category", Json::Str(s("mobile"))),
        ("ephemeral", Json::Bool(true)),
        ("emulator", Json::Bool(true)),
        ("emulatorId", Json::Str(s("Pixel_7"))),
        ("sdk", Json::Str(s("Android 14 (API 34)"))),
    ]);
    let d = DeviceEntry::from_daemon(params);
    assert_eq!(d.id, "emulator-5554");
    assert_eq!(d.name, "sdk gphone64");
    assert_eq!(d.platform, "android-x64");
    assert_eq!(d.platform_type, "android");
    assert_eq!(d.category.as_deref(), Some("mobile"));
    assert!(d.ephemeral);
    assert!(d.emulator);
    assert_eq!(d.emulator_id.as_deref(), Some("Pixel_7"));
    assert_eq!(d.sdk.as_deref(), Some("Android 14 (API 34)"));
}

#[test]
fn from_daemon_uses_defaults() {
    let d = DeviceEntry::from_daemon(obj(vec![("platform", Json::Number(JsonNumber::PosInt(3)))]));
    assert_eq!(d.id, "");
    assert_eq!(d.name, "Unknown");
    assert_eq!(d.platform, "unknown");
    assert_eq!(d.platform_type, "unknown");
    assert_eq!(d.category, None);
    assert!(!d.ephemeral);
    assert!(!d.emulator);
    assert_eq!(d.emulator_id, None);
    assert_eq!(d.sdk, None);
}

#[test]
fn from_daemon_of_non_object_is_all_defaults() {
    let d = DeviceEntry::from_daemon(Json::Null);
    assert_eq!(d.id, "");
    assert_eq!(d.name, "Unknown");
}

#[test]
fn to_json_lists_members_in_order() {
    let j = device("d1", "Pixel").to_json();
    let expected = obj(vec![
        ("id", Json::Str(s("d1"))),
        ("name", Json::Str(s("Pixel"))),
        ("platform", Json::Str(s("android"))),
        ("platformType", Json::Str(s("android"))),
        ("category", Json::Str(s("mobile"))),
        ("ephemeral", Json::Bool(true)),
        ("emulator", Json::Bool(false)),
        ("emulatorId", Json::Null),
        ("sdk", Json::Str(s("Android 14"))),
    ]);
    assert_eq!(j, expected);
}

#[test]
fn device_json_round_trip() {
    let d = device("d1", "Pixel");
    let back = DeviceEntry::from_daemon(d.to_json());
    assert_eq!(back.id, d.id);
    assert_eq!(back.name, d.name);
    assert_eq!(back.platform, d.platform);
    assert_eq!(back.platform_type, d.platform_type);
    assert_eq!(back.category, d.category);
    assert_eq!(back.ephemeral, d.ephemeral);
    assert_eq!(back.emulator, d.emulator);
    assert_eq!(back.emulator_id, d.emulator_id);
    assert_eq!(back.sdk, d.sdk);
}

#[test]
fn state_starts_empty() {
    let st = AppState::new();
    assert_eq!(st.device_count(), 0);
    assert!(st.get_devices().is_empty());
    assert!(st.get_apps().is_empty());
    assert!(!st.has_running_apps());
}

#[test]
fn add_device_replaces_same_id() {
    let mut st = AppState::new();
    st.add_device(device("a", "first"));
    st.add_device(device("b", "second"));
    st.add_device(device("a", "renamed"));
    assert_eq!(st.device_count(), 2);
    let devices = st.get_devices();
    assert_eq!(devices.len(), 2);
    let a = devices.iter().find(|d| d.id == "a").unwrap();
    assert_eq!(a.name, "renamed");
    assert!(devices.iter().any(|d| d.id == "b"));
}

#[test]
fn remove_device_forgets_only_that_id() {
    let mut st = AppState::new();
    st.add_device(device("a", "first"));
    st.add_device(device("b", "second"));
    st.remove_device("a");
    st.remove_device("missing");
    let devices = st.get_devices();
    assert_eq!(devices.len(), 1);
    assert_eq!(devices[0].id, "b");
    assert_eq!(st.device_count(), 1);
}

#[test]
fn remove_undoes_add_of_new_device() {
    let mut st = AppState::new();
    st.add_device(device("a", "first"));
    st.add_device(device("b", "second"));
    st.remove_device("b");
    let devices = st.get_devices();
    assert_eq!(devices.len(), 1);
    assert_eq!(devices[0].id, "a");
    assert_eq!(devices[0].name, "first");
}

#[test]
fn adding_twice_counts_once() {
    let mut st = AppState::new();
    st.add_device(device("a", "first"));
    st.add_device(device("a", "first"));
    assert_eq!(st.device_count(), 1);
}

#[test]
fn get_devices_json_describes_each_device() {
    let mut st = AppState::new();
    st.add_device(device("a", "first"));
    st.add_device(device("b", "second"));
    let js = st.get_devices_json();
    assert_eq!(js.len(), 2);
    assert!(js.contains(&device("a", "first").to_json()));
    assert!(js.contains(&device("b", "second").to_json()));
}

#[test]
fn apps_are_tracked_by_id() {
    let mut st = AppState::new();
    st.add_app(app("app-1"));
    assert!(st.has_running_apps());
    st.add_app(app("app-2"));
    st.add_app(app("app-1"));
    assert_eq!(st.get_apps().len(), 2);
    st.remove_app("app-1");
    let apps = st.get_apps();
    assert_eq!(apps.len(), 1);
    assert_eq!(apps[0].app_id, "app-2");
    st.remove_app("app-2");
    assert!(!st.has_running_apps());
}
