//! The debug adapter: Flutter's own DAP implementation, always launching
//! `lib/main.dart` in debug mode.
use vstd::prelude::*;

use crate::editor::{DebugAdapterBinary, DebugRequest, DebugScenario};
use crate::json::{Json, JsonModel, object, entry_models_of, json_text, json_to_text, lemma_entry_models_of};

verus! {

/// The launch request handed to the adapter.
pub open spec fn launch_configuration_json() -> JsonModel {
    object(
        seq![
            ("request"@, JsonModel::Str("launch"@)),
            ("type"@, JsonModel::Str("dart"@)),
            ("program"@, JsonModel::Str("lib/main.dart"@)),
            ("flutterMode"@, JsonModel::Str("debug"@)),
        ],
    )
}

/// The launch request handed to the adapter.
pub fn launch_configuration() -> (r: Json)
    ensures
        r@ == launch_configuration_json(),
{
    let entries: Vec<(String, Json)> = vec![
        ("request".to_owned(), Json::Str("launch".to_owned())),
        ("type".to_owned(), Json::Str("dart".to_owned())),
        ("program".to_owned(), Json::Str("lib/main.dart".to_owned())),
        ("flutterMode".to_owned(), Json::Str("debug".to_owned())),
    ];
    proof {
        lemma_entry_models_of(entries@);
        assert(entry_models_of(entries@) =~= launch_configuration_json()->Object_0);
    }
    Json::Object(entries)
}

/// How to start the debug adapter: `flutter debug-adapter`, launching the
/// default configuration written as JSON text.
pub fn get_dap_binary() -> (r: Result<DebugAdapterBinary, String>)
    ensures
        r matches Ok(b) && b.command.deep_view() == Some("flutter"@) && b.arguments@.len() == 1
            && b.arguments@[0]@ == "debug-adapter"@ && b.envs@.len() == 0 && b.cwd is None
            && b.configuration@ == json_text(launch_configuration_json()) && b.request
            == DebugRequest::Launch,
{
    let arguments: Vec<String> = vec!["debug-adapter".to_owned()];
    Ok(
        DebugAdapterBinary {
            command: Some("flutter".to_owned()),
            arguments,
            envs: Vec::new(),
            cwd: None,
            configuration: json_to_text(&launch_configuration()),
            request: DebugRequest::Launch,
        },
    )
}

/// Debug sessions always launch the program.
pub fn dap_request_kind() -> (r: Result<DebugRequest, String>)
    ensures
        r == Ok::<DebugRequest, String>(DebugRequest::Launch),
{
    Ok(DebugRequest::Launch)
}

/// The scenario "Flutter Debug" of adapter `flutter`, with the default
/// configuration.
pub fn config_to_scenario() -> (r: Result<DebugScenario, String>)
    ensures
        r matches Ok(s) && s.label@ == "Flutter Debug"@ && s.adapter@ == "flutter"@ && s.config@
            == json_text(launch_configuration_json()),
{
    Ok(
        DebugScenario {
            label: "Flutter Debug".to_owned(),
            adapter: "flutter".to_owned(),
            config: json_to_text(&launch_configuration()),
        },
    )
}

} // verus!
