//! The Dart analysis server: how it is started and configured.
use vstd::prelude::*;

use vstd::utf8::encode_utf8;

use crate::editor::{CodeLabel, CodeLabelSpan, Command, Completion, Range};
use crate::json::{Json, JsonModel, object, JsonNumber, NumberModel, entry_models_of, lemma_entry_models_of};

verus! {

/// The command that starts the analysis server: `dart` when it is on the
/// path, else the `dart` bundled with `flutter`; an error when neither is.
pub fn language_server_command(dart_path: Option<String>, flutter_path: Option<String>) -> (r:
    Result<Command, String>)
    ensures
        match (dart_path, flutter_path) {
            (Some(d), _) => r matches Ok(c) && c.command@ == d@ && c.args@.len() == 2
                && c.args@[0]@ == "language-server"@ && c.args@[1]@ == "--protocol=lsp"@
                && c.env@.len() == 0,
            (None, Some(f)) => r matches Ok(c) && c.command@ == f@ && c.args@.len() == 3
                && c.args@[0]@ == "dart"@ && c.args@[1]@ == "language-server"@ && c.args@[2]@
                == "--protocol=lsp"@ && c.env@.len() == 0,
            (None, None) => r matches Err(e) && e@
                == "未找到 dart 或 flutter 命令。请确保已安装 Dart SDK 或 Flutter SDK。"@,
        },
{
    match dart_path {
        Some(d) => {
            let args: Vec<String> = vec!["language-server".to_owned(), "--protocol=lsp".to_owned()];
            Ok(Command { command: d, args, env: Vec::new() })
        },
        None => match flutter_path {
            Some(f) => {
                let args: Vec<String> = vec![
                    "dart".to_owned(),
                    "language-server".to_owned(),
                    "--protocol=lsp".to_owned(),
                ];
                Ok(Command { command: f, args, env: Vec::new() })
            },
            None => Err(
                "未找到 dart 或 flutter 命令。请确保已安装 Dart SDK 或 Flutter SDK。".to_owned(),
            ),
        },
    }
}

/// The analysis server's initialization options.
pub open spec fn initialization_options_json() -> JsonModel {
    object(
        seq![
            ("suggestFromUnimportedLibraries"@, JsonModel::Bool(true)),
            ("closingLabels"@, JsonModel::Bool(true)),
            ("outline"@, JsonModel::Bool(true)),
            ("flutterOutline"@, JsonModel::Bool(true)),
            ("onlyAnalyzeProjectsWithOpenFiles"@, JsonModel::Bool(false)),
        ],
    )
}

/// The analysis server's initialization options.
pub fn initialization_options() -> (r: Result<Option<Json>, String>)
    ensures
        r matches Ok(Some(j)) && j@ == initialization_options_json(),
{
    let entries: Vec<(String, Json)> = vec![
        ("suggestFromUnimportedLibraries".to_owned(), Json::Bool(true)),
        ("closingLabels".to_owned(), Json::Bool(true)),
        ("outline".to_owned(), Json::Bool(true)),
        ("flutterOutline".to_owned(), Json::Bool(true)),
        ("onlyAnalyzeProjectsWithOpenFiles".to_owned(), Json::Bool(false)),
    ];
    proof {
        lemma_entry_models_of(entries@);
        assert(entry_models_of(entries@) =~= initialization_options_json()->Object_0);
    }
    Ok(Some(Json::Object(entries)))
}

/// The analysis server's workspace settings: lines of 80 columns, no
/// completion of call arguments, TODOs shown.
pub open spec fn workspace_configuration_json() -> JsonModel {
    object(
        seq![
            (
                "dart"@,
                object(
                    seq![
                        ("lineLength"@, JsonModel::Number(NumberModel::PosInt(80))),
                        ("completeFunctionCalls"@, JsonModel::Bool(false)),
                        ("showTodos"@, JsonModel::Bool(true)),
                    ],
                ),
            ),
        ],
    )
}

/// The analysis server's workspace settings.
pub fn workspace_configuration() -> (r: Result<Option<Json>, String>)
    ensures
        r matches Ok(Some(j)) && j@ == workspace_configuration_json(),
{
    let inner: Vec<(String, Json)> = vec![
        ("lineLength".to_owned(), Json::Number(JsonNumber::PosInt(80))),
        ("completeFunctionCalls".to_owned(), Json::Bool(false)),
        ("showTodos".to_owned(), Json::Bool(true)),
    ];
    proof {
        lemma_entry_models_of(inner@);
        assert(entry_models_of(inner@) =~= workspace_configuration_json()->Object_0[0].1->Object_0);
    }
    let outer: Vec<(String, Json)> = vec![("dart".to_owned(), Json::Object(inner))];
    proof {
        lemma_entry_models_of(outer@);
        assert(entry_models_of(outer@) =~= workspace_configuration_json()->Object_0);
    }
    Ok(Some(Json::Object(outer)))
}

/// The label shown for a completion: its `detail` (usually the return
/// type), as one unhighlighted literal span, all of it matched against the
/// typed text. Completions without a detail keep the editor's default
/// label.
pub fn label_for_completion(completion: Completion) -> (r: Option<CodeLabel>)
    ensures
        match completion.detail {
            None => r is None,
            Some(detail) => r matches Some(l) && l.code@ == detail@ && l.spans@.len() == 1 && (
            l.spans@[0] matches CodeLabelSpan::Literal { text, highlight_name } && text@ == detail@
                && highlight_name is None) && l.filter_range == (Range {
                start: 0,
                end: (encode_utf8(detail@).len() as usize) as u32,
            }),
        },
{
    match completion.detail {
        None => None,
        Some(detail) => {
            let label_len = detail.as_str().len() as u32;
            let spans: Vec<CodeLabelSpan> = vec![
                CodeLabelSpan::Literal { text: detail.clone(), highlight_name: None },
            ];
            Some(CodeLabel { code: detail, spans, filter_range: Range { start: 0, end: label_len } })
        },
    }
}

} // verus!
