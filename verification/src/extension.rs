//! The editor extension's dispatch over the language servers it provides.
use vstd::prelude::*;

use crate::json::Json;
use crate::text::str_eq;

verus! {

/// The language servers the extension provides.
#[derive(Debug, Clone, Copy, PartialEq, Eq, Structural)]
pub enum LanguageServer {
    /// The Dart analysis server, id `dart`.
    Dart,
    /// The bridge server, id `flutter-bridge`.
    FlutterBridge,
}

/// The language server an id names.
pub open spec fn language_server_of(id: Seq<char>) -> Option<LanguageServer> {
    if id == "dart"@ {
        Some(LanguageServer::Dart)
    } else if id == "flutter-bridge"@ {
        Some(LanguageServer::FlutterBridge)
    } else {
        None
    }
}

/// The language server `id` names, if the extension provides it.
pub fn language_server(id: &str) -> (r: Option<LanguageServer>)
    ensures
        r == language_server_of(id@),
{
    if str_eq(id, "dart") {
        Some(LanguageServer::Dart)
    } else if str_eq(id, "flutter-bridge") {
        Some(LanguageServer::FlutterBridge)
    } else {
        None
    }
}

/// The error for a language server the extension does not provide.
pub fn unknown_language_server(id: &str) -> (r: String)
    ensures
        r@ == "未知的语言服务器 ID: "@ + id@,
{
    let mut e: String = "未知的语言服务器 ID: ".to_owned();
    e.append(id);
    e
}

/// The initialization options of language server `id`; none for an id the
/// extension does not provide.
pub fn language_server_initialization_options(id: &str) -> (r: Result<Option<Json>, String>)
    ensures
        match language_server_of(id@) {
            Some(LanguageServer::Dart) => r matches Ok(Some(j)) && j@
                == crate::dart_lsp::initialization_options_json(),
            Some(LanguageServer::FlutterBridge) => r matches Ok(Some(j)) && j@
                == crate::flutter_bridge::initialization_options_json(),
            None => r matches Ok(None),
        },
{
    match language_server(id) {
        Some(LanguageServer::Dart) => crate::dart_lsp::initialization_options(),
        Some(LanguageServer::FlutterBridge) => crate::flutter_bridge::initialization_options(),
        None => Ok(None),
    }
}

/// The workspace settings of language server `id`: the Dart settings for
/// the analysis server, none otherwise.
pub fn language_server_workspace_configuration(id: &str) -> (r: Result<Option<Json>, String>)
    ensures
        language_server_of(id@) == Some(LanguageServer::Dart) ==> (r matches Ok(Some(j)) && j@
            == crate::dart_lsp::workspace_configuration_json()),
        language_server_of(id@) != Some(LanguageServer::Dart) ==> r matches Ok(None),
{
    match language_server(id) {
        Some(LanguageServer::Dart) => crate::dart_lsp::workspace_configuration(),
        _ => Ok(None),
    }
}

} // verus!
