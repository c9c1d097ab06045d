//! Verified core of the Zed Flutter integration.
//!
//! Bridge server: `json` (the values it exchanges), `registry` and `state`
//! (devices and applications), `daemon` (the Flutter daemon protocol),
//! `bridge` (the editor's custom requests), `protocols` (shared records and
//! method names).
//!
//! Editor extension: `editor` (plain values exchanged with the editor),
//! `extension` (language server dispatch), `dart_lsp`, `flutter_bridge`,
//! `dap` and `slash_commands`.
//!
//! `text` holds the string utilities they share.

pub mod bridge;
pub mod daemon;
pub mod dap;
pub mod dart_lsp;
pub mod editor;
pub mod extension;
pub mod flutter_bridge;
pub mod json;
pub mod protocols;
pub mod registry;
pub mod slash_commands;
pub mod state;
pub mod text;
