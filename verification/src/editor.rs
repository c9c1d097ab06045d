//! What the editor extension hands to the editor and reads from it, as
//! plain values.
use vstd::prelude::*;

verus! {

/// A program to run: the executable, its arguments and extra environment.
#[derive(Debug)]
pub struct Command {
    pub command: String,
    pub args: Vec<String>,
    pub env: Vec<(String, String)>,
}

/// The editor's operating system.
#[derive(Debug, Clone, Copy, PartialEq, Eq, Structural)]
pub enum Os {
    Mac,
    Linux,
    Windows,
}

/// The editor's processor architecture.
#[derive(Debug, Clone, Copy, PartialEq, Eq, Structural)]
pub enum Architecture {
    Aarch64,
    X8664,
    X86,
}

/// A range of bytes, end exclusive.
#[derive(Debug, Clone, Copy, PartialEq, Eq, Structural)]
pub struct Range {
    pub start: u32,
    pub end: u32,
}

/// A part of a code label.
#[derive(Debug)]
pub enum CodeLabelSpan {
    /// A range of the label's code.
    CodeRange(Range),
    /// Literal text, with an optional highlight.
    Literal { text: String, highlight_name: Option<String> },
}

/// How a completion is shown: code, the spans shown, and the part matched
/// against what the user typed.
#[derive(Debug)]
pub struct CodeLabel {
    pub code: String,
    pub spans: Vec<CodeLabelSpan>,
    pub filter_range: Range,
}

/// What the extension reads of a completion item.
#[derive(Debug)]
pub struct Completion {
    pub label: String,
    pub detail: Option<String>,
}

/// Whether a debug session launches the program or attaches to it.
#[derive(Debug, Clone, Copy, PartialEq, Eq, Structural)]
pub enum DebugRequest {
    Launch,
    Attach,
}

/// How to start the debug adapter, and the request it is given, with its
/// configuration as JSON text. The adapter is always started as a process
/// talking over stdio.
#[derive(Debug)]
pub struct DebugAdapterBinary {
    pub command: Option<String>,
    pub arguments: Vec<String>,
    pub envs: Vec<(String, String)>,
    pub cwd: Option<String>,
    pub configuration: String,
    pub request: DebugRequest,
}

/// A debug scenario offered in the editor's debug panel, with its
/// configuration as JSON text; it has no build step and no TCP connection.
#[derive(Debug)]
pub struct DebugScenario {
    pub label: String,
    pub adapter: String,
    pub config: String,
}

/// A slash command as the editor describes it.
#[derive(Debug)]
pub struct SlashCommand {
    pub name: String,
    pub description: String,
    pub tooltip_text: String,
    pub requires_argument: bool,
}

/// A labelled part of a slash command's output.
#[derive(Debug)]
pub struct SlashCommandOutputSection {
    pub range: Range,
    pub label: String,
}

/// The output of a slash command.
#[derive(Debug)]
pub struct SlashCommandOutput {
    pub text: String,
    pub sections: Vec<SlashCommandOutputSection>,
}

} // verus!
