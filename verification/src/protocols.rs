//! The protocol between the editor extension and the bridge server: the
//! records it describes and the names of its custom LSP methods.
use vstd::prelude::*;

pub mod methods;

verus! {

/// A device as the protocol describes it.
#[derive(Debug, Clone)]
pub struct DeviceInfo {
    /// Unique identifier of the device.
    pub id: String,
    /// Human-readable name.
    pub name: String,
    /// Platform: ios, android, linux, macos, windows or web.
    pub platform: String,
    /// Finer platform classification.
    pub platform_type: String,
    /// Category: mobile, web or desktop.
    pub category: Option<String>,
    /// Whether the device is attached for a while only (a USB device, say).
    pub ephemeral: bool,
    /// Whether the device is an emulator.
    pub emulator: bool,
    /// The emulator's id.
    pub emulator_id: Option<String>,
    /// SDK version.
    pub sdk: Option<String>,
    /// What the device supports.
    pub capabilities: Option<DeviceCapabilities>,
}

/// What a device supports.
#[derive(Debug, Clone)]
pub struct DeviceCapabilities {
    pub hot_reload: bool,
    pub hot_restart: bool,
    pub screenshot: bool,
    pub flutter_exit: bool,
    pub hardware_rendering: bool,
    pub start_paused: bool,
}

/// An emulator that can be launched.
#[derive(Debug, Clone)]
pub struct EmulatorInfo {
    pub id: String,
    pub name: String,
    pub platform: String,
    pub category: Option<String>,
}

/// A running application.
#[derive(Debug, Clone)]
pub struct AppInfo {
    /// Application id assigned by the daemon.
    pub app_id: String,
    /// The device it runs on.
    pub device_id: String,
    /// The project directory.
    pub project_directory: String,
    /// Build mode.
    pub mode: String,
    /// Status.
    pub status: AppStatus,
    /// VM service WebSocket URI, for debugging.
    pub ws_uri: Option<String>,
    /// DTD URI.
    pub dtd_uri: Option<String>,
}

/// Status of an application.
#[derive(Debug, Clone, PartialEq)]
pub enum AppStatus {
    Starting,
    Running,
    Debugging,
    Stopped,
    Error(String),
}

/// Connection state of the Flutter daemon.
#[derive(Debug, Clone)]
pub enum DaemonState {
    Disconnected,
    Connecting,
    Connected { version: String, pid: u32 },
    Error(String),
}

} // verus!
