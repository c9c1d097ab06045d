//! Names of the custom LSP methods.
use vstd::prelude::*;

verus! {

pub const DAEMON_START: &'static str = "flutter/daemon/start";

pub const DAEMON_SHUTDOWN: &'static str = "flutter/daemon/shutdown";

pub const DAEMON_CONNECTED: &'static str = "flutter/daemon/connected";

pub const DAEMON_LOG: &'static str = "flutter/daemon/log";

pub const DEVICE_GET_DEVICES: &'static str = "flutter/device/getDevices";

pub const DEVICE_ENABLE: &'static str = "flutter/device/enable";

pub const DEVICE_DISABLE: &'static str = "flutter/device/disable";

pub const DEVICE_ADDED: &'static str = "flutter/device/added";

pub const DEVICE_REMOVED: &'static str = "flutter/device/removed";

pub const EMULATOR_GET_EMULATORS: &'static str = "flutter/emulator/getEmulators";

pub const EMULATOR_LAUNCH: &'static str = "flutter/emulator/launch";

pub const APP_START: &'static str = "flutter/app/start";

pub const APP_RESTART: &'static str = "flutter/app/restart";

pub const APP_STOP: &'static str = "flutter/app/stop";

pub const APP_DEBUG_PORT: &'static str = "flutter/app/debugPort";

pub const APP_STARTED: &'static str = "flutter/app/started";

pub const APP_LOG: &'static str = "flutter/app/log";

pub const APP_STOP_EVENT: &'static str = "flutter/app/stop";

pub const APP_CALL_SERVICE_EXTENSION: &'static str = "flutter/app/callServiceExtension";

pub const DEVTOOLS_SERVE: &'static str = "flutter/devtools/serve";

} // verus!
