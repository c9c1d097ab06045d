use zed_flutter::dap::{config_to_scenario, dap_request_kind, get_dap_binary, launch_configuration};
use zed_flutter::dart_lsp;
use zed_flutter::editor::{Architecture, CodeLabelSpan, Completion, DebugRequest, Os, Range, SlashCommand};
use zed_flutter::extension::{
    language_server, language_server_initialization_options, language_server_workspace_configuration,
    unknown_language_server, LanguageServer,
};
use zed_flutter::flutter_bridge::{
    bridge_binary_name, bridge_cache_dir, bridge_platform_tag, cached_binary_path, locate_bridge_server,
    needs_executable_bit, select_asset, BridgeSource, BRIDGE_SERVER_REPO,
};
use zed_flutter::json::{Json, JsonNumber};
use zed_flutter::slash_commands::{get_arg_value, run};

fn s(t: &str) -> String {
    t.to_string()
}

fn args(a: &[&str]) -> Vec<String> {
    a.iter().map(|x| s(x)).collect()
}

fn obj(members: Vec<(&str, Json)>) -> Json {
    Json::Object(members.into_iter().map(|(k, v)| (s(k), v)).collect())
}

fn cmd(name: &str) -> SlashCommand {
    SlashCommand { name: s(name), description: s(""), tooltip_text: s(""), requires_argument: false }
}

fn text(name: &str, a: &[&str]) -> String {
    let out = run(cmd(name), args(a)).unwrap();
    assert!(out.sections.is_empty());
    out.text
}

#[test]
fn get_arg_value_examples() {
    assert_eq!(get_arg_value(&args(&["--device=abc123"]), "--device"), Some(s("abc123")));
    assert_eq!(get_arg_value(&args(&["--mode=profile", "--device=x"]), "--device"), Some(s("x")));
    assert_eq!(get_arg_value(&args(&["--device"]), "--device"), None);
    assert_eq!(get_arg_value(&args(&["--device", "--device=x"]), "--device"), None);
    assert_eq!(get_arg_value(&args(&["--device=a=b"]), "--device"), Some(s("a")));
    assert_eq!(get_arg_value(&args(&["--device="]), "--device"), Some(s("")));
    assert_eq!(get_arg_value(&args(&["--devices=z"]), "--device"), Some(s("z")));
    assert_eq!(get_arg_value(&args(&[]), "--device"), None);
    assert_eq!(get_arg_value(&args(&["--id=模拟器"]), "--id"), Some(s("模拟器")));
}

#[test]
fn run_defaults() {
    assert_eq!(
        text("flutter-run", &[]),
        "正在启动 Flutter 应用...\n设备: 默认\n模式: debug\n入口: lib/main.dart\n\n请等待应用启动完成。\n应用启动后，可以使用 /flutter:hot-reload 热重载。"
    );
}

#[test]
fn run_with_options() {
    assert_eq!(
        text("flutter-run", &["--device=emulator-5554", "--mode=profile", "--target=lib/app.dart"]),
        "正在启动 Flutter 应用...\n设备: emulator-5554\n模式: profile\n入口: lib/app.dart\n\n请等待应用启动完成。\n应用启动后，可以使用 /flutter:hot-reload 热重载。"
    );
}

#[test]
fn create_texts() {
    assert_eq!(
        text("flutter-create", &[]),
        "正在创建 Flutter 项目: my_app\n组织: com.example\n\n将会运行 `flutter create --org=com.example my_app`。"
    );
    assert_eq!(
        text("flutter-create", &["--org=dev.acme", "shop"]),
        "正在创建 Flutter 项目: shop\n组织: dev.acme\n\n将会运行 `flutter create --org=dev.acme shop`。"
    );
}

#[test]
fn select_device_texts() {
    assert_eq!(text("flutter-select-device", &["--device=ios"]), "已选择设备: ios。\n请运行 /flutter:run 启动应用。");
    assert_eq!(
        text("flutter-select-device", &[]),
        "请先运行 /flutter:devices 查看可用设备列表。\n然后使用 /flutter:select-device --device=<device_id> 选择设备。"
    );
}

#[test]
fn launch_emulator_texts() {
    assert_eq!(text("flutter-launch-emulator", &["--id=Pixel_7"]), "正在启动模拟器: Pixel_7。\n请等待模拟器启动完成...");
    assert_eq!(
        text("flutter-launch-emulator", &[]),
        "使用方式：/flutter:launch-emulator --id=<emulator_id>\n\n请先运行 /flutter:emulators 查看可用模拟器列表。"
    );
}

#[test]
fn fixed_texts() {
    assert_eq!(
        text("flutter-devices", &[]),
        "正在获取设备列表...\n请在 Flutter Bridge 就绪后重试此命令。\n\n提示：确保已将 flutter 添加到 PATH 环境变量中。"
    );
    assert_eq!(text("flutter-hot-reload", &[]), "正在热重载...\n快捷键：可在 Zed 的 keybindings.json 中为 hot-reload 绑定快捷键。");
    assert_eq!(text("flutter-hot-restart", &[]), "正在热重启...");
    assert_eq!(text("flutter-stop", &[]), "正在停止应用...");
    assert_eq!(text("flutter-pub-get", &[]), "正在获取依赖...\n将会运行 `flutter pub get`。");
    assert_eq!(text("flutter-pub-upgrade", &[]), "正在升级依赖...\n将会运行 `flutter pub upgrade`。");
    assert_eq!(text("flutter-clean", &[]), "正在清理构建产物...\n将会运行 `flutter clean`。");
    assert_eq!(text("flutter-doctor", &[]), "正在运行 Flutter Doctor...\n将会运行 `flutter doctor`。");
    assert!(text("flutter-devtools", &[]).starts_with("正在启动 Flutter DevTools...\nDevTools 将在浏览器中打开。"));
    assert!(text("flutter-devtools", &[]).ends_with("  /flutter:devtools --page=network"));
}

#[test]
fn unknown_slash_command() {
    assert_eq!(run(cmd("flutter-fly"), vec![]).unwrap_err(), "未知的 flutter 命令: flutter-fly");
}

#[test]
fn dart_server_command_prefers_dart() {
    let c = dart_lsp::language_server_command(Some(s("/usr/bin/dart")), Some(s("/usr/bin/flutter"))).unwrap();
    assert_eq!(c.command, "/usr/bin/dart");
    assert_eq!(c.args, args(&["language-server", "--protocol=lsp"]));
    assert!(c.env.is_empty());
    let c = dart_lsp::language_server_command(None, Some(s("/opt/flutter/bin/flutter"))).unwrap();
    assert_eq!(c.command, "/opt/flutter/bin/flutter");
    assert_eq!(c.args, args(&["dart", "language-server", "--protocol=lsp"]));
    assert_eq!(
        dart_lsp::language_server_command(None, None).unwrap_err(),
        "未找到 dart 或 flutter 命令。请确保已安装 Dart SDK 或 Flutter SDK。"
    );
}

#[test]
fn dart_options() {
    assert_eq!(
        dart_lsp::initialization_options().unwrap(),
        Some(obj(vec![
            ("suggestFromUnimportedLibraries", Json::Bool(true)),
            ("closingLabels", Json::Bool(true)),
            ("outline", Json::Bool(true)),
            ("flutterOutline", Json::Bool(true)),
            ("onlyAnalyzeProjectsWithOpenFiles", Json::Bool(false)),
        ]))
    );
    assert_eq!(
        dart_lsp::workspace_configuration().unwrap(),
        Some(obj(vec![(
            "dart",
            obj(vec![
                ("lineLength", Json::Number(JsonNumber::PosInt(80))),
                ("completeFunctionCalls", Json::Bool(false)),
                ("showTodos", Json::Bool(true)),
            ])
        )]))
    );
}

#[test]
fn completion_labels() {
    assert!(dart_lsp::label_for_completion(Completion { label: s("build"), detail: None }).is_none());
    let l = dart_lsp::label_for_completion(Completion { label: s("setState"), detail: Some(s("void")) }).unwrap();
    assert_eq!(l.code, "void");
    assert_eq!(l.filter_range, Range { start: 0, end: 4 });
    assert_eq!(l.spans.len(), 1);
    match &l.spans[0] {
        CodeLabelSpan::Literal { text, highlight_name } => {
            assert_eq!(text, "void");
            assert!(highlight_name.is_none());
        }
        other => panic!("unexpected span {:?}", other),
    }
    let l = dart_lsp::label_for_completion(Completion { label: s("build"), detail: Some(s("组件")) }).unwrap();
    assert_eq!(l.code, "组件");
    assert_eq!(l.filter_range, Range { start: 0, end: 6 });
}

#[test]
fn debug_adapter() {
    let b = get_dap_binary().unwrap();
    assert_eq!(b.command.as_deref(), Some("flutter"));
    assert_eq!(b.arguments, args(&["debug-adapter"]));
    assert!(b.envs.is_empty());
    assert!(b.cwd.is_none());
    assert_eq!(b.request, DebugRequest::Launch);
    let expected = obj(vec![
        ("request", Json::Str(s("launch"))),
        ("type", Json::Str(s("dart"))),
        ("program", Json::Str(s("lib/main.dart"))),
        ("flutterMode", Json::Str(s("debug"))),
    ]);
    let text = "{\"flutterMode\":\"debug\",\"program\":\"lib/main.dart\",\"request\":\"launch\",\"type\":\"dart\"}";
    assert_eq!(b.configuration, text);
    assert_eq!(launch_configuration(), expected);
    assert_eq!(dap_request_kind().unwrap(), DebugRequest::Launch);
    let sc = config_to_scenario().unwrap();
    assert_eq!(sc.label, "Flutter Debug");
    assert_eq!(sc.adapter, "flutter");
    assert_eq!(sc.config, text);
}

#[test]
fn bridge_names_and_tags() {
    assert_eq!(BRIDGE_SERVER_REPO, "your-org/zed-flutter-plugin");
    assert_eq!(bridge_cache_dir(), "flutter_bridge_cache");
    assert_eq!(bridge_binary_name(Os::Windows), "flutter-bridge-server.exe");
    assert_eq!(bridge_binary_name(Os::Linux), "flutter-bridge-server");
    assert_eq!(bridge_binary_name(Os::Mac), "flutter-bridge-server");
    assert_eq!(bridge_platform_tag(Os::Mac, Architecture::Aarch64), "macos-aarch64");
    assert_eq!(bridge_platform_tag(Os::Linux, Architecture::X8664), "linux-x86_64");
    assert_eq!(bridge_platform_tag(Os::Windows, Architecture::X86), "windows-x86");
    assert_eq!(cached_binary_path(Os::Windows), "flutter_bridge_cache/flutter-bridge-server.exe");
    assert_eq!(cached_binary_path(Os::Linux), "flutter_bridge_cache/flutter-bridge-server");
    assert!(needs_executable_bit(Os::Linux));
    assert!(needs_executable_bit(Os::Mac));
    assert!(!needs_executable_bit(Os::Windows));
}

#[test]
fn bridge_server_source() {
    match locate_bridge_server(Os::Linux, Architecture::X8664, Some(s("/usr/local/bin/flutter-bridge-server")), true) {
        BridgeSource::OnPath(p) => assert_eq!(p, "/usr/local/bin/flutter-bridge-server"),
        other => panic!("unexpected {:?}", other),
    }
    match locate_bridge_server(Os::Linux, Architecture::X8664, None, true) {
        BridgeSource::Cached(p) => assert_eq!(p, "flutter_bridge_cache/flutter-bridge-server"),
        other => panic!("unexpected {:?}", other),
    }
    match locate_bridge_server(Os::Mac, Architecture::Aarch64, None, false) {
        BridgeSource::Download { platform_tag, destination } => {
            assert_eq!(platform_tag, "macos-aarch64");
            assert_eq!(destination, "flutter_bridge_cache/flutter-bridge-server");
        }
        other => panic!("unexpected {:?}", other),
    }
}

#[test]
fn asset_selection() {
    let names = args(&[
        "flutter-bridge-server-windows-x86_64.exe",
        "flutter-bridge-server-linux-x86_64",
        "flutter-bridge-server-linux-x86_64.sha256",
    ]);
    assert_eq!(select_asset(&names, "linux-x86_64"), Ok(1));
    assert_eq!(select_asset(&names, "windows-x86"), Ok(0));
    assert_eq!(
        select_asset(&names, "macos-aarch64"),
        Err(s("未找到 macos-aarch64 平台的 Bridge Server 二进制"))
    );
    assert_eq!(select_asset(&vec![], "linux-x86"), Err(s("未找到 linux-x86 平台的 Bridge Server 二进制")));
}

#[test]
fn bridge_command_and_options() {
    let c = zed_flutter::flutter_bridge::language_server_command(s("/cache/flutter-bridge-server"));
    assert_eq!(c.command, "/cache/flutter-bridge-server");
    assert!(c.args.is_empty());
    assert!(c.env.is_empty());
    assert_eq!(
        zed_flutter::flutter_bridge::initialization_options().unwrap(),
        Some(obj(vec![("name", Json::Str(s("flutter-bridge")))]))
    );
}

#[test]
fn extension_dispatch() {
    assert_eq!(language_server("dart"), Some(LanguageServer::Dart));
    assert_eq!(language_server("flutter-bridge"), Some(LanguageServer::FlutterBridge));
    assert_eq!(language_server("rust-analyzer"), None);
    assert_eq!(unknown_language_server("rust-analyzer"), "未知的语言服务器 ID: rust-analyzer");
    assert_eq!(
        language_server_initialization_options("flutter-bridge").unwrap(),
        Some(obj(vec![("name", Json::Str(s("flutter-bridge")))]))
    );
    assert_eq!(language_server_initialization_options("dart").unwrap(), dart_lsp::initialization_options().unwrap());
    assert_eq!(language_server_initialization_options("other").unwrap(), None);
    assert_eq!(language_server_workspace_configuration("dart").unwrap(), dart_lsp::workspace_configuration().unwrap());
    assert_eq!(language_server_workspace_configuration("flutter-bridge").unwrap(), None);
}
