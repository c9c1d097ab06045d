//! The `/flutter-*` slash commands: their arguments and the text they show.
use vstd::prelude::*;

use crate::editor::{SlashCommand, SlashCommandOutput};
use crate::text::{char_position, seq_starts_with, str_eq, str_starts_with};

verus! {

/// The arguments, as character sequences.
pub open spec fn arg_views(args: Seq<String>) -> Seq<Seq<char>> {
    args.map_values(|a: String| a@)
}

/// The value of an argument of the form `name=value`: the text between the
/// first `=` and the next `=` (or the end); nothing without an `=`.
pub open spec fn arg_value(arg: Seq<char>) -> Option<Seq<char>> {
    match arg.index_of_first('=') {
        None => None,
        Some(p) => {
            let rest = arg.subrange(p + 1, arg.len() as int);
            match rest.index_of_first('=') {
                None => Some(rest),
                Some(q) => Some(rest.subrange(0, q)),
            }
        },
    }
}

/// The index of the first argument that begins with `key`.
pub open spec fn first_with_prefix(args: Seq<Seq<char>>, key: Seq<char>) -> Option<int> {
    args.map_values(|a: Seq<char>| seq_starts_with(a, key)).index_of_first(true)
}

/// The value of option `key`: taken from the first argument that begins
/// with `key`, and absent when that argument has no `=`.
pub open spec fn option_value(args: Seq<Seq<char>>, key: Seq<char>) -> Option<Seq<char>> {
    match first_with_prefix(args, key) {
        None => None,
        Some(i) => arg_value(args[i]),
    }
}

/// The index of the first argument that is not an option.
pub open spec fn first_positional(args: Seq<Seq<char>>) -> Option<int> {
    args.map_values(|a: Seq<char>| !seq_starts_with(a, "--"@)).index_of_first(true)
}

/// `o`'s value, or `d`.
pub open spec fn or_else(o: Option<Seq<char>>, d: Seq<char>) -> Seq<char> {
    match o {
        Some(v) => v,
        None => d,
    }
}

/// An option written `key=value` gives `value`, when neither holds `=`.
pub proof fn lemma_option_value_of_assignment(key: Seq<char>, value: Seq<char>)
    requires
        !key.contains('='),
        !value.contains('='),
    ensures
        option_value(seq![key + seq!['='] + value], key) == Some(value),
{
    let arg = key + seq!['='] + value;
    let args = seq![arg];
    assert(arg.subrange(0, key.len() as int) =~= key);
    let flags = args.map_values(|a: Seq<char>| seq_starts_with(a, key));
    assert(flags[0]);
    flags.index_of_first_ensures(true);
    assert(flags.contains(true));
    assert(arg[key.len() as int] == '=');
    arg.index_of_first_ensures('=');
    assert(arg.contains('='));
    let p = arg.index_of_first('=')->0;
    if p < key.len() {
        assert(arg[p] == key[p]);
        assert(key.contains('='));
    }
    let rest = arg.subrange(p + 1, arg.len() as int);
    assert(rest =~= value);
    value.index_of_first_ensures('=');
}

/// The first `true` of a sequence of flags is at `i` when `flags[i]` holds
/// and no earlier flag does.
pub proof fn lemma_first_true(flags: Seq<bool>, i: int)
    requires
        0 <= i < flags.len(),
        flags[i],
        forall|j: int| 0 <= j < i ==> !flags[j],
    ensures
        flags.index_of_first(true) == Some(i),
{
    flags.index_of_first_ensures(true);
    assert(flags.contains(true));
    let k = flags.index_of_first(true)->0;
    if k < i {
        assert(!flags[k]);
    }
}

/// The value of option `key` comes from the first argument that begins
/// with `key`: written `key=value` (neither holding `=`), it is `value`,
/// whatever the other arguments are.
pub proof fn lemma_option_value_from_first_match(
    args: Seq<Seq<char>>,
    key: Seq<char>,
    value: Seq<char>,
    i: int,
)
    requires
        0 <= i < args.len(),
        args[i] == key + seq!['='] + value,
        !key.contains('='),
        !value.contains('='),
        forall|j: int| 0 <= j < i ==> !seq_starts_with(#[trigger] args[j], key),
    ensures
        option_value(args, key) == Some(value),
{
    let arg = args[i];
    assert(arg.subrange(0, key.len() as int) =~= key);
    let flags = args.map_values(|a: Seq<char>| seq_starts_with(a, key));
    assert forall|j: int| 0 <= j < i implies !flags[j] by {
        assert(!seq_starts_with(args[j], key));
    }
    lemma_first_true(flags, i);
    assert(arg[key.len() as int] == '=');
    arg.index_of_first_ensures('=');
    assert(arg.contains('='));
    let p = arg.index_of_first('=')->0;
    if p < key.len() {
        assert(arg[p] == key[p]);
        assert(key.contains('='));
    }
    let rest = arg.subrange(p + 1, arg.len() as int);
    assert(rest =~= value);
    value.index_of_first_ensures('=');
}

/// `/flutter-run` shows the device, the mode and the entry point taken from
/// its options, and `默认`, `debug` and `lib/main.dart` only for options not
/// given: its text is determined by these three values alone.
pub proof fn lemma_run_shows_options(
    args: Seq<Seq<char>>,
    device: Seq<char>,
    mode: Seq<char>,
    target: Seq<char>,
)
    requires
        option_value(args, "--device"@) == Some(device) || (option_value(args, "--device"@) is None
            && device == "默认"@),
        option_value(args, "--mode"@) == Some(mode) || (option_value(args, "--mode"@) is None
            && mode == "debug"@),
        option_value(args, "--target"@) == Some(target) || (option_value(args, "--target"@) is None
            && target == "lib/main.dart"@),
    ensures
        run_text(args) == "正在启动 Flutter 应用...\n"@ + ("设备: "@ + device) + "\n模式: "@ + mode
            + "\n入口: "@ + target
            + "\n\n请等待应用启动完成。\n应用启动后，可以使用 /flutter:hot-reload 热重载。"@,
{
    reveal_strlit("设备: 默认");
    reveal_strlit("设备: ");
    reveal_strlit("默认");
    assert("设备: 默认"@ =~= "设备: "@ + "默认"@);
}

/// `/flutter-create` names the project after its first argument that is
/// not an option, wherever it stands, with the organisation of `--org`
/// (or `com.example`).
pub proof fn lemma_create_names_first_positional(args: Seq<Seq<char>>, i: int, org: Seq<char>)
    requires
        0 <= i < args.len(),
        !seq_starts_with(args[i], "--"@),
        forall|j: int| 0 <= j < i ==> seq_starts_with(#[trigger] args[j], "--"@),
        option_value(args, "--org"@) == Some(org) || (option_value(args, "--org"@) is None && org
            == "com.example"@),
    ensures
        create_text(args) == "正在创建 Flutter 项目: "@ + args[i] + "\n组织: "@ + org
            + "\n\n将会运行 `flutter create --org="@ + org + " "@ + args[i] + "`。"@,
{
    let flags = args.map_values(|a: Seq<char>| !seq_starts_with(a, "--"@));
    assert forall|j: int| 0 <= j < i implies !flags[j] by {
        assert(seq_starts_with(args[j], "--"@));
    }
    lemma_first_true(flags, i);
}

/// `/flutter-create` falls back to `my_app` only when every argument is an
/// option.
pub proof fn lemma_create_default_name(args: Seq<Seq<char>>, org: Seq<char>)
    requires
        forall|j: int| 0 <= j < args.len() ==> seq_starts_with(#[trigger] args[j], "--"@),
        option_value(args, "--org"@) == Some(org) || (option_value(args, "--org"@) is None && org
            == "com.example"@),
    ensures
        create_text(args) == "正在创建 Flutter 项目: "@ + "my_app"@ + "\n组织: "@ + org
            + "\n\n将会运行 `flutter create --org="@ + org + " "@ + "my_app"@ + "`。"@,
{
    let flags = args.map_values(|a: Seq<char>| !seq_starts_with(a, "--"@));
    flags.index_of_first_ensures(true);
    if flags.contains(true) {
        let k = choose|k: int| 0 <= k < flags.len() && flags[k] == true;
        assert(seq_starts_with(args[k], "--"@));
    }
}

/// `/flutter-select-device` confirms the device of `--device`, and asks
/// for one when it is not given.
pub proof fn lemma_select_device_text(args: Seq<Seq<char>>)
    ensures
        option_value(args, "--device"@) matches Some(id) ==> select_device_text(args) == "已选择设备: "@
            + id + "。\n请运行 /flutter:run 启动应用。"@,
        option_value(args, "--device"@) is None ==> select_device_text(args)
            == "请先运行 /flutter:devices 查看可用设备列表。\n然后使用 /flutter:select-device --device=<device_id> 选择设备。"@,
{
}

/// `/flutter-launch-emulator` announces the emulator of `--id`, and shows
/// its usage when it is not given.
pub proof fn lemma_launch_emulator_text(args: Seq<Seq<char>>)
    ensures
        option_value(args, "--id"@) matches Some(id) ==> launch_emulator_text(args) == "正在启动模拟器: "@
            + id + "。\n请等待模拟器启动完成..."@,
        option_value(args, "--id"@) is None ==> launch_emulator_text(args)
            == "使用方式：/flutter:launch-emulator --id=<emulator_id>\n\n请先运行 /flutter:emulators 查看可用模拟器列表。"@,
{
}

fn value_of(arg: &str) -> (r: Option<String>)
    ensures
        r.deep_view() == arg_value(arg@),
{
    match char_position(arg, '=') {
        None => None,
        Some(p) => {
            let n = arg.unicode_len();
            let rest = arg.substring_char(p + 1, n);
            match char_position(rest, '=') {
                None => Some(rest.to_owned()),
                Some(q) => Some(rest.substring_char(0, q).to_owned()),
            }
        },
    }
}

/// The value of option `key` among `args` (for instance `abc123` for
/// `--device` in `["--device=abc123"]`).
pub fn get_arg_value(args: &[String], key: &str) -> (r: Option<String>)
    ensures
        r.deep_view() == option_value(arg_views(args@), key@),
{
    let ghost views = arg_views(args@);
    let ghost flags = views.map_values(|a: Seq<char>| seq_starts_with(a, key@));
    let mut i: usize = 0;
    while i < args.len()
        invariant
            i <= args@.len(),
            views == arg_views(args@),
            flags == views.map_values(|a: Seq<char>| seq_starts_with(a, key@)),
            forall|j: int| 0 <= j < i ==> !flags[j],
        decreases args.len() - i,
    {
        if str_starts_with(args[i].as_str(), key) {
            proof {
                flags.index_of_first_ensures(true);
                assert(flags[i as int]);
                assert(flags.contains(true));
                let k = flags.index_of_first(true)->0;
                if k < i {
                    assert(!flags[k]);
                }
            }
            return value_of(args[i].as_str());
        }
        i = i + 1;
    }
    proof {
        flags.index_of_first_ensures(true);
        if flags.contains(true) {
            let k = flags.index_of_first(true)->0;
            assert(!flags[k]);
        }
    }
    None
}

fn first_positional_arg(args: &[String]) -> (r: Option<String>)
    ensures
        match first_positional(arg_views(args@)) {
            Some(i) => r.deep_view() == Some(args@[i]@),
            None => r is None,
        },
{
    let ghost views = arg_views(args@);
    let ghost flags = views.map_values(|a: Seq<char>| !seq_starts_with(a, "--"@));
    let mut i: usize = 0;
    while i < args.len()
        invariant
            i <= args@.len(),
            views == arg_views(args@),
            flags == views.map_values(|a: Seq<char>| !seq_starts_with(a, "--"@)),
            forall|j: int| 0 <= j < i ==> !flags[j],
        decreases args.len() - i,
    {
        if !str_starts_with(args[i].as_str(), "--") {
            proof {
                flags.index_of_first_ensures(true);
                assert(flags[i as int]);
                assert(flags.contains(true));
                let k = flags.index_of_first(true)->0;
                if k < i {
                    assert(!flags[k]);
                }
            }
            return Some(args[i].clone());
        }
        i = i + 1;
    }
    proof {
        flags.index_of_first_ensures(true);
        if flags.contains(true) {
            let k = flags.index_of_first(true)->0;
            assert(!flags[k]);
        }
    }
    None
}

fn output(text: String) -> (r: SlashCommandOutput)
    ensures
        r.text@ == text@,
        r.sections@.len() == 0,
{
    SlashCommandOutput { text, sections: Vec::new() }
}

fn option_or(args: &[String], key: &str, default: &str) -> (r: String)
    ensures
        r@ == or_else(option_value(arg_views(args@), key@), default@),
{
    match get_arg_value(args, key) {
        Some(v) => v,
        None => default.to_owned(),
    }
}

/// The text of `/flutter-run`.
pub open spec fn run_text(args: Seq<Seq<char>>) -> Seq<char> {
    let device = match option_value(args, "--device"@) {
        Some(id) => "设备: "@ + id,
        None => "设备: 默认"@,
    };
    "正在启动 Flutter 应用...\n"@ + device + "\n模式: "@ + or_else(
        option_value(args, "--mode"@),
        "debug"@,
    ) + "\n入口: "@ + or_else(option_value(args, "--target"@), "lib/main.dart"@)
        + "\n\n请等待应用启动完成。\n应用启动后，可以使用 /flutter:hot-reload 热重载。"@
}

/// The text of `/flutter-create`.
pub open spec fn create_text(args: Seq<Seq<char>>) -> Seq<char> {
    let name = match first_positional(args) {
        Some(i) => args[i],
        None => "my_app"@,
    };
    let org = or_else(option_value(args, "--org"@), "com.example"@);
    "正在创建 Flutter 项目: "@ + name + "\n组织: "@ + org + "\n\n将会运行 `flutter create --org="@ + org
        + " "@ + name + "`。"@
}

/// The text of `/flutter-select-device`.
pub open spec fn select_device_text(args: Seq<Seq<char>>) -> Seq<char> {
    match option_value(args, "--device"@) {
        Some(id) => "已选择设备: "@ + id + "。\n请运行 /flutter:run 启动应用。"@,
        None => "请先运行 /flutter:devices 查看可用设备列表。\n然后使用 /flutter:select-device --device=<device_id> 选择设备。"@,
    }
}

/// The text of `/flutter-launch-emulator`.
pub open spec fn launch_emulator_text(args: Seq<Seq<char>>) -> Seq<char> {
    match option_value(args, "--id"@) {
        Some(id) => "正在启动模拟器: "@ + id + "。\n请等待模拟器启动完成..."@,
        None => "使用方式：/flutter:launch-emulator --id=<emulator_id>\n\n请先运行 /flutter:emulators 查看可用模拟器列表。"@,
    }
}

/// The text each slash command shows, or the error for an unknown one.
pub open spec fn command_text(name: Seq<char>, args: Seq<Seq<char>>) -> Result<Seq<char>, Seq<char>> {
    if name == "flutter-devices"@ {
        Ok("正在获取设备列表...\n请在 Flutter Bridge 就绪后重试此命令。\n\n提示：确保已将 flutter 添加到 PATH 环境变量中。"@)
    } else if name == "flutter-run"@ {
        Ok(run_text(args))
    } else if name == "flutter-hot-reload"@ {
        Ok("正在热重载...\n快捷键：可在 Zed 的 keybindings.json 中为 hot-reload 绑定快捷键。"@)
    } else if name == "flutter-hot-restart"@ {
        Ok("正在热重启..."@)
    } else if name == "flutter-stop"@ {
        Ok("正在停止应用..."@)
    } else if name == "flutter-pub-get"@ {
        Ok("正在获取依赖...\n将会运行 `flutter pub get`。"@)
    } else if name == "flutter-pub-upgrade"@ {
        Ok("正在升级依赖...\n将会运行 `flutter pub upgrade`。"@)
    } else if name == "flutter-clean"@ {
        Ok("正在清理构建产物...\n将会运行 `flutter clean`。"@)
    } else if name == "flutter-doctor"@ {
        Ok("正在运行 Flutter Doctor...\n将会运行 `flutter doctor`。"@)
    } else if name == "flutter-create"@ {
        Ok(create_text(args))
    } else if name == "flutter-select-device"@ {
        Ok(select_device_text(args))
    } else if name == "flutter-launch-emulator"@ {
        Ok(launch_emulator_text(args))
    } else if name == "flutter-devtools"@ {
        Ok("正在启动 Flutter DevTools...\nDevTools 将在浏览器中打开。\n如需指定页面，请使用：\n  /flutter:devtools --page=inspector\n  /flutter:devtools --page=performance\n  /flutter:devtools --page=memory\n  /flutter:devtools --page=network"@)
    } else {
        Err("未知的 flutter 命令: "@ + name)
    }
}

fn cmd_run(args: &[String]) -> (r: SlashCommandOutput)
    ensures
        r.text@ == run_text(arg_views(args@)),
        r.sections@.len() == 0,
{
    let device_info: String = match get_arg_value(args, "--device") {
        Some(id) => {
            let mut t: String = "设备: ".to_owned();
            t.append(id.as_str());
            t
        },
        None => "设备: 默认".to_owned(),
    };
    let mode = option_or(args, "--mode", "debug");
    let target = option_or(args, "--target", "lib/main.dart");
    let mut text: String = "正在启动 Flutter 应用...\n".to_owned();
    text.append(device_info.as_str());
    text.append("\n模式: ");
    text.append(mode.as_str());
    text.append("\n入口: ");
    text.append(target.as_str());
    text.append("\n\n请等待应用启动完成。\n应用启动后，可以使用 /flutter:hot-reload 热重载。");
    output(text)
}

fn cmd_create(args: &[String]) -> (r: SlashCommandOutput)
    ensures
        r.text@ == create_text(arg_views(args@)),
        r.sections@.len() == 0,
{
    let name: String = match first_positional_arg(args) {
        Some(n) => n,
        None => "my_app".to_owned(),
    };
    proof {
        if let Some(i) = first_positional(arg_views(args@)) {
            arg_views(args@).map_values(|a: Seq<char>| !seq_starts_with(a, "--"@)).index_of_first_ensures(true);
            assert(arg_views(args@)[i] == args@[i]@);
        }
    }
    let org = option_or(args, "--org", "com.example");
    let mut text: String = "正在创建 Flutter 项目: ".to_owned();
    text.append(name.as_str());
    text.append("\n组织: ");
    text.append(org.as_str());
    text.append("\n\n将会运行 `flutter create --org=");
    text.append(org.as_str());
    text.append(" ");
    text.append(name.as_str());
    text.append("`。");
    output(text)
}

fn cmd_select_device(args: &[String]) -> (r: SlashCommandOutput)
    ensures
        r.text@ == select_device_text(arg_views(args@)),
        r.sections@.len() == 0,
{
    match get_arg_value(args, "--device") {
        Some(id) => {
            let mut text: String = "已选择设备: ".to_owned();
            text.append(id.as_str());
            text.append("。\n请运行 /flutter:run 启动应用。");
            output(text)
        },
        None => output(
            "请先运行 /flutter:devices 查看可用设备列表。\n然后使用 /flutter:select-device --device=<device_id> 选择设备。".to_owned(),
        ),
    }
}

fn cmd_launch_emulator(args: &[String]) -> (r: SlashCommandOutput)
    ensures
        r.text@ == launch_emulator_text(arg_views(args@)),
        r.sections@.len() == 0,
{
    match get_arg_value(args, "--id") {
        Some(id) => {
            let mut text: String = "正在启动模拟器: ".to_owned();
            text.append(id.as_str());
            text.append("。\n请等待模拟器启动完成...");
            output(text)
        },
        None => output(
            "使用方式：/flutter:launch-emulator --id=<emulator_id>\n\n请先运行 /flutter:emulators 查看可用模拟器列表。".to_owned(),
        ),
    }
}

/// Runs the slash command `command` with `args`: the text it shows, with
/// no sections, or the error for an unknown command.
pub fn run(command: SlashCommand, args: Vec<String>) -> (r: Result<SlashCommandOutput, String>)
    ensures
        match r {
            Ok(out) => command_text(command.name@, arg_views(args@)) == Ok::<Seq<char>, Seq<char>>(
                out.text@,
            ) && out.sections@.len() == 0,
            Err(e) => command_text(command.name@, arg_views(args@)) == Err::<Seq<char>, Seq<char>>(
                e@,
            ),
        },
{
    let name = command.name.as_str();
    if str_eq(name, "flutter-devices") {
        Ok(
            output(
                "正在获取设备列表...\n请在 Flutter Bridge 就绪后重试此命令。\n\n提示：确保已将 flutter 添加到 PATH 环境变量中。".to_owned(),
            ),
        )
    } else if str_eq(name, "flutter-run") {
        Ok(cmd_run(args.as_slice()))
    } else if str_eq(name, "flutter-hot-reload") {
        Ok(
            output(
                "正在热重载...\n快捷键：可在 Zed 的 keybindings.json 中为 hot-reload 绑定快捷键。".to_owned(),
            ),
        )
    } else if str_eq(name, "flutter-hot-restart") {
        Ok(output("正在热重启...".to_owned()))
    } else if str_eq(name, "flutter-stop") {
        Ok(output("正在停止应用...".to_owned()))
    } else if str_eq(name, "flutter-pub-get") {
        Ok(output("正在获取依赖...\n将会运行 `flutter pub get`。".to_owned()))
    } else if str_eq(name, "flutter-pub-upgrade") {
        Ok(output("正在升级依赖...\n将会运行 `flutter pub upgrade`。".to_owned()))
    } else if str_eq(name, "flutter-clean") {
        Ok(output("正在清理构建产物...\n将会运行 `flutter clean`。".to_owned()))
    } else if str_eq(name, "flutter-doctor") {
        Ok(output("正在运行 Flutter Doctor...\n将会运行 `flutter doctor`。".to_owned()))
    } else if str_eq(name, "flutter-create") {
        Ok(cmd_create(args.as_slice()))
    } else if str_eq(name, "flutter-select-device") {
        Ok(cmd_select_device(args.as_slice()))
    } else if str_eq(name, "flutter-launch-emulator") {
        Ok(cmd_launch_emulator(args.as_slice()))
    } else if str_eq(name, "flutter-devtools") {
        Ok(
            output(
                "正在启动 Flutter DevTools...\nDevTools 将在浏览器中打开。\n如需指定页面，请使用：\n  /flutter:devtools --page=inspector\n  /flutter:devtools --page=performance\n  /flutter:devtools --page=memory\n  /flutter:devtools --page=network".to_owned(),
            ),
        )
    } else {
        let mut e: String = "未知的 flutter 命令: ".to_owned();
        e.append(name);
        Err(e)
    }
}

} // verus!
