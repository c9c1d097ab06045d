//! Where the editor extension gets the bridge server binary, and how it
//! starts it.
use vstd::prelude::*;

use crate::editor::{Architecture, Command, Os};
use crate::json::{Json, JsonModel, object, entry_models_of, lemma_entry_models_of};
use crate::text::{seq_contains_block, str_contains};

verus! {

/// The GitHub repository whose releases carry the bridge server.
pub const BRIDGE_SERVER_REPO: &'static str = "your-org/zed-flutter-plugin";

/// The command that starts the bridge server found at `server_path`.
pub fn language_server_command(server_path: String) -> (r: Command)
    ensures
        r.command@ == server_path@,
        r.args@.len() == 0,
        r.env@.len() == 0,
{
    Command { command: server_path, args: Vec::new(), env: Vec::new() }
}

/// The bridge server's initialization options.
pub open spec fn initialization_options_json() -> JsonModel {
    object(seq![("name"@, JsonModel::Str("flutter-bridge"@))])
}

/// The bridge server's initialization options.
pub fn initialization_options() -> (r: Result<Option<Json>, String>)
    ensures
        r matches Ok(Some(j)) && j@ == initialization_options_json(),
{
    let entries: Vec<(String, Json)> = vec![
        ("name".to_owned(), Json::Str("flutter-bridge".to_owned())),
    ];
    proof {
        lemma_entry_models_of(entries@);
        assert(entry_models_of(entries@) =~= initialization_options_json()->Object_0);
    }
    Ok(Some(Json::Object(entries)))
}

/// The directory, relative to the extension's working directory, where a
/// downloaded bridge server is kept.
pub fn bridge_cache_dir() -> (r: String)
    ensures
        r@ == "flutter_bridge_cache"@,
{
    "flutter_bridge_cache".to_owned()
}

/// The file name of the bridge server on `os`.
pub open spec fn binary_name(os: Os) -> Seq<char> {
    match os {
        Os::Windows => "flutter-bridge-server.exe"@,
        _ => "flutter-bridge-server"@,
    }
}

/// The file name of the bridge server on `os`.
pub fn bridge_binary_name(os: Os) -> (r: &'static str)
    ensures
        r@ == binary_name(os),
{
    match os {
        Os::Windows => "flutter-bridge-server.exe",
        _ => "flutter-bridge-server",
    }
}

/// The tag that names the release asset for a platform, such as
/// `linux-x86_64`.
pub open spec fn platform_tag(os: Os, arch: Architecture) -> Seq<char> {
    let os_str = match os {
        Os::Mac => "macos"@,
        Os::Linux => "linux"@,
        Os::Windows => "windows"@,
    };
    let arch_str = match arch {
        Architecture::Aarch64 => "aarch64"@,
        Architecture::X8664 => "x86_64"@,
        Architecture::X86 => "x86"@,
    };
    os_str + "-"@ + arch_str
}

/// The tag that names the release asset for a platform.
pub fn bridge_platform_tag(os: Os, arch: Architecture) -> (r: String)
    ensures
        r@ == platform_tag(os, arch),
{
    let os_str = match os {
        Os::Mac => "macos",
        Os::Linux => "linux",
        Os::Windows => "windows",
    };
    let arch_str = match arch {
        Architecture::Aarch64 => "aarch64",
        Architecture::X8664 => "x86_64",
        Architecture::X86 => "x86",
    };
    let mut tag: String = os_str.to_owned();
    tag.append("-");
    tag.append(arch_str);
    tag
}

/// The name of an operating system in release asset tags.
pub open spec fn os_name(os: Os) -> Seq<char> {
    match os {
        Os::Mac => "macos"@,
        Os::Linux => "linux"@,
        Os::Windows => "windows"@,
    }
}

/// The name of an architecture in release asset tags.
pub open spec fn arch_name(arch: Architecture) -> Seq<char> {
    match arch {
        Architecture::Aarch64 => "aarch64"@,
        Architecture::X8664 => "x86_64"@,
        Architecture::X86 => "x86"@,
    }
}

/// The platform tag is the system's name, a dash and the architecture's
/// name, each chosen by its own argument alone: an Intel Mac gets the
/// `macos-x86_64` asset, an Apple-silicon Mac `macos-aarch64`.
pub proof fn lemma_platform_tag_parts(os: Os, arch: Architecture)
    ensures
        platform_tag(os, arch) == os_name(os) + "-"@ + arch_name(arch),
        platform_tag(Os::Mac, Architecture::X8664) == "macos"@ + "-"@ + "x86_64"@,
        platform_tag(os, Architecture::X8664) == os_name(os) + "-"@ + "x86_64"@,
        platform_tag(os, Architecture::Aarch64) == os_name(os) + "-"@ + "aarch64"@,
        platform_tag(os, Architecture::X86) == os_name(os) + "-"@ + "x86"@,
{
}

/// The file name is `flutter-bridge-server`, with `.exe` on Windows only.
pub proof fn lemma_binary_name(os: Os)
    ensures
        os == Os::Windows ==> binary_name(os) == "flutter-bridge-server.exe"@,
        os != Os::Windows ==> binary_name(os) == "flutter-bridge-server"@,
        cached_path(os) == "flutter_bridge_cache/"@ + binary_name(os),
{
    reveal_strlit("flutter_bridge_cache/");
    reveal_strlit("flutter_bridge_cache");
    reveal_strlit("/");
    assert("flutter_bridge_cache"@ + "/"@ =~= "flutter_bridge_cache/"@);
}

/// Where a downloaded bridge server is kept on `os`.
pub open spec fn cached_path(os: Os) -> Seq<char> {
    "flutter_bridge_cache"@ + "/"@ + binary_name(os)
}

/// Where a downloaded bridge server is kept on `os`.
pub fn cached_binary_path(os: Os) -> (r: String)
    ensures
        r@ == cached_path(os),
{
    let mut path = bridge_cache_dir();
    path.append("/");
    path.append(bridge_binary_name(os));
    path
}

/// Where the bridge server comes from.
#[derive(Debug)]
pub enum BridgeSource {
    /// The binary found on the path (development setups).
    OnPath(String),
    /// The binary downloaded before.
    Cached(String),
    /// The release asset tagged `platform_tag`, to be downloaded to
    /// `destination`.
    Download { platform_tag: String, destination: String },
}

/// Chooses where the bridge server comes from: the path first, then the
/// cache, then a download of the release asset for the platform.
pub fn locate_bridge_server(os: Os, arch: Architecture, on_path: Option<String>, cached_exists: bool) -> (r:
    BridgeSource)
    ensures
        match on_path {
            Some(p) => r matches BridgeSource::OnPath(q) && q@ == p@,
            None => if cached_exists {
                r matches BridgeSource::Cached(q) && q@ == cached_path(os)
            } else {
                r matches BridgeSource::Download { platform_tag: t, destination: d } && t@
                    == platform_tag(os, arch) && d@ == cached_path(os)
            },
        },
{
    match on_path {
        Some(p) => BridgeSource::OnPath(p),
        None => {
            if cached_exists {
                BridgeSource::Cached(cached_binary_path(os))
            } else {
                BridgeSource::Download {
                    platform_tag: bridge_platform_tag(os, arch),
                    destination: cached_binary_path(os),
                }
            }
        },
    }
}

/// The index of the first release asset whose name contains
/// `platform_tag`, or the error that the release has none.
pub fn select_asset(asset_names: &Vec<String>, platform_tag: &str) -> (r: Result<usize, String>)
    ensures
        match r {
            Ok(i) => i < asset_names@.len() && seq_contains_block(asset_names@[i as int]@, platform_tag@)
                && forall|j: int| 0 <= j < i ==> !seq_contains_block(#[trigger] asset_names@[j]@, platform_tag@),
            Err(e) => e@ == "未找到 "@ + platform_tag@ + " 平台的 Bridge Server 二进制"@
                && forall|j: int| 0 <= j < asset_names@.len() ==> !seq_contains_block(
                #[trigger] asset_names@[j]@,
                platform_tag@,
            ),
        },
{
    let mut i: usize = 0;
    while i < asset_names.len()
        invariant
            i <= asset_names@.len(),
            forall|j: int| 0 <= j < i ==> !seq_contains_block(#[trigger] asset_names@[j]@, platform_tag@),
        decreases asset_names.len() - i,
    {
        if str_contains(asset_names[i].as_str(), platform_tag) {
            return Ok(i);
        }
        i = i + 1;
    }
    let mut e: String = "未找到 ".to_owned();
    e.append(platform_tag);
    e.append(" 平台的 Bridge Server 二进制");
    Err(e)
}

/// Whether a downloaded binary must be made executable: everywhere but on
/// Windows.
pub fn needs_executable_bit(os: Os) -> (r: bool)
    ensures
        r == (os != Os::Windows),
{
    match os {
        Os::Windows => false,
        _ => true,
    }
}

} // verus!
