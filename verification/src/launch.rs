//! The launch configuration, the launcher's fixed constants, and the full
//! argument vector: every category's output concatenated in the load-bearing
//! order identity, encoding, miscellaneous, memory, performance,
//! game-bootstrap, game-session with server auto-connect.
use vstd::prelude::*;
use vstd::string::*;

use crate::arg_list::encoding_settings;
use crate::arg_list::encoding_spec;
use crate::arg_list::game_start_settings;
use crate::arg_list::game_start_spec;
use crate::arg_list::launcher_info_settings;
use crate::arg_list::launcher_info_spec;
use crate::arg_list::memory_settings;
use crate::arg_list::memory_spec;
use crate::arg_list::minecraft_settings_server_autoconnect;
use crate::arg_list::minecraft_settings_spec;
use crate::arg_list::misc_settings;
use crate::arg_list::misc_spec;
use crate::arg_list::performance_settings;
use crate::arg_list::performance_spec;
use crate::numfmt::dec_rep;
use crate::platform::Platform;

verus! {

/// The launcher brand constant.
pub open spec fn launcher_brand_spec() -> Seq<char> {
    "MCLI"@
}

/// The launcher brand constant as text.
pub fn launcher_brand() -> (r: &'static str)
    ensures
        r@ == launcher_brand_spec(),
{
    "MCLI"
}

/// The launcher version constant.
pub open spec fn launcher_version_spec() -> Seq<char> {
    "0.1"@
}

/// The launcher version constant as text.
pub fn launcher_version() -> (r: &'static str)
    ensures
        r@ == launcher_version_spec(),
{
    "0.1"
}

/// The game directory as seen from the child's working directory.
pub open spec fn relative_game_dir_spec() -> Seq<char> {
    "./"@
}

/// The game directory as seen from the child's working directory, as text.
pub fn relative_game_dir() -> (r: &'static str)
    ensures
        r@ == relative_game_dir_spec(),
{
    "./"
}

/// The assets directory, relative to the child's working directory.
pub open spec fn assets_dir_spec() -> Seq<char> {
    "../../assets/"@
}

/// The assets directory as text.
pub fn assets_dir() -> (r: &'static str)
    ensures
        r@ == assets_dir_spec(),
{
    "../../assets/"
}

/// The libraries directory, relative to the child's working directory.
pub open spec fn libraries_dir_spec() -> Seq<char> {
    "../../libraries/"@
}

/// The libraries directory as text.
pub fn libraries_dir() -> (r: &'static str)
    ensures
        r@ == libraries_dir_spec(),
{
    "../../libraries/"
}

/// The fixed asset-index constant.
pub fn asset_index() -> (r: u32)
    ensures
        r == 3,
{
    3
}

/// Everything the launcher is told once at startup: the resolved
/// command-line input plus the target platform. Built once, never mutated.
pub struct LaunchConfig {
    pub platform: Platform,
    pub game_dir: String,
    pub game_version: String,
    pub username: String,
    pub memory_min: u32,
    pub memory_max: u32,
    pub display_width: u32,
    pub display_height: u32,
    pub fullscreen: bool,
    pub server_address: String,
    pub server_port: u16,
}

/// The full argument vector handed to the child process, as a function of
/// the configuration: the seven groups, concatenated in their fixed order.
pub open spec fn launch_arguments_spec(c: &LaunchConfig) -> Seq<Seq<char>> {
    launcher_info_spec(launcher_brand_spec(), launcher_version_spec()) + encoding_spec()
        + misc_spec(c.platform, relative_game_dir_spec()) + memory_spec(
        c.memory_min as nat,
        c.memory_max as nat,
    ) + performance_spec() + game_start_spec(
        c.platform,
        c.game_version@,
        relative_game_dir_spec(),
        libraries_dir_spec(),
    ) + minecraft_settings_spec(
        c.game_version@,
        relative_game_dir_spec(),
        assets_dir_spec(),
        launcher_brand_spec(),
        launcher_version_spec(),
        c.username@,
        c.display_width as nat,
        c.display_height as nat,
        c.fullscreen,
        3,
    ) + seq!["--server"@, c.server_address@, "--port"@, dec_rep(c.server_port as nat)]
}

/// Moves every element of `src` onto the end of `dst`.
fn append_all(dst: &mut Vec<String>, src: Vec<String>)
    ensures
        final(dst).deep_view() == old(dst).deep_view() + src.deep_view(),
{
    let ghost dst0 = dst.deep_view();
    let ghost src0 = src.deep_view();
    let mut src = src;
    dst.append(&mut src);
    proof {
        assert(dst.deep_view() =~= dst0 + src0);
    }
}

/// The complete, ordered argument vector for one launch.
pub fn launch_arguments(config: &LaunchConfig) -> (r: Vec<String>)
    ensures
        r.deep_view() == launch_arguments_spec(config),
{
    let brand = String::from_str(launcher_brand());
    let version = String::from_str(launcher_version());
    let game_dir = String::from_str(relative_game_dir());
    let assets = String::from_str(assets_dir());
    let libraries = String::from_str(libraries_dir());

    let mut args: Vec<String> = Vec::new();
    append_all(&mut args, launcher_info_settings(&brand, &version));
    append_all(&mut args, encoding_settings());
    append_all(&mut args, misc_settings(config.platform, &game_dir));
    append_all(&mut args, memory_settings(config.memory_min, config.memory_max));
    append_all(&mut args, performance_settings());
    append_all(
        &mut args,
        game_start_settings(config.platform, &config.game_version, &game_dir, &libraries),
    );
    append_all(
        &mut args,
        minecraft_settings_server_autoconnect(
            &config.game_version,
            &game_dir,
            &assets,
            &brand,
            &version,
            &config.username,
            config.display_width,
            config.display_height,
            config.fullscreen,
            asset_index(),
            &config.server_address,
            config.server_port,
        ),
    );
    proof {
        assert(args.deep_view() =~= launch_arguments_spec(config));
    }
    args
}

} // verus!
