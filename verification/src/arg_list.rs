//! The argument assembler: one builder per category of launch arguments.
//! Each builder returns an ordered list of argument strings, and its
//! contract states that list exactly, element for element. Order matters:
//! two-token flags such as `-cp <value>` stay adjacent inside one group.
use vstd::prelude::*;
use vstd::string::*;

use crate::manifest::manifest_entries;
use crate::manifest::manifest_spec;
use crate::numfmt::dec_rep;
use crate::numfmt::u16_to_string;
use crate::numfmt::u32_to_string;
use crate::platform::join_path;
use crate::platform::join_path_list;
use crate::platform::join_path_str;
use crate::platform::join_with;
use crate::platform::path_list_sep;
use crate::platform::Platform;

verus! {

/// One string made of a fixed prefix and a value.
fn prefixed(prefix: &'static str, value: &str) -> (r: String)
    ensures
        r@ == prefix@ + value@,
{
    let mut s = String::from_str(prefix);
    s.append(value);
    s
}

/// One string made of a fixed prefix, a decimal number and a fixed suffix.
fn prefixed_u32(prefix: &'static str, n: u32, suffix: &'static str) -> (r: String)
    ensures
        r@ == prefix@ + dec_rep(n as nat) + suffix@,
{
    let mut s = String::from_str(prefix);
    let d = u32_to_string(n);
    s.append(d.as_str());
    s.append(suffix);
    s
}

/// The launcher-identity system properties.
pub open spec fn launcher_info_spec(brand: Seq<char>, version: Seq<char>) -> Seq<Seq<char>> {
    seq![
        "-Dminecraft.launcher.brand="@ + brand,
        "-Dminecraft.launcher.version="@ + version,
    ]
}

/// Launcher brand and version system properties, in that order.
pub fn launcher_info_settings(launcher_brand: &String, launcher_version: &String) -> (r: Vec<
    String,
>)
    ensures
        r.deep_view() == launcher_info_spec(launcher_brand@, launcher_version@),
{
    let mut settings: Vec<String> = Vec::new();
    settings.push(prefixed("-Dminecraft.launcher.brand=", launcher_brand.as_str()));
    settings.push(prefixed("-Dminecraft.launcher.version=", launcher_version.as_str()));
    proof {
        assert(settings.deep_view() =~= launcher_info_spec(launcher_brand@, launcher_version@));
    }
    settings
}

/// The character-encoding system properties; they take no input.
pub open spec fn encoding_spec() -> Seq<Seq<char>> {
    seq![
        "-Dfile.encoding=UTF-8"@,
        "-Dsun.stdout.encoding=GB18030"@,
        "-Dsun.stderr.encoding=GB18030"@,
    ]
}

/// The fixed character-encoding system properties.
pub fn encoding_settings() -> (r: Vec<String>)
    ensures
        r.deep_view() == encoding_spec(),
{
    let mut settings: Vec<String> = Vec::new();
    settings.push(String::from_str("-Dfile.encoding=UTF-8"));
    settings.push(String::from_str("-Dsun.stdout.encoding=GB18030"));
    settings.push(String::from_str("-Dsun.stderr.encoding=GB18030"));
    proof {
        assert(settings.deep_view() =~= encoding_spec());
    }
    settings
}

/// The miscellaneous JVM security and logging system properties. The whole
/// group is produced only on the Windows x86-64 target; elsewhere it is
/// empty. One property embeds the path of the logging configuration file,
/// joined onto the game directory.
pub open spec fn misc_spec(p: Platform, game_dir: Seq<char>) -> Seq<Seq<char>> {
    match p {
        Platform::WindowsX64 => seq![
            "-Djava.rmi.server.useCodebaseOnly=true"@,
            "-Dcom.sun.jndi.rmi.object.trustURLCodebase=false"@,
            "-Dcom.sun.jndi.cosnaming.object.trustURLCodebase=false"@,
            "-Dlog4j2.formatMsgNoLookups=true"@,
            "-Dlog4j.configurationFile="@ + join_path(p, game_dir, "log4j2"@),
            "-Dfml.ignoreInvalidMinecraftCertificates=true"@,
            "-Dfml.ignorePatchDiscrepancies=true"@,
            "-XX:HeapDumpPath=MojangTricksIntelDriversForPerformance_javaw.exe_minecraft.exe.heapdum"@,
        ],
        Platform::Unix => Seq::empty(),
    }
}

/// The platform-conditional JVM security and logging system properties.
pub fn misc_settings(platform: Platform, game_dir: &String) -> (r: Vec<String>)
    ensures
        r.deep_view() == misc_spec(platform, game_dir@),
{
    let mut settings: Vec<String> = Vec::new();
    match platform {
        Platform::WindowsX64 => {
            settings.push(String::from_str("-Djava.rmi.server.useCodebaseOnly=true"));
            settings.push(String::from_str("-Dcom.sun.jndi.rmi.object.trustURLCodebase=false"));
            settings.push(
                String::from_str("-Dcom.sun.jndi.cosnaming.object.trustURLCodebase=false"),
            );
            settings.push(String::from_str("-Dlog4j2.formatMsgNoLookups=true"));
            let log_path = join_path_str(platform, game_dir.as_str(), "log4j2");
            settings.push(prefixed("-Dlog4j.configurationFile=", log_path.as_str()));
            settings.push(String::from_str("-Dfml.ignoreInvalidMinecraftCertificates=true"));
            settings.push(String::from_str("-Dfml.ignorePatchDiscrepancies=true"));
            settings.push(
                String::from_str(
                    "-XX:HeapDumpPath=MojangTricksIntelDriversForPerformance_javaw.exe_minecraft.exe.heapdum",
                ),
            );
        },
        Platform::Unix => {},
    }
    proof {
        assert(settings.deep_view() =~= misc_spec(platform, game_dir@));
    }
    settings
}

/// The heap bounds: `-Xms{min}m` then `-Xmx{max}m`, and nothing else.
pub open spec fn memory_spec(memory_min: nat, memory_max: nat) -> Seq<Seq<char>> {
    seq![
        "-Xms"@ + dec_rep(memory_min) + "m"@,
        "-Xmx"@ + dec_rep(memory_max) + "m"@,
    ]
}

/// The minimum and maximum heap-size flags, in megabytes. No bound is
/// checked: the pair is formatted exactly as given.
pub fn memory_settings(memory_min: u32, memory_max: u32) -> (r: Vec<String>)
    ensures
        r.deep_view() == memory_spec(memory_min as nat, memory_max as nat),
{
    let mut settings: Vec<String> = Vec::new();
    settings.push(prefixed_u32("-Xms", memory_min, "m"));
    settings.push(prefixed_u32("-Xmx", memory_max, "m"));
    proof {
        assert(settings.deep_view() =~= memory_spec(memory_min as nat, memory_max as nat));
    }
    settings
}

/// The garbage-collector tuning flags; they take no input.
pub open spec fn performance_spec() -> Seq<Seq<char>> {
    seq![
        "-XX:+UnlockExperimentalVMOptions"@,
        "-XX:+UseG1GC"@,
        "-XX:G1NewSizePercent=20"@,
        "-XX:G1ReservePercent=20"@,
        "-XX:MaxGCPauseMillis=50"@,
        "-XX:G1HeapRegionSize=32m"@,
        "-XX:-UseAdaptiveSizePolicy"@,
        "-XX:-OmitStackTraceInFastThrow"@,
    ]
}

/// The fixed garbage-collector tuning flags.
pub fn performance_settings() -> (r: Vec<String>)
    ensures
        r.deep_view() == performance_spec(),
{
    let mut settings: Vec<String> = Vec::new();
    settings.push(String::from_str("-XX:+UnlockExperimentalVMOptions"));
    settings.push(String::from_str("-XX:+UseG1GC"));
    settings.push(String::from_str("-XX:G1NewSizePercent=20"));
    settings.push(String::from_str("-XX:G1ReservePercent=20"));
    settings.push(String::from_str("-XX:MaxGCPauseMillis=50"));
    settings.push(String::from_str("-XX:G1HeapRegionSize=32m"));
    settings.push(String::from_str("-XX:-UseAdaptiveSizePolicy"));
    settings.push(String::from_str("-XX:-OmitStackTraceInFastThrow"));
    proof {
        assert(settings.deep_view() =~= performance_spec());
    }
    settings
}

/// The platform's native-library directory name, a sibling of the game
/// directory's contents.
pub open spec fn natives_dir_spec(p: Platform) -> Seq<char> {
    match p {
        Platform::WindowsX64 => "natives-windows-x86_64"@,
        Platform::Unix => "natives"@,
    }
}

/// The platform's native-library directory name as text.
fn natives_dir_name(p: Platform) -> (r: &'static str)
    ensures
        r@ == natives_dir_spec(p),
{
    match p {
        Platform::WindowsX64 => "natives-windows-x86_64",
        Platform::Unix => "natives",
    }
}

/// The classpath entries: every manifest entry joined onto the libraries
/// directory, then the client jar joined onto the game directory.
pub open spec fn classpath_entries_spec(
    p: Platform,
    libraries: Seq<char>,
    game_dir: Seq<char>,
    version: Seq<char>,
) -> Seq<Seq<char>> {
    manifest_spec(p).map_values(|e: Seq<char>| join_path(p, libraries, e)) + seq![
        join_path(p, game_dir, version + ".jar"@),
    ]
}

/// The classpath as one string: the entries joined with the platform's
/// path-list separator.
pub open spec fn classpath_spec(
    p: Platform,
    libraries: Seq<char>,
    game_dir: Seq<char>,
    version: Seq<char>,
) -> Seq<char> {
    join_with(path_list_sep(p), classpath_entries_spec(p, libraries, game_dir, version))
}

/// The resolved classpath entries, in manifest order, client jar last.
pub fn classpath_entries(
    platform: Platform,
    path_libraries: &String,
    game_dir: &String,
    game_version: &String,
) -> (r: Vec<String>)
    ensures
        r.deep_view() == classpath_entries_spec(platform, path_libraries@, game_dir@, game_version@),
{
    let m = manifest_entries(platform);
    let mut out: Vec<String> = Vec::new();
    let mut i: usize = 0;
    while i < m.len()
        invariant
            i <= m.len(),
            m.deep_view() == manifest_spec(platform),
            out.deep_view().len() == i,
            forall|j: int|
                0 <= j < i ==> out.deep_view()[j] == join_path(
                    platform,
                    path_libraries@,
                    manifest_spec(platform)[j],
                ),
        decreases m.len() - i,
    {
        proof {
            assert(m.deep_view()[i as int] == m@[i as int]@);
        }
        let entry = join_path_str(platform, path_libraries.as_str(), m[i]);
        let ghost prev = out.deep_view();
        out.push(entry);
        proof {
            assert(out.deep_view() =~= prev.push(
                join_path(platform, path_libraries@, manifest_spec(platform)[i as int]),
            ));
        }
        i = i + 1;
    }
    let mut jar_name = String::from_str(game_version.as_str());
    jar_name.append(".jar");
    let jar = join_path_str(platform, game_dir.as_str(), jar_name.as_str());
    let ghost prev = out.deep_view();
    out.push(jar);
    proof {
        assert(out.deep_view() =~= prev.push(
            join_path(platform, game_dir@, game_version@ + ".jar"@),
        ));
        assert(out.deep_view() =~= classpath_entries_spec(
            platform,
            path_libraries@,
            game_dir@,
            game_version@,
        ));
    }
    out
}

/// The game-bootstrap flags: client-jar and native-library system
/// properties, the classpath pair `-cp <value>`, and the loader's client
/// entry-point class.
pub open spec fn game_start_spec(
    p: Platform,
    version: Seq<char>,
    game_dir: Seq<char>,
    libraries: Seq<char>,
) -> Seq<Seq<char>> {
    seq![
        "-Dminecraft.client.jar="@ + join_path(p, game_dir, version) + ".jar"@,
        "-Djava.library.path="@ + join_path(p, game_dir, natives_dir_spec(p)),
        "-cp"@,
        classpath_spec(p, libraries, game_dir, version),
        "net.fabricmc.loader.impl.launch.knot.KnotClient"@,
    ]
}

/// The game-bootstrap flags, with `-cp` and its value kept adjacent.
pub fn game_start_settings(
    platform: Platform,
    game_version: &String,
    game_dir: &String,
    path_libraries: &String,
) -> (r: Vec<String>)
    ensures
        r.deep_view() == game_start_spec(platform, game_version@, game_dir@, path_libraries@),
{
    let mut settings: Vec<String> = Vec::new();

    let mut client_jar = prefixed(
        "-Dminecraft.client.jar=",
        join_path_str(platform, game_dir.as_str(), game_version.as_str()).as_str(),
    );
    client_jar.append(".jar");
    settings.push(client_jar);

    let native_dir = join_path_str(platform, game_dir.as_str(), natives_dir_name(platform));
    settings.push(prefixed("-Djava.library.path=", native_dir.as_str()));

    let cp_list = classpath_entries(platform, path_libraries, game_dir, game_version);
    settings.push(String::from_str("-cp"));
    settings.push(join_path_list(platform, &cp_list));

    settings.push(String::from_str("net.fabricmc.loader.impl.launch.knot.KnotClient"));
    proof {
        assert(settings.deep_view() =~= game_start_spec(
            platform,
            game_version@,
            game_dir@,
            path_libraries@,
        ));
    }
    settings
}

/// The game-session flags. The base list is fixed in order; `--fullscreen`
/// is appended, alone and with no value, exactly when the flag is set.
pub open spec fn minecraft_settings_spec(
    version: Seq<char>,
    game_dir: Seq<char>,
    assets_dir: Seq<char>,
    brand: Seq<char>,
    launcher_version: Seq<char>,
    username: Seq<char>,
    width: nat,
    height: nat,
    fullscreen: bool,
    asset_index: nat,
) -> Seq<Seq<char>> {
    seq![
        "--version"@,
        version,
        "--gameDir"@,
        game_dir,
        "--assetsDir"@,
        assets_dir,
        "--assetIndex"@,
        dec_rep(asset_index),
        "--versionType"@,
        brand + " "@ + launcher_version,
        "--username"@,
        username,
        "--accessToken AABB"@,
        "--width"@,
        dec_rep(width),
        "--height"@,
        dec_rep(height),
    ] + if fullscreen {
        seq!["--fullscreen"@]
    } else {
        Seq::<Seq<char>>::empty()
    }
}

/// The game-session flags: version, directories, asset index, version type,
/// username, the fixed placeholder access token, display size, and the
/// optional fullscreen presence flag.
pub fn minecraft_settings(
    game_version: &String,
    game_dir: &String,
    assets_dir: &String,
    launcher_brand: &String,
    launcher_version: &String,
    username: &String,
    display_width: u32,
    display_height: u32,
    fullscreen: bool,
    asset_index: u32,
) -> (r: Vec<String>)
    ensures
        r.deep_view() == minecraft_settings_spec(
            game_version@,
            game_dir@,
            assets_dir@,
            launcher_brand@,
            launcher_version@,
            username@,
            display_width as nat,
            display_height as nat,
            fullscreen,
            asset_index as nat,
        ),
{
    let mut settings: Vec<String> = Vec::new();
    settings.push(String::from_str("--version"));
    settings.push(String::from_str(game_version.as_str()));
    settings.push(String::from_str("--gameDir"));
    settings.push(String::from_str(game_dir.as_str()));
    settings.push(String::from_str("--assetsDir"));
    settings.push(String::from_str(assets_dir.as_str()));
    settings.push(String::from_str("--assetIndex"));
    settings.push(u32_to_string(asset_index));
    settings.push(String::from_str("--versionType"));
    let mut version_type = String::from_str(launcher_brand.as_str());
    version_type.append(" ");
    version_type.append(launcher_version.as_str());
    settings.push(version_type);
    settings.push(String::from_str("--username"));
    settings.push(String::from_str(username.as_str()));
    settings.push(String::from_str("--accessToken AABB"));
    settings.push(String::from_str("--width"));
    settings.push(u32_to_string(display_width));
    settings.push(String::from_str("--height"));
    settings.push(u32_to_string(display_height));
    if fullscreen {
        settings.push(String::from_str("--fullscreen"));
    }
    proof {
        assert(settings.deep_view() =~= minecraft_settings_spec(
            game_version@,
            game_dir@,
            assets_dir@,
            launcher_brand@,
            launcher_version@,
            username@,
            display_width as nat,
            display_height as nat,
            fullscreen,
            asset_index as nat,
        ));
    }
    settings
}

/// The game-session flags followed by the server auto-connect flags:
/// `--server`, the address, `--port`, the port, in that order, strictly
/// after every base session flag.
pub fn minecraft_settings_server_autoconnect(
    game_version: &String,
    game_dir: &String,
    assets_dir: &String,
    launcher_brand: &String,
    launcher_version: &String,
    username: &String,
    display_width: u32,
    display_height: u32,
    fullscreen: bool,
    asset_index: u32,
    server_address: &String,
    server_port: u16,
) -> (r: Vec<String>)
    ensures
        r.deep_view() == minecraft_settings_spec(
            game_version@,
            game_dir@,
            assets_dir@,
            launcher_brand@,
            launcher_version@,
            username@,
            display_width as nat,
            display_height as nat,
            fullscreen,
            asset_index as nat,
        ) + seq!["--server"@, server_address@, "--port"@, dec_rep(server_port as nat)],
{
    let mut settings = minecraft_settings(
        game_version,
        game_dir,
        assets_dir,
        launcher_brand,
        launcher_version,
        username,
        display_width,
        display_height,
        fullscreen,
        asset_index,
    );
    settings.push(String::from_str("--server"));
    settings.push(String::from_str(server_address.as_str()));
    settings.push(String::from_str("--port"));
    settings.push(u16_to_string(server_port));
    proof {
        assert(settings.deep_view() =~= minecraft_settings_spec(
            game_version@,
            game_dir@,
            assets_dir@,
            launcher_brand@,
            launcher_version@,
            username@,
            display_width as nat,
            display_height as nat,
            fullscreen,
            asset_index as nat,
        ) + seq!["--server"@, server_address@, "--port"@, dec_rep(server_port as nat)]);
    }
    settings
}

} // verus!
