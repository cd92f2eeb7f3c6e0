use mcli::arg_list::encoding_settings;
use mcli::arg_list::game_start_settings;
use mcli::arg_list::launcher_info_settings;
use mcli::arg_list::memory_settings;
use mcli::arg_list::minecraft_settings;
use mcli::arg_list::minecraft_settings_server_autoconnect;
use mcli::arg_list::misc_settings;
use mcli::arg_list::performance_settings;
use mcli::launch::launch_arguments;
use mcli::launch::LaunchConfig;
use mcli::platform::Platform;

#[test]
fn launcher_info_two_properties() {
    let settings = launcher_info_settings(&"MCLI".to_string(), &"0.1".to_string());
    assert_eq!(
        settings,
        vec![
            "-Dminecraft.launcher.brand=MCLI".to_string(),
            "-Dminecraft.launcher.version=0.1".to_string(),
        ]
    );
}

#[test]
fn encoding_is_fixed() {
    let expected = vec![
        "-Dfile.encoding=UTF-8".to_string(),
        "-Dsun.stdout.encoding=GB18030".to_string(),
        "-Dsun.stderr.encoding=GB18030".to_string(),
    ];
    assert_eq!(encoding_settings(), expected);
    assert_eq!(encoding_settings(), encoding_settings());
}

#[test]
fn performance_is_fixed() {
    let expected = vec![
        "-XX:+UnlockExperimentalVMOptions".to_string(),
        "-XX:+UseG1GC".to_string(),
        "-XX:G1NewSizePercent=20".to_string(),
        "-XX:G1ReservePercent=20".to_string(),
        "-XX:MaxGCPauseMillis=50".to_string(),
        "-XX:G1HeapRegionSize=32m".to_string(),
        "-XX:-UseAdaptiveSizePolicy".to_string(),
        "-XX:-OmitStackTraceInFastThrow".to_string(),
    ];
    assert_eq!(performance_settings(), expected);
    assert_eq!(performance_settings(), performance_settings());
}

#[test]
fn misc_windows_embeds_log_path() {
    let settings = misc_settings(Platform::WindowsX64, &"./".to_string());
    assert_eq!(
        settings,
        vec![
            "-Djava.rmi.server.useCodebaseOnly=true".to_string(),
            "-Dcom.sun.jndi.rmi.object.trustURLCodebase=false".to_string(),
            "-Dcom.sun.jndi.cosnaming.object.trustURLCodebase=false".to_string(),
            "-Dlog4j2.formatMsgNoLookups=true".to_string(),
            "-Dlog4j.configurationFile=./log4j2".to_string(),
            "-Dfml.ignoreInvalidMinecraftCertificates=true".to_string(),
            "-Dfml.ignorePatchDiscrepancies=true".to_string(),
            "-XX:HeapDumpPath=MojangTricksIntelDriversForPerformance_javaw.exe_minecraft.exe.heapdum"
                .to_string(),
        ]
    );
}

#[test]
fn misc_elsewhere_is_empty() {
    assert!(misc_settings(Platform::Unix, &"./".to_string()).is_empty());
}

#[test]
fn memory_flags_exact() {
    assert_eq!(
        memory_settings(2048, 4096),
        vec!["-Xms2048m".to_string(), "-Xmx4096m".to_string()]
    );
}

#[test]
fn memory_flags_smallest_and_largest() {
    assert_eq!(
        memory_settings(0, u32::MAX),
        vec!["-Xms0m".to_string(), "-Xmx4294967295m".to_string()]
    );
    // No bound is checked: min above max passes through unchanged.
    assert_eq!(
        memory_settings(512, 256),
        vec!["-Xms512m".to_string(), "-Xmx256m".to_string()]
    );
}

fn session(fullscreen: bool) -> Vec<String> {
    minecraft_settings(
        &"1.19.4".to_string(),
        &"./".to_string(),
        &"../../assets/".to_string(),
        &"MCLI".to_string(),
        &"0.1".to_string(),
        &"Alice".to_string(),
        854,
        480,
        fullscreen,
        3,
    )
}

#[test]
fn session_flags_base_order() {
    let settings = session(false);
    assert_eq!(
        settings,
        vec![
            "--version".to_string(),
            "1.19.4".to_string(),
            "--gameDir".to_string(),
            "./".to_string(),
            "--assetsDir".to_string(),
            "../../assets/".to_string(),
            "--assetIndex".to_string(),
            "3".to_string(),
            "--versionType".to_string(),
            "MCLI 0.1".to_string(),
            "--username".to_string(),
            "Alice".to_string(),
            "--accessToken AABB".to_string(),
            "--width".to_string(),
            "854".to_string(),
            "--height".to_string(),
            "480".to_string(),
        ]
    );
}

#[test]
fn fullscreen_present_iff_set() {
    let without = session(false);
    let with = session(true);
    assert!(!without.iter().any(|s| s == "--fullscreen"));
    assert_eq!(with.len(), without.len() + 1);
    assert_eq!(with.last().unwrap(), "--fullscreen");
    assert_eq!(&with[..without.len()], &without[..]);
}

#[test]
fn server_flags_appended_after_base() {
    let base = session(true);
    let with_server = minecraft_settings_server_autoconnect(
        &"1.19.4".to_string(),
        &"./".to_string(),
        &"../../assets/".to_string(),
        &"MCLI".to_string(),
        &"0.1".to_string(),
        &"Alice".to_string(),
        854,
        480,
        true,
        3,
        &"play.example.com".to_string(),
        25565,
    );
    assert_eq!(&with_server[..base.len()], &base[..]);
    assert_eq!(
        &with_server[base.len()..],
        &[
            "--server".to_string(),
            "play.example.com".to_string(),
            "--port".to_string(),
            "25565".to_string(),
        ]
    );
}

#[test]
fn game_start_shape_windows() {
    let settings = game_start_settings(
        Platform::WindowsX64,
        &"1.19.4".to_string(),
        &"./".to_string(),
        &"../../libraries/".to_string(),
    );
    assert_eq!(settings.len(), 5);
    assert_eq!(settings[0], "-Dminecraft.client.jar=./1.19.4.jar");
    assert_eq!(settings[1], "-Djava.library.path=./natives-windows-x86_64");
    assert_eq!(settings[2], "-cp");
    assert_eq!(
        settings[4],
        "net.fabricmc.loader.impl.launch.knot.KnotClient"
    );
    let cp = &settings[3];
    // 75 manifest entries plus the client jar: 76 segments, 75 separators.
    assert_eq!(cp.matches(';').count(), 75);
    let segments: Vec<&str> = cp.split(';').collect();
    assert_eq!(segments.len(), 76);
    assert_eq!(
        segments[0],
        "../../libraries/net/fabricmc/tiny-mappings-parser/0.3.0+build.17/tiny-mappings-parser-0.3.0+build.17.jar"
    );
    assert_eq!(
        segments[1],
        "../../libraries/net/fabricmc/sponge-mixin/0.12.4+mixin.0.8.5/sponge-mixin-0.12.4+mixin.0.8.5.jar"
    );
    assert_eq!(segments[74], "../../libraries/org/slf4j/slf4j-api/2.0.1/slf4j-api-2.0.1.jar");
    assert_eq!(segments[75], "./1.19.4.jar");
    // Every manifest segment is resolved against the libraries directory.
    for segment in &segments[..75] {
        assert!(segment.starts_with("../../libraries/"));
        assert!(segment.ends_with(".jar"));
    }
}

#[test]
fn game_start_unix_has_empty_manifest() {
    let settings = game_start_settings(
        Platform::Unix,
        &"1.19.4".to_string(),
        &"game".to_string(),
        &"libs".to_string(),
    );
    assert_eq!(settings.len(), 5);
    assert_eq!(settings[0], "-Dminecraft.client.jar=game/1.19.4.jar");
    assert_eq!(settings[1], "-Djava.library.path=game/natives");
    assert_eq!(settings[2], "-cp");
    // No manifest is shipped for this platform: only the client jar remains.
    assert_eq!(settings[3], "game/1.19.4.jar");
}

#[test]
fn join_inserts_separator_only_when_needed() {
    let with_slash = game_start_settings(
        Platform::WindowsX64,
        &"1.19.4".to_string(),
        &"dir".to_string(),
        &"libs".to_string(),
    );
    assert_eq!(with_slash[0], "-Dminecraft.client.jar=dir\\1.19.4.jar");
    let cp = &with_slash[3];
    let segments: Vec<&str> = cp.split(';').collect();
    assert!(segments[0].starts_with("libs\\net/fabricmc/"));
    assert_eq!(segments[75], "dir\\1.19.4.jar");
}

#[test]
fn end_to_end_example() {
    let config = LaunchConfig {
        platform: Platform::WindowsX64,
        game_dir: "./".to_string(),
        game_version: "1.19.4".to_string(),
        username: "Alice".to_string(),
        memory_min: 2048,
        memory_max: 4096,
        display_width: 1280,
        display_height: 720,
        fullscreen: true,
        server_address: "play.example.com".to_string(),
        server_port: 25565,
    };
    let args = launch_arguments(&config);
    assert_eq!(args.len(), 50);
    // Identity, encoding, miscellaneous, memory, performance, bootstrap,
    // session: the groups appear in that fixed order.
    assert_eq!(args[0], "-Dminecraft.launcher.brand=MCLI");
    assert_eq!(args[1], "-Dminecraft.launcher.version=0.1");
    assert_eq!(args[2], "-Dfile.encoding=UTF-8");
    assert_eq!(args[9], "-Dlog4j.configurationFile=./log4j2");
    assert_eq!(args[13], "-Xms2048m");
    assert_eq!(args[14], "-Xmx4096m");
    assert_eq!(args[23], "-Dminecraft.client.jar=./1.19.4.jar");
    assert_eq!(args[24], "-Djava.library.path=./natives-windows-x86_64");
    assert_eq!(args[25], "-cp");
    assert!(args[26].ends_with(";./1.19.4.jar"));
    assert_eq!(args[27], "net.fabricmc.loader.impl.launch.knot.KnotClient");
    assert_eq!(args[28], "--version");
    assert_eq!(args[29], "1.19.4");
    assert_eq!(args[30], "--gameDir");
    assert_eq!(args[31], "./");
    assert_eq!(args[32], "--assetsDir");
    assert_eq!(args[33], "../../assets/");
    assert_eq!(args[34], "--assetIndex");
    assert_eq!(args[35], "3");
    assert_eq!(args[36], "--versionType");
    assert_eq!(args[37], "MCLI 0.1");
    assert_eq!(args[38], "--username");
    assert_eq!(args[39], "Alice");
    assert_eq!(args[40], "--accessToken AABB");
    assert_eq!(args[41], "--width");
    assert_eq!(args[42], "1280");
    assert_eq!(args[43], "--height");
    assert_eq!(args[44], "720");
    assert_eq!(args[45], "--fullscreen");
    assert_eq!(args[46], "--server");
    assert_eq!(args[47], "play.example.com");
    assert_eq!(args[48], "--port");
    assert_eq!(args[49], "25565");
}
