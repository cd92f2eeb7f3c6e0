//! Properties that relate the assembler's specifications to one another,
//! stated and proved once so that a reader need not derive them from the
//! builders' contracts.
use vstd::prelude::*;

use crate::arg_list::classpath_entries_spec;
use crate::arg_list::classpath_spec;
use crate::arg_list::minecraft_settings_spec;
use crate::manifest::manifest_spec;
use crate::numfmt::dec_rep;
use crate::numfmt::is_dec_char;
use crate::numfmt::lemma_dec_rep_digits;
use crate::platform::join_path;
use crate::platform::join_with;
use crate::platform::path_list_sep;
use crate::platform::Platform;

verus! {

/// Classpath assembly is a pure function of the libraries directory, the
/// game directory, the version and the platform manifest: joining the N
/// manifest entries plus the client jar yields N + 1 path segments, each
/// equal to the manifest entry joined onto the libraries directory, except
/// the last, which is the client jar joined onto the game directory; the
/// classpath string joins exactly those segments with the platform's
/// path-list separator.
pub proof fn lemma_classpath_shape(
    p: Platform,
    libraries: Seq<char>,
    game_dir: Seq<char>,
    version: Seq<char>,
)
    ensures
        classpath_entries_spec(p, libraries, game_dir, version).len() == manifest_spec(p).len()
            + 1,
        forall|i: int|
            0 <= i < manifest_spec(p).len() ==> classpath_entries_spec(
                p,
                libraries,
                game_dir,
                version,
            )[i] == join_path(p, libraries, manifest_spec(p)[i]),
        classpath_entries_spec(p, libraries, game_dir, version).last() == join_path(
            p,
            game_dir,
            version + ".jar"@,
        ),
        classpath_spec(p, libraries, game_dir, version) == join_with(
            path_list_sep(p),
            classpath_entries_spec(p, libraries, game_dir, version),
        ),
{
}

/// A decimal representation never equals the fullscreen flag: its first
/// character is a digit, the flag's is not.
proof fn lemma_dec_rep_not_fullscreen(n: nat)
    ensures
        dec_rep(n) != "--fullscreen"@,
{
    reveal_strlit("--fullscreen");
    lemma_dec_rep_digits(n);
    if dec_rep(n) == "--fullscreen"@ {
        assert(is_dec_char(dec_rep(n)[0]));
        assert("--fullscreen"@[0] == '-');
    }
}

/// `--fullscreen` appears among the game-session flags if and only if the
/// fullscreen configuration is true, and never with a trailing value: it is
/// the last element when present. The free-text inputs are assumed not to
/// spell the flag themselves.
pub proof fn lemma_fullscreen_iff(
    version: Seq<char>,
    game_dir: Seq<char>,
    assets_dir: Seq<char>,
    brand: Seq<char>,
    launcher_version: Seq<char>,
    username: Seq<char>,
    width: nat,
    height: nat,
    fullscreen: bool,
    asset_index: nat,
)
    requires
        version != "--fullscreen"@,
        game_dir != "--fullscreen"@,
        assets_dir != "--fullscreen"@,
        username != "--fullscreen"@,
    ensures
        minecraft_settings_spec(
            version,
            game_dir,
            assets_dir,
            brand,
            launcher_version,
            username,
            width,
            height,
            fullscreen,
            asset_index,
        ).contains("--fullscreen"@) <==> fullscreen,
        fullscreen ==> minecraft_settings_spec(
            version,
            game_dir,
            assets_dir,
            brand,
            launcher_version,
            username,
            width,
            height,
            fullscreen,
            asset_index,
        ).last() == "--fullscreen"@,
{
    let s = minecraft_settings_spec(
        version,
        game_dir,
        assets_dir,
        brand,
        launcher_version,
        username,
        width,
        height,
        fullscreen,
        asset_index,
    );
    reveal_strlit("--fullscreen");
    reveal_strlit("--version");
    reveal_strlit("--gameDir");
    reveal_strlit("--assetsDir");
    reveal_strlit("--assetIndex");
    reveal_strlit("--versionType");
    reveal_strlit("--username");
    reveal_strlit("--accessToken AABB");
    reveal_strlit("--width");
    reveal_strlit("--height");
    reveal_strlit(" ");
    lemma_dec_rep_not_fullscreen(asset_index);
    lemma_dec_rep_not_fullscreen(width);
    lemma_dec_rep_not_fullscreen(height);
    assert("--fullscreen"@.len() == 12);
    assert(" "@.len() == 1);
    assert(brand + " "@ + launcher_version != "--fullscreen"@) by {
        if brand + " "@ + launcher_version == "--fullscreen"@ {
            let k = brand.len() as int;
            assert((brand + " "@ + launcher_version).len() == 12);
            assert((brand + " "@ + launcher_version)[k] == ' ');
            assert("--fullscreen"@[k] != ' ');
        }
    }
    if fullscreen {
        assert(s[17] == "--fullscreen"@);
        assert(s.contains("--fullscreen"@));
    } else {
        assert(s.len() == 17);
        assert("--version"@.len() == 9);
        assert("--gameDir"@.len() == 9);
        assert("--assetsDir"@.len() == 11);
        assert("--assetIndex"@.len() == 12);
        assert("--versionType"@.len() == 13);
        assert("--username"@.len() == 10);
        assert("--accessToken AABB"@.len() == 18);
        assert("--width"@.len() == 7);
        assert("--height"@.len() == 8);
        assert("--assetIndex"@[2] == 'a');
        assert("--fullscreen"@[2] == 'f');
        assert forall|i: int| 0 <= i < 17 implies s[i] != "--fullscreen"@ by {
            if i == 0 {
                assert(s[i] == "--version"@);
            } else if i == 1 {
                assert(s[i] == version);
            } else if i == 2 {
                assert(s[i] == "--gameDir"@);
            } else if i == 3 {
                assert(s[i] == game_dir);
            } else if i == 4 {
                assert(s[i] == "--assetsDir"@);
            } else if i == 5 {
                assert(s[i] == assets_dir);
            } else if i == 6 {
                assert(s[i] == "--assetIndex"@);
            } else if i == 7 {
                assert(s[i] == dec_rep(asset_index));
            } else if i == 8 {
                assert(s[i] == "--versionType"@);
            } else if i == 9 {
                assert(s[i] == brand + " "@ + launcher_version);
            } else if i == 10 {
                assert(s[i] == "--username"@);
            } else if i == 11 {
                assert(s[i] == username);
            } else if i == 12 {
                assert(s[i] == "--accessToken AABB"@);
            } else if i == 13 {
                assert(s[i] == "--width"@);
            } else if i == 14 {
                assert(s[i] == dec_rep(width));
            } else if i == 15 {
                assert(s[i] == "--height"@);
            } else {
                assert(s[i] == dec_rep(height));
            }
        }
        if s.contains("--fullscreen"@) {
            let i = choose|i: int| 0 <= i < s.len() && s[i] == "--fullscreen"@;
            assert(s[i] != "--fullscreen"@);
        }
    }
}

} // verus!
