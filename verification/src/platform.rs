//! The target platform of a launch, and the path conventions that depend on
//! it: the separator used when joining a directory with an entry inside it,
//! and the separator used between the entries of a classpath list.
use vstd::prelude::*;
use vstd::string::*;

verus! {

/// The platform the child process is launched for. Only one target is fully
/// supported; every other host falls under `Unix`, where the
/// platform-conditional argument groups are empty.
#[derive(Clone, Copy, PartialEq, Eq, Structural, Debug)]
pub enum Platform {
    WindowsX64,
    Unix,
}

/// The separator placed between a directory and an entry joined onto it.
pub open spec fn path_sep(p: Platform) -> char {
    match p {
        Platform::WindowsX64 => '\\',
        Platform::Unix => '/',
    }
}

/// Whether `c` already ends a directory as a separator on platform `p`.
pub open spec fn is_path_sep(p: Platform, c: char) -> bool {
    match p {
        Platform::WindowsX64 => c == '/' || c == '\\',
        Platform::Unix => c == '/',
    }
}

/// The separator placed between the entries of a classpath list.
pub open spec fn path_list_sep(p: Platform) -> char {
    match p {
        Platform::WindowsX64 => ';',
        Platform::Unix => ':',
    }
}

/// Joining a relative entry onto a directory: the two texts, with the
/// platform separator between them unless the directory is empty or already
/// ends in a separator.
pub open spec fn join_path(p: Platform, dir: Seq<char>, rel: Seq<char>) -> Seq<char> {
    if dir.len() == 0 {
        rel
    } else if is_path_sep(p, dir.last()) {
        dir + rel
    } else {
        dir + seq![path_sep(p)] + rel
    }
}

/// The entries of a list, joined with `sep` between each adjacent pair.
pub open spec fn join_with(sep: char, entries: Seq<Seq<char>>) -> Seq<char>
    decreases entries.len(),
{
    if entries.len() == 0 {
        Seq::empty()
    } else if entries.len() == 1 {
        entries[0]
    } else {
        join_with(sep, entries.drop_last()) + seq![sep] + entries.last()
    }
}

/// Whether `c` counts as a path separator on platform `p`.
fn is_sep_char(p: Platform, c: char) -> (b: bool)
    ensures
        b == is_path_sep(p, c),
{
    match p {
        Platform::WindowsX64 => c == '/' || c == '\\',
        Platform::Unix => c == '/',
    }
}

/// The platform path separator as text.
fn path_sep_str(p: Platform) -> (r: &'static str)
    ensures
        r@ == seq![path_sep(p)],
{
    match p {
        Platform::WindowsX64 => {
            proof {
                reveal_strlit("\\");
                assert("\\"@ =~= seq!['\\']);
            }
            "\\"
        },
        Platform::Unix => {
            proof {
                reveal_strlit("/");
                assert("/"@ =~= seq!['/']);
            }
            "/"
        },
    }
}

/// The platform classpath-list separator as text.
fn path_list_sep_str(p: Platform) -> (r: &'static str)
    ensures
        r@ == seq![path_list_sep(p)],
{
    match p {
        Platform::WindowsX64 => {
            proof {
                reveal_strlit(";");
                assert(";"@ =~= seq![';']);
            }
            ";"
        },
        Platform::Unix => {
            proof {
                reveal_strlit(":");
                assert(":"@ =~= seq![':']);
            }
            ":"
        },
    }
}

/// Joins a relative entry onto a directory.
pub fn join_path_str(p: Platform, dir: &str, rel: &str) -> (r: String)
    ensures
        r@ == join_path(p, dir@, rel@),
{
    let n = dir.unicode_len();
    if n == 0 {
        String::from_str(rel)
    } else {
        let last = dir.get_char(n - 1);
        let mut s = String::from_str(dir);
        if !is_sep_char(p, last) {
            s.append(path_sep_str(p));
        }
        s.append(rel);
        proof {
            if !is_path_sep(p, dir@.last()) {
                assert(dir@ + seq![path_sep(p)] + rel@ =~= (dir@ + seq![path_sep(p)]) + rel@);
            }
        }
        s
    }
}

/// Joins the entries of a list with the platform classpath-list separator.
pub fn join_path_list(p: Platform, entries: &Vec<String>) -> (r: String)
    ensures
        r@ == join_with(path_list_sep(p), entries.deep_view()),
{
    let ghost all = entries.deep_view();
    let mut s = String::new();
    let mut i: usize = 0;
    while i < entries.len()
        invariant
            i <= entries.len(),
            all == entries.deep_view(),
            all.len() == entries@.len(),
            s@ == join_with(path_list_sep(p), all.take(i as int)),
        decreases entries.len() - i,
    {
        if i > 0 {
            s.append(path_list_sep_str(p));
        }
        s.append(entries[i].as_str());
        proof {
            assert(all[i as int] == entries@[i as int]@);
            assert(all.take(i + 1).drop_last() =~= all.take(i as int));
            assert(all.take(i + 1).last() == all[i as int]);
            if i == 0 {
                assert(all.take(1)[0] == all[0]);
                assert(s@ =~= join_with(path_list_sep(p), all.take(1)));
            } else {
                assert(s@ =~= join_with(path_list_sep(p), all.take(i + 1)));
            }
        }
        i = i + 1;
    }
    proof {
        assert(all.take(entries@.len() as int) =~= all);
    }
    s
}

} // verus!
