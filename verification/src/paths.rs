//! Filesystem paths as text (Unix conventions): joining, the containing
//! directory, and where configuration lives.

use vstd::prelude::*;

verus! {

/// A Unix path is absolute when it starts at the root.
pub open spec fn is_abs(p: Seq<char>) -> bool {
    p.len() > 0 && p[0] == '/'
}

/// `base` joined with `p` (`Path::join` on Unix): an absolute `p` replaces
/// `base`; otherwise `p` is appended after a `/` unless `base` is empty or
/// already ends in one.
pub open spec fn path_join(base: Seq<char>, p: Seq<char>) -> Seq<char> {
    if is_abs(p) {
        p
    } else if base.len() == 0 || base.last() == '/' {
        base + p
    } else {
        base + seq!['/'] + p
    }
}

/// What `Path::parent` gives for a path (its last component removed), or
/// `None` for a root or an empty path.
pub uninterp spec fn std_path_parent(p: Seq<char>) -> Option<Seq<char>>;

/// Whether the path is absolute.
pub fn is_absolute(p: &str) -> (r: bool)
    ensures
        r == is_abs(p@),
{
    p.unicode_len() > 0 && p.get_char(0) == '/'
}

/// `base` joined with `p` (see `path_join`).
pub fn join(base: &str, p: &str) -> (r: String)
    ensures
        r@ == path_join(base@, p@),
{
    if is_absolute(p) {
        return p.to_string();
    }
    let n = base.unicode_len();
    let mut out = base.to_string();
    if n > 0 && base.get_char(n - 1) != '/' {
        proof {
            reveal_strlit("/");
            assert("/"@ =~= seq!['/']);
        }
        out.append("/");
    }
    out.append(p);
    proof {
        if n > 0 {
            assert(base@.last() == base@[n - 1]);
        }
    }
    out
}

/// `Path::parent`, as text.
#[verifier::external_body]
fn parent(p: &str) -> (r: Option<String>)
    ensures
        match r {
            Some(s) => std_path_parent(p@) == Some(s@),
            None => std_path_parent(p@) is None,
        },
{
    std::path::Path::new(p).parent().map(|q| q.to_string_lossy().into_owned())
}

/// The directory holding `path`: its parent, or `.` when it has none or an
/// empty one.
pub open spec fn spec_dir_of(path: Seq<char>) -> Seq<char> {
    match std_path_parent(path) {
        Some(q) if q.len() > 0 => q,
        _ => seq!['.'],
    }
}

/// The directory holding `path`, or `.` when it has no parent component.
pub fn dir_of(path: &str) -> (r: String)
    ensures
        r@ == spec_dir_of(path@),
{
    match parent(path) {
        Some(q) => {
            if !q.as_str().is_empty() {
                q
            } else {
                proof {
                    reveal_strlit(".");
                }
                ".".to_string()
            }
        },
        None => {
            proof {
                reveal_strlit(".");
            }
            ".".to_string()
        },
    }
}

/// `path` resolved against `base_dir`: an absolute path unchanged, a
/// relative one joined onto the base.
pub fn resolve_relative(base_dir: &str, path: &str) -> (r: String)
    ensures
        is_abs(path@) ==> r@ == path@,
        !is_abs(path@) ==> r@ == path_join(base_dir@, path@),
{
    if is_absolute(path) {
        path.to_string()
    } else {
        join(base_dir, path)
    }
}

/// The name of the application's configuration directory.
pub open spec fn app_dir_name() -> Seq<char> {
    seq![
        'c', 'r', 'y', 'p', 't', 'o', '-', 'p', 'r', 'i', 'c', 'e', '-', 't', 'r', 'a', 'c', 'k',
        'e', 'r', '-', 'v', '2',
    ]
}

/// The base directory for configuration: `$XDG_CONFIG_HOME` when set and
/// non-empty, else `$HOME/.config` when `HOME` is set and non-empty.
pub open spec fn config_base(xdg: Option<Seq<char>>, home: Option<Seq<char>>) -> Option<Seq<char>> {
    match xdg {
        Some(x) if x.len() > 0 => Some(x),
        _ => match home {
            Some(h) if h.len() > 0 => Some(path_join(h, seq!['.', 'c', 'o', 'n', 'f', 'i', 'g'])),
            _ => None,
        },
    }
}

/// The global configuration file below `base`.
pub open spec fn config_file_in(base: Seq<char>) -> Seq<char> {
    path_join(path_join(base, app_dir_name()), seq!['c', 'o', 'n', 'f', 'i', 'g', '.', 'j', 's', 'o', 'n'])
}

/// The global configuration path from the values of `XDG_CONFIG_HOME` and
/// `HOME`: `<base>/crypto-price-tracker-v2/config.json`, or `None` when
/// neither gives a base.
pub fn global_config_path_from(xdg: Option<&str>, home: Option<&str>) -> (r: Option<String>)
    ensures
        match config_base(opt_view(xdg), opt_view(home)) {
            Some(b) => r matches Some(p) && p@ == config_file_in(b),
            None => r is None,
        },
{
    proof {
        reveal_strlit(".config");
        reveal_strlit("crypto-price-tracker-v2");
        reveal_strlit("config.json");
        assert(".config"@ =~= seq!['.', 'c', 'o', 'n', 'f', 'i', 'g']);
        assert("crypto-price-tracker-v2"@ =~= app_dir_name());
        assert("config.json"@ =~= seq!['c', 'o', 'n', 'f', 'i', 'g', '.', 'j', 's', 'o', 'n']);
    }
    let base = match xdg {
        Some(x) if !x.is_empty() => x.to_string(),
        _ => match home {
            Some(h) if !h.is_empty() => join(h, ".config"),
            _ => {
                return None;
            },
        },
    };
    let dir = join(base.as_str(), "crypto-price-tracker-v2");
    Some(join(dir.as_str(), "config.json"))
}

/// An optional text as an optional character sequence.
pub open spec fn opt_view(s: Option<&str>) -> Option<Seq<char>> {
    match s {
        Some(x) => Some(x@),
        None => None,
    }
}

} // verus!
