//! Where the configuration file lives.

use vstd::prelude::*;

verus! {

/// `base` joined with the relative component `comp`, as a path: no separator
/// is added after an empty base or one that already ends in '/'.
pub open spec fn path_join(base: Seq<char>, comp: Seq<char>) -> Seq<char> {
    if base.len() == 0 {
        comp
    } else if base.last() == '/' {
        base + comp
    } else {
        base + "/"@ + comp
    }
}

pub fn join(base: String, comp: &str) -> (r: String)
    ensures
        r@ == path_join(base@, comp@),
{
    let mut s = base;
    let n = s.as_str().unicode_len();
    if n == 0 {
        return comp.to_owned();
    }
    let last = s.as_str().get_char(n - 1);
    if last != '/' {
        s.append("/");
    }
    s.append(comp);
    proof { reveal_strlit("/"); }
    s
}

/// The directory configuration lives under: `XDG_CONFIG_HOME` when set,
/// otherwise `.config` under `HOME` (or under the current directory).
pub open spec fn config_base(xdg: Option<Seq<char>>, home: Option<Seq<char>>) -> Seq<char> {
    match xdg {
        Some(x) => x,
        None => path_join(
            match home {
                Some(h) => h,
                None => "."@,
            },
            ".config"@,
        ),
    }
}

/// The configuration file's path, given the values of `XDG_CONFIG_HOME` and `HOME`.
pub fn config_path(xdg_config_home: Option<&str>, home: Option<&str>) -> (r: String)
    ensures
        r@ == path_join(
            path_join(config_base(crate::json::opt_str_view(xdg_config_home), crate::json::opt_str_view(home)), "hypr-overlay"@),
            "config.toml"@,
        ),
{
    let base = match xdg_config_home {
        Some(x) => x.to_owned(),
        None => {
            let h = match home {
                Some(h) => h.to_owned(),
                None => ".".to_owned(),
            };
            join(h, ".config")
        },
    };
    join(join(base, "hypr-overlay"), "config.toml")
}

} // verus!
