//! Resolution of the per-user configuration root and the paths beneath it.
//!
//! The root is chosen from environment state handed in as plain values:
//! `XDG_CONFIG_HOME` if set and non-empty; on Windows only, `APPDATA` if set
//! and non-empty; otherwise a `.config` directory beneath `HOME`, again only
//! when it is set and non-empty — an empty source cannot supply a per-user
//! directory, so with all three absent or empty nothing resolves. Under the
//! root the tool keeps a `rillio` directory with an empty `config.toml` and
//! an empty `secrets.env`.

use vstd::prelude::*;
use vstd::string::StringExecFns;

verus! {

/// True when the environment variable value is present and non-empty.
pub open spec fn set_nonempty(v: Option<String>) -> bool {
    v is Some && v->0@.len() > 0
}

/// The configuration root chosen from the three environment sources, or
/// `None` when none of them resolves.
pub open spec fn root_of(
    xdg: Option<String>,
    appdata: Option<String>,
    home: Option<String>,
    windows: bool,
) -> Option<Seq<char>> {
    if set_nonempty(xdg) {
        Some(xdg->0@)
    } else if windows && set_nonempty(appdata) {
        Some(appdata->0@)
    } else if set_nonempty(home) {
        Some(home->0@ + "/.config"@)
    } else {
        None
    }
}

/// Picks the configuration root: `XDG_CONFIG_HOME` when set and non-empty,
/// then (on Windows) `APPDATA` when set and non-empty, then `<HOME>/.config`
/// when `HOME` is set and non-empty; `None` when all three sources are
/// absent or empty.
pub fn resolve_config_root(
    xdg: Option<String>,
    appdata: Option<String>,
    home: Option<String>,
    windows: bool,
) -> (r: Option<String>)
    ensures
        r is Some <==> root_of(xdg, appdata, home, windows) is Some,
        r matches Some(root) ==> root@ == root_of(xdg, appdata, home, windows)->0,
{
    match xdg {
        Some(x) => {
            if !x.as_str().is_empty() {
                return Some(x);
            }
        },
        None => {},
    }
    if windows {
        match appdata {
            Some(a) => {
                if !a.as_str().is_empty() {
                    return Some(a);
                }
            },
            None => {},
        }
    }
    match home {
        Some(h) => {
            if !h.as_str().is_empty() {
                Some(h.concat("/.config"))
            } else {
                None
            }
        },
        None => None,
    }
}

/// The directory that holds both bootstrap files: `<root>/rillio`.
pub open spec fn rillio_dir_of(root: Seq<char>) -> Seq<char> {
    root + "/rillio"@
}

/// The config file path: `<root>/rillio/config.toml`.
pub open spec fn config_file_of(root: Seq<char>) -> Seq<char> {
    rillio_dir_of(root) + "/config.toml"@
}

/// The secrets file path: `<root>/rillio/secrets.env`.
pub open spec fn secrets_file_of(root: Seq<char>) -> Seq<char> {
    rillio_dir_of(root) + "/secrets.env"@
}

/// Builds `<root>/rillio`.
pub fn rillio_dir(root: &str) -> (d: String)
    ensures
        d@ == rillio_dir_of(root@),
{
    String::from_str(root).concat("/rillio")
}

/// Builds `<root>/rillio/config.toml`.
pub fn config_file_path(root: &str) -> (p: String)
    ensures
        p@ == config_file_of(root@),
{
    rillio_dir(root).concat("/config.toml")
}

/// Builds `<root>/rillio/secrets.env`.
pub fn secrets_file_path(root: &str) -> (p: String)
    ensures
        p@ == secrets_file_of(root@),
{
    rillio_dir(root).concat("/secrets.env")
}

} // verus!
