//! Where the user configuration file lives.
//!
//! The host looks the two environment values up and hands them in as
//! plain strings; the rules that turn them into the configuration path
//! stand here. The configuration directory is `steppe` under the user's
//! configuration root — the explicit override when one is set, otherwise
//! `.config` under the home directory — and the file in it is
//! `config.js`.

use vstd::prelude::*;

verus! {

use vstd::string::StringExecFns;

/// The directory that holds the user configuration, from the
/// environment's override (if any) and the home directory.
pub fn get_config_dir(xdg_config_home: Option<String>, home: &str) -> (r: String)
    ensures
        xdg_config_home matches Some(x) ==> r@ == x@ + "/steppe"@,
        xdg_config_home is None ==> r@ == home@ + "/.config/steppe"@,
{
    match xdg_config_home {
        Some(mut x) => {
            x.append("/steppe");
            x
        },
        None => {
            let mut d = String::from_str(home);
            d.append("/.config/steppe");
            d
        },
    }
}

/// The full path of the user configuration file: `config.js` in the
/// configuration directory.
pub fn get_config_path(xdg_config_home: Option<String>, home: &str) -> (r: String)
    ensures
        xdg_config_home matches Some(x) ==> r@ == x@ + "/steppe/config.js"@,
        xdg_config_home is None ==> r@ == home@ + "/.config/steppe/config.js"@,
{
    let ghost arg = xdg_config_home;
    let mut p = get_config_dir(xdg_config_home, home);
    p.append("/config.js");
    proof {
        reveal_strlit("/steppe");
        reveal_strlit("/config.js");
        reveal_strlit("/steppe/config.js");
        reveal_strlit("/.config/steppe");
        reveal_strlit("/.config/steppe/config.js");
        if arg is Some {
            assert(p@ =~= arg.unwrap()@ + "/steppe/config.js"@);
        } else {
            assert(p@ =~= home@ + "/.config/steppe/config.js"@);
        }
    }
    p
}

/// The text a freshly created configuration file is filled with: an
/// empty module.
pub fn default_config_text() -> (r: &'static str)
    ensures
        r@ == "export {}"@,
{
    "export {}"
}

} // verus!
