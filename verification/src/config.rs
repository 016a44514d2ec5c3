use vstd::prelude::*;
use crate::text::{trim_spec, trim_spaces};

verus! {

/// Where the configuration file lives: a fixed name under the user's
/// `.config` directory.
pub fn config_path(home: &str) -> (r: String)
    ensures
        r@ == home@ + "/.config/docklett.config"@,
{
    let mut r: String = home.to_owned();
    r.append("/.config/docklett.config");
    r
}

/// The root path stored in the configuration file: its one line, with
/// surrounding whitespace removed.
pub fn parse_root_path(contents: &str) -> (r: String)
    ensures
        r@ == trim_spec(contents@),
{
    trim_spaces(contents)
}

} // verus!
