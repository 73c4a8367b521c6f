//! Window-size resolution for a desktop puzzle game.
//!
//! The library picks the base window dimensions for a platform and
//! difficulty tier from a fixed table, detects the display scale factor
//! on the one scale-aware platform from two fallible text sources, and
//! applies the factor to the base size when it is above one.  A small
//! locale-normalization helper is included as well.
//!
//! All probing of the outside world (reading the monitor-configuration
//! file, running the desktop-settings query, asking for the system
//! locale) happens in the host application, which hands the raw text to
//! the functions here as plain values.

use vstd::prelude::*;

pub mod decimal;
pub mod laws;
pub mod locale;
pub mod scale;
pub mod table;
pub mod text;

use crate::decimal::scale_dim;
use crate::decimal::scaled_spec;
use crate::scale::resolve_scale;
use crate::scale::resolve_scale_spec;
use crate::table::Platform;
use crate::table::classify_spec;
use crate::table::get_window_sizes;
use crate::table::key_spec;
use crate::table::table_size_spec;

verus! {

/// Window dimensions in logical pixels for one difficulty tier on one
/// platform.
#[derive(Clone, Copy, PartialEq, Eq, Structural, Debug)]
pub struct WindowSize {
    pub width: u32,
    pub height: u32,
}

/// The character-sequence view of an optional probe result.
pub open spec fn opt_view(o: Option<&str>) -> Option<Seq<char>> {
    match o {
        Some(s) => Some(s@),
        None => None,
    }
}

/// The window size owed for an operating-system name, a difficulty
/// label and the two probe results: the table's base size for the
/// classified platform and the difficulty, scaled exactly and
/// truncated toward zero when the platform is scale-aware and the
/// resolved factor exceeds one.
pub open spec fn window_size_spec(
    os: Seq<char>,
    difficulty: Seq<char>,
    m: Option<Seq<char>>,
    q: Option<Seq<char>>,
) -> (int, int) {
    let base = table_size_spec(key_spec(classify_spec(os)), difficulty);
    let f = resolve_scale_spec(os, m, q);
    if classify_spec(os) == Platform::Linux && f.0 > f.1 {
        (scaled_spec(base.width as int, f.0, f.1), scaled_spec(base.height as int, f.0, f.1))
    } else {
        (base.width as int, base.height as int)
    }
}

/// The window dimensions for the given difficulty.
///
/// `os` is the running operating system's name; `monitors_xml` is the
/// text of the monitor-configuration file, if it could be read; and
/// `settings_stdout` is the standard output of the desktop-settings
/// query, if the query ran and exited successfully.  Total: every
/// input yields a size, unknown labels falling back to their defaults
/// and every scale-probe failure to the unscaled base size.
pub fn get_window_size(
    os: &str,
    difficulty: &str,
    monitors_xml: Option<&str>,
    settings_stdout: Option<&str>,
) -> (r: (u32, u32))
    ensures
        (r.0 as int, r.1 as int) == window_size_spec(
            os@,
            difficulty@,
            opt_view(monitors_xml),
            opt_view(settings_stdout),
        ),
{
    let sizes = get_window_sizes();
    let platform = Platform::from_os_name(os);
    let size = sizes.lookup_size(platform.table_key(), difficulty);
    if platform == Platform::Linux {
        let factor = resolve_scale(os, monitors_xml, settings_stdout);
        if factor.num > factor.den {
            return (scale_dim(size.width, factor), scale_dim(size.height, factor));
        }
    }
    (size.width, size.height)
}

} // verus!
