//! Display scale detection from the two text sources.
//!
//! The scale factor is probed in priority order: first the
//! monitor-configuration file's `<scale>` element, then the output of
//! the desktop-settings query.  Each source that is absent, malformed
//! or not strictly positive degrades to the next, and the chain ends
//! in the identity factor.  Only the linux platform is scale-aware;
//! everywhere else the factor is the identity, whatever the probes
//! hold.

use vstd::prelude::*;

use crate::decimal::ScaleFactor;
use crate::decimal::parse_positive_decimal;
use crate::decimal::pos_dec_val;
use crate::table::Platform;
use crate::table::classify_spec;
use crate::text::find_sub;
use crate::text::first_match;
use crate::text::has_prefix;
use crate::text::lemma_first_match;
use crate::text::trim;
use crate::text::trim_spec;

verus! {

/// The scale factor named by the monitor-configuration file: the
/// trimmed text between the first `<scale>` tag and the first closing
/// tag after it, read as a strictly positive decimal numeral.
pub open spec fn monitors_scale_spec(content: Seq<char>) -> Option<(int, int)> {
    match first_match(content, "<scale>"@) {
        None => None,
        Some(i) => {
            let rest = content.subrange(i + "<scale>"@.len(), content.len() as int);
            match first_match(rest, "</scale>"@) {
                None => None,
                Some(j) => pos_dec_val(trim_spec(rest.subrange(0, j))),
            }
        },
    }
}

/// The scale factor named by the settings-query output: the trimmed
/// output, less a leading `uint32 ` type tag if one is there, read as
/// a strictly positive decimal numeral.
pub open spec fn settings_scale_spec(out: Seq<char>) -> Option<(int, int)> {
    let t = trim_spec(out);
    let u = if t.len() >= "uint32 "@.len() && t.subrange(0, "uint32 "@.len() as int)
        == "uint32 "@ {
        t.subrange("uint32 "@.len() as int, t.len() as int)
    } else {
        t
    };
    pos_dec_val(u)
}

/// What the settings-query stage of the chain yields: the query's
/// factor, or the identity when the query failed or its output names
/// no positive number.
pub open spec fn query_stage_spec(q: Option<Seq<char>>) -> (int, int) {
    match q {
        Some(out) => match settings_scale_spec(out) {
            Some(f) => f,
            None => (1int, 1int),
        },
        None => (1int, 1int),
    }
}

/// The full fallback chain on the scale-aware platform: the file's
/// factor if the file was read and names one, else the query stage.
pub open spec fn chain_spec(m: Option<Seq<char>>, q: Option<Seq<char>>) -> (int, int) {
    match m {
        Some(content) => match monitors_scale_spec(content) {
            Some(f) => f,
            None => query_stage_spec(q),
        },
        None => query_stage_spec(q),
    }
}

/// The resolved scale factor: the chain's result on linux, the
/// identity on every other platform.
pub open spec fn resolve_scale_spec(
    os: Seq<char>,
    m: Option<Seq<char>>,
    q: Option<Seq<char>>,
) -> (int, int) {
    if classify_spec(os) == Platform::Linux {
        chain_spec(m, q)
    } else {
        (1int, 1int)
    }
}

/// Read the scale factor out of the monitor-configuration file's
/// text, if its first `<scale>` element holds a positive number.
pub fn scale_from_monitors_xml(content: &str) -> (r: Option<ScaleFactor>)
    ensures
        match r {
            Some(f) => monitors_scale_spec(content@) == Some((f.num as int, f.den as int))
                && f.wf(),
            None => monitors_scale_spec(content@) is None,
        },
{
    proof {
        reveal_strlit("<scale>");
        reveal_strlit("</scale>");
    }
    let n = content.unicode_len();
    match find_sub(content, "<scale>") {
        None => None,
        Some(i) => {
            proof {
                lemma_first_match(content@, "<scale>"@);
            }
            let rest = content.substring_char(i + 7, n);
            match find_sub(rest, "</scale>") {
                None => None,
                Some(j) => {
                    proof {
                        lemma_first_match(rest@, "</scale>"@);
                    }
                    let inner = rest.substring_char(0, j);
                    let trimmed = trim(inner);
                    parse_positive_decimal(trimmed)
                },
            }
        },
    }
}

/// Read the scale factor out of the settings-query output, if it
/// holds a positive number after the `uint32 ` tag is stripped.
pub fn scale_from_settings_output(out: &str) -> (r: Option<ScaleFactor>)
    ensures
        match r {
            Some(f) => settings_scale_spec(out@) == Some((f.num as int, f.den as int)) && f.wf(),
            None => settings_scale_spec(out@) is None,
        },
{
    proof {
        reveal_strlit("uint32 ");
    }
    let t = trim(out);
    if has_prefix(t, "uint32 ") {
        let rest = t.substring_char(7, t.unicode_len());
        parse_positive_decimal(rest)
    } else {
        parse_positive_decimal(t)
    }
}

/// Resolve the display scale factor for the given platform from the
/// two probe results: the monitor-configuration file's text, if it
/// could be read, and the settings-query output, if the query ran and
/// succeeded.  Total: every failure mode yields the identity factor.
pub fn resolve_scale(os: &str, monitors_xml: Option<&str>, settings_stdout: Option<&str>) -> (f:
    ScaleFactor)
    ensures
        f.wf(),
        (f.num as int, f.den as int) == resolve_scale_spec(
            os@,
            crate::opt_view(monitors_xml),
            crate::opt_view(settings_stdout),
        ),
{
    let p = Platform::from_os_name(os);
    if p != Platform::Linux {
        return ScaleFactor::identity();
    }
    match monitors_xml {
        Some(content) => {
            match scale_from_monitors_xml(content) {
                Some(f) => f,
                None => query_stage(settings_stdout),
            }
        },
        None => query_stage(settings_stdout),
    }
}

/// The settings-query stage of the chain.
fn query_stage(settings_stdout: Option<&str>) -> (f: ScaleFactor)
    ensures
        f.wf(),
        (f.num as int, f.den as int) == query_stage_spec(crate::opt_view(settings_stdout)),
{
    match settings_stdout {
        Some(out) => {
            match scale_from_settings_output(out) {
                Some(f) => f,
                None => ScaleFactor::identity(),
            }
        },
        None => ScaleFactor::identity(),
    }
}

} // verus!
