//! The library's stated laws, proved once and for all.
//!
//! Each proof function here states one property of the resolution
//! logic over all inputs its requirements admit.

use vstd::prelude::*;

use crate::window_size_spec;
use crate::scale::chain_spec;
use crate::scale::monitors_scale_spec;
use crate::scale::query_stage_spec;
use crate::scale::resolve_scale_spec;
use crate::scale::settings_scale_spec;
use crate::table::Platform;
use crate::table::classify_spec;
use crate::table::key_spec;
use crate::table::table_size_spec;

verus! {

/// When the resolved factor does not exceed one, the result is the
/// table's base size unscaled, on every platform and for every
/// difficulty.
pub proof fn lemma_factor_at_most_one_ignored(
    os: Seq<char>,
    diff: Seq<char>,
    m: Option<Seq<char>>,
    q: Option<Seq<char>>,
)
    requires
        resolve_scale_spec(os, m, q).0 <= resolve_scale_spec(os, m, q).1,
    ensures
        window_size_spec(os, diff, m, q) == (
            table_size_spec(key_spec(classify_spec(os)), diff).width as int,
            table_size_spec(key_spec(classify_spec(os)), diff).height as int,
        ),
{
}

/// Off the scale-aware platform the probes are ignored entirely: the
/// result is the table's base size unscaled.
pub proof fn lemma_no_scaling_off_linux(
    os: Seq<char>,
    diff: Seq<char>,
    m: Option<Seq<char>>,
    q: Option<Seq<char>>,
)
    requires
        classify_spec(os) != Platform::Linux,
    ensures
        window_size_spec(os, diff, m, q) == (
            table_size_spec(key_spec(classify_spec(os)), diff).width as int,
            table_size_spec(key_spec(classify_spec(os)), diff).height as int,
        ),
{
}

/// For the three canonical difficulties, when no scaling applies, the
/// result is exactly the literal base size of the table.
pub proof fn lemma_canonical_base_sizes(
    os: Seq<char>,
    diff: Seq<char>,
    m: Option<Seq<char>>,
    q: Option<Seq<char>>,
)
    requires
        classify_spec(os) != Platform::Linux || resolve_scale_spec(os, m, q).0
            <= resolve_scale_spec(os, m, q).1,
    ensures
        classify_spec(os) == Platform::Linux && diff == "beginner"@ ==> window_size_spec(
            os,
            diff,
            m,
            q,
        ) == (342int, 450int),
        classify_spec(os) == Platform::Linux && diff == "intermediate"@ ==> window_size_spec(
            os,
            diff,
            m,
            q,
        ) == (569int, 680int),
        classify_spec(os) == Platform::Linux && diff == "expert"@ ==> window_size_spec(
            os,
            diff,
            m,
            q,
        ) == (1013int, 680int),
        classify_spec(os) != Platform::Linux && diff == "beginner"@ ==> window_size_spec(
            os,
            diff,
            m,
            q,
        ) == (362int, 510int),
        classify_spec(os) != Platform::Linux && diff == "intermediate"@ ==> window_size_spec(
            os,
            diff,
            m,
            q,
        ) == (619int, 762int),
        classify_spec(os) != Platform::Linux && diff == "expert"@ ==> window_size_spec(
            os,
            diff,
            m,
            q,
        ) == (1123int, 762int),
{
    reveal_strlit("windows");
    reveal_strlit("linux");
    reveal_strlit("macos");
    reveal_strlit("beginner");
    reveal_strlit("intermediate");
    reveal_strlit("expert");
    assert("windows"@.len() == 7);
    assert("linux"@.len() == 5);
    assert("macos"@.len() == 5);
    assert("linux"@[0] == 'l' && "macos"@[0] == 'm');
    assert("beginner"@.len() == 8);
    assert("intermediate"@.len() == 12);
    assert("expert"@.len() == 6);
}

/// An unknown difficulty resolves exactly as beginner does, on every
/// platform and with every probe outcome.
pub proof fn lemma_unknown_difficulty_is_beginner(
    os: Seq<char>,
    diff: Seq<char>,
    m: Option<Seq<char>>,
    q: Option<Seq<char>>,
)
    requires
        diff != "beginner"@,
        diff != "intermediate"@,
        diff != "expert"@,
    ensures
        window_size_spec(os, diff, m, q) == window_size_spec(os, "beginner"@, m, q),
{
}

/// An operating-system name that is neither windows nor linux
/// resolves exactly as macos does: the macos bucket, not the windows
/// one.
pub proof fn lemma_unknown_platform_is_macos(
    os: Seq<char>,
    diff: Seq<char>,
    m: Option<Seq<char>>,
    q: Option<Seq<char>>,
)
    requires
        os != "windows"@,
        os != "linux"@,
    ensures
        window_size_spec(os, diff, m, q) == window_size_spec("macos"@, diff, m, q),
{
    reveal_strlit("windows");
    reveal_strlit("linux");
    reveal_strlit("macos");
    assert("windows"@.len() == 7);
    assert("linux"@.len() == 5);
    assert("macos"@.len() == 5);
    assert("linux"@[0] == 'l' && "macos"@[0] == 'm');
    assert(classify_spec(os) == Platform::Macos);
    assert(classify_spec("macos"@) == Platform::Macos);
}

/// The monitor-configuration file takes precedence: when it names a
/// factor, the chain yields that factor whatever the settings query
/// would have said.
pub proof fn lemma_file_takes_precedence(
    content: Seq<char>,
    q: Option<Seq<char>>,
    f: (int, int),
)
    requires
        monitors_scale_spec(content) == Some(f),
    ensures
        chain_spec(Some(content), q) == f,
{
}

/// When the file is absent and the settings query names a factor, the
/// chain yields the query's factor.
pub proof fn lemma_settings_fallback(out: Seq<char>, f: (int, int))
    requires
        settings_scale_spec(out) == Some(f),
    ensures
        chain_spec(None, Some(out)) == f,
{
}

/// When both sources fail entirely, the resolved factor is exactly
/// one, on every platform.
pub proof fn lemma_default_identity(
    os: Seq<char>,
    m: Option<Seq<char>>,
    q: Option<Seq<char>>,
)
    requires
        match m {
            Some(c) => monitors_scale_spec(c) is None,
            None => true,
        },
        match q {
            Some(out) => settings_scale_spec(out) is None,
            None => true,
        },
    ensures
        resolve_scale_spec(os, m, q) == (1int, 1int),
{
    assert(query_stage_spec(q) == (1int, 1int));
}

/// Resolution is deterministic: two results owed for identical inputs
/// are identical, so repeated calls under an unchanged environment
/// return the same size.
pub proof fn lemma_idempotent(
    os: Seq<char>,
    diff: Seq<char>,
    m: Option<Seq<char>>,
    q: Option<Seq<char>>,
    r1: (u32, u32),
    r2: (u32, u32),
)
    requires
        (r1.0 as int, r1.1 as int) == window_size_spec(os, diff, m, q),
        (r2.0 as int, r2.1 as int) == window_size_spec(os, diff, m, q),
    ensures
        r1 == r2,
{
}

} // verus!
