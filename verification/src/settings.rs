//! Language-server settings: the log level and the environment the analyzer
//! is started with.

use vstd::prelude::*;
use crate::json::{json_string_member, json_text_member};
use crate::text::str_equal;

verus! {

/// The level used when the settings name none, or one that is not known.
pub open spec fn default_level() -> Seq<char> {
    "info"@
}

/// The levels that `lsp.greycat.settings.level` may name.
pub open spec fn is_known_level(level: Seq<char>) -> bool {
    level == "off"@ || level == "info"@ || level == "debug"@ || level == "trace"@
}

/// The level in effect for a raw `level` setting: a known level is kept,
/// anything else, or no setting, falls back to `info`.
pub open spec fn spec_level(raw: Option<Seq<char>>) -> Seq<char> {
    match raw {
        Some(v) => if is_known_level(v) { v } else { default_level() },
        None => default_level(),
    }
}

/// Picks the log level from the text of the `level` setting.
pub fn level_from_setting(raw: Option<&str>) -> (res: &'static str)
    ensures
        res@ == spec_level(match raw { Some(v) => Some(v@), None => None }),
        is_known_level(res@),
{
    match raw {
        None => "info",
        Some(v) => {
            if str_equal(v, "off") {
                "off"
            } else if str_equal(v, "info") {
                "info"
            } else if str_equal(v, "debug") {
                "debug"
            } else if str_equal(v, "trace") {
                "trace"
            } else {
                "info"
            }
        },
    }
}

/// The text of the `level` member of the settings object, if there are
/// settings and the member is a string.
pub open spec fn level_setting(settings: Option<serde_json::Value>) -> Option<Seq<char>> {
    match settings {
        Some(v) => json_text_member(v, "level"@),
        None => None,
    }
}

/// Reads `level` from the language server's `settings` object: the level the
/// `level` member's text names, or `info` when there are no settings, no such
/// member, or it is not a string or not a known level.
pub fn resolve_level(settings: Option<&serde_json::Value>) -> (res: &'static str)
    ensures
        res@ == spec_level(level_setting(match settings { Some(v) => Some(*v), None => None })),
        is_known_level(res@),
{
    let raw = match settings {
        Some(v) => json_string_member(v, "level"),
        None => None,
    };
    level_from_setting(raw)
}

/// `RUST_LOG` for a level: `off` silences everything, any other level is
/// applied to the analyzer's own crates.
pub open spec fn spec_rust_log(level: Seq<char>) -> Seq<char> {
    if level == "off"@ {
        "off"@
    } else {
        "greycat_analyzer_server="@ + level + ","@ + "greycat_analyzer_core="@ + level + ","@
            + "greycat_analyzer_analysis="@ + level
    }
}

/// Builds the `RUST_LOG` filter for the analyzer.
pub fn build_rust_log(level: &str) -> (res: String)
    ensures
        res@ == spec_rust_log(level@),
{
    if str_equal(level, "off") {
        return String::from_str("off");
    }
    let mut res = String::from_str("greycat_analyzer_server=");
    res.append(level);
    res.append(",");
    res.append("greycat_analyzer_core=");
    res.append(level);
    res.append(",");
    res.append("greycat_analyzer_analysis=");
    res.append(level);
    res
}

/// The level named by the settings' `level` member is the level in effect
/// when it is one of `off`, `info`, `debug`, `trace` (matched exactly); with
/// no settings, no such string member, or any other text, it is `info`.
pub proof fn law_level_from_settings(settings: Option<serde_json::Value>)
    ensures
        ({
            let named = match settings {
                Some(v) => json_text_member(v, "level"@),
                None => None,
            };
            let level = spec_level(level_setting(settings));
            &&& named == Some("off"@) ==> level == "off"@
            &&& named == Some("info"@) ==> level == "info"@
            &&& named == Some("debug"@) ==> level == "debug"@
            &&& named == Some("trace"@) ==> level == "trace"@
            &&& (named != Some("off"@) && named != Some("info"@) && named != Some("debug"@)
                && named != Some("trace"@)) ==> level == "info"@
        }),
{
}

/// Different levels give different `RUST_LOG` filters; in particular only
/// `off` silences the analyzer, and every other level reaches its crates.
pub proof fn law_rust_log_keeps_level(a: Seq<char>, b: Seq<char>)
    ensures
        spec_rust_log(a) == spec_rust_log(b) ==> a == b,
        spec_rust_log(a) == "off"@ <==> a == "off"@,
{
    reveal_strlit("off");
    reveal_strlit("greycat_analyzer_server=");
    reveal_strlit("greycat_analyzer_core=");
    reveal_strlit("greycat_analyzer_analysis=");
    reveal_strlit(",");
    lemma_rust_log_shape(a);
    lemma_rust_log_shape(b);
    if spec_rust_log(a) == spec_rust_log(b) && a != "off"@ && b != "off"@ {
        assert(a.len() == b.len());
        assert(a =~= spec_rust_log(a).subrange(24, 24 + a.len() as int));
        assert(b =~= spec_rust_log(b).subrange(24, 24 + b.len() as int));
    }
}

/// For a level other than `off`, the filter is 24 characters of prefix, then
/// the level, and is `3 * len + 74` characters long.
proof fn lemma_rust_log_shape(l: Seq<char>)
    requires
        "greycat_analyzer_server="@.len() == 24,
        "greycat_analyzer_core="@.len() == 22,
        "greycat_analyzer_analysis="@.len() == 26,
        ","@.len() == 1,
        "off"@.len() == 3,
    ensures
        l != "off"@ ==> spec_rust_log(l).len() == 3 * l.len() + 74 && spec_rust_log(l).subrange(24, 24 + l.len() as int) =~= l,
{
}

/// The environment the analyzer runs with: backtraces on, and the log filter.
pub open spec fn spec_env(level: Seq<char>) -> Seq<(Seq<char>, Seq<char>)> {
    seq![("RUST_BACKTRACE"@, "1"@), ("RUST_LOG"@, spec_rust_log(level))]
}

/// Builds the analyzer's environment variables for a level.
pub fn build_env(level: &str) -> (res: Vec<(String, String)>)
    ensures
        res.deep_view() == spec_env(level@),
{
    let mut env: Vec<(String, String)> = Vec::new();
    env.push((String::from_str("RUST_BACKTRACE"), String::from_str("1")));
    env.push((String::from_str("RUST_LOG"), build_rust_log(level)));
    assert(env.deep_view() =~= spec_env(level@));
    env
}

} // verus!
