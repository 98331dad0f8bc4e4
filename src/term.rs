use vstd::prelude::*;
use crate::text::str_equal;

verus! {

/// The environment signals that decide whether the terminal gets color:
/// `NO_COLOR`, `CARGO_TERM_COLOR` and `TERM`, each where it is set.
#[derive(Clone, Debug)]
pub struct ColorEnv {
    pub no_color: Option<String>,
    pub cargo_term_color: Option<String>,
    pub term: Option<String>,
}

/// The character view of an optional string.
pub open spec fn opt_view(o: Option<String>) -> Option<Seq<char>> {
    match o {
        Some(s) => Some(s@),
        None => None,
    }
}

/// Whether the terminal gets color, first match winning: a non-empty
/// `NO_COLOR` says no; a set `CARGO_TERM_COLOR` says yes for `always`, no for
/// `never`, and leaves it to the terminal check otherwise; `TERM=dumb` says
/// no; else the terminal check decides.
pub open spec fn color_wanted(
    no_color: Option<Seq<char>>,
    cargo_term_color: Option<Seq<char>>,
    term: Option<Seq<char>>,
    is_terminal: bool,
) -> bool {
    if no_color is Some && no_color->0.len() > 0 {
        false
    } else if cargo_term_color is Some {
        if cargo_term_color->0 == "always"@ {
            true
        } else if cargo_term_color->0 == "never"@ {
            false
        } else {
            is_terminal
        }
    } else if term == Some("dumb"@) {
        false
    } else {
        is_terminal
    }
}

/// `color_wanted` for the signals in `env`.
pub open spec fn env_color_wanted(env: ColorEnv, is_terminal: bool) -> bool {
    color_wanted(opt_view(env.no_color), opt_view(env.cargo_term_color), opt_view(env.term), is_terminal)
}

/// Decides whether the terminal gets color, given the environment signals
/// and whether standard error is a terminal.
pub fn should_use_color(env: &ColorEnv, stderr_is_terminal: bool) -> (r: bool)
    ensures
        r == env_color_wanted(*env, stderr_is_terminal),
{
    if let Some(v) = &env.no_color {
        if !v.as_str().is_empty() {
            return false;
        }
    }
    if let Some(v) = &env.cargo_term_color {
        if str_equal(v.as_str(), "always") {
            return true;
        } else if str_equal(v.as_str(), "never") {
            return false;
        } else {
            return stderr_is_terminal;
        }
    }
    if let Some(v) = &env.term {
        if str_equal(v.as_str(), "dumb") {
            return false;
        }
    }
    stderr_is_terminal
}

/// Relies on `atty::is(atty::Stream::Stderr)`: whether standard error is a
/// terminal. The answer depends on the process, so nothing is stated of it.
#[verifier::external_body]
fn stderr_is_terminal() -> bool {
    atty::is(atty::Stream::Stderr)
}

/// Decides whether the terminal gets color, asking the operating system
/// whether standard error is a terminal.
pub fn terminal_should_color(env: &ColorEnv) -> (r: bool)
    ensures
        exists|t: bool| r == env_color_wanted(*env, t),
{
    let t = stderr_is_terminal();
    should_use_color(env, t)
}

} // verus!
