use vstd::prelude::*;
use crate::text::{str_equal, views};

verus! {

/// A three-way color policy, applied to one destination.
#[derive(Clone, Copy, Debug, PartialEq, Eq, Structural)]
pub enum ColorChoice {
    Auto,
    Never,
    Always,
}

/// A color choice string that is none of `auto`, `never`, `always`.
#[derive(Clone, Debug, PartialEq, Eq)]
pub struct InvalidColorChoice {
    pub value: String,
}

/// The color choice a string names, if any.
pub open spec fn color_choice_of(s: Seq<char>) -> Option<ColorChoice> {
    if s == "auto"@ {
        Some(ColorChoice::Auto)
    } else if s == "never"@ {
        Some(ColorChoice::Never)
    } else if s == "always"@ {
        Some(ColorChoice::Always)
    } else {
        None
    }
}

/// Reads `auto`, `never` or `always`; any other string is an error that
/// carries it.
pub fn parse_color_choice(s: &str) -> (r: Result<ColorChoice, InvalidColorChoice>)
    ensures
        match r {
            Ok(c) => color_choice_of(s@) == Some(c),
            Err(e) => color_choice_of(s@) is None && e.value@ == s@,
        },
{
    if str_equal(s, "auto") {
        Ok(ColorChoice::Auto)
    } else if str_equal(s, "never") {
        Ok(ColorChoice::Never)
    } else if str_equal(s, "always") {
        Ok(ColorChoice::Always)
    } else {
        Err(InvalidColorChoice { value: s.to_string() })
    }
}

impl std::str::FromStr for ColorChoice {
    type Err = InvalidColorChoice;

    fn from_str(s: &str) -> Result<ColorChoice, InvalidColorChoice> {
        parse_color_choice(s)
    }
}

/// The settings of one invocation.
#[derive(Clone, Debug)]
pub struct Config {
    pub log_path: Option<String>,
    pub log_on_success: bool,
    pub log_color: ColorChoice,
    pub terminal_color: ColorChoice,
    pub include_warnings: bool,
    pub show_build_output: bool,
    pub quiet: bool,
    pub cargo_args: Vec<String>,
}

/// A flag of this tool that takes the next argument as its value.
pub open spec fn is_value_flag(a: Seq<char>) -> bool {
    a == "--log"@ || a == "--log-color"@ || a == "--terminal-color"@
}

/// A flag of this tool that takes no value.
pub open spec fn is_switch_flag(a: Seq<char>) -> bool {
    a == "--log-on-success"@ || a == "--include-warnings"@ || a == "--show-build-output"@
        || a == "--quiet"@ || a == "-q"@ || a == "--help"@ || a == "-h"@ || a == "--version"@
        || a == "-V"@
}

/// How the arguments from position `i` on split into this tool's arguments
/// and the build tool's: everything after `--` goes to the build tool; a
/// switch of this tool stays with it; a flag that takes a value takes the
/// next argument with it, and is kept twice where it is the last argument;
/// anything else goes to the build tool.
pub open spec fn split_from(args: Seq<Seq<char>>, i: int) -> (Seq<Seq<char>>, Seq<Seq<char>>)
    decreases args.len() - i,
{
    if i < 0 || i >= args.len() {
        (seq![], seq![])
    } else {
        let a = args[i];
        if a == "--"@ {
            (seq![], args.subrange(i + 1, args.len() as int))
        } else if is_switch_flag(a) {
            let rest = split_from(args, i + 1);
            (seq![a] + rest.0, rest.1)
        } else if is_value_flag(a) {
            if i + 1 < args.len() {
                let rest = split_from(args, i + 2);
                (seq![a, args[i + 1]] + rest.0, rest.1)
            } else {
                let rest = split_from(args, i + 1);
                (seq![a, a] + rest.0, rest.1)
            }
        } else {
            let rest = split_from(args, i + 1);
            (rest.0, seq![a] + rest.1)
        }
    }
}

fn is_value_flag_exec(a: &str) -> (r: bool)
    ensures
        r == is_value_flag(a@),
{
    str_equal(a, "--log") || str_equal(a, "--log-color") || str_equal(a, "--terminal-color")
}

fn is_switch_flag_exec(a: &str) -> (r: bool)
    ensures
        r == is_switch_flag(a@),
{
    str_equal(a, "--log-on-success") || str_equal(a, "--include-warnings") || str_equal(
        a,
        "--show-build-output",
    ) || str_equal(a, "--quiet") || str_equal(a, "-q") || str_equal(a, "--help") || str_equal(
        a,
        "-h",
    ) || str_equal(a, "--version") || str_equal(a, "-V")
}

/// Splits the command line into this tool's arguments and the arguments
/// forwarded to the build tool, as `split_from` describes.
pub fn separate_arguments(args: &[String]) -> (r: (Vec<String>, Vec<String>))
    ensures
        (views(r.0@), views(r.1@)) == split_from(views(args@), 0),
{
    let ghost all = views(args@);
    let mut tool_args: Vec<String> = Vec::new();
    let mut cargo_args: Vec<String> = Vec::new();
    let mut i: usize = 0;
    while i < args.len()
        invariant
            all == views(args@),
            i <= args.len(),
            split_from(all, 0) == (views(tool_args@) + split_from(all, i as int).0, views(
                cargo_args@,
            ) + split_from(all, i as int).1),
        decreases args.len() - i,
    {
        let arg = &args[i];
        let ghost a = all[i as int];
        assert(arg@ == a);
        if str_equal(arg.as_str(), "--") {
            let mut j: usize = i + 1;
            let ghost base = views(cargo_args@);
            while j < args.len()
                invariant
                    all == views(args@),
                    i < j <= args.len(),
                    views(cargo_args@) == base + all.subrange(i + 1, j as int),
                decreases args.len() - j,
            {
                let ghost before = cargo_args@;
                let item = args[j].clone();
                assert(item@ == all[j as int]);
                cargo_args.push(item);
                assert(cargo_args@ == before.push(item));
                assert(views(cargo_args@) =~= views(before).push(all[j as int]));
                assert(views(cargo_args@) =~= base + all.subrange(i + 1, j + 1));
                j = j + 1;
            }
            assert(split_from(all, i as int).0 =~= seq![]);
            assert(views(tool_args@) + seq![] =~= views(tool_args@));
            assert(all.subrange(i + 1, args.len() as int) =~= split_from(all, i as int).1);
            return (tool_args, cargo_args);
        }
        let ghost t0 = views(tool_args@);
        let ghost c0 = views(cargo_args@);
        if is_switch_flag_exec(arg.as_str()) {
            tool_args.push(arg.clone());
            assert(views(tool_args@) =~= t0 + seq![a]);
            assert(t0 + (seq![a] + split_from(all, i + 1).0) =~= views(tool_args@) + split_from(
                all,
                i + 1,
            ).0);
            i = i + 1;
        } else if is_value_flag_exec(arg.as_str()) {
            tool_args.push(arg.clone());
            if i + 1 < args.len() {
                tool_args.push(args[i + 1].clone());
                assert(views(tool_args@) =~= t0 + seq![a, all[i + 1]]);
                assert(t0 + (seq![a, all[i + 1]] + split_from(all, i + 2).0) =~= views(tool_args@)
                    + split_from(all, i + 2).0);
                i = i + 2;
            } else {
                tool_args.push(arg.clone());
                assert(views(tool_args@) =~= t0 + seq![a, a]);
                assert(t0 + (seq![a, a] + split_from(all, i + 1).0) =~= views(tool_args@)
                    + split_from(all, i + 1).0);
                i = i + 1;
            }
        } else {
            cargo_args.push(arg.clone());
            assert(views(cargo_args@) =~= c0 + seq![a]);
            assert(c0 + (seq![a] + split_from(all, i + 1).1) =~= views(cargo_args@) + split_from(
                all,
                i + 1,
            ).1);
            i = i + 1;
        }
    }
    assert(views(tool_args@) + seq![] =~= views(tool_args@));
    assert(views(cargo_args@) + seq![] =~= views(cargo_args@));
    (tool_args, cargo_args)
}

} // verus!
