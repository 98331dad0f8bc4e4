use vstd::prelude::*;
use crate::config::{ColorChoice, Config};
use crate::diagnostics::{
    decode_line, format_for_terminal, parse_cargo_message, terminal_text, CargoMessage, DecodeError,
    MessageView,
};
use crate::logging::{after_error, appended_text, deletes_log, LogWrite, Logger};
use crate::text::{str_equal, views};

verus! {

/// What the coordinator tracks while the build's output streams in.
#[derive(Clone, Copy, Debug, PartialEq, Eq, Structural)]
pub struct RunState {
    /// The success flag of the last build-finished message, once one came.
    pub build_success: Option<bool>,
    /// Whether an error was routed.
    pub has_errors: bool,
}

impl RunState {
    /// The state before any message.
    pub fn new() -> (r: RunState)
        ensures
            r.build_success is None,
            !r.has_errors,
    {
        RunState { build_success: None, has_errors: false }
    }
}

/// Where one decoded message goes.
#[derive(Clone, Debug, PartialEq, Eq)]
pub struct Routing {
    /// Text to print on the terminal, already formatted for it.
    pub terminal: Option<String>,
    /// Rendered text to hand to the error log.
    pub log: Option<String>,
}

/// Where a message goes, as (terminal text, logged text): errors always go
/// to both; warnings go to the terminal only where warnings are included,
/// and to the log only where, besides, the log is kept on success; other
/// levels and build-finished messages go nowhere.
pub open spec fn route(
    m: MessageView,
    include_warnings: bool,
    keep_on_success: bool,
    terminal_color: ColorChoice,
    color_ok: bool,
) -> (Option<Seq<char>>, Option<Seq<char>>) {
    match m {
        MessageView::CompilerMessage { level, rendered } => if level == "error"@ {
            (Some(terminal_text(rendered, terminal_color, color_ok)), Some(rendered))
        } else if level == "warning"@ && include_warnings {
            (
                Some(terminal_text(rendered, terminal_color, color_ok)),
                if keep_on_success {
                    Some(rendered)
                } else {
                    None
                },
            )
        } else {
            (None, None)
        },
        MessageView::BuildFinished { .. } => (None, None),
    }
}

/// The state after a message: an error is recorded, and a build-finished
/// message replaces the recorded outcome.
pub open spec fn state_after(s: RunState, m: MessageView) -> RunState {
    match m {
        MessageView::CompilerMessage { level, .. } => if level == "error"@ {
            RunState { has_errors: true, ..s }
        } else {
            s
        },
        MessageView::BuildFinished { success } => RunState { build_success: Some(success), ..s },
    }
}

/// The character view of an optional string.
pub open spec fn opt_text(o: Option<String>) -> Option<Seq<char>> {
    match o {
        Some(s) => Some(s@),
        None => None,
    }
}

/// Routes one decoded message and records what it tells of the build.
/// `color_ok` is what the terminal color resolver answered.
pub fn route_message(state: &mut RunState, msg: &CargoMessage, config: &Config, color_ok: bool) -> (r: Routing)
    ensures
        (opt_text(r.terminal), opt_text(r.log)) == route(
            msg@,
            config.include_warnings,
            config.log_on_success,
            config.terminal_color,
            color_ok,
        ),
        *final(state) == state_after(*old(state), msg@),
{
    match msg {
        CargoMessage::CompilerMessage { level, rendered } => {
            if str_equal(level.as_str(), "error") {
                state.has_errors = true;
                let shown = format_for_terminal(rendered.as_str(), config, color_ok);
                Routing { terminal: Some(shown), log: Some(rendered.clone()) }
            } else if str_equal(level.as_str(), "warning") && config.include_warnings {
                let shown = format_for_terminal(rendered.as_str(), config, color_ok);
                let log = if config.log_on_success {
                    Some(rendered.clone())
                } else {
                    None
                };
                Routing { terminal: Some(shown), log }
            } else {
                Routing { terminal: None, log: None }
            }
        },
        CargoMessage::BuildFinished { success } => {
            state.build_success = Some(*success);
            Routing { terminal: None, log: None }
        },
    }
}

/// Lines joined with a newline between each two.
pub open spec fn joined(lines: Seq<Seq<char>>) -> Seq<char>
    decreases lines.len(),
{
    if lines.len() == 0 {
        seq![]
    } else if lines.len() == 1 {
        lines[0]
    } else {
        joined(lines.drop_last()) + "\n"@ + lines.last()
    }
}

/// Joins lines with a newline between each two.
pub fn join_lines(lines: &Vec<String>) -> (r: String)
    ensures
        r@ == joined(views(lines@)),
{
    let ghost all = views(lines@);
    let mut out = String::new();
    let mut i: usize = 0;
    while i < lines.len()
        invariant
            all == views(lines@),
            i <= lines.len(),
            out@ == joined(all.subrange(0, i as int)),
        decreases lines.len() - i,
    {
        let ghost before = all.subrange(0, i as int);
        if i > 0 {
            out.append("\n");
        }
        out.append(lines[i].as_str());
        assert(all.subrange(0, i + 1).drop_last() =~= before);
        assert(i == 0 ==> all.subrange(0, i + 1) =~= seq![all[0]]);
        i = i + 1;
    }
    assert(all.subrange(0, lines.len() as int) =~= all);
    out
}

/// How a run ends.
#[derive(Clone, Debug, PartialEq, Eq)]
pub struct Outcome {
    /// The exit code to return: the child's own, or 1 where it had none.
    pub exit_code: i32,
    /// Whether the build succeeded.
    pub final_success: bool,
    /// Captured error output to log as one block, where the build failed
    /// without a structured error.
    pub fallback: Option<String>,
    /// Whether an error was routed or is logged from the fallback.
    pub has_errors: bool,
    /// The outcome to finalize the error log with.
    pub log_success: bool,
}

/// The exit code: the child's own, or 1 where it had none.
pub open spec fn exit_code_of(code: Option<i32>) -> i32 {
    match code {
        Some(c) => c,
        None => 1,
    }
}

/// Whether the build succeeded: the last build-finished flag, or else
/// whether the exit code is 0.
pub open spec fn success_of(s: RunState, code: Option<i32>) -> bool {
    match s.build_success {
        Some(b) => b,
        None => exit_code_of(code) == 0,
    }
}

/// Whether the captured error output is logged: the build failed, no error
/// was routed, and the captured text is not empty.
pub open spec fn uses_fallback(s: RunState, code: Option<i32>, captured: Seq<Seq<char>>) -> bool {
    !success_of(s, code) && !s.has_errors && joined(captured).len() > 0
}

/// Decides how a run ends from the state after the stream, the child's exit
/// code and the captured error output lines.
pub fn finish_run(state: &RunState, exit_code: Option<i32>, captured_stderr: &Vec<String>) -> (r: Outcome)
    ensures
        r.exit_code == exit_code_of(exit_code),
        r.final_success == success_of(*state, exit_code),
        r.fallback is Some == uses_fallback(*state, exit_code, views(captured_stderr@)),
        r.fallback is Some ==> r.fallback->0@ == joined(views(captured_stderr@)),
        r.has_errors == (state.has_errors || r.fallback is Some),
        r.log_success == (r.final_success && !r.has_errors),
{
    let code = match exit_code {
        Some(c) => c,
        None => 1,
    };
    let final_success = match state.build_success {
        Some(b) => b,
        None => code == 0,
    };
    let mut fallback = None;
    if !final_success && !state.has_errors {
        let text = join_lines(captured_stderr);
        if !text.as_str().is_empty() {
            fallback = Some(text);
        }
    }
    let has_errors = state.has_errors || fallback.is_some();
    Outcome {
        exit_code: code,
        final_success,
        fallback,
        has_errors,
        log_success: final_success && !has_errors,
    }
}

/// The arguments of the build invocation: the build subcommand, the
/// message-format flag, then the forwarded arguments.
pub fn build_command_args(config: &Config) -> (r: Vec<String>)
    ensures
        views(r@) == seq!["build"@, "--message-format=json-diagnostic-rendered-ansi"@] + views(
            config.cargo_args@,
        ),
{
    let mut args: Vec<String> = Vec::new();
    args.push("build".to_owned());
    args.push("--message-format=json-diagnostic-rendered-ansi".to_owned());
    let ghost head = views(args@);
    let mut i: usize = 0;
    while i < config.cargo_args.len()
        invariant
            i <= config.cargo_args.len(),
            views(args@) == head + views(config.cargo_args@).subrange(0, i as int),
            head == seq!["build"@, "--message-format=json-diagnostic-rendered-ansi"@],
        decreases config.cargo_args.len() - i,
    {
        let ghost before = args@;
        let a = config.cargo_args[i].clone();
        args.push(a);
        assert(args@ == before.push(a));
        assert(a@ == views(config.cargo_args@)[i as int]);
        assert(views(args@) =~= views(before).push(a@));
        assert(views(args@) =~= head + views(config.cargo_args@).subrange(0, i + 1));
        i = i + 1;
    }
    assert(views(config.cargo_args@).subrange(0, i as int) =~= views(config.cargo_args@));
    args
}

/// The `RUSTFLAGS` for the child: untouched where warnings are included,
/// else the existing flags with `-Awarnings` appended after a space (or
/// alone, where there were none).
pub open spec fn rustflags_for(existing: Seq<char>, include_warnings: bool) -> Option<Seq<char>> {
    if include_warnings {
        None
    } else if existing.len() == 0 {
        Some("-Awarnings"@)
    } else {
        Some(existing + " "@ + "-Awarnings"@)
    }
}

/// The `RUSTFLAGS` to set for the child, given the current value (empty
/// where unset), or nothing to leave it alone.
pub fn child_rustflags(existing: &str, config: &Config) -> (r: Option<String>)
    ensures
        opt_text(r) == rustflags_for(existing@, config.include_warnings),
{
    if config.include_warnings {
        return None;
    }
    let mut flags = existing.to_owned();
    if !existing.is_empty() {
        flags.append(" ");
    }
    flags.append("-Awarnings");
    proof {
        if existing@.len() == 0 {
            assert(flags@ =~= "-Awarnings"@);
        }
    }
    Some(flags)
}

/// The `CARGO_TERM_COLOR` for the child: set for an explicit terminal color
/// choice, left alone under `Auto`.
pub open spec fn term_color_for(choice: ColorChoice) -> Option<Seq<char>> {
    match choice {
        ColorChoice::Always => Some("always"@),
        ColorChoice::Never => Some("never"@),
        ColorChoice::Auto => None,
    }
}

/// The `CARGO_TERM_COLOR` to set for the child, or nothing to leave it.
pub fn child_term_color(config: &Config) -> (r: Option<String>)
    ensures
        opt_text(r) == term_color_for(config.terminal_color),
{
    match config.terminal_color {
        ColorChoice::Always => Some("always".to_owned()),
        ColorChoice::Never => Some("never".to_owned()),
        ColorChoice::Auto => None,
    }
}

/// What one line of the build's output asks for.
#[derive(Clone, Debug, PartialEq, Eq)]
pub struct LineOutput {
    /// Text to print on the terminal.
    pub terminal: Option<String>,
    /// A write to perform on the error log.
    pub log: Option<LogWrite>,
}

/// Decodes one line of the build's output, routes it, records it in the run
/// state and hands what is to be logged to the error log. A line that
/// breaks the protocol is an error, and nothing is changed.
pub fn handle_line(
    state: &mut RunState,
    logger: &mut Logger,
    line: &str,
    config: &Config,
    color_ok: bool,
) -> (r: Result<LineOutput, DecodeError>)
    ensures
        match decode_line(line@) {
            Err(e) => r == Err::<LineOutput, DecodeError>(e) && *final(state) == *old(state)
                && final(logger)@ == old(logger)@,
            Ok(None) => r is Ok && r->Ok_0.terminal is None && r->Ok_0.log is None && *final(state)
                == *old(state) && final(logger)@ == old(logger)@,
            Ok(Some(m)) => {
                let routed = route(
                    m,
                    config.include_warnings,
                    config.log_on_success,
                    config.terminal_color,
                    color_ok,
                );
                &&& r is Ok
                &&& opt_text(r->Ok_0.terminal) == routed.0
                &&& *final(state) == state_after(*old(state), m)
                &&& match routed.1 {
                    Some(t) => r->Ok_0.log is Some && r->Ok_0.log->0.create == !old(logger)@.has_written
                        && r->Ok_0.log->0.text@ == appended_text(old(logger)@, t) && final(logger)@
                        == after_error(old(logger)@, t),
                    None => r->Ok_0.log is None && final(logger)@ == old(logger)@,
                }
            },
        },
{
    match parse_cargo_message(line) {
        Err(e) => Err(e),
        Ok(None) => Ok(LineOutput { terminal: None, log: None }),
        Ok(Some(msg)) => {
            let routing = route_message(state, &msg, config, color_ok);
            let log = match routing.log {
                Some(text) => Some(logger.log_error(text.as_str())),
                None => None,
            };
            Ok(LineOutput { terminal: routing.terminal, log })
        },
    }
}

/// How a run ends, with what is left to do to the error log.
#[derive(Clone, Debug, PartialEq, Eq)]
pub struct RunEnd {
    pub outcome: Outcome,
    /// The write of the fallback block, where there is one.
    pub fallback_write: Option<LogWrite>,
    /// Whether the log file is to be deleted.
    pub delete_log: bool,
}

/// Ends a run: decides the outcome, logs the captured error output where
/// the fallback applies, and finalizes the error log.
pub fn close_run(state: &RunState, logger: Logger, exit_code: Option<i32>, captured_stderr: &Vec<String>) -> (r: RunEnd)
    ensures
        r.outcome.exit_code == exit_code_of(exit_code),
        r.outcome.final_success == success_of(*state, exit_code),
        r.outcome.fallback is Some == uses_fallback(*state, exit_code, views(captured_stderr@)),
        r.outcome.has_errors == (state.has_errors || r.outcome.fallback is Some),
        r.outcome.log_success == (r.outcome.final_success && !r.outcome.has_errors),
        r.fallback_write is Some == r.outcome.fallback is Some,
        r.fallback_write is Some ==> r.fallback_write->0.create == !logger@.has_written
            && r.fallback_write->0.text@ == appended_text(logger@, joined(views(captured_stderr@))),
        r.delete_log == deletes_log(
            if r.fallback_write is Some {
                after_error(logger@, joined(views(captured_stderr@)))
            } else {
                logger@
            },
            r.outcome.log_success,
        ),
{
    let outcome = finish_run(state, exit_code, captured_stderr);
    let mut logger = logger;
    let fallback_write = match &outcome.fallback {
        Some(text) => Some(logger.log_error(text.as_str())),
        None => None,
    };
    let delete_log = logger.finalize(outcome.log_success);
    RunEnd { outcome, fallback_write, delete_log }
}

/// Without the include-warnings flag a warning goes neither to the terminal
/// nor to the log, whatever the color policies.
pub proof fn lemma_warnings_dropped(
    rendered: Seq<char>,
    keep_on_success: bool,
    terminal_color: ColorChoice,
    color_ok: bool,
)
    ensures
        route(
            MessageView::CompilerMessage { level: "warning"@, rendered },
            false,
            keep_on_success,
            terminal_color,
            color_ok,
        ) == (None::<Seq<char>>, None::<Seq<char>>),
{
    reveal_strlit("warning");
    reveal_strlit("error");
    assert("warning"@[0] != "error"@[0]);
}

} // verus!
