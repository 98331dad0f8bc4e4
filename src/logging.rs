use vstd::prelude::*;
use crate::config::{ColorChoice, Config};
use crate::diagnostics::{format_log_text, log_text};

verus! {

/// The two header lines and the blank line that open a log file.
pub open spec fn log_header() -> Seq<char> {
    "cargo-builder error log\n======================\n\n"@
}

/// The blank separator that follows each logged block.
pub open spec fn block_end() -> Seq<char> {
    "\n\n"@
}

/// The error log's state: where it goes, its policy, whether an error has
/// been written, and what the file holds once it has.
pub struct LoggerView {
    pub path: Seq<char>,
    pub log_color: ColorChoice,
    pub keep_on_success: bool,
    pub has_written: bool,
    pub contents: Seq<char>,
}

/// The lifecycle of the error log. The file is created by the first logged
/// error, appended to by each one, and deleted at the end where the build
/// succeeded and the policy does not keep it. This type decides; the caller
/// performs the writes it hands back.
pub struct Logger {
    log_path: String,
    log_color: ColorChoice,
    keep_on_success: bool,
    has_written: bool,
    contents: Ghost<Seq<char>>,
}

/// One write to perform on the log file.
#[derive(Clone, Debug, PartialEq, Eq)]
pub struct LogWrite {
    /// Create the parent directories and open the file afresh, truncating
    /// what a former run left, before appending.
    pub create: bool,
    /// The text to append, then flush.
    pub text: String,
}

impl View for Logger {
    type V = LoggerView;

    closed spec fn view(&self) -> LoggerView {
        LoggerView {
            path: self.log_path@,
            log_color: self.log_color,
            keep_on_success: self.keep_on_success,
            has_written: self.has_written,
            contents: self.contents@,
        }
    }
}

/// A log that nothing has been written to.
pub open spec fn fresh_log(path: Seq<char>, log_color: ColorChoice, keep_on_success: bool) -> LoggerView {
    LoggerView { path, log_color, keep_on_success, has_written: false, contents: seq![] }
}

/// The text that logging `rendered` appends: the header first where the file
/// is new, then the text formatted for the log and a blank line.
pub open spec fn appended_text(v: LoggerView, rendered: Seq<char>) -> Seq<char> {
    (if v.has_written {
        seq![]
    } else {
        log_header()
    }) + log_text(rendered, v.log_color) + block_end()
}

/// The log after `rendered` is logged.
pub open spec fn after_error(v: LoggerView, rendered: Seq<char>) -> LoggerView {
    LoggerView {
        has_written: true,
        contents: (if v.has_written {
            v.contents
        } else {
            seq![]
        }) + appended_text(v, rendered),
        ..v
    }
}

/// Whether finishing with `build_success` deletes the file.
pub open spec fn deletes_log(v: LoggerView, build_success: bool) -> bool {
    build_success && !v.keep_on_success && v.has_written
}

/// What is on disk at the end: nothing where no error was written or the
/// file was deleted, else what was written.
pub open spec fn file_after_finalize(v: LoggerView, build_success: bool) -> Option<Seq<char>> {
    if !v.has_written || deletes_log(v, build_success) {
        None
    } else {
        Some(v.contents)
    }
}

impl Logger {
    /// A log at `log_path` under the policy of `config`; no file is made.
    pub fn new(log_path: &str, config: &Config) -> (r: Logger)
        ensures
            r@ == fresh_log(log_path@, config.log_color, config.log_on_success),
    {
        Logger {
            log_path: log_path.to_owned(),
            log_color: config.log_color,
            keep_on_success: config.log_on_success,
            has_written: false,
            contents: Ghost(Seq::empty()),
        }
    }

    /// Where the log goes.
    pub fn log_path(&self) -> (r: &str)
        ensures
            r@ == self@.path,
    {
        self.log_path.as_str()
    }

    /// Whether an error has been written.
    pub fn has_written(&self) -> (r: bool)
        ensures
            r == self@.has_written,
    {
        self.has_written
    }

    /// Logs one error: says whether the file must be created first, and
    /// what to append to it.
    pub fn log_error(&mut self, rendered: &str) -> (w: LogWrite)
        ensures
            final(self)@ == after_error(old(self)@, rendered@),
            w.create == !old(self)@.has_written,
            w.text@ == appended_text(old(self)@, rendered@),
    {
        let create = !self.has_written;
        let mut text = if create {
            "cargo-builder error log\n======================\n\n".to_owned()
        } else {
            String::new()
        };
        let body = format_log_text(rendered, self.log_color);
        text.append(body.as_str());
        text.append("\n\n");
        let ghost base = if self.has_written {
            self.contents@
        } else {
            seq![]
        };
        self.contents = Ghost(base + text@);
        self.has_written = true;
        LogWrite { create, text }
    }

    /// Ends the log's lifecycle: says whether the file must be deleted.
    pub fn finalize(self, build_success: bool) -> (delete: bool)
        ensures
            delete == deletes_log(self@, build_success),
    {
        build_success && !self.keep_on_success && self.has_written
    }
}

/// One error logged and then finalized under a policy that does not keep
/// the log on success: a successful build leaves no file, and a failed one
/// leaves the header followed by the logged text and a blank line.
pub proof fn lemma_single_error_lifecycle(path: Seq<char>, log_color: ColorChoice, rendered: Seq<char>)
    ensures
        deletes_log(after_error(fresh_log(path, log_color, false), rendered), true),
        file_after_finalize(after_error(fresh_log(path, log_color, false), rendered), true) is None,
        !deletes_log(after_error(fresh_log(path, log_color, false), rendered), false),
        file_after_finalize(after_error(fresh_log(path, log_color, false), rendered), false) == Some(
            log_header() + log_text(rendered, log_color) + block_end(),
        ),
{
    let v = after_error(fresh_log(path, log_color, false), rendered);
    assert(v.contents =~= log_header() + log_text(rendered, log_color) + block_end());
}

/// Finalizing a log that no error was written to neither creates nor deletes
/// a file, whatever the outcome and the policy.
pub proof fn lemma_finalize_untouched(
    path: Seq<char>,
    log_color: ColorChoice,
    keep_on_success: bool,
    build_success: bool,
)
    ensures
        !deletes_log(fresh_log(path, log_color, keep_on_success), build_success),
        file_after_finalize(fresh_log(path, log_color, keep_on_success), build_success) is None,
{
}

} // verus!
