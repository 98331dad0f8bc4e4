use vstd::prelude::*;
use crate::ansi::{ansi_stripped, strip_ansi_codes};
use crate::config::{ColorChoice, Config};
use crate::json::{
    bool_or, field_of, json_as_bool, json_as_str, json_content, json_get, parse_json, parsed_json,
    str_or, Json,
};
use crate::text::str_equal;

verus! {

/// One decoded line of the build tool's message stream.
#[derive(Clone, Debug, PartialEq, Eq)]
pub enum CargoMessage {
    CompilerMessage { level: String, rendered: String },
    BuildFinished { success: bool },
}

/// A decoded message as plain values.
pub enum MessageView {
    CompilerMessage { level: Seq<char>, rendered: Seq<char> },
    BuildFinished { success: bool },
}

impl View for CargoMessage {
    type V = MessageView;

    open spec fn view(&self) -> MessageView {
        match self {
            CargoMessage::CompilerMessage { level, rendered } => MessageView::CompilerMessage {
                level: level@,
                rendered: rendered@,
            },
            CargoMessage::BuildFinished { success } => MessageView::BuildFinished {
                success: *success,
            },
        }
    }
}

/// A structured line that breaks the message protocol.
#[derive(Clone, Copy, Debug, PartialEq, Eq, Structural)]
pub enum DecodeError {
    /// A `compiler-message` line without its nested `message` object.
    MissingMessage,
}

/// What a parsed message object decodes to.
pub open spec fn decode_json(j: Json) -> Result<Option<MessageView>, DecodeError> {
    let reason = str_or(field_of(j, "reason"@), ""@);
    if reason == "compiler-message"@ {
        match field_of(j, "message"@) {
            None => Err(DecodeError::MissingMessage),
            Some(m) => {
                let level = str_or(field_of(m, "level"@), "unknown"@);
                let rendered = str_or(field_of(m, "rendered"@), ""@);
                if rendered.len() > 0 {
                    Ok(Some(MessageView::CompilerMessage { level, rendered }))
                } else {
                    Ok(None)
                }
            },
        }
    } else if reason == "build-finished"@ {
        Ok(Some(MessageView::BuildFinished { success: bool_or(field_of(j, "success"@), false) }))
    } else {
        Ok(None)
    }
}

/// The JSON document a line holds, if it holds one: nothing for a blank
/// line.
pub open spec fn line_json(line: Seq<char>) -> Option<Json> {
    let t = trimmed(line);
    if t.len() == 0 {
        None
    } else {
        parsed_json(t)
    }
}

/// What a line of the stream decodes to: nothing for a blank line or one
/// that is not JSON.
pub open spec fn decode_line(line: Seq<char>) -> Result<Option<MessageView>, DecodeError> {
    match line_json(line) {
        None => Ok(None),
        Some(j) => decode_json(j),
    }
}

/// The view of a decoding result.
pub open spec fn result_view(r: Result<Option<CargoMessage>, DecodeError>) -> Result<
    Option<MessageView>,
    DecodeError,
> {
    match r {
        Ok(Some(m)) => Ok(Some(m@)),
        Ok(None) => Ok(None),
        Err(e) => Err(e),
    }
}

/// Whether a character has the Unicode `White_Space` property.
pub uninterp spec fn white_space(c: char) -> bool;

/// `s` without its leading white space.
pub open spec fn trim_start(s: Seq<char>) -> Seq<char>
    decreases s.len(),
{
    if s.len() > 0 && white_space(s[0]) {
        trim_start(s.drop_first())
    } else {
        s
    }
}

/// `s` without its trailing white space.
pub open spec fn trim_end(s: Seq<char>) -> Seq<char>
    decreases s.len(),
{
    if s.len() > 0 && white_space(s.last()) {
        trim_end(s.drop_last())
    } else {
        s
    }
}

/// `s` without leading and trailing white space.
pub open spec fn trimmed(s: Seq<char>) -> Seq<char> {
    trim_end(trim_start(s))
}

/// Relies on `str::trim`: it removes the leading and trailing characters
/// for which `char::is_whitespace` holds, that is those with the Unicode
/// `White_Space` property.
#[verifier::external_body]
fn trim_text(s: &str) -> (r: &str)
    ensures
        r@ == trimmed(s@),
        r@.len() > 0 ==> !white_space(r@[0]) && !white_space(r@.last()),
{
    s.trim()
}

fn str_field_or<'a>(v: &'a serde_json::Value, key: &str, default: &'a str) -> (r: &'a str)
    ensures
        r@ == str_or(field_of(json_content(*v), key@), default@),
{
    match json_get(v, key) {
        Some(x) => match json_as_str(x) {
            Some(s) => s,
            None => default,
        },
        None => default,
    }
}

/// Decodes a parsed message object.
pub fn decode_value(v: &serde_json::Value) -> (r: Result<Option<CargoMessage>, DecodeError>)
    ensures
        result_view(r) == decode_json(json_content(*v)),
{
    let reason = str_field_or(v, "reason", "");
    if str_equal(reason, "compiler-message") {
        match json_get(v, "message") {
            None => Err(DecodeError::MissingMessage),
            Some(m) => {
                let level = str_field_or(m, "level", "unknown").to_owned();
                let rendered = str_field_or(m, "rendered", "").to_owned();
                if rendered.as_str().is_empty() {
                    Ok(None)
                } else {
                    Ok(Some(CargoMessage::CompilerMessage { level, rendered }))
                }
            },
        }
    } else if str_equal(reason, "build-finished") {
        let success = match json_get(v, "success") {
            Some(x) => match json_as_bool(x) {
                Some(b) => b,
                None => false,
            },
            None => false,
        };
        Ok(Some(CargoMessage::BuildFinished { success }))
    } else {
        Ok(None)
    }
}

/// Decodes one line of the build tool's message stream. Lines that are
/// blank, not JSON, or of a kind not handled here give `Ok(None)`.
pub fn parse_cargo_message(line: &str) -> (r: Result<Option<CargoMessage>, DecodeError>)
    ensures
        result_view(r) == decode_line(line@),
{
    let t = trim_text(line);
    if t.is_empty() {
        return Ok(None);
    }
    match parse_json(t) {
        None => Ok(None),
        Some(v) => decode_value(&v),
    }
}

/// The text shown on the terminal: kept as it is under `Always`, and under
/// `Auto` where the terminal takes color; stripped otherwise.
pub open spec fn terminal_text(rendered: Seq<char>, choice: ColorChoice, color_ok: bool) -> Seq<
    char,
> {
    match choice {
        ColorChoice::Always => rendered,
        ColorChoice::Never => ansi_stripped(rendered),
        ColorChoice::Auto => if color_ok {
            rendered
        } else {
            ansi_stripped(rendered)
        },
    }
}

/// The text written to the log: kept as it is only under `Always`.
pub open spec fn log_text(rendered: Seq<char>, choice: ColorChoice) -> Seq<char> {
    match choice {
        ColorChoice::Always => rendered,
        _ => ansi_stripped(rendered),
    }
}

/// Formats rendered text for the terminal. `color_ok` is what the terminal
/// color resolver answered; it counts only under `Auto`.
pub fn format_for_terminal(rendered: &str, config: &Config, color_ok: bool) -> (r: String)
    ensures
        r@ == terminal_text(rendered@, config.terminal_color, color_ok),
{
    match config.terminal_color {
        ColorChoice::Never => strip_ansi_codes(rendered),
        ColorChoice::Always => rendered.to_owned(),
        ColorChoice::Auto => {
            if color_ok {
                rendered.to_owned()
            } else {
                strip_ansi_codes(rendered)
            }
        },
    }
}

/// Formats rendered text for the log file.
pub fn format_for_log(rendered: &str, config: &Config) -> (r: String)
    ensures
        r@ == log_text(rendered@, config.log_color),
{
    format_log_text(rendered, config.log_color)
}

/// Formats rendered text for a log under the color choice `log_color`.
pub(crate) fn format_log_text(rendered: &str, log_color: ColorChoice) -> (r: String)
    ensures
        r@ == log_text(rendered@, log_color),
{
    match log_color {
        ColorChoice::Always => rendered.to_owned(),
        ColorChoice::Never => strip_ansi_codes(rendered),
        ColorChoice::Auto => strip_ansi_codes(rendered),
    }
}

/// A `compiler-message` line decodes to a compiler message with the level
/// and the rendered text it carries when that text is not empty, and to
/// nothing when it is.
pub proof fn lemma_compiler_message_decodes(
    line: Seq<char>,
    j: Json,
    m: Json,
    level: Seq<char>,
    rendered: Seq<char>,
)
    requires
        line_json(line) == Some(j),
        field_of(j, "reason"@) == Some(Json::Str("compiler-message"@)),
        field_of(j, "message"@) == Some(m),
        field_of(m, "level"@) == Some(Json::Str(level)),
        field_of(m, "rendered"@) == Some(Json::Str(rendered)),
    ensures
        rendered.len() > 0 ==> decode_line(line) == Ok::<Option<MessageView>, DecodeError>(
            Some(MessageView::CompilerMessage { level, rendered }),
        ),
        rendered.len() == 0 ==> decode_line(line) == Ok::<Option<MessageView>, DecodeError>(None),
{
}

/// A `build-finished` line decodes to the success flag it carries, and to
/// `false` where it carries none.
pub proof fn lemma_build_finished_decodes(line: Seq<char>, j: Json)
    requires
        line_json(line) == Some(j),
        field_of(j, "reason"@) == Some(Json::Str("build-finished"@)),
    ensures
        decode_line(line) == Ok::<Option<MessageView>, DecodeError>(
            Some(MessageView::BuildFinished { success: bool_or(field_of(j, "success"@), false) }),
        ),
        field_of(j, "success"@) is None ==> decode_line(line) == Ok::<Option<MessageView>, DecodeError>(
            Some(MessageView::BuildFinished { success: false }),
        ),
{
    reveal_strlit("build-finished");
    reveal_strlit("compiler-message");
    assert("build-finished"@[0] != "compiler-message"@[0]);
}

/// A line that holds no JSON document decodes to nothing, never to an error.
pub proof fn lemma_unstructured_line_ignored(line: Seq<char>)
    requires
        line_json(line) is None,
    ensures
        decode_line(line) == Ok::<Option<MessageView>, DecodeError>(None),
{
}

/// Under `Always` both destinations get the text unchanged.
pub proof fn lemma_always_keeps_text(text: Seq<char>, color_ok: bool)
    ensures
        terminal_text(text, ColorChoice::Always, color_ok) == text,
        log_text(text, ColorChoice::Always) == text,
{
}

} // verus!
