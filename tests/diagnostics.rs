use cargo_builder::ansi::strip_ansi_codes;
use cargo_builder::config::{ColorChoice, Config};
use cargo_builder::diagnostics::{
    decode_value, format_for_log, format_for_terminal, parse_cargo_message, CargoMessage,
    DecodeError,
};

fn config_with(terminal_color: ColorChoice, log_color: ColorChoice) -> Config {
    Config {
        log_path: None,
        log_on_success: false,
        log_color,
        terminal_color,
        include_warnings: false,
        show_build_output: false,
        quiet: false,
        cargo_args: vec![],
    }
}

#[test]
fn test_parse_compiler_message() {
    let json_line = r#"{"reason":"compiler-message","package_id":"test 0.1.0 (path+file:///tmp/test)","manifest_path":"/tmp/test/Cargo.toml","target":{"kind":["bin"],"crate_types":["bin"],"name":"test","src_path":"/tmp/test/src/main.rs","edition":"2021","doc":false,"doctest":false,"test":false},"message":{"message":"cannot find value `undefined_var` in this scope","code":{"code":"E0425","explanation":""},"level":"error","spans":[{"file_name":"src/main.rs","byte_start":17,"byte_end":30,"line_start":2,"line_end":2,"column_start":20,"column_end":33,"is_primary":true,"text":[{"text":"    println!(\"{}\", undefined_var);","highlight_start":20,"highlight_end":33}],"label":"not found in this scope","suggested_replacement":null,"suggestion_applicability":null,"expansion":null}],"children":[],"rendered":"error[E0425]: cannot find value `undefined_var` in this scope\n --> src/main.rs:2:20\n  |\n2 |     println!(\"{}\", undefined_var);\n  |                    ^^^^^^^^^^^^^ not found in this scope\n\n"}}"#;

    let result = parse_cargo_message(json_line).unwrap();
    match result {
        Some(CargoMessage::CompilerMessage { level, rendered }) => {
            assert_eq!(level, "error");
            assert!(rendered.contains("cannot find value `undefined_var`"));
        }
        _ => panic!("Expected CompilerMessage"),
    }
}

#[test]
fn test_parse_build_finished() {
    let json_line = r#"{"reason":"build-finished","success":false}"#;
    let result = parse_cargo_message(json_line).unwrap();
    match result {
        Some(CargoMessage::BuildFinished { success }) => {
            assert_eq!(success, false);
        }
        _ => panic!("Expected BuildFinished"),
    }
}

#[test]
fn test_strip_ansi_codes() {
    let text_with_ansi = "\x1b[31merror\x1b[0m: something went wrong";
    let stripped = strip_ansi_codes(text_with_ansi);
    assert_eq!(stripped, "error: something went wrong");
}

#[test]
fn test_non_json_line() {
    let non_json = "This is not JSON";
    let result = parse_cargo_message(non_json).unwrap();
    assert!(result.is_none());
}

#[test]
fn decode_simple_error_message() {
    let line = r#"{"reason":"compiler-message","message":{"level":"error","rendered":"boom"}}"#;
    assert_eq!(
        parse_cargo_message(line),
        Ok(Some(CargoMessage::CompilerMessage {
            level: "error".to_string(),
            rendered: "boom".to_string()
        }))
    );
}

#[test]
fn decode_build_finished_success_true_and_missing() {
    assert_eq!(
        parse_cargo_message(r#"{"reason":"build-finished","success":true}"#),
        Ok(Some(CargoMessage::BuildFinished { success: true }))
    );
    assert_eq!(
        parse_cargo_message(r#"{"reason":"build-finished"}"#),
        Ok(Some(CargoMessage::BuildFinished { success: false }))
    );
    assert_eq!(
        parse_cargo_message(r#"{"reason":"build-finished","success":"yes"}"#),
        Ok(Some(CargoMessage::BuildFinished { success: false }))
    );
}

#[test]
fn decode_empty_rendered_is_dropped() {
    let line = r#"{"reason":"compiler-message","message":{"level":"error","rendered":""}}"#;
    assert_eq!(parse_cargo_message(line), Ok(None));
    let line = r#"{"reason":"compiler-message","message":{"level":"error"}}"#;
    assert_eq!(parse_cargo_message(line), Ok(None));
}

#[test]
fn decode_missing_level_defaults_to_unknown() {
    let line = r#"{"reason":"compiler-message","message":{"rendered":"text"}}"#;
    assert_eq!(
        parse_cargo_message(line),
        Ok(Some(CargoMessage::CompilerMessage {
            level: "unknown".to_string(),
            rendered: "text".to_string()
        }))
    );
}

#[test]
fn decode_missing_message_is_an_error() {
    let line = r#"{"reason":"compiler-message"}"#;
    assert_eq!(parse_cargo_message(line), Err(DecodeError::MissingMessage));
}

#[test]
fn decode_other_reasons_and_blank_lines() {
    assert_eq!(parse_cargo_message(r#"{"reason":"compiler-artifact"}"#), Ok(None));
    assert_eq!(parse_cargo_message(r#"{"success":true}"#), Ok(None));
    assert_eq!(parse_cargo_message("[1, 2, 3]"), Ok(None));
    assert_eq!(parse_cargo_message(""), Ok(None));
    assert_eq!(parse_cargo_message("   \t "), Ok(None));
    assert_eq!(parse_cargo_message("{\"reason\":"), Ok(None));
}

#[test]
fn decode_surrounding_whitespace_is_trimmed() {
    let line = "  {\"reason\":\"build-finished\",\"success\":true}\n";
    assert_eq!(
        parse_cargo_message(line),
        Ok(Some(CargoMessage::BuildFinished { success: true }))
    );
}

#[test]
fn decode_value_on_parsed_document() {
    let v: serde_json::Value =
        serde_json::from_str(r#"{"reason":"compiler-message","message":{"level":"warning","rendered":"w"}}"#)
            .unwrap();
    assert_eq!(
        decode_value(&v),
        Ok(Some(CargoMessage::CompilerMessage {
            level: "warning".to_string(),
            rendered: "w".to_string()
        }))
    );
    let v: serde_json::Value = serde_json::from_str("42").unwrap();
    assert_eq!(decode_value(&v), Ok(None));
}

#[test]
fn strip_scenario_short() {
    assert_eq!(strip_ansi_codes("\x1b[31merror\x1b[0m: x"), "error: x");
}

#[test]
fn strip_keeps_other_control_text() {
    assert_eq!(strip_ansi_codes("a\x1b[1;32Gb\x1b[Kc\x1b[2Hd"), "abcd");
    assert_eq!(strip_ansi_codes("a\x1b[31xb"), "a\x1b[31xb");
    assert_eq!(strip_ansi_codes("tab\there\x07"), "tab\there\x07");
    assert_eq!(strip_ansi_codes(""), "");
}

#[test]
fn strip_twice_equals_once() {
    let text = "\x1b[1m\x1b[31merror\x1b[0m: bad \x1b[Kthing";
    let once = strip_ansi_codes(text);
    assert_eq!(strip_ansi_codes(&once), once);
}

#[test]
fn strip_twice_differs_where_pieces_join() {
    let text = "\x1b[\x1b[31mm";
    let once = strip_ansi_codes(text);
    assert_eq!(once, "\x1b[m");
    assert_eq!(strip_ansi_codes(&once), "");
}

#[test]
fn always_keeps_text_for_both_destinations() {
    let text = "\x1b[31merror\x1b[0m";
    let config = config_with(ColorChoice::Always, ColorChoice::Always);
    assert_eq!(format_for_terminal(text, &config, false), text);
    assert_eq!(format_for_log(text, &config), text);
}

#[test]
fn terminal_format_by_policy() {
    let text = "\x1b[31merror\x1b[0m";
    let never = config_with(ColorChoice::Never, ColorChoice::Never);
    assert_eq!(format_for_terminal(text, &never, true), "error");
    let auto = config_with(ColorChoice::Auto, ColorChoice::Never);
    assert_eq!(format_for_terminal(text, &auto, true), text);
    assert_eq!(format_for_terminal(text, &auto, false), "error");
}

#[test]
fn log_format_auto_strips() {
    let text = "\x1b[31merror\x1b[0m";
    let auto = config_with(ColorChoice::Always, ColorChoice::Auto);
    assert_eq!(format_for_log(text, &auto), "error");
    let never = config_with(ColorChoice::Always, ColorChoice::Never);
    assert_eq!(format_for_log(text, &never), "error");
}

#[test]
fn decode_trims_unicode_white_space() {
    let line = "\u{3000}{\"reason\":\"build-finished\",\"success\":true}\u{a0}";
    assert_eq!(
        parse_cargo_message(line),
        Ok(Some(CargoMessage::BuildFinished { success: true }))
    );
    assert!(serde_json::from_str::<serde_json::Value>(line).is_err());
}
