use cargo_builder::term::{should_use_color, ColorEnv};

fn env(no_color: Option<&str>, cargo_term_color: Option<&str>, term: Option<&str>) -> ColorEnv {
    ColorEnv {
        no_color: no_color.map(|s| s.to_string()),
        cargo_term_color: cargo_term_color.map(|s| s.to_string()),
        term: term.map(|s| s.to_string()),
    }
}

#[test]
fn test_no_color_env_var() {
    assert_eq!(should_use_color(&env(Some("1"), None, None), true), false);
}

#[test]
fn test_cargo_term_color_always() {
    assert_eq!(should_use_color(&env(None, Some("always"), None), false), true);
}

#[test]
fn test_cargo_term_color_never() {
    assert_eq!(should_use_color(&env(None, Some("never"), None), true), false);
}

#[test]
fn test_term_dumb() {
    assert_eq!(should_use_color(&env(None, None, Some("dumb")), true), false);
}

#[test]
fn empty_no_color_is_ignored() {
    assert_eq!(should_use_color(&env(Some(""), None, None), true), true);
    assert_eq!(should_use_color(&env(Some(""), None, None), false), false);
}

#[test]
fn cargo_term_color_auto_uses_terminal_check_before_term() {
    assert_eq!(should_use_color(&env(None, Some("auto"), Some("dumb")), true), true);
    assert_eq!(should_use_color(&env(None, Some("other"), None), false), false);
    assert_eq!(should_use_color(&env(Some("1"), Some("always"), None), true), false);
}

#[test]
fn no_signal_uses_terminal_check() {
    assert_eq!(should_use_color(&env(None, None, Some("xterm")), true), true);
    assert_eq!(should_use_color(&env(None, None, None), false), false);
}
