use brain_core::text::{decimal_string, parse_i64, str_equals_ignoring_ascii_case, trim_string};
use brain_core::types::{Agent, DispatchId, Model, ProjectId, Provider, TaskId};

#[test]
fn parse_i64_accepts_sign_and_digits() {
    assert_eq!(parse_i64("42"), Some(42));
    assert_eq!(parse_i64("+42"), Some(42));
    assert_eq!(parse_i64("-42"), Some(-42));
    assert_eq!(parse_i64("007"), Some(7));
    assert_eq!(parse_i64("-0"), Some(0));
}

#[test]
fn parse_i64_limits() {
    assert_eq!(parse_i64("9223372036854775807"), Some(i64::MAX));
    assert_eq!(parse_i64("-9223372036854775808"), Some(i64::MIN));
    assert_eq!(parse_i64("9223372036854775808"), None);
    assert_eq!(parse_i64("-9223372036854775809"), None);
    assert_eq!(parse_i64("99999999999999999999999999999999999999999"), None);
}

#[test]
fn parse_i64_rejects_malformed_text() {
    for s in ["", "-", "+", " 5", "5 ", "1_000", "--1", "+-1", "4a", "\u{661}"] {
        assert_eq!(parse_i64(s), None, "{s:?}");
        assert_eq!(parse_i64(s), s.parse::<i64>().ok(), "{s:?}");
    }
}

#[test]
fn parse_i64_agrees_with_std_on_samples() {
    for s in ["0", "1", "-1", "+0", "12345678901234", "-9223372036854775807", "000000000000000000000000012"] {
        assert_eq!(parse_i64(s), s.parse::<i64>().ok(), "{s:?}");
    }
}

#[test]
fn decimal_string_matches_display() {
    for n in [0i64, 7, -7, 10, 99, 100, -100, i64::MAX, i64::MIN, 1234567890] {
        assert_eq!(decimal_string(n), n.to_string());
    }
}

#[test]
fn trim_removes_unicode_white_space() {
    assert_eq!(trim_string("  Rune  "), "Rune");
    assert_eq!(trim_string("\u{3000}\u{a0}x y\t\n\u{2029}"), "x y");
    assert_eq!(trim_string(" \u{85} "), "");
    assert_eq!(trim_string("\u{200b}x"), "\u{200b}x");
    for s in ["", " a ", "\u{2000}\u{200a}b\u{202f}", "\u{1680}c\u{205f}", "\u{b}\u{c}d\r"] {
        assert_eq!(trim_string(s), s.trim(), "{s:?}");
    }
}

#[test]
fn ascii_case_folding_compare() {
    assert!(str_equals_ignoring_ascii_case("OpenAI", "openai"));
    assert!(str_equals_ignoring_ascii_case("GOOGLE", "google"));
    assert!(!str_equals_ignoring_ascii_case("googl", "google"));
    assert!(!str_equals_ignoring_ascii_case("go0gle", "google"));
}

#[test]
fn id_parse_error_messages() {
    assert_eq!(
        "abc".parse::<TaskId>().unwrap_err(),
        "invalid task id 'abc', expected positive integer"
    );
    assert_eq!(
        "-3".parse::<DispatchId>().unwrap_err(),
        "invalid dispatch id '-3', must be positive"
    );
    assert_eq!(
        "+0".parse::<ProjectId>().unwrap_err(),
        "invalid project id '0', must be positive"
    );
    assert_eq!("+12".parse::<TaskId>().unwrap(), TaskId(12));
}

#[test]
fn id_text_round_trips() {
    for n in [1i64, 9, 10, 4096, i64::MAX] {
        assert_eq!(TaskId(n).to_string().parse::<TaskId>().unwrap(), TaskId(n));
        assert_eq!(DispatchId(n).to_string().parse::<DispatchId>().unwrap(), DispatchId(n));
        assert_eq!(ProjectId(n).to_string().parse::<ProjectId>().unwrap(), ProjectId(n));
    }
}

#[test]
fn name_parse_messages_and_idempotence() {
    assert_eq!("".parse::<Agent>().unwrap_err(), "agent name cannot be empty");
    assert_eq!(" \t".parse::<Model>().unwrap_err(), "model name cannot be empty");
    let a = "\u{a0} Forge \n".parse::<Agent>().unwrap();
    assert_eq!(a, Agent("Forge".to_string()));
    assert_eq!(a.to_string().parse::<Agent>().unwrap(), a);
}

#[test]
fn provider_trims_and_round_trips() {
    assert_eq!("  Anthropic ".parse::<Provider>().unwrap(), Provider::Anthropic);
    assert_eq!(" Mistral ".parse::<Provider>().unwrap(), Provider::Other("Mistral".to_string()));
    assert_eq!("   ".parse::<Provider>().unwrap_err(), "provider cannot be empty");
    for p in [
        Provider::Anthropic,
        Provider::Google,
        Provider::OpenAi,
        Provider::Other("deepseek".to_string()),
    ] {
        assert_eq!(p.to_string().parse::<Provider>().unwrap(), p);
    }
    assert_eq!(Provider::Other("x y".to_string()).to_string(), "x y");
}
