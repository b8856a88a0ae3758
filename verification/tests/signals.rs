use kuro::cli::signal::{kill_signal_text, parse_signal, signal_from_upper_text};
use kuro::error::KuroError;

#[test]
fn parse_signal_reads_names_in_any_case() {
    assert_eq!(parse_signal("kill"), Ok(9));
    assert_eq!(parse_signal(" SIGTERM "), Ok(15));
    assert_eq!(parse_signal("sighup"), Ok(1));
    assert_eq!(parse_signal("Int"), Ok(2));
}

#[test]
fn parse_signal_reads_numbers() {
    assert_eq!(parse_signal("9"), Ok(9));
    assert_eq!(parse_signal("+2"), Ok(2));
    assert_eq!(
        parse_signal("99"),
        Err(KuroError::InvalidArgs("Invalid signal number: 99".to_string()))
    );
    assert_eq!(
        parse_signal("-3"),
        Err(KuroError::InvalidArgs("Invalid signal number: -3".to_string()))
    );
}

#[test]
fn parse_signal_rejects_unknown_names_with_the_given_text() {
    assert_eq!(
        parse_signal(" bogus "),
        Err(KuroError::InvalidArgs("Invalid signal name:  bogus ".to_string()))
    );
}

#[test]
fn signal_prefix_is_optional() {
    assert_eq!(signal_from_upper_text("TERM", "term"), signal_from_upper_text("SIGTERM", "term"));
    assert_eq!(signal_from_upper_text("USR1", "x"), Ok(10));
}

#[test]
fn kill_signal_defaults_to_sigterm() {
    assert_eq!(kill_signal_text("  "), "SIGTERM");
    assert_eq!(kill_signal_text(""), "SIGTERM");
    assert_eq!(kill_signal_text("HUP"), "HUP");
}
