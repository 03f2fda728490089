use rtm::confirm::{classify, parse_answer, prompt_text};

#[test]
fn the_default_question() {
    assert_eq!(prompt_text(None), "Do you want to edit this file? (y/n) ");
}

#[test]
fn the_callers_own_question() {
    assert_eq!(prompt_text(Some("Open it now? ")), "Open it now? ");
    assert_eq!(prompt_text(Some("")), "");
}

#[test]
fn replies_that_mean_yes() {
    assert_eq!(classify("yes"), Some(true));
    assert_eq!(classify("ye"), Some(true));
    assert_eq!(classify("y"), Some(true));
}

#[test]
fn replies_that_mean_no() {
    assert_eq!(classify("no"), Some(false));
    assert_eq!(classify("n"), Some(false));
}

#[test]
fn replies_that_mean_nothing() {
    assert_eq!(classify(""), None);
    assert_eq!(classify("maybe"), None);
    assert_eq!(classify("yess"), None);
    assert_eq!(classify("nope"), None);
    assert_eq!(classify("yn"), None);
}

#[test]
fn classify_does_not_normalise() {
    assert_eq!(classify("YES"), None);
    assert_eq!(classify(" y"), None);
    assert_eq!(classify("n\n"), None);
}

#[test]
fn a_line_is_trimmed() {
    assert_eq!(parse_answer("y\n"), Some(true));
    assert_eq!(parse_answer("  yes  \r\n"), Some(true));
    assert_eq!(parse_answer("\tno\n"), Some(false));
    assert_eq!(parse_answer("\u{a0}n\u{2003}"), Some(false));
}

#[test]
fn the_case_of_a_line_does_not_count() {
    assert_eq!(parse_answer("YES"), Some(true));
    assert_eq!(parse_answer("Ye"), Some(true));
    assert_eq!(parse_answer("Y"), Some(true));
    assert_eq!(parse_answer("No"), Some(false));
    assert_eq!(parse_answer("N"), Some(false));
}

#[test]
fn a_line_that_is_no_answer() {
    assert_eq!(parse_answer(""), None);
    assert_eq!(parse_answer("\n"), None);
    assert_eq!(parse_answer("y e s"), None);
    assert_eq!(parse_answer("yes please"), None);
    assert_eq!(parse_answer("0"), None);
}
