use tumu::error::ErrorKind;
use tumu::permission::{Category, Reply};
use tumu::prompt::{ask, is_blank, noun, read_reply};

#[test]
fn the_question_names_the_category_and_the_target() {
    assert_eq!(
        ask(Category::Read, "/etc/hosts"),
        "tumu requests read access to \"/etc/hosts\". Grant? [y/n] "
    );
    assert_eq!(
        ask(Category::Net, "example.com:80"),
        "tumu requests network access to \"example.com:80\". Grant? [y/n] "
    );
    assert_eq!(
        ask(Category::HighResTime, ""),
        "tumu requests high resolution time access to \"\". Grant? [y/n] "
    );
    assert_eq!(noun(Category::Write), "write");
    assert_eq!(noun(Category::Env), "environment");
    assert_eq!(noun(Category::Run), "run");
    assert_eq!(noun(Category::Plugin), "plugin");
}

#[test]
fn yes_in_three_spellings_confirms() {
    for line in ["y", "Y", "yes", "y\n", "yes\r\n", "  y  ", "\tyes \n", " \n Y\n"] {
        assert_eq!(read_reply(Some(line)), Reply::Confirm, "{:?}", line);
    }
}

#[test]
fn any_other_answer_refuses() {
    for line in [
        "", "\n", "n", "no", "N", "yes please", "YES", "Yes", "ye", "yy", "y e s", "yes.", "ja",
        "   ", "y\u{a0}", "é",
    ] {
        assert_eq!(read_reply(Some(line)), Reply::Refuse, "{:?}", line);
    }
}

#[test]
fn no_answer_means_nobody_was_there() {
    assert_eq!(read_reply(None), Reply::Unavailable);
}

#[test]
fn white_space_is_blank_tab_and_line_breaks() {
    for c in [' ', '\t', '\n', '\r'] {
        assert!(is_blank(c));
    }
    for c in ['y', '\u{a0}', '\u{b}', '\u{c}', '0'] {
        assert!(!is_blank(c));
    }
}

#[test]
fn error_kinds_have_their_names() {
    let names = [
        (ErrorKind::PermissionDenied, "PermissionDenied"),
        (ErrorKind::NotFound, "NotFound"),
        (ErrorKind::TypeMismatch, "TypeMismatch"),
        (ErrorKind::InvalidInput, "InvalidInput"),
        (ErrorKind::InvalidOp, "InvalidOp"),
        (ErrorKind::InterruptedIO, "InterruptedIO"),
        (ErrorKind::AlreadyClosed, "AlreadyClosed"),
        (ErrorKind::UncaughtScriptError, "UncaughtScriptError"),
        (ErrorKind::BootstrapFailure, "BootstrapFailure"),
    ];
    for (kind, name) in names {
        assert_eq!(kind.name(), name);
    }
}
