use tgbotool::command::{next_arg, Error};

#[test]
fn next_arg_without_a_word() {
    let arg: Result<u8, Error> = next_arg(None);
    assert!(matches!(arg, Err(Error::TooFewArgs)));
}

#[test]
fn next_arg_with_a_value() {
    let arg: Result<u8, Error> = next_arg(Some(Ok(7)));
    assert!(matches!(arg, Ok(7)));
}

#[test]
fn next_arg_with_a_word_that_stands_for_nothing() {
    let word = "x7".parse::<u8>().map_err(|e| e.to_string());
    let arg = next_arg(Some(word));
    match arg {
        Err(Error::ParseError(reason)) => assert_eq!(reason, "invalid digit found in string"),
        _ => panic!("expected a parse error"),
    }
}

#[test]
fn command_errors_say_what_went_wrong() {
    assert_eq!(Error::TooFewArgs.to_string(), "Too few args");
    assert_eq!(Error::TooManyArgs.to_string(), "Too many args");
    assert_eq!(Error::WrongBotName.to_string(), "Wrong bot name");
    assert_eq!(Error::UnknownCmd.to_string(), "Unknown command");
    assert_eq!(Error::ParseError("bad".to_string()).to_string(), "Parse error: bad");
}
