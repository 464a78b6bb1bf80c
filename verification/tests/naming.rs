use tgbotool::methods::get_file::GetFile;
use tgbotool::methods::send_message::SendMessage;
use tgbotool::methods::TgMethod;
use tgbotool::naming::{case_conv, method_name_of, same_text, supports};

#[test]
fn no_rule_keeps_the_name() {
    assert_eq!(case_conv("UsernameAndAge", None), "UsernameAndAge");
}

#[test]
fn snake_case_rule() {
    assert_eq!(case_conv("UsernameAndAge", Some("snake_case")), "username_and_age");
    assert_eq!(case_conv("Help", Some("snake_case")), "help");
}

#[test]
fn lowercase_rule() {
    assert_eq!(case_conv("UsernameAndAge", Some("lowercase")), "usernameandage");
}

#[test]
fn pascal_case_rule() {
    assert_eq!(case_conv("username_and_age", Some("PascalCase")), "UsernameAndAge");
}

#[test]
fn lower_camel_case_rule() {
    assert_eq!(case_conv("UsernameAndAge", Some("camalCase")), "usernameAndAge");
    assert_eq!(case_conv("XMLHttpRequest", Some("camalCase")), "xmlHttpRequest");
}

#[test]
fn supported_rules() {
    assert!(supports("snake_case"));
    assert!(supports("lowercase"));
    assert!(supports("PascalCase"));
    assert!(supports("camalCase"));
    assert!(!supports("camelCase"));
    assert!(!supports(""));
    assert!(!supports("snake_cas"));
    assert!(!supports("snake_case "));
}

#[test]
fn same_text_compares_every_byte() {
    assert!(same_text("", ""));
    assert!(same_text("上班", "上班"));
    assert!(!same_text("上班", "上周"));
    assert!(!same_text("ab", "abc"));
    assert!(!same_text("abc", "ab"));
    assert!(!same_text("abc", "abd"));
}

#[test]
fn method_names_are_lower_camel_case() {
    assert_eq!(method_name_of("GetFile"), "getFile");
    assert_eq!(method_name_of("SendVideoNote"), "sendVideoNote");
    assert_eq!(method_name_of("GetFile"), GetFile::method_name());
    assert_eq!(method_name_of("SendMessage"), SendMessage::method_name());
}
