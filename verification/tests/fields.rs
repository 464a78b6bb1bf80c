use tgbotool::fields::{
    get_fields, options_come_last, Arguments, Attribute, Field, FieldError, FormValue, Initial,
    LastArgument, Meta, NewArgument, Setter, TgField, TypePath,
};
use tgbotool::methods::MultipartType;
use tgbotool::naming::{bot_name, command_name};

fn ty(last: &str, arguments: Arguments) -> Option<TypePath> {
    Some(TypePath { last: last.to_string(), arguments })
}

fn of(name: &str) -> Arguments {
    Arguments::AngleBracketed(LastArgument::Path(Some(name.to_string())))
}

fn attr(name: &str, metas: Vec<Meta>) -> Attribute {
    Attribute { name: name.to_string(), metas: Some(metas) }
}

fn path(name: &str) -> Meta {
    Meta::Path(name.to_string())
}

fn field(ident: &str, ty: Option<TypePath>, attrs: Vec<Attribute>) -> Field {
    Field { ident: Some(ident.to_string()), ty, attrs }
}

fn classified(fields: Vec<Field>) -> Vec<TgField> {
    match get_fields(&fields) {
        Ok(fields) => fields,
        Err(error) => panic!("{}", error.to_string()),
    }
}

fn refused(fields: Vec<Field>) -> FieldError {
    match get_fields(&fields) {
        Ok(_) => panic!("expected an error"),
        Err(error) => error,
    }
}

#[test]
fn plain_and_optional_and_listed_fields() {
    let fields = classified(vec![
        field("chat_id", ty("ChatId", Arguments::Absent), vec![]),
        field("text", ty("String", Arguments::Absent), vec![]),
        field("parse_mode", ty("Option", of("String")), vec![]),
        field("message_thread_id", ty("Option", of("u64")), vec![]),
        field("media", ty("Vec", of("Media")), vec![]),
    ]);
    assert_eq!(fields.len(), 5);
    let flags: Vec<(bool, bool, bool, bool)> = fields
        .iter()
        .map(|f| (f.is_str, f.is_option, f.is_vec, f.has_inner_ty))
        .collect();
    assert_eq!(
        flags,
        [
            (false, false, false, false),
            (true, false, false, false),
            (true, true, false, true),
            (false, true, false, true),
            (false, false, true, true),
        ]
    );
    assert_eq!(fields[2].ident, "parse_mode");
    assert_eq!(fields[4].index, 4);
    assert!(fields.iter().all(|f| f.build_value.is_none() && !f.build_skip));
    assert!(fields.iter().all(|f| f.multipart.is_none()));
}

#[test]
fn attributes_mark_a_field() {
    let fields = classified(vec![
        field(
            "thumbnail",
            ty("Option", of("SendFile")),
            vec![
                attr("doc", vec![]),
                attr("builder", vec![path("skip")]),
                attr("multipart", vec![path("attach")]),
            ],
        ),
        field("audio", ty("SendFile", Arguments::Absent), vec![attr("multipart", vec![path("normal")])]),
        field(
            "media_type",
            ty("String", Arguments::Absent),
            vec![
                attr(
                    "serde",
                    vec![Meta::NameValue {
                        name: "rename".to_string(),
                        text: Some("type".to_string()),
                    }],
                ),
                attr(
                    "builder",
                    vec![Meta::NameValue {
                        name: "value".to_string(),
                        text: Some("audio".to_string()),
                    }],
                ),
            ],
        ),
    ]);
    assert!(fields[0].build_skip);
    assert_eq!(fields[0].multipart, Some(MultipartType::Attach));
    assert!(!fields[1].build_skip);
    assert_eq!(fields[1].multipart, Some(MultipartType::Normal));
    assert_eq!(fields[2].build_value.as_deref(), Some("audio"));
    assert_eq!(fields[2].multipart, None);
}

#[test]
fn documentation_is_passed_over_unread() {
    let documented = Field {
        ident: Some("id".to_string()),
        ty: ty("u64", Arguments::Absent),
        attrs: vec![Attribute { name: "doc".to_string(), metas: None }],
    };
    assert_eq!(classified(vec![documented]).len(), 1);
}

#[test]
fn field_with_an_inner_type_that_is_no_path_is_left_out() {
    let fields = classified(vec![
        field("a", ty("Option", Arguments::AngleBracketed(LastArgument::OtherType)), vec![]),
        field("b", ty("Option", Arguments::AngleBracketed(LastArgument::NotAType)), vec![]),
        field("c", ty("Option", Arguments::AngleBracketed(LastArgument::Path(None))), vec![]),
    ]);
    assert_eq!(fields.len(), 1);
    assert_eq!(fields[0].ident, "c");
    assert_eq!(fields[0].index, 2);
    assert!(!fields[0].is_str);
}

#[test]
fn each_field_error() {
    let unnamed = Field { ident: None, ty: ty("u64", Arguments::Absent), attrs: vec![] };
    assert!(matches!(refused(vec![unnamed]), FieldError::NoIdent));
    assert!(matches!(refused(vec![field("a", None, vec![])]), FieldError::NotAPath));
    let unread = Attribute { name: "serde".to_string(), metas: None };
    assert!(matches!(
        refused(vec![field("a", ty("u64", Arguments::Absent), vec![unread])]),
        FieldError::BadAttribute
    ));
    assert!(matches!(
        refused(vec![field(
            "a",
            ty("u64", Arguments::Absent),
            vec![attr("multipart", vec![path("other")])]
        )]),
        FieldError::UnsupportedMultipart
    ));
    assert!(matches!(
        refused(vec![field(
            "a",
            ty("u64", Arguments::Absent),
            vec![attr("builder", vec![Meta::NameValue { name: "value".to_string(), text: None }])]
        )]),
        FieldError::UnsupportedBuilder
    ));
    assert!(matches!(
        refused(vec![field("a", ty("u64", Arguments::Absent), vec![attr("serde", vec![Meta::List])])]),
        FieldError::MetaList
    ));
    assert!(matches!(
        refused(vec![field("a", ty("Fn", Arguments::Parenthesized), vec![])]),
        FieldError::Parenthesized
    ));
}

#[test]
fn the_first_refused_field_decides() {
    let fields = vec![
        field("a", ty("u64", Arguments::Absent), vec![]),
        field("b", ty("Fn", Arguments::Parenthesized), vec![]),
        field("c", None, vec![]),
    ];
    assert!(matches!(refused(fields), FieldError::Parenthesized));
    let within = vec![field(
        "a",
        ty("u64", Arguments::Absent),
        vec![attr("multipart", vec![path("normal"), Meta::List, path("other")])],
    )];
    assert!(matches!(refused(within), FieldError::MetaList));
}

#[test]
fn field_errors_say_what_went_wrong() {
    assert_eq!(FieldError::NoIdent.to_string(), "field ident not found");
    assert_eq!(FieldError::NotAPath.to_string(), "current only support path type");
    assert_eq!(FieldError::BadAttribute.to_string(), "unsupported attr");
    assert_eq!(FieldError::UnsupportedMultipart.to_string(), "unsupported multipart attr");
    assert_eq!(FieldError::UnsupportedBuilder.to_string(), "unsupported builder attr");
    assert_eq!(FieldError::MetaList.to_string(), "meta list unsupported");
    assert_eq!(FieldError::Parenthesized.to_string(), "unsupport parenthesized field type");
}

fn plan(is_str: bool, is_option: bool, is_vec: bool) -> TgField {
    TgField {
        index: 0,
        ident: "f".to_string(),
        is_str,
        is_option,
        has_inner_ty: is_option || is_vec,
        build_value: None,
        build_skip: false,
        multipart: None,
        is_vec,
    }
}

#[test]
fn what_the_builder_does_with_a_field() {
    let text = plan(true, false, false);
    assert_eq!(text.new_argument(), NewArgument::Text);
    assert!(matches!(text.initial(), Initial::OwnedText));
    assert_eq!(text.setter(), Setter::Absent);

    let value = plan(false, false, false);
    assert_eq!(value.new_argument(), NewArgument::Value);
    assert!(matches!(value.initial(), Initial::Given));
    assert_eq!(value.setter(), Setter::Absent);

    let fixed = TgField { build_value: Some("audio".to_string()), ..plan(true, false, false) };
    assert_eq!(fixed.new_argument(), NewArgument::Absent);
    assert!(matches!(fixed.initial(), Initial::Fixed(value) if value == "audio"));

    let optional_text = plan(true, true, false);
    assert_eq!(optional_text.new_argument(), NewArgument::Absent);
    assert!(matches!(optional_text.initial(), Initial::Empty));
    assert_eq!(optional_text.setter(), Setter::Text);

    let optional_value = plan(false, true, false);
    assert_eq!(optional_value.setter(), Setter::Value);
    let skipped = TgField { build_skip: true, ..plan(false, true, false) };
    assert_eq!(skipped.setter(), Setter::Absent);
    let without_inner = TgField { has_inner_ty: false, ..plan(false, true, false) };
    assert_eq!(without_inner.setter(), Setter::Absent);
}

#[test]
fn what_the_form_does_with_a_field() {
    let json = plan(false, false, false).form_step();
    assert_eq!((json.optional, json.bare, json.value), (false, false, FormValue::Json));
    let text = plan(true, false, false).form_step();
    assert_eq!((text.optional, text.bare, text.value), (false, false, FormValue::Text));
    let optional_text = plan(true, true, false).form_step();
    assert_eq!(
        (optional_text.optional, optional_text.bare, optional_text.value),
        (true, true, FormValue::Text)
    );
    let listed = plan(false, false, true).form_step();
    assert_eq!((listed.optional, listed.bare, listed.value), (false, true, FormValue::Json));
    let file = TgField { multipart: Some(MultipartType::Normal), ..plan(false, false, false) };
    assert_eq!(file.form_step().value, FormValue::File(MultipartType::Normal));
    assert_eq!(file.upload_test(), Some(false));
    let thumbnail = TgField { multipart: Some(MultipartType::Attach), ..plan(false, true, false) };
    assert_eq!(thumbnail.form_step().value, FormValue::File(MultipartType::Attach));
    assert!(thumbnail.form_step().optional);
    assert_eq!(thumbnail.upload_test(), Some(true));
    assert_eq!(plan(false, true, false).upload_test(), None);
}

#[test]
fn option_types() {
    let option = |arguments| TypePath { last: "Option".to_string(), arguments };
    assert!(option(of("String")).option_inner_type());
    assert!(option(Arguments::AngleBracketed(LastArgument::OtherType)).option_inner_type());
    assert!(!option(Arguments::AngleBracketed(LastArgument::NotAType)).option_inner_type());
    assert!(!option(Arguments::Absent).option_inner_type());
    assert!(!option(Arguments::Parenthesized).option_inner_type());
    let list = TypePath { last: "Vec".to_string(), arguments: of("String") };
    assert!(!list.option_inner_type());
}

#[test]
fn only_the_last_argument_may_be_optional() {
    assert!(options_come_last(&vec![]));
    assert!(options_come_last(&vec![true]));
    assert!(options_come_last(&vec![false, false, true]));
    assert!(options_come_last(&vec![false, false]));
    assert!(!options_come_last(&vec![true, false]));
    assert!(!options_come_last(&vec![false, true, true]));
}

#[test]
fn command_and_bot_names() {
    assert_eq!(command_name("UsernameAndAge", None, Some("snake_case")), "/username_and_age");
    assert_eq!(command_name("Help", Some("/help"), Some("snake_case")), "//help");
    assert_eq!(command_name("Start", None, None), "/Start");
    assert_eq!(command_name("Start", Some("go"), Some("no such rule")), "/go");
    assert_eq!(bot_name("Cuckoo", Some("yx_cuckoo_bot".to_string()), None), "yx_cuckoo_bot");
    assert_eq!(bot_name("CuckooBot", None, Some("snake_case")), "cuckoo_bot");
    assert_eq!(bot_name("CuckooBot", None, None), "CuckooBot");
}
