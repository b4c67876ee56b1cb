use log_derive::error::{ConfigError, Field, Shape};
use log_derive::meta::{NestedMeta, Path, Value, ValueKind};
use log_derive::options::{
    level_from_reading, InputOptions, OutputNamedOptions, OutputOptions,
};

fn path(text: &str) -> Path {
    let leading_colon = text.starts_with("::");
    let segments =
        text.trim_start_matches("::").split("::").map(|segment| segment.to_string()).collect();
    Path { leading_colon, segments }
}

fn word(name: &str) -> NestedMeta {
    NestedMeta::Path(path(name))
}

fn list(name: &str) -> NestedMeta {
    NestedMeta::List(path(name))
}

fn pair(name: &str, value: Value) -> NestedMeta {
    NestedMeta::NameValue(path(name), value)
}

fn text(name: &str, value: &str) -> NestedMeta {
    pair(name, Value::Str(value.to_string()))
}

fn literal(value: &str) -> NestedMeta {
    NestedMeta::Lit(Value::Str(value.to_string()))
}

fn some(value: &str) -> Option<String> {
    Some(value.to_string())
}

fn no_named() -> OutputNamedOptions {
    OutputNamedOptions { ok: None, err: None, fmt: None, log_ts: None }
}

#[test]
fn a_leading_level_alone() {
    let options = OutputOptions::from_list(&[word("INFO")]).unwrap();
    assert_eq!(options, OutputOptions { leading_level: some("INFO"), named: no_named() });
    assert_eq!(options.ok_log(), Some(&"INFO".to_string()));
    assert_eq!(options.err_log(), Some(&"INFO".to_string()));
    assert!(!options.contains_ok_or_err());
    assert!(!options.log_ts());
    assert_eq!(options.fmt(), None);
}

#[test]
fn a_leading_level_and_every_named_option() {
    let items = [
        word("INFO"),
        text("fmt", "DB: {:?}"),
        text("ok", "debug"),
        text("err", "trace"),
        pair("log_ts", Value::Bool(true)),
    ];
    let options = OutputOptions::from_list(&items).unwrap();
    assert_eq!(
        options,
        OutputOptions {
            leading_level: some("INFO"),
            named: OutputNamedOptions {
                ok: some("debug"),
                err: some("trace"),
                fmt: some("DB: {:?}"),
                log_ts: Some(true),
            },
        }
    );
    assert_eq!(options.ok_log(), Some(&"debug".to_string()));
    assert_eq!(options.err_log(), Some(&"trace".to_string()));
    assert!(options.contains_ok_or_err());
    assert!(options.log_ts());
    assert_eq!(options.fmt(), some("DB: {:?}"));
}

#[test]
fn each_outcome_falls_back_to_the_leading_level_by_itself() {
    let options = OutputOptions::from_list(&[word("Warn"), text("err", "error")]).unwrap();
    assert_eq!(options.ok_log(), Some(&"Warn".to_string()));
    assert_eq!(options.err_log(), Some(&"error".to_string()));
    assert!(options.contains_ok_or_err());

    let options = OutputOptions::from_list(&[word("Warn"), text("ok", "trace")]).unwrap();
    assert_eq!(options.ok_log(), Some(&"trace".to_string()));
    assert_eq!(options.err_log(), Some(&"Warn".to_string()));
}

#[test]
fn named_options_without_a_leading_level() {
    let options = OutputOptions::from_list(&[text("err", "Error"), text("fmt", "failed: {}")])
        .unwrap();
    assert_eq!(options.leading_level, None);
    assert_eq!(options.ok_log(), None);
    assert_eq!(options.err_log(), Some(&"Error".to_string()));
    assert_eq!(options.fmt(), some("failed: {}"));
}

#[test]
fn a_configuration_without_any_level_is_legal() {
    let options = OutputOptions::from_list(&[text("fmt", "quiet {}")]).unwrap();
    assert_eq!(options.ok_log(), None);
    assert_eq!(options.err_log(), None);
    assert!(!options.contains_ok_or_err());

    let options = OutputOptions::from_list(&[pair("log_ts", Value::Bool(true))]).unwrap();
    assert_eq!(options.ok_log(), None);
    assert_eq!(options.err_log(), None);
    assert!(options.log_ts());
}

#[test]
fn the_first_word_is_the_level_even_if_it_is_an_options_name() {
    let options = OutputOptions::from_list(&[word("log_ts")]).unwrap();
    assert_eq!(options.leading_level, some("log_ts"));
    assert_eq!(options.named, no_named());
}

#[test]
fn no_argument_at_all() {
    let options = OutputOptions::from_list(&[]).unwrap();
    assert_eq!(options, OutputOptions { leading_level: None, named: no_named() });
    assert_eq!(options.ok_log(), None);
    assert_eq!(options.err_log(), None);
    assert_eq!(options.fmt(), None);
    assert!(!options.log_ts());
    assert!(!options.contains_ok_or_err());
    assert_eq!(OutputNamedOptions::from_list(&[]), Ok(no_named()));
    assert_eq!(InputOptions::from_list(&[]), Err(vec![ConfigError::TooFewItems(1)]));
}

#[test]
fn an_unknown_option() {
    assert_eq!(
        OutputOptions::from_list(&[word("INFO"), text("format", "x")]),
        Err(vec![ConfigError::UnknownField("format".to_string())])
    );
    assert_eq!(
        OutputOptions::from_list(&[word("a::b")]),
        Err(vec![ConfigError::UnknownField("a::b".to_string())])
    );
    assert_eq!(
        OutputOptions::from_list(&[word("::INFO")]),
        Err(vec![ConfigError::UnknownField("INFO".to_string())])
    );
    assert_eq!(
        OutputOptions::from_list(&[word("INFO"), word("Debug")]),
        Err(vec![ConfigError::UnknownField("Debug".to_string())])
    );
}

#[test]
fn an_option_given_twice() {
    assert_eq!(
        OutputOptions::from_list(&[text("ok", "info"), text("ok", "debug")]),
        Err(vec![ConfigError::DuplicateField(Field::OkLevel)])
    );
    assert_eq!(
        OutputOptions::from_list(&[
            word("INFO"),
            text("fmt", "a"),
            text("err", "warn"),
            text("fmt", "b"),
            text("err", "error"),
            pair("log_ts", Value::Bool(false)),
            word("log_ts"),
        ]),
        Err(vec![
            ConfigError::DuplicateField(Field::Fmt),
            ConfigError::DuplicateField(Field::ErrLevel),
            ConfigError::DuplicateField(Field::LogTs),
        ])
    );
}

#[test]
fn an_option_that_failed_counts_as_given() {
    assert_eq!(
        OutputOptions::from_list(&[word("INFO"), pair("ok", Value::Int), text("ok", "info")]),
        Err(vec![
            ConfigError::UnexpectedType(Field::OkLevel, ValueKind::Int),
            ConfigError::DuplicateField(Field::OkLevel),
        ])
    );
}

#[test]
fn a_nested_list_where_a_value_is_expected() {
    for (name, field) in [
        ("ok", Field::OkLevel),
        ("err", Field::ErrLevel),
        ("fmt", Field::Fmt),
        ("log_ts", Field::LogTs),
    ] {
        assert_eq!(
            OutputOptions::from_list(&[word("INFO"), list(name)]),
            Err(vec![ConfigError::UnexpectedFormat(field, Shape::List)])
        );
    }
}

#[test]
fn a_name_without_a_value() {
    assert_eq!(
        OutputOptions::from_list(&[word("INFO"), word("ok")]),
        Err(vec![ConfigError::UnexpectedFormat(Field::OkLevel, Shape::Word)])
    );
    assert_eq!(
        OutputOptions::from_list(&[word("INFO"), word("err")]),
        Err(vec![ConfigError::UnexpectedFormat(Field::ErrLevel, Shape::Word)])
    );
    assert_eq!(
        OutputOptions::from_list(&[word("INFO"), word("fmt")]),
        Err(vec![ConfigError::UnexpectedFormat(Field::Fmt, Shape::Word)])
    );
    let options = OutputOptions::from_list(&[word("INFO"), word("log_ts")]).unwrap();
    assert_eq!(options.named.log_ts, Some(true));
}

#[test]
fn a_value_of_the_wrong_kind() {
    assert_eq!(
        OutputOptions::from_list(&[pair("ok", Value::Bool(true))]),
        Err(vec![ConfigError::UnexpectedType(Field::OkLevel, ValueKind::Bool)])
    );
    assert_eq!(
        OutputOptions::from_list(&[pair("err", Value::Char)]),
        Err(vec![ConfigError::UnexpectedType(Field::ErrLevel, ValueKind::Char)])
    );
    assert_eq!(
        OutputOptions::from_list(&[pair("fmt", Value::Bool(false))]),
        Err(vec![ConfigError::UnexpectedType(Field::Fmt, ValueKind::Bool)])
    );
    assert_eq!(
        OutputOptions::from_list(&[pair("fmt", Value::Ident("x".to_string()))]),
        Err(vec![ConfigError::UnexpectedType(Field::Fmt, ValueKind::Ident)])
    );
    assert_eq!(
        OutputOptions::from_list(&[pair("log_ts", Value::Int)]),
        Err(vec![ConfigError::UnexpectedType(Field::LogTs, ValueKind::Int)])
    );
    for (value, kind) in [
        (Value::ByteStr, ValueKind::ByteStr),
        (Value::Byte, ValueKind::Byte),
        (Value::Float, ValueKind::Float),
        (Value::Verbatim, ValueKind::Verbatim),
    ] {
        assert_eq!(value.kind(), kind);
        assert_eq!(
            OutputOptions::from_list(&[pair("log_ts", value)]),
            Err(vec![ConfigError::UnexpectedType(Field::LogTs, kind)])
        );
    }
}

#[test]
fn a_string_that_the_option_cannot_read() {
    assert_eq!(
        OutputOptions::from_list(&[text("ok", "not a level")]),
        Err(vec![ConfigError::UnknownValue(Field::OkLevel, "not a level".to_string())])
    );
    assert_eq!(
        OutputOptions::from_list(&[text("err", "")]),
        Err(vec![ConfigError::UnknownValue(Field::ErrLevel, String::new())])
    );
    assert_eq!(
        OutputOptions::from_list(&[text("err", "5")]),
        Err(vec![ConfigError::UnknownValue(Field::ErrLevel, "5".to_string())])
    );
    assert_eq!(
        OutputOptions::from_list(&[text("ok", "fn")]),
        Err(vec![ConfigError::UnknownValue(Field::OkLevel, "fn".to_string())])
    );
    assert_eq!(
        OutputOptions::from_list(&[text("log_ts", "yes")]),
        Err(vec![ConfigError::UnknownValue(Field::LogTs, "yes".to_string())])
    );
    for bracketed in ["in(fo", "(info)", "[", "info {", "((((((((((((((((info"] {
        assert_eq!(
            OutputOptions::from_list(&[text("ok", bracketed)]),
            Err(vec![ConfigError::UnknownValue(Field::OkLevel, bracketed.to_string())])
        );
    }
}

#[test]
fn the_reading_of_a_string_decides_its_level() {
    let text = "info".to_string();
    assert_eq!(
        level_from_reading(Field::OkLevel, &text, Some("info".to_string())),
        Ok("info".to_string())
    );
    assert_eq!(
        level_from_reading(Field::ErrLevel, &text, Some("other".to_string())),
        Ok("other".to_string())
    );
    assert_eq!(
        level_from_reading(Field::ErrLevel, &text, None),
        Err(ConfigError::UnknownValue(Field::ErrLevel, "info".to_string()))
    );
}

#[test]
fn a_level_is_read_from_a_string_as_an_identifier() {
    let options = OutputOptions::from_list(&[text("ok", "info")]).unwrap();
    assert_eq!(options.named.ok, some("info"));
    let options = OutputOptions::from_list(&[text("ok", " info ")]).unwrap();
    assert_eq!(options.named.ok, some("info"));
    let options = OutputOptions::from_list(&[text("err", "/* loud */ ERROR")]).unwrap();
    assert_eq!(options.named.err, some("ERROR"));
}

#[test]
fn a_level_may_be_an_identifier() {
    let options = OutputOptions::from_list(&[pair("ok", Value::Ident("info".to_string()))])
        .unwrap();
    assert_eq!(options.named.ok, some("info"));
    assert_eq!(options.ok_log(), Some(&"info".to_string()));
}

#[test]
fn the_forms_of_log_ts() {
    let read = |item: NestedMeta| OutputOptions::from_list(&[word("INFO"), item]).unwrap().log_ts();
    assert!(read(pair("log_ts", Value::Bool(true))));
    assert!(!read(pair("log_ts", Value::Bool(false))));
    assert!(read(text("log_ts", "true")));
    assert!(!read(text("log_ts", "false")));
    assert!(read(word("log_ts")));
    assert!(!OutputOptions::from_list(&[word("INFO")]).unwrap().log_ts());
}

#[test]
fn a_bare_literal_is_no_named_option() {
    assert_eq!(
        OutputOptions::from_list(&[word("INFO"), literal("hello")]),
        Err(vec![ConfigError::UnexpectedLiteral(ValueKind::Str)])
    );
    assert_eq!(
        OutputOptions::from_list(&[NestedMeta::Lit(Value::Int)]),
        Err(vec![ConfigError::UnexpectedLiteral(ValueKind::Int)])
    );
}

#[test]
fn every_fault_is_reported_in_order() {
    let items = [
        word("INFO"),
        text("colour", "red"),
        list("fmt"),
        literal("x"),
        text("ok", "a b"),
        text("err", "error"),
        text("err", "warn"),
    ];
    let errors = OutputOptions::from_list(&items).unwrap_err();
    assert_eq!(
        errors,
        vec![
            ConfigError::UnknownField("colour".to_string()),
            ConfigError::UnexpectedFormat(Field::Fmt, Shape::List),
            ConfigError::UnexpectedLiteral(ValueKind::Str),
            ConfigError::UnknownValue(Field::OkLevel, "a b".to_string()),
            ConfigError::DuplicateField(Field::ErrLevel),
        ]
    );
    let fields: Vec<Option<Field>> = errors.iter().map(|error| error.field()).collect();
    assert_eq!(
        fields,
        vec![None, Some(Field::Fmt), None, Some(Field::OkLevel), Some(Field::ErrLevel)]
    );
}

#[test]
fn the_names_of_the_options() {
    assert_eq!(Field::OkLevel.name(), "ok");
    assert_eq!(Field::ErrLevel.name(), "err");
    assert_eq!(Field::Fmt.name(), "fmt");
    assert_eq!(Field::LogTs.name(), "log_ts");
}

#[test]
fn paths() {
    assert_eq!(path("INFO").get_ident(), Some(&"INFO".to_string()));
    assert_eq!(path("::INFO").get_ident(), None);
    assert_eq!(path("log::INFO").get_ident(), None);
    assert_eq!(Path { leading_colon: false, segments: Vec::new() }.get_ident(), None);
    assert_eq!(path("INFO").name(), "INFO");
    assert_eq!(path("::a::b::c").name(), "a::b::c");
    assert_eq!(Path { leading_colon: false, segments: Vec::new() }.name(), "");
    assert_eq!(word("INFO").bare_ident(), Some(&"INFO".to_string()));
    assert_eq!(list("INFO").bare_ident(), None);
    assert_eq!(literal("INFO").bare_ident(), None);
}

#[test]
fn input_logging_takes_a_level() {
    assert_eq!(
        InputOptions::from_list(&[word("Debug")]),
        Ok(InputOptions { level: "Debug".to_string(), fmt: None })
    );
}

#[test]
fn input_logging_takes_a_template() {
    assert_eq!(
        InputOptions::from_list(&[word("INFO"), literal("called with {} and {}")]),
        Ok(InputOptions { level: "INFO".to_string(), fmt: some("called with {} and {}") })
    );
    assert_eq!(
        InputOptions::from_list(&[word("INFO"), text("fmt", "Good morning: {:?}, to: {:?}")]),
        Ok(InputOptions { level: "INFO".to_string(), fmt: some("Good morning: {:?}, to: {:?}") })
    );
}

#[test]
fn input_logging_refuses_a_second_argument_without_a_string() {
    assert_eq!(
        InputOptions::from_list(&[word("Trace"), word("fmt")]),
        Err(vec![ConfigError::UnexpectedFormat(Field::Fmt, Shape::Word)])
    );
    assert_eq!(
        InputOptions::from_list(&[word("Info"), list("foo")]),
        Err(vec![ConfigError::UnexpectedFormat(Field::Fmt, Shape::List)])
    );
    assert_eq!(
        InputOptions::from_list(&[word("Trace"), pair("fmt", Value::Bool(true))]),
        Err(vec![ConfigError::UnexpectedType(Field::Fmt, ValueKind::Bool)])
    );
    assert_eq!(
        InputOptions::from_list(&[word("Trace"), NestedMeta::Lit(Value::Int)]),
        Err(vec![ConfigError::UnexpectedType(Field::Fmt, ValueKind::Int)])
    );
    assert_eq!(
        InputOptions::from_list(&[word("Trace"), pair("fmt", Value::Ident("x".to_string()))]),
        Err(vec![ConfigError::UnexpectedType(Field::Fmt, ValueKind::Ident)])
    );
}

#[test]
fn input_logging_refuses_a_third_argument() {
    assert_eq!(
        InputOptions::from_list(&[word("Trace"), literal("called"), literal("too late")]),
        Err(vec![ConfigError::TooManyItems(2)])
    );
    assert_eq!(
        InputOptions::from_list(&[word("Trace"), literal("a"), word("b"), word("c")]),
        Err(vec![ConfigError::TooManyItems(2)])
    );
}

#[test]
fn input_logging_reports_every_fault() {
    assert_eq!(
        InputOptions::from_list(&[literal("called"), list("fmt"), word("x")]),
        Err(vec![
            ConfigError::UnexpectedLiteral(ValueKind::Str),
            ConfigError::UnexpectedFormat(Field::Fmt, Shape::List),
            ConfigError::TooManyItems(2),
        ])
    );
    assert_eq!(
        InputOptions::from_list(&[word("a::b"), word("x")]),
        Err(vec![
            ConfigError::ExpectedLevel,
            ConfigError::UnexpectedFormat(Field::Fmt, Shape::Word),
        ])
    );
}

#[test]
fn input_logging_needs_its_level_first() {
    assert_eq!(
        InputOptions::from_list(&[literal("called")]),
        Err(vec![ConfigError::UnexpectedLiteral(ValueKind::Str)])
    );
    assert_eq!(
        InputOptions::from_list(&[NestedMeta::Lit(Value::Bool(true)), literal("x")]),
        Err(vec![ConfigError::UnexpectedLiteral(ValueKind::Bool)])
    );
    assert_eq!(
        InputOptions::from_list(&[text("fmt", "called"), literal("x")]),
        Err(vec![ConfigError::ExpectedLevel])
    );
    assert_eq!(InputOptions::from_list(&[list("INFO")]), Err(vec![ConfigError::ExpectedLevel]));
    assert_eq!(
        InputOptions::from_list(&[word("log::INFO")]),
        Err(vec![ConfigError::ExpectedLevel])
    );
}
