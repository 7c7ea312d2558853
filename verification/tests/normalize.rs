use json_colorizer::{normalize, normalize_and_parse, process_json, rules_compile, JsonValue};

fn number(text: &str) -> JsonValue {
    JsonValue::Number(text.to_string())
}

fn string(text: &str) -> JsonValue {
    JsonValue::String(text.to_string())
}

fn member(key: &str, value: JsonValue) -> (String, JsonValue) {
    (key.to_string(), value)
}

fn diagnostic(input: &str) -> String {
    match process_json(input) {
        Ok(text) => panic!("accepted: {}", text),
        Err(error) => error.message,
    }
}

#[test]
fn the_engine_takes_the_four_rules() {
    assert!(rules_compile());
}

#[test]
fn a_bracketed_run_of_letters_is_quoted() {
    assert_eq!(normalize("[Object]"), "\"[Object]\"");
    assert_eq!(normalize("[Array]"), "\"[Array]\"");
    assert_eq!(normalize("[x]"), "\"[x]\"");
    assert_eq!(normalize("{\"key\": [Foo]}"), "{\"key\": \"[Foo]\"}");
}

#[test]
fn a_bracketed_run_with_digits_or_punctuation_is_left_alone() {
    assert_eq!(normalize("[Obj1]"), "[Obj1]");
    assert_eq!(normalize("[a b]"), "[a b]");
    assert_eq!(normalize("[a-b]"), "[a-b]");
    assert_eq!(normalize("[]"), "[]");
    assert_eq!(normalize("[é]"), "[é]");
}

#[test]
fn adjacent_and_nested_placeholders_are_quoted_one_by_one() {
    assert_eq!(normalize("[A][B]"), "\"[A]\"\"[B]\"");
    assert_eq!(normalize("[[A]]"), "[\"[A]\"]");
    assert_eq!(normalize("[A, B]"), "[A, B]");
    assert_eq!(normalize("[[A], [B]]"), "[\"[A]\", \"[B]\"]");
}

#[test]
fn a_placeholder_inside_a_string_is_quoted_all_the_same() {
    assert_eq!(normalize("\"[Object]\""), "\"\"[Object]\"\"");
}

#[test]
fn a_placeholder_named_undefined_ends_as_null_in_brackets() {
    assert_eq!(normalize("[undefined]"), "\"[null]\"");
    assert_eq!(normalize_and_parse("[undefined]"), Ok(string("[null]")));
}

#[test]
fn a_timestamp_is_quoted() {
    assert_eq!(
        normalize("2024-01-02T03:04:05.006Z"),
        "\"2024-01-02T03:04:05.006Z\""
    );
    assert_eq!(
        normalize("{\"at\": 1999-12-31T23:59:59.999Z}"),
        "{\"at\": \"1999-12-31T23:59:59.999Z\"}"
    );
}

#[test]
fn a_timestamp_of_another_form_is_left_alone() {
    assert_eq!(normalize("2024-01-02T03:04:05.06Z"), "2024-01-02T03:04:05.06Z");
    assert_eq!(normalize("2024-01-02T03:04:05Z"), "2024-01-02T03:04:05Z");
    assert_eq!(normalize("2024-01-02 03:04:05.006Z"), "2024-01-02 03:04:05.006Z");
    assert_eq!(normalize("2024-01-02T03:04:05.006"), "2024-01-02T03:04:05.006");
    assert_eq!(normalize("2024-1-02T03:04:05.006Z"), "2024-1-02T03:04:05.006Z");
}

#[test]
fn a_timestamp_is_found_inside_longer_text() {
    assert_eq!(
        normalize("12024-01-02T03:04:05.006Zz"),
        "1\"2024-01-02T03:04:05.006Z\"z"
    );
    assert_eq!(
        normalize("\"2024-01-02T03:04:05.006Z\""),
        "\"\"2024-01-02T03:04:05.006Z\"\""
    );
}

#[test]
fn digits_lose_the_n_that_follows_them() {
    assert_eq!(normalize("5n"), "5");
    assert_eq!(normalize("{\"a\": 123n}"), "{\"a\": 123}");
    assert_eq!(normalize("123n456n"), "123456");
    assert_eq!(normalize("5nn"), "5n");
    assert_eq!(normalize("x5n"), "x5");
    assert_eq!(normalize("\"2nd\""), "\"2d\"");
}

#[test]
fn an_n_without_digits_before_it_stays() {
    assert_eq!(normalize("n"), "n");
    assert_eq!(normalize("5 n"), "5 n");
    assert_eq!(normalize("5.n"), "5.n");
    assert_eq!(normalize("5N"), "5N");
}

#[test]
fn a_standalone_undefined_becomes_null() {
    assert_eq!(normalize("undefined"), "null");
    assert_eq!(normalize("{\"key\": undefined}"), "{\"key\": null}");
    assert_eq!(normalize("[undefined,undefined]"), "[null,null]");
    assert_eq!(normalize("a.undefined-b"), "a.null-b");
    assert_eq!(normalize("\"undefined\""), "\"null\"");
}

#[test]
fn undefined_inside_a_longer_word_stays() {
    assert_eq!(normalize("undefinedx"), "undefinedx");
    assert_eq!(normalize("xundefined"), "xundefined");
    assert_eq!(normalize("undefined_"), "undefined_");
    assert_eq!(normalize("undefined1"), "undefined1");
    assert_eq!(normalize("Undefined"), "Undefined");
}

#[test]
fn each_rewrite_works_on_what_the_one_before_left() {
    assert_eq!(normalize("[n]"), "\"[n]\"");
    assert_eq!(normalize("1undefined"), "1undefined");
    assert_eq!(normalize("1nundefined"), "1undefined");
    assert_eq!(normalize("1n undefined"), "1 null");
    assert_eq!(
        normalize("{\"a\": [Object], \"b\": 2024-01-02T03:04:05.006Z, \"c\": 7n, \"d\": undefined}"),
        "{\"a\": \"[Object]\", \"b\": \"2024-01-02T03:04:05.006Z\", \"c\": 7, \"d\": null}"
    );
}

#[test]
fn text_without_a_match_is_unchanged() {
    assert_eq!(normalize(""), "");
    assert_eq!(normalize("{\"key\": [1, 2.5, true]}"), "{\"key\": [1, 2.5, true]}");
}

#[test]
fn placeholder_value_is_the_bracketed_text() {
    assert_eq!(normalize_and_parse("[Object]"), Ok(string("[Object]")));
    assert_eq!(normalize_and_parse("[Array]"), Ok(string("[Array]")));
    assert_eq!(normalize_and_parse("[Zz]"), Ok(string("[Zz]")));
    assert_eq!(
        normalize_and_parse("{\"key\": [Object]}"),
        Ok(JsonValue::Object(vec![member("key", string("[Object]"))]))
    );
}

#[test]
fn undefined_value_is_null() {
    assert_eq!(normalize_and_parse("undefined"), Ok(JsonValue::Null));
    assert_eq!(
        normalize_and_parse("{\"key\": undefined, \"list\": [undefined, 1]}"),
        Ok(JsonValue::Object(vec![
            member("key", JsonValue::Null),
            member("list", JsonValue::Array(vec![JsonValue::Null, number("1")])),
        ]))
    );
}

#[test]
fn suffixed_digits_are_a_number() {
    assert_eq!(normalize_and_parse("5n"), Ok(number("5")));
    assert_eq!(normalize_and_parse("0n"), Ok(number("0")));
    assert_eq!(normalize_and_parse("-17n"), Ok(number("-17")));
    assert_eq!(
        normalize_and_parse("18446744073709551615n"),
        Ok(number("18446744073709551615"))
    );
    assert_eq!(
        normalize_and_parse("{\"a\": 5n}"),
        Ok(JsonValue::Object(vec![member("a", number("5"))]))
    );
}

#[test]
fn suffixed_digits_beyond_the_integer_range_are_approximated() {
    assert_eq!(
        normalize_and_parse("12345678901234567890123n"),
        Ok(number("1.2345678901234568e+22"))
    );
}

#[test]
fn suffixed_digits_with_a_leading_zero_are_rejected() {
    assert!(normalize_and_parse("05n").is_err());
    assert!(process_json("{\"a\": 05n}").is_err());
}

#[test]
fn members_keep_their_order_and_a_repeated_key_its_last_value() {
    assert_eq!(
        normalize_and_parse("{\"b\": 1, \"a\": 2, \"b\": 3}"),
        Ok(JsonValue::Object(vec![member("b", number("3")), member("a", number("2"))]))
    );
}

#[test]
fn parse_failure_carries_the_diagnostic() {
    let error = normalize_and_parse("{").unwrap_err();
    assert_eq!(error.message, "EOF while parsing an object at line 1 column 1");
    assert_eq!(diagnostic("{"), "EOF while parsing an object at line 1 column 1");
    assert_eq!(diagnostic(""), "EOF while parsing a value at line 1 column 0");
    assert_eq!(diagnostic("nope"), "expected ident at line 1 column 2");
    assert_eq!(diagnostic("[1,]"), "trailing comma at line 1 column 4");
    assert_eq!(diagnostic("1 2"), "trailing characters at line 1 column 3");
    assert_eq!(diagnostic("[Obj1]"), "expected value at line 1 column 2");
}

#[test]
fn process_json_writes_pretty_text() {
    assert_eq!(process_json("{\"key\": 123}").unwrap(), "{\n  \"key\": 123\n}");
    assert_eq!(
        process_json("{\"key\": [Object]}").unwrap(),
        "{\n  \"key\": \"[Object]\"\n}"
    );
    assert_eq!(process_json("[1,[2]]").unwrap(), "[\n  1,\n  [\n    2\n  ]\n]");
    assert_eq!(process_json("[]").unwrap(), "[]");
    assert_eq!(process_json("{}").unwrap(), "{}");
    assert_eq!(process_json(" \"a\\nb\" ").unwrap(), "\"a\\nb\"");
    assert_eq!(
        process_json("{\"b\":1,\"a\":2}").unwrap(),
        "{\n  \"b\": 1,\n  \"a\": 2\n}"
    );
}

#[test]
fn a_quoted_timestamp_is_quoted_again_and_rejected() {
    assert!(process_json("{\"a\": 5n, \"b\": \"2024-01-02T03:04:05.006Z\"}").is_err());
}

#[test]
fn processing_pretty_text_without_rule_targets_changes_nothing() {
    for input in [
        "{\"key\": 123}",
        "[1, 2.5, -3, 1e30, true, null, \"x\"]",
        "{\"a\": {\"b\": [[], {}]}, \"c\": \"line\\nbreak\"}",
        "{\"n\": 5n, \"u\": undefined}",
    ] {
        let pretty = process_json(input).unwrap();
        assert_eq!(process_json(&pretty), Ok(pretty.clone()));
    }
}

#[test]
fn processing_pretty_text_rewrites_it_again() {
    let pretty = process_json("[Object]").unwrap();
    assert_eq!(pretty, "\"[Object]\"");
    assert_eq!(normalize(&pretty), "\"\"[Object]\"\"");
    assert!(process_json(&pretty).is_err());
}

#[test]
fn every_short_run_of_letters_in_brackets_is_its_own_string() {
    for letter in ('a'..='z').chain('A'..='Z') {
        let one = format!("[{}]", letter);
        assert_eq!(normalize(&one), format!("\"{}\"", one));
        assert_eq!(normalize_and_parse(&one), Ok(string(&one)));
    }
    for word in ["az", "ZA", "Object", "Array", "Function", "undefine", "undefinedd", "null"] {
        let text = format!("[{}]", word);
        assert_eq!(normalize_and_parse(&text), Ok(string(&text)));
    }
}

#[test]
fn every_small_number_with_the_suffix_is_that_number() {
    for n in (0..=30u64).chain([99, 100, 101, 999, 1000, 65535, 4294967296, u64::MAX]) {
        let digits = n.to_string();
        assert_eq!(normalize(&format!("{}n", digits)), digits);
        assert_eq!(
            normalize_and_parse(&format!("[{}n]", digits)),
            Ok(JsonValue::Array(vec![number(&digits)]))
        );
    }
}

#[test]
fn undefined_is_null_wherever_a_value_may_stand() {
    assert_eq!(
        normalize_and_parse("[undefined, [ undefined ], {\"a\": undefined}]"),
        Ok(JsonValue::Array(vec![
            JsonValue::Null,
            JsonValue::Array(vec![JsonValue::Null]),
            JsonValue::Object(vec![member("a", JsonValue::Null)]),
        ]))
    );
}

#[test]
fn an_array_of_one_bare_undefined_is_read_as_a_placeholder() {
    assert_eq!(
        normalize_and_parse("{\"a\": [undefined]}"),
        Ok(JsonValue::Object(vec![member("a", string("[null]"))]))
    );
}

#[test]
fn undefined_inside_a_string_becomes_the_word_null() {
    assert_eq!(normalize_and_parse("\"undefined\""), Ok(string("null")));
    assert_eq!(normalize_and_parse("\"is undefined here\""), Ok(string("is null here")));
}

#[test]
fn digits_of_other_scripts_lose_the_suffix_too() {
    assert_eq!(normalize("\u{0663}n"), "\u{0663}");
}

#[test]
fn try_normalize_and_parse_is_normalize_and_parse() {
    assert_eq!(
        json_colorizer::try_normalize_and_parse("{\"k\": 5n}"),
        Some(normalize_and_parse("{\"k\": 5n}"))
    );
    assert_eq!(
        json_colorizer::try_normalize_and_parse("{"),
        Some(normalize_and_parse("{"))
    );
}
