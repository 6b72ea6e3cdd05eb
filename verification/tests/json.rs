use df_extras::json;
use df_extras::json::{JsonError, JsonShape};
use df_extras::numerals::is_i64;

fn texts(cells: &[Option<&str>]) -> Vec<Option<String>> {
    cells.iter().map(|cell| cell.map(|text| text.to_string())).collect()
}

fn json_table() -> Vec<Option<String>> {
    texts(&[
        Some(r#" { "this" : "is", "a": [ "test" ] } "#),
        Some(r#"{"a":[2,3.5,true,false,null,"x"]}"#),
        Some(r#"[ "one", "two" ]"#),
        Some(r#"123"#),
        Some(r#"12.3"#),
        Some(r#"true"#),
        Some(r#"false"#),
        None,
    ])
}

fn json_path_table() -> Vec<Option<String>> {
    texts(&[Some(r#"{"a":[2,3.5,true,false,null,"x"]}"#)])
}

fn type_at(path: &str) -> Vec<Option<String>> {
    json::json_type(&vec![json_path_table(), texts(&[Some(path)])]).unwrap()
}

fn length(text: &str) -> Vec<Option<u64>> {
    json::json_array_length(&vec![texts(&[Some(text)])]).unwrap()
}

fn length_at(text: &str, path: &str) -> Vec<Option<u64>> {
    json::json_array_length(&vec![texts(&[Some(text)]), texts(&[Some(path)])]).unwrap()
}

#[test]
fn json_udfs_test_json() {
    let expected = texts(&[
        Some(r#"{"this":"is","a":["test"]}"#),
        Some(r#"{"a":[2,3.5,true,false,null,"x"]}"#),
        Some(r#"["one","two"]"#),
        Some(r#"123"#),
        Some(r#"12.3"#),
        Some(r#"true"#),
        Some(r#"false"#),
        None,
    ]);
    assert_eq!(json::json(&json_table()), Ok(expected));
}

#[test]
fn json_udfs_test_invalid_json() {
    let column = texts(&[Some(r#" { "this" : "is", "a": [ "test" ]  "#)]);
    let result = json::json(&column);
    assert_eq!(result, Err(JsonError::MalformedJson));
    assert!(format!("Internal error: {}", result.unwrap_err().message())
        .contains("Internal error: Runtime error: malformed JSON"));
}

#[test]
fn json_udfs_test_json_valid() {
    let expected = vec![Some(1u8), Some(1), Some(1), Some(1), Some(1), Some(1), Some(1), None];
    assert_eq!(json::json_valid(&json_table()), expected);
}

#[test]
fn test_json_type() {
    let expected = texts(&[
        Some("object"),
        Some("object"),
        Some("array"),
        Some("integer"),
        Some("real"),
        Some("true"),
        Some("false"),
        None,
    ]);
    assert_eq!(json::json_type(&vec![json_table()]), Ok(expected));
}

#[test]
fn test_json_type_with_path() {
    assert_eq!(type_at("$"), texts(&[Some("object")]));
    assert_eq!(type_at("$.a"), texts(&[Some("array")]));
    assert_eq!(type_at("$.a[0]"), texts(&[Some("integer")]));
    assert_eq!(type_at("$.a[1]"), texts(&[Some("real")]));
    assert_eq!(type_at("$.a[2]"), texts(&[Some("true")]));
    assert_eq!(type_at("$.a[3]"), texts(&[Some("false")]));
    assert_eq!(type_at("$.a[3]"), texts(&[Some("false")]));
    assert_eq!(type_at("$.a[4]"), texts(&[Some("null")]));
    assert_eq!(type_at("$.a[4]"), texts(&[Some("null")]));
    assert_eq!(type_at("$.a[5]"), texts(&[Some("text")]));
    assert_eq!(type_at("$.a[6]"), texts(&[None]));
}

#[test]
fn test_json_array_length() {
    assert_eq!(length("[1,2,3,4]"), vec![Some(4)]);
    assert_eq!(length_at("[1,2,3,4]", "$"), vec![Some(4)]);
    assert_eq!(length_at("[1,2,3,4]", "$[2]"), vec![Some(0)]);
    assert_eq!(length(r#"{"one":[1,2,3]}"#), vec![Some(0)]);
    assert_eq!(length_at(r#"{"one":[1,2,3]}"#, "$.one"), vec![Some(3)]);
    assert_eq!(length_at(r#"{"one":[1,2,3]}"#, "$.two"), vec![None]);
}

#[test]
fn test_get_value_at() {
    let text = r#"{"foo": ["bar", "baz"]}"#;
    assert_eq!(json::get_json_type_at(text, "$.foo"), Some("array".to_string()));
    assert_eq!(json::get_array_length_at(text, "$.foo"), Some(2));
    assert_eq!(json::get_json_type_at(text, "$.foo[0]"), Some("text".to_string()));
    assert_eq!(json::get_json_type_at(text, "$.foo[1]"), Some("text".to_string()));
    assert_eq!(json::get_json_type_at(text, "$.foo[2]"), None);
}

#[test]
fn a_path_must_select_exactly_one_value() {
    let text = r#"{"foo": ["bar", "baz"], "n": 1}"#;
    assert_eq!(json::get_json_type_at(text, "$.foo.*"), None);
    assert_eq!(json::get_json_type_at(text, "$.*"), None);
    assert_eq!(json::get_json_type_at(text, "$.missing"), None);
    assert_eq!(json::get_json_type_at(text, "not a path"), None);
    assert_eq!(json::get_json_type_at("not json", "$"), None);
    assert_eq!(json::get_array_length_at(text, "$.foo.*"), None);
    assert_eq!(json::get_array_length_at("not json", "$"), None);
    assert_eq!(json::get_array_length_at(text, "$.n"), Some(0));
    assert_eq!(json::get_array_length_at("[]", "$"), Some(0));
}

#[test]
fn names_of_the_kinds() {
    assert_eq!(json::get_json_type(&JsonShape::Null), "null");
    assert_eq!(json::get_json_type(&JsonShape::Boolean(true)), "true");
    assert_eq!(json::get_json_type(&JsonShape::Boolean(false)), "false");
    assert_eq!(json::get_json_type(&JsonShape::Number("7".to_string())), "integer");
    assert_eq!(json::get_json_type(&JsonShape::Number("-7".to_string())), "integer");
    assert_eq!(json::get_json_type(&JsonShape::Number("7.0".to_string())), "real");
    assert_eq!(json::get_json_type(&JsonShape::Number("1e30".to_string())), "real");
    assert_eq!(
        json::get_json_type(&JsonShape::Number("9223372036854775807".to_string())),
        "integer"
    );
    assert_eq!(
        json::get_json_type(&JsonShape::Number("9223372036854775808".to_string())),
        "real"
    );
    assert_eq!(json::get_json_type(&JsonShape::Text), "text");
    assert_eq!(json::get_json_type(&JsonShape::Array(3)), "array");
    assert_eq!(json::get_json_type(&JsonShape::Object), "object");
}

#[test]
fn lengths_of_the_kinds() {
    assert_eq!(json::get_array_length(&JsonShape::Array(0)), 0);
    assert_eq!(json::get_array_length(&JsonShape::Array(17)), 17);
    assert_eq!(json::get_array_length(&JsonShape::Null), 0);
    assert_eq!(json::get_array_length(&JsonShape::Object), 0);
    assert_eq!(json::get_array_length(&JsonShape::Text), 0);
    assert_eq!(json::get_array_length(&JsonShape::Boolean(true)), 0);
    assert_eq!(json::get_array_length(&JsonShape::Number("3".to_string())), 0);
}

#[test]
fn type_of_a_whole_text() {
    assert_eq!(json::get_json_string_type("null"), Ok("null".to_string()));
    assert_eq!(json::get_json_string_type(" [1, 2] "), Ok("array".to_string()));
    assert_eq!(json::get_json_string_type("\"x\""), Ok("text".to_string()));
    assert_eq!(json::get_json_string_type("18446744073709551615"), Ok("real".to_string()));
    assert_eq!(json::get_json_string_type("-9223372036854775808"), Ok("integer".to_string()));
    assert_eq!(json::get_json_string_type("0"), Ok("integer".to_string()));
    assert_eq!(json::get_json_string_type("{"), Err(JsonError::MalformedJson));
    assert_eq!(json::get_json_string_type(""), Err(JsonError::MalformedJson));
}

#[test]
fn json_type_counts_its_columns() {
    assert_eq!(json::json_type(&vec![]), Err(JsonError::WrongNumberOfArguments));
    let one = texts(&[Some("1")]);
    assert_eq!(
        json::json_type(&vec![one.clone(), one.clone(), one.clone()]),
        Err(JsonError::WrongNumberOfArguments)
    );
    assert_eq!(json::json_type(&vec![one.clone()]), Ok(texts(&[Some("integer")])));
    assert_eq!(
        json::json_type(&vec![one.clone(), texts(&[Some("$")])]),
        Ok(texts(&[Some("integer")]))
    );
}

#[test]
fn json_type_fails_on_bad_json_only_without_a_path() {
    let column = texts(&[Some("1"), None, Some("{bad"), Some("[")]);
    assert_eq!(json::json_type(&vec![column.clone()]), Err(JsonError::MalformedJson));
    let paths = texts(&[Some("$"), Some("$"), Some("$"), None]);
    assert_eq!(
        json::json_type(&vec![column, paths]),
        Ok(texts(&[Some("integer"), None, None, None]))
    );
}

#[test]
fn paired_columns_give_as_many_rows_as_both_have() {
    let column = texts(&[Some("[1]"), Some("[1,2]"), Some("[1,2,3]")]);
    let paths = texts(&[Some("$"), Some("$[0]")]);
    assert_eq!(
        json::json_type(&vec![column.clone(), paths.clone()]),
        Ok(texts(&[Some("array"), Some("integer")]))
    );
    assert_eq!(
        json::json_array_length(&vec![column.clone(), paths.clone()]),
        Ok(vec![Some(1), Some(0)])
    );
    assert_eq!(json::json_array_length(&vec![paths, column]), Ok(vec![None, None]));
}

#[test]
fn json_array_length_needs_a_column_and_skips_what_it_cannot_read() {
    assert_eq!(json::json_array_length(&vec![]), Err(JsonError::MissingInput));
    let column = texts(&[Some("[1,2]"), None, Some("oops"), Some("{}"), Some("[[1,2,3]]")]);
    assert_eq!(
        json::json_array_length(&vec![column.clone()]),
        Ok(vec![Some(2), None, None, Some(0), Some(1)])
    );
    let paths = texts(&[Some("$"), Some("$"), Some("$"), None, Some("$[0]")]);
    let ignored = texts(&[None]);
    assert_eq!(
        json::json_array_length(&vec![column, paths, ignored]),
        Ok(vec![Some(2), None, None, None, Some(3)])
    );
}

#[test]
fn json_stops_at_the_first_bad_text_and_keeps_missing_rows() {
    let column = texts(&[None, Some(" [ 1 , 2 ] "), None]);
    assert_eq!(json::json(&column), Ok(texts(&[None, Some("[1,2]"), None])));
    let column = texts(&[Some("1"), Some("{"), Some("2")]);
    assert_eq!(json::json(&column), Err(JsonError::MalformedJson));
    assert_eq!(json::json(&vec![]), Ok(vec![]));
}

#[test]
fn json_valid_tells_good_from_bad() {
    let column = texts(&[Some(r#"{"x":35}"#), Some(r#"{"x":35"#), None, Some(""), Some("nul")]);
    assert_eq!(json::json_valid(&column), vec![Some(1), Some(0), None, Some(0), Some(0)]);
}

#[test]
fn json_errors_in_words() {
    assert_eq!(JsonError::MalformedJson.message(), "Runtime error: malformed JSON");
    assert_eq!(
        JsonError::WrongNumberOfArguments.message(),
        "wrong number of arguments to function json_type()"
    );
    assert_eq!(JsonError::MissingInput.message(), "First input not set");
}

#[test]
fn integer_texts_agree_with_the_standard_parser() {
    let samples = [
        "", "0", "7", "-7", "+7", "007", "-0", "+0", "+", "-", "--1", "+-1", "1-", "1 ", " 1",
        "1.0", "1e3", "0x10", "abc", "12a", "٣", "9223372036854775807", "9223372036854775808",
        "-9223372036854775808", "-9223372036854775809", "+9223372036854775807",
        "+9223372036854775808", "18446744073709551615", "18446744073709551616",
        "99999999999999999999999999", "00000000000000000000000000001",
        "-00000000000000000009223372036854775808", "92233720368547758070", "1_000",
    ];
    for text in samples.iter() {
        assert_eq!(is_i64(text), text.parse::<i64>().is_ok(), "{:?}", text);
    }
}

fn open_escapes() -> Vec<&'static str> {
    vec![
        "$['\\u",
        "$['\\uD",
        "$['\\uD83D\\u",
        "$['\\uD83D\\uD",
        "$['\\uD83D\\ud",
        "$[\"\\u",
        "$[\"\\uD",
        "$[?@.a == '\\u",
        "$[?@.a == \"x\\uD",
        "\\u",
        "\\uD",
        "\\ud",
        "$['\\\\u",
    ]
}

#[test]
fn a_path_that_breaks_off_inside_an_escape_selects_nothing() {
    let text = r#"{"a": [1, 2], "u": 3}"#;
    for path in open_escapes() {
        assert!(json::has_open_escape(path), "{:?}", path);
        assert_eq!(json::get_shape_at(text, path), None, "{:?}", path);
        assert_eq!(json::get_json_type_at(text, path), None, "{:?}", path);
        assert_eq!(json::get_array_length_at(text, path), None, "{:?}", path);
    }
}

#[test]
fn columns_with_a_broken_path_give_a_missing_row() {
    let paths: Vec<Option<String>> =
        open_escapes().iter().map(|path| Some(path.to_string())).collect();
    let column: Vec<Option<String>> = paths.iter().map(|_| Some("[1,2,3]".to_string())).collect();
    let missing_text: Vec<Option<String>> = paths.iter().map(|_| None).collect();
    let missing_count: Vec<Option<u64>> = paths.iter().map(|_| None).collect();
    assert_eq!(json::json_type(&vec![column.clone(), paths.clone()]), Ok(missing_text));
    assert_eq!(json::json_array_length(&vec![column, paths]), Ok(missing_count));
}

#[test]
fn a_whole_escape_is_read() {
    let text = r#"{"a": [1, 2], "\ud83d\ude00": 7, "d": "x"}"#;
    assert_eq!(json::get_json_type_at(text, "$['\\u0061']"), Some("array".to_string()));
    assert_eq!(json::get_array_length_at(text, "$['\\u0061']"), Some(2));
    assert_eq!(json::get_json_type_at(text, "$['\\uD83D\\uDE00']"), Some("integer".to_string()));
    assert_eq!(json::get_json_type_at(text, "$[\"\\u0064\"]"), Some("text".to_string()));
    assert_eq!(json::get_json_type_at(text, "$.d"), Some("text".to_string()));
    assert_eq!(json::get_json_type_at(r#"{"u": 1}"#, "$.u"), Some("integer".to_string()));
    assert_eq!(json::get_json_type_at(r#"{"uD": 1}"#, "$.uD"), Some("integer".to_string()));
    assert_eq!(json::get_json_type_at(r#"{"ud": 1}"#, "$.ud"), Some("integer".to_string()));
}

#[test]
fn tells_an_open_escape_from_its_look_alikes() {
    for path in ["", "$", "u", "uD", "$.u", "$.uD", "$.ud", "$['\\u0061']", "$['\\uD83D\\uDE00']",
        "$['\\ua", "$['\\uD8", "$['\\ud8", "\\", "\\x", "$['\\n"] {
        assert!(!json::has_open_escape(path), "{:?}", path);
    }
}

fn nested_parens(depth: usize) -> String {
    format!("$[?{}@{}]", "(".repeat(depth), ")".repeat(depth))
}

fn nested_filters(depth: usize) -> String {
    format!("$[?@{}{}]", "[?@".repeat(depth), "]".repeat(depth))
}

fn unions(commas: usize) -> String {
    format!("$[0{}]", ",0".repeat(commas))
}

fn descents(count: usize) -> String {
    format!("${}", "..*".repeat(count))
}

#[test]
fn paths_within_the_limits_are_answered() {
    assert_eq!(json::MAX_OPENERS, 16);
    assert_eq!(json::MAX_UNIONS, 16);
    assert_eq!(json::MAX_DESCENTS, 3);
    assert!(json::is_within_limits("$"));
    assert!(json::is_within_limits(""));
    assert!(json::is_within_limits("$.a.b[0]['c']"));
    assert!(json::is_within_limits(&nested_parens(15)));
    assert!(json::is_within_limits(&nested_filters(15)));
    assert!(json::is_within_limits(&unions(16)));
    assert!(json::is_within_limits(&descents(3)));
    assert!(json::is_within_limits(&"[0]".repeat(5000)));
    assert_eq!(json::get_json_type_at("[[1]]", &nested_parens(15)), Some("array".to_string()));
    assert_eq!(json::get_json_type_at("[7]", "$[0,1,2]"), Some("integer".to_string()));
    assert_eq!(json::get_json_type_at("[7]", &unions(16)), None);
    assert_eq!(json::get_array_length_at("[[7, 8]]", "$..[?length(@) == 2]"), Some(2));
    assert_eq!(json::get_json_type_at("[[[1]]]", &descents(3)), Some("integer".to_string()));
}

#[test]
fn paths_beyond_the_limits_select_nothing() {
    for path in [
        nested_parens(16),
        nested_parens(1000),
        nested_parens(100000),
        nested_filters(16),
        nested_filters(100),
        nested_filters(5000),
        format!("$[?{}", "(".repeat(5000)),
        format!("$[?{}@.a{}]", "(!(@[?".repeat(50), "]))".repeat(50)),
        unions(17),
        format!("${}", "[0,0,0,0,0,0,0,0,0,0]".repeat(40)),
        descents(4),
        descents(20),
    ] {
        assert!(!json::is_within_limits(&path));
        assert_eq!(json::get_shape_at("[[[[1]]]]", &path), None);
        assert_eq!(json::get_json_type_at("[[[[1]]]]", &path), None);
        assert_eq!(json::get_array_length_at("[[[[1]]]]", &path), None);
    }
    let deep = format!("{}1{}", "[".repeat(120), "]".repeat(120));
    assert_eq!(json::get_json_type_at(&deep, &descents(12)), None);
}

#[test]
fn the_root_path_selects_the_whole_document() {
    for text in ["[1,2,3]", "{}", "7", "\"x\"", "null", "true", " [ ] "] {
        let whole = json::get_json_string_type(text).ok();
        assert_eq!(json::get_json_type_at(text, "$"), whole, "{:?}", text);
    }
    assert_eq!(json::get_array_length_of_document("[1,2,3]"), Some(3));
    assert_eq!(json::get_array_length_of_document("{}"), Some(0));
    assert_eq!(json::get_array_length_of_document("oops"), None);
    assert_eq!(json::get_shape_at("[1,2,3]", "$"), Some(JsonShape::Array(3)));
    assert_eq!(json::get_shape_at("oops", "$"), None);
}

#[test]
fn odd_json_texts_are_refused_not_fatal() {
    let deep_array = format!("{}1{}", "[".repeat(100000), "]".repeat(100000));
    let deep_object = format!("{}1{}", "{\"a\":".repeat(100000), "}".repeat(100000));
    let long_number = format!("1{}", "0".repeat(100000));
    let odd: Vec<String> = vec![
        deep_array,
        deep_object,
        "[".repeat(100000),
        "\"\\ud800\"".to_string(),
        "\"\\u".to_string(),
        "\"\\uD".to_string(),
        "\u{0}".to_string(),
        "\u{feff}[]".to_string(),
        "1e".to_string(),
        "-".to_string(),
        "{\"a\":1,}".to_string(),
        "[1,]".to_string(),
        "nul".to_string(),
        "'x'".to_string(),
    ];
    for text in odd.iter() {
        assert_eq!(json::json(&vec![Some(text.clone())]), Err(JsonError::MalformedJson));
        assert_eq!(json::json_valid(&vec![Some(text.clone())]), vec![Some(0)]);
        assert_eq!(json::get_json_string_type(text), Err(JsonError::MalformedJson));
        assert_eq!(json::get_json_type_at(text, "$"), None);
        assert_eq!(json::get_array_length_of_document(text), None);
    }
    assert_eq!(json::get_json_string_type(&long_number), Err(JsonError::MalformedJson));
    assert_eq!(
        json::get_json_string_type("123456789012345678901234567890"),
        Ok("real".to_string())
    );
    assert_eq!(json::get_json_string_type("1e400"), Err(JsonError::MalformedJson));
    assert_eq!(json::get_json_string_type("{\"a\":1,\"a\":2}"), Ok("object".to_string()));
    let nested = format!("{}1{}", "[".repeat(100), "]".repeat(100));
    assert_eq!(json::get_json_string_type(&nested), Ok("array".to_string()));
    assert_eq!(json::json(&vec![Some(nested.clone())]), Ok(vec![Some(nested)]));
}
