use jailbox::report::{format_result_output, parse_output, report_for, Note, Parsed, Report, Tag};

fn lines(result: Result<&str, &str>, parse_json: bool) -> Vec<String> {
    let result = result.map(String::from).map_err(String::from);
    format_result_output(&result, parse_json).lines()
}

#[test]
fn plain_success_is_shown_as_it_is() {
    assert_eq!(
        lines(Ok("{\"a\":1}"), false),
        vec!["Script is compiled and run successfully: Ok()", "{\"a\":1}"]
    );
}

#[test]
fn rejection_is_shown_with_its_reason() {
    let expected = vec!["Script is compiled and run successfully: Err()", "bad input"];
    assert_eq!(lines(Err("bad input"), false), expected);
    assert_eq!(lines(Err("bad input"), true), expected);
}

#[test]
fn parsed_json_string_is_shown_as_its_text() {
    assert_eq!(
        lines(Ok("\"line one\\nline two\""), true),
        vec![
            "Script is compiled and run successfully: Ok() -> Parsed & Pretty",
            "line one\nline two"
        ]
    );
}

#[test]
fn parsed_json_value_is_laid_out() {
    assert_eq!(
        lines(Ok("{\"a\":1}"), true),
        vec!["Script is compiled and run successfully: Ok() -> Parsed & Pretty", "{\n  \"a\": 1\n}"]
    );
    assert_eq!(
        lines(Ok("[1,2]"), true),
        vec!["Script is compiled and run successfully: Ok() -> Parsed & Pretty", "[\n  1,\n  2\n]"]
    );
}

#[test]
fn output_that_is_no_json_is_not_shown() {
    assert_eq!(
        lines(Ok("not json"), true),
        vec!["Script is compiled and run successfully: Ok() ->  Parsed & Pretty failed"]
    );
}

#[test]
fn parse_output_tells_strings_from_other_values() {
    assert!(matches!(parse_output("{oops"), Parsed::NotJson));
    match parse_output("\"text\"") {
        Parsed::Text(text) => assert_eq!(text, "text"),
        other => panic!("unexpected reading: {:?}", other),
    }
    match parse_output("7") {
        Parsed::Pretty(text) => assert_eq!(text, "7"),
        other => panic!("unexpected reading: {:?}", other),
    }
}

#[test]
fn report_for_ignores_the_reading_unless_asked_to_parse() {
    let result: Result<String, String> = Ok(String::from("raw"));
    let report = report_for(&result, false, Parsed::Text(String::from("other")));
    assert_eq!(report.tag, Tag::Answered);
    assert_eq!(report.note, Note::Plain);
    assert_eq!(report.body, Some(String::from("raw")));
}

#[test]
fn report_for_unprintable_json_shows_no_body() {
    let result: Result<String, String> = Ok(String::from("{}"));
    let report = report_for(&result, true, Parsed::Unprintable);
    assert_eq!(report.note, Note::PrettyFailed);
    assert_eq!(report.body, None);
    assert_eq!(
        report.headline(),
        "Script is compiled and run successfully: Ok() ->  Parsed & Pretty failed"
    );
}

#[test]
fn labels_are_the_words_of_the_headline() {
    assert_eq!(Report::lead(), "Script is compiled and run successfully:");
    assert_eq!(Tag::Answered.label(), "Ok()");
    assert_eq!(Tag::Refused.label(), "Err()");
    assert_eq!(Note::Plain.label(), None);
    assert_eq!(Note::Pretty.label(), Some("-> Parsed & Pretty"));
    assert_eq!(Note::PrettyFailed.label(), Some("->  Parsed & Pretty failed"));
}

#[test]
fn parse_output_reads_exactly_json_documents() {
    for text in ["", "{", "[1,", "nul", "'single'", "{\"a\":}", "1 2", "not json"] {
        assert!(matches!(parse_output(text), Parsed::NotJson), "{}", text);
    }
    for text in ["null", "0", " [1] ", "{}", "\"\"", "true", "{\"a\":[1,{\"b\":null}]}"] {
        assert!(!matches!(parse_output(text), Parsed::NotJson), "{}", text);
    }
}

#[test]
fn parse_output_lays_out_values_that_are_no_strings() {
    match parse_output("null") {
        Parsed::Pretty(text) => assert_eq!(text, "null"),
        other => panic!("unexpected reading: {:?}", other),
    }
    match parse_output("\"\"") {
        Parsed::Text(text) => assert_eq!(text, ""),
        other => panic!("unexpected reading: {:?}", other),
    }
}
