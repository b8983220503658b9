use jailbox::engine::{examine, probe, raised, rune_value_throw_or_stringify, RuneEngine};
use jailbox::host::{EntryPoint, HostState};
use jailbox::outcome::{classify, FaultKind, Outcome, Payload, RawReturn};
use std::sync::Arc;

fn engine() -> RuneEngine {
    RuneEngine::new("/ctx/configure.rn", "/ctx")
}

fn value<T: rune::ToValue>(of: T) -> rune::Value {
    rune::to_value(of).unwrap()
}

fn run(script: &str, entry: &str, input: Option<&str>) -> RawReturn {
    let mut sources = rune::Sources::new();
    sources.insert(rune::Source::new("script", script).unwrap()).unwrap();
    let context = rune::Context::with_default_modules().unwrap();
    let unit = rune::prepare(&mut sources).with_context(&context).build().unwrap();
    let mut vm = rune::Vm::new(Arc::new(context.runtime().unwrap()), Arc::new(unit));
    let returned = match input {
        Some(text) => vm.call([entry], (text,)),
        None => vm.call([entry], ()),
    };
    match returned {
        Ok(value) => examine(value),
        Err(error) => raised(error.to_string()),
    }
}

#[test]
fn bare_string_is_success_as_json() {
    match engine().process_result(value("ok")) {
        Outcome::Success(text) => assert_eq!(text, "\"ok\""),
        other => panic!("unexpected outcome: {:?}", other),
    }
}

#[test]
fn bare_integer_is_success_as_json() {
    match engine().process_result(value(42i64)) {
        Outcome::Success(text) => assert_eq!(text, "42"),
        other => panic!("unexpected outcome: {:?}", other),
    }
}

#[test]
fn bare_list_is_success_as_json() {
    match engine().process_result(value(vec![1i64, 2, 3])) {
        Outcome::Success(text) => assert_eq!(text, "[1,2,3]"),
        other => panic!("unexpected outcome: {:?}", other),
    }
}

#[test]
fn wrapped_success_is_unwrapped_one_level() {
    let wrapped: Result<String, String> = Ok(String::from("fine"));
    match engine().process_result(value(wrapped)) {
        Outcome::Success(text) => assert_eq!(text, "\"fine\""),
        other => panic!("unexpected outcome: {:?}", other),
    }
}

#[test]
fn wrapped_error_text_is_rejected_word_for_word() {
    let wrapped: Result<String, String> = Err(String::from("bad input"));
    match engine().process_result(value(wrapped)) {
        Outcome::Rejected(text) => assert_eq!(text, "bad input"),
        other => panic!("unexpected outcome: {:?}", other),
    }
}

#[test]
fn wrapped_error_structure_is_rejected_as_json() {
    let wrapped: Result<String, Vec<i64>> = Err(vec![4, 5]);
    match engine().process_result(value(wrapped)) {
        Outcome::Rejected(text) => assert_eq!(text, "[4,5]"),
        other => panic!("unexpected outcome: {:?}", other),
    }
}

#[test]
fn propagated_error_object_is_promoted_to_a_fault() {
    let wrapped: Result<String, anyhow::Error> = Err(anyhow::Error::msg("disk on fire"));
    match engine().process_result(value(wrapped)) {
        Outcome::Faulted(fault) => {
            assert_eq!(fault.kind, FaultKind::InvocationFault);
            assert_eq!(fault.diagnostic, "disk on fire");
        }
        other => panic!("unexpected outcome: {:?}", other),
    }
}

#[test]
fn propagated_io_error_is_promoted_to_a_fault() {
    let error = std::io::Error::new(std::io::ErrorKind::PermissionDenied, "no entry");
    let wrapped: Result<String, std::io::Error> = Err(error);
    match engine().process_result(value(wrapped)) {
        Outcome::Faulted(fault) => {
            assert_eq!(fault.kind, FaultKind::InvocationFault);
            assert_eq!(fault.diagnostic, "no entry");
        }
        other => panic!("unexpected outcome: {:?}", other),
    }
}

#[test]
fn error_object_in_the_success_arm_is_a_fault() {
    match engine().process_result(value(anyhow::Error::msg("boom"))) {
        Outcome::Faulted(fault) => {
            assert_eq!(fault.kind, FaultKind::InvocationFault);
            assert_eq!(fault.diagnostic, "boom");
        }
        other => panic!("unexpected outcome: {:?}", other),
    }
}

#[test]
fn value_without_text_form_is_unclassifiable() {
    let nested: Result<Result<i64, i64>, i64> = Ok(Ok(1));
    match engine().process_result(value(nested)) {
        Outcome::Faulted(fault) => {
            assert_eq!(fault.kind, FaultKind::UnclassifiableValue);
            assert!(fault.diagnostic.starts_with("Unable to serialize value: "));
            assert!(fault.diagnostic.ends_with(", error: cannot serialize results"));
        }
        other => panic!("unexpected outcome: {:?}", other),
    }
}

#[test]
fn probe_reports_text_and_structure_of_a_string() {
    let probes = probe(&value("hi"));
    assert_eq!(probes.fault, None);
    assert_eq!(probes.structured, Ok(String::from("\"hi\"")));
    assert_eq!(probes.text, Some(String::from("hi")));
}

#[test]
fn probe_reports_no_text_for_a_number() {
    let probes = probe(&value(7i64));
    assert_eq!(probes.fault, None);
    assert_eq!(probes.text, None);
    assert_eq!(probes.structured, Ok(String::from("7")));
    assert_eq!(probes.shape, "7");
}

#[test]
fn examine_tells_the_arms_apart() {
    let ok: Result<i64, i64> = Ok(1);
    let err: Result<i64, i64> = Err(2);
    match examine(value(ok)) {
        RawReturn::AppSuccess(Payload::StructuredValue(text)) => assert_eq!(text, "1"),
        other => panic!("unexpected raw return: {:?}", other),
    }
    match examine(value(err)) {
        RawReturn::AppError(Payload::StructuredValue(text)) => assert_eq!(text, "2"),
        other => panic!("unexpected raw return: {:?}", other),
    }
    match examine(value(3i64)) {
        RawReturn::Bare(Payload::StructuredValue(text)) => assert_eq!(text, "3"),
        other => panic!("unexpected raw return: {:?}", other),
    }
}

#[test]
fn throw_or_stringify_gives_json_or_the_fault() {
    assert_eq!(rune_value_throw_or_stringify(value("x")).unwrap(), "\"x\"");
    assert_eq!(rune_value_throw_or_stringify(value(true)).unwrap(), "true");
    let fault = rune_value_throw_or_stringify(value(anyhow::Error::msg("thrown"))).unwrap_err();
    assert_eq!(fault.kind, FaultKind::InvocationFault);
    assert_eq!(fault.diagnostic, "thrown");
}

#[test]
fn check_returning_bare_string_is_success() {
    let raw = run("pub fn check(input) { \"ok\" }", "check", Some(""));
    match classify(raw) {
        Outcome::Success(text) => assert_eq!(text, "\"ok\""),
        other => panic!("unexpected outcome: {:?}", other),
    }
}

#[test]
fn script_returning_application_error_is_rejected() {
    let raw = run("pub fn check(input) { Err(\"bad input\") }", "check", Some("x"));
    match classify(raw) {
        Outcome::Rejected(text) => assert_eq!(text, "bad input"),
        other => panic!("unexpected outcome: {:?}", other),
    }
}

#[test]
fn script_returning_wrapped_object_is_success() {
    let raw = run("pub fn collect() { Ok(#{ a: 1 }) }", "collect", None);
    match classify(raw) {
        Outcome::Success(text) => assert_eq!(text, "{\"a\":1}"),
        other => panic!("unexpected outcome: {:?}", other),
    }
}

#[test]
fn absent_entry_point_is_an_invocation_fault() {
    let raw = run("pub fn collect() { 1 }", "check", Some(""));
    match classify(raw) {
        Outcome::Faulted(fault) => assert_eq!(fault.kind, FaultKind::InvocationFault),
        other => panic!("unexpected outcome: {:?}", other),
    }
}

#[test]
fn engine_begins_fresh_executions() {
    let engine = engine();
    assert_eq!(engine.script_path(), "/ctx/configure.rn");
    assert_eq!(engine.data_directory(), "/ctx");
    let collect = engine.call_collect();
    assert_eq!(collect.entry(), EntryPoint::Collect);
    assert!(collect.args().is_empty());
    assert_eq!(collect.script_path(), "/ctx/configure.rn");
    assert_eq!(collect.context().bucket().path(), "/ctx");
    assert!(matches!(collect.state(), HostState::Idle));
    let check = engine.call_check("flag{x}");
    assert_eq!(check.entry(), EntryPoint::Check);
    assert_eq!(check.args(), &vec![String::from("flag{x}")]);
    assert!(matches!(check.state(), HostState::Idle));
}

#[test]
fn probing_a_text_value_empties_it() {
    let text = value("hi");
    let first = probe(&text);
    assert_eq!(first.text, Some(String::from("hi")));
    assert_eq!(first.structured, Ok(String::from("\"hi\"")));
    let second = probe(&text);
    assert_eq!(second.text, None);
    assert!(second.structured.is_err());
}
