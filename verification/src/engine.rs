//! The boundary to the script engine: probing the values that a script hands
//! back, and turning them into outcomes.

use vstd::prelude::*;
use crate::host::{EntryPoint, Invocation, Phase};
use crate::outcome::{
    classify, payload_into_text, payload_of, raw_of, Arm, Fault, FaultKind, HostFault, Outcome,
    Probes, Raw, RawReturn, Returned,
};

verus! {

/// The engine's dynamic value, `rune::Value`. Nothing is known here of what
/// one holds: it is carried to the conversions below and no further.
#[verifier::external_type_specification]
#[verifier::external_body]
pub struct ExValue(rune::Value);

/// Unwraps a result value one level, by `rune::from_value` at the type of a
/// result of two values. `None` when the value is no result value or cannot
/// be taken; nothing is claimed of what the arms hold.
#[verifier::external_body]
fn value_as_result(value: &rune::Value) -> (out: Option<Result<rune::Value, rune::Value>>) {
    rune::from_value::<Result<rune::Value, rune::Value>>(value.clone()).ok()
}

/// Takes a value as plain text, by `rune::from_value` at the type `String`.
/// `None` when the value is no string or cannot be taken.
#[verifier::external_body]
fn value_as_text(value: &rune::Value) -> (out: Option<String>) {
    rune::from_value::<String>(value.clone()).ok()
}

/// Takes a value as a general error object, by `rune::from_value` at the
/// type `anyhow::Error`, and hands out the error's message. `None` when the
/// value is no such object.
#[verifier::external_body]
fn value_as_error(value: &rune::Value) -> (out: Option<String>) {
    match rune::from_value::<anyhow::Error>(value.clone()) {
        Ok(error) => Some(error.to_string()),
        Err(_) => None,
    }
}

/// Takes a value as an input/output error object, by `rune::from_value` at
/// the type `std::io::Error`, and hands out the error's message. `None` when
/// the value is no such object.
#[verifier::external_body]
fn value_as_io_error(value: &rune::Value) -> (out: Option<String>) {
    match rune::from_value::<std::io::Error>(value.clone()) {
        Ok(error) => Some(error.to_string()),
        Err(_) => None,
    }
}

/// Passes a value through `rune::to_value`, which hands back a value of the
/// engine or the engine's error, given here as its message.
#[verifier::external_body]
fn value_reflected(value: &rune::Value) -> (out: Result<rune::Value, String>) {
    match rune::to_value(value) {
        Ok(reflected) => Ok(reflected),
        Err(error) => Err(error.to_string()),
    }
}

/// Serialises a value by `serde_json::to_string`: the JSON text, or the
/// message of the error where the value has no serialisation. The call
/// walks into the value as deep as it goes.
#[verifier::external_body]
fn value_to_json(value: &rune::Value) -> (out: Result<String, String>) {
    match serde_json::to_string(value) {
        Ok(text) => Ok(text),
        Err(error) => Err(error.to_string()),
    }
}

/// The debug rendering that the engine gives of a value. The call walks
/// into the value as deep as it goes.
#[verifier::external_body]
fn value_debug(value: &rune::Value) -> (out: String) {
    format!("{:?}", value)
}

/// Gathers what the engine's conversions report of `value`. The conversions
/// that leave the value untouched come first; taking the value as text comes
/// last, since it empties the value.
pub fn probe(value: &rune::Value) -> (probes: Probes) {
    let shape = value_debug(value);
    let structured = match value_reflected(value) {
        Ok(reflected) => value_to_json(&reflected),
        Err(cause) => Err(cause),
    };
    let fault = match value_as_error(value) {
        Some(diagnostic) => Some(diagnostic),
        None => value_as_io_error(value),
    };
    let text = value_as_text(value);
    Probes { fault, text, structured, shape }
}

/// Looks at the value that a call returned: a result value is unwrapped
/// one level and the arm it holds is probed, anything else is probed as it
/// is.
pub fn observe(value: rune::Value) -> (returned: Returned) {
    match value_as_result(&value) {
        Some(Ok(payload)) => Returned::Success(probe(&payload)),
        Some(Err(payload)) => Returned::Error(probe(&payload)),
        None => Returned::Bare(probe(&value)),
    }
}

/// What the engine handed back, for a call that returned `value`. A value
/// that came back is never an engine failure.
pub fn examine(value: rune::Value) -> (raw: RawReturn)
    ensures
        !(raw is Raised),
{
    raw_of(observe(value))
}

/// What the engine handed back, for a call that the engine broke off with
/// the given diagnostic: a missing entry point, a wrong argument, a fault
/// while the script ran.
pub fn raised(diagnostic: String) -> (raw: RawReturn)
    ensures
        raw@ == Raw::Raised(Fault { kind: FaultKind::InvocationFault, diagnostic: diagnostic@ }),
{
    RawReturn::Raised(HostFault { kind: FaultKind::InvocationFault, diagnostic })
}

/// The text of a value on the success side, or the fault that the value
/// stands for: an internal fault that the script passed on, or a value
/// without a text form.
pub fn rune_value_throw_or_stringify(value: rune::Value) -> (out: Result<String, HostFault>)
    ensures
        out matches Err(fault) ==> fault.kind != FaultKind::CompileError,
{
    payload_into_text(payload_of(Arm::Success, probe(&value)))
}

/// A script host: bound to one script and one data directory for its whole
/// life. Every call gets an execution of its own, which shares nothing with
/// any other but these two paths.
#[derive(Debug)]
pub struct RuneEngine {
    script_path: String,
    data_directory: String,
}

impl RuneEngine {
    /// The script that this engine runs.
    pub closed spec fn script(&self) -> Seq<char> {
        self.script_path@
    }

    /// The root directory that this engine's scripts may read.
    pub closed spec fn root(&self) -> Seq<char> {
        self.data_directory@
    }

    /// An engine for the script at `script_path`, whose executions may read
    /// under `data_directory`.
    pub fn new(script_path: &str, data_directory: &str) -> (engine: Self)
        ensures
            engine.script() == script_path@,
            engine.root() == data_directory@,
    {
        RuneEngine {
            script_path: String::from_str(script_path),
            data_directory: String::from_str(data_directory),
        }
    }

    /// The script that this engine runs.
    pub fn script_path(&self) -> (path: &str)
        ensures
            path@ == self.script(),
    {
        self.script_path.as_str()
    }

    /// The root directory that this engine's scripts may read.
    pub fn data_directory(&self) -> (path: &str)
        ensures
            path@ == self.root(),
    {
        self.data_directory.as_str()
    }

    /// Begins an execution of `collect`: fresh, idle, with a context of its
    /// own over this engine's data directory.
    pub fn call_collect(&self) -> (invocation: Invocation)
        ensures
            invocation.wf(),
            invocation.phase() == Phase::Idle,
            invocation.entry_point() == EntryPoint::Collect,
            invocation.arguments() == Seq::<Seq<char>>::empty(),
            invocation.script() == self.script(),
            invocation.root() == self.root(),
    {
        Invocation::collect(self.script_path.clone(), self.data_directory.clone())
    }

    /// Begins an execution of `check` on `user_input`: fresh, idle, with a
    /// context of its own over this engine's data directory.
    pub fn call_check(&self, user_input: &str) -> (invocation: Invocation)
        ensures
            invocation.wf(),
            invocation.phase() == Phase::Idle,
            invocation.entry_point() == EntryPoint::Check,
            invocation.arguments() == seq![user_input@],
            invocation.script() == self.script(),
            invocation.root() == self.root(),
    {
        Invocation::check(
            self.script_path.clone(),
            self.data_directory.clone(),
            String::from_str(user_input),
        )
    }

    /// Turns the value that a script returned into an outcome: a result
    /// value is unwrapped one level, anything else counts as a success
    /// payload. The outcome is never a compile error, whatever the engine
    /// reports of the value.
    pub fn process_result(&self, value: rune::Value) -> (outcome: Outcome)
        ensures
            outcome matches Outcome::Faulted(fault) ==> fault.kind != FaultKind::CompileError,
    {
        classify(examine(value))
    }
}

} // verus!
