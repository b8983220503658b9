//! Result translation: every shape that a script run can end in is mapped to
//! exactly one of three outcomes.

use vstd::prelude::*;

verus! {

/// The kinds of host-layer fault.
#[derive(Clone, Copy, Debug, PartialEq, Eq, Structural)]
pub enum FaultKind {
    /// The script unit could not be built.
    CompileError,
    /// The entry point could not be called, or the call broke off.
    InvocationFault,
    /// The script returned a value that has no text form.
    UnclassifiableValue,
}

/// A host-layer fault: an internal defect, never an application's answer.
#[derive(Debug)]
pub struct HostFault {
    pub kind: FaultKind,
    pub diagnostic: String,
}

/// A host-layer fault, as the contracts see it.
pub struct Fault {
    pub kind: FaultKind,
    pub diagnostic: Seq<char>,
}

impl View for HostFault {
    type V = Fault;

    open spec fn view(&self) -> Fault {
        Fault { kind: self.kind, diagnostic: self.diagnostic@ }
    }
}

/// What one script run came to.
#[derive(Debug)]
pub enum Outcome {
    /// The script answered; the payload is its answer as text.
    Success(String),
    /// The script refused; the payload is the reason it gave.
    Rejected(String),
    /// The host failed; the diagnostic is for the operator only.
    Faulted(HostFault),
}

/// An outcome, as the contracts see it.
pub enum Verdict {
    Success(Seq<char>),
    Rejected(Seq<char>),
    Faulted(Fault),
}

impl View for Outcome {
    type V = Verdict;

    open spec fn view(&self) -> Verdict {
        match self {
            Outcome::Success(text) => Verdict::Success(text@),
            Outcome::Rejected(reason) => Verdict::Rejected(reason@),
            Outcome::Faulted(fault) => Verdict::Faulted(fault@),
        }
    }
}

/// The shape of one value that a script handed back.
#[derive(Debug)]
pub enum Payload {
    /// A value with a structured serialisation, held as that text.
    StructuredValue(String),
    /// A value that is plain text, held as it is.
    PlainText(String),
    /// A value with no text form; the diagnostic names its shape.
    Unconvertible(String),
    /// An internal fault that a script passed on as if it were a value.
    InternalFault(String),
}

/// A payload, as the contracts see it.
pub enum Shape {
    StructuredValue(Seq<char>),
    PlainText(Seq<char>),
    Unconvertible(Seq<char>),
    InternalFault(Seq<char>),
}

impl View for Payload {
    type V = Shape;

    open spec fn view(&self) -> Shape {
        match self {
            Payload::StructuredValue(text) => Shape::StructuredValue(text@),
            Payload::PlainText(text) => Shape::PlainText(text@),
            Payload::Unconvertible(diagnostic) => Shape::Unconvertible(diagnostic@),
            Payload::InternalFault(diagnostic) => Shape::InternalFault(diagnostic@),
        }
    }
}

/// The side of a result value that a payload stands on. A bare value stands
/// on the success side.
#[derive(Clone, Copy, Debug, PartialEq, Eq, Structural)]
pub enum Arm {
    Success,
    Error,
}

/// What the engine's conversions report of one value.
#[derive(Debug)]
pub struct Probes {
    /// The diagnostic of an internal fault, where the value is one.
    pub fault: Option<String>,
    /// The value itself, where it is plain text.
    pub text: Option<String>,
    /// The structured serialisation of the value, or why it has none.
    pub structured: Result<String, String>,
    /// A rendering of the value that names its shape.
    pub shape: String,
}

/// Probes, as the contracts see them.
pub struct Findings {
    pub fault: Option<Seq<char>>,
    pub text: Option<Seq<char>>,
    pub structured: Result<Seq<char>, Seq<char>>,
    pub shape: Seq<char>,
}

impl View for Probes {
    type V = Findings;

    open spec fn view(&self) -> Findings {
        Findings {
            fault: match self.fault {
                Some(diagnostic) => Some(diagnostic@),
                None => None,
            },
            text: match self.text {
                Some(text) => Some(text@),
                None => None,
            },
            structured: match self.structured {
                Ok(text) => Ok(text@),
                Err(cause) => Err(cause@),
            },
            shape: self.shape@,
        }
    }
}

/// The diagnostic for a value without a text form: it names the value's
/// shape and says why serialising it failed.
pub open spec fn unconvertible_diagnostic(shape: Seq<char>, cause: Seq<char>) -> Seq<char> {
    "Unable to serialize value: "@ + shape + ", error: "@ + cause
}

/// The payload that a value's probes amount to.
///
/// An internal fault comes before everything else. On the success side the
/// structured serialisation is taken first and the plain text second; on the
/// error side the plain text comes first, so that a reason written by the
/// application is passed on word for word. A value with neither is
/// unconvertible.
pub open spec fn shaped(arm: Arm, findings: Findings) -> Shape {
    match findings.fault {
        Some(diagnostic) => Shape::InternalFault(diagnostic),
        None => match (arm, findings.text, findings.structured) {
            (Arm::Success, _, Ok(text)) => Shape::StructuredValue(text),
            (Arm::Success, Some(text), Err(_)) => Shape::PlainText(text),
            (Arm::Error, Some(text), _) => Shape::PlainText(text),
            (Arm::Error, None, Ok(text)) => Shape::StructuredValue(text),
            (_, None, Err(cause)) => Shape::Unconvertible(
                unconvertible_diagnostic(findings.shape, cause),
            ),
        },
    }
}

/// Chooses the text form of a value from its probes.
pub fn payload_of(arm: Arm, probes: Probes) -> (payload: Payload)
    ensures
        payload@ == shaped(arm, probes@),
{
    let Probes { fault, text, structured, shape } = probes;
    if let Some(diagnostic) = fault {
        return Payload::InternalFault(diagnostic);
    }
    match (arm, text, structured) {
        (Arm::Success, _, Ok(json)) => Payload::StructuredValue(json),
        (Arm::Success, Some(plain), Err(_)) => Payload::PlainText(plain),
        (Arm::Error, Some(plain), _) => Payload::PlainText(plain),
        (Arm::Error, None, Ok(json)) => Payload::StructuredValue(json),
        (_, None, Err(cause)) => {
            let mut diagnostic = String::from_str("Unable to serialize value: ");
            diagnostic.append(shape.as_str());
            diagnostic.append(", error: ");
            diagnostic.append(cause.as_str());
            Payload::Unconvertible(diagnostic)
        },
    }
}

/// What the engine handed back from one call.
#[derive(Debug)]
pub enum RawReturn {
    /// The engine itself failed.
    Raised(HostFault),
    /// The script returned the success arm of a result value.
    AppSuccess(Payload),
    /// The script returned the error arm of a result value.
    AppError(Payload),
    /// The script returned a value that is no result value.
    Bare(Payload),
}

/// A raw return, as the contracts see it.
pub enum Raw {
    Raised(Fault),
    AppSuccess(Shape),
    AppError(Shape),
    Bare(Shape),
}

impl View for RawReturn {
    type V = Raw;

    open spec fn view(&self) -> Raw {
        match self {
            RawReturn::Raised(fault) => Raw::Raised(fault@),
            RawReturn::AppSuccess(payload) => Raw::AppSuccess(payload@),
            RawReturn::AppError(payload) => Raw::AppError(payload@),
            RawReturn::Bare(payload) => Raw::Bare(payload@),
        }
    }
}

/// The text of a payload that has one.
pub open spec fn payload_text(shape: Shape) -> Option<Seq<char>> {
    match shape {
        Shape::StructuredValue(text) => Some(text),
        Shape::PlainText(text) => Some(text),
        Shape::Unconvertible(_) => None,
        Shape::InternalFault(_) => None,
    }
}

/// The fault that a payload without text stands for.
pub open spec fn payload_fault(shape: Shape) -> Option<Fault> {
    match shape {
        Shape::StructuredValue(_) => None,
        Shape::PlainText(_) => None,
        Shape::Unconvertible(diagnostic) => Some(
            Fault { kind: FaultKind::UnclassifiableValue, diagnostic },
        ),
        Shape::InternalFault(diagnostic) => Some(
            Fault { kind: FaultKind::InvocationFault, diagnostic },
        ),
    }
}

/// The outcome of a payload on the success side.
pub open spec fn accepted(shape: Shape) -> Verdict {
    match payload_text(shape) {
        Some(text) => Verdict::Success(text),
        None => Verdict::Faulted(payload_fault(shape)->0),
    }
}

/// The outcome of a payload on the error side. A payload that carries an
/// internal fault is a fault all the same, never a rejection.
pub open spec fn refused(shape: Shape) -> Verdict {
    match payload_text(shape) {
        Some(text) => Verdict::Rejected(text),
        None => Verdict::Faulted(payload_fault(shape)->0),
    }
}

/// The outcome of a raw return: an engine failure is a fault, a result value
/// is unwrapped one level, and a bare value counts as a success payload.
pub open spec fn classified(raw: Raw) -> Verdict {
    match raw {
        Raw::Raised(fault) => Verdict::Faulted(fault),
        Raw::AppSuccess(shape) => accepted(shape),
        Raw::AppError(shape) => refused(shape),
        Raw::Bare(shape) => accepted(shape),
    }
}

/// What the engine's conversions report of the value that a call returned.
#[derive(Debug)]
pub enum Returned {
    /// The value is a result value; these are the probes of its success arm.
    Success(Probes),
    /// The value is a result value; these are the probes of its error arm.
    Error(Probes),
    /// The value is no result value; these are its own probes.
    Bare(Probes),
}

/// A returned value, as the contracts see it.
pub enum Observed {
    Success(Findings),
    Error(Findings),
    Bare(Findings),
}

impl View for Returned {
    type V = Observed;

    open spec fn view(&self) -> Observed {
        match self {
            Returned::Success(probes) => Observed::Success(probes@),
            Returned::Error(probes) => Observed::Error(probes@),
            Returned::Bare(probes) => Observed::Bare(probes@),
        }
    }
}

/// The raw return that a returned value amounts to: a result value is
/// unwrapped one level, and a bare value is shaped as a success payload.
pub open spec fn unwrapped(observed: Observed) -> Raw {
    match observed {
        Observed::Success(findings) => Raw::AppSuccess(shaped(Arm::Success, findings)),
        Observed::Error(findings) => Raw::AppError(shaped(Arm::Error, findings)),
        Observed::Bare(findings) => Raw::Bare(shaped(Arm::Success, findings)),
    }
}

/// The raw return for a value that a call returned.
pub fn raw_of(returned: Returned) -> (raw: RawReturn)
    ensures
        raw@ == unwrapped(returned@),
{
    match returned {
        Returned::Success(probes) => RawReturn::AppSuccess(payload_of(Arm::Success, probes)),
        Returned::Error(probes) => RawReturn::AppError(payload_of(Arm::Error, probes)),
        Returned::Bare(probes) => RawReturn::Bare(payload_of(Arm::Success, probes)),
    }
}

/// Splits a payload into its text, or the fault it stands for.
pub fn payload_into_text(payload: Payload) -> (out: Result<String, HostFault>)
    ensures
        match out {
            Ok(text) => payload_text(payload@) == Some(text@),
            Err(fault) => payload_text(payload@) is None && payload_fault(payload@) == Some(fault@),
        },
{
    match payload {
        Payload::StructuredValue(text) => Ok(text),
        Payload::PlainText(text) => Ok(text),
        Payload::Unconvertible(diagnostic) => Err(
            HostFault { kind: FaultKind::UnclassifiableValue, diagnostic },
        ),
        Payload::InternalFault(diagnostic) => Err(
            HostFault { kind: FaultKind::InvocationFault, diagnostic },
        ),
    }
}

/// Classifies what the engine handed back. Every raw return has exactly one
/// outcome.
pub fn classify(raw: RawReturn) -> (outcome: Outcome)
    ensures
        outcome@ == classified(raw@),
{
    match raw {
        RawReturn::Raised(fault) => Outcome::Faulted(fault),
        RawReturn::AppSuccess(payload) => match payload_into_text(payload) {
            Ok(text) => Outcome::Success(text),
            Err(fault) => Outcome::Faulted(fault),
        },
        RawReturn::AppError(payload) => match payload_into_text(payload) {
            Ok(text) => Outcome::Rejected(text),
            Err(fault) => Outcome::Faulted(fault),
        },
        RawReturn::Bare(payload) => match payload_into_text(payload) {
            Ok(text) => Outcome::Success(text),
            Err(fault) => Outcome::Faulted(fault),
        },
    }
}

impl Outcome {
    /// This outcome as a result: the answer or the reason, or the fault.
    pub fn into_result(self) -> (out: Result<Result<String, String>, HostFault>)
        ensures
            match out {
                Ok(Ok(text)) => self@ == Verdict::Success(text@),
                Ok(Err(reason)) => self@ == Verdict::Rejected(reason@),
                Err(fault) => self@ == Verdict::Faulted(fault@),
            },
    {
        match self {
            Outcome::Success(text) => Ok(Ok(text)),
            Outcome::Rejected(reason) => Ok(Err(reason)),
            Outcome::Faulted(fault) => Err(fault),
        }
    }
}

/// A bare value is never a rejection, and it is a success, with its own
/// text, exactly when it has a text form.
pub proof fn law_bare_value_is_success(shape: Shape)
    ensures
        !(classified(Raw::Bare(shape)) is Rejected),
        payload_text(shape) matches Some(text) ==> classified(Raw::Bare(shape)) == Verdict::Success(
            text,
        ),
        classified(Raw::Bare(shape)) is Success <==> payload_text(shape) is Some,
{
}

/// An engine failure is always a fault, with the engine's own diagnostic,
/// and never a rejection.
pub proof fn law_engine_fault_is_faulted(fault: Fault)
    ensures
        classified(Raw::Raised(fault)) == Verdict::Faulted(fault),
        !(classified(Raw::Raised(fault)) is Rejected),
{
}

/// An application error with a text form is a rejection with exactly that
/// text.
pub proof fn law_application_error_is_rejected(shape: Shape)
    ensures
        payload_text(shape) matches Some(text) ==> classified(Raw::AppError(shape))
            == Verdict::Rejected(text),
        classified(Raw::AppError(shape)) is Rejected <==> payload_text(shape) is Some,
{
}

/// A value that is plain text, returned as an application error, is a
/// rejection with exactly that text, whatever its other probes say, unless
/// it is an internal fault.
pub proof fn law_error_text_is_passed_on(findings: Findings)
    requires
        findings.fault is None,
        findings.text is Some,
    ensures
        classified(unwrapped(Observed::Error(findings))) == Verdict::Rejected(findings.text->0),
{
}

/// A bare value with a structured serialisation is a success with that
/// serialisation, unless it is an internal fault.
pub proof fn law_bare_structure_is_success(findings: Findings)
    requires
        findings.fault is None,
        findings.structured is Ok,
    ensures
        classified(unwrapped(Observed::Bare(findings))) == Verdict::Success(
            findings.structured->Ok_0,
        ),
{
}

/// A value that is an internal fault is a fault wherever it is returned,
/// with the fault's own diagnostic.
pub proof fn law_fault_marker_wins(findings: Findings)
    requires
        findings.fault is Some,
    ensures
        classified(unwrapped(Observed::Error(findings))) == Verdict::Faulted(
            Fault { kind: FaultKind::InvocationFault, diagnostic: findings.fault->0 },
        ),
        classified(unwrapped(Observed::Success(findings))) == classified(
            unwrapped(Observed::Error(findings)),
        ),
        classified(unwrapped(Observed::Bare(findings))) == classified(
            unwrapped(Observed::Error(findings)),
        ),
{
}

/// An internal fault handed back in either arm of a result value, or bare,
/// is a fault: it is never passed off as a success or a rejection.
pub proof fn law_internal_fault_is_promoted(diagnostic: Seq<char>)
    ensures
        classified(Raw::AppError(Shape::InternalFault(diagnostic))) is Faulted,
        classified(Raw::AppSuccess(Shape::InternalFault(diagnostic))) is Faulted,
        classified(Raw::Bare(Shape::InternalFault(diagnostic))) is Faulted,
{
}

} // verus!
