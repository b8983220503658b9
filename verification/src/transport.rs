//! What a remote caller is sent for an outcome. A success travels as a JSON
//! body and a rejection as plain text. A fault never travels: the caller
//! gets a fixed message, and the diagnostic goes to the operator's log.

use vstd::prelude::*;
use crate::host::EntryPoint;
use crate::outcome::{Fault, FaultKind, Outcome, Verdict};

verus! {

/// The content type of a reply.
#[derive(Clone, Copy, Debug, PartialEq, Eq, Structural)]
pub enum ContentType {
    /// `application/json`
    Json,
    /// `text/plain`
    PlainText,
}

impl ContentType {
    /// The name of this content type in a header.
    pub fn name(&self) -> (name: &'static str)
        ensures
            name@ == content_type_name(*self),
    {
        match self {
            ContentType::Json => "application/json",
            ContentType::PlainText => "text/plain",
        }
    }
}

/// The name of a content type in a header.
pub open spec fn content_type_name(content_type: ContentType) -> Seq<char> {
    match content_type {
        ContentType::Json => "application/json"@,
        ContentType::PlainText => "text/plain"@,
    }
}

/// A reply to a remote caller.
#[derive(Debug)]
pub struct Reply {
    pub status: u16,
    pub content_type: ContentType,
    pub body: String,
}

/// A reply, as the contracts see it.
pub struct Answer {
    pub status: u16,
    pub content_type: ContentType,
    pub body: Seq<char>,
}

impl View for Reply {
    type V = Answer;

    open spec fn view(&self) -> Answer {
        Answer { status: self.status, content_type: self.content_type, body: self.body@ }
    }
}

/// The body sent in place of every fault.
pub open spec fn fault_body() -> Seq<char> {
    "internal error"@
}

/// The status sent for a fault: a failed `collect` is the server's failure,
/// a failed `check` is answered as a bad request.
pub open spec fn fault_status(entry: EntryPoint) -> u16 {
    match entry {
        EntryPoint::Collect => 500,
        EntryPoint::Check => 400,
    }
}

/// The reply for an outcome of a call of `entry`.
pub open spec fn answer(entry: EntryPoint, verdict: Verdict) -> Answer {
    match verdict {
        Verdict::Success(text) => Answer {
            status: 200,
            content_type: ContentType::Json,
            body: text,
        },
        Verdict::Rejected(reason) => Answer {
            status: 200,
            content_type: ContentType::PlainText,
            body: reason,
        },
        Verdict::Faulted(_) => Answer {
            status: fault_status(entry),
            content_type: ContentType::PlainText,
            body: fault_body(),
        },
    }
}

/// The name of a kind of fault in the operator's log.
pub open spec fn kind_name(kind: FaultKind) -> Seq<char> {
    match kind {
        FaultKind::CompileError => "compile error"@,
        FaultKind::InvocationFault => "invocation fault"@,
        FaultKind::UnclassifiableValue => "unclassifiable value"@,
    }
}

/// The line that a fault leaves in the operator's log.
pub open spec fn fault_line(fault: Fault) -> Seq<char> {
    kind_name(fault.kind) + ": "@ + fault.diagnostic
}

/// The line that an outcome leaves in the operator's log, if any.
pub open spec fn logged(verdict: Verdict) -> Option<Seq<char>> {
    match verdict {
        Verdict::Faulted(fault) => Some(fault_line(fault)),
        _ => None,
    }
}

/// The reply to send for `outcome` of a call of `entry`.
pub fn reply_for(entry: EntryPoint, outcome: &Outcome) -> (reply: Reply)
    ensures
        reply@ == answer(entry, outcome@),
{
    match outcome {
        Outcome::Success(text) => Reply {
            status: 200,
            content_type: ContentType::Json,
            body: text.clone(),
        },
        Outcome::Rejected(reason) => Reply {
            status: 200,
            content_type: ContentType::PlainText,
            body: reason.clone(),
        },
        Outcome::Faulted(_) => Reply {
            status: match entry {
                EntryPoint::Collect => 500,
                EntryPoint::Check => 400,
            },
            content_type: ContentType::PlainText,
            body: String::from_str("internal error"),
        },
    }
}

/// The line to write to the operator's log for `outcome`: the kind and the
/// full diagnostic of a fault, nothing for any other outcome.
pub fn log_line(outcome: &Outcome) -> (line: Option<String>)
    ensures
        match line {
            Some(text) => logged(outcome@) == Some(text@),
            None => logged(outcome@) is None,
        },
{
    match outcome {
        Outcome::Faulted(fault) => {
            let mut line = String::from_str(
                match fault.kind {
                    FaultKind::CompileError => "compile error",
                    FaultKind::InvocationFault => "invocation fault",
                    FaultKind::UnclassifiableValue => "unclassifiable value",
                },
            );
            line.append(": ");
            line.append(fault.diagnostic.as_str());
            Some(line)
        },
        _ => None,
    }
}

/// A fault is never forwarded: the reply to a fault is the same whatever
/// the fault's kind and diagnostic, while successes and rejections carry
/// their own text.
pub proof fn law_fault_is_not_forwarded(entry: EntryPoint, first: Fault, second: Fault)
    ensures
        answer(entry, Verdict::Faulted(first)) == answer(entry, Verdict::Faulted(second)),
        answer(entry, Verdict::Faulted(first)).body == fault_body(),
{
}

/// A success is sent as a JSON body and a rejection as plain text, each
/// with the outcome's own text and the status of a normal answer.
pub proof fn law_answers_carry_their_text(entry: EntryPoint, text: Seq<char>)
    ensures
        answer(entry, Verdict::Success(text)) == (Answer {
            status: 200,
            content_type: ContentType::Json,
            body: text,
        }),
        answer(entry, Verdict::Rejected(text)) == (Answer {
            status: 200,
            content_type: ContentType::PlainText,
            body: text,
        }),
{
}

} // verus!
