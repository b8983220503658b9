//! The life of one script execution, as a state machine.
//!
//! An execution passes through `Idle`, `Compiling`, `Ready` and `Invoking`
//! to `Done`. The machine decides; the caller does the outside work. Each
//! step takes what the caller's last piece of work came to and answers with
//! the next piece of work to do. The scratch scope of an execution is held
//! while it is `Invoking` and at no other time: every step that leaves
//! `Invoking` orders its release, whatever the outcome.

use vstd::prelude::*;
use crate::bucket::Context;
use crate::outcome::{
    classified, classify, Fault, FaultKind, HostFault, Outcome, Raw, RawReturn, Verdict,
};
use crate::text::same_text;

verus! {

/// The entry points that a host may call in a script.
#[derive(Clone, Copy, Debug, PartialEq, Eq, Structural)]
pub enum EntryPoint {
    /// `collect`, which takes no argument.
    Collect,
    /// `check`, which takes one string argument.
    Check,
}

/// The name of an entry point in the script.
pub open spec fn entry_name(entry: EntryPoint) -> Seq<char> {
    match entry {
        EntryPoint::Collect => "collect"@,
        EntryPoint::Check => "check"@,
    }
}

/// The number of string arguments that an entry point takes.
pub open spec fn entry_arity(entry: EntryPoint) -> nat {
    match entry {
        EntryPoint::Collect => 0,
        EntryPoint::Check => 1,
    }
}

/// The entry point of a given name, if there is one.
pub open spec fn entry_named(name: Seq<char>) -> Option<EntryPoint> {
    if name == "collect"@ {
        Some(EntryPoint::Collect)
    } else if name == "check"@ {
        Some(EntryPoint::Check)
    } else {
        None
    }
}

impl EntryPoint {
    /// The name of this entry point in the script.
    pub fn name(&self) -> (name: &'static str)
        ensures
            name@ == entry_name(*self),
    {
        match self {
            EntryPoint::Collect => "collect",
            EntryPoint::Check => "check",
        }
    }

    /// The number of string arguments that this entry point takes.
    pub fn arity(&self) -> (arity: usize)
        ensures
            arity == entry_arity(*self),
    {
        match self {
            EntryPoint::Collect => 0,
            EntryPoint::Check => 1,
        }
    }

    /// The entry point called `name`, if there is one.
    pub fn parse(name: &str) -> (entry: Option<EntryPoint>)
        ensures
            entry == entry_named(name@),
    {
        if same_text(name, "collect") {
            Some(EntryPoint::Collect)
        } else if same_text(name, "check") {
            Some(EntryPoint::Check)
        } else {
            None
        }
    }
}

/// The fault for a request that names no entry point, or passes one the
/// wrong number of arguments.
pub open spec fn request_fault(name: Seq<char>) -> Fault {
    Fault {
        kind: FaultKind::InvocationFault,
        diagnostic: match entry_named(name) {
            None => "unknown entry point: "@ + name,
            Some(_) => "wrong number of arguments for "@ + name,
        },
    }
}

/// The phases of an execution.
#[derive(Debug)]
pub enum HostState {
    /// Nothing has been done yet.
    Idle,
    /// The script unit is being built.
    Compiling,
    /// The unit is built; the scratch scope is being acquired.
    Ready,
    /// The entry point is running; the scratch scope is held.
    Invoking,
    /// The execution is over, with this outcome.
    Done(Outcome),
}

/// A phase, as the contracts see it.
pub enum Phase {
    Idle,
    Compiling,
    Ready,
    Invoking,
    Done(Verdict),
}

impl View for HostState {
    type V = Phase;

    open spec fn view(&self) -> Phase {
        match self {
            HostState::Idle => Phase::Idle,
            HostState::Compiling => Phase::Compiling,
            HostState::Ready => Phase::Ready,
            HostState::Invoking => Phase::Invoking,
            HostState::Done(outcome) => Phase::Done(outcome@),
        }
    }
}

/// What the caller's last piece of work came to.
#[derive(Debug)]
pub enum HostEvent {
    /// The caller asks the execution to begin.
    Start,
    /// The script unit was built.
    Compiled,
    /// The script unit could not be built; the diagnostics say why.
    CompileFailed(String),
    /// The scratch scope was acquired.
    ScopeAcquired,
    /// The scratch scope could not be acquired, for the given cause.
    ScopeFailed(String),
    /// The engine handed this back from the call.
    Returned(RawReturn),
}

/// An event, as the contracts see it.
pub enum Signal {
    Start,
    Compiled,
    CompileFailed(Seq<char>),
    ScopeAcquired,
    ScopeFailed(Seq<char>),
    Returned(Raw),
}

impl View for HostEvent {
    type V = Signal;

    open spec fn view(&self) -> Signal {
        match self {
            HostEvent::Start => Signal::Start,
            HostEvent::Compiled => Signal::Compiled,
            HostEvent::CompileFailed(diagnostics) => Signal::CompileFailed(diagnostics@),
            HostEvent::ScopeAcquired => Signal::ScopeAcquired,
            HostEvent::ScopeFailed(cause) => Signal::ScopeFailed(cause@),
            HostEvent::Returned(raw) => Signal::Returned(raw@),
        }
    }
}

/// The next piece of work for the caller.
#[derive(Clone, Copy, Debug, PartialEq, Eq, Structural)]
pub enum HostAction {
    /// Build the script unit, then report `Compiled` or `CompileFailed`.
    Compile,
    /// Acquire the scratch scope, then report `ScopeAcquired` or
    /// `ScopeFailed`.
    Acquire,
    /// Call the entry point with its arguments, then report `Returned`.
    Invoke,
    /// Release the scratch scope; the execution is over.
    Release,
    /// Nothing is left to do; the execution is over.
    Report,
}

/// The fault for an event that the phase did not call for.
pub open spec fn out_of_turn() -> Fault {
    Fault { kind: FaultKind::InvocationFault, diagnostic: "event out of turn"@ }
}

/// The phase that follows `phase` on `signal`.
///
/// The expected events lead from `Idle` through `Compiling`, `Ready` and
/// `Invoking` to `Done`. A failed build ends the execution with a compile
/// error, a scope that could not be acquired with an invocation fault, and
/// what the engine hands back is classified. An event out of turn ends the
/// execution with an invocation fault. `Done` is final.
pub open spec fn next_phase(phase: Phase, signal: Signal) -> Phase {
    match (phase, signal) {
        (Phase::Done(verdict), _) => Phase::Done(verdict),
        (Phase::Idle, Signal::Start) => Phase::Compiling,
        (Phase::Compiling, Signal::Compiled) => Phase::Ready,
        (Phase::Compiling, Signal::CompileFailed(diagnostics)) => Phase::Done(
            Verdict::Faulted(Fault { kind: FaultKind::CompileError, diagnostic: diagnostics }),
        ),
        (Phase::Ready, Signal::ScopeAcquired) => Phase::Invoking,
        (Phase::Ready, Signal::ScopeFailed(cause)) => Phase::Done(
            Verdict::Faulted(Fault { kind: FaultKind::InvocationFault, diagnostic: cause }),
        ),
        (Phase::Invoking, Signal::Returned(raw)) => Phase::Done(classified(raw)),
        (_, _) => Phase::Done(Verdict::Faulted(out_of_turn())),
    }
}

/// Whether the scratch scope is held in `phase`.
pub open spec fn holds_scope(phase: Phase) -> bool {
    phase is Invoking
}

/// The work that a step from `before` to `after` leaves to the caller. A
/// step that ends an execution which held its scope orders the release.
pub open spec fn work(before: Phase, after: Phase) -> HostAction {
    match after {
        Phase::Idle => HostAction::Report,
        Phase::Compiling => HostAction::Compile,
        Phase::Ready => HostAction::Acquire,
        Phase::Invoking => HostAction::Invoke,
        Phase::Done(_) => if holds_scope(before) {
            HostAction::Release
        } else {
            HostAction::Report
        },
    }
}

/// The number of steps that an execution in `phase` can still take before
/// it is over.
pub open spec fn steps_left(phase: Phase) -> nat {
    match phase {
        Phase::Idle => 4,
        Phase::Compiling => 3,
        Phase::Ready => 2,
        Phase::Invoking => 1,
        Phase::Done(_) => 0,
    }
}

/// One execution of a script: a request, the context that the script is
/// handed, and the phase that the execution is in.
#[derive(Debug)]
pub struct Invocation {
    script_path: String,
    entry: EntryPoint,
    args: Vec<String>,
    context: Context,
    state: HostState,
}

impl Invocation {
    /// The phase of this execution.
    pub closed spec fn phase(&self) -> Phase {
        self.state@
    }

    /// The entry point that this execution calls.
    pub closed spec fn entry_point(&self) -> EntryPoint {
        self.entry
    }

    /// The arguments that this execution passes to its entry point.
    pub closed spec fn arguments(&self) -> Seq<Seq<char>> {
        self.args@.map_values(|arg: String| arg@)
    }

    /// The script that this execution runs.
    pub closed spec fn script(&self) -> Seq<char> {
        self.script_path@
    }

    /// The root directory that this execution's script may read.
    pub closed spec fn root(&self) -> Seq<char> {
        self.context.root()
    }

    /// An execution is well formed when it passes its entry point as many
    /// arguments as the entry point takes.
    pub open spec fn wf(&self) -> bool {
        self.arguments().len() == entry_arity(self.entry_point())
    }

    /// A fresh execution of `collect`.
    pub fn collect(script_path: String, root: String) -> (invocation: Self)
        ensures
            invocation.wf(),
            invocation.phase() == Phase::Idle,
            invocation.entry_point() == EntryPoint::Collect,
            invocation.arguments() == Seq::<Seq<char>>::empty(),
            invocation.script() == script_path@,
            invocation.root() == root@,
    {
        Invocation {
            script_path,
            entry: EntryPoint::Collect,
            args: Vec::new(),
            context: Context::new(root),
            state: HostState::Idle,
        }
    }

    /// A fresh execution of `check` on `user_input`.
    pub fn check(script_path: String, root: String, user_input: String) -> (invocation: Self)
        ensures
            invocation.wf(),
            invocation.phase() == Phase::Idle,
            invocation.entry_point() == EntryPoint::Check,
            invocation.arguments() == seq![user_input@],
            invocation.script() == script_path@,
            invocation.root() == root@,
    {
        let mut args: Vec<String> = Vec::new();
        args.push(user_input);
        Invocation {
            script_path,
            entry: EntryPoint::Check,
            args,
            context: Context::new(root),
            state: HostState::Idle,
        }
    }

    /// A fresh execution of the entry point called `entry_name` on `args`.
    ///
    /// The name has to be one of the fixed set and the arguments as many as
    /// the entry point takes; any other request is an invocation fault, and
    /// nothing is run for it.
    pub fn request(script_path: String, root: String, entry_name: &str, args: Vec<String>) -> (out:
        Result<Self, HostFault>)
        ensures
            match out {
                Ok(invocation) => {
                    &&& entry_named(entry_name@) == Some(invocation.entry_point())
                    &&& args.len() == entry_arity(invocation.entry_point())
                    &&& invocation.wf()
                    &&& invocation.phase() == Phase::Idle
                    &&& invocation.arguments() == args@.map_values(|arg: String| arg@)
                    &&& invocation.script() == script_path@
                    &&& invocation.root() == root@
                },
                Err(fault) => {
                    &&& fault@ == request_fault(entry_name@)
                    &&& match entry_named(entry_name@) {
                        Some(entry) => args.len() != entry_arity(entry),
                        None => true,
                    }
                },
            },
    {
        match EntryPoint::parse(entry_name) {
            None => {
                let mut diagnostic = String::from_str("unknown entry point: ");
                diagnostic.append(entry_name);
                Err(HostFault { kind: FaultKind::InvocationFault, diagnostic })
            },
            Some(entry) => {
                if args.len() != entry.arity() {
                    let mut diagnostic = String::from_str("wrong number of arguments for ");
                    diagnostic.append(entry_name);
                    Err(HostFault { kind: FaultKind::InvocationFault, diagnostic })
                } else {
                    Ok(
                        Invocation {
                            script_path,
                            entry,
                            args,
                            context: Context::new(root),
                            state: HostState::Idle,
                        },
                    )
                }
            },
        }
    }

    /// The entry point that this execution calls.
    pub fn entry(&self) -> (entry: EntryPoint)
        ensures
            entry == self.entry_point(),
    {
        self.entry
    }

    /// The arguments that this execution passes to its entry point.
    pub fn args(&self) -> (args: &Vec<String>)
        ensures
            args@.map_values(|arg: String| arg@) == self.arguments(),
    {
        &self.args
    }

    /// The script that this execution runs.
    pub fn script_path(&self) -> (path: &str)
        ensures
            path@ == self.script(),
    {
        self.script_path.as_str()
    }

    /// The context that the script is handed.
    pub fn context(&self) -> (context: &Context)
        ensures
            context.root() == self.root(),
    {
        &self.context
    }

    /// The state that this execution is in.
    pub fn state(&self) -> (state: &HostState)
        ensures
            state@ == self.phase(),
    {
        &self.state
    }

    /// Whether this execution is over.
    pub fn is_done(&self) -> (done: bool)
        ensures
            done == self.phase() is Done,
    {
        match &self.state {
            HostState::Done(_) => true,
            _ => false,
        }
    }

    /// Ends this execution's life and hands out its outcome, if it is over.
    pub fn into_outcome(self) -> (outcome: Option<Outcome>)
        ensures
            match outcome {
                Some(found) => self.phase() == Phase::Done(found@),
                None => !(self.phase() is Done),
            },
    {
        match self.state {
            HostState::Done(outcome) => Some(outcome),
            _ => None,
        }
    }

    /// Takes what the caller's last piece of work came to, moves to the
    /// next phase and answers with the next piece of work.
    pub fn step(&mut self, event: HostEvent) -> (action: HostAction)
        ensures
            final(self).phase() == next_phase(old(self).phase(), event@),
            action == work(old(self).phase(), final(self).phase()),
            final(self).entry_point() == old(self).entry_point(),
            final(self).arguments() == old(self).arguments(),
            final(self).script() == old(self).script(),
            final(self).root() == old(self).root(),
    {
        let mut state = HostState::Idle;
        std::mem::swap(&mut self.state, &mut state);
        let (after, action) = advance(state, event);
        self.state = after;
        action
    }
}

/// The fault for an event that the phase did not call for.
fn out_of_turn_fault() -> (fault: HostFault)
    ensures
        fault@ == out_of_turn(),
{
    HostFault {
        kind: FaultKind::InvocationFault,
        diagnostic: String::from_str("event out of turn"),
    }
}

/// The state that follows `state` on `event`, and the work that the step
/// leaves to the caller.
pub fn advance(state: HostState, event: HostEvent) -> (out: (HostState, HostAction))
    ensures
        out.0@ == next_phase(state@, event@),
        out.1 == work(state@, out.0@),
{
    match (state, event) {
        (HostState::Done(outcome), _) => (HostState::Done(outcome), HostAction::Report),
        (HostState::Idle, HostEvent::Start) => (HostState::Compiling, HostAction::Compile),
        (HostState::Compiling, HostEvent::Compiled) => (HostState::Ready, HostAction::Acquire),
        (HostState::Compiling, HostEvent::CompileFailed(diagnostics)) => (
            HostState::Done(
                Outcome::Faulted(
                    HostFault { kind: FaultKind::CompileError, diagnostic: diagnostics },
                ),
            ),
            HostAction::Report,
        ),
        (HostState::Ready, HostEvent::ScopeAcquired) => (HostState::Invoking, HostAction::Invoke),
        (HostState::Ready, HostEvent::ScopeFailed(cause)) => (
            HostState::Done(
                Outcome::Faulted(HostFault { kind: FaultKind::InvocationFault, diagnostic: cause }),
            ),
            HostAction::Report,
        ),
        (HostState::Invoking, HostEvent::Returned(raw)) => (
            HostState::Done(classify(raw)),
            HostAction::Release,
        ),
        (HostState::Invoking, _) => (
            HostState::Done(Outcome::Faulted(out_of_turn_fault())),
            HostAction::Release,
        ),
        (_, _) => (HostState::Done(Outcome::Faulted(out_of_turn_fault())), HostAction::Report),
    }
}

/// Every entry point is found again by its name: the names of the fixed set
/// are distinct.
pub proof fn law_entry_point_is_found_by_name(entry: EntryPoint)
    ensures
        entry_named(entry_name(entry)) == Some(entry),
{
    reveal_strlit("collect");
    reveal_strlit("check");
    assert("collect"@.len() != "check"@.len());
}

/// An execution that is over stays over, with the outcome it had, and
/// leaves nothing to do.
pub proof fn law_done_is_final(verdict: Verdict, signal: Signal)
    ensures
        next_phase(Phase::Done(verdict), signal) == Phase::Done(verdict),
        work(Phase::Done(verdict), next_phase(Phase::Done(verdict), signal)) == HostAction::Report,
{
}

/// Every step of an execution that is not over brings it closer to its
/// end: no execution takes more than four steps.
pub proof fn law_every_step_advances(phase: Phase, signal: Signal)
    requires
        !(phase is Done),
    ensures
        steps_left(next_phase(phase, signal)) < steps_left(phase),
{
}

/// The scratch scope is released on every path: whatever event ends the
/// invocation, the execution is then over and the step orders the release.
/// No other step orders it.
pub proof fn law_scope_is_always_released(phase: Phase, signal: Signal)
    ensures
        phase is Invoking ==> next_phase(phase, signal) is Done,
        work(phase, next_phase(phase, signal)) == HostAction::Release <==> phase is Invoking,
        work(phase, next_phase(phase, signal)) == HostAction::Invoke <==> next_phase(
            phase,
            signal,
        ) is Invoking,
{
}

/// A script that cannot be built ends its execution at once, as a compile
/// error with the build's diagnostics.
pub proof fn law_compile_error_is_faulted(diagnostics: Seq<char>)
    ensures
        next_phase(Phase::Compiling, Signal::CompileFailed(diagnostics)) == Phase::Done(
            Verdict::Faulted(Fault { kind: FaultKind::CompileError, diagnostic: diagnostics }),
        ),
{
}

/// What the engine hands back ends the invocation with its classification:
/// an engine failure, such as a missing entry point, as a fault of the same
/// kind and diagnostic.
pub proof fn law_return_is_classified(raw: Raw)
    ensures
        next_phase(Phase::Invoking, Signal::Returned(raw)) == Phase::Done(classified(raw)),
        raw matches Raw::Raised(fault) ==> next_phase(Phase::Invoking, Signal::Returned(raw))
            == Phase::Done(Verdict::Faulted(fault)),
{
}

} // verus!
