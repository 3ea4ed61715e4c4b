//! Operations whose duration and outcome are recorded.

use vstd::prelude::*;
use vstd::string::*;

use crate::json::{self, flag_member, number_member, object, text_member, Member};
use crate::text_ops;

verus! {

/// A result that says whether an operation succeeded.
pub trait OperationOutcome {
    spec fn success(&self) -> bool;

    fn succeeded(&self) -> (yes: bool)
        ensures
            yes == self.success(),
    ;
}

impl<T, E> OperationOutcome for Result<T, E> {
    open spec fn success(&self) -> bool {
        self is Ok
    }

    fn succeeded(&self) -> (yes: bool) {
        self.is_ok()
    }
}

impl OperationOutcome for () {
    open spec fn success(&self) -> bool {
        true
    }

    fn succeeded(&self) -> (yes: bool) {
        true
    }
}

/// What is measured: an operation, and the element it is done to.
#[derive(Debug, Clone, Copy)]
pub struct Operation<'a> {
    pub operation: &'a str,
    pub element: Option<&'a str>,
    pub factory: Option<&'a str>,
}

impl<'a> Operation<'a> {
    pub fn named(operation: &'a str) -> (out: Operation<'a>)
        ensures
            out.operation@ == operation@,
            out.element is None,
            out.factory is None,
    {
        Operation { operation, element: None, factory: None }
    }

    pub fn element(operation: &'a str, element: &'a str, factory: &'a str) -> (out: Operation<'a>)
        ensures
            out.operation@ == operation@,
            out.element matches Some(name) && name@ == element@,
            out.factory matches Some(name) && name@ == factory@,
    {
        Operation { operation, element: Some(element), factory: Some(factory) }
    }
}

/// The members of an operation's payload; what is not known is left out.
pub open spec fn operation_members(
    operation: Operation,
    finished: Option<(u64, bool)>,
) -> Seq<(Seq<char>, Seq<char>)> {
    let first = seq![("operation"@, json::json_string(operation.operation@))];
    let second = match operation.element {
        Some(name) => first.push(("element"@, json::json_string(name@))),
        None => first,
    };
    let third = match operation.factory {
        Some(name) => second.push(("factory"@, json::json_string(name@))),
        None => second,
    };
    match finished {
        Some((duration_ms, success)) => third.push(
            ("duration_ms"@, text_ops::decimal(duration_ms as nat)),
        ).push(("success"@, json::json_bool(success))),
        None => third,
    }
}

/// The payload for an operation that starts, or that finished after a time
/// and with a success or a failure.
pub fn operation_payload(operation: &Operation, finished: Option<(u64, bool)>) -> (out: String)
    ensures
        out@ == json::json_object(operation_members(*operation, finished)),
{
    let mut members: Vec<Member> = Vec::new();
    members.push(text_member("operation", operation.operation));
    proof {
        assert(json::member_texts(members@) =~= seq![
            ("operation"@, json::json_string(operation.operation@)),
        ]);
    }
    let ghost first = json::member_texts(members@);
    if let Some(name) = operation.element {
        members.push(text_member("element", name));
        proof {
            assert(json::member_texts(members@) =~= first.push(
                ("element"@, json::json_string(name@)),
            ));
        }
    }
    let ghost second = json::member_texts(members@);
    if let Some(name) = operation.factory {
        members.push(text_member("factory", name));
        proof {
            assert(json::member_texts(members@) =~= second.push(
                ("factory"@, json::json_string(name@)),
            ));
        }
    }
    let ghost third = json::member_texts(members@);
    if let Some((duration_ms, success)) = finished {
        members.push(number_member("duration_ms", duration_ms as u128));
        members.push(flag_member("success", success));
        proof {
            assert(json::member_texts(members@) =~= third.push(
                ("duration_ms"@, text_ops::decimal(duration_ms as nat)),
            ).push(("success"@, json::json_bool(success))));
        }
    }
    object(&members)
}

/// A time in milliseconds as it is recorded.
pub open spec fn recorded_ms(elapsed_ms: u128) -> u64 {
    if elapsed_ms <= u64::MAX {
        elapsed_ms as u64
    } else {
        u64::MAX
    }
}

pub fn clamp_ms(elapsed_ms: u128) -> (out: u64)
    ensures
        out == recorded_ms(elapsed_ms),
{
    if elapsed_ms <= 0xffff_ffff_ffff_ffff {
        elapsed_ms as u64
    } else {
        0xffff_ffff_ffff_ffff
    }
}

/// An event with its payload.
#[derive(Debug)]
pub struct OperationEvent {
    pub event: &'static str,
    pub payload: String,
}

/// The event tells that the operation starts.
pub open spec fn tells_start(event: OperationEvent, operation: Operation) -> bool {
    &&& event.event@ == "operation-started"@
    &&& event.payload@ == json::json_object(operation_members(operation, None))
}

/// The event tells that the operation finished, after `time` milliseconds and
/// with or without success.
pub open spec fn tells_finish(
    event: OperationEvent,
    operation: Operation,
    time: u128,
    success: bool,
) -> bool {
    &&& event.event@ == "operation-finished"@
    &&& event.payload@ == json::json_object(
        operation_members(operation, Some((recorded_ms(time), success))),
    )
}

pub fn operation_started(operation: &Operation) -> (event: OperationEvent)
    ensures
        tells_start(event, *operation),
{
    OperationEvent { event: "operation-started", payload: operation_payload(operation, None) }
}

pub fn operation_finished(operation: &Operation, elapsed_ms: u128, success: bool) -> (event:
    OperationEvent)
    ensures
        tells_finish(event, *operation, elapsed_ms, success),
{
    let finished = Some((clamp_ms(elapsed_ms), success));
    OperationEvent { event: "operation-finished", payload: operation_payload(operation, finished) }
}

/// The start of the operation was reported, and the clock then stood at
/// `started`.
pub open spec fn began<S, B: FnOnce(OperationEvent) -> S>(
    begin: B,
    operation: Operation,
    started: S,
) -> bool {
    exists|event: OperationEvent|
        tells_start(event, operation) && #[trigger] call_ensures(begin, (event,), started)
}

/// The operation took `time` milliseconds: its start was reported, it was
/// performed with this result, and then the clock was read.
pub open spec fn took<
    R,
    S,
    B: FnOnce(OperationEvent) -> S,
    A: FnOnce() -> R,
    T: FnOnce(S, &R) -> u128,
>(
    begin: B,
    action: A,
    elapsed_ms: T,
    operation: Operation,
    result: R,
    time: u128,
) -> bool {
    exists|started: S|
        began(begin, operation, started) && call_ensures(action, (), result) && #[trigger]
            call_ensures(elapsed_ms, (started, &result), time)
}

/// Performs an operation and hands its result on unchanged. `begin` reports
/// the start and starts a clock, `elapsed_ms` reads it, and `finish` reports
/// the end. Each of the four is called once and may count on those before it:
/// the operation begins only after its start was reported, the clock is read
/// only after the operation ended, and the end is reported with that time and
/// with the operation's own success.
pub fn measure_operation_with<
    R: OperationOutcome,
    S,
    B: FnOnce(OperationEvent) -> S,
    A: FnOnce() -> R,
    T: FnOnce(S, &R) -> u128,
    F: FnOnce(OperationEvent),
>(operation: Operation, begin: B, action: A, elapsed_ms: T, finish: F) -> (result: R)
    requires
        forall|event: OperationEvent|
            tells_start(event, operation) ==> #[trigger] call_requires(begin, (event,)),
        forall|started: S| #[trigger] began(begin, operation, started) ==> call_requires(action, ()),
        forall|started: S, result: R|
            began(begin, operation, started) && call_ensures(action, (), result)
                ==> #[trigger] call_requires(elapsed_ms, (started, &result)),
        forall|event: OperationEvent, result: R, time: u128|
            #![trigger call_requires(finish, (event,)),
                took(begin, action, elapsed_ms, operation, result, time)]
            took(begin, action, elapsed_ms, operation, result, time) && tells_finish(
                event,
                operation,
                time,
                result.success(),
            ) ==> call_requires(finish, (event,)),
    ensures
        call_ensures(action, (), result),
        exists|event: OperationEvent, time: u128|
            #![trigger call_ensures(finish, (event,), ()),
                took(begin, action, elapsed_ms, operation, result, time)]
            took(begin, action, elapsed_ms, operation, result, time) && tells_finish(
                event,
                operation,
                time,
                result.success(),
            ) && call_ensures(finish, (event,), ()),
{
    let started = begin(operation_started(&operation));
    proof {
        assert(began(begin, operation, started));
    }
    let result = action();
    let time: u128 = elapsed_ms(started, &result);
    proof {
        assert(took(begin, action, elapsed_ms, operation, result, time));
    }
    let success = result.succeeded();
    let event = operation_finished(&operation, time, success);
    finish(event);
    result
}

} // verus!
