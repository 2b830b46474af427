use vstd::prelude::*;

use crate::host::{BridgeError, HostObject, HostValue, Member};

verus! {

/// Whether a timer fires once or repeatedly.
#[derive(Debug, Clone, Copy, PartialEq, Eq, Structural)]
pub enum IntervalKind {
    OneShot,
    Repeating,
}

/// The flag code `1` asks for a timer that fires once; every other code asks
/// for a repeating one.
pub open spec fn spec_interval_kind(flag: i32) -> IntervalKind {
    if flag == 1 {
        IntervalKind::OneShot
    } else {
        IntervalKind::Repeating
    }
}

pub fn interval_kind(flag: i32) -> (r: IntervalKind)
    ensures
        r == spec_interval_kind(flag),
{
    if flag == 1 {
        IntervalKind::OneShot
    } else {
        IntervalKind::Repeating
    }
}

/// The factory that materialises a runnable of the given kind.
pub open spec fn spec_factory(kind: IntervalKind) -> Member {
    match kind {
        IntervalKind::OneShot => Member::OneShotRunnable,
        IntervalKind::Repeating => Member::RepeatingRunnable,
    }
}

pub fn factory(kind: IntervalKind) -> (r: Member)
    ensures
        r == spec_factory(kind),
{
    match kind {
        IntervalKind::OneShot => Member::OneShotRunnable,
        IntervalKind::Repeating => Member::RepeatingRunnable,
    }
}

/// A request from script code for a timer: the script-side callback (an
/// opaque identifier), the delay in milliseconds and the kind of timer.
#[derive(Debug, Clone, Copy, PartialEq, Eq, Structural)]
pub struct TimerRequest {
    pub callback: i64,
    pub delay: i64,
    pub kind: IntervalKind,
}

pub open spec fn spec_request(callback: i64, delay: i64, flag: i32) -> TimerRequest {
    TimerRequest { callback, delay, kind: spec_interval_kind(flag) }
}

impl TimerRequest {
    pub fn new(callback: i64, delay: i64, flag: i32) -> (r: TimerRequest)
        ensures
            r == spec_request(callback, delay, flag),
    {
        TimerRequest { callback, delay, kind: interval_kind(flag) }
    }
}

/// How a scheduling attempt ended.
#[derive(Debug, Clone, Copy, PartialEq, Eq, Structural)]
pub enum ScheduleOutcome {
    Scheduled,
    Failed(BridgeError),
}

/// Where a scheduling attempt stands. Each stage but the last waits for the
/// reply to one call into the host.
#[derive(Debug, Clone, Copy, PartialEq, Eq, Structural)]
pub enum TimerStage {
    ResolvingContext,
    CreatingRunnable { context: HostObject },
    Submitting { runnable: HostObject },
    Finished(ScheduleOutcome),
}

/// One call into the host: a static member when `target` is `None`, else an
/// instance method of `target`.
pub struct HostCall {
    pub target: Option<HostObject>,
    pub member: Member,
    pub args: Vec<HostValue>,
}

impl View for HostCall {
    type V = (Option<HostObject>, Member, Seq<HostValue>);

    open spec fn view(&self) -> Self::V {
        (self.target, self.member, self.args@)
    }
}

/// The stage a scheduling attempt starts in: a null scheduler is refused
/// before anything is asked of the host.
pub open spec fn spec_start(handler: HostObject) -> TimerStage {
    if handler.spec_is_null() {
        TimerStage::Finished(ScheduleOutcome::Failed(BridgeError::InvalidReference))
    } else {
        TimerStage::ResolvingContext
    }
}

/// The call that a stage makes, if any.
pub open spec fn spec_call(req: TimerRequest, handler: HostObject, stage: TimerStage) -> Option<
    (Option<HostObject>, Member, Seq<HostValue>),
> {
    match stage {
        TimerStage::ResolvingContext => Some((None, Member::CurrentContext, seq![])),
        TimerStage::CreatingRunnable { context } => Some(
            (
                None,
                spec_factory(req.kind),
                seq![HostValue::Object(context), HostValue::Long(req.callback), HostValue::Long(req.delay)],
            ),
        ),
        TimerStage::Submitting { runnable } => Some(
            (
                Some(handler),
                Member::PostDelayed,
                seq![HostValue::Object(runnable), HostValue::Long(req.delay)],
            ),
        ),
        TimerStage::Finished(_) => None,
    }
}

/// A reply that must carry a non-null object: a reply of another type does not
/// match the member that was resolved, and a null one fails with `on_null`.
pub open spec fn spec_object_reply(reply: Result<HostValue, BridgeError>, on_null: BridgeError) -> Result<
    HostObject,
    BridgeError,
> {
    match reply {
        Ok(HostValue::Object(o)) => if o.spec_is_null() {
            Err(on_null)
        } else {
            Ok(o)
        },
        Ok(_) => Err(BridgeError::MemberResolution),
        Err(e) => Err(e),
    }
}

/// The stage that follows a reply. Every failure ends the attempt; the
/// scheduler's own answer to a submission is not inspected.
pub open spec fn spec_advance(stage: TimerStage, reply: Result<HostValue, BridgeError>) -> TimerStage {
    match stage {
        TimerStage::ResolvingContext => match spec_object_reply(reply, BridgeError::SchedulerUnavailable) {
            Ok(context) => TimerStage::CreatingRunnable { context },
            Err(e) => TimerStage::Finished(ScheduleOutcome::Failed(e)),
        },
        TimerStage::CreatingRunnable { .. } => match spec_object_reply(reply, BridgeError::Invocation) {
            Ok(runnable) => TimerStage::Submitting { runnable },
            Err(e) => TimerStage::Finished(ScheduleOutcome::Failed(e)),
        },
        TimerStage::Submitting { .. } => match reply {
            Ok(_) => TimerStage::Finished(ScheduleOutcome::Scheduled),
            Err(e) => TimerStage::Finished(ScheduleOutcome::Failed(e)),
        },
        TimerStage::Finished(o) => TimerStage::Finished(o),
    }
}

fn object_reply(reply: Result<HostValue, BridgeError>, on_null: BridgeError) -> (r: Result<HostObject, BridgeError>)
    ensures
        r == spec_object_reply(reply, on_null),
{
    match reply {
        Ok(v) => match v.as_object() {
            Some(o) => if o.is_null() {
                Err(on_null)
            } else {
                Ok(o)
            },
            None => Err(BridgeError::MemberResolution),
        },
        Err(e) => Err(e),
    }
}

/// One attempt to schedule a timer, driven by whoever talks to the host: it
/// asks `next_call` what to call, performs it, and hands the reply to
/// `on_reply`, until `outcome` is known.
pub struct TimerBridge {
    pub request: TimerRequest,
    pub handler: HostObject,
    pub stage: TimerStage,
}

impl TimerBridge {
    pub fn new(request: TimerRequest, handler: HostObject) -> (r: TimerBridge)
        ensures
            r.request == request,
            r.handler == handler,
            r.stage == spec_start(handler),
    {
        let stage = if handler.is_null() {
            TimerStage::Finished(ScheduleOutcome::Failed(BridgeError::InvalidReference))
        } else {
            TimerStage::ResolvingContext
        };
        TimerBridge { request, handler, stage }
    }

    /// The call to perform now; `None` once the attempt has ended.
    pub fn next_call(&self) -> (r: Option<HostCall>)
        ensures
            match r {
                Some(c) => spec_call(self.request, self.handler, self.stage) == Some(c@),
                None => spec_call(self.request, self.handler, self.stage).is_none(),
            },
    {
        match self.stage {
            TimerStage::ResolvingContext => Some(
                HostCall { target: None, member: Member::CurrentContext, args: Vec::new() },
            ),
            TimerStage::CreatingRunnable { context } => {
                let args = vec![
                    HostValue::Object(context),
                    HostValue::Long(self.request.callback),
                    HostValue::Long(self.request.delay),
                ];
                Some(HostCall { target: None, member: factory(self.request.kind), args })
            },
            TimerStage::Submitting { runnable } => {
                let args = vec![HostValue::Object(runnable), HostValue::Long(self.request.delay)];
                Some(HostCall { target: Some(self.handler), member: Member::PostDelayed, args })
            },
            TimerStage::Finished(_) => None,
        }
    }

    /// Takes in the host's reply to the call last asked for.
    pub fn on_reply(&mut self, reply: Result<HostValue, BridgeError>)
        ensures
            final(self).request == old(self).request,
            final(self).handler == old(self).handler,
            final(self).stage == spec_advance(old(self).stage, reply),
    {
        let next = match self.stage {
            TimerStage::ResolvingContext => match object_reply(reply, BridgeError::SchedulerUnavailable) {
                Ok(context) => TimerStage::CreatingRunnable { context },
                Err(e) => TimerStage::Finished(ScheduleOutcome::Failed(e)),
            },
            TimerStage::CreatingRunnable { .. } => match object_reply(reply, BridgeError::Invocation) {
                Ok(runnable) => TimerStage::Submitting { runnable },
                Err(e) => TimerStage::Finished(ScheduleOutcome::Failed(e)),
            },
            TimerStage::Submitting { .. } => match reply {
                Ok(_) => TimerStage::Finished(ScheduleOutcome::Scheduled),
                Err(e) => TimerStage::Finished(ScheduleOutcome::Failed(e)),
            },
            TimerStage::Finished(o) => TimerStage::Finished(o),
        };
        self.stage = next;
    }

    /// How the attempt ended; `None` while a call is still owed.
    pub fn outcome(&self) -> (r: Option<ScheduleOutcome>)
        ensures
            r == (match self.stage {
                TimerStage::Finished(o) => Some(o),
                _ => None::<ScheduleOutcome>,
            }),
    {
        match self.stage {
            TimerStage::Finished(o) => Some(o),
            _ => None,
        }
    }
}


/// The calls that an attempt makes from `stage` when the host answers with
/// `replies`, in order; the last call may still await its reply.
pub open spec fn spec_calls(
    req: TimerRequest,
    handler: HostObject,
    stage: TimerStage,
    replies: Seq<Result<HostValue, BridgeError>>,
) -> Seq<(Option<HostObject>, Member, Seq<HostValue>)>
    decreases replies.len(),
{
    match spec_call(req, handler, stage) {
        None => seq![],
        Some(c) => if replies.len() == 0 {
            seq![c]
        } else {
            seq![c] + spec_calls(req, handler, spec_advance(stage, replies[0]), replies.drop_first())
        },
    }
}

/// The stage an attempt reaches from `stage` when the host answers with
/// `replies`.
pub open spec fn spec_final(stage: TimerStage, replies: Seq<Result<HostValue, BridgeError>>) -> TimerStage
    decreases replies.len(),
{
    if replies.len() == 0 || stage is Finished {
        stage
    } else {
        spec_final(spec_advance(stage, replies[0]), replies.drop_first())
    }
}

/// How many of `calls` go to `m`.
pub open spec fn occurrences(calls: Seq<(Option<HostObject>, Member, Seq<HostValue>)>, m: Member) -> nat
    decreases calls.len(),
{
    if calls.len() == 0 {
        0
    } else {
        (if calls[0].1 == m { 1nat } else { 0nat }) + occurrences(calls.drop_first(), m)
    }
}

/// Scheduling a timer, whatever the host answers, calls the factory of the
/// requested kind at most once and never the other one, and submits to the
/// scheduler at most once, with the requested delay; when it succeeds, the
/// factory was called exactly once and exactly one submission was made.
pub proof fn lemma_schedule_calls(
    callback: i64,
    delay: i64,
    flag: i32,
    handler: HostObject,
    replies: Seq<Result<HostValue, BridgeError>>,
)
    ensures
        ({
            let req = spec_request(callback, delay, flag);
            let calls = spec_calls(req, handler, spec_start(handler), replies);
            let chosen = if flag == 1 { Member::OneShotRunnable } else { Member::RepeatingRunnable };
            let other = if flag == 1 { Member::RepeatingRunnable } else { Member::OneShotRunnable };
            &&& occurrences(calls, chosen) <= 1
            &&& occurrences(calls, other) == 0
            &&& occurrences(calls, Member::PostDelayed) <= 1
            &&& forall|i: int|
                0 <= i < calls.len() && calls[i].1 == Member::PostDelayed ==> calls[i].0 == Some(handler)
                    && calls[i].2.len() == 2 && calls[i].2[1] == HostValue::Long(delay)
            &&& spec_final(spec_start(handler), replies) == TimerStage::Finished(ScheduleOutcome::Scheduled)
                ==> occurrences(calls, chosen) == 1 && occurrences(calls, Member::PostDelayed) == 1
        }),
{
    reveal_with_fuel(spec_calls, 4);
    reveal_with_fuel(spec_final, 4);
    reveal_with_fuel(occurrences, 4);
    let req = spec_request(callback, delay, flag);
    let s0 = spec_start(handler);
    if replies.len() > 0 {
        let r1 = replies.drop_first();
        let s1 = spec_advance(s0, replies[0]);
        if r1.len() > 0 {
            let r2 = r1.drop_first();
            let s2 = spec_advance(s1, r1[0]);
            if r2.len() > 0 {
                let r3 = r2.drop_first();
                let s3 = spec_advance(s2, r2[0]);
                assert(s3 is Finished || !(s0 is ResolvingContext));
                assert(spec_calls(req, handler, s3, r3) == Seq::<(Option<HostObject>, Member, Seq<HostValue>)>::empty());
            }
        }
    }
}


/// When the host resolves a context, builds a runnable and accepts the
/// submission, scheduling makes exactly three calls: the context accessor,
/// the factory of the requested kind with the callback and the delay, and
/// one submission of that runnable with the same delay; and it succeeds.
pub proof fn lemma_schedule_success(
    callback: i64,
    delay: i64,
    flag: i32,
    handler: HostObject,
    context: HostObject,
    runnable: HostObject,
    accepted: HostValue,
)
    requires
        !handler.spec_is_null(),
        !context.spec_is_null(),
        !runnable.spec_is_null(),
    ensures
        ({
            let replies = seq![
                Ok::<HostValue, BridgeError>(HostValue::Object(context)),
                Ok::<HostValue, BridgeError>(HostValue::Object(runnable)),
                Ok::<HostValue, BridgeError>(accepted),
            ];
            let req = spec_request(callback, delay, flag);
            let fac = if flag == 1 { Member::OneShotRunnable } else { Member::RepeatingRunnable };
            &&& spec_calls(req, handler, spec_start(handler), replies) == seq![
                (None::<HostObject>, Member::CurrentContext, Seq::<HostValue>::empty()),
                (
                    None::<HostObject>,
                    fac,
                    seq![HostValue::Object(context), HostValue::Long(callback), HostValue::Long(delay)],
                ),
                (
                    Some(handler),
                    Member::PostDelayed,
                    seq![HostValue::Object(runnable), HostValue::Long(delay)],
                ),
            ]
            &&& spec_final(spec_start(handler), replies) == TimerStage::Finished(ScheduleOutcome::Scheduled)
        }),
{
    reveal_with_fuel(spec_calls, 4);
    reveal_with_fuel(spec_final, 4);
    let replies = seq![
        Ok::<HostValue, BridgeError>(HostValue::Object(context)),
        Ok::<HostValue, BridgeError>(HostValue::Object(runnable)),
        Ok::<HostValue, BridgeError>(accepted),
    ];
    let req = spec_request(callback, delay, flag);
    let s1 = TimerStage::CreatingRunnable { context };
    let s2 = TimerStage::Submitting { runnable };
    let s3 = TimerStage::Finished(ScheduleOutcome::Scheduled);
    assert(spec_advance(spec_start(handler), replies[0]) == s1);
    assert(spec_advance(s1, replies[1]) == s2);
    assert(spec_advance(s2, replies[2]) == s3);
    assert(replies.drop_first() =~= seq![replies[1], replies[2]]);
    assert(replies.drop_first().drop_first() =~= seq![replies[2]]);
    assert(replies.drop_first().drop_first().drop_first() =~= Seq::<Result<HostValue, BridgeError>>::empty());
    assert(spec_calls(req, handler, spec_start(handler), replies) =~= seq![
        (None::<HostObject>, Member::CurrentContext, Seq::<HostValue>::empty()),
        spec_call(req, handler, s1).unwrap(),
        spec_call(req, handler, s2).unwrap(),
    ]);
}

} // verus!
