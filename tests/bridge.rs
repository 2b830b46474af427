use v8_bridge::callback::{test_fn, ReturnSlot};
use v8_bridge::exchange::{export_identifier, greeting_buffer, wrap_for_engine, EngineBuffer};
use v8_bridge::host::{BridgeError, CallCode, HostFault, HostObject, HostValue, Member};
use v8_bridge::platform::{platform_version, scheduler_handle};
use v8_bridge::timer::{
    interval_kind, HostCall, IntervalKind, ScheduleOutcome, TimerBridge, TimerRequest,
};

fn obj(raw: usize) -> HostObject {
    HostObject { raw }
}

/// Drives one scheduling attempt, answering each call with the next reply,
/// and returns the calls made and the outcome.
fn drive(
    req: TimerRequest,
    handler: HostObject,
    replies: Vec<Result<HostValue, BridgeError>>,
) -> (Vec<HostCall>, Option<ScheduleOutcome>) {
    let mut bridge = TimerBridge::new(req, handler);
    let mut calls = Vec::new();
    let mut replies = replies.into_iter();
    while let Some(call) = bridge.next_call() {
        calls.push(call);
        match replies.next() {
            Some(reply) => bridge.on_reply(reply),
            None => break,
        }
    }
    (calls, bridge.outcome())
}

fn success_replies() -> Vec<Result<HostValue, BridgeError>> {
    vec![
        Ok(HostValue::Object(obj(11))),
        Ok(HostValue::Object(obj(22))),
        Ok(HostValue::Bool(true)),
    ]
}

#[test]
fn post_delayed_one_shot_submits_once() {
    let req = TimerRequest::new(7, 1000, 1);
    let (calls, outcome) = drive(req, obj(5), success_replies());
    assert_eq!(outcome, Some(ScheduleOutcome::Scheduled));
    assert_eq!(calls.len(), 3);
    assert_eq!(calls[0].member, Member::CurrentContext);
    assert_eq!(calls[0].target, None);
    assert!(calls[0].args.is_empty());
    assert_eq!(calls[1].member, Member::OneShotRunnable);
    assert_eq!(
        calls[1].args,
        vec![HostValue::Object(obj(11)), HostValue::Long(7), HostValue::Long(1000)]
    );
    assert_eq!(calls[2].member, Member::PostDelayed);
    assert_eq!(calls[2].target, Some(obj(5)));
    assert_eq!(calls[2].args, vec![HostValue::Object(obj(22)), HostValue::Long(1000)]);
    let submissions = calls.iter().filter(|c| c.member == Member::PostDelayed).count();
    assert_eq!(submissions, 1);
}

#[test]
fn other_flags_use_the_repeating_factory() {
    for flag in [0, 2, -1, i32::MAX] {
        let req = TimerRequest::new(3, 250, flag);
        assert_eq!(req.kind, IntervalKind::Repeating);
        let (calls, outcome) = drive(req, obj(5), success_replies());
        assert_eq!(outcome, Some(ScheduleOutcome::Scheduled));
        let repeating = calls.iter().filter(|c| c.member == Member::RepeatingRunnable).count();
        let one_shot = calls.iter().filter(|c| c.member == Member::OneShotRunnable).count();
        let submissions = calls.iter().filter(|c| c.member == Member::PostDelayed).count();
        assert_eq!((repeating, one_shot, submissions), (1, 0, 1));
    }
    assert_eq!(interval_kind(1), IntervalKind::OneShot);
}

#[test]
fn null_handler_is_refused_before_any_call() {
    let req = TimerRequest::new(7, 1000, 1);
    let (calls, outcome) = drive(req, HostObject::null(), success_replies());
    assert!(calls.is_empty());
    assert_eq!(outcome, Some(ScheduleOutcome::Failed(BridgeError::InvalidReference)));
}

#[test]
fn missing_context_ends_the_attempt() {
    let req = TimerRequest::new(7, 1000, 1);
    let replies = vec![Ok(HostValue::Object(HostObject::null()))];
    let (calls, outcome) = drive(req, obj(5), replies);
    assert_eq!(calls.len(), 1);
    assert_eq!(outcome, Some(ScheduleOutcome::Failed(BridgeError::SchedulerUnavailable)));
}

#[test]
fn factory_failure_makes_no_submission() {
    let req = TimerRequest::new(7, 1000, 0);
    let replies = vec![Ok(HostValue::Object(obj(11))), Err(BridgeError::Invocation)];
    let (calls, outcome) = drive(req, obj(5), replies);
    assert_eq!(calls.len(), 2);
    assert!(calls.iter().all(|c| c.member != Member::PostDelayed));
    assert_eq!(outcome, Some(ScheduleOutcome::Failed(BridgeError::Invocation)));

    let replies = vec![Ok(HostValue::Object(obj(11))), Ok(HostValue::Object(HostObject::null()))];
    let (_, outcome) = drive(req, obj(5), replies);
    assert_eq!(outcome, Some(ScheduleOutcome::Failed(BridgeError::Invocation)));

    let replies = vec![Ok(HostValue::Object(obj(11))), Ok(HostValue::Int(4))];
    let (_, outcome) = drive(req, obj(5), replies);
    assert_eq!(outcome, Some(ScheduleOutcome::Failed(BridgeError::MemberResolution)));
}

#[test]
fn rejected_submission_is_reported() {
    let req = TimerRequest::new(7, 1000, 1);
    let replies = vec![
        Ok(HostValue::Object(obj(11))),
        Ok(HostValue::Object(obj(22))),
        Err(BridgeError::ArgumentMismatch),
    ];
    let (calls, outcome) = drive(req, obj(5), replies);
    assert_eq!(calls.len(), 3);
    assert_eq!(outcome, Some(ScheduleOutcome::Failed(BridgeError::ArgumentMismatch)));
}

#[test]
fn unfinished_attempt_has_no_outcome() {
    let req = TimerRequest::new(7, 1000, 1);
    let (calls, outcome) = drive(req, obj(5), vec![Ok(HostValue::Object(obj(11)))]);
    assert_eq!(calls.len(), 2);
    assert_eq!(outcome, None);
}

#[test]
fn platform_version_absent_field_is_member_resolution() {
    assert_eq!(
        platform_version(Err(BridgeError::MemberResolution)),
        Err(BridgeError::MemberResolution)
    );
    assert_eq!(
        platform_version(Ok(HostValue::Bool(true))),
        Err(BridgeError::MemberResolution)
    );
    assert_eq!(platform_version(Ok(HostValue::Int(34))), Ok(34));
}

#[test]
fn scheduler_handle_from_reply() {
    assert_eq!(scheduler_handle(Ok(HostValue::Object(obj(9)))), Ok(obj(9)));
    assert_eq!(
        scheduler_handle(Ok(HostValue::Object(HostObject::null()))),
        Err(BridgeError::SchedulerUnavailable)
    );
    assert_eq!(
        scheduler_handle(Ok(HostValue::Void)),
        Err(BridgeError::MemberResolution)
    );
    assert_eq!(
        scheduler_handle(Err(BridgeError::Invocation)),
        Err(BridgeError::Invocation)
    );
}

#[test]
fn member_descriptors() {
    let d = Member::PlatformVersion.descriptor();
    assert_eq!((d.owner, d.name, d.signature), ("android/os/Build$VERSION", "SDK_INT", "I"));
    let d = Member::OneShotRunnable.descriptor();
    assert_eq!(d.name, "createTimeoutRunnable");
    assert_eq!(d.signature, "(Lcom/node/v8/V8Context;JJ)Lcom/node/v8/V8Runnable;");
    let d = Member::RepeatingRunnable.descriptor();
    assert_eq!(d.name, "createIntervalRunnable");
    let d = Member::PostDelayed.descriptor();
    assert_eq!((d.name, d.signature), ("postDelayed", "(Ljava/lang/Runnable;J)Z"));
}

#[test]
fn host_value_tags() {
    assert_eq!(HostValue::Int(3).as_int(), Some(3));
    assert_eq!(HostValue::Long(3).as_int(), None);
    assert_eq!(HostValue::Long(-8).as_long(), Some(-8));
    assert_eq!(HostValue::Bool(false).as_bool(), Some(false));
    assert_eq!(HostValue::Void.as_object(), None);
    assert_eq!(HostValue::Object(obj(4)).as_object(), Some(obj(4)));
}

#[test]
fn fatal_errors_follow_the_policy() {
    assert!(BridgeError::MemberResolution.is_fatal());
    assert!(BridgeError::InvalidReference.is_fatal());
    assert!(BridgeError::SchedulerUnavailable.is_fatal());
    assert!(BridgeError::OutOfMemory.is_fatal());
    assert!(!BridgeError::Invocation.is_fatal());
    assert!(!BridgeError::ArgumentMismatch.is_fatal());
    assert!(!BridgeError::Decode.is_fatal());
    assert!(!BridgeError::ProtocolViolation.is_fatal());
    assert!(!BridgeError::InvalidRequest.is_fatal());
}

#[test]
fn wrap_for_engine_copies_the_bytes() {
    let mut source = vec![1u8, 2, 3, 0, 255];
    let buffer = wrap_for_engine(&source);
    assert_eq!(buffer.contents(), &[1u8, 2, 3, 0, 255][..]);
    source[0] = 99;
    source.push(7);
    assert_eq!(buffer.contents(), &[1u8, 2, 3, 0, 255][..]);
    assert_eq!(buffer.len(), 5);
    assert_eq!(wrap_for_engine(&[]).len(), 0);
}

#[test]
fn worker_send_bytes_user_42() {
    let handle = export_identifier(Some(String::from("user-42"))).unwrap();
    assert_eq!(handle.as_bytes_with_nul(), b"user-42\0");
    let released = handle.into_bytes_with_nul();
    assert_eq!(released, b"user-42\0".to_vec());
}

#[test]
fn export_identifier_undecodable_is_decode_error() {
    assert!(matches!(export_identifier(None), Err(BridgeError::Decode)));
    assert!(matches!(
        export_identifier(Some(String::from("us\0er"))),
        Err(BridgeError::Decode)
    ));
}

#[test]
fn export_identifier_reads_back() {
    for id in ["", "a", "user-42", "\u{e9}t\u{e9}"] {
        let handle = export_identifier(Some(String::from(id))).unwrap();
        let bytes = handle.as_bytes_with_nul();
        let end = bytes.iter().position(|b| *b == 0).unwrap();
        assert_eq!(end, bytes.len() - 1);
        assert_eq!(&bytes[..end], id.as_bytes());
    }
}

#[test]
fn greeting_payload() {
    let expected = "Send \u{1F496} from Rust".as_bytes();
    assert_eq!(greeting_buffer().contents(), expected);
    let mut slot: ReturnSlot<EngineBuffer> = ReturnSlot::new();
    assert_eq!(test_fn(&mut slot), Ok(()));
    let value = slot.finish().ok().unwrap();
    assert_eq!(value.contents(), expected);
}

#[test]
fn return_slot_protocol() {
    let empty: ReturnSlot<u32> = ReturnSlot::new();
    assert_eq!(empty.finish(), Err(BridgeError::ProtocolViolation));

    let mut once: ReturnSlot<u32> = ReturnSlot::new();
    assert_eq!(once.set(4), Ok(()));
    assert_eq!(once.finish(), Ok(4));

    let mut twice: ReturnSlot<u32> = ReturnSlot::new();
    assert_eq!(twice.set(4), Ok(()));
    assert_eq!(twice.set(5), Err(BridgeError::ProtocolViolation));
    assert_eq!(twice.finish(), Err(BridgeError::ProtocolViolation));

    let mut slot: ReturnSlot<EngineBuffer> = ReturnSlot::new();
    assert_eq!(test_fn(&mut slot), Ok(()));
    assert_eq!(test_fn(&mut slot), Err(BridgeError::ProtocolViolation));
    assert!(slot.finish().is_err());
}

#[test]
fn host_faults_fall_in_the_taxonomy() {
    assert_eq!(HostFault::MethodNotFound.error(), BridgeError::MemberResolution);
    assert_eq!(HostFault::FieldNotFound.error(), BridgeError::MemberResolution);
    assert_eq!(HostFault::InvalidArgumentList.error(), BridgeError::ArgumentMismatch);
    assert_eq!(HostFault::WrongValueType.error(), BridgeError::ArgumentMismatch);
    assert_eq!(HostFault::NullPointer.error(), BridgeError::InvalidReference);
    assert_eq!(HostFault::Exception.error(), BridgeError::Invocation);
    assert_eq!(HostFault::CallFailed(CallCode::NoMemory).error(), BridgeError::OutOfMemory);
    assert_eq!(
        HostFault::CallFailed(CallCode::ThreadDetached).error(),
        BridgeError::SchedulerUnavailable
    );
    assert_eq!(HostFault::CallFailed(CallCode::Other(-9)).error(), BridgeError::Invocation);
    assert!(HostFault::Exception.leaves_exception());
    assert!(!HostFault::MethodNotFound.leaves_exception());
}
