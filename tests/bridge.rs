use quickjs_bridge::eserror::EsError;
use quickjs_bridge::eval::{
    eval_step, has_pending_jobs, make_cstring, EvalAction, EvalEvent, EvalState, FailedCall,
    ScriptKind,
};
use quickjs_bridge::quickjsruntime::QuickJsRuntime;
use quickjs_bridge::reflection::{
    constructor, js_class_call, register_class_name, resolve_class_id, ClassRegistry,
    InstancePlan, INSTANCE_ID_FLAGS, INSTANCE_ID_PROPERTY,
};
use quickjs_bridge::valueref::{RawValue, RefLedger, TAG_EXCEPTION, TAG_INT, TAG_NULL};

const TAG_OBJECT: i64 = -1;

fn object(bits: u64) -> RawValue {
    RawValue::new(TAG_OBJECT, bits)
}

#[test]
fn release_balance_over_wrap_clone_consume_and_scope_exit() {
    let mut ledger = RefLedger::new();
    let a = ledger.wrap(object(0x1000));
    let b = ledger.clone_ref(&a);
    let c = ledger.clone_ref(&b);
    assert_eq!(b.borrow_value(), object(0x1000));
    let borrowed = quickjs_bridge::valueref::OwnedValueRef::new_no_free(object(0x1000));

    let handed_on = ledger.consume(c);
    assert_eq!(handed_on, object(0x1000));
    assert_eq!(ledger.release(a), Some(object(0x1000)));
    assert_eq!(ledger.release(borrowed), None);
    assert_eq!(ledger.live(), 1);
    assert_eq!(ledger.release(b), Some(object(0x1000)));

    assert_eq!(ledger.created(), 3);
    assert_eq!(ledger.consumed(), 1);
    assert_eq!(ledger.released(), 2);
    assert_eq!(ledger.live(), 0);
    assert_eq!(ledger.released(), ledger.created() - ledger.consumed());
}

#[test]
fn consuming_a_borrowed_reference_changes_nothing() {
    let mut ledger = RefLedger::new();
    let borrowed = quickjs_bridge::valueref::OwnedValueRef::new_no_free(object(7));
    assert!(!borrowed.owns_value());
    assert_eq!(ledger.consume(borrowed), object(7));
    assert_eq!(ledger.consumed(), 0);
    assert_eq!(ledger.created(), 0);
}

#[test]
fn wrap_checked_refuses_the_exception_sentinel() {
    let mut ledger = RefLedger::new();
    let err = ledger
        .wrap_checked(RawValue::exception(), "Could not create array in runtime")
        .err()
        .unwrap();
    assert_eq!(err.get_message(), "Could not create array in runtime");
    assert_eq!(ledger.created(), 0);
    let ok = ledger.wrap_checked(object(9), "unused").ok().unwrap();
    assert!(!ok.is_exception());
    assert_eq!(ledger.live(), 1);
}

#[test]
fn exception_tag_is_recognised() {
    let mut ledger = RefLedger::new();
    let ex = ledger.wrap(RawValue::exception());
    assert!(ex.is_exception());
    assert_eq!(RawValue::exception().tag, 6);
    assert_eq!(TAG_EXCEPTION, 6);
    let n = ledger.wrap(RawValue::from_i32(-2));
    assert!(!n.is_exception());
    assert_eq!(n.borrow_value().tag, TAG_INT);
    assert_eq!(n.borrow_value().bits, 0xffff_fffe);
}

#[test]
fn cache_round_trip_returns_the_same_reference() {
    let mut ledger = RefLedger::new();
    let mut rt = QuickJsRuntime::new();
    let id = rt.cache_object(ledger.wrap(object(0xabc))).ok().unwrap();
    assert!(id >= 0);
    assert!(rt.has_cached_obj(id));
    assert_eq!(rt.cached_count(), 1);
    let back = rt.consume_cached_obj(id);
    assert_eq!(back.borrow_value(), object(0xabc));
    assert!(back.owns_value());
    assert!(!rt.has_cached_obj(id));
    assert_eq!(rt.cached_count(), 0);
    assert_eq!(ledger.release(back), Some(object(0xabc)));
    assert_eq!(ledger.live(), 0);
}

#[test]
fn cached_ids_are_distinct_while_live() {
    let mut ledger = RefLedger::new();
    let mut rt = QuickJsRuntime::new();
    let mut ids = Vec::new();
    for i in 0..50u64 {
        let id = rt.cache_object(ledger.wrap(object(i))).ok().unwrap();
        assert!(!ids.contains(&id));
        ids.push(id);
    }
    for (i, id) in ids.iter().enumerate() {
        assert_eq!(rt.consume_cached_obj(*id).borrow_value(), object(i as u64));
    }
}

#[test]
fn cached_value_is_seen_again_by_a_later_operation() {
    let mut ledger = RefLedger::new();
    let mut rt = QuickJsRuntime::new();
    let id = rt.cache_object(ledger.wrap(RawValue::from_i32(42))).ok().unwrap();
    let first = rt.with_cached_obj(id, |r| r.borrow_value());
    let second = rt.with_cached_obj(id, |r| r.borrow_value());
    assert_eq!(first, RawValue::from_i32(42));
    assert_eq!(first, second);
    assert!(rt.has_cached_obj(id));
}

#[test]
fn unknown_cache_id_is_not_live() {
    let mut ledger = RefLedger::new();
    let mut rt = QuickJsRuntime::new();
    assert!(!rt.has_cached_obj(5));
    assert!(!rt.has_cached_obj(-1));
    let id = rt.cache_object(ledger.wrap(object(1))).ok().unwrap();
    let _ = rt.consume_cached_obj(id);
    assert!(!rt.has_cached_obj(id));
}

#[test]
fn registered_class_resolves_to_its_id() {
    let mut reg = ClassRegistry::new();
    assert!(!reg.is_registered("Counter"));
    register_class_name(&mut reg, "Counter", 12);
    register_class_name(&mut reg, "TestClass", 13);
    assert_eq!(resolve_class_id(&reg, "Counter"), 12);
    assert_eq!(resolve_class_id(&reg, "TestClass"), 13);
    assert_eq!(reg.lookup_class_id("Missing"), None);
    assert_eq!(reg.lookup_class_id("Counter"), Some(12));
}

#[test]
fn every_construction_resolves_to_the_registered_id() {
    let mut reg = ClassRegistry::new();
    register_class_name(&mut reg, "Counter", 3);
    let first = constructor(&mut reg, "Counter").unwrap();
    register_class_name(&mut reg, "Other", 4);
    let second = constructor(&mut reg, "Counter").unwrap();
    assert_eq!(first, InstancePlan { class_id: 3, instance_id: 0 });
    assert_eq!(second, InstancePlan { class_id: 3, instance_id: 1 });
    assert_eq!(constructor(&mut reg, "Other").unwrap().class_id, 4);
}

#[test]
fn constructed_counter_carries_an_instance_id() {
    let mut reg = ClassRegistry::new();
    let mut ledger = RefLedger::new();
    register_class_name(&mut reg, "Counter", 1);
    let plan = constructor(&mut reg, "Counter").unwrap();
    assert_eq!(plan.instance_id, 0);
    assert_eq!(INSTANCE_ID_PROPERTY, "_ES_INSTANCE_ID_");
    assert_eq!(INSTANCE_ID_FLAGS, 0);
    let instance = ledger.wrap(object(0x5000));
    assert!(!instance.is_exception());
}

#[test]
fn class_call_returns_null() {
    let v = js_class_call();
    assert_eq!(v.tag, TAG_NULL);
    assert_eq!(v, RawValue::null());
}

fn drive(kind: ScriptKind, events: Vec<EvalEvent>) -> Vec<EvalAction> {
    let mut state = EvalState::start(kind);
    let mut actions = Vec::new();
    for e in events {
        assert!(state.accepts(&e));
        let (s, a) = eval_step(state, e);
        state = s;
        actions.push(a);
    }
    actions
}

#[test]
fn thrown_error_comes_back_with_its_message() {
    let boom = EsError::new("Error".to_string(), "boom".to_string(), Some("at <eval>".to_string()));
    let actions = drive(
        ScriptKind::Global,
        vec![EvalEvent::Evaluated(RawValue::exception()), EvalEvent::ExceptionRead(Some(boom))],
    );
    assert!(matches!(actions[0], EvalAction::ReadException));
    match &actions[1] {
        EvalAction::Fail(e) => {
            assert_eq!(e.get_message(), "boom");
            assert_eq!(e.get_name(), "Error");
            assert_eq!(e.stack.as_deref(), Some("at <eval>"));
        }
        _ => panic!("expected a failure"),
    }
}

#[test]
fn missing_exception_uses_the_fallback_message() {
    let actions = drive(
        ScriptKind::Module,
        vec![EvalEvent::Evaluated(RawValue::exception()), EvalEvent::ExceptionRead(None)],
    );
    match &actions[1] {
        EvalAction::Fail(e) => {
            assert_eq!(e.get_message(), "eval_module failed and could not get exception")
        }
        _ => panic!("expected a failure"),
    }
    let actions = drive(
        ScriptKind::Global,
        vec![EvalEvent::Evaluated(RawValue::exception()), EvalEvent::ExceptionRead(None)],
    );
    match &actions[1] {
        EvalAction::Fail(e) => assert_eq!(e.get_message(), "eval failed and could not get exception"),
        _ => panic!("expected a failure"),
    }
}

#[test]
fn normal_completion_drains_jobs_before_succeeding() {
    let actions = drive(
        ScriptKind::Global,
        vec![
            EvalEvent::Evaluated(RawValue::from_i32(2)),
            EvalEvent::PendingJobs(1),
            EvalEvent::JobRan(1),
            EvalEvent::PendingJobs(1),
            EvalEvent::JobRan(0),
            EvalEvent::PendingJobs(0),
        ],
    );
    assert!(matches!(actions[0], EvalAction::CheckJobs));
    assert!(matches!(actions[1], EvalAction::RunJob));
    assert!(matches!(actions[2], EvalAction::CheckJobs));
    assert!(matches!(actions[3], EvalAction::RunJob));
    assert!(matches!(actions[4], EvalAction::CheckJobs));
    assert!(matches!(actions[5], EvalAction::Succeed));
    assert!(actions.iter().all(|a| !matches!(a, EvalAction::Fail(_))));
}

#[test]
fn failing_job_surfaces_its_exception() {
    let actions = drive(
        ScriptKind::Global,
        vec![
            EvalEvent::Evaluated(RawValue::from_i32(1)),
            EvalEvent::PendingJobs(1),
            EvalEvent::JobRan(-1),
            EvalEvent::ExceptionRead(None),
        ],
    );
    assert!(matches!(actions[2], EvalAction::ReadException));
    match &actions[3] {
        EvalAction::Fail(e) => {
            assert_eq!(e.get_message(), "Unknown exception while running pending job")
        }
        _ => panic!("expected a failure"),
    }
    let _ = FailedCall::PendingJob;
}

#[test]
fn finished_evaluation_accepts_no_event() {
    let (s, _) = eval_step(EvalState::CheckingJobs, EvalEvent::PendingJobs(0));
    assert_eq!(s, EvalState::Finished);
    assert!(!s.accepts(&EvalEvent::PendingJobs(0)));
}

#[test]
fn pending_job_flag() {
    assert!(has_pending_jobs(1));
    assert!(!has_pending_jobs(0));
    assert!(!has_pending_jobs(-1));
}

#[test]
fn cstring_check_rejects_interior_nul() {
    assert!(make_cstring("1+1;").is_ok());
    assert!(make_cstring("").is_ok());
    let e = make_cstring("a\0b").err().unwrap();
    assert_eq!(e.get_message(), "could not create cstring from a\0b");
}
