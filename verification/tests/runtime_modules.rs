use nazo_postgres::error::RepositoryError;
use nazo_postgres::runtime_modules::{
    decide_desired_cas, decide_instance_write, decimal_text, desired_event, desired_update_columns, desired_from_row, desired_lock_key,
    desired_lock_modules, event_from_row, instance_desired_revision_current, instance_from_row,
    instance_lock_key, next_desired_revision, parse_actual_state, parse_desired_mode,
    parse_event_type, parse_module_id, parse_optional_uuid, parse_revision, storage_revision,
    validate_event_page, validate_instance_mutation, DesiredCasStep, DesiredMode,
    DesiredRevisionGuard, DesiredStateChange, DesiredStateRecord, DesiredStateRow,
    InstanceRevisionColumns, InstanceStateChange, InstanceStateMutation, InstanceStateRecord,
    InstanceStateRow, InstanceWrite, ModuleEventRecord, ModuleEventRow, ModuleEventState,
    ModuleEventType, ModuleId, ModuleState,
};

#[test]
fn stored_names_round_trip() {
    for module in [ModuleId::Ciba, ModuleId::Jarm, ModuleId::Scim, ModuleId::Openid4vpVerifier] {
        assert_eq!(parse_module_id(module.as_str()), Ok(module));
    }
    assert_eq!(parse_desired_mode("inherit"), Ok(DesiredMode::Inherit));
    assert_eq!(parse_actual_state("draining"), Ok(ModuleState::Draining));
    assert_eq!(parse_event_type("drain_completed"), Ok(ModuleEventType::DrainCompleted));
    assert_eq!(
        parse_module_id("bogus"),
        Err(RepositoryError::Consistency("unknown runtime module id: bogus".to_owned()))
    );
    assert_eq!(
        parse_desired_mode("on"),
        Err(RepositoryError::Consistency("unknown runtime desired mode: on".to_owned()))
    );
}

#[test]
fn revisions() {
    assert_eq!(parse_revision(5), Ok(5));
    assert_eq!(
        parse_revision(-1),
        Err(RepositoryError::Consistency("negative runtime revision".to_owned()))
    );
    assert_eq!(storage_revision(7), Ok(7));
    assert!(storage_revision(u64::MAX).is_err());
    assert_eq!(next_desired_revision(None), Ok(1));
    assert_eq!(next_desired_revision(Some(4)), Ok(5));
    assert_eq!(
        next_desired_revision(Some(u64::MAX)),
        Err(RepositoryError::Consistency("desired revision space is exhausted".to_owned()))
    );
    assert_eq!(decimal_text(0), "0");
    assert_eq!(decimal_text(1234567890), "1234567890");
    assert_eq!(decimal_text(u64::MAX), u64::MAX.to_string());
}

#[test]
fn event_page_bounds() {
    assert_eq!(validate_event_page(0, 1), Ok(()));
    assert_eq!(validate_event_page(10, 100), Ok(()));
    assert!(validate_event_page(-1, 10).is_err());
    assert!(validate_event_page(0, 0).is_err());
    assert!(validate_event_page(0, 101).is_err());
}

#[test]
fn lock_modules_are_sorted_and_unique() {
    let guards = [
        DesiredRevisionGuard { module_id: ModuleId::Scim, expected_revision: None },
        DesiredRevisionGuard { module_id: ModuleId::DeviceAuthorization, expected_revision: Some(2) },
        DesiredRevisionGuard { module_id: ModuleId::Scim, expected_revision: Some(1) },
    ];
    assert_eq!(
        desired_lock_modules(&guards, ModuleId::Ciba),
        vec![ModuleId::DeviceAuthorization, ModuleId::Ciba, ModuleId::Scim]
    );
    assert_eq!(desired_lock_modules(&[], ModuleId::Jarm), vec![ModuleId::Jarm]);
}

fn record(mode: DesiredMode, revision: u64) -> DesiredStateRecord {
    DesiredStateRecord {
        module_id: ModuleId::Ciba,
        mode,
        revision,
        actor_id: None,
        reason: None,
        updated_at: 0,
    }
}

#[test]
fn desired_compare_and_set() {
    let change = DesiredStateChange { expected_revision: Some(3), next: record(DesiredMode::Enabled, 4) };
    let current = record(DesiredMode::Disabled, 3);
    assert_eq!(decide_desired_cas(&change, 4, Some(&current), &[], &[]), Ok(DesiredCasStep::Update));
    let stale = record(DesiredMode::Disabled, 2);
    assert_eq!(decide_desired_cas(&change, 4, Some(&stale), &[], &[]), Ok(DesiredCasStep::Stale));
    let same = record(DesiredMode::Enabled, 3);
    assert_eq!(decide_desired_cas(&change, 4, Some(&same), &[], &[]), Ok(DesiredCasStep::Noop));
    assert_eq!(
        decide_desired_cas(&change, 5, Some(&current), &[], &[]),
        Err(RepositoryError::Consistency("desired revision must advance to 5".to_owned()))
    );
    assert_eq!(
        decide_desired_cas(&change, 4, None, &[], &[]),
        Err(RepositoryError::Consistency("runtime desired state is missing".to_owned()))
    );
    let guards = [
        DesiredRevisionGuard { module_id: ModuleId::Scim, expected_revision: Some(8) },
        DesiredRevisionGuard { module_id: ModuleId::Jarm, expected_revision: None },
    ];
    assert_eq!(
        decide_desired_cas(&change, 4, Some(&current), &guards, &[Some(8), None]),
        Ok(DesiredCasStep::Update)
    );
    assert_eq!(
        decide_desired_cas(&change, 4, Some(&current), &guards, &[Some(7), Some(-1)]),
        Ok(DesiredCasStep::Stale)
    );
    assert_eq!(
        decide_desired_cas(&change, 4, Some(&current), &guards, &[Some(-1), None]),
        Err(RepositoryError::Consistency("negative runtime revision".to_owned()))
    );
}

fn instance(transition_revision: u64, state: ModuleState) -> InstanceStateRecord {
    InstanceStateRecord {
        instance_id: "node-1".to_owned(),
        module_id: ModuleId::Ciba,
        state,
        transition_revision,
        applied_revision: Some(transition_revision),
        drain_deadline: None,
        error_code: None,
        updated_at: 0,
    }
}

fn event(event_type: ModuleEventType, revision: u64, after: Option<ModuleEventState>) -> ModuleEventRecord {
    ModuleEventRecord {
        event_id: 1,
        module_id: ModuleId::Ciba,
        event_type,
        revision,
        instance_id: Some("node-1".to_owned()),
        actor_id: None,
        reason: None,
        before: None,
        after,
        outcome_code: None,
        occurred_at: 0,
    }
}

#[test]
fn instance_mutations_are_validated() {
    let good = InstanceStateMutation {
        change: InstanceStateChange { expected_revision: Some(4), next: instance(5, ModuleState::Enabled) },
        applied_event: event(ModuleEventType::TransitionCompleted, 5, Some(ModuleEventState::Actual(ModuleState::Enabled))),
        stale_event: event(ModuleEventType::StaleTransitionDiscarded, 5, None),
    };
    assert_eq!(validate_instance_mutation(5, &good), Ok(()));
    assert_eq!(
        validate_instance_mutation(6, &good),
        Err(RepositoryError::Consistency(
            "instance transition must be bound to the required desired revision".to_owned()
        ))
    );
    let mut wrong_kind = good.clone();
    wrong_kind.applied_event.event_type = ModuleEventType::DesiredStateChanged;
    assert_eq!(
        validate_instance_mutation(5, &wrong_kind),
        Err(RepositoryError::Consistency(
            "actual-state mutation requires a transition or drain event".to_owned()
        ))
    );
    let mut wrong_stale = good.clone();
    wrong_stale.stale_event.event_type = ModuleEventType::TransitionFailed;
    assert_eq!(
        validate_instance_mutation(5, &wrong_stale),
        Err(RepositoryError::Consistency(
            "actual-state mutation requires a stale-transition event".to_owned()
        ))
    );
    let mut other_instance = good.clone();
    other_instance.stale_event.instance_id = Some("node-2".to_owned());
    assert_eq!(
        validate_instance_mutation(5, &other_instance),
        Err(RepositoryError::Consistency(
            "actual-state event does not match its revision-bound mutation".to_owned()
        ))
    );
    let mut wrong_after = good.clone();
    wrong_after.applied_event.after = Some(ModuleEventState::Actual(ModuleState::Failed));
    assert_eq!(
        validate_instance_mutation(5, &wrong_after),
        Err(RepositoryError::Consistency(
            "applied actual-state event must describe the committed state".to_owned()
        ))
    );
}

#[test]
fn instance_compare_and_set() {
    assert_eq!(instance_desired_revision_current(5, Some(5)), Ok(true));
    assert_eq!(instance_desired_revision_current(5, Some(4)), Ok(false));
    assert_eq!(instance_desired_revision_current(5, None), Ok(false));
    let change = InstanceStateChange { expected_revision: Some(4), next: instance(5, ModuleState::Enabled) };
    let current = instance(4, ModuleState::Starting);
    assert_eq!(
        decide_instance_write(&change, Some(&current)),
        Ok(InstanceWrite::Update {
            expected: 4,
            columns: InstanceRevisionColumns { transition_revision: 5, applied_revision: Some(5) }
        })
    );
    let moved = instance(3, ModuleState::Starting);
    assert_eq!(decide_instance_write(&change, Some(&moved)), Ok(InstanceWrite::Stale));
    assert_eq!(decide_instance_write(&change, None), Ok(InstanceWrite::Stale));
    let first = InstanceStateChange { expected_revision: None, next: instance(1, ModuleState::Starting) };
    assert_eq!(
        decide_instance_write(&first, None),
        Ok(InstanceWrite::Insert {
            columns: InstanceRevisionColumns { transition_revision: 1, applied_revision: Some(1) }
        })
    );
    let backwards = InstanceStateChange { expected_revision: Some(4), next: instance(3, ModuleState::Enabled) };
    assert_eq!(
        decide_instance_write(&backwards, Some(&current)),
        Err(RepositoryError::Consistency(
            "instance transition revision cannot move backwards".to_owned()
        ))
    );
}

#[test]
fn rows_read_back() {
    let desired = desired_from_row(DesiredStateRow {
        module_id: "scim".to_owned(),
        desired_mode: "enabled".to_owned(),
        revision: 3,
        actor_id: Some(0x0123456789abcdef0123456789abcdef),
        reason: Some("ops".to_owned()),
        updated_at: 9,
    })
    .expect("valid row");
    assert_eq!(desired.module_id, ModuleId::Scim);
    assert_eq!(desired.mode, DesiredMode::Enabled);
    assert_eq!(desired.revision, 3);
    assert_eq!(desired.actor_id.as_deref(), Some("01234567-89ab-cdef-0123-456789abcdef"));
    assert!(desired_from_row(DesiredStateRow {
        module_id: "scim".to_owned(),
        desired_mode: "enabled".to_owned(),
        revision: -3,
        actor_id: None,
        reason: None,
        updated_at: 9,
    })
    .is_err());
    let inst = instance_from_row(InstanceStateRow {
        instance_id: "n".to_owned(),
        module_id: "jarm".to_owned(),
        actual_state: "failed".to_owned(),
        transition_revision: 2,
        applied_revision: None,
        drain_deadline: Some(4),
        error_code: Some("E".to_owned()),
        updated_at: 1,
    })
    .expect("valid row");
    assert_eq!(inst.state, ModuleState::Failed);
    assert_eq!(inst.transition_revision, 2);
    let ev = event_from_row(ModuleEventRow {
        event_id: 1,
        module_id: "ciba".to_owned(),
        event_type: "desired_state_changed".to_owned(),
        revision: 1,
        instance_id: None,
        actor_id: None,
        reason: None,
        before_state: Some("inherit".to_owned()),
        after_state: Some("enabled".to_owned()),
        outcome_code: Some("noop".to_owned()),
        occurred_at: 2,
    })
    .expect("valid row");
    assert_eq!(ev.before, Some(ModuleEventState::Desired(DesiredMode::Inherit)));
    assert_eq!(ev.after, Some(ModuleEventState::Desired(DesiredMode::Enabled)));
    let bad = event_from_row(ModuleEventRow {
        event_id: 1,
        module_id: "ciba".to_owned(),
        event_type: "transition_started".to_owned(),
        revision: 1,
        instance_id: None,
        actor_id: None,
        reason: None,
        before_state: Some("inherit".to_owned()),
        after_state: None,
        outcome_code: None,
        occurred_at: 2,
    });
    assert_eq!(
        bad.map(|e| e.revision),
        Err(RepositoryError::Consistency("unknown runtime actual state: inherit".to_owned()))
    );
}

#[test]
fn uuid_fields_and_lock_keys() {
    assert_eq!(
        parse_optional_uuid(Some("01234567-89ab-cdef-0123-456789abcdef"), "actor"),
        Ok(Some(0x0123456789abcdef0123456789abcdef))
    );
    assert_eq!(parse_optional_uuid(None, "actor"), Ok(None));
    match parse_optional_uuid(Some("nope"), "actor") {
        Err(RepositoryError::Consistency(message)) => assert!(message.starts_with("invalid runtime actor id: ")),
        other => panic!("unexpected: {other:?}"),
    }
    assert_eq!(desired_lock_key(1, ModuleId::Ciba), "00000000-0000-0000-0000-000000000001:ciba");
    assert_eq!(instance_lock_key("node-1", ModuleId::Jarm), "node-1:jarm");
}

fn next_record(actor: Option<&str>, revision: u64) -> DesiredStateRecord {
    DesiredStateRecord {
        module_id: ModuleId::TokenExchange,
        mode: DesiredMode::Enabled,
        revision,
        actor_id: actor.map(ToOwned::to_owned),
        reason: Some("rollout".to_owned()),
        updated_at: 42,
    }
}

#[test]
fn desired_event_records_the_change() {
    let next = next_record(Some("018f3a4e-1b2c-7d3e-8f40-123456789abc"), 5);
    let event = desired_event(&next, DesiredMode::Inherit, 5, Some("applied".to_owned()), 77);
    assert_eq!(event.event_id, 77);
    assert_eq!(event.module_id, ModuleId::TokenExchange);
    assert_eq!(event.event_type, ModuleEventType::DesiredStateChanged);
    assert_eq!(event.revision, 5);
    assert_eq!(event.instance_id, None);
    assert_eq!(event.actor_id, next.actor_id);
    assert_eq!(event.reason, next.reason);
    assert_eq!(event.before, Some(ModuleEventState::Desired(DesiredMode::Inherit)));
    assert_eq!(event.after, Some(ModuleEventState::Desired(DesiredMode::Enabled)));
    assert_eq!(event.outcome_code.as_deref(), Some("applied"));
    assert_eq!(event.occurred_at, 42);
}

#[test]
fn desired_update_columns_parse_the_actor_and_store_the_revision() {
    let next = next_record(Some("018f3a4e-1b2c-7d3e-8f40-123456789abc"), 5);
    assert_eq!(
        desired_update_columns(&next),
        Ok((Some(0x018f3a4e_1b2c_7d3e_8f40_123456789abc), 5))
    );
    assert_eq!(desired_update_columns(&next_record(None, 9)), Ok((None, 9)));
    match desired_update_columns(&next_record(Some("not-a-uuid"), 1)) {
        Err(RepositoryError::Consistency(message)) => {
            assert!(message.starts_with("invalid runtime actor id: "), "{message}")
        }
        other => panic!("unexpected {other:?}"),
    }
    match desired_update_columns(&next_record(None, u64::MAX)) {
        Err(RepositoryError::Consistency(message)) => {
            assert_eq!(message, "runtime revision exceeds the stored range")
        }
        other => panic!("unexpected {other:?}"),
    }
}
