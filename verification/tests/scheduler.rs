//! Schedulers: their registry, their retirement, and their contexts.

use podway_daemon::observability::{EventCategoryV1, EventNoticeV1, SeverityV1};
use podway_daemon::scheduler::{
    notice_of_acquisition, notice_of_published_scheduler, progress_is_unchanged,
    DaemonCompositionErrorV1, SchedulerAcquisitionV1, SchedulerGenerationV1, SchedulerObjectV1,
    WorkspaceSchedulerKeyV1, WorkspaceSchedulerProgressErrorV1, WorkspaceSchedulerProgressVersionV1,
    WorkspaceSchedulerRegistryV1,
    WorkspaceSchedulerRetirementErrorV1, WorkspaceSchedulerRetirementRetryV1,
    WorkspaceSchedulerRetirementStartErrorV1, WorkspaceSchedulerV1,
};
use podway_daemon::store::DurableWorktreeIdentityV1;

fn test_key() -> WorkspaceSchedulerKeyV1 {
    let identity = DurableWorktreeIdentityV1 {
        common_dir_identity:
            "sha256:aaaaaaaaaaaaaaaaaaaaaaaaaaaaaaaaaaaaaaaaaaaaaaaaaaaaaaaaaaaaaaaa".to_owned(),
        workspace_uuid: "00000000-0000-0000-0000-000000000012".to_owned(),
        worktree_admin_identity:
            "sha256:bbbbbbbbbbbbbbbbbbbbbbbbbbbbbbbbbbbbbbbbbbbbbbbbbbbbbbbbbbbbbbbb".to_owned(),
    };
    WorkspaceSchedulerKeyV1::from_durable_identity(&identity)
}

fn reserve(
    registry: &mut WorkspaceSchedulerRegistryV1,
    key: &WorkspaceSchedulerKeyV1,
    object: u64,
) -> SchedulerObjectV1 {
    match registry.acquire(key) {
        SchedulerAcquisitionV1::Reserved(generation) => {
            let scheduler = SchedulerObjectV1 { generation, object };
            registry.publish(key, scheduler);
            scheduler
        }
        other => panic!("a generation must be reserved: {other:?}"),
    }
}

#[test]
fn stale_close_completion_does_not_remove_a_replacement_generation() {
    let mut registry = WorkspaceSchedulerRegistryV1::new();
    let key = test_key();
    let retiring = reserve(&mut registry, &key, 1);
    registry
        .begin_retirement(&key, retiring)
        .expect("initial scheduler marks its exact generation retiring");
    let retry = WorkspaceSchedulerRetirementRetryV1 {
        key: key.copy(),
        scheduler: retiring,
    };

    // Another close of the same generation completes first, and a replacement is published.
    registry
        .finish_retirement(&retry, Ok::<(), ()>(()))
        .expect("the first completion removes the retiring generation");
    let replacement = reserve(&mut registry, &key, 2);
    assert_eq!(
        replacement.generation.get(),
        retiring.generation.get() + 1
    );

    assert!(matches!(
        registry.finish_retirement(&retry, Ok::<(), ()>(())),
        Err(WorkspaceSchedulerRetirementErrorV1::StaleCompletion { .. })
    ));
    assert_eq!(
        registry.acquire(&key),
        SchedulerAcquisitionV1::Existing(replacement)
    );
}

#[test]
fn lifecycle_rebind_retires_before_replacement_and_preserves_on_failure() {
    let mut scheduler =
        WorkspaceSchedulerV1::new(test_key(), SchedulerGenerationV1::initial(), 11_usize);
    assert_eq!(*scheduler.context_snapshot(), 11);
    let rejected = scheduler.rebind_context_serialized_after(22, Err("retirement failed"));
    assert_eq!(rejected, Err("retirement failed"));
    assert_eq!(*scheduler.context_snapshot(), 11);

    let prior = scheduler
        .rebind_context_serialized_after(22, Ok::<(), &str>(()))
        .expect("successful retirement must publish the replacement");
    assert_eq!(prior, 11);
    assert_eq!(*scheduler.context_snapshot(), 22);
}

#[test]
fn a_scheduler_is_created_once_and_waited_for_meanwhile() {
    let mut registry = WorkspaceSchedulerRegistryV1::new();
    let key = test_key();
    assert_eq!(registry.get_active(&key), None);
    let reserved = match registry.acquire(&key) {
        SchedulerAcquisitionV1::Reserved(generation) => generation,
        other => panic!("a generation must be reserved: {other:?}"),
    };
    assert_eq!(reserved.get(), 1);
    assert_eq!(
        registry.acquire(&key),
        SchedulerAcquisitionV1::WaitForChange
    );
    registry.abandon(&key);
    match registry.acquire(&key) {
        SchedulerAcquisitionV1::Reserved(generation) => assert_eq!(generation.get(), 2),
        other => panic!("an abandoned generation is not used again: {other:?}"),
    }
}

#[test]
fn a_scheduler_that_could_not_be_closed_may_be_closed_again() {
    let mut registry = WorkspaceSchedulerRegistryV1::new();
    let key = test_key();
    let scheduler = reserve(&mut registry, &key, 7);
    registry.begin_retirement(&key, scheduler).unwrap();
    assert!(matches!(
        registry.begin_retirement(&key, scheduler),
        Err(WorkspaceSchedulerRetirementStartErrorV1::CloseInProgress { .. })
    ));
    assert_eq!(
        registry.acquire(&key),
        SchedulerAcquisitionV1::WaitForChange
    );
    let retry = WorkspaceSchedulerRetirementRetryV1 {
        key: key.copy(),
        scheduler,
    };
    match registry.finish_retirement(&retry, Err("busy")) {
        Err(WorkspaceSchedulerRetirementErrorV1::CloseFailed { source, retry: again }) => {
            assert_eq!(source, "busy");
            assert_eq!(again, retry);
        }
        other => panic!("a failed close must be reported: {other:?}"),
    }
    assert_eq!(
        registry.acquire(&key),
        SchedulerAcquisitionV1::Refused(DaemonCompositionErrorV1::SchedulerRetiring {
            generation: scheduler.generation
        })
    );
    registry.begin_retirement_retry(&retry).unwrap();
    registry
        .finish_retirement(&retry, Ok::<(), &str>(()))
        .unwrap();
    match registry.acquire(&key) {
        SchedulerAcquisitionV1::Reserved(generation) => assert_eq!(generation.get(), 2),
        other => panic!("the next generation must be reserved: {other:?}"),
    }
}

#[test]
fn progress_advances_by_one_and_tells_when_it_cannot() {
    let mut scheduler = WorkspaceSchedulerV1::new(test_key(), SchedulerGenerationV1::initial(), ());
    let before = scheduler.progress_version();
    let after = scheduler.notify_progress().unwrap();
    assert_eq!(after.get(), before.get() + 1);
    assert_eq!(scheduler.progress_version(), after);
    assert!(progress_is_unchanged(after, scheduler.progress_version()));
    assert!(!progress_is_unchanged(before, after));
    assert!(!WorkspaceSchedulerProgressErrorV1::VersionExhausted
        .message()
        .is_empty());
}

#[test]
fn a_refused_scheduler_is_warned_of_and_a_created_one_is_noticed() {
    let retiring = SchedulerAcquisitionV1::Refused(DaemonCompositionErrorV1::SchedulerRetiring {
        generation: SchedulerGenerationV1::initial(),
    });
    assert_eq!(
        notice_of_acquisition(&retiring),
        Some(EventNoticeV1 {
            category: EventCategoryV1::TerminalOrRequeueOrSaturation,
            severity: SeverityV1::Warn,
        })
    );
    for silent in [
        SchedulerAcquisitionV1::WaitForChange,
        SchedulerAcquisitionV1::Reserved(SchedulerGenerationV1::initial()),
        SchedulerAcquisitionV1::Refused(DaemonCompositionErrorV1::SchedulerGenerationExhausted),
    ] {
        assert_eq!(notice_of_acquisition(&silent), None);
    }
    assert_eq!(
        notice_of_published_scheduler(),
        EventNoticeV1 {
            category: EventCategoryV1::Scheduler,
            severity: SeverityV1::Info,
        }
    );
}

#[test]
fn the_defaults_hold_nothing_and_have_made_no_progress() {
    assert_eq!(WorkspaceSchedulerProgressVersionV1::default().get(), 0);
    assert_eq!(
        WorkspaceSchedulerProgressVersionV1::default(),
        WorkspaceSchedulerProgressVersionV1::initial()
    );
    let mut registry = WorkspaceSchedulerRegistryV1::default();
    assert!(matches!(
        registry.acquire(&test_key()),
        SchedulerAcquisitionV1::Reserved(_)
    ));
}
