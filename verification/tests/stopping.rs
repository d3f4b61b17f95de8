use hello_world_grpc::error::AppError;
use hello_world_grpc::shutdown::{
    ShutdownAction, ShutdownCoordinator, ShutdownEvent, ShutdownOutcome, ShutdownPhase,
    GRACE_PERIOD_MS,
};

#[test]
fn test_server_takes_work_until_the_signal() {
    let mut coordinator = ShutdownCoordinator::new();
    assert_eq!(coordinator.phase(), ShutdownPhase::Serving);
    assert_eq!(coordinator.outcome(), None);
    assert!(coordinator.accept_work().is_ok());
    assert_eq!(
        coordinator.handle(ShutdownEvent::Tick, 5),
        ShutdownAction::Continue
    );
    assert!(coordinator.accept_work().is_ok());

    let action = coordinator.handle(ShutdownEvent::Signal, 1_000);
    assert_eq!(
        action,
        ShutdownAction::StopAccepting {
            deadline_ms: 1_000 + GRACE_PERIOD_MS
        }
    );
    assert_eq!(GRACE_PERIOD_MS, 30_000);
    let refusal = coordinator.accept_work().unwrap_err();
    assert!(matches!(refusal, AppError::UnavailableError { .. }));
    assert_eq!(refusal.message(), "Server is shutting down");
}

#[test]
fn test_shutdown_with_prompt_stream_is_clean() {
    let mut coordinator = ShutdownCoordinator::new();
    coordinator.handle(ShutdownEvent::Signal, 10_000);
    assert_eq!(
        coordinator.handle(ShutdownEvent::Tick, 20_000),
        ShutdownAction::Continue
    );
    assert_eq!(
        coordinator.handle(ShutdownEvent::Signal, 21_000),
        ShutdownAction::Continue
    );
    assert_eq!(
        coordinator.phase(),
        ShutdownPhase::Draining {
            deadline_ms: 40_000
        }
    );
    assert_eq!(
        coordinator.handle(ShutdownEvent::Drained, 40_000),
        ShutdownAction::Finish {
            outcome: ShutdownOutcome::Clean
        }
    );
    assert_eq!(coordinator.outcome(), Some(ShutdownOutcome::Clean));
}

#[test]
fn test_shutdown_with_stuck_stream_is_forced() {
    let mut coordinator = ShutdownCoordinator::new();
    coordinator.handle(ShutdownEvent::Signal, 10_000);
    assert_eq!(
        coordinator.handle(ShutdownEvent::Tick, 39_999),
        ShutdownAction::Continue
    );
    assert_eq!(
        coordinator.handle(ShutdownEvent::Tick, 40_000),
        ShutdownAction::Finish {
            outcome: ShutdownOutcome::Forced
        }
    );
    // The work ending afterwards changes nothing.
    assert_eq!(
        coordinator.handle(ShutdownEvent::Drained, 40_001),
        ShutdownAction::Continue
    );
    assert_eq!(coordinator.outcome(), Some(ShutdownOutcome::Forced));
    assert!(coordinator.accept_work().is_err());
}

#[test]
fn test_shutdown_drained_after_the_deadline_is_forced() {
    let mut coordinator = ShutdownCoordinator::with_grace_period(500);
    coordinator.handle(ShutdownEvent::Signal, 100);
    assert_eq!(
        coordinator.handle(ShutdownEvent::Drained, 601),
        ShutdownAction::Finish {
            outcome: ShutdownOutcome::Forced
        }
    );
}

#[test]
fn test_shutdown_failure_is_its_own_outcome() {
    let mut serving = ShutdownCoordinator::new();
    assert_eq!(
        serving.handle(ShutdownEvent::Failure, 3),
        ShutdownAction::Finish {
            outcome: ShutdownOutcome::Failed
        }
    );
    let mut draining = ShutdownCoordinator::new();
    draining.handle(ShutdownEvent::Signal, 0);
    assert_eq!(
        draining.handle(ShutdownEvent::Failure, 3),
        ShutdownAction::Finish {
            outcome: ShutdownOutcome::Failed
        }
    );
    assert_eq!(draining.outcome(), Some(ShutdownOutcome::Failed));
    assert_eq!(
        draining.handle(ShutdownEvent::Signal, 4),
        ShutdownAction::Continue
    );
    assert_eq!(draining.outcome(), Some(ShutdownOutcome::Failed));
}

#[test]
fn test_serving_loop_that_returns_by_itself_is_clean() {
    let mut coordinator = ShutdownCoordinator::new();
    assert_eq!(
        coordinator.handle(ShutdownEvent::Drained, 77),
        ShutdownAction::Finish {
            outcome: ShutdownOutcome::Clean
        }
    );
}

#[test]
fn test_deadline_stops_at_the_largest_clock_value() {
    let mut coordinator = ShutdownCoordinator::new();
    assert_eq!(
        coordinator.handle(ShutdownEvent::Signal, u64::MAX - 5),
        ShutdownAction::StopAccepting {
            deadline_ms: u64::MAX
        }
    );
    assert_eq!(
        coordinator.handle(ShutdownEvent::Tick, u64::MAX - 1),
        ShutdownAction::Continue
    );
    assert_eq!(
        coordinator.handle(ShutdownEvent::Drained, u64::MAX),
        ShutdownAction::Finish {
            outcome: ShutdownOutcome::Clean
        }
    );
}
