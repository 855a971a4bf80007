use health_check::{CheckHealth, Health, HealthStatus, HealthUpdater, ReactiveHealthCheck};

fn details(text: &str) -> serde_json::Value {
    serde_json::to_value(text).expect("a string is valid JSON")
}

#[test]
fn updating_health_status() {
    let (health_check, mut health_updater) = ReactiveHealthCheck::new("test");
    assert_eq!(health_check.name(), "test");
    assert!(matches!(
        health_check.check_health().status(),
        HealthStatus::NotReady
    ));

    health_updater.update(HealthStatus::Ready.into());
    assert!(matches!(
        health_check.check_health().status(),
        HealthStatus::Ready
    ));

    drop(health_updater);
    assert!(matches!(
        health_check.check_health().status(),
        HealthStatus::ShutDown
    ));
}

#[test]
fn updating_health_status_after_freeze() {
    let (health_check, mut health_updater) = ReactiveHealthCheck::new("test");
    health_updater.update(HealthStatus::Ready.into());
    health_updater.freeze();

    assert!(matches!(
        health_check.check_health().status(),
        HealthStatus::Ready
    ));
}

#[test]
fn updating_health_status_after_panic() {
    let (health_check, mut health_updater) = ReactiveHealthCheck::new("test");
    health_updater.update(HealthStatus::Ready.into());
    // The owner of the updater fails: it closes the updater on its way out.
    assert!(health_updater.close(true));
    drop(health_updater);

    assert!(matches!(
        health_check.check_health().status(),
        HealthStatus::Panicked
    ));
}

#[test]
fn updating_health_status_return_value() {
    let (health_check, mut health_updater) = ReactiveHealthCheck::new("test");
    assert!(matches!(
        health_check.check_health().status(),
        HealthStatus::NotReady
    ));

    let updated = health_updater.update(HealthStatus::Ready.into());
    assert!(updated);
    assert!(matches!(
        health_check.check_health().status(),
        HealthStatus::Ready
    ));

    let updated = health_updater.update(HealthStatus::Ready.into());
    assert!(!updated);

    let health: Health = HealthStatus::Ready.into();
    let health = health.with_details(details("new details are treated as status change"));
    let updated = health_updater.update(health);
    assert!(updated);
}

#[test]
fn fresh_cell_is_not_ready_without_details() {
    let (health_check, _health_updater) = ReactiveHealthCheck::new("fresh");
    let health = health_check.check_health();
    assert_eq!(health.status(), HealthStatus::NotReady);
    assert!(health.details().is_none());
    assert!(health == Health::new(HealthStatus::NotReady));
}

#[test]
fn update_reports_every_change_and_nothing_else() {
    let (health_check, mut health_updater) = ReactiveHealthCheck::new("changes");
    // The cell starts as `NotReady`: pushing that again changes nothing.
    assert!(!health_updater.update(HealthStatus::NotReady.into()));
    assert!(health_updater.update(HealthStatus::Affected.into()));
    assert!(!health_updater.update(HealthStatus::Affected.into()));

    let with_a = Health::from(HealthStatus::Affected).with_details(details("a"));
    let with_b = Health::from(HealthStatus::Affected).with_details(details("b"));
    assert!(health_updater.update(with_a.clone()));
    assert!(!health_updater.update(with_a.clone()));
    assert!(health_updater.update(with_b.clone()));
    // Same details, other status.
    assert!(health_updater.update(Health::from(HealthStatus::Ready).with_details(details("b"))));
    // Details taken away again.
    assert!(health_updater.update(HealthStatus::Ready.into()));

    let seen = health_check.check_health();
    assert_eq!(seen.status(), HealthStatus::Ready);
    assert!(seen.details().is_none());
}

#[test]
fn reader_sees_the_details_that_were_pushed() {
    let (health_check, mut health_updater) = ReactiveHealthCheck::new("details");
    let health = Health::from(HealthStatus::Affected).with_details(details("disk is slow"));
    health_updater.update(health.clone());

    let seen = health_check.check_health();
    assert!(seen == health);
    assert_eq!(seen.status(), HealthStatus::Affected);
    assert_eq!(seen.details(), Some(&details("disk is slow")));
}

#[test]
fn closing_normally_shuts_the_cell_down() {
    let (health_check, mut health_updater) = ReactiveHealthCheck::new("closing");
    health_updater.update(HealthStatus::Ready.into());
    assert!(health_updater.close(false));
    assert_eq!(
        health_check.check_health().status(),
        HealthStatus::ShutDown
    );
}

#[test]
fn terminal_update_is_made_once() {
    let (health_check, mut health_updater) = ReactiveHealthCheck::new("once");
    assert!(health_updater.close(true));
    // Closing again, in whatever way, changes nothing any more.
    assert!(!health_updater.close(false));
    assert!(!health_updater.close(true));
    assert_eq!(
        health_check.check_health().status(),
        HealthStatus::Panicked
    );
    // Nor does the drop that follows.
    drop(health_updater);
    assert_eq!(
        health_check.check_health().status(),
        HealthStatus::Panicked
    );
}

#[test]
fn closing_a_cell_that_is_shut_down_reports_no_change() {
    let (health_check, mut health_updater) = ReactiveHealthCheck::new("same");
    health_updater.update(HealthStatus::ShutDown.into());
    assert!(!health_updater.close(false));
    assert_eq!(
        health_check.check_health().status(),
        HealthStatus::ShutDown
    );

    // Details make the terminal health a different one.
    let (_health_check, mut health_updater) = ReactiveHealthCheck::new("same");
    health_updater.update(Health::from(HealthStatus::ShutDown).with_details(details("bye")));
    assert!(health_updater.close(false));
}

#[test]
fn frozen_cell_keeps_its_last_health() {
    let (health_check, mut health_updater) = ReactiveHealthCheck::new("frozen");
    let last = Health::from(HealthStatus::Affected).with_details(details("kept"));
    health_updater.update(last.clone());
    health_updater.freeze();

    assert!(health_check.check_health() == last);
    // Also for a reader that is made later, and when asked again.
    let late_reader = health_check.clone();
    assert!(late_reader.check_health() == last);
    assert!(health_check.check_health() == last);
}

#[test]
fn subscribed_check_reads_the_same_cell() {
    let (health_check, mut health_updater) = ReactiveHealthCheck::new("shared");
    drop(health_check);

    health_updater.update(HealthStatus::Ready.into());
    let subscribed = health_updater.subscribe();
    assert_eq!(subscribed.name(), "shared");
    assert_eq!(subscribed.check_health().status(), HealthStatus::Ready);

    health_updater.update(HealthStatus::ShuttingDown.into());
    assert_eq!(
        subscribed.check_health().status(),
        HealthStatus::ShuttingDown
    );
    drop(health_updater);
    assert_eq!(subscribed.check_health().status(), HealthStatus::ShutDown);
}

#[test]
fn updater_can_be_moved_to_a_thread_of_its_own() {
    fn assert_send<T: Send>(_: &T) {}
    let (health_check, health_updater): (ReactiveHealthCheck, HealthUpdater) =
        ReactiveHealthCheck::new("sendable");
    assert_send(&health_updater);
    assert_send(&health_check);
}
