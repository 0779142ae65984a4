use nautilus_watch::observation::StoredObservation;
use nautilus_watch::pipeline::{
    controller_step, start_run, RunAction, RunError, RunEvent, RunOutcome, RunPhase,
};

const ORIGIN: &str = "https://example.org";

const FULL_PAGE: &str = "<html><body>\
    <div class=\"dash-data\">Live</div>\
    <div class=\"status-full\"><span class=\"dash-data\">Pacific Ocean</span></div>\
    <div class=\"dash-message\"><p>Dive at <a href=\"/dive\">this site</a></p>\
    <em>June 1, 10:00 UTC</em></div>\
    </body></html>";

#[test]
fn run_starts_with_a_fetch() {
    let (phase, action) = start_run();
    assert!(matches!(phase, RunPhase::Fetching));
    assert!(matches!(action, RunAction::Fetch));
}

#[test]
fn scenario_empty_store_persists_and_notifies() {
    let (phase, _) = start_run();

    let (phase, action) = controller_step(phase, RunEvent::FetchOk(FULL_PAGE.to_string()), ORIGIN);
    assert!(matches!(action, RunAction::LoadLast));

    let (phase, action) = controller_step(phase, RunEvent::LastLoaded(None), ORIGIN);
    let persisted = match action {
        RunAction::Persist(obs) => obs,
        other => panic!("expected a persist request, got {:?}", kind_of(&other)),
    };
    assert_eq!(persisted.current_status.as_deref(), Some("Live"));
    assert_eq!(persisted.ship_location.as_deref(), Some("Pacific Ocean"));
    assert_eq!(
        persisted.update_message.as_deref(),
        Some("Dive at [this site](https://example.org/dive)")
    );
    assert_eq!(persisted.update_time.as_deref(), Some("June 1, 10:00 UTC"));

    let (phase, action) = controller_step(phase, RunEvent::PersistOk, ORIGIN);
    let body = match action {
        RunAction::Notify(body) => body,
        other => panic!("expected a notify request, got {:?}", kind_of(&other)),
    };
    assert_eq!(
        body,
        "{\"content\":\"Current Status: Live\\nShip Location: Pacific Ocean\\n\
         Update Message: Dive at [this site](https://example.org/dive)\\n\
         Update Time: June 1, 10:00 UTC\"}"
    );

    let (phase, action) = controller_step(phase, RunEvent::NotifyOk, ORIGIN);
    assert!(matches!(action, RunAction::Stop));
    assert!(matches!(
        phase,
        RunPhase::Done(RunOutcome::Updated { notified: true })
    ));
}

#[test]
fn scenario_unchanged_row_means_no_writes() {
    let (phase, _) = start_run();
    let (phase, _) = controller_step(phase, RunEvent::FetchOk(FULL_PAGE.to_string()), ORIGIN);

    let last = StoredObservation {
        id: 42,
        current_status: Some("Live".to_string()),
        ship_location: Some("Pacific Ocean".to_string()),
        update_message: Some("Dive at [this site](https://example.org/dive)".to_string()),
        update_time: Some("May 31, 22:00 UTC".to_string()),
        fetched_at_micros: 1_700_000_000_000_000,
    };
    let (phase, action) = controller_step(phase, RunEvent::LastLoaded(Some(last)), ORIGIN);
    assert!(matches!(action, RunAction::Stop));
    assert!(matches!(phase, RunPhase::Done(RunOutcome::NoChange)));
}

#[test]
fn scenario_fetch_failure_aborts_with_no_side_effects() {
    let (phase, _) = start_run();
    let (phase, action) = controller_step(
        phase,
        RunEvent::FetchFailed("connection refused".to_string()),
        ORIGIN,
    );
    assert!(matches!(action, RunAction::Stop));
    match phase {
        RunPhase::Done(RunOutcome::Failed(RunError::Fetch(e))) => {
            assert_eq!(e, "connection refused");
        }
        _ => panic!("expected a failed outcome"),
    }
}

#[test]
fn scenario_notify_failure_after_persist_still_succeeds() {
    let (phase, _) = start_run();
    let (phase, _) = controller_step(phase, RunEvent::FetchOk(FULL_PAGE.to_string()), ORIGIN);
    let (phase, _) = controller_step(phase, RunEvent::LastLoaded(None), ORIGIN);
    let (phase, action) = controller_step(phase, RunEvent::PersistOk, ORIGIN);
    assert!(matches!(action, RunAction::Notify(_)));

    let (phase, action) = controller_step(
        phase,
        RunEvent::NotifyFailed("webhook returned 500".to_string()),
        ORIGIN,
    );
    assert!(matches!(action, RunAction::Stop));
    assert!(matches!(
        phase,
        RunPhase::Done(RunOutcome::Updated { notified: false })
    ));
}

#[test]
fn scenario_persist_failure_aborts_before_notification() {
    let (phase, _) = start_run();
    let (phase, _) = controller_step(phase, RunEvent::FetchOk(FULL_PAGE.to_string()), ORIGIN);
    let (phase, _) = controller_step(phase, RunEvent::LastLoaded(None), ORIGIN);
    let (phase, action) = controller_step(
        phase,
        RunEvent::PersistFailed("disk full".to_string()),
        ORIGIN,
    );
    assert!(matches!(action, RunAction::Stop));
    match phase {
        RunPhase::Done(RunOutcome::Failed(RunError::StoreWrite(e))) => {
            assert_eq!(e, "disk full");
        }
        _ => panic!("expected a failed outcome"),
    }
}

#[test]
fn scenario_store_read_failure_aborts() {
    let (phase, _) = start_run();
    let (phase, _) = controller_step(phase, RunEvent::FetchOk(FULL_PAGE.to_string()), ORIGIN);
    let (phase, action) = controller_step(
        phase,
        RunEvent::LoadFailed("connection lost".to_string()),
        ORIGIN,
    );
    assert!(matches!(action, RunAction::Stop));
    assert!(matches!(
        phase,
        RunPhase::Done(RunOutcome::Failed(RunError::StoreRead(_)))
    ));
}

#[test]
fn scenario_empty_page_still_persists_when_store_is_empty() {
    let (phase, _) = start_run();
    let (phase, _) = controller_step(
        phase,
        RunEvent::FetchOk("<html><body></body></html>".to_string()),
        ORIGIN,
    );
    let (_, action) = controller_step(phase, RunEvent::LastLoaded(None), ORIGIN);
    match action {
        RunAction::Persist(obs) => {
            assert_eq!(obs.current_status, None);
            assert_eq!(obs.ship_location, None);
            assert_eq!(obs.update_message, None);
            assert_eq!(obs.update_time, None);
        }
        _ => panic!("expected a persist request"),
    }
}

fn kind_of(action: &RunAction) -> &'static str {
    match action {
        RunAction::Fetch => "fetch",
        RunAction::LoadLast => "load-last",
        RunAction::Persist(_) => "persist",
        RunAction::Notify(_) => "notify",
        RunAction::Stop => "stop",
    }
}
