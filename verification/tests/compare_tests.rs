use nautilus_watch::compare::is_changed;
use nautilus_watch::observation::{Observation, StoredObservation};

fn fresh(status: &str, location: &str, message: &str, time: &str) -> Observation {
    Observation {
        current_status: Some(status.to_string()),
        ship_location: Some(location.to_string()),
        update_message: Some(message.to_string()),
        update_time: Some(time.to_string()),
    }
}

fn stored(status: &str, location: &str, message: &str, time: &str) -> StoredObservation {
    StoredObservation {
        id: 7,
        current_status: Some(status.to_string()),
        ship_location: Some(location.to_string()),
        update_message: Some(message.to_string()),
        update_time: Some(time.to_string()),
        fetched_at_micros: 1_700_000_000_000_000,
    }
}

#[test]
fn no_prior_row_is_always_changed() {
    let f = fresh("Live", "Pacific", "hello", "10:00");
    assert!(is_changed(&None, &f));

    let empty = Observation {
        current_status: None,
        ship_location: None,
        update_message: None,
        update_time: None,
    };
    assert!(is_changed(&None, &empty));
}

#[test]
fn update_time_alone_is_not_a_change() {
    let last = stored("Live", "Pacific", "hello", "10:00");
    let f = fresh("Live", "Pacific", "hello", "11:00");
    assert!(!is_changed(&Some(last), &f));
}

#[test]
fn current_status_alone_is_a_change() {
    let last = stored("Live", "Pacific", "hello", "10:00");
    let f = fresh("Off air", "Pacific", "hello", "10:00");
    assert!(is_changed(&Some(last), &f));
}

#[test]
fn ship_location_alone_is_a_change() {
    let last = stored("Live", "Pacific", "hello", "10:00");
    let f = fresh("Live", "Atlantic", "hello", "10:00");
    assert!(is_changed(&Some(last), &f));
}

#[test]
fn update_message_alone_is_a_change() {
    let last = stored("Live", "Pacific", "hello", "10:00");
    let f = fresh("Live", "Pacific", "goodbye", "10:00");
    assert!(is_changed(&Some(last), &f));
}

#[test]
fn both_absent_fields_count_as_equal() {
    let last = StoredObservation {
        id: 1,
        current_status: None,
        ship_location: None,
        update_message: None,
        update_time: Some("10:00".to_string()),
        fetched_at_micros: 0,
    };
    let f = Observation {
        current_status: None,
        ship_location: None,
        update_message: None,
        update_time: None,
    };
    assert!(!is_changed(&Some(last), &f));
}

#[test]
fn present_versus_absent_is_a_change() {
    let last = stored("Live", "Pacific", "hello", "10:00");
    let f = Observation {
        current_status: Some("Live".to_string()),
        ship_location: None,
        update_message: Some("hello".to_string()),
        update_time: Some("10:00".to_string()),
    };
    assert!(is_changed(&Some(last), &f));
}
