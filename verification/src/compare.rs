use vstd::prelude::*;

use crate::observation::{
    opt_text_eq, opt_text_view, Observation, ObservationView, StoredObservation,
    StoredObservationView,
};

verus! {

/// Whether a freshly extracted observation differs meaningfully from the
/// latest stored one. With no prior row every fresh observation counts as
/// changed. Otherwise exactly three fields are compared — `current_status`,
/// `ship_location` and `update_message` — and both-absent counts as equal.
/// `update_time` is deliberately excluded: the page's reported time ticks
/// even when nothing substantive changed, and comparing it would report a
/// change on every run.
pub open spec fn spec_is_changed(last: Option<StoredObservationView>, fresh: ObservationView) -> bool {
    match last {
        None => true,
        Some(l) => !(l.current_status == fresh.current_status
            && l.ship_location == fresh.ship_location
            && l.update_message == fresh.update_message),
    }
}

pub open spec fn opt_stored_view(last: Option<StoredObservation>) -> Option<StoredObservationView> {
    match last {
        Some(s) => Some(s@),
        None => None,
    }
}

/// Decides whether `fresh` must be persisted and announced.
pub fn is_changed(last: &Option<StoredObservation>, fresh: &Observation) -> (r: bool)
    ensures
        r == spec_is_changed(opt_stored_view(*last), fresh@),
{
    match last {
        None => true,
        Some(l) => {
            let same = opt_text_eq(&l.current_status, &fresh.current_status)
                && opt_text_eq(&l.ship_location, &fresh.ship_location)
                && opt_text_eq(&l.update_message, &fresh.update_message);
            !same
        },
    }
}

/// With no prior row, every fresh observation counts as changed.
pub proof fn lemma_no_prior_is_changed(fresh: ObservationView)
    ensures
        spec_is_changed(None, fresh),
{
}

/// A pair whose three compared fields agree is never reported as changed,
/// whatever either side's `update_time` holds: a tick of the reported time
/// alone is not a change.
pub proof fn lemma_update_time_ignored(last: StoredObservationView, fresh: ObservationView)
    requires
        last.current_status == fresh.current_status,
        last.ship_location == fresh.ship_location,
        last.update_message == fresh.update_message,
    ensures
        !spec_is_changed(Some(last), fresh),
{
}

/// A difference in any one of the three compared fields — `current_status`,
/// `ship_location` or `update_message` — is always reported as changed.
pub proof fn lemma_compared_field_change_detected(
    last: StoredObservationView,
    fresh: ObservationView,
)
    requires
        last.current_status != fresh.current_status
            || last.ship_location != fresh.ship_location
            || last.update_message != fresh.update_message,
    ensures
        spec_is_changed(Some(last), fresh),
{
}

} // verus!
