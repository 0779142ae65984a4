use vstd::prelude::*;

verus! {

/// One extracted snapshot of the status page's four fields. Any field may be
/// absent: a query that finds nothing degrades to `None`, never to an error.
pub struct Observation {
    pub current_status: Option<String>,
    pub ship_location: Option<String>,
    pub update_message: Option<String>,
    pub update_time: Option<String>,
}

/// Mathematical model of an [`Observation`]: each field as a character
/// sequence, or absent.
#[verifier::ext_equal]
pub struct ObservationView {
    pub current_status: Option<Seq<char>>,
    pub ship_location: Option<Seq<char>>,
    pub update_message: Option<Seq<char>>,
    pub update_time: Option<Seq<char>>,
}

pub open spec fn opt_text_view(o: Option<String>) -> Option<Seq<char>> {
    match o {
        Some(s) => Some(s@),
        None => None,
    }
}

impl View for Observation {
    type V = ObservationView;

    open spec fn view(&self) -> ObservationView {
        ObservationView {
            current_status: opt_text_view(self.current_status),
            ship_location: opt_text_view(self.ship_location),
            update_message: opt_text_view(self.update_message),
            update_time: opt_text_view(self.update_time),
        }
    }
}

/// A persisted [`Observation`]. The store assigns `id` (unique, increasing in
/// insertion order) and the capture timestamp, kept here as microseconds
/// since the Unix epoch; the timestamp serves only to find the latest row.
pub struct StoredObservation {
    pub id: i32,
    pub current_status: Option<String>,
    pub ship_location: Option<String>,
    pub update_message: Option<String>,
    pub update_time: Option<String>,
    pub fetched_at_micros: i64,
}

/// Mathematical model of a [`StoredObservation`].
#[verifier::ext_equal]
pub struct StoredObservationView {
    pub id: int,
    pub current_status: Option<Seq<char>>,
    pub ship_location: Option<Seq<char>>,
    pub update_message: Option<Seq<char>>,
    pub update_time: Option<Seq<char>>,
    pub fetched_at_micros: int,
}

impl View for StoredObservation {
    type V = StoredObservationView;

    open spec fn view(&self) -> StoredObservationView {
        StoredObservationView {
            id: self.id as int,
            current_status: opt_text_view(self.current_status),
            ship_location: opt_text_view(self.ship_location),
            update_message: opt_text_view(self.update_message),
            update_time: opt_text_view(self.update_time),
            fetched_at_micros: self.fetched_at_micros as int,
        }
    }
}

/// Equality of two optional text fields: both absent, or both present with
/// the same characters.
pub fn opt_text_eq(a: &Option<String>, b: &Option<String>) -> (r: bool)
    ensures
        r == (opt_text_view(*a) == opt_text_view(*b)),
{
    match (a, b) {
        (Some(x), Some(y)) => x.eq(y),
        (None, None) => true,
        _ => false,
    }
}

} // verus!
