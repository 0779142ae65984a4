use vstd::prelude::*;

use crate::compare::{is_changed, opt_stored_view, spec_is_changed};
use crate::extract::{extract, spec_extract};
use crate::notify::{json_content_of, notification_body, spec_notification_text};
use crate::observation::{Observation, ObservationView, StoredObservation, StoredObservationView};

verus! {

// One pipeline run is a single linear pass: fetch, extract, load the latest
// stored row, compare, then conditionally persist and notify. The decisions
// live here, verified; the caller performs each requested action (an HTTP
// get, a store read, a store write, an HTTP post) and hands the outcome
// back as the next event. Note that the run reads the latest row and later
// inserts without any lock between the two: under overlapping invocations
// the read-then-write check races, so invocations must not overlap.

/// A fatal failure, with the performing side's description of it.
pub enum RunError {
    Fetch(String),
    StoreRead(String),
    StoreWrite(String),
}

#[verifier::ext_equal]
pub enum RunErrorView {
    Fetch(Seq<char>),
    StoreRead(Seq<char>),
    StoreWrite(Seq<char>),
}

impl View for RunError {
    type V = RunErrorView;

    open spec fn view(&self) -> RunErrorView {
        match self {
            RunError::Fetch(e) => RunErrorView::Fetch(e@),
            RunError::StoreRead(e) => RunErrorView::StoreRead(e@),
            RunError::StoreWrite(e) => RunErrorView::StoreWrite(e@),
        }
    }
}

/// How a finished run ended. A run that persisted a new observation counts
/// as updated even when the notification could not be delivered: the
/// authoritative state was already recorded.
pub enum RunOutcome {
    Updated { notified: bool },
    NoChange,
    Failed(RunError),
}

#[verifier::ext_equal]
pub enum RunOutcomeView {
    Updated { notified: bool },
    NoChange,
    Failed(RunErrorView),
}

impl View for RunOutcome {
    type V = RunOutcomeView;

    open spec fn view(&self) -> RunOutcomeView {
        match self {
            RunOutcome::Updated { notified } => RunOutcomeView::Updated { notified: *notified },
            RunOutcome::NoChange => RunOutcomeView::NoChange,
            RunOutcome::Failed(e) => RunOutcomeView::Failed(e@),
        }
    }
}

/// The outcome of the action the caller last performed.
pub enum RunEvent {
    /// The fetch returned this markup.
    FetchOk(String),
    /// The fetch failed: transport error or non-success response.
    FetchFailed(String),
    /// The store returned its latest row, or has none.
    LastLoaded(Option<StoredObservation>),
    LoadFailed(String),
    PersistOk,
    PersistFailed(String),
    NotifyOk,
    NotifyFailed(String),
}

#[verifier::ext_equal]
pub enum RunEventView {
    FetchOk(Seq<char>),
    FetchFailed(Seq<char>),
    LastLoaded(Option<StoredObservationView>),
    LoadFailed(Seq<char>),
    PersistOk,
    PersistFailed(Seq<char>),
    NotifyOk,
    NotifyFailed(Seq<char>),
}

impl View for RunEvent {
    type V = RunEventView;

    open spec fn view(&self) -> RunEventView {
        match self {
            RunEvent::FetchOk(m) => RunEventView::FetchOk(m@),
            RunEvent::FetchFailed(e) => RunEventView::FetchFailed(e@),
            RunEvent::LastLoaded(l) => RunEventView::LastLoaded(opt_stored_view(*l)),
            RunEvent::LoadFailed(e) => RunEventView::LoadFailed(e@),
            RunEvent::PersistOk => RunEventView::PersistOk,
            RunEvent::PersistFailed(e) => RunEventView::PersistFailed(e@),
            RunEvent::NotifyOk => RunEventView::NotifyOk,
            RunEvent::NotifyFailed(e) => RunEventView::NotifyFailed(e@),
        }
    }
}

/// What the caller must do next.
pub enum RunAction {
    /// Get the status page's markup from the source URL.
    Fetch,
    /// Ask the store for its latest row.
    LoadLast,
    /// Insert this observation as a new row.
    Persist(Observation),
    /// Post this JSON payload to the notification channel.
    Notify(String),
    /// The run is over; its outcome stands in the `Done` phase.
    Stop,
}

#[verifier::ext_equal]
pub enum RunActionView {
    Fetch,
    LoadLast,
    Persist(ObservationView),
    Notify(Seq<char>),
    Stop,
}

impl View for RunAction {
    type V = RunActionView;

    open spec fn view(&self) -> RunActionView {
        match self {
            RunAction::Fetch => RunActionView::Fetch,
            RunAction::LoadLast => RunActionView::LoadLast,
            RunAction::Persist(o) => RunActionView::Persist(o@),
            RunAction::Notify(b) => RunActionView::Notify(b@),
            RunAction::Stop => RunActionView::Stop,
        }
    }
}

/// Where the run stands. `Persisting` already carries the notification
/// payload prepared for the observation being written, so that the payload
/// sent afterwards is exactly the one rendered from what was persisted.
pub enum RunPhase {
    Fetching,
    Loading(Observation),
    Persisting(String),
    Notifying,
    Done(RunOutcome),
}

#[verifier::ext_equal]
pub enum RunPhaseView {
    Fetching,
    Loading(ObservationView),
    Persisting(Seq<char>),
    Notifying,
    Done(RunOutcomeView),
}

impl View for RunPhase {
    type V = RunPhaseView;

    open spec fn view(&self) -> RunPhaseView {
        match self {
            RunPhase::Fetching => RunPhaseView::Fetching,
            RunPhase::Loading(o) => RunPhaseView::Loading(o@),
            RunPhase::Persisting(b) => RunPhaseView::Persisting(b@),
            RunPhase::Notifying => RunPhaseView::Notifying,
            RunPhase::Done(o) => RunPhaseView::Done(o@),
        }
    }
}

/// Which events can answer which phase: each phase waits for the outcome
/// of exactly the action it issued.
pub open spec fn step_permitted(phase: RunPhaseView, event: RunEventView) -> bool {
    match (phase, event) {
        (RunPhaseView::Fetching, RunEventView::FetchOk(_)) => true,
        (RunPhaseView::Fetching, RunEventView::FetchFailed(_)) => true,
        (RunPhaseView::Loading(_), RunEventView::LastLoaded(_)) => true,
        (RunPhaseView::Loading(_), RunEventView::LoadFailed(_)) => true,
        (RunPhaseView::Persisting(_), RunEventView::PersistOk) => true,
        (RunPhaseView::Persisting(_), RunEventView::PersistFailed(_)) => true,
        (RunPhaseView::Notifying, RunEventView::NotifyOk) => true,
        (RunPhaseView::Notifying, RunEventView::NotifyFailed(_)) => true,
        _ => false,
    }
}

/// The whole run, one transition at a time: successful fetch leads to
/// extraction and a store read; a fresh observation that differs from the
/// latest row (or has no prior row) is persisted and then announced; an
/// unchanged one ends the run with no writes; fetch, store-read and
/// store-write failures end it as failed with no further side effects; a
/// notification failure after a successful persist still ends it as
/// updated.
pub open spec fn spec_step(phase: RunPhaseView, event: RunEventView, origin: Seq<char>) -> (
    RunPhaseView,
    RunActionView,
) {
    match (phase, event) {
        (RunPhaseView::Fetching, RunEventView::FetchOk(markup)) => (
            RunPhaseView::Loading(spec_extract(markup, origin)),
            RunActionView::LoadLast,
        ),
        (RunPhaseView::Fetching, RunEventView::FetchFailed(e)) => (
            RunPhaseView::Done(RunOutcomeView::Failed(RunErrorView::Fetch(e))),
            RunActionView::Stop,
        ),
        (RunPhaseView::Loading(fresh), RunEventView::LastLoaded(last)) => if spec_is_changed(
            last,
            fresh,
        ) {
            (
                RunPhaseView::Persisting(json_content_of(spec_notification_text(fresh))),
                RunActionView::Persist(fresh),
            )
        } else {
            (RunPhaseView::Done(RunOutcomeView::NoChange), RunActionView::Stop)
        },
        (RunPhaseView::Loading(_), RunEventView::LoadFailed(e)) => (
            RunPhaseView::Done(RunOutcomeView::Failed(RunErrorView::StoreRead(e))),
            RunActionView::Stop,
        ),
        (RunPhaseView::Persisting(body), RunEventView::PersistOk) => (
            RunPhaseView::Notifying,
            RunActionView::Notify(body),
        ),
        (RunPhaseView::Persisting(_), RunEventView::PersistFailed(e)) => (
            RunPhaseView::Done(RunOutcomeView::Failed(RunErrorView::StoreWrite(e))),
            RunActionView::Stop,
        ),
        (RunPhaseView::Notifying, RunEventView::NotifyOk) => (
            RunPhaseView::Done(RunOutcomeView::Updated { notified: true }),
            RunActionView::Stop,
        ),
        (RunPhaseView::Notifying, RunEventView::NotifyFailed(_)) => (
            RunPhaseView::Done(RunOutcomeView::Updated { notified: false }),
            RunActionView::Stop,
        ),
        _ => (phase, RunActionView::Stop),
    }
}

/// Begins a run: the first action is always the fetch.
pub fn start_run() -> (r: (RunPhase, RunAction))
    ensures
        r.0@ == RunPhaseView::Fetching,
        r.1@ == RunActionView::Fetch,
{
    (RunPhase::Fetching, RunAction::Fetch)
}

/// Advances the run by one transition. `origin` is the page's origin, used
/// to resolve root-relative hyperlinks while extracting.
pub fn controller_step(phase: RunPhase, event: RunEvent, origin: &str) -> (r: (RunPhase, RunAction))
    requires
        step_permitted(phase@, event@),
    ensures
        r.0@ == spec_step(phase@, event@, origin@).0,
        r.1@ == spec_step(phase@, event@, origin@).1,
{
    match (phase, event) {
        (RunPhase::Fetching, RunEvent::FetchOk(markup)) => {
            let fresh = extract(markup.as_str(), origin);
            (RunPhase::Loading(fresh), RunAction::LoadLast)
        },
        (RunPhase::Fetching, RunEvent::FetchFailed(e)) => (
            RunPhase::Done(RunOutcome::Failed(RunError::Fetch(e))),
            RunAction::Stop,
        ),
        (RunPhase::Loading(fresh), RunEvent::LastLoaded(last)) => {
            if is_changed(&last, &fresh) {
                let body = notification_body(&fresh);
                (RunPhase::Persisting(body), RunAction::Persist(fresh))
            } else {
                (RunPhase::Done(RunOutcome::NoChange), RunAction::Stop)
            }
        },
        (RunPhase::Loading(_), RunEvent::LoadFailed(e)) => (
            RunPhase::Done(RunOutcome::Failed(RunError::StoreRead(e))),
            RunAction::Stop,
        ),
        (RunPhase::Persisting(body), RunEvent::PersistOk) => (
            RunPhase::Notifying,
            RunAction::Notify(body),
        ),
        (RunPhase::Persisting(_), RunEvent::PersistFailed(e)) => (
            RunPhase::Done(RunOutcome::Failed(RunError::StoreWrite(e))),
            RunAction::Stop,
        ),
        (RunPhase::Notifying, RunEvent::NotifyOk) => (
            RunPhase::Done(RunOutcome::Updated { notified: true }),
            RunAction::Stop,
        ),
        (RunPhase::Notifying, RunEvent::NotifyFailed(_)) => (
            RunPhase::Done(RunOutcome::Updated { notified: false }),
            RunAction::Stop,
        ),
        (p, _) => (p, RunAction::Stop),
    }
}

/// A notification is only ever requested right after the store confirmed
/// the insert: it never fires for data that was not durably recorded.
pub proof fn lemma_notify_only_after_persist(
    phase: RunPhaseView,
    event: RunEventView,
    origin: Seq<char>,
)
    ensures
        spec_step(phase, event, origin).1 matches RunActionView::Notify(_) ==> phase matches
            RunPhaseView::Persisting(_) && event == RunEventView::PersistOk,
{
}

/// An unchanged observation ends the run at once, with no store write and
/// no notification: the steady state is a no-op.
pub proof fn lemma_no_change_no_writes(
    fresh: ObservationView,
    last: Option<StoredObservationView>,
    origin: Seq<char>,
)
    requires
        !spec_is_changed(last, fresh),
    ensures
        spec_step(RunPhaseView::Loading(fresh), RunEventView::LastLoaded(last), origin)
            == (RunPhaseView::Done(RunOutcomeView::NoChange), RunActionView::Stop),
{
}

/// Every fatal event — fetch, store-read or store-write failure — ends the
/// run as failed with no further action, so nothing is persisted or
/// announced after a failure.
pub proof fn lemma_failure_stops(phase: RunPhaseView, event: RunEventView, origin: Seq<char>)
    requires
        step_permitted(phase, event),
        event matches RunEventView::FetchFailed(_) || event matches RunEventView::LoadFailed(_)
            || event matches RunEventView::PersistFailed(_),
    ensures
        spec_step(phase, event, origin).0 matches RunPhaseView::Done(o) && (o matches
            RunOutcomeView::Failed(_)),
        spec_step(phase, event, origin).1 == RunActionView::Stop,
{
}

/// A changed observation is first persisted, and the payload announced
/// after the store confirms is exactly the one rendered from that same
/// observation: what is sent is what was recorded.
pub proof fn lemma_notification_matches_persisted(
    fresh: ObservationView,
    last: Option<StoredObservationView>,
    origin: Seq<char>,
)
    requires
        spec_is_changed(last, fresh),
    ensures
        spec_step(RunPhaseView::Loading(fresh), RunEventView::LastLoaded(last), origin).1
            == RunActionView::Persist(fresh),
        spec_step(
            spec_step(RunPhaseView::Loading(fresh), RunEventView::LastLoaded(last), origin).0,
            RunEventView::PersistOk,
            origin,
        ).1 == RunActionView::Notify(json_content_of(spec_notification_text(fresh))),
{
}

/// A notification failure after a successful persist is non-fatal: the run
/// still ends as updated, only `notified` records the miss.
pub proof fn lemma_notify_failure_still_updated(e: Seq<char>, origin: Seq<char>)
    ensures
        spec_step(RunPhaseView::Notifying, RunEventView::NotifyFailed(e), origin) == (
            RunPhaseView::Done(RunOutcomeView::Updated { notified: false }),
            RunActionView::Stop,
        ),
{
}

} // verus!
