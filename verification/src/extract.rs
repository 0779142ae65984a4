use vstd::prelude::*;

use crate::observation::{Observation, ObservationView};
use crate::queries::{
    location_query, message_query, query_current_status, query_message_nodes,
    query_ship_location, query_update_time, status_query, time_query,
};
use crate::richtext::{render_nodes, spec_render_nodes};

verus! {

/// What extraction yields on given markup with a given page origin: each
/// field is exactly its structural query's result, and the update message,
/// when its query matches, is the rich inner text of the matched element's
/// children.
pub open spec fn spec_extract(markup: Seq<char>, origin: Seq<char>) -> ObservationView {
    ObservationView {
        current_status: status_query(markup),
        ship_location: location_query(markup),
        update_message: match message_query(markup) {
            Some(ns) => Some(spec_render_nodes(ns, origin)),
            None => None,
        },
        update_time: time_query(markup),
    }
}

/// Extracts the four status fields from raw markup. Never fails: each field
/// independently degrades to `None` when its query finds nothing, however
/// malformed the markup. `origin` is the page's known origin, used to
/// resolve root-relative hyperlink targets in the update message.
pub fn extract(markup: &str, origin: &str) -> (r: Observation)
    ensures
        r@ == spec_extract(markup@, origin@),
{
    let current_status = query_current_status(markup);
    let ship_location = query_ship_location(markup);
    let update_message = match query_message_nodes(markup) {
        Some(nodes) => Some(render_nodes(&nodes, origin)),
        None => None,
    };
    let update_time = query_update_time(markup);
    let r = Observation { current_status, ship_location, update_message, update_time };
    assert(r@ =~= spec_extract(markup@, origin@));
    r
}

/// Markup on which every structural query misses still extracts, to an
/// observation with all four fields absent: a missing field is never a
/// failure.
pub proof fn lemma_extract_all_absent(markup: Seq<char>, origin: Seq<char>)
    requires
        status_query(markup) is None,
        location_query(markup) is None,
        message_query(markup) is None,
        time_query(markup) is None,
    ensures
        spec_extract(markup, origin).current_status is None,
        spec_extract(markup, origin).ship_location is None,
        spec_extract(markup, origin).update_message is None,
        spec_extract(markup, origin).update_time is None,
{
}

} // verus!
