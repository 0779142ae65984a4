use vstd::prelude::*;
use vstd::string::*;

use crate::observation::{opt_text_view, Observation, ObservationView};

verus! {

/// A field as it is rendered for people: its text, or the literal
/// `Unknown` when the field is absent.
pub open spec fn opt_or_unknown(f: Option<Seq<char>>) -> Seq<char> {
    match f {
        Some(t) => t,
        None => "Unknown"@,
    }
}

/// The four-line human-readable rendering of an observation, each field
/// falling back to `Unknown` when absent.
pub open spec fn spec_notification_text(o: ObservationView) -> Seq<char> {
    "Current Status: "@ + opt_or_unknown(o.current_status) + "\nShip Location: "@
        + opt_or_unknown(o.ship_location) + "\nUpdate Message: "@ + opt_or_unknown(
        o.update_message,
    ) + "\nUpdate Time: "@ + opt_or_unknown(o.update_time)
}

fn append_field(out: &mut String, f: &Option<String>)
    ensures
        final(out)@ == old(out)@ + opt_or_unknown(opt_text_view(*f)),
{
    match f {
        Some(t) => out.append(t.as_str()),
        None => out.append("Unknown"),
    }
}

/// Renders the text sent to the notification channel when an observation
/// is new.
pub fn render_notification(o: &Observation) -> (r: String)
    ensures
        r@ == spec_notification_text(o@),
{
    let mut out: String = "Current Status: ".to_owned();
    append_field(&mut out, &o.current_status);
    out.append("\nShip Location: ");
    append_field(&mut out, &o.ship_location);
    out.append("\nUpdate Message: ");
    append_field(&mut out, &o.update_message);
    out.append("\nUpdate Time: ");
    append_field(&mut out, &o.update_time);
    assert(out@ =~= spec_notification_text(o@));
    out
}

/// The serialized one-entry JSON object carrying a notification text.
pub uninterp spec fn json_content_of(text: Seq<char>) -> Seq<char>;

/// Relies on serde_json's `Map::insert`, `Value::String` and
/// `Value::to_string`: the serialized form of the one-entry object
/// `{"content": <text>}` depends on the text alone, so the result is
/// named `json_content_of`.
#[verifier::external_body]
fn encode_content_body(text: &str) -> (r: String)
    ensures
        r@ == json_content_of(text@),
{
    let mut fields = serde_json::Map::new();
    fields.insert("content".to_string(), serde_json::Value::String(text.to_string()));
    serde_json::Value::Object(fields).to_string()
}

/// The JSON payload posted to the notification channel for a fresh
/// observation: `{"content": <four-line rendering>}`.
pub fn notification_body(o: &Observation) -> (r: String)
    ensures
        r@ == json_content_of(spec_notification_text(o@)),
{
    let text = render_notification(o);
    encode_content_body(text.as_str())
}

} // verus!
