use vstd::prelude::*;

use crate::convert::{
    decode_separator, decode_timezone_name, known_zone, parse_offset_timestamp, project,
    projection, ParsedTimestamp, TimezoneName,
};
use crate::error::ServiceError;
use crate::instant::Instant;
use crate::store::TimestampStore;
use crate::text::{manual_utc_seconds, offset_shape, rfc3339_valid, text_nanos, text_offset};

verus! {

/// The JSON text that serde_json writes for an array of strings.
pub uninterp spec fn json_string_array(items: Seq<Seq<char>>) -> Seq<char>;

/// Relies on serde_json::to_string on a vector of strings. Its documentation
/// gives two causes of failure, a `Serialize` impl that fails and a map with
/// keys other than strings, and neither can arise here; the error's
/// description would be handed back.
#[verifier::external_body]
fn serde_json_encode(items: &Vec<String>) -> (r: Result<String, String>)
    ensures
        r is Ok,
        r matches Ok(s) ==> s@ == json_string_array(items.deep_view()),
{
    serde_json::to_string(items).map_err(|e| e.to_string())
}

/// The renderings of `items` in `zone`, in the same order.
pub open spec fn listing(items: Seq<Instant>, zone: Seq<char>) -> Seq<Seq<char>> {
    items.map_values(|i: Instant| projection(i, zone))
}

/// Parses `text` and, when it denotes an instant, appends that instant to
/// `store`. On a malformed text the store is left as it was.
pub fn append_timestamp(store: &mut TimestampStore, text: &str) -> (r: Result<
    ParsedTimestamp,
    ServiceError,
>)
    requires
        old(store).wf(),
    ensures
        final(store).wf(),
        r is Ok <==> rfc3339_valid(text@),
        !offset_shape(text@) ==> r is Err && final(store)@ == old(store)@,
        r matches Ok(p) ==> {
            &&& p.instant.secs == manual_utc_seconds(text@)
            &&& p.instant.nanos == text_nanos(text@)
            &&& p.offset_secs == text_offset(text@)
            &&& -86400 < p.offset_secs < 86400
            &&& final(store)@ == old(store)@.push(p.instant)
        },
        r matches Err(e) ==> e is MalformedTimestamp && final(store)@ == old(store)@,
        text@.len() < 19 ==> r is Err && final(store)@ == old(store)@,
{
    match parse_offset_timestamp(text) {
        Ok(p) => {
            store.append(p.instant);
            Ok(p)
        },
        Err(e) => Err(e),
    }
}

/// Renders each of `instants` in `zone`, keeping their order.
pub fn render_all(instants: &Vec<Instant>, zone: &TimezoneName) -> (r: Vec<String>)
    requires
        zone.wf(),
        forall|k: int| 0 <= k < instants@.len() ==> #[trigger] instants@[k].wf(),
    ensures
        r.deep_view() == listing(instants@, zone@),
{
    let mut out: Vec<String> = Vec::new();
    let mut k: usize = 0;
    while k < instants.len()
        invariant
            zone.wf(),
            forall|j: int| 0 <= j < instants@.len() ==> #[trigger] instants@[j].wf(),
            k <= instants@.len(),
            out@.len() == k,
            forall|j: int| 0 <= j < k ==> #[trigger] out@[j]@ == projection(instants@[j], zone@),
        decreases instants@.len() - k,
    {
        let s = project(instants[k], zone);
        out.push(s);
        k = k + 1;
    }
    assert(out.deep_view() =~= listing(instants@, zone@));
    out
}

/// Every stored instant rendered in the zone that `raw_zone` names (its `/`
/// possibly written `%2F`), in the order they were appended.
pub fn list_in_timezone(store: &TimestampStore, raw_zone: &str) -> (r: Result<
    Vec<String>,
    ServiceError,
>)
    requires
        store.wf(),
    ensures
        r is Ok <==> known_zone(decode_separator(raw_zone@)),
        r matches Ok(v) ==> v.deep_view() == listing(store@, decode_separator(raw_zone@)),
        r matches Err(e) ==> e is UnknownTimezone,
{
    let zone = match decode_timezone_name(raw_zone) {
        Ok(z) => z,
        Err(e) => return Err(e),
    };
    let instants = store.snapshot();
    Ok(render_all(&instants, &zone))
}

/// The listing of `list_in_timezone` encoded as a JSON array of strings.
pub fn list_in_timezone_json(store: &TimestampStore, raw_zone: &str) -> (r: Result<
    String,
    ServiceError,
>)
    requires
        store.wf(),
    ensures
        ({
            let zone = decode_separator(raw_zone@);
            &&& r is Ok <==> known_zone(zone)
            &&& r matches Ok(s) ==> s@ == json_string_array(listing(store@, zone))
            &&& r matches Err(e) ==> e is UnknownTimezone
        }),
{
    let items = match list_in_timezone(store, raw_zone) {
        Ok(v) => v,
        Err(e) => return Err(e),
    };
    match serde_json_encode(&items) {
        Ok(s) => Ok(s),
        Err(e) => Err(ServiceError::SerializationFailure(e)),
    }
}

} // verus!
