//! The telemetry decoder: raw datagram bytes in, a typed telemetry
//! document out.
//!
//! The decoder reads the three named top-level sections; a section whose
//! key is missing simply yields a section with every field absent, never
//! an error.  Decoding fails only when the bytes are not parseable as a
//! structured document at all, and that failure is recoverable: the caller
//! skips the tick and goes on.  Every field of a successfully decoded
//! document is pinned by the contract: an unsigned field is exactly what
//! the document carries under its key, and a temperature is exactly the
//! verified tenths-parse of the number's decimal text.

use vstd::prelude::*;

use crate::json;
use crate::telemetry::{CornerTemps, GraphicsData, PhysicsData, StaticsData, TelemetryDoc};
use crate::text;

verus! {

/// The one decode failure: the payload was not a structured document
/// (a malformed or truncated datagram).
#[derive(Clone, Copy, PartialEq, Eq, Structural, Debug)]
pub enum DecodeError {
    Malformed,
}

/// Whether optional owned text carries exactly the modelled optional text.
pub open spec fn text_matches(o: Option<String>, t: Option<Seq<char>>) -> bool {
    match (o, t) {
        (Some(s), Some(x)) => s@ == x,
        (None, None) => true,
        _ => false,
    }
}

/// A named numeric field read as signed tenths: the tenths-parse of the
/// number's decimal text, absent when the field is missing, not a number,
/// or its text is not a plain signed decimal.
pub open spec fn spec_tenths_field(bytes: Seq<u8>, section: Seq<char>, key: Seq<char>) -> Option<
    i64,
> {
    match json::json_field_number_text(bytes, section, key) {
        Some(t) => match text::text_tenths(t) {
            Some(v) => Some(v as i64),
            None => None,
        },
        None => None,
    }
}

/// One element of a named numeric array read as signed tenths, in the
/// same way.
pub open spec fn spec_item_tenths(
    bytes: Seq<u8>,
    section: Seq<char>,
    key: Seq<char>,
    index: int,
) -> Option<i64> {
    match json::json_item_number_text(bytes, section, key, index) {
        Some(t) => match text::text_tenths(t) {
            Some(v) => Some(v as i64),
            None => None,
        },
        None => None,
    }
}

/// A named field read as four corner readings: the first four elements of
/// the array, clockwise from the front left; absent unless all four are
/// readable numbers.
pub open spec fn spec_corners_field(bytes: Seq<u8>, section: Seq<char>, key: Seq<char>) -> Option<
    CornerTemps,
> {
    let t0 = spec_item_tenths(bytes, section, key, 0);
    let t1 = spec_item_tenths(bytes, section, key, 1);
    let t2 = spec_item_tenths(bytes, section, key, 2);
    let t3 = spec_item_tenths(bytes, section, key, 3);
    if t0 is Some && t1 is Some && t2 is Some && t3 is Some {
        Some(
            CornerTemps {
                front_left: t0->0,
                front_right: t1->0,
                rear_right: t2->0,
                rear_left: t3->0,
            },
        )
    } else {
        None
    }
}

/// What the vehicle-state section of the document `bytes` holds.
pub open spec fn spec_physics_decoded(bytes: Seq<u8>, p: PhysicsData) -> bool {
    &&& p.packet_id == json::json_field_u64(bytes, "physics_data"@, "packetId"@)
    &&& p.rpms == json::json_field_u64(bytes, "physics_data"@, "rpms"@)
    &&& p.gear == json::json_field_u64(bytes, "physics_data"@, "gear"@)
    &&& p.tyre_temps == spec_corners_field(bytes, "physics_data"@, "tyreTemp"@)
    &&& p.brake_temps == spec_corners_field(bytes, "physics_data"@, "brakeTemp"@)
    &&& p.road_temp == spec_tenths_field(bytes, "physics_data"@, "roadTemp"@)
    &&& p.air_temp == spec_tenths_field(bytes, "physics_data"@, "airTemp"@)
}

/// What the session-state section of the document `bytes` holds.
pub open spec fn spec_graphics_decoded(bytes: Seq<u8>, g: GraphicsData) -> bool {
    &&& text_matches(g.current_time, json::json_field_text(bytes, "graphics_data"@, "currentTime"@))
    &&& text_matches(g.last_time, json::json_field_text(bytes, "graphics_data"@, "lastTime"@))
    &&& text_matches(g.best_time, json::json_field_text(bytes, "graphics_data"@, "bestTime"@))
}

/// What the session-constants section of the document `bytes` holds.
pub open spec fn spec_statics_decoded(bytes: Seq<u8>, s: StaticsData) -> bool {
    s.max_rpm == json::json_field_u64(bytes, "static_data"@, "maxRpm"@)
}

/// What a successful decode of `bytes` is: every field of every section.
/// A missing section has no fields, so all of its fields come out absent.
pub open spec fn spec_decoded(bytes: Seq<u8>, doc: TelemetryDoc) -> bool {
    &&& spec_physics_decoded(bytes, doc.physics)
    &&& spec_graphics_decoded(bytes, doc.graphics)
    &&& spec_statics_decoded(bytes, doc.statics)
}

/// A named numeric field read as signed tenths, through its decimal text.
fn tenths_field(doc: &json::ParsedDoc, section: &str, key: &str) -> (r: Option<i64>)
    ensures
        r == spec_tenths_field(doc.bytes(), section@, key@),
{
    match json::doc_number_text(doc, section, key) {
        Some(t) => text::parse_tenths(t.as_str()),
        None => None,
    }
}

/// One element of a named numeric array read as signed tenths.
fn item_tenths(doc: &json::ParsedDoc, section: &str, key: &str, index: usize) -> (r: Option<i64>)
    ensures
        r == spec_item_tenths(doc.bytes(), section@, key@, index as int),
{
    match json::doc_item_number_text(doc, section, key, index) {
        Some(t) => text::parse_tenths(t.as_str()),
        None => None,
    }
}

/// A named field read as four corner readings.
fn corners_field(doc: &json::ParsedDoc, section: &str, key: &str) -> (r: Option<CornerTemps>)
    ensures
        r == spec_corners_field(doc.bytes(), section@, key@),
{
    let front_left = match item_tenths(doc, section, key, 0) {
        Some(t) => t,
        None => {
            return None;
        },
    };
    let front_right = match item_tenths(doc, section, key, 1) {
        Some(t) => t,
        None => {
            return None;
        },
    };
    let rear_right = match item_tenths(doc, section, key, 2) {
        Some(t) => t,
        None => {
            return None;
        },
    };
    let rear_left = match item_tenths(doc, section, key, 3) {
        Some(t) => t,
        None => {
            return None;
        },
    };
    Some(CornerTemps { front_left, front_right, rear_right, rear_left })
}

/// The vehicle-state section of a parsed document.
fn physics_of(doc: &json::ParsedDoc) -> (p: PhysicsData)
    ensures
        spec_physics_decoded(doc.bytes(), p),
{
    PhysicsData {
        packet_id: json::doc_u64(doc, "physics_data", "packetId"),
        rpms: json::doc_u64(doc, "physics_data", "rpms"),
        gear: json::doc_u64(doc, "physics_data", "gear"),
        tyre_temps: corners_field(doc, "physics_data", "tyreTemp"),
        brake_temps: corners_field(doc, "physics_data", "brakeTemp"),
        road_temp: tenths_field(doc, "physics_data", "roadTemp"),
        air_temp: tenths_field(doc, "physics_data", "airTemp"),
    }
}

/// The session-state section of a parsed document.
fn graphics_of(doc: &json::ParsedDoc) -> (g: GraphicsData)
    ensures
        spec_graphics_decoded(doc.bytes(), g),
{
    GraphicsData {
        current_time: json::doc_text(doc, "graphics_data", "currentTime"),
        last_time: json::doc_text(doc, "graphics_data", "lastTime"),
        best_time: json::doc_text(doc, "graphics_data", "bestTime"),
    }
}

/// The session-constants section of a parsed document.
fn statics_of(doc: &json::ParsedDoc) -> (s: StaticsData)
    ensures
        spec_statics_decoded(doc.bytes(), s),
{
    StaticsData { max_rpm: json::doc_u64(doc, "static_data", "maxRpm") }
}

/// Decodes one datagram payload into a telemetry document.
///
/// Succeeds exactly when the bytes are one well-formed JSON document, and
/// then every field of the result is the named content of the bytes: the
/// three sections are read from the top-level keys `physics_data`,
/// `graphics_data` and `static_data`, each yielding all-absent fields when
/// missing.
pub fn decode(bytes: &[u8]) -> (r: Result<TelemetryDoc, DecodeError>)
    ensures
        r is Ok <==> json::json_document(bytes@),
        r is Ok ==> spec_decoded(bytes@, r->Ok_0),
        r is Err ==> r == Err::<TelemetryDoc, DecodeError>(DecodeError::Malformed),
{
    let doc = match json::parse_document(bytes) {
        Ok(d) => d,
        Err(_) => {
            return Err(DecodeError::Malformed);
        },
    };
    Ok(
        TelemetryDoc {
            physics: physics_of(&doc),
            graphics: graphics_of(&doc),
            statics: statics_of(&doc),
        },
    )
}

} // verus!
