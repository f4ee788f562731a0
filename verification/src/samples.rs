//! A local test data source: canned datagrams shaped like the ones the
//! live server sends, for driving the dashboard without a simulator.

use vstd::prelude::*;

verus! {

/// The text of one well-formed telemetry datagram carrying live data.
pub open spec fn sample_telemetry_chars() -> Seq<char> {
    "{\"physics_data\":{\"packetId\":12,\"rpms\":6000,\"gear\":3,\"tyreTemp\":[85.3,85.9,84.0,83.6],\"brakeTemp\":[480.0,495.5,430.2,428.9],\"roadTemp\":28.4,\"airTemp\":21.6},\"graphics_data\":{\"currentTime\":\"1:23.456\",\"lastTime\":\"1:24.111\",\"bestTime\":\"1:22.987\"},\"static_data\":{\"maxRpm\":8000}}"@
}

/// One canned telemetry datagram carrying live data.
pub fn get_telemetry() -> (s: String)
    ensures
        s@ == sample_telemetry_chars(),
{
    String::from_str(
        "{\"physics_data\":{\"packetId\":12,\"rpms\":6000,\"gear\":3,\"tyreTemp\":[85.3,85.9,84.0,83.6],\"brakeTemp\":[480.0,495.5,430.2,428.9],\"roadTemp\":28.4,\"airTemp\":21.6},\"graphics_data\":{\"currentTime\":\"1:23.456\",\"lastTime\":\"1:24.111\",\"bestTime\":\"1:22.987\"},\"static_data\":{\"maxRpm\":8000}}",
    )
}

/// The text of a datagram that is not a structured document at all.
pub open spec fn bad_telemetry_chars() -> Seq<char> {
    "this is not a telemetry document"@
}

/// One canned datagram that no decoder can read: feeding it to the
/// decoder must fail recoverably, leaving every gauge unchanged.
pub fn get_bad_telemetry() -> (s: String)
    ensures
        s@ == bad_telemetry_chars(),
{
    String::from_str("this is not a telemetry document")
}

} // verus!
