// End-to-end tests of the engine: decoding datagrams, dispatching them to
// the gauges, rendering, and the heartbeat protocol.

use accrt_engineer::connection::{handshake_request, keepalive_message, HeartbeatClock};
use accrt_engineer::dashboard::{waiting_message, Dashboard};
use accrt_engineer::decode::{decode, DecodeError};
use accrt_engineer::samples::{get_bad_telemetry, get_telemetry};
use accrt_engineer::tui_blocks::TUIBlock;

#[test]
fn it_works() {
    let result: i32 = 2 + 2;
    assert_eq!(result, 4);
}

#[test]
fn decode_rejects_non_documents() {
    let r = decode(get_bad_telemetry().as_bytes());
    assert_eq!(r.err(), Some(DecodeError::Malformed));
    assert!(decode(b"").is_err());
    assert!(decode(b"{\"physics_data\":").is_err());
}

#[test]
fn decode_defaults_missing_sections_to_empty() {
    let doc = decode(b"{\"physics_data\":{\"packetId\":5}}").unwrap();
    assert!(doc.graphics.current_time.is_none());
    assert!(doc.graphics.last_time.is_none());
    assert!(doc.graphics.best_time.is_none());
    assert!(doc.statics.max_rpm.is_none());
    assert_eq!(doc.physics.packet_id, Some(5));
    assert!(doc.physics.rpms.is_none());
}

#[test]
fn decode_tolerates_wrong_field_types() {
    let doc = decode(
        b"{\"physics_data\":{\"packetId\":7,\"rpms\":\"fast\",\"gear\":2.5,\"tyreTemp\":[1,2,3],\"roadTemp\":\"warm\"}}",
    )
    .unwrap();
    assert_eq!(doc.physics.packet_id, Some(7));
    assert!(doc.physics.rpms.is_none());
    assert!(doc.physics.gear.is_none());
    assert!(doc.physics.tyre_temps.is_none());
    assert!(doc.physics.road_temp.is_none());
}

#[test]
fn decode_reads_every_field() {
    let doc = decode(get_telemetry().as_bytes()).unwrap();
    assert_eq!(doc.physics.packet_id, Some(12));
    assert_eq!(doc.physics.rpms, Some(6000));
    assert_eq!(doc.physics.gear, Some(3));
    let tyres = doc.physics.tyre_temps.unwrap();
    assert_eq!(tyres.front_left, 853);
    assert_eq!(tyres.front_right, 859);
    assert_eq!(tyres.rear_right, 840);
    assert_eq!(tyres.rear_left, 836);
    let brakes = doc.physics.brake_temps.unwrap();
    assert_eq!(brakes.front_left, 4800);
    assert_eq!(brakes.rear_left, 4289);
    assert_eq!(doc.physics.road_temp, Some(284));
    assert_eq!(doc.physics.air_temp, Some(216));
    assert_eq!(doc.graphics.current_time.as_deref(), Some("1:23.456"));
    assert_eq!(doc.graphics.last_time.as_deref(), Some("1:24.111"));
    assert_eq!(doc.graphics.best_time.as_deref(), Some("1:22.987"));
    assert_eq!(doc.statics.max_rpm, Some(8000));
}

#[test]
fn heartbeat_sends_at_most_one_within_interval() {
    let mut clock = HeartbeatClock::new(0);
    assert!(!clock.poll_keepalive(1000));
    assert!(!clock.poll_keepalive(2000));
    // Strictly more than the interval has now passed: exactly one send,
    // and the deadline resets.
    assert!(clock.poll_keepalive(2001));
    assert!(!clock.poll_keepalive(2002));
    assert!(!clock.poll_keepalive(4001));
    assert!(clock.poll_keepalive(4002));
}

#[test]
fn protocol_messages() {
    assert_eq!(handshake_request(), "Give me the data!");
    assert_eq!(keepalive_message(), "I'm alive!");
    assert_eq!(
        waiting_message("10.0.0.7:9000"),
        "Connection established to 10.0.0.7:9000, waiting for data..."
    );
}

#[test]
fn waiting_document_touches_no_gauge() {
    let mut dash = Dashboard::new();
    // First a live tick, so the gauges hold something.
    let live = decode(get_telemetry().as_bytes()).unwrap();
    assert!(!dash.apply(&live));
    assert_eq!(dash.tacho.rpm_cur, 6000);
    assert_eq!(dash.laps.time_cur, "1:23.456");
    // Then the feed drops back to "no live data yet".
    let idle = decode(b"{\"physics_data\":{\"packetId\":0}}").unwrap();
    assert!(dash.apply(&idle));
    // No gauge was updated.
    assert_eq!(dash.tacho.rpm_cur, 6000);
    assert_eq!(dash.tacho.rpm_max, 8000);
    assert_eq!(dash.laps.time_cur, "1:23.456");
    assert_eq!(dash.thermo.temp_track, 284);
    // Statics are re-armed: the next live session's constants are applied.
    let next = decode(b"{\"physics_data\":{\"packetId\":1},\"static_data\":{\"maxRpm\":9500}}")
        .unwrap();
    assert!(!dash.apply(&next));
    assert_eq!(dash.tacho.rpm_max, 9500);
}

#[test]
fn live_document_drives_the_tachometer() {
    let mut dash = Dashboard::new();
    let doc = decode(get_telemetry().as_bytes()).unwrap();
    assert!(!dash.apply(&doc));
    assert_eq!(dash.tacho.rpm_cur, 6000);
    assert_eq!(dash.tacho.rpm_max, 8000);
    assert_eq!(dash.tacho.gear, 2);
    // ceil(6000 * 17 / 8000) = 13 occupied slots.
    let occupied = dash.tacho.rpm_bar.iter().filter(|&&b| b).count();
    assert_eq!(occupied, 13);
    let cells = dash.tacho.display();
    assert_eq!(cells[0].text, "Tachometer");
    assert_eq!(cells[1].text, "RPM:  6000 / 8000");
    assert_eq!(cells[2].text, "Gear: 2");
    // 13 filled blocks, 3 clear slots, within the end caps (the last slot
    // is never displayed).
    let expected_bar = format!("\u{2503}{}{}\u{2503}", "\u{2589}".repeat(13), " ".repeat(3));
    assert_eq!(cells[3].text, expected_bar);
}

#[test]
fn redline_renders_the_warning_bar() {
    let mut dash = Dashboard::new();
    let first = decode(get_telemetry().as_bytes()).unwrap();
    assert!(!dash.apply(&first));
    let over = decode(b"{\"physics_data\":{\"packetId\":13,\"rpms\":8200,\"gear\":4}}").unwrap();
    assert!(!dash.apply(&over));
    let cells = dash.tacho.display();
    let warning = "\u{1b}[91;1m\u{2589}\u{1b}[31;0m".repeat(16);
    assert_eq!(cells[3].text, format!("\u{2503}{}\u{2503}", warning));
}

#[test]
fn thermal_gauges_render_banded_readings() {
    let mut dash = Dashboard::new();
    let doc = decode(get_telemetry().as_bytes()).unwrap();
    assert!(!dash.apply(&doc));
    let tyre_cells = dash.tyres.display();
    assert_eq!(tyre_cells[0].text, "Tyres:");
    // 85.3 degrees is in the optimal tyre band (72 <= t < 92): green.
    assert_eq!(tyre_cells[1].text, "\u{1b}[92;1m85\u{1b}[31;0m");
    let brake_cells = dash.brakes.display();
    assert_eq!(brake_cells[0].text, "Brake temps:");
    // 480.0 on the front axle is optimal (475 <= t < 650): green.
    assert_eq!(brake_cells[1].text, "\u{1b}[92;1m480\u{1b}[31;0m");
    // 428.9 on the rear axle bands as 628.9: still optimal, shown raw
    // (rounded to 429 whole degrees).
    assert_eq!(brake_cells[4].text, "\u{1b}[92;1m429\u{1b}[31;0m");
    let thermo_cells = dash.thermo.display();
    assert_eq!(thermo_cells[1].text, "Track Temp: 28.4");
    assert_eq!(thermo_cells[2].text, "Air Temp:   21.6");
    let lap_cells = dash.laps.display();
    assert_eq!(lap_cells[1].text, "Current Lap: 1:23.456");
    assert_eq!(lap_cells[2].text, "Last Lap:    1:24.111");
    assert_eq!(lap_cells[3].text, "Best Lap:    1:22.987");
}

#[test]
fn absent_fields_leave_gauge_state_unchanged() {
    let mut dash = Dashboard::new();
    let full = decode(get_telemetry().as_bytes()).unwrap();
    assert!(!dash.apply(&full));
    // A live tick that carries only a packet id: every gauge keeps what it
    // holds.
    let sparse = decode(b"{\"physics_data\":{\"packetId\":13}}").unwrap();
    assert!(!dash.apply(&sparse));
    assert_eq!(dash.tacho.rpm_cur, 6000);
    assert_eq!(dash.tacho.gear, 2);
    assert_eq!(dash.tyres.tyres.front_left, 853);
    assert_eq!(dash.brakes.brakes.rear_left, 4289);
    assert_eq!(dash.thermo.temp_air, 216);
    assert_eq!(dash.laps.time_best, "1:22.987");
}

#[test]
fn render_places_gauges_at_their_regions() {
    let mut dash = Dashboard::new();
    let doc = decode(get_telemetry().as_bytes()).unwrap();
    assert!(!dash.apply(&doc));
    let cells = dash.render();
    // 4 + 5 + 4 + 3 + 5 cells, in the fixed gauge order.
    assert_eq!(cells.len(), 21);
    assert_eq!((cells[0].x, cells[0].y), (0, 0));
    assert_eq!(cells[0].text, "Tachometer");
    assert_eq!((cells[4].x, cells[4].y), (0, 6));
    assert_eq!(cells[4].text, "Tyres:");
    assert_eq!((cells[9].x, cells[9].y), (24, 0));
    assert_eq!(cells[9].text, "Lap Times");
    assert_eq!((cells[13].x, cells[13].y), (24, 6));
    assert_eq!(cells[13].text, "Thermometer");
    assert_eq!((cells[16].x, cells[16].y), (0, 12));
    assert_eq!(cells[16].text, "Brake temps:");
}
