//! The telemetry document model: the decoded per-tick data, split into the
//! three sections the wire format carries.
//!
//! Every field is optional by design: the source document is dynamically
//! keyed, and a missing or differently-typed field must degrade gracefully,
//! never crash the render loop.  Temperatures are carried as signed tenths
//! of a degree.

use vstd::prelude::*;

verus! {

/// Four temperature readings in tenths of a degree, ordered clockwise
/// around the car starting at the front left.
#[derive(Clone, Copy, PartialEq, Eq, Structural, Debug)]
pub struct CornerTemps {
    pub front_left: i64,
    pub front_right: i64,
    pub rear_right: i64,
    pub rear_left: i64,
}

impl CornerTemps {
    /// The reading at clockwise position `i` (0 front left, 1 front right,
    /// 2 rear right, 3 rear left).
    pub open spec fn spec_corner(self, i: int) -> int {
        if i == 0 {
            self.front_left as int
        } else if i == 1 {
            self.front_right as int
        } else if i == 2 {
            self.rear_right as int
        } else {
            self.rear_left as int
        }
    }

    /// Whether position `i` sits on the rear axle.
    pub open spec fn spec_is_rear(i: int) -> bool {
        i >= 2
    }

    pub fn corner(&self, i: usize) -> (t: i64)
        requires
            i < 4,
        ensures
            t == self.spec_corner(i as int),
    {
        if i == 0 {
            self.front_left
        } else if i == 1 {
            self.front_right
        } else if i == 2 {
            self.rear_right
        } else {
            self.rear_left
        }
    }

    /// All four readings at zero, the state of a gauge before any data.
    pub fn zero() -> (c: CornerTemps)
        ensures
            c == (CornerTemps { front_left: 0, front_right: 0, rear_right: 0, rear_left: 0 }),
    {
        CornerTemps { front_left: 0, front_right: 0, rear_right: 0, rear_left: 0 }
    }
}

/// The per-tick vehicle-state section of a telemetry document.
#[derive(Clone, Copy)]
pub struct PhysicsData {
    /// The per-tick sequence marker; zero means no live simulation data.
    pub packet_id: Option<u64>,
    pub rpms: Option<u64>,
    pub gear: Option<u64>,
    pub tyre_temps: Option<CornerTemps>,
    pub brake_temps: Option<CornerTemps>,
    pub road_temp: Option<i64>,
    pub air_temp: Option<i64>,
}

/// The session-state section: lap times as text.
pub struct GraphicsData {
    pub current_time: Option<String>,
    pub last_time: Option<String>,
    pub best_time: Option<String>,
}

/// The session-constants section, sent once and stable thereafter.
#[derive(Clone, Copy)]
pub struct StaticsData {
    pub max_rpm: Option<u64>,
}

/// A decoded per-tick telemetry document: three independent sections.
pub struct TelemetryDoc {
    pub physics: PhysicsData,
    pub graphics: GraphicsData,
    pub statics: StaticsData,
}

impl TelemetryDoc {
    /// Whether this document signals "no live data yet": the server is
    /// connected but the simulation is not running.
    pub open spec fn spec_waiting(&self) -> bool {
        self.physics.packet_id == Some(0u64)
    }
}

} // verus!
