//! The dashboard: the ordered collection of gauges and the per-tick
//! dispatch that drives them.
//!
//! Each decoded document either signals "no live data yet" (the waiting
//! state, which re-arms the one-time statics initialization) or is
//! dispatched to every gauge in a fixed order: session constants first on
//! the first live tick, then the per-tick update.

use vstd::prelude::*;

use crate::telemetry::{CornerTemps, TelemetryDoc};
use crate::tui_blocks::{
    BrakeTemps, Bounds, CellSpec, LapTimes, TUIBlock, Tachometer, TextCell, Thermometer,
    TyreTemps, cell_matches, RPM_BAR_LEN,
};

verus! {

/// The five gauges at their fixed screen regions, and whether the session
/// constants have been applied since live data last resumed.
pub struct Dashboard {
    pub tacho: Tachometer,
    pub tyres: TyreTemps,
    pub laps: LapTimes,
    pub thermo: Thermometer,
    pub brakes: BrakeTemps,
    pub statics_ready: bool,
}

impl Dashboard {
    pub open spec fn wf(&self) -> bool {
        &&& self.tacho.wf()
        &&& self.tyres.wf()
        &&& self.laps.wf()
        &&& self.thermo.wf()
        &&& self.brakes.wf()
    }

    /// The dashboard after the session constants are applied to every
    /// gauge.
    pub open spec fn spec_statics_applied(self, doc: TelemetryDoc) -> Dashboard {
        Dashboard {
            tacho: self.tacho.with_statics(doc.statics),
            tyres: self.tyres.with_statics(doc.statics),
            laps: self.laps.with_statics(doc.statics),
            thermo: self.thermo.with_statics(doc.statics),
            brakes: self.brakes.with_statics(doc.statics),
            statics_ready: true,
        }
    }

    /// A dashboard with the gauges at their fixed regions, all in their
    /// fresh state, with statics initialization armed.
    pub fn new() -> (d: Dashboard)
        ensures
            d.wf(),
            !d.statics_ready,
            d.tacho.coords == (Bounds { start_x: 0, start_y: 0, len_x: 0, len_y: 0 }),
            d.tyres.coords == (Bounds { start_x: 0, start_y: 6, len_x: 0, len_y: 0 }),
            d.laps.coords == (Bounds { start_x: 24, start_y: 0, len_x: 0, len_y: 0 }),
            d.thermo.coords == (Bounds { start_x: 24, start_y: 6, len_x: 0, len_y: 0 }),
            d.brakes.coords == (Bounds { start_x: 0, start_y: 12, len_x: 0, len_y: 0 }),
            d.tacho.rpm_cur == 0 && d.tacho.rpm_max == 0 && d.tacho.gear == 0,
            forall|i: int| 0 <= i < RPM_BAR_LEN ==> !(#[trigger] d.tacho.rpm_bar@[i]),
            d.tyres.tyres == (CornerTemps {
                front_left: 0,
                front_right: 0,
                rear_right: 0,
                rear_left: 0,
            }),
            d.brakes.brakes == (CornerTemps {
                front_left: 0,
                front_right: 0,
                rear_right: 0,
                rear_left: 0,
            }),
            d.laps.time_cur@ == Seq::<char>::empty(),
            d.laps.time_last@ == Seq::<char>::empty(),
            d.laps.time_best@ == Seq::<char>::empty(),
            d.thermo.temp_track == 0 && d.thermo.temp_air == 0,
    {
        Dashboard {
            tacho: Tachometer::new(0, 0),
            tyres: TyreTemps::new(0, 6),
            laps: LapTimes::new(24, 0),
            thermo: Thermometer::new(24, 6),
            brakes: BrakeTemps::new(0, 12),
            statics_ready: false,
        }
    }

    /// Dispatches one decoded document.
    ///
    /// A waiting document (`packetId` of zero) touches no gauge and
    /// re-arms the statics initialization; the caller renders the waiting
    /// notice instead.  A live document first applies the session
    /// constants to every gauge if they are not yet applied, then updates
    /// every gauge from the tick's data.
    pub fn apply(&mut self, doc: &TelemetryDoc) -> (waiting: bool)
        requires
            old(self).wf(),
        ensures
            final(self).wf(),
            waiting == doc.spec_waiting(),
            waiting ==> *final(self) == (Dashboard {
                tacho: old(self).tacho,
                tyres: old(self).tyres,
                laps: old(self).laps,
                thermo: old(self).thermo,
                brakes: old(self).brakes,
                statics_ready: false,
            }),
            !waiting ==> ({
                let mid = if old(self).statics_ready {
                    *old(self)
                } else {
                    old(self).spec_statics_applied(*doc)
                };
                &&& final(self).statics_ready
                &&& mid.tacho.update_post(final(self).tacho, doc.physics, doc.graphics)
                &&& mid.tyres.update_post(final(self).tyres, doc.physics, doc.graphics)
                &&& mid.laps.update_post(final(self).laps, doc.physics, doc.graphics)
                &&& mid.thermo.update_post(final(self).thermo, doc.physics, doc.graphics)
                &&& mid.brakes.update_post(final(self).brakes, doc.physics, doc.graphics)
            }),
    {
        let waiting: bool = match doc.physics.packet_id {
            Some(id) => id == 0,
            None => false,
        };
        if waiting {
            self.statics_ready = false;
            true
        } else {
            if !self.statics_ready {
                self.tacho.init_statics(&doc.statics);
                self.tyres.init_statics(&doc.statics);
                self.laps.init_statics(&doc.statics);
                self.thermo.init_statics(&doc.statics);
                self.brakes.init_statics(&doc.statics);
                self.statics_ready = true;
            }
            self.tacho.update(&doc.physics, &doc.graphics);
            self.tyres.update(&doc.physics, &doc.graphics);
            self.laps.update(&doc.physics, &doc.graphics);
            self.thermo.update(&doc.physics, &doc.graphics);
            self.brakes.update(&doc.physics, &doc.graphics);
            false
        }
    }

    /// Everything the dashboard renders, gauge by gauge in the fixed
    /// order.
    pub open spec fn cells_model(&self) -> Seq<CellSpec> {
        self.tacho.cells_model() + self.tyres.cells_model() + self.laps.cells_model()
            + self.thermo.cells_model() + self.brakes.cells_model()
    }

    /// Renders every gauge to its screen region, in the fixed order.
    pub fn render(&self) -> (cells: Vec<TextCell>)
        requires
            self.wf(),
        ensures
            cells@.len() == self.cells_model().len(),
            forall|i: int|
                0 <= i < cells@.len() ==> cell_matches(
                    #[trigger] cells@[i],
                    self.cells_model()[i],
                ),
    {
        let mut cells = self.tacho.display();
        let mut rest = self.tyres.display();
        cells.append(&mut rest);
        let mut rest = self.laps.display();
        cells.append(&mut rest);
        let mut rest = self.thermo.display();
        cells.append(&mut rest);
        let mut rest = self.brakes.display();
        cells.append(&mut rest);
        cells
    }
}

/// The notice shown while the server is connected but no live data has
/// arrived yet.
pub fn waiting_message(server: &str) -> (s: String)
    ensures
        s@ == "Connection established to "@ + server@ + ", waiting for data..."@,
{
    let mut s = String::from_str("Connection established to ");
    s.append(server);
    s.append(", waiting for data...");
    s
}

} // verus!
