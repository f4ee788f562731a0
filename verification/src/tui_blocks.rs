//! The terminal gauges: independently stateful widgets, each owning a
//! fixed screen region, all implementing one capability contract so the
//! dashboard can drive them uniformly.
//!
//! Rendering is modelled as a list of positioned text cells; the process
//! around the library writes each cell to the terminal at its coordinates.

use vstd::prelude::*;

use crate::telemetry::{CornerTemps, GraphicsData, PhysicsData, StaticsData};
use crate::text::{
    dec_digits, round_tenths, signed_dec, tenths_text, tenths_text_spec, u64_text,
    whole_units_text,
};

verus! {

/// Number of slots in the tachometer's occupancy bar.
pub const RPM_BAR_LEN: usize = 17;

/// Redline proximity margin, in rpm.
pub const REDLINE_MARGIN: u64 = 100;

/// A widget's screen region: its origin, and a nominal extent.
pub struct Bounds {
    pub start_x: u16,
    pub start_y: u16,
    pub len_x: u32,
    pub len_y: u32,
}

impl Bounds {
    /// A widget must be able to address offsets up to (8, 4) from its
    /// origin without leaving the coordinate space.
    pub open spec fn wf(&self) -> bool {
        self.start_x + 8 <= u16::MAX && self.start_y + 4 <= u16::MAX
    }

    pub fn new(start_x: u16, start_y: u16, len_x: u32, len_y: u32) -> (b: Bounds)
        ensures
            b == (Bounds { start_x, start_y, len_x, len_y }),
    {
        Bounds { start_x, start_y, len_x, len_y }
    }
}

/// One positioned piece of rendered text, in spec form.
#[verifier::ext_equal]
pub struct CellSpec {
    pub x: int,
    pub y: int,
    pub text: Seq<char>,
}

/// One positioned piece of rendered text: the character cell where the
/// text starts, and the text itself.
pub struct TextCell {
    pub x: u16,
    pub y: u16,
    pub text: String,
}

/// Whether a rendered cell carries exactly the modelled position and text.
pub open spec fn cell_matches(c: TextCell, m: CellSpec) -> bool {
    c.x as int == m.x && c.y as int == m.y && c.text@ == m.text
}

/// A thermal severity band, from ordered thresholds.
#[derive(Clone, Copy, PartialEq, Eq, Structural, Debug)]
pub enum Band {
    Cold,
    Optimal,
    Warning,
    TooHot,
}

/// Banding against a threshold triple: strictly below `cold` is cold,
/// strictly below `optimal` is optimal, strictly below `warning` is
/// warning, anything else is too hot.  A reading exactly at a threshold
/// falls in the band above it.
pub open spec fn spec_band(t: int, cold: int, optimal: int, warning: int) -> Band {
    if t < cold {
        Band::Cold
    } else if t < optimal {
        Band::Optimal
    } else if t < warning {
        Band::Warning
    } else {
        Band::TooHot
    }
}

/// A reading exactly at a threshold boundary is never assigned to the
/// band below the threshold: every comparison is strict, so the boundary
/// value takes the band the threshold opens.
pub proof fn lemma_boundary_reading_takes_upper_band(cold: int, optimal: int, warning: int)
    requires
        cold <= optimal <= warning,
    ensures
        spec_band(cold, cold, optimal, warning) != Band::Cold,
        spec_band(optimal, cold, optimal, warning) != Band::Cold,
        spec_band(optimal, cold, optimal, warning) != Band::Optimal,
        spec_band(warning, cold, optimal, warning) == Band::TooHot,
{
}

/// Tyre banding thresholds, in tenths of a degree: 72.0 / 92.0 / 100.0.
pub open spec fn spec_tyre_band(t: int) -> Band {
    spec_band(t, 720, 920, 1000)
}

/// Brake banding thresholds, in tenths of a degree: 475.0 / 650.0 / 675.0,
/// with rear-axle readings offset by +200.0 before banding.
pub open spec fn spec_brake_band(rear: bool, t: int) -> Band {
    spec_band(
        if rear {
            t + 2000
        } else {
            t
        },
        4750,
        6500,
        6750,
    )
}

/// The band of a tyre reading in tenths.
pub fn tyre_band(t: i64) -> (b: Band)
    ensures
        b == spec_tyre_band(t as int),
{
    if t < 720 {
        Band::Cold
    } else if t < 920 {
        Band::Optimal
    } else if t < 1000 {
        Band::Warning
    } else {
        Band::TooHot
    }
}

/// The band of the brake reading at clockwise position `i`; rear readings
/// (positions 2 and 3) are offset by +200.0 before banding.
pub fn brake_band(i: usize, t: i64) -> (b: Band)
    requires
        i < 4,
    ensures
        b == spec_brake_band(CornerTemps::spec_is_rear(i as int), t as int),
{
    let eff: i64 = if i >= 2 {
        if t > i64::MAX - 2000 {
            return Band::TooHot;
        } else {
            t + 2000
        }
    } else {
        t
    };
    if eff < 4750 {
        Band::Cold
    } else if eff < 6500 {
        Band::Optimal
    } else if eff < 6750 {
        Band::Warning
    } else {
        Band::TooHot
    }
}

/// The terminal colour prefix of a band.
pub open spec fn band_color_chars(b: Band) -> Seq<char> {
    match b {
        Band::Cold => "\x1b[96;1m"@,
        Band::Optimal => "\x1b[92;1m"@,
        Band::Warning => "\x1b[93;1m"@,
        Band::TooHot => "\x1b[91;1m"@,
    }
}

fn band_color(b: Band) -> (s: &'static str)
    ensures
        s@ == band_color_chars(b),
{
    match b {
        Band::Cold => "\x1b[96;1m",
        Band::Optimal => "\x1b[92;1m",
        Band::Warning => "\x1b[93;1m",
        Band::TooHot => "\x1b[91;1m",
    }
}

/// The terminal colour reset that follows each coloured reading.
pub open spec fn color_reset_chars() -> Seq<char> {
    "\x1b[31;0m"@
}

fn color_reset() -> (s: &'static str)
    ensures
        s@ == color_reset_chars(),
{
    "\x1b[31;0m"
}

/// The text of one coloured tyre reading: colour by band, the reading
/// rounded to whole degrees, then the colour reset.
pub open spec fn tyre_cell_text(t: int) -> Seq<char> {
    band_color_chars(spec_tyre_band(t)) + signed_dec(round_tenths(t)) + color_reset_chars()
}

/// The text of one coloured brake reading: colour by the offset band, the
/// raw reading rounded to whole degrees, then the colour reset.
pub open spec fn brake_cell_text(rear: bool, t: int) -> Seq<char> {
    band_color_chars(spec_brake_band(rear, t)) + signed_dec(round_tenths(t))
        + color_reset_chars()
}

/// The capability contract every gauge implements: one-time application of
/// session constants, per-tick state mutation, and rendering, uniformly
/// driven by the dashboard loop.
pub trait TUIBlock: Sized {
    /// The widget's internal invariant.
    spec fn wf(&self) -> bool;

    /// The state after applying the session constants.
    spec fn with_statics(self, statics: StaticsData) -> Self;

    /// How one tick's data carries the widget from `self` to `post`: any
    /// absent field leaves the matching internal value unchanged.
    spec fn update_post(self, post: Self, physics: PhysicsData, graphics: GraphicsData) -> bool;

    /// The widget's rendered output: positioned text cells.
    spec fn cells_model(&self) -> Seq<CellSpec>;

    /// Applies the session constants; called once, the first tick that
    /// live data is observed after a period of no data.
    fn init_statics(&mut self, statics: &StaticsData)
        requires
            old(self).wf(),
        ensures
            final(self).wf(),
            *final(self) == old(self).with_statics(*statics),
    ;

    /// Pure state mutation from the current tick's data; tolerates any
    /// absent field, never panicking.
    fn update(&mut self, physics: &PhysicsData, graphics: &GraphicsData)
        requires
            old(self).wf(),
        ensures
            final(self).wf(),
            old(self).update_post(*final(self), *physics, *graphics),
    ;

    /// Renders the current state to the widget's screen region; read-only.
    fn display(&self) -> (cells: Vec<TextCell>)
        requires
            self.wf(),
        ensures
            cells@.len() == self.cells_model().len(),
            forall|i: int|
                0 <= i < cells@.len() ==> cell_matches(
                    #[trigger] cells@[i],
                    self.cells_model()[i],
                ),
    ;
}

/// Whether the tachometer renders the redline warning pattern: the
/// maximum is unset (zero) or the current rpm is within the margin of it.
pub open spec fn spec_redline(cur: int, max: int) -> bool {
    max < cur + REDLINE_MARGIN
}

fn redline(cur: u64, max: u64) -> (r: bool)
    ensures
        r == spec_redline(cur as int, max as int),
{
    max < cur || max - cur < REDLINE_MARGIN
}

/// How many bar slots a given rpm fills: the ceiling of
/// `cur * len / max`, clamped to `[0, len - 1]`; all of `len - 1` when the
/// maximum is unset.
pub open spec fn spec_bar_fill(cur: int, max: int, len: int) -> int {
    if max <= 0 {
        len - 1
    } else {
        let q = (cur * len + max - 1) / max;
        if q > len - 1 {
            len - 1
        } else {
            q
        }
    }
}

/// However the rpm relates to the maximum, the fill never leaves
/// `[0, len - 1]`: even a full-range rpm is clamped one short of the bar.
pub proof fn lemma_bar_fill_bounded(cur: int, max: int, len: int)
    requires
        len >= 1,
        cur >= 0,
        max >= 0,
    ensures
        0 <= spec_bar_fill(cur, max, len) <= len - 1,
{
    if max > 0 {
        assert((cur * len + max - 1) / max >= 0) by (nonlinear_arith)
            requires
                cur >= 0,
                len >= 1,
                max > 0,
        ;
    }
}

/// The number of occupied slots of a bar of length `len` at `cur` rpm of
/// `max`.
pub fn bar_fill(cur: u64, max: u64, len: usize) -> (f: usize)
    requires
        1 <= len <= 65536,
    ensures
        f == spec_bar_fill(cur as int, max as int, len as int),
{
    if max == 0 {
        return len - 1;
    }
    proof {
        vstd::arithmetic::mul::lemma_mul_upper_bound(cur as int, u64::MAX as int, len as int, 65536);
    }
    let num: u128 = (cur as u128) * (len as u128) + (max as u128) - 1;
    let q: u128 = num / (max as u128);
    if q > (len as u128) - 1 {
        len - 1
    } else {
        q as usize
    }
}

/// One glyph of the occupancy bar: a warning block when at redline, else
/// a filled block for an occupied slot and a space for a clear one.
pub open spec fn glyph_chars(red: bool, occupied: bool) -> Seq<char> {
    if red {
        "\x1b[91;1m\u{2589}\x1b[31;0m"@
    } else if occupied {
        "\u{2589}"@
    } else {
        " "@
    }
}

fn glyph_str(red: bool, occupied: bool) -> (s: &'static str)
    ensures
        s@ == glyph_chars(red, occupied),
{
    if red {
        "\x1b[91;1m\u{2589}\x1b[31;0m"
    } else if occupied {
        "\u{2589}"
    } else {
        " "
    }
}

/// The first `n` glyphs of the occupancy bar, leftmost first.
pub open spec fn bar_glyphs(bar: Seq<bool>, red: bool, n: int) -> Seq<char>
    decreases n,
{
    if n <= 0 {
        Seq::empty()
    } else {
        bar_glyphs(bar, red, n - 1) + glyph_chars(red, bar[n - 1])
    }
}

/// The tachometer: current and maximum rpm, the displayed gear, and a
/// fixed-length boolean occupancy bar.
pub struct Tachometer {
    pub coords: Bounds,
    pub rpm_cur: u64,
    pub rpm_max: u64,
    pub rpm_bar: Vec<bool>,
    pub gear: u64,
}

impl Tachometer {
    pub fn new(x: u16, y: u16) -> (t: Tachometer)
        requires
            x + 8 <= u16::MAX,
            y + 4 <= u16::MAX,
        ensures
            t.wf(),
            t.coords == (Bounds { start_x: x, start_y: y, len_x: 0, len_y: 0 }),
            t.rpm_cur == 0,
            t.rpm_max == 0,
            t.gear == 0,
            forall|i: int| 0 <= i < RPM_BAR_LEN ==> !(#[trigger] t.rpm_bar@[i]),
    {
        let mut bar: Vec<bool> = Vec::new();
        let mut i: usize = 0;
        while i < RPM_BAR_LEN
            invariant
                i <= RPM_BAR_LEN,
                bar@.len() == i,
                forall|j: int| 0 <= j < i ==> !(#[trigger] bar@[j]),
            decreases RPM_BAR_LEN - i,
        {
            bar.push(false);
            i = i + 1;
        }
        Tachometer {
            coords: Bounds::new(x, y, 0, 0),
            rpm_cur: 0,
            rpm_max: 0,
            rpm_bar: bar,
            gear: 0,
        }
    }

    /// The text of the rpm readout line.
    pub open spec fn rpm_line(&self) -> Seq<char> {
        "RPM:  "@ + dec_digits(self.rpm_cur as nat) + " / "@ + dec_digits(self.rpm_max as nat)
    }

    /// The text of the gear readout line.
    pub open spec fn gear_line(&self) -> Seq<char> {
        "Gear: "@ + dec_digits(self.gear as nat)
    }

    /// The text of the occupancy bar: the end caps around one glyph per
    /// displayed slot (the last slot is never displayed).
    pub open spec fn bar_line(&self) -> Seq<char> {
        "\u{2503}"@ + bar_glyphs(
            self.rpm_bar@,
            spec_redline(self.rpm_cur as int, self.rpm_max as int),
            RPM_BAR_LEN - 1,
        ) + "\u{2503}"@
    }

    fn bar_text(&self) -> (s: String)
        requires
            self.wf(),
        ensures
            s@ == self.bar_line(),
    {
        let red = redline(self.rpm_cur, self.rpm_max);
        let mut s = String::from_str("\u{2503}");
        let mut i: usize = 0;
        while i < RPM_BAR_LEN - 1
            invariant
                self.wf(),
                i <= RPM_BAR_LEN - 1,
                red == spec_redline(self.rpm_cur as int, self.rpm_max as int),
                s@ == "\u{2503}"@ + bar_glyphs(self.rpm_bar@, red, i as int),
            decreases RPM_BAR_LEN - 1 - i,
        {
            let occupied = self.rpm_bar[i];
            s.append(glyph_str(red, occupied));
            i = i + 1;
        }
        s.append("\u{2503}");
        s
    }
}

impl TUIBlock for Tachometer {
    open spec fn wf(&self) -> bool {
        self.coords.wf() && self.rpm_bar@.len() == RPM_BAR_LEN
    }

    open spec fn with_statics(self, statics: StaticsData) -> Self {
        Tachometer {
            coords: self.coords,
            rpm_cur: self.rpm_cur,
            rpm_max: match statics.max_rpm {
                Some(m) => m,
                None => 0,
            },
            rpm_bar: self.rpm_bar,
            gear: self.gear,
        }
    }

    open spec fn update_post(self, post: Self, physics: PhysicsData, graphics: GraphicsData) -> bool {
        let cur = match physics.rpms {
            Some(r) => r,
            None => self.rpm_cur,
        };
        &&& post.coords == self.coords
        &&& post.rpm_max == self.rpm_max
        &&& post.rpm_cur == cur
        &&& post.gear as int == (match physics.gear {
            Some(g) => crate::spec_display_gear(g as int),
            None => self.gear as int,
        })
        &&& post.rpm_bar@.len() == RPM_BAR_LEN
        &&& forall|i: int|
            0 <= i < RPM_BAR_LEN ==> (#[trigger] post.rpm_bar@[i]) == (i < spec_bar_fill(
                cur as int,
                self.rpm_max as int,
                RPM_BAR_LEN as int,
            ))
    }

    open spec fn cells_model(&self) -> Seq<CellSpec> {
        seq![
            CellSpec {
                x: self.coords.start_x as int,
                y: self.coords.start_y as int,
                text: "Tachometer"@,
            },
            CellSpec {
                x: self.coords.start_x + 2,
                y: self.coords.start_y + 1,
                text: self.rpm_line(),
            },
            CellSpec {
                x: self.coords.start_x + 2,
                y: self.coords.start_y + 2,
                text: self.gear_line(),
            },
            CellSpec {
                x: self.coords.start_x as int,
                y: self.coords.start_y + 4,
                text: self.bar_line(),
            },
        ]
    }

    fn init_statics(&mut self, statics: &StaticsData) {
        self.rpm_max = match statics.max_rpm {
            Some(m) => m,
            None => 0,
        };
    }

    fn update(&mut self, physics: &PhysicsData, graphics: &GraphicsData) {
        match physics.rpms {
            Some(r) => {
                self.rpm_cur = r;
            },
            None => {},
        }
        match physics.gear {
            Some(g) => {
                self.gear = crate::display_gear(g);
            },
            None => {},
        }
        let fill: usize = bar_fill(self.rpm_cur, self.rpm_max, RPM_BAR_LEN);
        let mut bar: Vec<bool> = Vec::new();
        let mut i: usize = 0;
        while i < RPM_BAR_LEN
            invariant
                i <= RPM_BAR_LEN,
                bar@.len() == i,
                forall|j: int| 0 <= j < i ==> (#[trigger] bar@[j]) == (j < fill),
            decreases RPM_BAR_LEN - i,
        {
            bar.push(i < fill);
            i = i + 1;
        }
        self.rpm_bar = bar;
    }

    fn display(&self) -> (cells: Vec<TextCell>) {
        let mut cells: Vec<TextCell> = Vec::new();
        cells.push(
            TextCell {
                x: self.coords.start_x,
                y: self.coords.start_y,
                text: String::from_str("Tachometer"),
            },
        );
        let mut rpm = String::from_str("RPM:  ");
        rpm.append(u64_text(self.rpm_cur).as_str());
        rpm.append(" / ");
        rpm.append(u64_text(self.rpm_max).as_str());
        cells.push(
            TextCell { x: self.coords.start_x + 2, y: self.coords.start_y + 1, text: rpm },
        );
        let mut gear = String::from_str("Gear: ");
        gear.append(u64_text(self.gear).as_str());
        cells.push(
            TextCell { x: self.coords.start_x + 2, y: self.coords.start_y + 2, text: gear },
        );
        cells.push(
            TextCell {
                x: self.coords.start_x,
                y: self.coords.start_y + 4,
                text: self.bar_text(),
            },
        );
        proof {
            assert forall|i: int| 0 <= i < cells@.len() implies cell_matches(
                #[trigger] cells@[i],
                self.cells_model()[i],
            ) by {
                assert(cells@.len() == 4);
            }
        }
        cells
    }
}

/// One coloured tyre reading, rendered.
fn tyre_cell(t: i64) -> (s: String)
    ensures
        s@ == tyre_cell_text(t as int),
{
    let mut s = String::from_str(band_color(tyre_band(t)));
    s.append(whole_units_text(t).as_str());
    s.append(color_reset());
    s
}

/// One coloured brake reading at clockwise position `i`, rendered.
fn brake_cell(i: usize, t: i64) -> (s: String)
    requires
        i < 4,
    ensures
        s@ == brake_cell_text(CornerTemps::spec_is_rear(i as int), t as int),
{
    let mut s = String::from_str(band_color(brake_band(i, t)));
    s.append(whole_units_text(t).as_str());
    s.append(color_reset());
    s
}

/// The tyre thermal map: four readings ordered clockwise from front left,
/// each rendered at a corner of a vehicle silhouette and coloured by band.
pub struct TyreTemps {
    pub coords: Bounds,
    pub tyres: CornerTemps,
}

impl TyreTemps {
    pub fn new(x: u16, y: u16) -> (w: TyreTemps)
        requires
            x + 8 <= u16::MAX,
            y + 4 <= u16::MAX,
        ensures
            w.wf(),
            w.coords == (Bounds { start_x: x, start_y: y, len_x: 0, len_y: 0 }),
            w.tyres == (CornerTemps {
                front_left: 0,
                front_right: 0,
                rear_right: 0,
                rear_left: 0,
            }),
    {
        TyreTemps { coords: Bounds::new(x, y, 0, 0), tyres: CornerTemps::zero() }
    }
}

impl TUIBlock for TyreTemps {
    open spec fn wf(&self) -> bool {
        self.coords.wf()
    }

    open spec fn with_statics(self, statics: StaticsData) -> Self {
        self
    }

    open spec fn update_post(self, post: Self, physics: PhysicsData, graphics: GraphicsData) -> bool {
        &&& post.coords == self.coords
        &&& post.tyres == (match physics.tyre_temps {
            Some(t) => t,
            None => self.tyres,
        })
    }

    open spec fn cells_model(&self) -> Seq<CellSpec> {
        seq![
            CellSpec {
                x: self.coords.start_x as int,
                y: self.coords.start_y as int,
                text: "Tyres:"@,
            },
            CellSpec {
                x: self.coords.start_x + 2,
                y: self.coords.start_y + 1,
                text: tyre_cell_text(self.tyres.spec_corner(0)),
            },
            CellSpec {
                x: self.coords.start_x + 8,
                y: self.coords.start_y + 1,
                text: tyre_cell_text(self.tyres.spec_corner(1)),
            },
            CellSpec {
                x: self.coords.start_x + 8,
                y: self.coords.start_y + 3,
                text: tyre_cell_text(self.tyres.spec_corner(2)),
            },
            CellSpec {
                x: self.coords.start_x + 2,
                y: self.coords.start_y + 3,
                text: tyre_cell_text(self.tyres.spec_corner(3)),
            },
        ]
    }

    fn init_statics(&mut self, statics: &StaticsData) {
    }

    fn update(&mut self, physics: &PhysicsData, graphics: &GraphicsData) {
        match physics.tyre_temps {
            Some(t) => {
                self.tyres = t;
            },
            None => {},
        }
    }

    fn display(&self) -> (cells: Vec<TextCell>) {
        let mut cells: Vec<TextCell> = Vec::new();
        cells.push(
            TextCell {
                x: self.coords.start_x,
                y: self.coords.start_y,
                text: String::from_str("Tyres:"),
            },
        );
        cells.push(
            TextCell {
                x: self.coords.start_x + 2,
                y: self.coords.start_y + 1,
                text: tyre_cell(self.tyres.corner(0)),
            },
        );
        cells.push(
            TextCell {
                x: self.coords.start_x + 8,
                y: self.coords.start_y + 1,
                text: tyre_cell(self.tyres.corner(1)),
            },
        );
        cells.push(
            TextCell {
                x: self.coords.start_x + 8,
                y: self.coords.start_y + 3,
                text: tyre_cell(self.tyres.corner(2)),
            },
        );
        cells.push(
            TextCell {
                x: self.coords.start_x + 2,
                y: self.coords.start_y + 3,
                text: tyre_cell(self.tyres.corner(3)),
            },
        );
        proof {
            assert forall|i: int| 0 <= i < cells@.len() implies cell_matches(
                #[trigger] cells@[i],
                self.cells_model()[i],
            ) by {
                assert(cells@.len() == 5);
            }
        }
        cells
    }
}

/// The brake thermal map: four readings ordered clockwise from front
/// left; rear readings are banded with a +200.0 offset, reflecting the
/// asymmetry between front and rear brake sensor ranges.
pub struct BrakeTemps {
    pub coords: Bounds,
    pub brakes: CornerTemps,
}

impl BrakeTemps {
    pub fn new(x: u16, y: u16) -> (w: BrakeTemps)
        requires
            x + 8 <= u16::MAX,
            y + 4 <= u16::MAX,
        ensures
            w.wf(),
            w.coords == (Bounds { start_x: x, start_y: y, len_x: 0, len_y: 0 }),
            w.brakes == (CornerTemps {
                front_left: 0,
                front_right: 0,
                rear_right: 0,
                rear_left: 0,
            }),
    {
        BrakeTemps { coords: Bounds::new(x, y, 0, 0), brakes: CornerTemps::zero() }
    }
}

impl TUIBlock for BrakeTemps {
    open spec fn wf(&self) -> bool {
        self.coords.wf()
    }

    open spec fn with_statics(self, statics: StaticsData) -> Self {
        self
    }

    open spec fn update_post(self, post: Self, physics: PhysicsData, graphics: GraphicsData) -> bool {
        &&& post.coords == self.coords
        &&& post.brakes == (match physics.brake_temps {
            Some(t) => t,
            None => self.brakes,
        })
    }

    open spec fn cells_model(&self) -> Seq<CellSpec> {
        seq![
            CellSpec {
                x: self.coords.start_x as int,
                y: self.coords.start_y as int,
                text: "Brake temps:"@,
            },
            CellSpec {
                x: self.coords.start_x + 2,
                y: self.coords.start_y + 1,
                text: brake_cell_text(false, self.brakes.spec_corner(0)),
            },
            CellSpec {
                x: self.coords.start_x + 8,
                y: self.coords.start_y + 1,
                text: brake_cell_text(false, self.brakes.spec_corner(1)),
            },
            CellSpec {
                x: self.coords.start_x + 8,
                y: self.coords.start_y + 3,
                text: brake_cell_text(true, self.brakes.spec_corner(2)),
            },
            CellSpec {
                x: self.coords.start_x + 2,
                y: self.coords.start_y + 3,
                text: brake_cell_text(true, self.brakes.spec_corner(3)),
            },
        ]
    }

    fn init_statics(&mut self, statics: &StaticsData) {
    }

    fn update(&mut self, physics: &PhysicsData, graphics: &GraphicsData) {
        match physics.brake_temps {
            Some(t) => {
                self.brakes = t;
            },
            None => {},
        }
    }

    fn display(&self) -> (cells: Vec<TextCell>) {
        let mut cells: Vec<TextCell> = Vec::new();
        cells.push(
            TextCell {
                x: self.coords.start_x,
                y: self.coords.start_y,
                text: String::from_str("Brake temps:"),
            },
        );
        cells.push(
            TextCell {
                x: self.coords.start_x + 2,
                y: self.coords.start_y + 1,
                text: brake_cell(0, self.brakes.corner(0)),
            },
        );
        cells.push(
            TextCell {
                x: self.coords.start_x + 8,
                y: self.coords.start_y + 1,
                text: brake_cell(1, self.brakes.corner(1)),
            },
        );
        cells.push(
            TextCell {
                x: self.coords.start_x + 8,
                y: self.coords.start_y + 3,
                text: brake_cell(2, self.brakes.corner(2)),
            },
        );
        cells.push(
            TextCell {
                x: self.coords.start_x + 2,
                y: self.coords.start_y + 3,
                text: brake_cell(3, self.brakes.corner(3)),
            },
        );
        proof {
            assert forall|i: int| 0 <= i < cells@.len() implies cell_matches(
                #[trigger] cells@[i],
                self.cells_model()[i],
            ) by {
                assert(cells@.len() == 5);
            }
        }
        cells
    }
}

/// The lap-time panel: current, last and best lap time as text.
pub struct LapTimes {
    pub coords: Bounds,
    pub time_cur: String,
    pub time_last: String,
    pub time_best: String,
}

impl LapTimes {
    pub fn new(x: u16, y: u16) -> (w: LapTimes)
        requires
            x + 8 <= u16::MAX,
            y + 4 <= u16::MAX,
        ensures
            w.wf(),
            w.coords == (Bounds { start_x: x, start_y: y, len_x: 0, len_y: 0 }),
            w.time_cur@ == Seq::<char>::empty(),
            w.time_last@ == Seq::<char>::empty(),
            w.time_best@ == Seq::<char>::empty(),
    {
        LapTimes {
            coords: Bounds::new(x, y, 0, 0),
            time_cur: String::new(),
            time_last: String::new(),
            time_best: String::new(),
        }
    }
}

impl TUIBlock for LapTimes {
    open spec fn wf(&self) -> bool {
        self.coords.wf()
    }

    open spec fn with_statics(self, statics: StaticsData) -> Self {
        self
    }

    /// The current lap is copied whenever present; last and best are
    /// copied only when they differ from the stored text, an idempotent
    /// update with no observable difference from an unconditional copy.
    open spec fn update_post(self, post: Self, physics: PhysicsData, graphics: GraphicsData) -> bool {
        &&& post.coords == self.coords
        &&& post.time_cur == (match graphics.current_time {
            Some(s) => s,
            None => self.time_cur,
        })
        &&& post.time_last == (match graphics.last_time {
            Some(s) => if s@ != self.time_last@ {
                s
            } else {
                self.time_last
            },
            None => self.time_last,
        })
        &&& post.time_best == (match graphics.best_time {
            Some(s) => if s@ != self.time_best@ {
                s
            } else {
                self.time_best
            },
            None => self.time_best,
        })
    }

    open spec fn cells_model(&self) -> Seq<CellSpec> {
        seq![
            CellSpec {
                x: self.coords.start_x as int,
                y: self.coords.start_y as int,
                text: "Lap Times"@,
            },
            CellSpec {
                x: self.coords.start_x + 2,
                y: self.coords.start_y + 1,
                text: "Current Lap: "@ + self.time_cur@,
            },
            CellSpec {
                x: self.coords.start_x + 2,
                y: self.coords.start_y + 2,
                text: "Last Lap:    "@ + self.time_last@,
            },
            CellSpec {
                x: self.coords.start_x + 2,
                y: self.coords.start_y + 3,
                text: "Best Lap:    "@ + self.time_best@,
            },
        ]
    }

    fn init_statics(&mut self, statics: &StaticsData) {
    }

    fn update(&mut self, physics: &PhysicsData, graphics: &GraphicsData) {
        match &graphics.current_time {
            Some(s) => {
                self.time_cur = s.clone();
            },
            None => {},
        }
        match &graphics.last_time {
            Some(s) => {
                let same: bool = self.time_last == *s;
                if !same {
                    self.time_last = s.clone();
                }
            },
            None => {},
        }
        match &graphics.best_time {
            Some(s) => {
                let same: bool = self.time_best == *s;
                if !same {
                    self.time_best = s.clone();
                }
            },
            None => {},
        }
    }

    fn display(&self) -> (cells: Vec<TextCell>) {
        let mut cells: Vec<TextCell> = Vec::new();
        cells.push(
            TextCell {
                x: self.coords.start_x,
                y: self.coords.start_y,
                text: String::from_str("Lap Times"),
            },
        );
        let mut cur = String::from_str("Current Lap: ");
        cur.append(self.time_cur.as_str());
        cells.push(
            TextCell { x: self.coords.start_x + 2, y: self.coords.start_y + 1, text: cur },
        );
        let mut last = String::from_str("Last Lap:    ");
        last.append(self.time_last.as_str());
        cells.push(
            TextCell { x: self.coords.start_x + 2, y: self.coords.start_y + 2, text: last },
        );
        let mut best = String::from_str("Best Lap:    ");
        best.append(self.time_best.as_str());
        cells.push(
            TextCell { x: self.coords.start_x + 2, y: self.coords.start_y + 3, text: best },
        );
        proof {
            assert forall|i: int| 0 <= i < cells@.len() implies cell_matches(
                #[trigger] cells@[i],
                self.cells_model()[i],
            ) by {
                assert(cells@.len() == 4);
            }
        }
        cells
    }
}

/// The ambient thermometer: track and air temperature in tenths.
pub struct Thermometer {
    pub coords: Bounds,
    pub temp_track: i64,
    pub temp_air: i64,
}

impl Thermometer {
    pub fn new(x: u16, y: u16) -> (w: Thermometer)
        requires
            x + 8 <= u16::MAX,
            y + 4 <= u16::MAX,
        ensures
            w.wf(),
            w.coords == (Bounds { start_x: x, start_y: y, len_x: 0, len_y: 0 }),
            w.temp_track == 0,
            w.temp_air == 0,
    {
        Thermometer { coords: Bounds::new(x, y, 0, 0), temp_track: 0, temp_air: 0 }
    }
}

impl TUIBlock for Thermometer {
    open spec fn wf(&self) -> bool {
        self.coords.wf()
    }

    open spec fn with_statics(self, statics: StaticsData) -> Self {
        self
    }

    open spec fn update_post(self, post: Self, physics: PhysicsData, graphics: GraphicsData) -> bool {
        &&& post.coords == self.coords
        &&& post.temp_track == (match physics.road_temp {
            Some(t) => t,
            None => self.temp_track,
        })
        &&& post.temp_air == (match physics.air_temp {
            Some(t) => t,
            None => self.temp_air,
        })
    }

    open spec fn cells_model(&self) -> Seq<CellSpec> {
        seq![
            CellSpec {
                x: self.coords.start_x as int,
                y: self.coords.start_y as int,
                text: "Thermometer"@,
            },
            CellSpec {
                x: self.coords.start_x + 2,
                y: self.coords.start_y + 1,
                text: "Track Temp: "@ + tenths_text_spec(self.temp_track as int),
            },
            CellSpec {
                x: self.coords.start_x + 2,
                y: self.coords.start_y + 2,
                text: "Air Temp:   "@ + tenths_text_spec(self.temp_air as int),
            },
        ]
    }

    fn init_statics(&mut self, statics: &StaticsData) {
    }

    fn update(&mut self, physics: &PhysicsData, graphics: &GraphicsData) {
        match physics.road_temp {
            Some(t) => {
                self.temp_track = t;
            },
            None => {},
        }
        match physics.air_temp {
            Some(t) => {
                self.temp_air = t;
            },
            None => {},
        }
    }

    fn display(&self) -> (cells: Vec<TextCell>) {
        let mut cells: Vec<TextCell> = Vec::new();
        cells.push(
            TextCell {
                x: self.coords.start_x,
                y: self.coords.start_y,
                text: String::from_str("Thermometer"),
            },
        );
        let mut track = String::from_str("Track Temp: ");
        track.append(tenths_text(self.temp_track).as_str());
        cells.push(
            TextCell { x: self.coords.start_x + 2, y: self.coords.start_y + 1, text: track },
        );
        let mut air = String::from_str("Air Temp:   ");
        air.append(tenths_text(self.temp_air).as_str());
        cells.push(
            TextCell { x: self.coords.start_x + 2, y: self.coords.start_y + 2, text: air },
        );
        proof {
            assert forall|i: int| 0 <= i < cells@.len() implies cell_matches(
                #[trigger] cells@[i],
                self.cells_model()[i],
            ) by {
                assert(cells@.len() == 3);
            }
        }
        cells
    }
}

} // verus!
