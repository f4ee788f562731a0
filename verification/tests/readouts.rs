// Unit tests for the numeric readouts: gear mapping, bar fill, thermal
// banding, and decimal text in both directions.

use accrt_engineer::display_gear;
use accrt_engineer::text::{parse_tenths, tenths_text, u64_text, whole_units_text};
use accrt_engineer::tui_blocks::{bar_fill, brake_band, tyre_band, Band};

#[test]
fn gear_mapping_examples() {
    assert_eq!(display_gear(0), 0);
    assert_eq!(display_gear(1), 0);
    assert_eq!(display_gear(2), 1);
    assert_eq!(display_gear(3), 2);
    assert_eq!(display_gear(8), 7);
}

#[test]
fn gear_mapping_never_negative() {
    for g in 0u64..8u64 {
        // u64 cannot go negative; the mapping also never exceeds the raw gear.
        assert!(display_gear(g) <= g);
    }
}

#[test]
fn rpm_bar_fill_examples() {
    // Half the range fills half the bar, rounded up.
    assert_eq!(bar_fill(4000, 8000, 10), 5);
    // The full range is clamped to one slot short of the bar.
    assert_eq!(bar_fill(8000, 8000, 10), 9);
    // The empty range fills nothing.
    assert_eq!(bar_fill(0, 8000, 10), 0);
    // Any rpm at all fills the first slot.
    assert_eq!(bar_fill(1, 8000, 10), 1);
    // An unset maximum renders a full (warning) bar.
    assert_eq!(bar_fill(3000, 0, 10), 9);
    // The tachometer's own bar length.
    assert_eq!(bar_fill(6000, 8000, 17), 13);
}

#[test]
fn tyre_banding_boundaries() {
    // Strict comparisons: a reading exactly at a threshold takes the band
    // above it.
    assert_eq!(tyre_band(719), Band::Cold);
    assert_eq!(tyre_band(720), Band::Optimal);
    assert_eq!(tyre_band(919), Band::Optimal);
    assert_eq!(tyre_band(920), Band::Warning);
    assert_eq!(tyre_band(999), Band::Warning);
    assert_eq!(tyre_band(1000), Band::TooHot);
}

#[test]
fn brake_banding_boundaries() {
    assert_eq!(brake_band(0, 4749), Band::Cold);
    assert_eq!(brake_band(0, 4750), Band::Optimal);
    assert_eq!(brake_band(1, 6499), Band::Optimal);
    assert_eq!(brake_band(1, 6500), Band::Warning);
    assert_eq!(brake_band(0, 6750), Band::TooHot);
}

#[test]
fn brake_rear_offset() {
    // The same raw reading bands differently on the two axles: rear
    // readings are offset by +200.0 before banding.
    assert_eq!(brake_band(0, 4600), Band::Cold);
    assert_eq!(brake_band(1, 4600), Band::Cold);
    assert_eq!(brake_band(2, 4600), Band::Warning);
    assert_eq!(brake_band(3, 4600), Band::Warning);
    // Front at the cold threshold minus the offset is still cold; rear is
    // optimal.
    assert_eq!(brake_band(1, 2750), Band::Cold);
    assert_eq!(brake_band(2, 2750), Band::Optimal);
}

#[test]
fn parse_tenths_accepts_plain_decimals() {
    assert_eq!(parse_tenths("72.0"), Some(720));
    assert_eq!(parse_tenths("72"), Some(720));
    assert_eq!(parse_tenths("85.3"), Some(853));
    assert_eq!(parse_tenths("0.4"), Some(4));
    assert_eq!(parse_tenths("-5.25"), Some(-52));
    assert_eq!(parse_tenths("-0.0"), Some(0));
    assert_eq!(parse_tenths("12345678901234567"), Some(123456789012345670));
}

#[test]
fn parse_tenths_rejects_other_text() {
    assert_eq!(parse_tenths(""), None);
    assert_eq!(parse_tenths("-"), None);
    assert_eq!(parse_tenths("12."), None);
    assert_eq!(parse_tenths(".5"), None);
    assert_eq!(parse_tenths("12.5.6"), None);
    assert_eq!(parse_tenths("1e7"), None);
    assert_eq!(parse_tenths("fast"), None);
    assert_eq!(parse_tenths("12a"), None);
    assert_eq!(parse_tenths("123456789012345678"), None);
}

#[test]
fn decimal_text_examples() {
    assert_eq!(u64_text(0), "0");
    assert_eq!(u64_text(8000), "8000");
    assert_eq!(u64_text(123456789), "123456789");
    assert_eq!(tenths_text(284), "28.4");
    assert_eq!(tenths_text(-52), "-5.2");
    assert_eq!(tenths_text(0), "0.0");
    assert_eq!(whole_units_text(853), "85");
    // Ties go to the even unit, as the terminal's rounding does.
    assert_eq!(whole_units_text(855), "86");
    assert_eq!(whole_units_text(845), "84");
    assert_eq!(whole_units_text(875), "88");
    assert_eq!(whole_units_text(-855), "-86");
    assert_eq!(whole_units_text(-845), "-84");
    assert_eq!(whole_units_text(-4), "0");
}
