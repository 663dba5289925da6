//! Resolution of print-size presets into physical media geometry and the
//! spooler's media identifier. Lengths are integer micrometres.

use vstd::prelude::*;
use crate::text::{decimal, decimal_string, lower_of, lowercase, str_equals};

verus! {

/// What the caller asked for: a preset name (any case) and optional sizes in
/// micrometres.
pub struct PrintSettings {
    pub preset: String,
    pub width_um: Option<i64>,
    pub height_um: Option<i64>,
}

/// Physical geometry of the page and the identifier the spooler knows it by.
pub struct PhysicalMedia {
    pub backend_media_id: String,
    pub width_um: i64,
    pub height_um: i64,
}

/// The four families of presets.
#[derive(PartialEq, Eq, Structural, Clone, Copy, Debug)]
pub enum PresetKind {
    Letter,
    Oficio,
    Custom,
    Thermal,
}

pub const UM_PER_MM: i64 = 1000;

pub const LETTER_WIDTH_UM: i64 = 215900;
pub const LETTER_HEIGHT_UM: i64 = 279400;
pub const OFICIO_WIDTH_UM: i64 = 216000;
pub const OFICIO_HEIGHT_UM: i64 = 330000;

pub const DEFAULT_WIDTH_UM: i64 = 80000;
pub const DEFAULT_HEIGHT_UM: i64 = 200000;

pub const CUSTOM_MIN_WIDTH_UM: i64 = 20000;
pub const CUSTOM_MAX_WIDTH_UM: i64 = 500000;
pub const CUSTOM_MIN_HEIGHT_UM: i64 = 20000;
pub const CUSTOM_MAX_HEIGHT_UM: i64 = 1000000;

pub const THERMAL_MIN_WIDTH_UM: i64 = 20000;
pub const THERMAL_MAX_WIDTH_UM: i64 = 200000;
pub const THERMAL_MIN_HEIGHT_UM: i64 = 40000;
pub const THERMAL_MAX_HEIGHT_UM: i64 = 1000000;

/// Family of a preset name that is already lower-case.
pub open spec fn preset_kind(lowered: Seq<char>) -> PresetKind {
    if lowered == "carta"@ || lowered == "letter"@ {
        PresetKind::Letter
    } else if lowered == "oficio"@ {
        PresetKind::Oficio
    } else if lowered == "custom"@ || lowered == "personalizado"@ {
        PresetKind::Custom
    } else {
        PresetKind::Thermal
    }
}

pub open spec fn clamp_spec(v: int, lo: int, hi: int) -> int {
    if v < lo {
        lo
    } else if v > hi {
        hi
    } else {
        v
    }
}

pub open spec fn or_default(v: Option<i64>, d: i64) -> int {
    match v {
        Some(x) => x as int,
        None => d as int,
    }
}

/// A positive length in micrometres rounded to the nearest millimetre, half
/// away from zero.
pub open spec fn nearest_mm(um: int) -> int {
    (um + 500) / 1000
}

/// `Custom.<W>x<H>mm` with both sides rounded to whole millimetres.
pub open spec fn custom_media_id(w_um: int, h_um: int) -> Seq<char> {
    "Custom."@ + decimal(nearest_mm(w_um) as nat) + "x"@ + decimal(nearest_mm(h_um) as nat)
        + "mm"@
}

/// Width and height that a lower-case preset resolves to.
pub open spec fn resolved_size(lowered: Seq<char>, width_um: Option<i64>, height_um: Option<i64>) -> (
    int,
    int,
) {
    match preset_kind(lowered) {
        PresetKind::Letter => (LETTER_WIDTH_UM as int, LETTER_HEIGHT_UM as int),
        PresetKind::Oficio => (OFICIO_WIDTH_UM as int, OFICIO_HEIGHT_UM as int),
        PresetKind::Custom => (
            clamp_spec(
                or_default(width_um, DEFAULT_WIDTH_UM),
                CUSTOM_MIN_WIDTH_UM as int,
                CUSTOM_MAX_WIDTH_UM as int,
            ),
            clamp_spec(
                or_default(height_um, DEFAULT_HEIGHT_UM),
                CUSTOM_MIN_HEIGHT_UM as int,
                CUSTOM_MAX_HEIGHT_UM as int,
            ),
        ),
        PresetKind::Thermal => (
            clamp_spec(
                or_default(width_um, DEFAULT_WIDTH_UM),
                THERMAL_MIN_WIDTH_UM as int,
                THERMAL_MAX_WIDTH_UM as int,
            ),
            clamp_spec(
                or_default(height_um, DEFAULT_HEIGHT_UM),
                THERMAL_MIN_HEIGHT_UM as int,
                THERMAL_MAX_HEIGHT_UM as int,
            ),
        ),
    }
}

/// Spooler identifier that a lower-case preset resolves to.
pub open spec fn resolved_media_id(lowered: Seq<char>, width_um: Option<i64>, height_um: Option<i64>) -> Seq<char> {
    match preset_kind(lowered) {
        PresetKind::Letter => "Letter"@,
        PresetKind::Oficio => "Custom.216x330mm"@,
        _ => custom_media_id(
            resolved_size(lowered, width_um, height_um).0,
            resolved_size(lowered, width_um, height_um).1,
        ),
    }
}

/// The full resolution of a lower-case preset.
pub open spec fn media_matches(m: PhysicalMedia, lowered: Seq<char>, width_um: Option<i64>, height_um: Option<i64>) -> bool {
    &&& m.backend_media_id@ == resolved_media_id(lowered, width_um, height_um)
    &&& m.width_um as int == resolved_size(lowered, width_um, height_um).0
    &&& m.height_um as int == resolved_size(lowered, width_um, height_um).1
}

/// Holds `v` within `[min, max]`.
pub fn clamp_mm(v: i64, min: i64, max: i64) -> (r: i64)
    ensures
        r as int == clamp_spec(v as int, min as int, max as int),
{
    if v < min {
        min
    } else if v > max {
        max
    } else {
        v
    }
}

/// Family of a preset name that is already lower-case.
pub fn classify_preset(lowered: &str) -> (r: PresetKind)
    ensures
        r == preset_kind(lowered@),
{
    if str_equals(lowered, "carta") || str_equals(lowered, "letter") {
        PresetKind::Letter
    } else if str_equals(lowered, "oficio") {
        PresetKind::Oficio
    } else if str_equals(lowered, "custom") || str_equals(lowered, "personalizado") {
        PresetKind::Custom
    } else {
        PresetKind::Thermal
    }
}

fn nearest_mm_exec(um: i64) -> (r: u64)
    requires
        0 <= um <= 1000000,
    ensures
        r as int == nearest_mm(um as int),
{
    ((um + 500) / 1000) as u64
}

fn custom_id(w_um: i64, h_um: i64) -> (r: String)
    requires
        0 <= w_um <= 1000000,
        0 <= h_um <= 1000000,
    ensures
        r@ == custom_media_id(w_um as int, h_um as int),
{
    let mut s = String::from_str("Custom.");
    let w = decimal_string(nearest_mm_exec(w_um));
    s.append(w.as_str());
    s.append("x");
    let h = decimal_string(nearest_mm_exec(h_um));
    s.append(h.as_str());
    s.append("mm");
    s
}

/// Resolves a lower-case preset name and optional sizes into media.
pub fn media_for_preset(lowered: &str, width_um: Option<i64>, height_um: Option<i64>) -> (r: PhysicalMedia)
    ensures
        media_matches(r, lowered@, width_um, height_um),
        20000 <= r.width_um <= 500000,
        20000 <= r.height_um <= 1000000,
{
    match classify_preset(lowered) {
        PresetKind::Letter => PhysicalMedia {
            backend_media_id: String::from_str("Letter"),
            width_um: LETTER_WIDTH_UM,
            height_um: LETTER_HEIGHT_UM,
        },
        PresetKind::Oficio => PhysicalMedia {
            backend_media_id: String::from_str("Custom.216x330mm"),
            width_um: OFICIO_WIDTH_UM,
            height_um: OFICIO_HEIGHT_UM,
        },
        PresetKind::Custom => {
            let w = clamp_mm(
                match width_um {
                    Some(x) => x,
                    None => DEFAULT_WIDTH_UM,
                },
                CUSTOM_MIN_WIDTH_UM,
                CUSTOM_MAX_WIDTH_UM,
            );
            let h = clamp_mm(
                match height_um {
                    Some(x) => x,
                    None => DEFAULT_HEIGHT_UM,
                },
                CUSTOM_MIN_HEIGHT_UM,
                CUSTOM_MAX_HEIGHT_UM,
            );
            PhysicalMedia { backend_media_id: custom_id(w, h), width_um: w, height_um: h }
        },
        PresetKind::Thermal => {
            let w = clamp_mm(
                match width_um {
                    Some(x) => x,
                    None => DEFAULT_WIDTH_UM,
                },
                THERMAL_MIN_WIDTH_UM,
                THERMAL_MAX_WIDTH_UM,
            );
            let h = clamp_mm(
                match height_um {
                    Some(x) => x,
                    None => DEFAULT_HEIGHT_UM,
                },
                THERMAL_MIN_HEIGHT_UM,
                THERMAL_MAX_HEIGHT_UM,
            );
            PhysicalMedia { backend_media_id: custom_id(w, h), width_um: w, height_um: h }
        },
    }
}

/// Resolves print settings into media; the preset name is matched without
/// regard to case.
pub fn settings_to_media(settings: &PrintSettings) -> (r: PhysicalMedia)
    ensures
        media_matches(r, lower_of(settings.preset@), settings.width_um, settings.height_um),
        20000 <= r.width_um <= 500000,
        20000 <= r.height_um <= 1000000,
{
    let lowered = lowercase(settings.preset.as_str());
    media_for_preset(lowered.as_str(), settings.width_um, settings.height_um)
}

/// `<W>x<H> mm`, both sides rounded to whole millimetres.
pub open spec fn size_text(w_um: int, h_um: int) -> Seq<char> {
    decimal(nearest_mm(w_um) as nat) + "x"@ + decimal(nearest_mm(h_um) as nat) + " mm"@
}

/// Describes the size of resolved media, which is never above a metre.
pub fn media_size_text(width_um: i64, height_um: i64) -> (r: String)
    requires
        0 <= width_um <= 1000000,
        0 <= height_um <= 1000000,
    ensures
        r@ == size_text(width_um as int, height_um as int),
{
    let mut s = decimal_string(nearest_mm_exec(width_um));
    s.append("x");
    let h = decimal_string(nearest_mm_exec(height_um));
    s.append(h.as_str());
    s.append(" mm");
    s
}

/// Any preset outside the letter, oficio and custom names resolves to a
/// width within 20..=200 mm and a height within 40..=1000 mm.
pub proof fn lemma_thermal_size_bounds(lowered: Seq<char>, width_um: Option<i64>, height_um: Option<i64>)
    requires
        lowered != "carta"@,
        lowered != "letter"@,
        lowered != "oficio"@,
        lowered != "custom"@,
        lowered != "personalizado"@,
    ensures
        20000 <= resolved_size(lowered, width_um, height_um).0 <= 200000,
        40000 <= resolved_size(lowered, width_um, height_um).1 <= 1000000,
{
}

} // verus!
