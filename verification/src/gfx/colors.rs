//! The rules by which accent colors are derived from a background, as far
//! as they are stated on whole numbers. The arithmetic in the perceptual
//! color space is the caller's; what it blends toward, by how much, and how
//! a gray level becomes a palette code is fixed here.

use crate::gfx::text::Rgb24;
use vstd::prelude::*;

verus! {

/// The first code of the palette's gray ramp.
pub const GRAY_RAMP_FIRST: u8 = 232;

/// One past the last code of the gray ramp.
pub const GRAY_RAMP_END: u16 = 256;

/// The brightest gray of the palette's color cube, which stands in where
/// the ramp runs out.
pub const BRIGHTEST_GRAY: u8 = 231;

/// The number of steps of the gray ramp.
pub const GRAY_RAMP_STEPS: u8 = 24;

/// The least lightness that a background is blended at, in hundredths.
pub const SAFE_LUMINANCE_HUNDREDTHS: u8 = 15;

/// The share of the tint in the primary accent, in hundredths.
pub const PRIMARY_OPACITY_HUNDREDTHS: u8 = 21;

/// The share of the primary accent's opacity that the secondary accent
/// has, in hundredths.
pub const SECONDARY_SHARE_HUNDREDTHS: u8 = 56;

/// The color that a background is blended toward.
pub open spec fn tint_for(is_dark: bool) -> Rgb24 {
    if is_dark {
        (198u8, 208u8, 245u8)
    } else {
        (65u8, 69u8, 89u8)
    }
}

/// By how much the lightness of the primary and of the secondary accent
/// differs from the background's on a 256-color terminal, in hundredths.
pub open spec fn ramp_shift_for(is_dark: bool) -> (int, int) {
    if is_dark {
        (24, 12)
    } else {
        (-15, -6)
    }
}

/// The palette code of a gray level, where `raw` is the lightness times the
/// number of ramp steps plus the first ramp code, rounded. The level is held
/// within the ramp, and one past the ramp's end becomes the brightest gray
/// of the color cube.
pub open spec fn ramp_code(raw: int) -> u8 {
    if raw < GRAY_RAMP_FIRST {
        GRAY_RAMP_FIRST
    } else if raw >= GRAY_RAMP_END {
        BRIGHTEST_GRAY
    } else {
        raw as u8
    }
}

pub fn accent_tint(is_dark: bool) -> (tint: Rgb24)
    ensures
        tint == tint_for(is_dark),
{
    if is_dark {
        (198, 208, 245)
    } else {
        (65, 69, 89)
    }
}

pub fn ramp_shift(is_dark: bool) -> (shift: (i8, i8))
    ensures
        shift.0 == ramp_shift_for(is_dark).0,
        shift.1 == ramp_shift_for(is_dark).1,
{
    if is_dark {
        (24, 12)
    } else {
        (-15, -6)
    }
}

pub fn luminance_to_256(raw: i64) -> (code: u8)
    ensures
        code == ramp_code(raw as int),
{
    if raw < 232 {
        232
    } else if raw >= 256 {
        231
    } else {
        raw as u8
    }
}

/// The palette codes of the primary and the secondary accent on a
/// 256-color terminal, from their gray levels.
pub fn prompt_256color_bg_colors(levels: (i64, i64)) -> (codes: (u8, u8))
    ensures
        codes.0 == ramp_code(levels.0 as int),
        codes.1 == ramp_code(levels.1 as int),
{
    (luminance_to_256(levels.0), luminance_to_256(levels.1))
}

/// A palette code for a gray level is a code of the ramp or the brightest
/// gray, and it is the brightest gray exactly where the level reaches the
/// ramp's end.
pub proof fn lemma_ramp_code_in_palette(raw: int)
    ensures
        ramp_code(raw) == BRIGHTEST_GRAY || GRAY_RAMP_FIRST <= ramp_code(raw) <= 255,
        ramp_code(raw) == BRIGHTEST_GRAY <==> raw >= GRAY_RAMP_END,
        GRAY_RAMP_FIRST <= raw < GRAY_RAMP_END ==> ramp_code(raw) == raw,
{
}

/// A lighter level never gets a lower code within the ramp.
pub proof fn lemma_ramp_code_monotone(a: int, b: int)
    requires
        a <= b < GRAY_RAMP_END,
    ensures
        ramp_code(a) <= ramp_code(b),
{
}

/// The secondary accent holds less of the tint than the primary one.
pub proof fn lemma_secondary_opacity_is_lower()
    ensures
        PRIMARY_OPACITY_HUNDREDTHS * SECONDARY_SHARE_HUNDREDTHS < PRIMARY_OPACITY_HUNDREDTHS * 100,
{
}

} // verus!
