//! Hue / saturation / lightness colours in fixed point, and the change
//! detector that compares two of them.
use vstd::prelude::*;

verus! {

/// Hundredths per unit: hue in hundredths of a degree, saturation and
/// lightness in hundredths of a percent.
pub const SCALE: u32 = 100;

/// A full turn of hue, in hundredths of a degree.
pub const FULL_TURN: u32 = 36000;

/// Half a turn of hue, in hundredths of a degree.
pub const HALF_TURN: u32 = 18000;

/// The largest saturation or lightness, in hundredths of a percent.
pub const FULL_PERCENT: u32 = 10000;

/// A distance above this (10.00, in hundredths) is a visible change.
pub const CHANGE_THRESHOLD: u32 = 1000;

/// A colour as hue in `[0, 360)` degrees and saturation and lightness in
/// `[0, 100]` percent, each held in hundredths.
#[derive(Clone, Copy, Debug, PartialEq, Eq, Structural)]
pub struct HslColor {
    pub hue: u32,
    pub saturation: u32,
    pub lightness: u32,
}

impl HslColor {
    /// Every component lies in its range.
    pub open spec fn wf(&self) -> bool {
        &&& self.hue < FULL_TURN
        &&& self.saturation <= FULL_PERCENT
        &&& self.lightness <= FULL_PERCENT
    }

    /// Builds a colour from hundredths; `None` when a component is out of range.
    pub fn new(hue: u32, saturation: u32, lightness: u32) -> (r: Option<HslColor>)
        ensures
            r is Some <==> (hue < FULL_TURN && saturation <= FULL_PERCENT && lightness
                <= FULL_PERCENT),
            r matches Some(c) ==> c.wf() && c.hue == hue && c.saturation == saturation
                && c.lightness == lightness,
    {
        if hue < FULL_TURN && saturation <= FULL_PERCENT && lightness <= FULL_PERCENT {
            Some(HslColor { hue, saturation, lightness })
        } else {
            None
        }
    }

    pub open spec fn black_spec() -> HslColor {
        HslColor { hue: 0, saturation: 0, lightness: 0 }
    }

    /// Black: hue, saturation and lightness all zero.
    pub fn black() -> (r: HslColor)
        ensures
            r.wf(),
            r == HslColor::black_spec(),
    {
        HslColor { hue: 0, saturation: 0, lightness: 0 }
    }

}

pub open spec fn abs_diff(a: int, b: int) -> int {
    if a >= b {
        a - b
    } else {
        b - a
    }
}

/// Shortest way round the hue circle between two hues.
pub open spec fn hue_distance(h1: int, h2: int) -> int {
    let d = abs_diff(h1, h2);
    if d > HALF_TURN {
        FULL_TURN - d
    } else {
        d
    }
}

/// Sum of the circular hue difference and the saturation and lightness
/// differences, in hundredths.
pub open spec fn color_distance(c1: HslColor, c2: HslColor) -> int {
    hue_distance(c1.hue as int, c2.hue as int) + abs_diff(c1.saturation as int, c2.saturation as int)
        + abs_diff(c1.lightness as int, c2.lightness as int)
}

/// Whether the change from `c1` to `c2` is large enough to show.
pub open spec fn is_visible_change(c1: HslColor, c2: HslColor) -> bool {
    color_distance(c1, c2) > CHANGE_THRESHOLD
}

fn abs_diff_u32(a: u32, b: u32) -> (r: u32)
    ensures
        r == abs_diff(a as int, b as int),
{
    if a >= b {
        a - b
    } else {
        b - a
    }
}

/// The perceptual distance between two colours, in hundredths.
pub fn color_diff(color1: &HslColor, color2: &HslColor) -> (r: u32)
    requires
        color1.wf(),
        color2.wf(),
    ensures
        r == color_distance(*color1, *color2),
        r <= HALF_TURN + 2 * FULL_PERCENT,
{
    let hue_diff = abs_diff_u32(color1.hue, color2.hue);
    let hue_diff = if hue_diff > HALF_TURN {
        FULL_TURN - hue_diff
    } else {
        hue_diff
    };
    let sat_diff = abs_diff_u32(color1.saturation, color2.saturation);
    let lum_diff = abs_diff_u32(color1.lightness, color2.lightness);
    hue_diff + sat_diff + lum_diff
}

/// Whether moving from `previous` to `current` is a change worth sending.
pub fn should_emit(previous: &HslColor, current: &HslColor) -> (r: bool)
    requires
        previous.wf(),
        current.wf(),
    ensures
        r == is_visible_change(*previous, *current),
{
    color_diff(previous, current) > CHANGE_THRESHOLD
}

/// A colour is at distance zero from itself, so it never counts as a change.
pub proof fn lemma_same_color_no_change(c: HslColor)
    ensures
        color_distance(c, c) == 0,
        !is_visible_change(c, c),
{
}

/// The hue difference always goes the short way round: it never exceeds half
/// a turn, and it is symmetric.
pub proof fn lemma_hue_distance_short_way(h1: int, h2: int)
    requires
        0 <= h1 < FULL_TURN,
        0 <= h2 < FULL_TURN,
    ensures
        0 <= hue_distance(h1, h2) <= HALF_TURN,
        hue_distance(h1, h2) == hue_distance(h2, h1),
        hue_distance(h1, h2) == if abs_diff(h1, h2) > HALF_TURN {
            FULL_TURN - abs_diff(h1, h2)
        } else {
            abs_diff(h1, h2)
        },
{
}

/// The distance is symmetric. So when the samples alternate between two
/// colours, every step after the first sees the same distance: either each
/// one is a visible change or none is.
pub proof fn lemma_distance_symmetric(c1: HslColor, c2: HslColor)
    ensures
        color_distance(c1, c2) == color_distance(c2, c1),
        is_visible_change(c1, c2) == is_visible_change(c2, c1),
{
}

} // verus!
