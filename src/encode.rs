//! The bulb's colour code: hue, saturation and value as three 4-digit
//! lowercase hexadecimal fields.
use vstd::prelude::*;
use crate::hsl::{HslColor, SCALE};

verus! {

/// Lightness (in hundredths) above which the bulb is dimmed.
pub const DIM_ABOVE_LIGHTNESS: u32 = 5000;

/// Value sent for light screens, in percent.
pub const DIMMED_VALUE: u32 = 50;

/// Value sent for every other screen, in percent.
pub const FULL_VALUE: u32 = 100;

/// Largest number that fits a 4-digit hexadecimal field.
pub const FIELD_MAX: u32 = 0xffff;

/// Relies on String::push: appends one character.
pub assume_specification[ String::push ](s: &mut String, ch: char)
    ensures
        final(s)@ == old(s)@.push(ch),
;

/// The lowercase hexadecimal digit for `d < 16`.
pub open spec fn hex_digit(d: nat) -> char {
    if d < 10 {
        (48 + d) as char
    } else {
        (87 + d) as char
    }
}

/// `v` as four lowercase hexadecimal digits, most significant first.
pub open spec fn hex4(v: nat) -> Seq<char> {
    seq![hex_digit(v / 4096 % 16), hex_digit(v / 256 % 16), hex_digit(v / 16 % 16), hex_digit(v % 16)]
}

/// `x` clamped to what a 16-bit field holds.
pub open spec fn clamp16(x: nat) -> nat {
    if x > FIELD_MAX {
        FIELD_MAX as nat
    } else {
        x
    }
}

/// The bulb code for hue `h`, saturation `s` and value `v`: hue, ten times
/// the saturation and ten times the value, each clamped to 16 bits and
/// written as four hex digits.
pub open spec fn device_code(h: nat, s: nat, v: nat) -> Seq<char> {
    hex4(clamp16(h)) + hex4(clamp16(s * 10)) + hex4(clamp16(v * 10))
}

/// The value field's percentage for a lightness in hundredths: dimmed above
/// half lightness, full otherwise.
pub open spec fn capped_value(lightness: nat) -> nat {
    if lightness > DIM_ABOVE_LIGHTNESS {
        DIMMED_VALUE as nat
    } else {
        FULL_VALUE as nat
    }
}

/// The bulb code of a colour: truncated hue and saturation, value by the
/// brightness cap.
pub open spec fn color_code(c: HslColor) -> Seq<char> {
    device_code(
        (c.hue / SCALE) as nat,
        (c.saturation / SCALE) as nat,
        capped_value(c.lightness as nat),
    )
}

fn hex_digit_char(d: u32) -> (c: char)
    requires
        d < 16,
    ensures
        c == hex_digit(d as nat),
{
    if d < 10 {
        ((48 + d) as u8) as char
    } else {
        ((87 + d) as u8) as char
    }
}

fn push_hex4(out: &mut String, v: u32)
    requires
        v <= FIELD_MAX,
    ensures
        final(out)@ == old(out)@ + hex4(v as nat),
{
    out.push(hex_digit_char(v / 4096 % 16));
    out.push(hex_digit_char(v / 256 % 16));
    out.push(hex_digit_char(v / 16 % 16));
    out.push(hex_digit_char(v % 16));
    assert(out@ =~= old(out)@ + hex4(v as nat));
}

fn clamp_field(x: u32) -> (r: u32)
    ensures
        r == clamp16(x as nat),
{
    if x > FIELD_MAX {
        FIELD_MAX
    } else {
        x
    }
}

/// Encodes hue, saturation and value as the bulb's 12-digit colour code;
/// a field past 16 bits is clamped to `ffff`.
pub fn hsv2tuya(hsv: (u32, u32, u32)) -> (r: String)
    requires
        hsv.1 <= u32::MAX / 10,
        hsv.2 <= u32::MAX / 10,
    ensures
        r@ == device_code(hsv.0 as nat, hsv.1 as nat, hsv.2 as nat),
        r@.len() == 12,
{
    let (h, s, v) = hsv;
    let mut code = String::new();
    push_hex4(&mut code, clamp_field(h));
    push_hex4(&mut code, clamp_field(s * 10));
    push_hex4(&mut code, clamp_field(v * 10));
    assert(code@ =~= device_code(h as nat, s as nat, v as nat));
    code
}

/// The colour code sent for a sampled colour. The value field does not
/// follow the lightness: it is 50 above half lightness and 100 otherwise,
/// so that light screens do not drive the bulb to full brightness.
pub fn device_color_code(hsl: &HslColor) -> (r: String)
    requires
        hsl.wf(),
    ensures
        r@ == color_code(*hsl),
        r@.len() == 12,
{
    let value: u32 = if hsl.lightness > DIM_ABOVE_LIGHTNESS {
        DIMMED_VALUE
    } else {
        FULL_VALUE
    };
    hsv2tuya((hsl.hue / SCALE, hsl.saturation / SCALE, value))
}

} // verus!
