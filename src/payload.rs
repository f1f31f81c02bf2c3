//! Data points and the payloads sent to the bulb.
use vstd::prelude::*;
use crate::encode::{color_code, device_color_code};
use crate::hsl::HslColor;

verus! {

/// The bulb's data points that this library writes.
#[derive(Clone, Copy, Debug, PartialEq, Eq, Hash, Structural)]
pub enum DataPointsKey {
    /// Operating mode: `"colour"` or `"white"`.
    ColorMode,
    /// Colour as a 12-digit code.
    Color,
}

/// The wire name of a data point.
pub open spec fn key_name(k: DataPointsKey) -> Seq<char> {
    match k {
        DataPointsKey::ColorMode => seq!['2', '1'],
        DataPointsKey::Color => seq!['2', '4'],
    }
}

/// The mode value that puts the bulb in colour mode.
pub open spec fn colour_mode_name() -> Seq<char> {
    seq!['c', 'o', 'l', 'o', 'u', 'r']
}

impl DataPointsKey {
    /// The data point's number as a string, as the device protocol keys it.
    pub fn get(&self) -> (r: String)
        ensures
            r@ == key_name(*self),
    {
        match self {
            DataPointsKey::ColorMode => {
                let s = String::from_str("21");
                proof {
                    reveal_strlit("21");
                }
                assert(s@ =~= key_name(*self));
                s
            },
            DataPointsKey::Color => {
                let s = String::from_str("24");
                proof {
                    reveal_strlit("24");
                }
                assert(s@ =~= key_name(*self));
                s
            },
        }
    }
}

/// One data point, by its wire name, and the string value it is set to.
#[derive(Clone, Debug)]
pub struct DataPoint {
    pub key: String,
    pub value: String,
}

/// A request to set data points on one device.
#[derive(Clone, Debug)]
pub struct DevicePayload {
    pub dev_id: String,
    pub gw_id: Option<String>,
    /// Unix time in seconds.
    pub t: u32,
    pub dps: Vec<DataPoint>,
}

/// `p` addresses device `id` (also as its gateway) at time `now`.
pub open spec fn addressed_to(p: DevicePayload, id: Seq<char>, now: u32) -> bool {
    &&& p.dev_id@ == id
    &&& p.gw_id matches Some(g) && g@ == id
    &&& p.t == now
}

/// `p` is the colour update for `hsl`: colour mode, then the colour code.
pub open spec fn is_color_picker_payload(
    p: DevicePayload,
    id: Seq<char>,
    hsl: HslColor,
    now: u32,
) -> bool {
    &&& addressed_to(p, id, now)
    &&& p.dps@.len() == 2
    &&& p.dps@[0].key@ == key_name(DataPointsKey::ColorMode)
    &&& p.dps@[0].value@ == colour_mode_name()
    &&& p.dps@[1].key@ == key_name(DataPointsKey::Color)
    &&& p.dps@[1].value@ == color_code(hsl)
}

/// `p` switches the bulb to `mode` and sets nothing else.
pub open spec fn is_color_mode_payload(
    p: DevicePayload,
    id: Seq<char>,
    mode: Seq<char>,
    now: u32,
) -> bool {
    &&& addressed_to(p, id, now)
    &&& p.dps@.len() == 1
    &&& p.dps@[0].key@ == key_name(DataPointsKey::ColorMode)
    &&& p.dps@[0].value@ == mode
}

/// The payload that sets the bulb to colour mode and to the colour `hsl`,
/// stamped with `now`.
pub fn create_color_picker_payload(id: String, hsl: HslColor, now: u32) -> (r: DevicePayload)
    requires
        hsl.wf(),
    ensures
        is_color_picker_payload(r, id@, hsl, now),
{
    let mode = String::from_str("colour");
    proof {
        reveal_strlit("colour");
    }
    assert(mode@ =~= colour_mode_name());
    let mut dps: Vec<DataPoint> = Vec::new();
    dps.push(DataPoint { key: DataPointsKey::ColorMode.get(), value: mode });
    dps.push(DataPoint { key: DataPointsKey::Color.get(), value: device_color_code(&hsl) });
    let gw_id = id.clone();
    DevicePayload { dev_id: id, gw_id: Some(gw_id), t: now, dps }
}

/// The payload that switches the bulb to `mode` (`"colour"` or `"white"`),
/// stamped with `now`.
pub fn create_color_mode_payload(id: String, mode: String, now: u32) -> (r: DevicePayload)
    ensures
        is_color_mode_payload(r, id@, mode@, now),
{
    let mut dps: Vec<DataPoint> = Vec::new();
    dps.push(DataPoint { key: DataPointsKey::ColorMode.get(), value: mode });
    let gw_id = id.clone();
    DevicePayload { dev_id: id, gw_id: Some(gw_id), t: now, dps }
}

} // verus!
