//! Screen-to-bulb ambient colour: frame normalisation, dominant-colour
//! quantisation, perceptual change detection and the bulb's colour encoding.
//!
//! Floating-point colour conversion, screen capture and the device session
//! live outside this library; it receives plain values and hands back plain
//! values (colours, strings and payload records).

pub mod encode;
pub mod frame;
pub mod hsl;
pub mod payload;
pub mod quantize;
pub mod sampling;
