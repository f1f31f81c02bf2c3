use tuya_bulb_screen_color::frame::swap_color_channels;
use tuya_bulb_screen_color::hsl::HslColor;
use tuya_bulb_screen_color::quantize::{
    create_image_from_buffer, dominant_color_of_frame, get_dominant_color, normalize_frame,
    QuantizationError, RgbColor,
};
use tuya_bulb_screen_color::sampling::{capture_action, CaptureAction, CaptureOutcome, SamplingState};

fn solid(width: usize, height: usize, px: [u8; 4]) -> Vec<u8> {
    let mut v = Vec::new();
    for _ in 0..width * height {
        v.extend_from_slice(&px);
    }
    v
}

#[test]
fn swap_exchanges_first_and_third_channel() {
    let raw = vec![1, 2, 3, 4, 5, 6, 7, 8];
    assert_eq!(swap_color_channels(&raw, 2, 1), vec![3, 2, 1, 4, 7, 6, 5, 8]);
}

#[test]
fn swap_ignores_trailing_bytes() {
    let raw = vec![10, 20, 30, 40, 50, 60, 70, 80, 90, 99];
    assert_eq!(swap_color_channels(&raw, 1, 2), vec![30, 20, 10, 40, 70, 60, 50, 80]);
    assert_eq!(swap_color_channels(&raw, 0, 5), Vec::<u8>::new());
}

#[test]
fn swap_twice_restores() {
    let raw: Vec<u8> = (0..48u8).map(|b| b.wrapping_mul(37)).collect();
    let once = swap_color_channels(&raw, 4, 3);
    assert_ne!(once, raw);
    assert_eq!(swap_color_channels(&once, 4, 3), raw);
}

#[test]
fn image_needs_exact_length() {
    assert!(create_image_from_buffer(vec![0; 16], 2, 2).is_some());
    assert!(create_image_from_buffer(vec![0; 15], 2, 2).is_none());
    assert!(create_image_from_buffer(vec![0; 20], 2, 2).is_none());
    assert!(create_image_from_buffer(vec![0; 4], usize::MAX, 2).is_none());
    let img = create_image_from_buffer(vec![9; 8], 1, 2).unwrap();
    assert_eq!((img.width, img.height, img.pixels.len()), (1, 2, 8));
}

#[test]
fn empty_image_has_no_dominant_color() {
    let img = create_image_from_buffer(Vec::new(), 0, 0).unwrap();
    assert_eq!(get_dominant_color(&img), Err(QuantizationError::EmptyImage));
    assert_eq!(dominant_color_of_frame(&[], 0, 7), Err(QuantizationError::EmptyImage));
}

#[test]
fn solid_red_image_is_red() {
    let img = create_image_from_buffer(solid(8, 8, [255, 0, 0, 255]), 8, 8).unwrap();
    let c = get_dominant_color(&img).unwrap();
    assert!(c.r >= 200 && c.g < 50 && c.b < 50, "{:?}", c);
}

#[test]
fn dominant_color_follows_the_majority() {
    let mut pixels = solid(10, 9, [0, 0, 255, 255]);
    pixels.extend(solid(10, 1, [0, 255, 0, 255]));
    let img = create_image_from_buffer(pixels, 10, 10).unwrap();
    let c = get_dominant_color(&img).unwrap();
    assert!(c.b >= 200 && c.r < 50 && c.g < 50, "{:?}", c);
}

#[test]
fn quantizer_is_deterministic() {
    let mut pixels = Vec::new();
    for i in 0..256u32 {
        pixels.extend_from_slice(&[(i * 7) as u8, (i * 13) as u8, (i * 29) as u8, 255]);
    }
    let img = create_image_from_buffer(pixels, 16, 16).unwrap();
    let first = get_dominant_color(&img);
    let second = get_dominant_color(&img);
    assert!(first.is_ok());
    assert_eq!(first, second);
}

#[test]
fn frame_in_capture_order_is_normalized_first() {
    let frame = solid(6, 6, [255, 0, 0, 255]);
    let img = normalize_frame(&frame, 6, 6);
    assert_eq!(&img.pixels[0..4], &[0, 0, 255, 255]);
    let c = dominant_color_of_frame(&frame, 6, 6).unwrap();
    assert!(c.b >= 200 && c.r < 50 && c.g < 50, "{:?}", c);
    assert_eq!(Ok(c), get_dominant_color(&img));
    assert_ne!(c, RgbColor { r: 255, g: 0, b: 0 });
}

#[test]
fn capture_results_map_to_actions() {
    assert_eq!(capture_action(CaptureOutcome::Ready), CaptureAction::Process);
    assert_eq!(capture_action(CaptureOutcome::NotReady), CaptureAction::WaitAndRetry);
    assert_eq!(capture_action(CaptureOutcome::Failed), CaptureAction::Abort);
}

#[test]
fn sampling_starts_black_and_tracks_last_sample() {
    let mut state = SamplingState::new();
    assert_eq!(state.last_color, HslColor::black());
    let grey = HslColor::new(0, 0, 900).unwrap();
    assert!(!state.observe(grey));
    assert_eq!(state.last_color, grey);
    let brighter = HslColor::new(0, 0, 1901).unwrap();
    assert!(state.observe(brighter));
    assert_eq!(state.last_color, brighter);
}

#[test]
fn red_and_near_red_straddle_the_threshold() {
    let red = HslColor::new(0, 10000, 5000).unwrap();
    let near = HslColor::new(200, 9800, 4900).unwrap();
    let far = HslColor::new(500, 9500, 4800).unwrap();
    let id = "bulb".to_string();
    let mut state = SamplingState::new();

    let first = state.color_picker_step(&id, red, 10).expect("black to red is sent");
    assert_eq!(first.dps[1].value, "000003e803e8");

    assert!(state.color_picker_step(&id, near, 11).is_none());
    assert!(state.color_picker_step(&id, red, 12).is_none());
    assert_eq!(state.last_color, red);

    let sent = state.color_picker_step(&id, far, 13).expect("distance 12 is sent");
    assert_eq!(sent.t, 13);
    assert_eq!(sent.dps[1].value, "000503b603e8");
    assert_eq!(state.last_color, far);
}

#[test]
fn alternating_close_colors_send_once() {
    let red = HslColor::new(0, 10000, 5000).unwrap();
    let near = HslColor::new(200, 9800, 4900).unwrap();
    let id = "bulb".to_string();
    let mut state = SamplingState::new();
    let mut sent = Vec::new();
    for i in 0..10u32 {
        let sample = if i % 2 == 0 { red } else { near };
        if let Some(p) = state.color_picker_step(&id, sample, i) {
            sent.push(p);
        }
    }
    assert_eq!(sent.len(), 1);
    assert_eq!(sent[0].t, 0);
    assert_eq!(sent[0].dps[1].value, "000003e803e8");
}

#[test]
fn alternating_far_colors_send_every_time() {
    let red = HslColor::new(0, 10000, 5000).unwrap();
    let far = HslColor::new(500, 9500, 4800).unwrap();
    let id = "bulb".to_string();
    let mut state = SamplingState::new();
    let mut codes = Vec::new();
    for i in 0..6u32 {
        let sample = if i % 2 == 0 { red } else { far };
        let p = state.color_picker_step(&id, sample, i).expect("distance 12 is sent");
        codes.push(p.dps[1].value.clone());
    }
    assert_eq!(codes[1], "000503b603e8");
    assert_eq!(codes[4], "000003e803e8");
}

#[test]
fn small_drifts_accumulate_unsent() {
    let mut state = SamplingState::new();
    let id = "bulb".to_string();
    let start = HslColor::new(0, 10000, 5000).unwrap();
    assert!(state.color_picker_step(&id, start, 0).is_some());
    for step in 1..=5u32 {
        let c = HslColor::new(step * 900, 10000, 5000).unwrap();
        assert!(state.color_picker_step(&id, c, step).is_none());
    }
    assert_eq!(state.last_color.hue, 4500);
}
