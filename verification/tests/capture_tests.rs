use base64::Engine;
use desktop_mcp::capture::{ScreenDesc, capture_result_json, check_screen_index, process_capture,
    screen_info_json};
use desktop_mcp::json::JsonValue;
use desktop_mcp::render::{render_compact, render_pretty};
use desktop_mcp::tools::{CaptureArgs, RegionArgs, ToolStep, execute_tool, extract_capture_args};

fn obj(fields: Vec<(&str, JsonValue)>) -> JsonValue {
    JsonValue::Obj(fields.into_iter().map(|(k, v)| (String::from(k), v)).collect())
}

fn flat_rgba(width: u32, height: u32, rgba: [u8; 4]) -> Vec<u8> {
    let mut v = Vec::new();
    for _ in 0..(width * height) {
        v.extend_from_slice(&rgba);
    }
    v
}

#[test]
fn screen_index_out_of_range_names_valid_range() {
    let e = check_screen_index(5, 2).unwrap_err();
    assert_eq!(e.as_str(), "Screen index 5 not found. Available screens: 0-1");
    assert!(check_screen_index(1, 2).is_ok());
    assert!(check_screen_index(0, 1).is_ok());
}

#[test]
fn screen_index_with_no_screens() {
    let e = check_screen_index(0, 0).unwrap_err();
    assert_eq!(e.as_str(), "Screen index 0 not found. Available screens: 0-0");
}

#[test]
fn capture_defaults_extracted() {
    let a = extract_capture_args(&obj(vec![]));
    assert_eq!(
        a,
        CaptureArgs {
            screen_index: 0,
            region: None,
            max_width: 1280,
            max_height: 720,
            quality: 80,
        }
    );
}

#[test]
fn capture_region_requires_all_four_fields() {
    let partial = obj(vec![(
        "region",
        obj(vec![("x", JsonValue::Int(1)), ("y", JsonValue::Int(2))]),
    )]);
    assert_eq!(extract_capture_args(&partial).region, None);
    let full = obj(vec![(
        "region",
        obj(vec![
            ("x", JsonValue::Int(1)),
            ("y", JsonValue::Int(2)),
            ("width", JsonValue::Int(3)),
            ("height", JsonValue::Int(4)),
        ]),
    )]);
    assert_eq!(
        extract_capture_args(&full).region,
        Some(RegionArgs { x: 1, y: 2, width: 3, height: 4 })
    );
}

#[test]
fn capture_dispatch_carries_arguments() {
    let args = obj(vec![
        ("screen_index", JsonValue::Int(2)),
        ("max_width", JsonValue::Int(640)),
    ]);
    match execute_tool("screen_capture", &args) {
        ToolStep::Capture(a) => {
            assert_eq!(a.screen_index, 2);
            assert_eq!(a.max_width, 640);
            assert_eq!(a.max_height, 720);
        },
        _ => panic!("expected a capture step"),
    }
}

#[test]
fn small_frame_round_trips_without_upscaling() {
    let data = flat_rgba(4, 4, [10, 200, 30, 255]);
    let b64 = process_capture(4, 4, data, None, 1280, 720).expect("capture");
    let jpeg = base64::engine::general_purpose::STANDARD
        .decode(b64.as_bytes())
        .expect("valid base64");
    assert_eq!(&jpeg[0..2], &[0xff, 0xd8]); // JPEG start-of-image
    let img = image::load_from_memory(&jpeg).expect("valid JPEG");
    assert_eq!(img.width(), 4);
    assert_eq!(img.height(), 4);
}

#[test]
fn oversized_frame_is_downsampled() {
    let data = flat_rgba(64, 32, [0, 0, 0, 255]);
    let b64 = process_capture(64, 32, data, None, 16, 16).expect("capture");
    let jpeg = base64::engine::general_purpose::STANDARD
        .decode(b64.as_bytes())
        .expect("valid base64");
    let img = image::load_from_memory(&jpeg).expect("valid JPEG");
    assert!(img.width() <= 16);
    assert!(img.height() <= 16);
}

#[test]
fn region_is_cropped_before_encoding() {
    let data = flat_rgba(8, 8, [1, 2, 3, 255]);
    let region = Some(RegionArgs { x: 2, y: 2, width: 3, height: 3 });
    let b64 = process_capture(8, 8, data, region, 1280, 720).expect("capture");
    let jpeg = base64::engine::general_purpose::STANDARD
        .decode(b64.as_bytes())
        .expect("valid base64");
    let img = image::load_from_memory(&jpeg).expect("valid JPEG");
    assert_eq!(img.width(), 3);
    assert_eq!(img.height(), 3);
}

#[test]
fn crop_takes_the_right_pixels() {
    // left half black, right half white; cropping the right half must
    // give a bright image, the left half a dark one
    let mut data = Vec::new();
    for _row in 0..8 {
        for col in 0..8 {
            let v = if col < 4 { 0u8 } else { 255u8 };
            data.extend_from_slice(&[v, v, v, 255]);
        }
    }
    let brightness = |region| {
        let b64 = process_capture(8, 8, data.clone(), Some(region), 1280, 720).expect("capture");
        let jpeg = base64::engine::general_purpose::STANDARD
            .decode(b64.as_bytes())
            .expect("valid base64");
        let img = image::load_from_memory(&jpeg).expect("valid JPEG").to_luma8();
        let sum: u64 = img.pixels().map(|p| p.0[0] as u64).sum();
        sum / (img.width() as u64 * img.height() as u64)
    };
    let right = brightness(RegionArgs { x: 4, y: 0, width: 4, height: 8 });
    let left = brightness(RegionArgs { x: 0, y: 0, width: 4, height: 8 });
    assert!(right > 200, "right half should be bright, got {}", right);
    assert!(left < 55, "left half should be dark, got {}", left);
}

#[test]
fn out_of_bounds_region_fails_at_encoding() {
    // a rectangle outside the frame clamps to an empty cut-out, which
    // the encoder then refuses
    let data = flat_rgba(8, 8, [9, 9, 9, 255]);
    let region = Some(RegionArgs { x: 20, y: 0, width: 4, height: 4 });
    let e = process_capture(8, 8, data, region, 1280, 720).unwrap_err();
    assert!(
        e.as_str().starts_with("Failed to encode JPEG"),
        "unexpected message: {}",
        e
    );
}

#[test]
fn short_buffer_is_rejected() {
    let e = process_capture(4, 4, vec![0u8; 10], None, 1280, 720).unwrap_err();
    assert_eq!(e.as_str(), "Failed to create image from buffer");
}

#[test]
fn capture_payload_shape() {
    let v = capture_result_json(String::from("QUJD"));
    assert_eq!(
        render_compact(&v),
        "{\"type\":\"image\",\"format\":\"jpeg\",\"encoding\":\"base64\",\"data\":\"QUJD\"}"
    );
}

#[test]
fn screen_info_lists_each_screen_with_index() {
    let screens = vec![
        ScreenDesc {
            id: 11,
            x: 0,
            y: 0,
            width: 1920,
            height: 1080,
            scale_text: String::from("1.0"),
            is_primary: true,
        },
        ScreenDesc {
            id: 12,
            x: 1920,
            y: 0,
            width: 1280,
            height: 1024,
            scale_text: String::from("1.5"),
            is_primary: false,
        },
    ];
    let v = screen_info_json(&screens);
    assert_eq!(
        render_compact(&v),
        "{\"screens\":[{\"index\":0,\"id\":11,\"x\":0,\"y\":0,\"width\":1920,\"height\":1080,\"scale_factor\":1.0,\"is_primary\":true},{\"index\":1,\"id\":12,\"x\":1920,\"y\":0,\"width\":1280,\"height\":1024,\"scale_factor\":1.5,\"is_primary\":false}],\"count\":2}"
    );
}

#[test]
fn pretty_rendering_matches_layout() {
    let v = obj(vec![
        ("a", JsonValue::Int(1)),
        ("b", JsonValue::Arr(vec![JsonValue::Int(2), JsonValue::Null])),
        ("c", JsonValue::Obj(vec![])),
    ]);
    assert_eq!(
        render_pretty(&v),
        "{\n  \"a\": 1,\n  \"b\": [\n    2,\n    null\n  ],\n  \"c\": {}\n}"
    );
}

#[test]
fn rendering_escapes_strings() {
    let v = JsonValue::Text(String::from("a\"b\\c\nd\te\u{1}"));
    assert_eq!(render_compact(&v), "\"a\\\"b\\\\c\\nd\\te\\u0001\"");
}

#[test]
fn rendering_negative_and_large_numbers() {
    assert_eq!(render_compact(&JsonValue::Int(i64::MIN)), "-9223372036854775808");
    assert_eq!(render_compact(&JsonValue::Int(i64::MAX)), "9223372036854775807");
    assert_eq!(render_compact(&JsonValue::Int(0)), "0");
}
