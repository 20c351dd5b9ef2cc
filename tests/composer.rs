use badge_composer::bitmap::{from_pixels, rasterize, Bitmap};
use badge_composer::compose::{
    compose_drawable, compose_messages, compose_text, report_unresolved, Content, Message,
};
use badge_composer::font::{lookup, FontFace, FontFamily, FontSpec, ResolutionError};
use badge_composer::payload::{Frame, Payload};
use badge_composer::style::{resolve, Mode, Speed, StyleOptions};
use badge_composer::transport::{plan_delivery, report, select_single, Delivery, TransportError};
use embedded_graphics::geometry::Point;
use embedded_graphics::mock_display::MockDisplay;
use embedded_graphics::mono_font::iso_8859_1::{FONT_5X8, FONT_6X9};
use embedded_graphics::mono_font::{MonoFont, MonoTextStyle};
use embedded_graphics::pixelcolor::BinaryColor;
use embedded_graphics::text::Text;
use embedded_graphics::Drawable;

fn keys(list: &[&str]) -> Vec<String> {
    list.iter().map(|k| k.to_string()).collect()
}

fn font(code: u8, key: &str) -> FontSpec {
    lookup(code, key).unwrap()
}

fn on_pixels(b: &Bitmap) -> Vec<(usize, usize)> {
    let mut out = Vec::new();
    for y in 0..b.height {
        for x in 0..b.width {
            if b.is_on(x, y) {
                out.push((x, y));
            }
        }
    }
    out
}

/// Draws `text` on a badge-sized canvas as a `MonoTextStyle` with a background
/// colour does, with its baseline on `baseline_row`.
fn reference_canvas(text: &str, font: &MonoFont, baseline_row: i32, inverted: bool) -> MockDisplay<BinaryColor> {
    let bg = BinaryColor::from(inverted);
    let mut style = MonoTextStyle::new(font, bg.invert());
    style.background_color = Some(bg);
    let mut display = MockDisplay::new();
    Text::new(text, Point::new(0, baseline_row), style).draw(&mut display).unwrap();
    display
}

fn assert_matches_canvas(b: &Bitmap, canvas: &MockDisplay<BinaryColor>) {
    for y in 0..b.height {
        for x in 0..b.width {
            let expected = canvas.get_pixel(Point::new(x as i32, (y + b.top) as i32)) == Some(BinaryColor::On);
            assert_eq!(b.is_on(x, y), expected, "pixel ({}, {})", x, y);
        }
    }
}

#[test]
fn speed_codes_in_range_resolve_to_their_level() {
    let fps = [12, 13, 20, 24, 28, 45, 75, 150];
    for code in 0u8..8 {
        let s = resolve(code, "left", &vec![]);
        assert_eq!(s.speed.level(), code);
        assert_eq!(s.speed.fps_tenths(), fps[code as usize]);
        assert_eq!(resolve(code, "left", &vec![]), s);
    }
}

#[test]
fn speed_codes_out_of_range_take_the_default() {
    for code in [8u8, 9, 100, 255] {
        assert_eq!(resolve(code, "left", &vec![]).speed, Speed::Fps2_8);
    }
}

#[test]
fn mode_keys_resolve_exactly() {
    let table = [
        ("left", Mode::Left),
        ("right", Mode::Right),
        ("up", Mode::Up),
        ("down", Mode::Down),
        ("still", Mode::Still),
        ("snowflake", Mode::Snowflake),
        ("picture", Mode::Picture),
        ("laser", Mode::Laser),
        ("hold", Mode::Hold),
    ];
    for (key, mode) in table {
        assert_eq!(resolve(0, key, &vec![]).mode, mode);
    }
}

#[test]
fn unknown_mode_keys_fall_back_to_left() {
    for key in ["Right", "", "lef", "lefts", "LASER"] {
        assert_eq!(resolve(0, key, &vec![]).mode, Mode::Left);
    }
}

#[test]
fn flag_keys_are_membership_tests() {
    let s = resolve(1, "up", &keys(&["border", "sparkle", "inverted"]));
    assert_eq!(
        s,
        StyleOptions { speed: Speed::Fps1_3, mode: Mode::Up, blink: false, border: true, invert: true }
    );
    let s = resolve(1, "up", &keys(&["flashing", "Border"]));
    assert!(s.blink);
    assert!(!s.border);
    assert!(!s.invert);
}

#[test]
fn known_fonts_resolve_with_their_metrics() {
    let f = font(0, "5x8");
    assert_eq!((f.family, f.face), (FontFamily::FixedMono, FontFace::Mono5x8));
    assert_eq!((f.cell_width, f.cell_height, f.baseline, f.top_row), (5, 8, 8, 2));
    let f = font(0, "6x9");
    assert_eq!((f.family, f.face), (FontFamily::FixedMono, FontFace::Mono6x9));
    assert_eq!((f.cell_width, f.cell_height, f.baseline, f.top_row), (6, 9, 7, 1));
}

#[test]
fn fonts_end_on_the_same_row() {
    let a = font(0, "5x8");
    let b = font(0, "6x9");
    assert_eq!(a.top_row + a.cell_height, b.top_row + b.cell_height);
}

#[test]
fn unknown_fonts_are_errors() {
    assert_eq!(lookup(0, "7x13"), Err(ResolutionError::UnknownSubtype));
    assert_eq!(lookup(0, "5X8"), Err(ResolutionError::UnknownSubtype));
    assert_eq!(lookup(1, "5x8"), Err(ResolutionError::UnknownSubtype));
    assert_eq!(lookup(2, "5x8"), Err(ResolutionError::UnknownFamily));
    assert_eq!(lookup(255, ""), Err(ResolutionError::UnknownFamily));
}

#[test]
fn raw_pixels_unpack_row_major() {
    let b = from_pixels(&vec![true, false, true, false, true, false], 3);
    assert_eq!((b.width, b.height, b.top), (3, 2, 0));
    assert_eq!(on_pixels(&b), vec![(0, 0), (2, 0), (1, 1)]);
}

#[test]
fn raw_pixels_pad_the_last_row() {
    let b = from_pixels(&vec![true, true, true, true, true], 3);
    assert_eq!((b.width, b.height), (3, 2));
    assert_eq!(on_pixels(&b), vec![(0, 0), (1, 0), (2, 0), (0, 1), (1, 1)]);
    assert!(!b.is_on(2, 1));
    assert!(!b.is_on(3, 0));
}

#[test]
fn raw_pixels_empty() {
    let b = from_pixels(&vec![], 4);
    assert_eq!((b.width, b.height), (4, 0));
    assert!(b.pixels.is_empty());
}

#[test]
fn empty_text_rasterizes_to_zero_width() {
    for f in [font(0, "5x8"), font(0, "6x9")] {
        let b = rasterize("", f, false);
        assert_eq!(b.width, 0);
        assert_eq!(b.height, f.cell_height as usize);
        assert!(b.pixels.is_empty());
    }
}

#[test]
fn text_matches_the_font_rendering() {
    let b = rasterize("HI", font(0, "5x8"), false);
    assert_eq!((b.width, b.height, b.top), (10, 8, 2));
    assert!(!on_pixels(&b).is_empty());
    assert_matches_canvas(&b, &reference_canvas("HI", &FONT_5X8, 8, false));

    let b = rasterize("Badge 1!", font(0, "6x9"), false);
    assert_eq!((b.width, b.height, b.top), (48, 9, 1));
    assert_matches_canvas(&b, &reference_canvas("Badge 1!", &FONT_6X9, 7, false));
}

#[test]
fn inverted_text_swaps_every_pixel() {
    let f = font(0, "6x9");
    let plain = rasterize("Ab", f, false);
    let inverted = rasterize("Ab", f, true);
    assert_eq!((plain.width, plain.height), (inverted.width, inverted.height));
    for (p, q) in plain.pixels.iter().zip(inverted.pixels.iter()) {
        assert_ne!(p, q);
    }
    assert_matches_canvas(&inverted, &reference_canvas("Ab", &FONT_6X9, 7, true));
}

#[test]
fn blank_text_is_all_background() {
    let b = rasterize("  ", font(0, "5x8"), false);
    assert!(b.pixels.iter().all(|p| !p));
    let b = rasterize("  ", font(0, "5x8"), true);
    assert!(b.pixels.iter().all(|p| *p));
}

#[test]
fn payload_keeps_append_order() {
    let style = |code: u8| resolve(code, "left", &vec![]);
    let a = from_pixels(&vec![true], 1);
    let b = from_pixels(&vec![false, true], 2);
    let c = rasterize("C", font(0, "5x8"), false);
    let p = Payload::new()
        .append(style(0), a.clone())
        .append(style(1), b.clone())
        .append(style(2), c.clone());
    assert_eq!(p.len(), 3);
    assert_eq!(
        p.frames,
        vec![
            Frame { style: style(0), bitmap: a },
            Frame { style: style(1), bitmap: b },
            Frame { style: style(2), bitmap: c },
        ]
    );
}

#[test]
fn empty_payload_is_valid() {
    let p = Payload::new();
    assert_eq!(p.len(), 0);
    assert!(compose_messages(&vec![]).unwrap().frames.is_empty());
}

fn text_message(text: &str, speed: u8, subtype: &str) -> Message {
    Message {
        content: Content::Text { text: text.to_string(), family: 0, subtype: subtype.to_string() },
        speed,
        mode: "left".to_string(),
        effects: vec![],
    }
}

#[test]
fn batch_frames_follow_message_order() {
    let msgs = vec![
        text_message("A", 0, "5x8"),
        Message {
            content: Content::RawPixels { pixels: vec![true, false, true, false, true, false], width: 3 },
            speed: 9,
            mode: "picture".to_string(),
            effects: keys(&["inverted"]),
        },
        text_message("B", 7, "6x9"),
    ];
    let p = compose_messages(&msgs).unwrap();
    assert_eq!(p.len(), 3);
    assert_eq!(p.frames[0].bitmap, rasterize("A", font(0, "5x8"), false));
    assert_eq!(p.frames[0].style.speed, Speed::Fps1_2);
    assert_eq!(p.frames[1].bitmap, from_pixels(&vec![true, false, true, false, true, false], 3));
    assert_eq!(p.frames[1].style.speed, Speed::Fps2_8);
    assert_eq!(p.frames[1].style.mode, Mode::Picture);
    assert!(p.frames[1].style.invert);
    assert_eq!(p.frames[2].bitmap, rasterize("B", font(0, "6x9"), false));
    assert_eq!(p.frames[2].style.speed, Speed::Fps15);
}

#[test]
fn batch_fails_on_the_first_bad_message() {
    let msgs = vec![
        text_message("ok", 0, "5x8"),
        text_message("bad", 0, "9x9"),
        Message {
            content: Content::RawPixels { pixels: vec![true], width: 0 },
            speed: 0,
            mode: "left".to_string(),
            effects: vec![],
        },
    ];
    assert_eq!(compose_messages(&msgs), Err(ResolutionError::UnknownSubtype));
    let msgs = vec![msgs[2].clone(), msgs[1].clone()];
    assert_eq!(compose_messages(&msgs), Err(ResolutionError::ZeroWidth));
}

#[test]
fn drawable_request() {
    let p = compose_drawable(&vec![false, true, true, false], 2, 3, "down", &keys(&["border"])).unwrap();
    assert_eq!(p.len(), 1);
    assert_eq!(on_pixels(&p.frames[0].bitmap), vec![(1, 0), (0, 1)]);
    assert_eq!(p.frames[0].style.mode, Mode::Down);
    assert!(p.frames[0].style.border);
    assert_eq!(compose_drawable(&vec![true], 0, 3, "down", &vec![]), Err(ResolutionError::ZeroWidth));
}

#[test]
fn select_single_needs_exactly_one_device() {
    assert_eq!(select_single(&vec![]), Err(TransportError::NoDevice));
    assert_eq!(select_single(&keys(&["a", "b"])), Err(TransportError::MultipleDevices(2)));
    assert_eq!(select_single(&keys(&["a", "b", "c"])), Err(TransportError::MultipleDevices(3)));
    assert_eq!(select_single(&keys(&["badge-0"])).unwrap().id, "badge-0");
}

#[test]
fn end_to_end_text_to_one_device() {
    let payload = compose_text("HI", 2, "left", &keys(&["flashing"]), 0, "5x8").unwrap();
    assert_eq!(payload.len(), 1);
    let frame = &payload.frames[0];
    assert!(frame.style.blink);
    assert!(!frame.style.border);
    assert!(!frame.style.invert);
    assert_eq!(frame.style.speed, Speed::Fps2_0);
    assert_eq!(frame.style.mode, Mode::Left);
    assert_matches_canvas(&frame.bitmap, &reference_canvas("HI", &FONT_5X8, 8, false));
    match plan_delivery(payload.clone(), Ok(keys(&["mock"]))) {
        Delivery::Write { device, payload: written } => {
            assert_eq!(device.id, "mock");
            assert_eq!(written, payload);
        }
        Delivery::Fail(e) => panic!("unexpected failure: {:?}", e),
    }
    assert_eq!(report(&Ok(())), "Success!");
}

#[test]
fn end_to_end_text_without_device() {
    let payload = compose_text("HI", 2, "left", &keys(&["flashing"]), 0, "5x8").unwrap();
    let delivery = plan_delivery(payload, Ok(vec![]));
    assert_eq!(delivery, Delivery::Fail(TransportError::NoDevice));
    assert_eq!(report(&Err(TransportError::NoDevice)), "Something went wrong: no badge found");
}

#[test]
fn delivery_errors_are_told_apart() {
    let p = Payload::new();
    assert_eq!(
        plan_delivery(p.clone(), Ok(keys(&["a", "b"]))),
        Delivery::Fail(TransportError::MultipleDevices(2))
    );
    assert_eq!(
        plan_delivery(p, Err("permission denied".to_string())),
        Delivery::Fail(TransportError::Enumeration("permission denied".to_string()))
    );
    assert_eq!(TransportError::MultipleDevices(2).message(), "more than one badge found");
    assert_eq!(
        report(&Err(TransportError::WriteFailed("timeout".to_string()))),
        "Something went wrong: write to badge failed: timeout"
    );
}

#[test]
fn text_request_errors() {
    assert_eq!(compose_text("HI", 2, "left", &vec![], 0, "8x8"), Err(ResolutionError::UnknownSubtype));
    assert_eq!(compose_text("HI", 2, "left", &vec![], 3, "5x8"), Err(ResolutionError::UnknownFamily));
}

#[test]
fn resolution_errors_are_reported_as_text() {
    assert_eq!(ResolutionError::UnknownFamily.message(), "unknown font family");
    assert_eq!(
        report_unresolved(&ResolutionError::ZeroWidth),
        "Something went wrong: a bitmap needs a width of at least one pixel"
    );
}
