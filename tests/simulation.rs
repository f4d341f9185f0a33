use frankenpenguin::animation::AnimationController;
use frankenpenguin::config::{parse_rectangle_count, ConfigError};
use frankenpenguin::encoder::FrameEncoder;
use frankenpenguin::shapes::{Color, Rectangle, RectangleDraws};
use frankenpenguin::{MAX_CANVAS, MAX_SIZE, MAX_SPEED, MIN_SIZE, UNITS_PER_PIXEL};

fn uniform_draws(v: u32) -> RectangleDraws {
    RectangleDraws { width: v, height: v, x: v, y: v, dx: v, dy: v, r: v, g: v, b: v }
}

fn varied_draws(n: usize) -> Vec<RectangleDraws> {
    (0..n)
        .map(|i| {
            let v = (i as u32).wrapping_mul(2654435761);
            RectangleDraws {
                width: v,
                height: v.rotate_left(5),
                x: v.rotate_left(9),
                y: v.rotate_left(13),
                dx: v.rotate_left(17),
                dy: v.rotate_left(21),
                r: v.rotate_left(3),
                g: v.rotate_left(7),
                b: v.rotate_left(11),
            }
        })
        .collect()
}

fn canvas(px: i64) -> i64 {
    px * UNITS_PER_PIXEL
}

fn in_generation_ranges(r: &Rectangle, cw: i64, ch: i64) -> bool {
    r.x >= 0
        && r.x + r.width <= cw
        && r.y >= 0
        && r.y + r.height <= ch
        && r.width >= MIN_SIZE
        && r.width < MAX_SIZE
        && r.height >= MIN_SIZE
        && r.height < MAX_SIZE
        && r.dx >= -MAX_SPEED
        && r.dx < MAX_SPEED
        && r.dy >= -MAX_SPEED
        && r.dy < MAX_SPEED
}

fn grey() -> Color {
    Color::from_channels(10, 20, 30, 255)
}

#[test]
fn generated_rectangles_start_inside_ranges() {
    let (cw, ch) = (canvas(800), canvas(600));
    let mut draws = varied_draws(50);
    draws.push(uniform_draws(0));
    draws.push(uniform_draws(u32::MAX));
    let rects = Rectangle::generate(draws.len(), cw, ch, &draws);
    for r in &rects {
        assert!(in_generation_ranges(r, cw, ch));
    }
    let small = Rectangle::random(MAX_SIZE + 1, MAX_SIZE + 1, &uniform_draws(u32::MAX));
    assert!(in_generation_ranges(&small, MAX_SIZE + 1, MAX_SIZE + 1));
}

#[test]
fn generate_produces_exact_count() {
    for n in [0usize, 1, 7, 100] {
        let rects = Rectangle::generate(n, canvas(800), canvas(600), &varied_draws(n));
        assert_eq!(rects.len(), n);
    }
}

#[test]
fn random_rectangle_golden_values() {
    let lowest = Rectangle::random(canvas(800), canvas(600), &uniform_draws(0));
    assert_eq!((lowest.x, lowest.y), (0, 0));
    assert_eq!((lowest.width, lowest.height), (MIN_SIZE, MIN_SIZE));
    assert_eq!((lowest.dx, lowest.dy), (-MAX_SPEED, -MAX_SPEED));
    assert_eq!(lowest.color().to_hex(), "#000000");
    assert_eq!(lowest.color().a(), 255);

    let highest = Rectangle::random(canvas(800), canvas(600), &uniform_draws(u32::MAX));
    assert_eq!(highest.width, MAX_SIZE - 1);
    assert_eq!(highest.dx, MAX_SPEED - 1);
    assert_eq!(highest.x, canvas(800) - highest.width - 1);
    assert_eq!(highest.color().to_hex(), "#ffffff");

    let half = Rectangle::random(canvas(800), canvas(600), &uniform_draws(1 << 31));
    assert_eq!(half.width, MIN_SIZE + 25 * UNITS_PER_PIXEL);
    assert_eq!(half.x, (canvas(800) - half.width) / 2);
    assert_eq!(half.dx, 0);
    assert_eq!(half.color().r(), 128);
}

#[test]
fn color_hex_is_cached_from_channels() {
    let c = Color::from_channels(255, 0, 171, 255);
    assert_eq!(c.to_hex(), "#ff00ab");
    let d = Color::random(0x0a00_0000, 0xc3ff_ffff, 0x7f12_3456);
    assert_eq!((d.r(), d.g(), d.b(), d.a()), (10, 195, 127, 255));
    assert_eq!(d.to_hex(), "#0ac37f");
    assert_eq!(d.clone().to_hex(), "#0ac37f");
}

#[test]
fn update_never_changes_size() {
    let mut r = Rectangle::new(5, 7, 30, 40, 3, -4, grey());
    for _ in 0..50 {
        r.update(100, 100);
        assert_eq!((r.width, r.height), (30, 40));
        assert_eq!(r.color().to_hex(), "#0a141e");
    }
}

#[test]
fn reflection_at_left_edge() {
    let mut r = Rectangle::new(0, 50, 10, 10, -1, 0, grey());
    r.update(100, 100);
    assert_eq!(r.x, -1);
    assert_eq!(r.dx, 1);
    r.update(100, 100);
    assert_eq!(r.x, 0);
    assert_eq!(r.dx, -1);
}

#[test]
fn exact_edge_contact_reflects() {
    let mut r = Rectangle::new(89, 20, 10, 10, 1, 0, grey());
    r.update(100, 100);
    assert_eq!(r.x, 90);
    assert_eq!(r.x + r.width, 100);
    assert_eq!(r.dx, -1);

    let mut inside = Rectangle::new(50, 50, 10, 10, 2, 3, grey());
    inside.update(100, 100);
    assert_eq!((inside.x, inside.y, inside.dx, inside.dy), (52, 53, 2, 3));
}

#[test]
fn corner_contact_reflects_both_axes() {
    let mut r = Rectangle::new(88, 88, 10, 10, 2, 2, grey());
    r.update(100, 100);
    assert_eq!((r.x, r.y, r.dx, r.dy), (90, 90, -2, -2));
}

#[test]
fn buffer_sizes_follow_rectangle_count() {
    for n in [0usize, 1, 5, 100] {
        let mut state =
            AnimationController::new(n, canvas(800), canvas(600), &varied_draws(n)).unwrap();
        let mut enc = FrameEncoder::new(n);
        assert_eq!(enc.positions.len(), n * 12);
        assert_eq!(enc.colors.len(), n * 24);
        enc.update(&mut state);
        assert_eq!(enc.positions.len(), n * 12);
        assert_eq!(enc.colors.len(), n * 24);
        assert_eq!(enc.vertex_count(), n * 6);
    }
}

#[test]
fn vertex_order_golden() {
    let state = AnimationController {
        rectangles: vec![Rectangle::new(0, 0, 10, 10, 1, 1, grey())],
        canvas_width: 100,
        canvas_height: 100,
    };
    let mut enc = FrameEncoder::new(1);
    enc.encode(&state);
    assert_eq!(enc.positions, vec![-100, 100, -80, 100, -100, 80, -100, 80, -80, 100, -80, 80]);
    let clip: Vec<f32> = enc
        .positions
        .iter()
        .enumerate()
        .map(|(k, &v)| {
            let d = if k % 2 == 0 { state.canvas_width } else { state.canvas_height };
            v as f32 / d as f32
        })
        .collect();
    assert_eq!(clip, vec![-1.0, 1.0, -0.8, 1.0, -1.0, 0.8, -1.0, 0.8, -0.8, 1.0, -0.8, 0.8]);
}

#[test]
fn color_flat_fill() {
    let state = AnimationController {
        rectangles: vec![
            Rectangle::new(0, 0, 10, 10, 1, 1, Color::from_channels(1, 2, 3, 255)),
            Rectangle::new(20, 20, 10, 10, 1, 1, Color::from_channels(200, 100, 50, 255)),
        ],
        canvas_width: 100,
        canvas_height: 100,
    };
    let mut enc = FrameEncoder::new(2);
    enc.encode(&state);
    for v in 0..6 {
        assert_eq!(&enc.colors[v * 4..v * 4 + 4], &[1, 2, 3, 255]);
        assert_eq!(&enc.colors[24 + v * 4..24 + v * 4 + 4], &[200, 100, 50, 255]);
    }
}

#[test]
fn resize_changes_later_frames_only() {
    let mut state = AnimationController {
        rectangles: vec![Rectangle::new(20, 30, 10, 10, 0, 0, grey())],
        canvas_width: 100,
        canvas_height: 100,
    };
    let mut enc = FrameEncoder::new(1);
    enc.encode(&state);
    let before = enc.positions.clone();
    assert_eq!(before, vec![-60, 40, -40, 40, -60, 20, -60, 20, -40, 40, -40, 20]);
    state.set_canvas_size(200, 400);
    assert_eq!(enc.positions, before);
    assert_eq!((state.rectangles()[0].x, state.rectangles()[0].y), (20, 30));
    enc.encode(&state);
    assert_eq!(enc.positions, vec![-160, 340, -140, 340, -160, 320, -160, 320, -140, 340, -140, 320]);
}

#[test]
fn controller_update_advances_every_rectangle() {
    let mut state = AnimationController {
        rectangles: vec![
            Rectangle::new(50, 50, 10, 10, 2, -3, grey()),
            Rectangle::new(1, 89, 10, 10, -1, 1, grey()),
        ],
        canvas_width: 100,
        canvas_height: 100,
    };
    state.update();
    let r = state.rectangles();
    assert_eq!((r[0].x, r[0].y, r[0].dx, r[0].dy), (52, 47, 2, -3));
    assert_eq!((r[1].x, r[1].y, r[1].dx, r[1].dy), (0, 90, 1, -1));
}

#[test]
fn encoder_update_ticks_then_encodes() {
    let mut state = AnimationController {
        rectangles: vec![Rectangle::new(10, 10, 10, 10, 5, 5, grey())],
        canvas_width: 100,
        canvas_height: 100,
    };
    let mut enc = FrameEncoder::new(1);
    enc.update(&mut state);
    assert_eq!(state.rectangles[0].x, 15);
    assert_eq!(enc.positions[0], -70);
    assert_eq!(enc.positions[1], 70);
}

#[test]
fn controller_rejects_canvas_out_of_range() {
    let d = varied_draws(3);
    assert!(matches!(
        AnimationController::new(3, MAX_SIZE, canvas(600), &d),
        Err(ConfigError::CanvasTooSmall)
    ));
    assert!(matches!(
        AnimationController::new(3, canvas(800), 100, &d),
        Err(ConfigError::CanvasTooSmall)
    ));
    assert!(matches!(
        AnimationController::new(3, MAX_CANVAS + 1, canvas(600), &d),
        Err(ConfigError::CanvasTooLarge)
    ));
    let ok = AnimationController::new(3, MAX_SIZE + 1, MAX_CANVAS, &d).unwrap();
    assert_eq!(ok.rectangles().len(), 3);
    assert_eq!((ok.canvas_width, ok.canvas_height), (MAX_SIZE + 1, MAX_CANVAS));
}

#[test]
fn zero_count_rejected_by_configuration() {
    assert_eq!(parse_rectangle_count(Some("0")), Err(ConfigError::ZeroCount));
    assert_eq!(parse_rectangle_count(Some("+000")), Err(ConfigError::ZeroCount));
}

#[test]
fn zero_rectangles_give_empty_buffers() {
    let mut state = AnimationController::new(0, canvas(800), canvas(600), &Vec::new()).unwrap();
    let mut enc = FrameEncoder::new(0);
    enc.update(&mut state);
    assert!(enc.positions.is_empty());
    assert!(enc.colors.is_empty());
    assert_eq!(enc.vertex_count(), 0);
}

#[test]
fn rectangle_count_parsing() {
    assert_eq!(parse_rectangle_count(None), Err(ConfigError::MissingCount));
    assert_eq!(parse_rectangle_count(Some("")), Err(ConfigError::InvalidCount));
    assert_eq!(parse_rectangle_count(Some("+")), Err(ConfigError::InvalidCount));
    assert_eq!(parse_rectangle_count(Some("12a")), Err(ConfigError::InvalidCount));
    assert_eq!(parse_rectangle_count(Some("-3")), Err(ConfigError::InvalidCount));
    assert_eq!(parse_rectangle_count(Some(" 5")), Err(ConfigError::InvalidCount));
    assert_eq!(
        parse_rectangle_count(Some("18446744073709551616")),
        Err(ConfigError::InvalidCount)
    );
    assert_eq!(parse_rectangle_count(Some("18446744073709551615")), Ok(usize::MAX));
    assert_eq!(parse_rectangle_count(Some("42")), Ok(42));
    assert_eq!(parse_rectangle_count(Some("+7")), Ok(7));
    assert_eq!(parse_rectangle_count(Some("0100")), Ok(100));
}
