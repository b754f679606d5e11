use pixelblaze_stream::{
    pattern_frame, wait_animation_frame, wait_animation_pattern, RGBPattern, Rgb,
    ANIMATION_BRIGHTNESS, GRID_PIXELS,
};

fn white() -> Rgb {
    Rgb { r: ANIMATION_BRIGHTNESS, g: ANIMATION_BRIGHTNESS, b: ANIMATION_BRIGHTNESS }
}

fn dark() -> Rgb {
    Rgb { r: 0, g: 0, b: 0 }
}

#[test]
fn first_step_lights_the_falling_diagonal() {
    let frame = wait_animation_frame(0);
    assert_eq!(frame.len(), GRID_PIXELS);
    for i in 0..GRID_PIXELS {
        let expected = if i == 0 || i == 5 || i == 10 || i == 15 { white() } else { dark() };
        assert_eq!(frame.get(i), expected, "pixel {}", i);
    }
}

#[test]
fn animation_cycles_every_five_steps() {
    for step in 0..5usize {
        let a = wait_animation_frame(step);
        let b = wait_animation_frame(step + 5);
        for i in 0..GRID_PIXELS {
            assert_eq!(a.get(i), b.get(i));
        }
    }
    // the fifth frame repeats the third, walking the diagonal back
    let third = wait_animation_frame(2);
    let fifth = wait_animation_frame(4);
    for i in 0..GRID_PIXELS {
        assert_eq!(third.get(i), fifth.get(i));
    }
}

#[test]
fn pattern_characters_map_to_colors() {
    let frame = pattern_frame(&RGBPattern { r1: "rgbw", r2: "x...", r3: "....", r4: "...." });
    assert_eq!(frame.get(0), Rgb { r: ANIMATION_BRIGHTNESS, g: 0, b: 0 });
    assert_eq!(frame.get(1), Rgb { r: 0, g: ANIMATION_BRIGHTNESS, b: 0 });
    assert_eq!(frame.get(2), Rgb { r: 0, g: 0, b: ANIMATION_BRIGHTNESS });
    assert_eq!(frame.get(3), white());
    assert_eq!(frame.get(4), white());
    for i in 5..GRID_PIXELS {
        assert_eq!(frame.get(i), dark());
    }
}

#[test]
fn short_rows_shift_and_pad_dark() {
    // rows shorter than four characters contribute fewer pixels, and the
    // frame is padded with dark pixels to the full grid
    let frame = pattern_frame(&RGBPattern { r1: "x", r2: "x", r3: "", r4: "" });
    assert_eq!(frame.len(), GRID_PIXELS);
    assert_eq!(frame.get(0), white());
    assert_eq!(frame.get(1), white());
    for i in 2..GRID_PIXELS {
        assert_eq!(frame.get(i), dark());
    }
    // rows longer than four characters are cut at four
    let frame = pattern_frame(&RGBPattern { r1: "xxxxxx", r2: "", r3: "", r4: "" });
    for i in 0..4 {
        assert_eq!(frame.get(i), white());
    }
    for i in 4..GRID_PIXELS {
        assert_eq!(frame.get(i), dark());
    }
}

#[test]
fn step_patterns_match_their_rows() {
    let p = wait_animation_pattern(1);
    assert_eq!(p.r1, ".x..");
    assert_eq!(p.r2, "x...");
    assert_eq!(p.r3, "...x");
    assert_eq!(p.r4, "..x.");
}
