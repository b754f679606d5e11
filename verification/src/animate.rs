//! The idle animation shown while the network is not up yet: four-row text
//! patterns turned into pixel frames, and the fixed cycle of frames the
//! animation steps through.
use vstd::prelude::*;

use crate::pixel::{PixelFrame, Rgb, GRID_PIXELS};

verus! {

/// Milliseconds between animation frames.
pub const WAIT_ANIMATION_SLEEP_MS: u64 = 600;

/// Intensity of the lit pixels of the animation.
pub const ANIMATION_BRIGHTNESS: u8 = 20;

/// A whole-grid pattern written as four rows of characters, one character
/// per pixel: `w`/`x` for white, `r`, `g`, `b` for the primaries, anything
/// else dark. Only the first four characters of a row count.
#[derive(Clone, Copy, Debug)]
pub struct RGBPattern {
    pub r1: &'static str,
    pub r2: &'static str,
    pub r3: &'static str,
    pub r4: &'static str,
}

/// The color a pattern character stands for.
pub open spec fn char_pixel(c: char) -> Rgb {
    if c == 'w' || c == 'x' {
        Rgb { r: ANIMATION_BRIGHTNESS, g: ANIMATION_BRIGHTNESS, b: ANIMATION_BRIGHTNESS }
    } else if c == 'r' {
        Rgb { r: ANIMATION_BRIGHTNESS, g: 0, b: 0 }
    } else if c == 'g' {
        Rgb { r: 0, g: ANIMATION_BRIGHTNESS, b: 0 }
    } else if c == 'b' {
        Rgb { r: 0, g: 0, b: ANIMATION_BRIGHTNESS }
    } else {
        Rgb { r: 0, g: 0, b: 0 }
    }
}

/// At most the first `n` characters of a row.
pub open spec fn first_chars(s: Seq<char>, n: int) -> Seq<char> {
    if s.len() <= n {
        s
    } else {
        s.take(n)
    }
}

/// The characters a pattern contributes, row by row.
pub open spec fn pattern_chars(p: RGBPattern) -> Seq<char> {
    first_chars(p.r1@, 4) + first_chars(p.r2@, 4) + first_chars(p.r3@, 4) + first_chars(p.r4@, 4)
}

/// The frame a pattern paints: its characters' colors in order, padded with
/// dark pixels to the full grid (and never beyond the grid).
pub open spec fn pattern_pixels(p: RGBPattern) -> Seq<Rgb> {
    let base = pattern_chars(p).map_values(|c: char| char_pixel(c));
    if base.len() >= GRID_PIXELS {
        base.take(GRID_PIXELS as int)
    } else {
        base + Seq::new((GRID_PIXELS - base.len()) as nat, |i: int| Rgb { r: 0, g: 0, b: 0 })
    }
}

/// Append one row's colors: the first four characters, mapped to pixels.
fn push_row(pixels: &mut Vec<Rgb>, row: &str)
    ensures
        final(pixels)@ == old(pixels)@ + first_chars(row@, 4).map_values(
            |c: char| char_pixel(c),
        ),
{
    let ghost start = pixels@;
    let n = row.unicode_len();
    let count: usize = if n < 4 {
        n
    } else {
        4
    };
    assert(first_chars(row@, 4).len() == count);
    let mut j: usize = 0;
    while j < count
        invariant
            count <= row@.len(),
            j <= count,
            first_chars(row@, 4).len() == count,
            forall|i: int| 0 <= i < count ==> first_chars(row@, 4)[i] == row@[i],
            pixels@ =~= start + first_chars(row@, 4).map_values(|c: char| char_pixel(c)).take(
                j as int,
            ),
        decreases count - j,
    {
        let c = row.get_char(j);
        let px = if c == 'w' || c == 'x' {
            Rgb { r: ANIMATION_BRIGHTNESS, g: ANIMATION_BRIGHTNESS, b: ANIMATION_BRIGHTNESS }
        } else if c == 'r' {
            Rgb { r: ANIMATION_BRIGHTNESS, g: 0, b: 0 }
        } else if c == 'g' {
            Rgb { r: 0, g: ANIMATION_BRIGHTNESS, b: 0 }
        } else if c == 'b' {
            Rgb { r: 0, g: 0, b: ANIMATION_BRIGHTNESS }
        } else {
            Rgb { r: 0, g: 0, b: 0 }
        };
        assert(px == char_pixel(row@[j as int]));
        pixels.push(px);
        j = j + 1;
    }
    assert(pixels@ =~= start + first_chars(row@, 4).map_values(|c: char| char_pixel(c)));
}

/// Paint a pattern into a pixel frame: always a full grid of pixels.
pub fn pattern_frame(p: &RGBPattern) -> (f: PixelFrame)
    ensures
        f@ =~= pattern_pixels(*p),
        f@.len() == GRID_PIXELS,
        f.wf(),
{
    let mut pixels: Vec<Rgb> = Vec::new();
    push_row(&mut pixels, p.r1);
    push_row(&mut pixels, p.r2);
    push_row(&mut pixels, p.r3);
    push_row(&mut pixels, p.r4);
    assert(pixels@ =~= pattern_chars(*p).map_values(|c: char| char_pixel(c)));
    assert(pixels@.len() <= GRID_PIXELS);
    while pixels.len() < GRID_PIXELS
        invariant
            pixels@.len() <= GRID_PIXELS,
            pattern_chars(*p).map_values(|c: char| char_pixel(c)).len() <= pixels@.len(),
            pixels@.take(pattern_chars(*p).map_values(|c: char| char_pixel(c)).len() as int)
                =~= pattern_chars(*p).map_values(|c: char| char_pixel(c)),
            forall|i: int|
                pattern_chars(*p).map_values(|c: char| char_pixel(c)).len() <= i < pixels@.len()
                    ==> pixels@[i] == (Rgb { r: 0, g: 0, b: 0 }),
        decreases GRID_PIXELS - pixels@.len(),
    {
        pixels.push(Rgb { r: 0, g: 0, b: 0 });
    }
    assert(pixels@ =~= pattern_pixels(*p));
    PixelFrame { pixels }
}

/// The animation's pattern for a given step of its five-step cycle: a lit
/// diagonal walking across the grid and back.
pub open spec fn spec_wait_pattern(step: int) -> RGBPattern {
    if step == 0 {
        RGBPattern { r1: "x...", r2: ".x..", r3: "..x.", r4: "...x" }
    } else if step == 1 {
        RGBPattern { r1: ".x..", r2: "x...", r3: "...x", r4: "..x." }
    } else if step == 2 {
        RGBPattern { r1: "..x.", r2: "...x", r3: "x...", r4: ".x.." }
    } else if step == 3 {
        RGBPattern { r1: "...x", r2: "..x.", r3: ".x..", r4: "x..." }
    } else {
        RGBPattern { r1: "..x.", r2: "...x", r3: "x...", r4: ".x.." }
    }
}

/// The pattern shown at animation step `step`, cycling forever.
pub fn wait_animation_pattern(step: usize) -> (p: RGBPattern)
    ensures
        p == spec_wait_pattern(step as int % 5),
{
    match step % 5 {
        0 => RGBPattern { r1: "x...", r2: ".x..", r3: "..x.", r4: "...x" },
        1 => RGBPattern { r1: ".x..", r2: "x...", r3: "...x", r4: "..x." },
        2 => RGBPattern { r1: "..x.", r2: "...x", r3: "x...", r4: ".x.." },
        3 => RGBPattern { r1: "...x", r2: "..x.", r3: ".x..", r4: "x..." },
        _ => RGBPattern { r1: "..x.", r2: "...x", r3: "x...", r4: ".x.." },
    }
}

/// The frame shown at animation step `step`: the step's pattern painted onto
/// the grid. The animation's consumer enqueues it without blocking and
/// sleeps `WAIT_ANIMATION_SLEEP_MS` between steps.
pub fn wait_animation_frame(step: usize) -> (f: PixelFrame)
    ensures
        f@ =~= pattern_pixels(spec_wait_pattern(step as int % 5)),
        f@.len() == GRID_PIXELS,
        f.wf(),
{
    let p = wait_animation_pattern(step);
    pattern_frame(&p)
}

} // verus!
