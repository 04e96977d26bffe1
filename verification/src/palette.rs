//! The fixed 32-entry display palette: a bijection between state codes and
//! RGB colors, used to decode seed patterns into states and to color the
//! rendered grid.

use vstd::prelude::*;
use crate::{valid_state, STATE_COUNT};

verus! {

/// One palette color. Alpha is not part of the palette: pattern decoding
/// ignores it and rendering emits it as fully opaque.
#[derive(Clone, Copy, PartialEq, Eq, Structural, Debug)]
pub struct Rgb {
    pub r: u8,
    pub g: u8,
    pub b: u8,
}

/// The palette as a mathematical sequence, indexed by state code.
pub open spec fn palette() -> Seq<Rgb> {
    seq![
        Rgb { r: 0, g: 0, b: 0 },
        Rgb { r: 255, g: 0, b: 0 },
        Rgb { r: 255, g: 125, b: 0 },
        Rgb { r: 255, g: 150, b: 25 },
        Rgb { r: 255, g: 175, b: 50 },
        Rgb { r: 255, g: 200, b: 75 },
        Rgb { r: 255, g: 225, b: 100 },
        Rgb { r: 255, g: 250, b: 125 },
        Rgb { r: 251, g: 255, b: 0 },
        Rgb { r: 89, g: 89, b: 255 },
        Rgb { r: 106, g: 106, b: 255 },
        Rgb { r: 122, g: 122, b: 255 },
        Rgb { r: 139, g: 139, b: 255 },
        Rgb { r: 27, g: 176, b: 27 },
        Rgb { r: 36, g: 200, b: 36 },
        Rgb { r: 73, g: 255, b: 73 },
        Rgb { r: 106, g: 255, b: 106 },
        Rgb { r: 235, g: 36, b: 36 },
        Rgb { r: 255, g: 56, b: 56 },
        Rgb { r: 255, g: 73, b: 73 },
        Rgb { r: 255, g: 89, b: 89 },
        Rgb { r: 185, g: 56, b: 255 },
        Rgb { r: 191, g: 73, b: 255 },
        Rgb { r: 197, g: 89, b: 255 },
        Rgb { r: 203, g: 106, b: 255 },
        Rgb { r: 0, g: 255, b: 128 },
        Rgb { r: 255, g: 128, b: 64 },
        Rgb { r: 255, g: 255, b: 128 },
        Rgb { r: 33, g: 215, b: 215 },
        Rgb { r: 27, g: 176, b: 176 },
        Rgb { r: 24, g: 156, b: 156 },
        Rgb { r: 21, g: 137, b: 137 },
    ]
}

/// The state code of the first palette entry at or after position `i` whose
/// color is `p`, or the background state 0 when no entry matches.
pub open spec fn match_from(p: Rgb, i: int) -> u8
    decreases STATE_COUNT - i,
{
    if i < 0 || i >= STATE_COUNT {
        0
    } else if palette()[i] == p {
        i as u8
    } else {
        match_from(p, i + 1)
    }
}

/// The state code a pattern pixel of color `p` decodes to: the index of the
/// matching palette entry, or the background state 0 when no entry matches.
pub open spec fn decode_pixel(p: Rgb) -> u8 {
    match_from(p, 0)
}

proof fn lemma_match_from_in_range(p: Rgb, i: int)
    ensures
        valid_state(match_from(p, i)),
    decreases STATE_COUNT - i,
{
    if 0 <= i < STATE_COUNT && palette()[i] != p {
        lemma_match_from_in_range(p, i + 1);
    }
}

/// A decoded pixel is always a well-formed state code.
pub proof fn lemma_decode_pixel_in_range(p: Rgb)
    ensures
        valid_state(decode_pixel(p)),
{
    lemma_match_from_in_range(p, 0);
}

proof fn lemma_match_from_unmatched(p: Rgb, i: int)
    requires
        forall|j: int| 0 <= j < STATE_COUNT ==> palette()[j] != p,
    ensures
        match_from(p, i) == 0,
    decreases STATE_COUNT - i,
{
    if 0 <= i < STATE_COUNT {
        lemma_match_from_unmatched(p, i + 1);
    }
}

/// A color that matches no palette entry decodes to the background state 0.
pub proof fn lemma_unmatched_color_decodes_to_background(p: Rgb)
    requires
        forall|j: int| 0 <= j < STATE_COUNT ==> palette()[j] != p,
    ensures
        decode_pixel(p) == 0,
{
    lemma_match_from_unmatched(p, 0);
}

proof fn lemma_match_from_first_hit(p: Rgb, i: int, j: int)
    requires
        0 <= i <= j < STATE_COUNT,
        palette()[j] == p,
        forall|m: int| i <= m < j ==> palette()[m] != p,
    ensures
        match_from(p, i) == j,
    decreases j - i,
{
    if i < j {
        lemma_match_from_first_hit(p, i + 1, j);
    }
}

/// No two palette entries share a color, so a pixel holding a palette color
/// decodes to exactly that color's index: pattern decoding inverts rendering.
pub proof fn lemma_palette_color_decodes_to_index(j: int)
    requires
        0 <= j < STATE_COUNT,
    ensures
        decode_pixel(palette()[j]) == j,
{
    assert(forall|m: int, jj: int|
        0 <= m < STATE_COUNT && 0 <= jj < STATE_COUNT && m != jj ==> palette()[m] != palette()[jj]);
    lemma_match_from_first_hit(palette()[j], 0, j);
}

/// The palette colors, indexed by state code.
pub fn hutton32_colors() -> (colors: Vec<Rgb>)
    ensures
        colors@ == palette(),
{
    let mut colors: Vec<Rgb> = Vec::new();
    colors.push(Rgb { r: 0, g: 0, b: 0 });
    colors.push(Rgb { r: 255, g: 0, b: 0 });
    colors.push(Rgb { r: 255, g: 125, b: 0 });
    colors.push(Rgb { r: 255, g: 150, b: 25 });
    colors.push(Rgb { r: 255, g: 175, b: 50 });
    colors.push(Rgb { r: 255, g: 200, b: 75 });
    colors.push(Rgb { r: 255, g: 225, b: 100 });
    colors.push(Rgb { r: 255, g: 250, b: 125 });
    colors.push(Rgb { r: 251, g: 255, b: 0 });
    colors.push(Rgb { r: 89, g: 89, b: 255 });
    colors.push(Rgb { r: 106, g: 106, b: 255 });
    colors.push(Rgb { r: 122, g: 122, b: 255 });
    colors.push(Rgb { r: 139, g: 139, b: 255 });
    colors.push(Rgb { r: 27, g: 176, b: 27 });
    colors.push(Rgb { r: 36, g: 200, b: 36 });
    colors.push(Rgb { r: 73, g: 255, b: 73 });
    colors.push(Rgb { r: 106, g: 255, b: 106 });
    colors.push(Rgb { r: 235, g: 36, b: 36 });
    colors.push(Rgb { r: 255, g: 56, b: 56 });
    colors.push(Rgb { r: 255, g: 73, b: 73 });
    colors.push(Rgb { r: 255, g: 89, b: 89 });
    colors.push(Rgb { r: 185, g: 56, b: 255 });
    colors.push(Rgb { r: 191, g: 73, b: 255 });
    colors.push(Rgb { r: 197, g: 89, b: 255 });
    colors.push(Rgb { r: 203, g: 106, b: 255 });
    colors.push(Rgb { r: 0, g: 255, b: 128 });
    colors.push(Rgb { r: 255, g: 128, b: 64 });
    colors.push(Rgb { r: 255, g: 255, b: 128 });
    colors.push(Rgb { r: 33, g: 215, b: 215 });
    colors.push(Rgb { r: 27, g: 176, b: 176 });
    colors.push(Rgb { r: 24, g: 156, b: 156 });
    colors.push(Rgb { r: 21, g: 137, b: 137 });
    proof {
        assert(colors@ =~= palette());
    }
    colors
}

/// Looks a color up in the palette: the index of the first matching entry,
/// or the background state 0 when none matches.
pub fn match_color(colors: &Vec<Rgb>, p: Rgb) -> (s: u8)
    requires
        colors@ == palette(),
    ensures
        s == decode_pixel(p),
        valid_state(s),
{
    proof {
        lemma_decode_pixel_in_range(p);
    }
    let mut i: usize = 0;
    while i < STATE_COUNT as usize
        invariant
            colors@ == palette(),
            0 <= i <= STATE_COUNT,
            match_from(p, 0) == match_from(p, i as int),
            valid_state(decode_pixel(p)),
        decreases STATE_COUNT - i,
    {
        let c = colors[i];
        if c.r == p.r && c.g == p.g && c.b == p.b {
            return i as u8;
        }
        i += 1;
    }
    0
}

} // verus!
