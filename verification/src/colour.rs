use vstd::prelude::*;

verus! {

/// A 24-bit colour: one byte per channel.
#[derive(Clone, Copy, PartialEq, Eq, Structural, Debug)]
pub struct Rgb24 {
    pub r: u8,
    pub g: u8,
    pub b: u8,
}

impl Rgb24 {
    pub fn new(r: u8, g: u8, b: u8) -> (c: Rgb24)
        ensures
            c == (Rgb24 { r, g, b }),
    {
        Rgb24 { r, g, b }
    }
}

/// The fixed 16-colour terminal palette that `ColModify::Nearest16`
/// quantizes against.
pub open spec fn palette16(i: int) -> Rgb24 {
    if i == 0 {
        Rgb24 { r: 0, g: 0, b: 0 }
    } else if i == 1 {
        Rgb24 { r: 128, g: 0, b: 0 }
    } else if i == 2 {
        Rgb24 { r: 0, g: 128, b: 0 }
    } else if i == 3 {
        Rgb24 { r: 128, g: 128, b: 0 }
    } else if i == 4 {
        Rgb24 { r: 0, g: 0, b: 128 }
    } else if i == 5 {
        Rgb24 { r: 128, g: 0, b: 128 }
    } else if i == 6 {
        Rgb24 { r: 0, g: 128, b: 128 }
    } else if i == 7 {
        Rgb24 { r: 192, g: 192, b: 192 }
    } else if i == 8 {
        Rgb24 { r: 128, g: 128, b: 128 }
    } else if i == 9 {
        Rgb24 { r: 255, g: 0, b: 0 }
    } else if i == 10 {
        Rgb24 { r: 0, g: 255, b: 0 }
    } else if i == 11 {
        Rgb24 { r: 255, g: 255, b: 0 }
    } else if i == 12 {
        Rgb24 { r: 0, g: 0, b: 255 }
    } else if i == 13 {
        Rgb24 { r: 255, g: 0, b: 255 }
    } else if i == 14 {
        Rgb24 { r: 0, g: 255, b: 255 }
    } else {
        Rgb24 { r: 255, g: 255, b: 255 }
    }
}

/// Squared euclidean distance between two colours, channelwise.
pub open spec fn colour_distance_sq(a: Rgb24, b: Rgb24) -> int {
    (a.r - b.r) * (a.r - b.r) + (a.g - b.g) * (a.g - b.g) + (a.b - b.b) * (a.b - b.b)
}

/// Index of the palette entry among `[0, n)` nearest to `c`; the lowest
/// index wins ties, so quantization is a function of the input alone.
pub open spec fn nearest16_upto(c: Rgb24, n: int) -> int
    decreases n,
{
    if n <= 1 {
        0
    } else {
        let best = nearest16_upto(c, n - 1);
        if colour_distance_sq(c, palette16(n - 1)) < colour_distance_sq(c, palette16(best)) {
            n - 1
        } else {
            best
        }
    }
}

/// The palette index the 16-colour transform maps `c` to.
pub open spec fn nearest16_index_spec(c: Rgb24) -> int {
    nearest16_upto(c, 16)
}

/// Integer luminance on a 0..=255 scale, weighting the channels by how
/// bright they appear: 299/587/114 thousandths for red/green/blue.
pub open spec fn luminance_spec(c: Rgb24) -> int {
    (299 * c.r + 587 * c.g + 114 * c.b) / 1000
}

proof fn lemma_nearest16_upto_range(c: Rgb24, n: int)
    requires
        1 <= n,
    ensures
        0 <= nearest16_upto(c, n) < n,
    decreases n,
{
    if n > 1 {
        lemma_nearest16_upto_range(c, n - 1);
    }
}

fn palette_entry(i: usize) -> (r: Rgb24)
    requires
        i < 16,
    ensures
        r == palette16(i as int),
{
    match i {
        0 => Rgb24 { r: 0, g: 0, b: 0 },
        1 => Rgb24 { r: 128, g: 0, b: 0 },
        2 => Rgb24 { r: 0, g: 128, b: 0 },
        3 => Rgb24 { r: 128, g: 128, b: 0 },
        4 => Rgb24 { r: 0, g: 0, b: 128 },
        5 => Rgb24 { r: 128, g: 0, b: 128 },
        6 => Rgb24 { r: 0, g: 128, b: 128 },
        7 => Rgb24 { r: 192, g: 192, b: 192 },
        8 => Rgb24 { r: 128, g: 128, b: 128 },
        9 => Rgb24 { r: 255, g: 0, b: 0 },
        10 => Rgb24 { r: 0, g: 255, b: 0 },
        11 => Rgb24 { r: 255, g: 255, b: 0 },
        12 => Rgb24 { r: 0, g: 0, b: 255 },
        13 => Rgb24 { r: 255, g: 0, b: 255 },
        14 => Rgb24 { r: 0, g: 255, b: 255 },
        _ => Rgb24 { r: 255, g: 255, b: 255 },
    }
}

fn distance_sq(a: Rgb24, b: Rgb24) -> (d: u32)
    ensures
        d == colour_distance_sq(a, b),
{
    let dr: i32 = a.r as i32 - b.r as i32;
    let dg: i32 = a.g as i32 - b.g as i32;
    let db: i32 = a.b as i32 - b.b as i32;
    proof {
        assert(0 <= dr * dr <= 65025 && 0 <= dg * dg <= 65025 && 0 <= db * db <= 65025)
            by (nonlinear_arith)
            requires
                -255 <= dr <= 255,
                -255 <= dg <= 255,
                -255 <= db <= 255,
        ;
    }
    (dr * dr + dg * dg + db * db) as u32
}

/// The palette index the 16-colour transform picks for `c`.  The result is
/// a function of `c` alone: quantization is deterministic.
pub fn nearest16_index(c: Rgb24) -> (r: usize)
    ensures
        r == nearest16_index_spec(c),
        0 <= r < 16,
{
    let mut best: usize = 0;
    let mut best_d: u32 = distance_sq(c, palette_entry(0));
    let mut i: usize = 1;
    while i < 16
        invariant
            1 <= i <= 16,
            best == nearest16_upto(c, i as int),
            0 <= best < i,
            best_d == colour_distance_sq(c, palette16(best as int)),
        decreases 16 - i,
    {
        let d = distance_sq(c, palette_entry(i));
        if d < best_d {
            best = i;
            best_d = d;
        }
        i += 1;
    }
    proof {
        lemma_nearest16_upto_range(c, 16);
    }
    best
}

/// The nearest palette colour itself.
pub fn nearest16_colour(c: Rgb24) -> (r: Rgb24)
    ensures
        r == palette16(nearest16_index_spec(c)),
{
    palette_entry(nearest16_index(c))
}

/// The grey with the colour's luminance on every channel.
pub fn greyscale_colour(c: Rgb24) -> (r: Rgb24)
    ensures
        r == (Rgb24 {
            r: luminance_spec(c) as u8,
            g: luminance_spec(c) as u8,
            b: luminance_spec(c) as u8,
        }),
        r.r == luminance_spec(c),
{
    let l32: u32 = (299 * c.r as u32 + 587 * c.g as u32 + 114 * c.b as u32) / 1000;
    let l: u8 = l32 as u8;
    Rgb24 { r: l, g: l, b: l }
}

/// A capability-dependent colour mapping, applied to each cell's foreground
/// and background at the point closest to the sink.  `Identity` and
/// `TrueColour` pass 24-bit colours through; `Nearest16` quantizes to the
/// fixed palette; `Greyscale` keeps only luminance.
#[derive(Clone, Copy, PartialEq, Eq, Structural, Debug)]
pub enum ColModify {
    Identity,
    TrueColour,
    Nearest16,
    Greyscale,
}

/// What each transform maps a colour to; total on every input.
pub open spec fn modify_spec(m: ColModify, c: Rgb24) -> Rgb24 {
    match m {
        ColModify::Identity => c,
        ColModify::TrueColour => c,
        ColModify::Nearest16 => palette16(nearest16_index_spec(c)),
        ColModify::Greyscale => Rgb24 {
            r: luminance_spec(c) as u8,
            g: luminance_spec(c) as u8,
            b: luminance_spec(c) as u8,
        },
    }
}

impl ColModify {
    /// Apply the transform to one colour.
    pub fn modify(self, c: Rgb24) -> (r: Rgb24)
        ensures
            r == modify_spec(self, c),
    {
        match self {
            ColModify::Identity => c,
            ColModify::TrueColour => c,
            ColModify::Nearest16 => nearest16_colour(c),
            ColModify::Greyscale => greyscale_colour(c),
        }
    }
}

} // verus!
