//! The quantizer: from an RGB colour to the nearest entry of the 256-colour
//! palette, and from there to one of the sixteen named colours.

use crate::color::{AnsiColor, Rgb};
use vstd::prelude::*;

verus! {

/// Where the red part passes from one step of the colour cube to the next.
pub const RED_BREAKPOINTS: [u8; 5] = [49, 116, 156, 196, 236];

/// Where the green part passes from one step of the colour cube to the next.
pub const GREEN_BREAKPOINTS: [u8; 5] = [48, 116, 156, 196, 236];

/// Where the blue part passes from one step of the colour cube to the next.
pub const BLUE_BREAKPOINTS: [u8; 5] = [48, 116, 156, 196, 236];

/// The value that each of the six steps of the colour cube stands for.
pub const COLOR_INTERVALS: [u8; 6] = [0, 95, 135, 175, 215, 255];

/// For each index of the 256-colour palette the index of the named colour
/// that stands for it: the nearest of the sixteen in CIE LCh, lightness,
/// chroma and hue each taken on a scale from 0 to 1.
pub const ANSI_256_TO_16: [u8; 256] = [
    0, 1, 2, 3, 4, 5, 6, 7, 8, 9, 10, 11, 12, 13, 14, 15,
    0, 4, 4, 4, 12, 12, 2, 6, 6, 5, 5, 13, 2, 6, 6, 6,
    6, 5, 2, 3, 3, 6, 6, 14, 10, 11, 14, 14, 14, 14, 10, 11,
    11, 14, 14, 14, 1, 5, 5, 4, 12, 12, 3, 8, 6, 5, 5, 13,
    3, 6, 6, 6, 6, 5, 2, 3, 6, 6, 6, 14, 11, 2, 14, 14,
    14, 14, 10, 11, 11, 14, 14, 14, 1, 5, 5, 5, 13, 12, 3, 8,
    6, 5, 5, 13, 3, 8, 8, 6, 6, 5, 2, 3, 6, 7, 6, 14,
    11, 14, 14, 14, 14, 14, 10, 11, 11, 14, 14, 14, 1, 5, 5, 5,
    13, 13, 3, 3, 5, 5, 5, 13, 3, 3, 8, 6, 6, 5, 3, 3,
    7, 7, 6, 14, 11, 14, 14, 7, 7, 14, 11, 11, 14, 14, 14, 14,
    9, 1, 5, 5, 13, 13, 3, 3, 3, 5, 5, 13, 3, 3, 3, 6,
    5, 5, 3, 3, 7, 7, 6, 14, 11, 14, 14, 7, 7, 14, 11, 11,
    14, 14, 15, 15, 9, 9, 9, 13, 13, 13, 9, 3, 3, 5, 13, 13,
    9, 3, 3, 5, 5, 5, 11, 3, 3, 3, 14, 14, 11, 14, 14, 7,
    15, 14, 11, 11, 14, 14, 15, 15, 0, 0, 8, 8, 8, 8, 8, 8,
    8, 8, 8, 8, 8, 8, 8, 8, 7, 7, 7, 7, 7, 7, 15, 15,
];

/// The colours of the 256-colour palette as `0xRRGGBB`: the sixteen named
/// colours, the 6 x 6 x 6 colour cube, and a ramp of 24 grays.
pub const ANSI_256_TO_RGB: [u32; 256] = [
    0x000000, 0x800000, 0x008000, 0x808000, 0x000080, 0x800080, 0x008080, 0xc0c0c0,
    0x808080, 0xff0000, 0x00ff00, 0xffff00, 0x0000ff, 0xff00ff, 0x00ffff, 0xffffff,
    0x000000, 0x00005f, 0x000087, 0x0000af, 0x0000d7, 0x0000ff, 0x005f00, 0x005f5f,
    0x005f87, 0x005faf, 0x005fd7, 0x005fff, 0x008700, 0x00875f, 0x008787, 0x0087af,
    0x0087d7, 0x0087ff, 0x00af00, 0x00af5f, 0x00af87, 0x00afaf, 0x00afd7, 0x00afff,
    0x00d700, 0x00d75f, 0x00d787, 0x00d7af, 0x00d7d7, 0x00d7ff, 0x00ff00, 0x00ff5f,
    0x00ff87, 0x00ffaf, 0x00ffd7, 0x00ffff, 0x5f0000, 0x5f005f, 0x5f0087, 0x5f00af,
    0x5f00d7, 0x5f00ff, 0x5f5f00, 0x5f5f5f, 0x5f5f87, 0x5f5faf, 0x5f5fd7, 0x5f5fff,
    0x5f8700, 0x5f875f, 0x5f8787, 0x5f87af, 0x5f87d7, 0x5f87ff, 0x5faf00, 0x5faf5f,
    0x5faf87, 0x5fafaf, 0x5fafd7, 0x5fafff, 0x5fd700, 0x5fd75f, 0x5fd787, 0x5fd7af,
    0x5fd7d7, 0x5fd7ff, 0x5fff00, 0x5fff5f, 0x5fff87, 0x5fffaf, 0x5fffd7, 0x5fffff,
    0x870000, 0x87005f, 0x870087, 0x8700af, 0x8700d7, 0x8700ff, 0x875f00, 0x875f5f,
    0x875f87, 0x875faf, 0x875fd7, 0x875fff, 0x878700, 0x87875f, 0x878787, 0x8787af,
    0x8787d7, 0x8787ff, 0x87af00, 0x87af5f, 0x87af87, 0x87afaf, 0x87afd7, 0x87afff,
    0x87d700, 0x87d75f, 0x87d787, 0x87d7af, 0x87d7d7, 0x87d7ff, 0x87ff00, 0x87ff5f,
    0x87ff87, 0x87ffaf, 0x87ffd7, 0x87ffff, 0xaf0000, 0xaf005f, 0xaf0087, 0xaf00af,
    0xaf00d7, 0xaf00ff, 0xaf5f00, 0xaf5f5f, 0xaf5f87, 0xaf5faf, 0xaf5fd7, 0xaf5fff,
    0xaf8700, 0xaf875f, 0xaf8787, 0xaf87af, 0xaf87d7, 0xaf87ff, 0xafaf00, 0xafaf5f,
    0xafaf87, 0xafafaf, 0xafafd7, 0xafafff, 0xafd700, 0xafd75f, 0xafd787, 0xafd7af,
    0xafd7d7, 0xafd7ff, 0xafff00, 0xafff5f, 0xafff87, 0xafffaf, 0xafffd7, 0xafffff,
    0xd70000, 0xd7005f, 0xd70087, 0xd700af, 0xd700d7, 0xd700ff, 0xd75f00, 0xd75f5f,
    0xd75f87, 0xd75faf, 0xd75fd7, 0xd75fff, 0xd78700, 0xd7875f, 0xd78787, 0xd787af,
    0xd787d7, 0xd787ff, 0xd7af00, 0xd7af5f, 0xd7af87, 0xd7afaf, 0xd7afd7, 0xd7afff,
    0xd7d700, 0xd7d75f, 0xd7d787, 0xd7d7af, 0xd7d7d7, 0xd7d7ff, 0xd7ff00, 0xd7ff5f,
    0xd7ff87, 0xd7ffaf, 0xd7ffd7, 0xd7ffff, 0xff0000, 0xff005f, 0xff0087, 0xff00af,
    0xff00d7, 0xff00ff, 0xff5f00, 0xff5f5f, 0xff5f87, 0xff5faf, 0xff5fd7, 0xff5fff,
    0xff8700, 0xff875f, 0xff8787, 0xff87af, 0xff87d7, 0xff87ff, 0xffaf00, 0xffaf5f,
    0xffaf87, 0xffafaf, 0xffafd7, 0xffafff, 0xffd700, 0xffd75f, 0xffd787, 0xffd7af,
    0xffd7d7, 0xffd7ff, 0xffff00, 0xffff5f, 0xffff87, 0xffffaf, 0xffffd7, 0xffffff,
    0x080808, 0x121212, 0x1c1c1c, 0x262626, 0x303030, 0x3a3a3a, 0x444444, 0x4e4e4e,
    0x585858, 0x626262, 0x6c6c6c, 0x767676, 0x808080, 0x8a8a8a, 0x949494, 0x9e9e9e,
    0xa8a8a8, 0xb2b2b2, 0xbcbcbc, 0xc6c6c6, 0xd0d0d0, 0xdadada, 0xe4e4e4, 0xeeeeee,
];

/// The step that `value` falls on where the steps begin at `first`, 116, 156,
/// 196 and 236: the number of these that `value` has reached.
pub open spec fn cube_step(value: u8, first: int) -> int {
    if value < first {
        0
    } else if value < 116 {
        1
    } else if value < 156 {
        2
    } else if value < 196 {
        3
    } else if value < 236 {
        4
    } else {
        5
    }
}

/// The index in the colour cube of the steps `qr`, `qg` and `qb`.
pub open spec fn cube_index(qr: int, qg: int, qb: int) -> int {
    16 + 36 * qr + 6 * qg + qb
}

/// The step of the gray ramp, from 0 to 23, for a colour of these parts.
pub open spec fn gray_step(red: u8, green: u8, blue: u8) -> int {
    let average = (red + green + blue) / 3;
    if average > 238 {
        23
    } else if average < 3 {
        0
    } else {
        (average - 3) / 10
    }
}

/// The distance between two colours, squared: the differences of the parts,
/// red and blue weighted by the mean of the two reds.
pub open spec fn distance(a: Rgb, b: Rgb) -> int {
    let mean = (a.red + b.red) / 2;
    let red = a.red - b.red;
    let green = a.green - b.green;
    let blue = a.blue - b.blue;
    ((512 + mean) * (red * red)) / 256 + 4 * (green * green) + ((767 - mean) * (blue * blue))
        / 256
}

/// The colour of the cube that `color` falls on.
pub open spec fn cube_color(color: Rgb) -> Rgb {
    Rgb {
        red: COLOR_INTERVALS[cube_step(color.red, 49)],
        green: COLOR_INTERVALS[cube_step(color.green, 48)],
        blue: COLOR_INTERVALS[cube_step(color.blue, 48)],
    }
}

/// The gray of the ramp that `color` falls on.
pub open spec fn gray_color(color: Rgb) -> Rgb {
    let value = (8 + 10 * gray_step(color.red, color.green, color.blue)) as u8;
    Rgb { red: value, green: value, blue: value }
}

/// The index in the 256-colour palette that stands for `color`: that of its
/// colour in the cube where it is that colour exactly; else that of the nearer
/// of its colour in the cube and its gray of the ramp, the cube where both
/// are as near.
pub open spec fn quantized(color: Rgb) -> int {
    let cube = cube_index(
        cube_step(color.red, 49),
        cube_step(color.green, 48),
        cube_step(color.blue, 48),
    );
    if cube_color(color) == color {
        cube
    } else if distance(color, cube_color(color)) <= distance(color, gray_color(color)) {
        cube
    } else {
        232 + gray_step(color.red, color.green, color.blue)
    }
}

/// The position of the first of `breakpoints` that is above `val`; their
/// number where none is.
pub fn get_color_index<const N: usize>(val: u8, breakpoints: [u8; N]) -> (r: usize)
    ensures
        r <= N,
        forall|i: int| 0 <= i < r ==> breakpoints[i] <= val,
        r < N ==> val < breakpoints[r as int],
{
    let mut at: usize = 0;
    while at < N && val >= breakpoints[at]
        invariant
            at <= N,
            forall|i: int| 0 <= i < at ==> breakpoints[i] <= val,
        decreases N - at,
    {
        at += 1;
    }
    at
}

/// The step of the colour cube for the red part `val`.
pub fn red_color_index(val: u8) -> (r: usize)
    ensures
        r == cube_step(val, 49),
{
    get_color_index(val, RED_BREAKPOINTS)
}

/// The step of the colour cube for the green part `val`.
pub fn green_color_index(val: u8) -> (r: usize)
    ensures
        r == cube_step(val, 48),
{
    get_color_index(val, GREEN_BREAKPOINTS)
}

/// The step of the colour cube for the blue part `val`.
pub fn blue_color_index(val: u8) -> (r: usize)
    ensures
        r == cube_step(val, 48),
{
    get_color_index(val, BLUE_BREAKPOINTS)
}

/// The distance between two colours, squared.
pub fn distance_squared(a: Rgb, b: Rgb) -> (r: u32)
    ensures
        r == distance(a, b),
{
    let mean: i32 = (a.red as i32 + b.red as i32) / 2;
    let red: i32 = a.red as i32 - b.red as i32;
    let green: i32 = a.green as i32 - b.green as i32;
    let blue: i32 = a.blue as i32 - b.blue as i32;
    assert(0 <= red * red <= 65025) by (nonlinear_arith)
        requires
            -255 <= red <= 255,
    ;
    assert(0 <= green * green <= 65025) by (nonlinear_arith)
        requires
            -255 <= green <= 255,
    ;
    assert(0 <= blue * blue <= 65025) by (nonlinear_arith)
        requires
            -255 <= blue <= 255,
    ;
    let red2: i32 = red * red;
    let green2: i32 = green * green;
    let blue2: i32 = blue * blue;
    assert(0 <= (512 + mean) * red2 <= 767 * 65025) by (nonlinear_arith)
        requires
            0 <= mean <= 255,
            0 <= red2 <= 65025,
    ;
    assert(0 <= (767 - mean) * blue2 <= 767 * 65025) by (nonlinear_arith)
        requires
            0 <= mean <= 255,
            0 <= blue2 <= 65025,
    ;
    let total: i32 = ((512 + mean) * red2) / 256 + 4 * green2 + ((767 - mean) * blue2) / 256;
    total as u32
}

/// The index in the 256-colour palette that stands for `color`.
pub fn rgb_to_ansi256(color: Rgb) -> (r: u8)
    ensures
        r == quantized(color),
        r >= 16,
{
    let qr = red_color_index(color.red);
    let qg = green_color_index(color.green);
    let qb = blue_color_index(color.blue);
    let cr = COLOR_INTERVALS[qr];
    let cg = COLOR_INTERVALS[qg];
    let cb = COLOR_INTERVALS[qb];
    let color_index: u8 = (36 * qr + 6 * qg + qb + 16) as u8;
    if cr == color.red && cg == color.green && cb == color.blue {
        return color_index;
    }
    let average: u8 = ((color.red as u32 + color.green as u32 + color.blue as u32) / 3) as u8;
    let gray_index: u8 = if average > 238 {
        23
    } else if average < 3 {
        0
    } else {
        (average - 3) / 10
    };
    let gray_value: u8 = 8 + 10 * gray_index;
    let cube = Rgb { red: cr, green: cg, blue: cb };
    let gray = Rgb { red: gray_value, green: gray_value, blue: gray_value };
    let color_distance = distance_squared(color, cube);
    let gray_distance = distance_squared(color, gray);
    if color_distance <= gray_distance {
        color_index
    } else {
        232 + gray_index
    }
}

/// The named colour that stands for the palette index `index`.
pub open spec fn named(index: u8) -> AnsiColor {
    AnsiColor::at(ANSI_256_TO_16[index as int] as int)
}

/// The colour of the palette index `index`.
pub open spec fn palette_color(index: u8) -> Rgb {
    let packed = ANSI_256_TO_RGB[index as int];
    Rgb {
        red: ((packed / 65536) % 256) as u8,
        green: ((packed / 256) % 256) as u8,
        blue: (packed % 256) as u8,
    }
}

/// Every entry of the table of named colours is the index of one.
pub proof fn lemma_named_in_range()
    ensures
        forall|index: int| 0 <= index < 256 ==> #[trigger] ANSI_256_TO_16[index] < 16,
{
}

/// The named colour that stands for the palette index `ansi256_index`.
pub fn ansi256_to_ansi(ansi256_index: u8) -> (r: AnsiColor)
    ensures
        r == named(ansi256_index),
{
    let entry: u8 = ANSI_256_TO_16[ansi256_index as usize];
    proof {
        lemma_named_in_range();
    }
    match AnsiColor::from_index(entry) {
        Some(color) => color,
        None => vstd::pervasive::unreached(),
    }
}

/// The colour of the palette index `index`.
pub fn ansi256_to_rgb(index: u8) -> (r: Rgb)
    ensures
        r == palette_color(index),
{
    let packed: u32 = ANSI_256_TO_RGB[index as usize];
    Rgb {
        red: ((packed / 65536) % 256) as u8,
        green: ((packed / 256) % 256) as u8,
        blue: (packed % 256) as u8,
    }
}

/// The named colours stand for themselves: the first sixteen entries of the
/// table of named colours are their own indices.
pub proof fn lemma_named_fixed(index: u8)
    requires
        index < 16,
    ensures
        named(index) == AnsiColor::at(index as int),
{
}

/// The colour of the cube at position `at`, counted from the first, as
/// `0xRRGGBB`.
spec fn packed_cube(at: int) -> int {
    COLOR_INTERVALS[at / 36] * 65536 + COLOR_INTERVALS[(at / 6) % 6] * 256 + COLOR_INTERVALS[at % 6]
}

proof fn lemma_cube_row_0()
    ensures
        forall|index: int|
            16 <= index < 52 ==> #[trigger] ANSI_256_TO_RGB[index] == packed_cube(index - 16),
{
}

proof fn lemma_cube_row_1()
    ensures
        forall|index: int|
            52 <= index < 88 ==> #[trigger] ANSI_256_TO_RGB[index] == packed_cube(index - 16),
{
}

proof fn lemma_cube_row_2()
    ensures
        forall|index: int|
            88 <= index < 124 ==> #[trigger] ANSI_256_TO_RGB[index] == packed_cube(index - 16),
{
}

proof fn lemma_cube_row_3()
    ensures
        forall|index: int|
            124 <= index < 160 ==> #[trigger] ANSI_256_TO_RGB[index] == packed_cube(index - 16),
{
}

proof fn lemma_cube_row_4()
    ensures
        forall|index: int|
            160 <= index < 196 ==> #[trigger] ANSI_256_TO_RGB[index] == packed_cube(index - 16),
{
}

proof fn lemma_cube_row_5()
    ensures
        forall|index: int|
            196 <= index < 232 ==> #[trigger] ANSI_256_TO_RGB[index] == packed_cube(index - 16),
{
}

proof fn lemma_ramp_row()
    ensures
        forall|index: int|
            232 <= index < 256 ==> #[trigger] ANSI_256_TO_RGB[index] == (8 + 10 * (index - 232))
                * 65793,
{
}

proof fn lemma_cube_entry(at: int)
    requires
        0 <= at < 216,
    ensures
        ANSI_256_TO_RGB[16 + at] == packed_cube(at),
{
    if at < 36 {
        lemma_cube_row_0();
    } else if at < 72 {
        lemma_cube_row_1();
    } else if at < 108 {
        lemma_cube_row_2();
    } else if at < 144 {
        lemma_cube_row_3();
    } else if at < 180 {
        lemma_cube_row_4();
    } else {
        lemma_cube_row_5();
    }
}

proof fn lemma_ramp_entry(step: int)
    requires
        0 <= step < 24,
    ensures
        ANSI_256_TO_RGB[232 + step] == (8 + 10 * step) * 65793,
{
    lemma_ramp_row();
}

proof fn lemma_unpack(red: int, green: int, blue: int)
    requires
        0 <= red < 256,
        0 <= green < 256,
        0 <= blue < 256,
    ensures
        ((red * 65536 + green * 256 + blue) / 65536) % 256 == red,
        ((red * 65536 + green * 256 + blue) / 256) % 256 == green,
        (red * 65536 + green * 256 + blue) % 256 == blue,
{
    let packed = red * 65536 + green * 256 + blue;
    vstd::arithmetic::div_mod::lemma_fundamental_div_mod_converse(
        packed,
        65536,
        red,
        green * 256 + blue,
    );
    vstd::arithmetic::div_mod::lemma_fundamental_div_mod_converse(
        packed,
        256,
        red * 256 + green,
        blue,
    );
    vstd::arithmetic::div_mod::lemma_fundamental_div_mod_converse(red, 256, 0, red);
    vstd::arithmetic::div_mod::lemma_fundamental_div_mod_converse(
        red * 256 + green,
        256,
        red,
        green,
    );
}

proof fn lemma_cube_parts(qr: int, qg: int, qb: int)
    requires
        0 <= qr < 6,
        0 <= qg < 6,
        0 <= qb < 6,
    ensures
        (36 * qr + 6 * qg + qb) / 36 == qr,
        ((36 * qr + 6 * qg + qb) / 6) % 6 == qg,
        (36 * qr + 6 * qg + qb) % 6 == qb,
{
    let at = 36 * qr + 6 * qg + qb;
    vstd::arithmetic::div_mod::lemma_fundamental_div_mod_converse(at, 36, qr, 6 * qg + qb);
    vstd::arithmetic::div_mod::lemma_fundamental_div_mod_converse(at, 6, 6 * qr + qg, qb);
    vstd::arithmetic::div_mod::lemma_fundamental_div_mod_converse(6 * qr + qg, 6, qr, qg);
}

proof fn lemma_levels(q: int)
    requires
        0 <= q < 6,
    ensures
        COLOR_INTERVALS[q] == (if q == 0 {
            0int
        } else {
            55 + 40 * q
        }),
        cube_step(COLOR_INTERVALS[q], 49) == q,
        cube_step(COLOR_INTERVALS[q], 48) == q,
{
}

/// The palette holds the colour cube from index 16 on: the colour of the
/// steps `qr`, `qg` and `qb` stands at their index in the cube.
pub proof fn lemma_palette_cube(qr: int, qg: int, qb: int)
    requires
        0 <= qr < 6,
        0 <= qg < 6,
        0 <= qb < 6,
    ensures
        palette_color(cube_index(qr, qg, qb) as u8) == (Rgb {
            red: COLOR_INTERVALS[qr],
            green: COLOR_INTERVALS[qg],
            blue: COLOR_INTERVALS[qb],
        }),
{
    let at = 36 * qr + 6 * qg + qb;
    lemma_cube_parts(qr, qg, qb);
    lemma_cube_entry(at);
    lemma_levels(qr);
    lemma_levels(qg);
    lemma_levels(qb);
    lemma_unpack(
        COLOR_INTERVALS[qr] as int,
        COLOR_INTERVALS[qg] as int,
        COLOR_INTERVALS[qb] as int,
    );
}

/// The palette holds the ramp of grays from index 232 on: step `step` is the
/// gray of the value `8 + 10 * step`.
pub proof fn lemma_palette_ramp(step: int)
    requires
        0 <= step < 24,
    ensures
        palette_color((232 + step) as u8) == (Rgb {
            red: (8 + 10 * step) as u8,
            green: (8 + 10 * step) as u8,
            blue: (8 + 10 * step) as u8,
        }),
{
    lemma_ramp_entry(step);
    lemma_unpack(8 + 10 * step, 8 + 10 * step, 8 + 10 * step);
}

proof fn lemma_distance_to_self(color: Rgb)
    ensures
        distance(color, color) == 0,
{
    let mean = (color.red + color.red) / 2;
    let red = color.red - color.red;
    let green = color.green - color.green;
    let blue = color.blue - color.blue;
    assert(red * red == 0 && green * green == 0 && blue * blue == 0);
    assert((512 + mean) * (red * red) == 0) by (nonlinear_arith)
        requires
            red * red == 0,
    ;
    assert((767 - mean) * (blue * blue) == 0) by (nonlinear_arith)
        requires
            blue * blue == 0,
    ;
}

proof fn lemma_distance_apart(a: Rgb, b: Rgb)
    requires
        a.green != b.green,
    ensures
        distance(a, b) >= 4,
{
    let green = a.green - b.green;
    let red = a.red - b.red;
    let blue = a.blue - b.blue;
    let mean = (a.red + b.red) / 2;
    assert(green * green >= 1) by (nonlinear_arith)
        requires
            green != 0,
    ;
    assert((512 + mean) * (red * red) >= 0) by (nonlinear_arith)
        requires
            mean >= 0,
    ;
    assert((767 - mean) * (blue * blue) >= 0) by (nonlinear_arith)
        requires
            mean <= 255,
    ;
}

proof fn lemma_gray_is_no_cube_colour(step: int)
    requires
        0 <= step < 24,
    ensures
        COLOR_INTERVALS[cube_step((8 + 10 * step) as u8, 48)] != 8 + 10 * step,
        gray_step((8 + 10 * step) as u8, (8 + 10 * step) as u8, (8 + 10 * step) as u8) == step,
{
}

proof fn lemma_cube_round_trip(qr: int, qg: int, qb: int)
    requires
        0 <= qr < 6,
        0 <= qg < 6,
        0 <= qb < 6,
    ensures
        quantized(palette_color(cube_index(qr, qg, qb) as u8)) == cube_index(qr, qg, qb),
{
    lemma_palette_cube(qr, qg, qb);
    lemma_levels(qr);
    lemma_levels(qg);
    lemma_levels(qb);
    let color = palette_color(cube_index(qr, qg, qb) as u8);
    assert(cube_step(color.red, 49) == qr);
    assert(cube_step(color.green, 48) == qg);
    assert(cube_step(color.blue, 48) == qb);
    assert(cube_color(color) == color);
}

proof fn lemma_ramp_round_trip(step: int)
    requires
        0 <= step < 24,
    ensures
        quantized(palette_color((232 + step) as u8)) == 232 + step,
{
    lemma_palette_ramp(step);
    lemma_gray_is_no_cube_colour(step);
    let color = palette_color((232 + step) as u8);
    assert(gray_step(color.red, color.green, color.blue) == step);
    assert(gray_color(color) == color);
    assert(cube_color(color).green != color.green);
    lemma_distance_to_self(color);
    lemma_distance_apart(color, cube_color(color));
}

/// The quantizer and the palette agree: every colour of the palette from
/// index 16 on, the cube and the ramp, is quantized to its own index.
pub proof fn lemma_palette_round_trip(index: u8)
    requires
        index >= 16,
    ensures
        quantized(palette_color(index)) == index,
{
    if index < 232 {
        let at = index - 16;
        let qr = at / 36;
        let qg = (at / 6) % 6;
        let qb = at % 6;
        vstd::arithmetic::div_mod::lemma_fundamental_div_mod(at, 6);
        vstd::arithmetic::div_mod::lemma_fundamental_div_mod(at / 6, 6);
        assert(0 <= qr < 6 && 0 <= qg < 6 && 0 <= qb < 6);
        assert(36 * qr + 6 * qg + qb == at);
        lemma_cube_round_trip(qr, qg, qb);
    } else {
        lemma_ramp_round_trip(index - 232);
    }
}

} // verus!
