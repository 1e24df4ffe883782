//! Pictures as sixel text: a palette of the colours of the picture, and
//! then, for each band of six rows and each colour, one character for
//! each column that says which of the six pixels have that colour.

use vstd::prelude::*;
use crate::text::{decimal, push_char, render_u64};

verus! {

/// A colour as red, green and blue.
pub type Rgb = (u8, u8, u8);

/// The colour of the pixel at place `k` of the picture.
pub open spec fn pixel_rgb(data: Seq<u8>, k: int) -> Rgb {
    (data[4 * k], data[4 * k + 1], data[4 * k + 2])
}

/// Whether the pixel at place `k` is opaque enough to be drawn.
pub open spec fn pixel_opaque(data: Seq<u8>, k: int) -> bool {
    data[4 * k + 3] >= 128
}

/// The colours of the first `k` pixels that are drawn, each once, in
/// the order in which they first occur, and no more than 256 of them.
pub open spec fn palette_of(data: Seq<u8>, k: int) -> Seq<Rgb>
    decreases k,
{
    if k <= 0 {
        Seq::empty()
    } else {
        let before = palette_of(data, k - 1);
        if pixel_opaque(data, k - 1) && !before.contains(pixel_rgb(data, k - 1)) && before.len()
            < 256 {
            before.push(pixel_rgb(data, k - 1))
        } else {
            before
        }
    }
}

/// A colour value of 0 to 255 as a percentage.
pub open spec fn percent(v: u8) -> nat {
    ((v * 100) / 255) as nat
}

/// The text that defines a colour of the palette.
pub open spec fn color_def(index: nat, color: Rgb) -> Seq<char> {
    "#"@ + decimal(index) + ";2;"@ + decimal(percent(color.0)) + ";"@ + decimal(percent(color.1))
        + ";"@ + decimal(percent(color.2))
}

/// The text that defines the first `n` colours of a palette.
pub open spec fn color_defs(palette: Seq<Rgb>, n: int) -> Seq<char>
    decreases n,
{
    if n <= 0 {
        Seq::empty()
    } else {
        color_defs(palette, n - 1) + color_def((n - 1) as nat, palette[n - 1])
    }
}

/// Whether the pixel at column `x` of row `py` is drawn in `color`.
pub open spec fn lit(data: Seq<u8>, width: u32, height: u32, color: Rgb, x: int, py: int) -> bool {
    let k = py * width + x;
    &&& py < height
    &&& 4 * k + 3 < data.len()
    &&& pixel_rgb(data, k) == color
    &&& pixel_opaque(data, k)
}

/// What a pixel that is drawn adds to the number of its column, by its
/// place among the six rows of the band.
pub open spec fn weight(dy: int) -> nat {
    if dy == 0 {
        1
    } else if dy == 1 {
        2
    } else if dy == 2 {
        4
    } else if dy == 3 {
        8
    } else if dy == 4 {
        16
    } else {
        32
    }
}

/// The number of a column in a band that begins at row `y`, over the
/// first `rows` rows of the band.
pub open spec fn sixel_value(
    data: Seq<u8>,
    width: u32,
    height: u32,
    color: Rgb,
    x: int,
    y: int,
    rows: int,
) -> nat
    decreases rows,
{
    if rows <= 0 {
        0
    } else {
        sixel_value(data, width, height, color, x, y, rows - 1) + if lit(
            data,
            width,
            height,
            color,
            x,
            y + rows - 1,
        ) {
            weight(rows - 1)
        } else {
            0nat
        }
    }
}

/// The character of a column: its number and 63.
pub open spec fn sixel_char(value: nat) -> char {
    ((value + 63) as u8) as char
}

/// The characters of the first `n` columns of a colour in a band.
pub open spec fn columns(data: Seq<u8>, width: u32, height: u32, color: Rgb, y: int, n: int) -> Seq<
    char,
> {
    Seq::new(n as nat, |x: int| sixel_char(sixel_value(data, width, height, color, x, y, 6)))
}

/// The text of one colour in one band: the colour's number, its
/// columns, and the sign that returns to the start of the band.
pub open spec fn color_row(data: Seq<u8>, width: u32, height: u32, index: nat, color: Rgb, y: int) -> Seq<
    char,
> {
    "#"@ + decimal(index) + columns(data, width, height, color, y, width as int) + "$"@
}

/// The text of the first `n` colours in one band.
pub open spec fn band(data: Seq<u8>, width: u32, height: u32, palette: Seq<Rgb>, y: int, n: int) -> Seq<
    char,
>
    decreases n,
{
    if n <= 0 {
        Seq::empty()
    } else {
        band(data, width, height, palette, y, n - 1) + color_row(
            data,
            width,
            height,
            (n - 1) as nat,
            palette[n - 1],
            y,
        )
    }
}

/// The text of the first `n` bands, each with the sign that goes on to
/// the next band.
pub open spec fn bands(data: Seq<u8>, width: u32, height: u32, palette: Seq<Rgb>, n: int) -> Seq<
    char,
>
    decreases n,
{
    if n <= 0 {
        Seq::empty()
    } else {
        bands(data, width, height, palette, n - 1) + band(
            data,
            width,
            height,
            palette,
            6 * (n - 1),
            palette.len() as int,
        ) + "-"@
    }
}

/// A picture of `width` by `height` pixels of four bytes each as sixel
/// text: the palette, then the bands of six rows.
pub open spec fn sixel_text(data: Seq<u8>, width: u32, height: u32) -> Seq<char> {
    let palette = palette_of(data, data.len() as int / 4);
    color_defs(palette, palette.len() as int) + bands(
        data,
        width,
        height,
        palette,
        (height + 5) / 6,
    )
}

fn has_color(palette: &Vec<Rgb>, color: Rgb) -> (found: bool)
    ensures
        found == palette@.contains(color),
{
    let mut i: usize = 0;
    while i < palette.len()
        invariant
            i <= palette.len(),
            forall|j: int| 0 <= j < i ==> palette@[j] != color,
        decreases palette.len() - i,
    {
        let c: Rgb = palette[i];
        if c.0 == color.0 && c.1 == color.1 && c.2 == color.2 {
            return true;
        }
        i += 1;
    }
    false
}

/// The palette of a picture.
pub fn palette(data: &[u8]) -> (colors: Vec<Rgb>)
    ensures
        colors@ == palette_of(data@, data@.len() as int / 4),
        colors@.len() <= 256,
{
    let len: usize = data.len();
    let n: usize = len / 4;
    let mut colors: Vec<Rgb> = Vec::new();
    let mut k: usize = 0;
    while k < n
        invariant
            len == data@.len(),
            n == len / 4,
            k <= n,
            colors@ == palette_of(data@, k as int),
            colors@.len() <= 256,
        decreases n - k,
    {
        assert(4 * k + 3 < data@.len());
        let color: Rgb = (data[4 * k], data[4 * k + 1], data[4 * k + 2]);
        let alpha: u8 = data[4 * k + 3];
        if alpha >= 128 && !has_color(&colors, color) && colors.len() < 256 {
            colors.push(color);
        }
        k += 1;
    }
    colors
}

fn is_lit(data: &[u8], width: u32, height: u32, color: Rgb, x: u32, py: u64) -> (drawn: bool)
    requires
        x < width,
    ensures
        drawn == lit(data@, width, height, color, x as int, py as int),
{
    if py >= height as u64 {
        return false;
    }
    proof {
        assert(py * width <= 0xffff_ffff * 0xffff_ffff) by (nonlinear_arith)
            requires
                0 <= py <= 0xffff_ffff,
                0 <= width <= 0xffff_ffff,
        ;
    }
    let k: u128 = py as u128 * width as u128 + x as u128;
    let at: u128 = 4 * k;
    if at + 3 >= data.len() as u128 {
        return false;
    }
    let i: usize = at as usize;
    data[i] == color.0 && data[i + 1] == color.1 && data[i + 2] == color.2 && data[i + 3] >= 128
}

fn sixel_at(data: &[u8], width: u32, height: u32, color: Rgb, x: u32, y: u64) -> (value: u8)
    requires
        x < width,
        y + 6 <= u64::MAX,
    ensures
        value == sixel_value(data@, width, height, color, x as int, y as int, 6),
        value <= 63,
{
    let mut value: u8 = 0;
    proof {
        reveal_with_fuel(sixel_value, 7);
    }
    if is_lit(data, width, height, color, x, y) {
        value = value + 1;
    }
    if is_lit(data, width, height, color, x, y + 1) {
        value = value + 2;
    }
    if is_lit(data, width, height, color, x, y + 2) {
        value = value + 4;
    }
    if is_lit(data, width, height, color, x, y + 3) {
        value = value + 8;
    }
    if is_lit(data, width, height, color, x, y + 4) {
        value = value + 16;
    }
    if is_lit(data, width, height, color, x, y + 5) {
        value = value + 32;
    }
    value
}

fn push_number(text: &mut String, n: u64)
    ensures
        final(text)@ == old(text)@ + decimal(n as nat),
{
    let digits: String = render_u64(n);
    text.append(digits.as_str());
}

fn push_color_def(text: &mut String, index: usize, color: Rgb)
    ensures
        final(text)@ == old(text)@ + color_def(index as nat, color),
{
    let r: u64 = (color.0 as u64 * 100) / 255;
    let g: u64 = (color.1 as u64 * 100) / 255;
    let b: u64 = (color.2 as u64 * 100) / 255;
    text.append("#");
    push_number(text, index as u64);
    text.append(";2;");
    push_number(text, r);
    text.append(";");
    push_number(text, g);
    text.append(";");
    push_number(text, b);
    proof {
        assert(text@ =~= old(text)@ + color_def(index as nat, color));
    }
}

fn push_color_row(
    text: &mut String,
    data: &[u8],
    width: u32,
    height: u32,
    index: usize,
    color: Rgb,
    y: u64,
)
    requires
        y + 6 <= u64::MAX,
    ensures
        final(text)@ == old(text)@ + color_row(
            data@,
            width,
            height,
            index as nat,
            color,
            y as int,
        ),
{
    text.append("#");
    push_number(text, index as u64);
    let ghost head = text@;
    let mut x: u32 = 0;
    proof {
        assert(text@ =~= head + columns(data@, width, height, color, y as int, 0));
    }
    while x < width
        invariant
            x <= width,
            y + 6 <= u64::MAX,
            text@ == head + columns(data@, width, height, color, y as int, x as int),
        decreases width - x,
    {
        let value: u8 = sixel_at(data, width, height, color, x, y);
        push_char(text, (value + 63) as char);
        proof {
            assert(text@ =~= head + columns(data@, width, height, color, y as int, x as int + 1));
        }
        x += 1;
    }
    text.append("$");
    proof {
        assert(text@ =~= old(text)@ + color_row(
            data@,
            width,
            height,
            index as nat,
            color,
            y as int,
        ));
    }
}

/// Writes a picture of `width` by `height` pixels, of four bytes each
/// for red, green, blue and alpha, as sixel text.
pub fn encode_sixel_rgba(data: &[u8], width: u32, height: u32) -> (text: String)
    ensures
        text@ == sixel_text(data@, width, height),
{
    let colors: Vec<Rgb> = palette(data);
    let mut text: String = String::new();
    let mut i: usize = 0;
    proof {
        assert(text@ =~= color_defs(colors@, 0));
    }
    while i < colors.len()
        invariant
            i <= colors.len(),
            text@ == color_defs(colors@, i as int),
        decreases colors.len() - i,
    {
        push_color_def(&mut text, i, colors[i]);
        i += 1;
    }
    let ghost defs = text@;
    let count: u64 = (height as u64 + 5) / 6;
    let mut b: u64 = 0;
    proof {
        assert(text@ =~= defs + bands(data@, width, height, colors@, 0));
    }
    while b < count
        invariant
            b <= count,
            count == (height + 5) / 6,
            text@ == defs + bands(data@, width, height, colors@, b as int),
        decreases count - b,
    {
        let y: u64 = 6 * b;
        let ghost before = text@;
        let mut c: usize = 0;
        proof {
            assert(text@ =~= before + band(data@, width, height, colors@, y as int, 0));
        }
        while c < colors.len()
            invariant
                c <= colors.len(),
                y + 6 <= u64::MAX,
                text@ == before + band(data@, width, height, colors@, y as int, c as int),
            decreases colors.len() - c,
        {
            push_color_row(&mut text, data, width, height, c, colors[c], y);
            proof {
                assert(text@ =~= before + band(
                    data@,
                    width,
                    height,
                    colors@,
                    y as int,
                    c as int + 1,
                ));
            }
            c += 1;
        }
        text.append("-");
        proof {
            assert(text@ =~= defs + bands(data@, width, height, colors@, b as int + 1));
        }
        b += 1;
    }
    text
}

} // verus!
