//! Pictures as rows of pixels of four bytes each, and bytes as text.

use vstd::prelude::*;
use crate::text::push_char;

verus! {

/// Where the pixel at column `x` of row `y` begins in the bytes of a
/// picture that is `width` pixels wide.
pub open spec fn pixel_offset(width: u32, x: u32, y: u32) -> int {
    (y * width + x) * 4
}

/// The pixel at column `x` of row `y`, as red, green, blue and alpha,
/// where the bytes reach that far.
pub fn sample_pixel(data: &[u8], width: u32, x: u32, y: u32) -> (pixel: Option<(u8, u8, u8, u8)>)
    ensures
        match pixel {
            Some(p) => {
                let at = pixel_offset(width, x, y);
                &&& at + 3 < data@.len()
                &&& p == (data@[at], data@[at + 1], data@[at + 2], data@[at + 3])
            },
            None => pixel_offset(width, x, y) + 3 >= data@.len(),
        },
{
    proof {
        assert(y * width <= 0xffff_ffff * 0xffff_ffff) by (nonlinear_arith)
            requires
                0 <= y <= 0xffff_ffff,
                0 <= width <= 0xffff_ffff,
        ;
    }
    let row: u128 = y as u128 * width as u128;
    let at: u128 = (row + x as u128) * 4;
    proof {
        assert(at == pixel_offset(width, x, y)) by (nonlinear_arith)
            requires
                row == y * width,
                at == (row + x) * 4,
        ;
    }
    if at + 3 < data.len() as u128 {
        let i: usize = at as usize;
        Some((data[i], data[i + 1], data[i + 2], data[i + 3]))
    } else {
        None
    }
}

/// The character that stands for six bits in the standard alphabet:
/// capitals, small letters, digits, `+` and `/`.
pub open spec fn sextet_char(v: u8) -> char {
    if v < 26 {
        ((65 + v) as u8) as char
    } else if v < 52 {
        ((71 + v) as u8) as char
    } else if v < 62 {
        ((v - 4) as u8) as char
    } else if v == 62 {
        '+'
    } else {
        '/'
    }
}

/// The first six bits of three bytes.
pub open spec fn sextet_a(b0: u8) -> u8 {
    b0 >> 2
}

/// The second six bits of three bytes.
pub open spec fn sextet_b(b0: u8, b1: u8) -> u8 {
    ((b0 & 0x03) << 4) | (b1 >> 4)
}

/// The third six bits of three bytes.
pub open spec fn sextet_c(b1: u8, b2: u8) -> u8 {
    ((b1 & 0x0f) << 2) | (b2 >> 6)
}

/// The last six bits of three bytes.
pub open spec fn sextet_d(b2: u8) -> u8 {
    b2 & 0x3f
}

/// Bytes in base 64: four characters for each three bytes, and where
/// one or two bytes are left, four characters too, of which the last
/// two or the last are `=`.
pub open spec fn base64(data: Seq<u8>) -> Seq<char>
    decreases data.len(),
{
    if data.len() == 0 {
        Seq::empty()
    } else if data.len() == 1 {
        seq![sextet_char(sextet_a(data[0])), sextet_char(sextet_b(data[0], 0)), '=', '=']
    } else if data.len() == 2 {
        seq![
            sextet_char(sextet_a(data[0])),
            sextet_char(sextet_b(data[0], data[1])),
            sextet_char(sextet_c(data[1], 0)),
            '=',
        ]
    } else {
        seq![
            sextet_char(sextet_a(data[0])),
            sextet_char(sextet_b(data[0], data[1])),
            sextet_char(sextet_c(data[1], data[2])),
            sextet_char(sextet_d(data[2])),
        ] + base64(data.skip(3))
    }
}

fn alphabet(v: u8) -> (c: char)
    requires
        v < 64,
    ensures
        c == sextet_char(v),
{
    if v < 26 {
        (65 + v) as char
    } else if v < 52 {
        (71 + v) as char
    } else if v < 62 {
        (v - 4) as char
    } else if v == 62 {
        '+'
    } else {
        '/'
    }
}

proof fn lemma_sextets_fit(b0: u8, b1: u8, b2: u8)
    ensures
        sextet_a(b0) < 64,
        sextet_b(b0, b1) < 64,
        sextet_c(b1, b2) < 64,
        sextet_d(b2) < 64,
{
    assert(b0 >> 2 < 64) by (bit_vector);
    assert((((b0 & 0x03) << 4) | (b1 >> 4)) < 64) by (bit_vector);
    assert((((b1 & 0x0f) << 2) | (b2 >> 6)) < 64) by (bit_vector);
    assert(b2 & 0x3f < 64) by (bit_vector);
}

/// Writes bytes in base 64.
pub fn base64_encode(data: &[u8]) -> (text: String)
    ensures
        text@ == base64(data@),
{
    let mut text: String = String::new();
    let mut i: usize = 0;
    proof {
        assert(data@.skip(0) =~= data@);
        assert(text@ + base64(data@) =~= base64(data@));
    }
    while i < data.len()
        invariant
            i <= data.len(),
            text@ + base64(data@.skip(i as int)) == base64(data@),
        decreases data.len() - i,
    {
        let ghost rest = data@.skip(i as int);
        let ghost before = text@;
        let left: usize = data.len() - i;
        let b0: u8 = data[i];
        let b1: u8 = if left > 1 {
            data[i + 1]
        } else {
            0
        };
        let b2: u8 = if left > 2 {
            data[i + 2]
        } else {
            0
        };
        proof {
            lemma_sextets_fit(b0, b1, b2);
            assert(rest[0] == b0);
            if left > 1 {
                assert(rest[1] == b1);
            }
            if left > 2 {
                assert(rest[2] == b2);
                assert(rest.skip(3) =~= data@.skip(i as int + 3));
            }
        }
        push_char(&mut text, alphabet(b0 >> 2));
        push_char(&mut text, alphabet(((b0 & 0x03) << 4) | (b1 >> 4)));
        if left > 1 {
            push_char(&mut text, alphabet(((b1 & 0x0f) << 2) | (b2 >> 6)));
            if left > 2 {
                push_char(&mut text, alphabet(b2 & 0x3f));
            } else {
                push_char(&mut text, '=');
            }
        } else {
            push_char(&mut text, '=');
            push_char(&mut text, '=');
        }
        proof {
            if left > 2 {
                assert(text@ =~= before + seq![
                    sextet_char(sextet_a(b0)),
                    sextet_char(sextet_b(b0, b1)),
                    sextet_char(sextet_c(b1, b2)),
                    sextet_char(sextet_d(b2)),
                ]);
                assert(text@ + base64(data@.skip(i as int + 3)) =~= before + base64(rest));
            } else {
                assert(text@ =~= before + base64(rest));
                assert(base64(data@.skip(data@.len() as int)) =~= Seq::<char>::empty());
                assert(text@ + base64(data@.skip(data@.len() as int)) =~= before + base64(rest));
            }
        }
        if left > 2 {
            i += 3;
        } else {
            i = data.len();
        }
    }
    proof {
        assert(base64(data@.skip(data@.len() as int)) =~= Seq::<char>::empty());
        assert(text@ + Seq::<char>::empty() =~= text@);
    }
    text
}

} // verus!
