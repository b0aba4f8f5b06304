use vstd::prelude::*;

verus! {

/// One output pixel: red, green and blue, each in `0..=255`.
#[derive(Clone, Copy, Debug, PartialEq, Eq, Structural)]
pub struct Rgb {
    pub r: u8,
    pub g: u8,
    pub b: u8,
}

/// The ASCII digits of `n` in base ten, without leading zeros.
pub open spec fn decimal(n: nat) -> Seq<u8>
    decreases n,
{
    if n < 10 {
        seq![(48 + n) as u8]
    } else {
        decimal(n / 10).push((48 + n % 10) as u8)
    }
}

/// `P3`, the width and height separated by a space, and the largest
/// channel value `255`, each on a line of its own.
pub open spec fn header_bytes(width: nat, height: nat) -> Seq<u8> {
    seq![80u8, 51u8, 10u8] + decimal(width) + seq![32u8] + decimal(height) + seq![
        10u8,
        50u8,
        53u8,
        53u8,
        10u8,
    ]
}

/// The three channels of `p` in decimal, separated by spaces, ending a line.
pub open spec fn pixel_bytes(p: Rgb) -> Seq<u8> {
    decimal(p.r as nat) + seq![32u8] + decimal(p.g as nat) + seq![32u8] + decimal(p.b as nat)
        + seq![10u8]
}

/// One line per pixel, in the order of `pixels`.
pub open spec fn body_bytes(pixels: Seq<Rgb>) -> Seq<u8>
    decreases pixels.len(),
{
    if pixels.len() == 0 {
        Seq::empty()
    } else {
        body_bytes(pixels.drop_last()) + pixel_bytes(pixels.last())
    }
}

/// The whole image file: the header, then the pixels row by row.
pub open spec fn image_bytes(width: nat, height: nat, pixels: Seq<Rgb>) -> Seq<u8> {
    header_bytes(width, height) + body_bytes(pixels)
}

/// Where the `k`-th pixel of the output lies in the image: its column `i`
/// and its scanline `j`, scanlines counted from the bottom. The output
/// starts at the top scanline, `height - 1`, and counts down to `0`.
pub fn scan_position(width: u32, height: u32, k: u64) -> (r: (u32, u32))
    requires
        width > 0,
        k < width as int * height as int,
    ensures
        r.0 == k as int % (width as int),
        r.1 == height - 1 - k as int / (width as int),
{
    let w: u64 = width as u64;
    proof {
        assert(k as int / (width as int) < height) by (nonlinear_arith)
            requires
                width > 0,
                k < width as int * height as int,
        ;
    }
    let i: u32 = (k % w) as u32;
    let row: u32 = (k / w) as u32;
    (i, height - 1 - row)
}

/// Appends the decimal digits of `n` to `out`.
pub fn push_decimal(out: &mut Vec<u8>, n: u32)
    ensures
        final(out)@ == old(out)@ + decimal(n as nat),
    decreases n,
{
    if n >= 10 {
        push_decimal(out, n / 10);
    }
    out.push(48u8 + (n % 10) as u8);
    assert(final(out)@ =~= old(out)@ + decimal(n as nat));
}

/// Appends the header of an image of `width` by `height` pixels to `out`.
fn push_header(out: &mut Vec<u8>, width: u32, height: u32)
    ensures
        final(out)@ == old(out)@ + header_bytes(width as nat, height as nat),
{
    out.push(80u8);
    out.push(51u8);
    out.push(10u8);
    push_decimal(out, width);
    out.push(32u8);
    push_decimal(out, height);
    out.push(10u8);
    out.push(50u8);
    out.push(53u8);
    out.push(53u8);
    out.push(10u8);
    assert(final(out)@ =~= old(out)@ + header_bytes(width as nat, height as nat));
}

/// Appends the line of pixel `p` to `out`.
fn push_pixel(out: &mut Vec<u8>, p: Rgb)
    ensures
        final(out)@ == old(out)@ + pixel_bytes(p),
{
    push_decimal(out, p.r as u32);
    out.push(32u8);
    push_decimal(out, p.g as u32);
    out.push(32u8);
    push_decimal(out, p.b as u32);
    out.push(10u8);
    assert(final(out)@ =~= old(out)@ + pixel_bytes(p));
}

/// The header line block of an image of `width` by `height` pixels.
pub fn header(width: u32, height: u32) -> (r: Vec<u8>)
    ensures
        r@ == header_bytes(width as nat, height as nat),
{
    let mut out: Vec<u8> = Vec::new();
    push_header(&mut out, width, height);
    assert(out@ =~= header_bytes(width as nat, height as nat));
    out
}

/// The output line of one pixel.
pub fn pixel_line(p: Rgb) -> (r: Vec<u8>)
    ensures
        r@ == pixel_bytes(p),
{
    let mut out: Vec<u8> = Vec::new();
    push_pixel(&mut out, p);
    assert(out@ =~= pixel_bytes(p));
    out
}

/// The image file of `width` by `height` pixels, given in output order:
/// the top row first, each row from left to right.
pub fn encode(width: u32, height: u32, pixels: &[Rgb]) -> (r: Vec<u8>)
    requires
        pixels@.len() == width as int * height as int,
    ensures
        r@ == image_bytes(width as nat, height as nat, pixels@),
{
    let mut out: Vec<u8> = Vec::new();
    push_header(&mut out, width, height);
    let mut i: usize = 0;
    while i < pixels.len()
        invariant
            0 <= i <= pixels@.len(),
            out@ == header_bytes(width as nat, height as nat) + body_bytes(pixels@.take(i as int)),
        decreases pixels@.len() - i,
    {
        push_pixel(&mut out, pixels[i]);
        assert(pixels@.take(i + 1).drop_last() =~= pixels@.take(i as int));
        i += 1;
    }
    assert(pixels@.take(i as int) =~= pixels@);
    out
}

} // verus!
