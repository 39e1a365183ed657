use vstd::prelude::*;

verus! {

/// ASCII code of the digit `d` (for `d < 10`).
pub open spec fn digit_byte(d: nat) -> u8 {
    (d + 48) as u8
}

/// The decimal text of `n`, most significant digit first, without leading zeros.
pub open spec fn decimal(n: nat) -> Seq<u8>
    decreases n,
{
    if n < 10 {
        seq![digit_byte(n)]
    } else {
        decimal(n / 10).push(digit_byte(n % 10))
    }
}

/// Appends the decimal text of `n` to `out`.
pub fn push_decimal(out: &mut Vec<u8>, n: u64)
    ensures
        final(out)@ == old(out)@ + decimal(n as nat),
    decreases n,
{
    if n >= 10 {
        push_decimal(out, n / 10);
    }
    let d: u8 = (n % 10) as u8;
    out.push(d + 48);
}

/// Largest channel value of the image; written in the header.
pub const RGB_MAXIMUM_VALUE: u64 = 255;

/// Header of a plain pixel map: magic `P3`, then width and height, then the
/// largest channel value, each on a line of its own.
pub open spec fn header_text(width: nat, height: nat) -> Seq<u8> {
    seq![80u8, 51u8, 10u8] + decimal(width) + seq![32u8] + decimal(height) + seq![10u8]
        + decimal(RGB_MAXIMUM_VALUE as nat) + seq![10u8]
}

/// One pixel of a plain pixel map: its three channels separated by spaces, on a line.
pub open spec fn color_text(red: nat, green: nat, blue: nat) -> Seq<u8> {
    decimal(red) + seq![32u8] + decimal(green) + seq![32u8] + decimal(blue) + seq![10u8]
}

/// The header of a plain (`P3`) pixel map of `image_width` by `image_height` pixels.
pub fn ppm_header(image_width: u16, image_height: u16) -> (r: Vec<u8>)
    ensures
        r@ == header_text(image_width as nat, image_height as nat),
{
    let mut out: Vec<u8> = Vec::new();
    out.push(80);
    out.push(51);
    out.push(10);
    push_decimal(&mut out, image_width as u64);
    out.push(32);
    push_decimal(&mut out, image_height as u64);
    out.push(10);
    push_decimal(&mut out, RGB_MAXIMUM_VALUE);
    out.push(10);
    proof {
        assert(out@ =~= header_text(image_width as nat, image_height as nat));
    }
    out
}

/// The line of a plain pixel map that holds one pixel of the given channel values.
pub fn ppm_color(red: u16, green: u16, blue: u16) -> (r: Vec<u8>)
    ensures
        r@ == color_text(red as nat, green as nat, blue as nat),
{
    let mut out: Vec<u8> = Vec::new();
    push_decimal(&mut out, red as u64);
    out.push(32);
    push_decimal(&mut out, green as u64);
    out.push(32);
    push_decimal(&mut out, blue as u64);
    out.push(10);
    proof {
        assert(out@ =~= color_text(red as nat, green as nat, blue as nat));
    }
    out
}

} // verus!
