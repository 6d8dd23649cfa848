//! Cover images and durations: JPEG covers decoded to RGBA, the placeholder
//! cover, and `m:ss` labels.

use crate::text::string_from_chars;
use vstd::prelude::*;

verus! {

// ---------------------------------------------------------------------------
// Durations
// ---------------------------------------------------------------------------

/// The ASCII digit of a value below ten.
pub open spec fn digit_char(d: int) -> char {
    ((48 + d) as u32) as char
}

/// The decimal notation of `n`, without leading zeros.
pub open spec fn decimal(n: nat) -> Seq<char>
    decreases n,
{
    if n < 10 {
        seq![digit_char(n as int)]
    } else {
        decimal(n / 10) + seq![digit_char((n % 10) as int)]
    }
}

/// `m:ss` for a number of seconds, e.g. 83 -> `1:23`.
pub open spec fn mss(secs: nat) -> Seq<char> {
    decimal(secs / 60) + seq![':', digit_char(((secs % 60) / 10) as int), digit_char((secs % 10) as int)]
}

fn digit_of(d: u64) -> (c: char)
    requires
        d < 10,
    ensures
        c == digit_char(d as int),
{
    let c: char = match d {
        0 => '0',
        1 => '1',
        2 => '2',
        3 => '3',
        4 => '4',
        5 => '5',
        6 => '6',
        7 => '7',
        8 => '8',
        _ => '9',
    };
    c
}

/// Append the decimal notation of `n` to `out`.
pub fn push_decimal(out: &mut Vec<char>, n: u64)
    ensures
        final(out)@ == old(out)@ + decimal(n as nat),
    decreases n,
{
    if n >= 10 {
        push_decimal(out, n / 10);
        out.push(digit_of(n % 10));
        assert(final(out)@ =~= old(out)@ + decimal(n as nat));
    } else {
        out.push(digit_of(n));
        assert(final(out)@ =~= old(out)@ + decimal(n as nat));
    }
}

/// Format whole seconds as `m:ss` (e.g. 83 -> `1:23`).
pub fn fmt_duration_secs(secs: u64) -> (s: String)
    ensures
        s@ == mss(secs as nat),
{
    let mut out: Vec<char> = Vec::new();
    push_decimal(&mut out, secs / 60);
    out.push(':');
    out.push(digit_of((secs % 60) / 10));
    out.push(digit_of(secs % 10));
    assert(out@ =~= mss(secs as nat)) by {
        assert((secs as nat % 60) % 10 == secs as nat % 10);
    }
    string_from_chars(out.as_slice())
}

// ---------------------------------------------------------------------------
// Covers
// ---------------------------------------------------------------------------

/// What `jpeg_decoder::Decoder::decode` yields for a JPEG payload: the pixel
/// bytes with the image width and height from `info()`, or `None` when the
/// payload does not decode.
pub uninterp spec fn jpeg_decode(data: Seq<u8>) -> Option<(Seq<u8>, u16, u16)>;

/// `jpeg_decoder::Decoder::new(bytes)`, `decode()` then `info()`: the decoded
/// pixels with the image size, `None` when decoding fails. The `panic!` arms
/// of `info()` and of the colour conversion are for frames whose precision
/// is outside 2 to 16 bits or whose component count is not 1, 3 or 4; the
/// decoder (`decode_internal`, decoder.rs:363-374, in jpeg-decoder 0.3.2)
/// returns an error for such a frame before keeping it, and `info()` is only
/// called after `decode()` succeeded, so those arms are not reached.
#[verifier::external_body]
fn decode_jpeg(bytes: &[u8]) -> (r: Option<(Vec<u8>, u16, u16)>)
    ensures
        r is None <==> jpeg_decode(bytes@) is None,
        r matches Some(t) ==> jpeg_decode(bytes@) == Some((t.0@, t.1, t.2)),
{
    let mut dec = jpeg_decoder::Decoder::new(bytes);
    let pixels = dec.decode().ok()?;
    let info = dec.info()?;
    Some((pixels, info.width, info.height))
}

/// RGBA bytes from RGB pixels: each pixel's three bytes, then an opaque
/// alpha of 255.
pub open spec fn rgba_of(pixels: Seq<u8>, count: int) -> Seq<u8> {
    Seq::new((4 * count) as nat, |i: int| if i % 4 == 3 { 255u8 } else { pixels[3 * (i / 4) + i % 4] })
}

/// The first `width * height` RGB pixels as RGBA, `None` when there are
/// fewer pixel bytes than that.
pub fn rgb_to_rgba(pixels: &[u8], width: u16, height: u16) -> (r: Option<Vec<u8>>)
    ensures
        match r {
            Some(v) => pixels@.len() >= 3 * (width * height) && v@ == rgba_of(pixels@, width * height),
            None => pixels@.len() < 3 * (width * height),
        },
{
    assert((width as u64) * (height as u64) <= 65535 * 65535) by (nonlinear_arith)
        requires
            width <= 65535,
            height <= 65535,
    ;
    let count: u64 = width as u64 * height as u64;
    if (pixels.len() as u64) < count * 3 {
        return None;
    }
    let count = count as usize;
    let mut rgba: Vec<u8> = Vec::new();
    for p in 0..count
        invariant
            count == width * height,
            3 * count <= pixels@.len(),
            pixels@.len() == pixels.len(),
            rgba@.len() == 4 * p,
            forall|i: int| 0 <= i < 4 * p ==> rgba@[i] == #[trigger] rgba_of(pixels@, count as int)[i],
    {
        rgba.push(pixels[3 * p]);
        rgba.push(pixels[3 * p + 1]);
        rgba.push(pixels[3 * p + 2]);
        rgba.push(255);
    }
    assert(rgba@ =~= rgba_of(pixels@, count as int));
    Some(rgba)
}

/// A decoded cover: `(width, height, RGBA bytes)`.
pub open spec fn cover_of(data: Seq<u8>) -> Option<(u32, u32, Seq<u8>)> {
    match jpeg_decode(data) {
        Some((pixels, w, h)) => if pixels.len() >= 3 * (w * h) {
            Some((w as u32, h as u32, rgba_of(pixels, w * h)))
        } else {
            None
        },
        None => None,
    }
}

/// Decode a JPEG payload into RGBA bytes.
pub fn decode_jpeg_to_rgba(bytes: &[u8]) -> (r: Option<(u32, u32, Vec<u8>)>)
    ensures
        match r {
            Some((w, h, v)) => cover_of(bytes@) == Some((w, h, v@)),
            None => cover_of(bytes@) is None,
        },
{
    let (pixels, w, h) = match decode_jpeg(bytes) {
        Some(t) => t,
        None => {
            return None;
        },
    };
    match rgb_to_rgba(pixels.as_slice(), w, h) {
        Some(rgba) => Some((w as u32, h as u32, rgba)),
        None => None,
    }
}

/// The placeholder cover's pixel color (R, G, B, A).
pub open spec fn placeholder_byte(i: int) -> u8 {
    if i % 4 == 0 {
        24
    } else if i % 4 == 1 {
        28
    } else if i % 4 == 2 {
        36
    } else {
        255
    }
}

/// A solid-color 250x250 placeholder cover: `(width, height, RGBA bytes)`.
pub fn placeholder_cover_rgba() -> (r: (u32, u32, Vec<u8>))
    ensures
        r.0 == 250,
        r.1 == 250,
        r.2@ == Seq::new(250000, |i: int| placeholder_byte(i)),
{
    let mut px: Vec<u8> = Vec::with_capacity(250000);
    for p in 0..62500usize
        invariant
            px@.len() == 4 * p,
            forall|i: int| 0 <= i < 4 * p ==> px@[i] == placeholder_byte(i),
    {
        px.push(24);
        px.push(28);
        px.push(36);
        px.push(255);
    }
    assert(px@ =~= Seq::new(250000, |i: int| placeholder_byte(i)));
    (250, 250, px)
}

} // verus!
