use crate::error::CaptureError;
use vstd::arithmetic::div_mod::{lemma_fundamental_div_mod, lemma_fundamental_div_mod_converse};
use vstd::prelude::*;

verus! {

/// The distance in bytes between the starts of two rows of a frame of
/// `frame_len` bytes and `height` rows.
pub open spec fn row_stride(frame_len: nat, height: nat) -> nat {
    if height == 0 {
        0
    } else {
        frame_len / height
    }
}

/// `frame` is whole 4-byte pixels, laid out as `height` rows of equal length,
/// each long enough for `width` pixels; any bytes past them in a row are
/// padding.
pub open spec fn well_formed_frame(frame: Seq<u8>, width: nat, height: nat) -> bool {
    &&& frame.len() % 4 == 0
    &&& height == 0 || (frame.len() % height == 0 && frame.len() / height >= 4 * width)
}

/// Pixel `c` of row `r` in the packed RGBA buffer `px` is the BGRA pixel at
/// that place in `frame`, whose rows are `stride` bytes apart, with its blue
/// and red bytes exchanged.
pub open spec fn converted_pixel(
    px: Seq<u8>,
    frame: Seq<u8>,
    width: nat,
    stride: nat,
    r: int,
    c: int,
) -> bool {
    let o = 4 * (r * width + c);
    let s = r * stride + 4 * c;
    &&& px[o] == frame[s + 2]
    &&& px[o + 1] == frame[s + 1]
    &&& px[o + 2] == frame[s]
    &&& px[o + 3] == frame[s + 3]
}

/// `px` is `frame` as tightly packed RGBA: `width * height` pixels, row after
/// row, without the rows' padding.
pub open spec fn packed_rgba(px: Seq<u8>, frame: Seq<u8>, width: nat, height: nat) -> bool {
    &&& px.len() == 4 * (width * height)
    &&& forall|r: int, c: int|
        0 <= r < height && 0 <= c < width ==> #[trigger] converted_pixel(
            px,
            frame,
            width,
            row_stride(frame.len(), height),
            r,
            c,
        )
}

proof fn lemma_pixel_before(width: int, r1: int, c1: int, r2: int, c2: int)
    requires
        0 <= r1,
        0 <= c1 < width,
        0 <= c2 <= width,
        r1 < r2 || (r1 == r2 && c1 < c2),
    ensures
        r1 * width + c1 < r2 * width + c2,
{
    if r1 < r2 {
        assert(r1 * width + width <= r2 * width) by (nonlinear_arith)
            requires
                r1 < r2,
                0 <= width,
        ;
    }
}

/// Converts a BGRA frame of `height` rows to a tightly packed RGBA buffer of
/// exactly `width * height * 4` bytes, dropping the padding at the end of
/// each row and swapping the first and third byte of each pixel. A frame that
/// is not whole pixels, or whose rows are unequal or too short for `width`
/// pixels, is `MalformedFrame`, and then nothing is produced.
pub fn bgra_to_rgba(frame: &[u8], width: usize, height: usize) -> (r: Result<Vec<u8>, CaptureError>)
    ensures
        r is Err <==> !well_formed_frame(frame@, width as nat, height as nat),
        r matches Err(e) ==> e == CaptureError::MalformedFrame,
        r matches Ok(px) ==> packed_rgba(px@, frame@, width as nat, height as nat),
{
    let len = frame.len();
    if len % 4 != 0 {
        return Err(CaptureError::MalformedFrame);
    }
    if height == 0 {
        assert(width * 0 == 0);
        return Ok(Vec::new());
    }
    if len % height != 0 {
        return Err(CaptureError::MalformedFrame);
    }
    let stride = len / height;
    if stride / 4 < width {
        return Err(CaptureError::MalformedFrame);
    }
    proof {
        lemma_fundamental_div_mod(len as int, height as int);
    }
    let mut px: Vec<u8> = Vec::new();
    let mut r: usize = 0;
    let mut row_start: usize = 0;
    while r < height
        invariant
            len == frame@.len(),
            stride == row_stride(len as nat, height as nat),
            height * stride == len,
            4 * width <= stride,
            r <= height,
            row_start == r * stride,
            px@.len() == 4 * (r * width),
            forall|r2: int, c2: int|
                0 <= r2 < r && 0 <= c2 < width ==> #[trigger] converted_pixel(
                    px@,
                    frame@,
                    width as nat,
                    stride as nat,
                    r2,
                    c2,
                ),
        decreases height - r,
    {
        assert(row_start + stride <= len) by (nonlinear_arith)
            requires
                r < height,
                row_start == r * stride,
                height * stride == len,
        ;
        let mut c: usize = 0;
        while c < width
            invariant
                len == frame@.len(),
                4 * width <= stride,
                r < height,
                row_start == r * stride,
                row_start + stride <= len,
                c <= width,
                px@.len() == 4 * (r * width + c),
                forall|r2: int, c2: int|
                    (0 <= r2 < r && 0 <= c2 < width) || (r2 == r && 0 <= c2 < c)
                        ==> #[trigger] converted_pixel(
                        px@,
                        frame@,
                        width as nat,
                        stride as nat,
                        r2,
                        c2,
                    ),
            decreases width - c,
        {
            let b = row_start + 4 * c;
            let ghost before = px@;
            px.push(frame[b + 2]);
            px.push(frame[b + 1]);
            px.push(frame[b]);
            px.push(frame[b + 3]);
            assert forall|r2: int, c2: int|
                (0 <= r2 < r && 0 <= c2 < width) || (r2 == r && 0 <= c2 < c + 1)
                    implies #[trigger] converted_pixel(
                    px@,
                    frame@,
                    width as nat,
                    stride as nat,
                    r2,
                    c2,
                ) by {
                if r2 != r || c2 != c {
                    lemma_pixel_before(width as int, r2, c2, r as int, c as int);
                    assert(converted_pixel(before, frame@, width as nat, stride as nat, r2, c2));
                }
            }
            c = c + 1;
        }
        assert(r * width + width == (r + 1) * width) by (nonlinear_arith);
        assert(row_start + stride == (r + 1) * stride) by (nonlinear_arith)
            requires
                row_start == r * stride,
        ;
        r = r + 1;
        row_start = row_start + stride;
    }
    assert(r * width == width * height) by (nonlinear_arith)
        requires
            r == height,
    ;
    Ok(px)
}

/// A frame that is not whole pixels, or shorter than `width * height`
/// pixels, is malformed.
pub proof fn lemma_short_frame_is_malformed(frame: Seq<u8>, width: nat, height: nat)
    requires
        frame.len() % 4 != 0 || frame.len() < width * height * 4,
    ensures
        !well_formed_frame(frame, width, height),
{
    if well_formed_frame(frame, width, height) && frame.len() % 4 == 0 {
        let len = frame.len() as int;
        if height == 0 {
            assert(width * height * 4 == 0);
        } else {
            lemma_fundamental_div_mod(len, height as int);
            let stride = len / (height as int);
            assert(width * height * 4 <= height * stride) by (nonlinear_arith)
                requires
                    stride >= 4 * width,
                    height > 0,
            ;
        }
    }
}

/// A frame without row padding, of exactly `width * height` pixels, converts
/// to a buffer of the same length in which every BGRA group
/// `[b0, b1, b2, b3]` became `[b2, b1, b0, b3]`.
pub proof fn lemma_unpadded_frame_permutes_groups(
    px: Seq<u8>,
    frame: Seq<u8>,
    width: nat,
    height: nat,
)
    requires
        frame.len() == 4 * (width * height),
        packed_rgba(px, frame, width, height),
    ensures
        px.len() == frame.len(),
        forall|g: int|
            0 <= g < width * height ==> #[trigger] px.subrange(4 * g, 4 * g + 4) == seq![
                frame[4 * g + 2],
                frame[4 * g + 1],
                frame[4 * g],
                frame[4 * g + 3],
            ],
{
    assert forall|g: int| 0 <= g < width * height implies #[trigger] px.subrange(4 * g, 4 * g + 4)
        == seq![frame[4 * g + 2], frame[4 * g + 1], frame[4 * g], frame[4 * g + 3]] by {
        let w = width as int;
        let h = height as int;
        assert(w > 0 && h > 0) by (nonlinear_arith)
            requires
                0 <= g < w * h,
                w >= 0,
                h >= 0,
        ;
        assert(4 * (w * h) == (4 * w) * h + 0) by (nonlinear_arith);
        lemma_fundamental_div_mod_converse(4 * (w * h), h, 4 * w, 0);
        let r = g / w;
        let c = g % w;
        lemma_fundamental_div_mod(g, w);
        assert(g == r * w + c) by (nonlinear_arith)
            requires
                g == w * (g / w) + g % w,
                r == g / w,
                c == g % w,
        ;
        assert(0 <= r < h) by (nonlinear_arith)
            requires
                g == r * w + c,
                0 <= c < w,
                0 <= g < w * h,
        ;
        assert(row_stride(frame.len(), height) == 4 * w);
        assert(converted_pixel(px, frame, width, row_stride(frame.len(), height), r, c));
        assert(r * (4 * w) + 4 * c == 4 * g) by (nonlinear_arith)
            requires
                g == r * w + c,
        ;
        assert(px.subrange(4 * g, 4 * g + 4) =~= seq![
            frame[4 * g + 2],
            frame[4 * g + 1],
            frame[4 * g],
            frame[4 * g + 3],
        ]);
    }
}

} // verus!
