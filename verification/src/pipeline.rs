//! The pixel pipeline: every pixel of the output is shaded from the pixel
//! of the same position in the original frame and in the base frame.
//!
//! A shader is a function of the caller: it is given the column and the
//! row of a pixel, the pixel of the base frame and of the original frame at
//! that position, and the parameters, and it returns the pixel to write.
//! What it computes is the caller's own business. The pipeline settles
//! which pixel goes where, and that nothing is written unless the whole
//! call is in order.

use crate::config::ArtisticGrainConfig;
use crate::error::GrainError;
use crate::frame::{
    column_of, frame_len, pixel_at, pixel_count, pixel_position, read_pixel, row_of,
    write_pixel, Pixel,
};
use vstd::prelude::*;

verus! {

/// The span of pixels that starts at number `first` and fills `out_len`
/// bytes lies inside a frame whose original and base buffers have the
/// lengths `input_len` and `base_len`.
pub open spec fn span_fits(
    width: u32,
    height: u32,
    first: int,
    input_len: int,
    base_len: int,
    out_len: int,
) -> bool {
    &&& input_len == frame_len(width, height)
    &&& base_len == frame_len(width, height)
    &&& out_len % 3 == 0
    &&& first + out_len / 3 <= pixel_count(width, height)
}

/// `out` holds the shaded pixels `first`, `first + 1`, ... of the frame:
/// pixel `j` of `out` is a result of `shade` for the column and row of
/// pixel `first + j`, its base pixel, its original pixel and `config`.
pub open spec fn span_rendered<F: Fn(u32, u32, Pixel, Pixel, &ArtisticGrainConfig) -> Pixel>(
    shade: F,
    config: ArtisticGrainConfig,
    width: u32,
    first: int,
    input: Seq<u8>,
    base: Seq<u8>,
    out: Seq<u8>,
) -> bool {
    forall|j: int|
        0 <= j < out.len() / 3 ==> call_ensures(
            shade,
            (
                column_of(first + j, width) as u32,
                row_of(first + j, width) as u32,
                pixel_at(base, first + j),
                pixel_at(input, first + j),
                &config,
            ),
            #[trigger] pixel_at(out, j),
        )
}

/// Shades the pixels `first`, `first + 1`, ... of a frame into `out`,
/// as many as `out` has room for.
///
/// The span must lie inside the frame, and the original and the base buffer
/// must each hold the whole frame. Otherwise the call fails and `out` is
/// left as it was.
pub fn render_span<F: Fn(u32, u32, Pixel, Pixel, &ArtisticGrainConfig) -> Pixel>(
    width: u32,
    height: u32,
    first: usize,
    input: &[u8],
    base: &[u8],
    out: &mut [u8],
    config: &ArtisticGrainConfig,
    shade: &F,
) -> (r: Result<(), GrainError>)
    requires
        forall|x: u32, y: u32, b: Pixel, o: Pixel|
            x < width && y < height ==> call_requires(*shade, (x, y, b, o, config)),
    ensures
        r is Ok <==> span_fits(
            width,
            height,
            first as int,
            input@.len() as int,
            base@.len() as int,
            old(out)@.len() as int,
        ),
        r is Err ==> r == Err::<(), GrainError>(GrainError::SizeMismatch),
        r is Err ==> final(out)@ == old(out)@,
        r is Ok ==> final(out)@.len() == old(out)@.len(),
        r is Ok ==> span_rendered(
            *shade,
            *config,
            width,
            first as int,
            input@,
            base@,
            final(out)@,
        ),
{
    proof {
        vstd::slice::axiom_spec_len(input);
        vstd::slice::axiom_spec_len(base);
        vstd::slice::axiom_spec_len(old(out));
    }
    let whole = crate::frame::expected_len(width, height);
    let out_len = out.len();
    let fits = match whole {
        Some(n) => input.len() == n && base.len() == n && out_len % 3 == 0 && first <= n / 3
            && out_len / 3 <= n / 3 - first,
        None => false,
    };
    if !fits {
        return Err(GrainError::SizeMismatch);
    }
    let count = out_len / 3;
    let mut j: usize = 0;
    while j < count
        invariant
            0 <= j <= count,
            count == out@.len() / 3,
            out@.len() == old(out)@.len(),
            out@.len() % 3 == 0,
            input@.len() == frame_len(width, height),
            base@.len() == frame_len(width, height),
            first + count <= pixel_count(width, height),
            frame_len(width, height) <= usize::MAX,
            forall|x: u32, y: u32, b: Pixel, o: Pixel|
                x < width && y < height ==> call_requires(*shade, (x, y, b, o, config)),
            span_rendered(
                *shade,
                *config,
                width,
                first as int,
                input@,
                base@,
                out@.subrange(0, 3 * j),
            ),
        decreases count - j,
    {
        let index = first + j;
        proof {
            crate::frame::lemma_position_in_frame(index as int, width, height);
        }
        let (x, y) = pixel_position(index, width);
        let b = read_pixel(base, index);
        let o = read_pixel(input, index);
        let p = shade(x, y, b, o, config);
        let ghost before = out@;
        write_pixel(out, j, p);
        proof {
            let done = out@.subrange(0, 3 * (j + 1));
            assert forall|i: int| 0 <= i < done.len() / 3 implies call_ensures(
                *shade,
                (
                    column_of(first + i, width) as u32,
                    row_of(first + i, width) as u32,
                    pixel_at(base@, first + i),
                    pixel_at(input@, first + i),
                    config,
                ),
                #[trigger] pixel_at(done, i),
            ) by {
                if i < j {
                    assert(pixel_at(done, i) == pixel_at(before.subrange(0, 3 * j), i));
                } else {
                    assert(pixel_at(done, i) == p);
                }
            }
        }
        j = j + 1;
    }
    assert(out@.subrange(0, 3 * j) == out@);
    Ok(())
}

/// The original, the base and the output buffer each hold exactly one frame
/// of `width` by `height` pixels.
pub open spec fn frame_matches(
    width: u32,
    height: u32,
    input_len: int,
    base_len: int,
    output_len: int,
) -> bool {
    &&& input_len == frame_len(width, height)
    &&& base_len == frame_len(width, height)
    &&& output_len == frame_len(width, height)
}

/// Whether a pass over a whole frame is admitted, and if not, why: the
/// buffers are looked at first, the parameters after them.
pub open spec fn admission(
    width: u32,
    height: u32,
    input_len: int,
    base_len: int,
    output_len: int,
    config: ArtisticGrainConfig,
) -> Result<(), GrainError> {
    if !frame_matches(width, height, input_len, base_len, output_len) {
        Err(GrainError::SizeMismatch)
    } else if !config.is_valid() {
        Err(GrainError::InvalidConfig)
    } else {
        Ok(())
    }
}

/// Renders a whole frame: shades every pixel of `input_pixels` into
/// `output_pixels`.
///
/// `base_pixels` is the frame from which a shader takes the brightness of a
/// pixel: a softened copy of the original, or the original itself.
///
/// The call is refused, before anything is written, where a buffer does not
/// hold exactly one frame, and then where `config` is not usable. Otherwise
/// every byte of the output is overwritten.
pub fn apply_3d_grain<F: Fn(u32, u32, Pixel, Pixel, &ArtisticGrainConfig) -> Pixel>(
    width: u32,
    height: u32,
    input_pixels: &[u8],
    base_pixels: &[u8],
    output_pixels: &mut [u8],
    config: &ArtisticGrainConfig,
    shade: &F,
) -> (r: Result<(), GrainError>)
    requires
        forall|x: u32, y: u32, b: Pixel, o: Pixel|
            x < width && y < height ==> call_requires(*shade, (x, y, b, o, config)),
    ensures
        r == admission(
            width,
            height,
            input_pixels@.len() as int,
            base_pixels@.len() as int,
            old(output_pixels)@.len() as int,
            *config,
        ),
        r is Err ==> final(output_pixels)@ == old(output_pixels)@,
        r is Ok ==> final(output_pixels)@.len() == old(output_pixels)@.len(),
        r is Ok ==> span_rendered(
            *shade,
            *config,
            width,
            0,
            input_pixels@,
            base_pixels@,
            final(output_pixels)@,
        ),
{
    proof {
        vstd::slice::axiom_spec_len(input_pixels);
        vstd::slice::axiom_spec_len(base_pixels);
        vstd::slice::axiom_spec_len(old(output_pixels));
    }
    let matches = match crate::frame::expected_len(width, height) {
        Some(n) => input_pixels.len() == n && base_pixels.len() == n && output_pixels.len() == n,
        None => false,
    };
    if !matches {
        return Err(GrainError::SizeMismatch);
    }
    match config.validate() {
        Ok(()) => {},
        Err(e) => {
            return Err(e);
        },
    }
    match render_span(width, height, 0, input_pixels, base_pixels, output_pixels, config, shade) {
        Ok(()) => Ok(()),
        Err(e) => Err(e),
    }
}

/// `shade` has at most one result for each argument.
pub open spec fn single_valued<F: Fn(u32, u32, Pixel, Pixel, &ArtisticGrainConfig) -> Pixel>(
    shade: F,
) -> bool {
    forall|args: (u32, u32, Pixel, Pixel, &ArtisticGrainConfig), p: Pixel, q: Pixel|
        #![trigger call_ensures(shade, args, p), call_ensures(shade, args, q)]
        call_ensures(shade, args, p) && call_ensures(shade, args, q) ==> p == q
}

/// A rendering is reproducible: two outputs of the same span, shaded from
/// the same frames with the same parameters by a shader that has one result
/// for each argument, are equal byte for byte.
pub proof fn lemma_rendering_is_unique<
    F: Fn(u32, u32, Pixel, Pixel, &ArtisticGrainConfig) -> Pixel,
>(
    shade: F,
    config: ArtisticGrainConfig,
    width: u32,
    first: int,
    input: Seq<u8>,
    base: Seq<u8>,
    one: Seq<u8>,
    other: Seq<u8>,
)
    requires
        single_valued(shade),
        one.len() == other.len(),
        one.len() % 3 == 0,
        span_rendered(shade, config, width, first, input, base, one),
        span_rendered(shade, config, width, first, input, base, other),
    ensures
        one == other,
{
    assert forall|k: int| 0 <= k < one.len() implies one[k] == other[k] by {
        let j = k / 3;
        assert(pixel_at(one, j) == pixel_at(other, j));
    }
    assert(one =~= other);
}

/// A rendering does not depend on how the work is cut up: a span is
/// rendered exactly when its first `cut` pixels and the rest are, each as a
/// span of its own.
pub proof fn lemma_spans_compose<F: Fn(u32, u32, Pixel, Pixel, &ArtisticGrainConfig) -> Pixel>(
    shade: F,
    config: ArtisticGrainConfig,
    width: u32,
    first: int,
    cut: int,
    input: Seq<u8>,
    base: Seq<u8>,
    out: Seq<u8>,
)
    requires
        out.len() % 3 == 0,
        0 <= cut <= out.len() / 3,
    ensures
        span_rendered(shade, config, width, first, input, base, out) <==> (span_rendered(
            shade,
            config,
            width,
            first,
            input,
            base,
            out.subrange(0, 3 * cut),
        ) && span_rendered(
            shade,
            config,
            width,
            first + cut,
            input,
            base,
            out.subrange(3 * cut, out.len() as int),
        )),
{
    let head = out.subrange(0, 3 * cut);
    let tail = out.subrange(3 * cut, out.len() as int);
    if span_rendered(shade, config, width, first, input, base, out) {
        assert forall|j: int| 0 <= j < head.len() / 3 implies call_ensures(
            shade,
            (
                column_of(first + j, width) as u32,
                row_of(first + j, width) as u32,
                pixel_at(base, first + j),
                pixel_at(input, first + j),
                &config,
            ),
            #[trigger] pixel_at(head, j),
        ) by {
            assert(pixel_at(head, j) == pixel_at(out, j));
        }
        assert forall|j: int| 0 <= j < tail.len() / 3 implies call_ensures(
            shade,
            (
                column_of(first + cut + j, width) as u32,
                row_of(first + cut + j, width) as u32,
                pixel_at(base, first + cut + j),
                pixel_at(input, first + cut + j),
                &config,
            ),
            #[trigger] pixel_at(tail, j),
        ) by {
            assert(pixel_at(tail, j) == pixel_at(out, cut + j));
        }
    }
    if span_rendered(shade, config, width, first, input, base, head) && span_rendered(
        shade,
        config,
        width,
        first + cut,
        input,
        base,
        tail,
    ) {
        assert forall|j: int| 0 <= j < out.len() / 3 implies call_ensures(
            shade,
            (
                column_of(first + j, width) as u32,
                row_of(first + j, width) as u32,
                pixel_at(base, first + j),
                pixel_at(input, first + j),
                &config,
            ),
            #[trigger] pixel_at(out, j),
        ) by {
            if j < cut {
                assert(pixel_at(head, j) == pixel_at(out, j));
            } else {
                assert(pixel_at(tail, j - cut) == pixel_at(out, j));
                assert(first + cut + (j - cut) == first + j);
            }
        }
    }
}

/// Chunk number `k` of `out`, where `out` is cut into chunks of `span`
/// pixels each; the last chunk holds what is left.
pub open spec fn chunk_of(out: Seq<u8>, span: int, k: int) -> Seq<u8> {
    let from = 3 * (span * k);
    let to = 3 * (span * (k + 1));
    out.subrange(
        from,
        if to <= out.len() {
            to
        } else {
            out.len() as int
        },
    )
}

/// A rendering does not depend on the number of workers: where a frame is
/// cut into chunks of `span` pixels and every chunk is rendered as a span
/// of its own, the frame is rendered, whatever `span` is.
pub proof fn lemma_chunks_compose<F: Fn(u32, u32, Pixel, Pixel, &ArtisticGrainConfig) -> Pixel>(
    shade: F,
    config: ArtisticGrainConfig,
    width: u32,
    span: int,
    input: Seq<u8>,
    base: Seq<u8>,
    out: Seq<u8>,
)
    requires
        span > 0,
        out.len() % 3 == 0,
        forall|k: int|
            0 <= k && span * k < out.len() / 3 ==> span_rendered(
                shade,
                config,
                width,
                span * k,
                input,
                base,
                #[trigger] chunk_of(out, span, k),
            ),
    ensures
        span_rendered(shade, config, width, 0, input, base, out),
{
    assert forall|j: int| 0 <= j < out.len() / 3 implies call_ensures(
        shade,
        (
            column_of(0 + j, width) as u32,
            row_of(0 + j, width) as u32,
            pixel_at(base, 0 + j),
            pixel_at(input, 0 + j),
            &config,
        ),
        #[trigger] pixel_at(out, j),
    ) by {
        let k = j / span;
        let rest = j % span;
        vstd::arithmetic::div_mod::lemma_fundamental_div_mod(j, span);
        vstd::arithmetic::div_mod::lemma_mod_bound(j, span);
        vstd::arithmetic::div_mod::lemma_div_pos_is_pos(j, span);
        assert(span * (k + 1) == span * k + span) by (nonlinear_arith);
        let chunk = chunk_of(out, span, k);
        assert(span_rendered(shade, config, width, span * k, input, base, chunk));
        assert(rest < chunk.len() / 3);
        assert(pixel_at(chunk, rest) == pixel_at(out, j));
        assert(span * k + rest == 0 + j);
    }
}

} // verus!
