use vstd::prelude::*;

use crate::normalize::{extract_rgb, is_rgb_of, PixelLayout};

verus! {

/// What image's `overlay` leaves in an RGBA8 `bottom` image of
/// `width` x `height` pixels after blending the equally sized `top` over it.
pub uninterp spec fn overlay_of(bottom: Seq<u8>, top: Seq<u8>, width: u32, height: u32) -> Seq<u8>;

/// The four bytes of pixel `p` of an RGBA8 image.
pub open spec fn rgba_pixel(image: Seq<u8>, p: int) -> Seq<u8> {
    image.subrange(4 * p, 4 * p + 4)
}

/// Relies on image::imageops::overlay of two RGBA8 buffers of the same size
/// placed at the origin: every bottom pixel is blended with the top pixel at
/// the same place by image's `Rgba::blend`, which keeps the bottom pixel
/// where the top alpha is 0 and copies the top pixel where it is 255.
#[verifier::external_body]
fn overlay_rgba(bottom: &mut Vec<u8>, top: &[u8], width: u32, height: u32)
    requires
        old(bottom)@.len() == 4 * width * height,
        top@.len() == 4 * width * height,
    ensures
        final(bottom)@ == overlay_of(old(bottom)@, top@, width, height),
        final(bottom)@.len() == old(bottom)@.len(),
        forall|p: int|
            0 <= p < width * height && top@[4 * p + 3] == 0 ==> #[trigger] rgba_pixel(final(bottom)@, p)
                == rgba_pixel(old(bottom)@, p),
        forall|p: int|
            0 <= p < width * height && top@[4 * p + 3] == 255 ==> #[trigger] rgba_pixel(final(bottom)@, p)
                == rgba_pixel(top@, p),
{
    let mut canvas = image::RgbaImage::from_raw(width, height, std::mem::take(bottom)).unwrap();
    let layer = image::ImageBuffer::<image::Rgba<u8>, &[u8]>::from_raw(width, height, top).unwrap();
    image::imageops::overlay(&mut canvas, &layer, 0, 0);
    *bottom = canvas.into_raw();
}

/// `layer` is the RGBA8 image whose colour comes from `foreground` (RGB)
/// and whose opacity comes from `alpha` (one byte per pixel).
pub open spec fn is_layer_of(layer: Seq<u8>, foreground: Seq<u8>, alpha: Seq<u8>, pixels: nat) -> bool {
    &&& layer.len() == 4 * pixels
    &&& forall|p: int, c: int|
        0 <= p < pixels && 0 <= c < 3 ==> #[trigger] layer[4 * p + c] == foreground[3 * p + c]
    &&& forall|p: int| 0 <= p < pixels ==> #[trigger] layer[4 * p + 3] == alpha[p]
}

/// Every pixel of a matte is fully transparent.
pub open spec fn all_transparent(alpha: Seq<u8>) -> bool {
    forall|p: int| 0 <= p < alpha.len() ==> #[trigger] alpha[p] == 0
}

/// Every pixel of a matte is fully opaque.
pub open spec fn all_opaque(alpha: Seq<u8>) -> bool {
    forall|p: int| 0 <= p < alpha.len() ==> #[trigger] alpha[p] == 255
}

/// Two RGBA8 images of `pixels` pixels are equal when all their pixels are.
proof fn lemma_equal_by_pixels(a: Seq<u8>, b: Seq<u8>, pixels: nat)
    requires
        a.len() == 4 * pixels,
        b.len() == 4 * pixels,
        forall|p: int| 0 <= p < pixels ==> #[trigger] rgba_pixel(a, p) == rgba_pixel(b, p),
    ensures
        a == b,
{
    assert forall|k: int| 0 <= k < a.len() implies a[k] == b[k] by {
        let p = k / 4;
        assert(0 <= p < pixels);
        assert(rgba_pixel(a, p)[k - 4 * p] == a[k]);
        assert(rgba_pixel(b, p)[k - 4 * p] == b[k]);
    }
    assert(a =~= b);
}

/// Fills `layer` with the RGBA8 image of `foreground` and `alpha`, reusing
/// its allocation.
fn fill_layer(layer: &mut Vec<u8>, foreground: &[u8], alpha: &[u8], pixels: usize)
    requires
        foreground@.len() == 3 * pixels,
        alpha@.len() == pixels,
        4 * pixels <= usize::MAX,
    ensures
        is_layer_of(final(layer)@, foreground@, alpha@, pixels as nat),
{
    let needed = 4 * pixels;
    layer.resize(needed, 0u8);
    let mut p: usize = 0;
    while p < pixels
        invariant
            layer@.len() == 4 * pixels,
            foreground@.len() == 3 * pixels,
            alpha@.len() == pixels,
            4 * pixels <= usize::MAX,
            p <= pixels,
            forall|q: int, c: int|
                0 <= q < p && 0 <= c < 3 ==> #[trigger] layer@[4 * q + c] == foreground@[3 * q + c],
            forall|q: int| 0 <= q < p ==> #[trigger] layer@[4 * q + 3] == alpha@[q],
        decreases pixels - p,
    {
        let i = 4 * p;
        let j = 3 * p;
        layer.set(i, foreground[j]);
        layer.set(i + 1, foreground[j + 1]);
        layer.set(i + 2, foreground[j + 2]);
        layer.set(i + 3, alpha[p]);
        p = p + 1;
    }
}

/// Blends the matted foreground over `canvas` (RGBA8, holding the
/// background) in place, and writes the red, green and blue bytes of the
/// result to `output`. `layer` is scratch space kept between frames.
pub fn composite(
    canvas: &mut Vec<u8>,
    layer: &mut Vec<u8>,
    output: &mut Vec<u8>,
    foreground: &[u8],
    alpha: &[u8],
    width: u32,
    height: u32,
)
    requires
        old(canvas)@.len() == 4 * width * height,
        foreground@.len() == 3 * width * height,
        alpha@.len() == width * height,
    ensures
        is_layer_of(final(layer)@, foreground@, alpha@, (width * height) as nat),
        final(canvas)@ == overlay_of(old(canvas)@, final(layer)@, width, height),
        final(canvas)@.len() == old(canvas)@.len(),
        is_rgb_of(final(output)@, final(canvas)@, PixelLayout::Rgba, (width * height) as nat),
        forall|p: int|
            0 <= p < width * height && alpha@[p] == 0 ==> #[trigger] rgba_pixel(final(canvas)@, p)
                == rgba_pixel(old(canvas)@, p),
        forall|p: int|
            0 <= p < width * height && alpha@[p] == 255 ==> #[trigger] rgba_pixel(final(canvas)@, p)
                == seq![foreground@[3 * p], foreground@[3 * p + 1], foreground@[3 * p + 2], 255u8],
        all_transparent(alpha@) ==> final(canvas)@ == old(canvas)@,
        all_transparent(alpha@) ==> is_rgb_of(final(output)@, old(canvas)@, PixelLayout::Rgba, (width * height) as nat),
        all_opaque(alpha@) ==> final(output)@ == foreground@,
{
    let pixels = alpha.len();
    let canvas_bytes = canvas.len();
    proof {
        assert(4 * width * height == 4 * pixels && 3 * width * height == 3 * pixels) by (nonlinear_arith)
            requires
                pixels == width * height,
        ;
        assert(canvas_bytes == 4 * pixels);
    }
    fill_layer(layer, foreground, alpha, pixels);
    let ghost before = canvas@;
    overlay_rgba(canvas, layer.as_slice(), width, height);
    assert forall|p: int| 0 <= p < width * height && alpha@[p] == 255 implies #[trigger] rgba_pixel(canvas@, p)
        == seq![foreground@[3 * p], foreground@[3 * p + 1], foreground@[3 * p + 2], 255u8] by {
        assert(layer@[4 * p + 3] == alpha@[p]);
        assert(rgba_pixel(canvas@, p) == rgba_pixel(layer@, p));
        assert(layer@[4 * p + 0] == foreground@[3 * p + 0]);
        assert(layer@[4 * p + 1] == foreground@[3 * p + 1]);
        assert(layer@[4 * p + 2] == foreground@[3 * p + 2]);
        assert(rgba_pixel(layer@, p) =~= seq![foreground@[3 * p], foreground@[3 * p + 1], foreground@[3 * p + 2], 255u8]);
    }
    proof {
        if all_transparent(alpha@) {
            assert forall|p: int| 0 <= p < pixels implies #[trigger] rgba_pixel(canvas@, p) == rgba_pixel(before, p) by {
                assert(layer@[4 * p + 3] == alpha@[p]);
            }
            lemma_equal_by_pixels(canvas@, before, pixels as nat);
        }
    }
    output.resize(3 * pixels, 0u8);
    extract_rgb(output, canvas.as_slice(), pixels, PixelLayout::Rgba);
    proof {
        if all_opaque(alpha@) {
        assert forall|k: int| 0 <= k < output@.len() implies output@[k] == foreground@[k] by {
            let p = k / 3;
            let c = k % 3;
            assert(k == 3 * p + c);
            assert(layer@[4 * p + 3] == alpha@[p]);
            assert(rgba_pixel(canvas@, p) == rgba_pixel(layer@, p));
            assert(rgba_pixel(canvas@, p)[c] == canvas@[4 * p + c]);
            assert(layer@[4 * p + c] == foreground@[3 * p + c]);
        }
        assert(output@ =~= foreground@);
        }
    }
}

} // verus!
