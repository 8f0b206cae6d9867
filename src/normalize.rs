use vstd::prelude::*;

verus! {

/// Channels per pixel that the network consumes (red, green, blue).
pub const MODEL_CHANNELS: usize = 3;

/// Interleaved layout of a captured frame.
#[derive(Debug, Clone, Copy, PartialEq, Eq, Structural)]
pub enum PixelLayout {
    Rgb,
    Rgba,
}

impl PixelLayout {
    pub open spec fn spec_bytes_per_pixel(self) -> nat {
        match self {
            PixelLayout::Rgb => 3,
            PixelLayout::Rgba => 4,
        }
    }

    /// Offset of the first byte of pixel `p`.
    pub open spec fn pixel_offset(self, p: int) -> int {
        match self {
            PixelLayout::Rgb => 3 * p,
            PixelLayout::Rgba => 4 * p,
        }
    }

    pub fn bytes_per_pixel(&self) -> (r: usize)
        ensures
            r == self.spec_bytes_per_pixel(),
    {
        match self {
            PixelLayout::Rgb => 3,
            PixelLayout::Rgba => 4,
        }
    }
}

/// `tensor` holds, pixel by pixel, the red, green and blue bytes of the
/// first `pixels` pixels of `frame`; any alpha byte is left out.
pub open spec fn is_rgb_of(tensor: Seq<u8>, frame: Seq<u8>, layout: PixelLayout, pixels: nat) -> bool {
    &&& tensor.len() == 3 * pixels
    &&& forall|p: int, c: int|
        0 <= p < pixels && 0 <= c < 3 ==> #[trigger] tensor[3 * p + c] == frame[layout.pixel_offset(p) + c]
}

/// Copies the red, green and blue bytes of the first `pixels` pixels of
/// `src` to the front of `dst`, leaving the rest of `dst` as it was.
pub fn extract_rgb(dst: &mut Vec<u8>, src: &[u8], pixels: usize, layout: PixelLayout)
    requires
        old(dst)@.len() >= 3 * pixels,
        src@.len() == pixels * layout.spec_bytes_per_pixel(),
    ensures
        final(dst)@.len() == old(dst)@.len(),
        forall|q: int, c: int|
            0 <= q < pixels && 0 <= c < 3 ==> #[trigger] final(dst)@[3 * q + c] == src@[layout.pixel_offset(q) + c],
        forall|k: int| 3 * pixels <= k < final(dst)@.len() ==> final(dst)@[k] == old(dst)@[k],
{
    let bpp = layout.bytes_per_pixel();
    let mut p: usize = 0;
    let mut i: usize = 0;
    let mut j: usize = 0;
    while p < pixels
        invariant
            dst@.len() == old(dst)@.len(),
            dst@.len() >= 3 * pixels,
            src@.len() == pixels * bpp,
            bpp == layout.spec_bytes_per_pixel(),
            p <= pixels,
            i == 3 * p,
            j == layout.pixel_offset(p as int),
            forall|q: int, c: int|
                0 <= q < p && 0 <= c < 3 ==> #[trigger] dst@[3 * q + c] == src@[layout.pixel_offset(q) + c],
            forall|k: int| 3 * pixels <= k < dst@.len() ==> dst@[k] == old(dst)@[k],
        decreases pixels - p,
    {
        proof {
            assert(j + bpp <= src@.len()) by (nonlinear_arith)
                requires
                    j == p * bpp,
                    p < pixels,
                    src@.len() == pixels * bpp,
            ;
        }
        dst.set(i, src[j]);
        dst.set(i + 1, src[j + 1]);
        dst.set(i + 2, src[j + 2]);
        p = p + 1;
        i = i + 3;
        j = j + bpp;
    }
}

/// Capacity of a grow-only buffer after a request for `needed` elements.
pub open spec fn grown_capacity(capacity: nat, needed: nat) -> nat {
    if needed > capacity {
        needed
    } else {
        capacity
    }
}

/// Capacity after requests for each element count of `needs`, in order,
/// starting from `initial`.
pub open spec fn capacity_after(initial: nat, needs: Seq<nat>) -> nat
    decreases needs.len(),
{
    if needs.len() == 0 {
        initial
    } else {
        grown_capacity(capacity_after(initial, needs.drop_last()), needs.last())
    }
}

/// Capacity never shrinks: after more requests it is at least what it was
/// after fewer, and it covers every element count requested so far.
pub proof fn lemma_capacity_monotone(initial: nat, needs: Seq<nat>, i: nat)
    requires
        i <= needs.len(),
    ensures
        capacity_after(initial, needs.take(i as int)) <= capacity_after(initial, needs),
        initial <= capacity_after(initial, needs),
        forall|k: int| 0 <= k < needs.len() ==> needs[k] <= capacity_after(initial, needs),
    decreases needs.len(),
{
    if needs.len() > 0 {
        let front = needs.drop_last();
        if i < needs.len() {
            assert(needs.take(i as int) =~= front.take(i as int));
            lemma_capacity_monotone(initial, front, i);
        } else {
            assert(needs.take(i as int) =~= needs);
            lemma_capacity_monotone(initial, front, 0);
        }
        assert forall|k: int| 0 <= k < needs.len() implies needs[k] <= capacity_after(initial, needs) by {
            if k < front.len() {
                assert(front[k] == needs[k]);
            }
        }
    }
}

/// The model input of one frame. Each element stands for its byte divided by
/// 255; the bytes are kept so that the scaling happens once, exactly, where
/// the tensor is handed to the engine.
///
/// The backing buffer only grows: its length is the capacity, and the
/// tensor of the current frame is its first `active` elements.
pub struct FrameNormalizer {
    buffer: Vec<u8>,
    active: usize,
}

impl FrameNormalizer {
    pub closed spec fn wf(&self) -> bool {
        self.active <= self.buffer@.len()
    }

    /// Elements the buffer can hold without growing.
    pub closed spec fn spec_capacity(&self) -> nat {
        self.buffer@.len()
    }

    /// The tensor of the most recently normalized frame.
    pub closed spec fn spec_tensor(&self) -> Seq<u8> {
        self.buffer@.subrange(0, self.active as int)
    }

    pub fn new() -> (r: FrameNormalizer)
        ensures
            r.wf(),
            r.spec_capacity() == 0,
            r.spec_tensor() == Seq::<u8>::empty(),
    {
        let r = FrameNormalizer { buffer: Vec::new(), active: 0 };
        assert(r.spec_tensor() =~= Seq::<u8>::empty());
        r
    }

    pub fn capacity(&self) -> (r: usize)
        requires
            self.wf(),
        ensures
            r == self.spec_capacity(),
    {
        self.buffer.len()
    }

    pub fn tensor(&self) -> (r: &[u8])
        requires
            self.wf(),
        ensures
            r@ == self.spec_tensor(),
    {
        self.buffer.as_slice().split_at(self.active).0
    }

    /// Makes room for `needed` elements, growing the buffer if it is smaller
    /// and never shrinking it; the first `needed` elements become the tensor.
    pub fn ensure_capacity(&mut self, needed: usize)
        requires
            old(self).wf(),
        ensures
            final(self).wf(),
            final(self).spec_capacity() == grown_capacity(old(self).spec_capacity(), needed as nat),
            final(self).spec_tensor().len() == needed,
    {
        if self.buffer.len() < needed {
            self.buffer.resize(needed, 0u8);
        }
        self.active = needed;
    }

    /// Writes the red, green and blue bytes of every pixel of `frame` into
    /// the tensor, dropping alpha where the layout has it.
    pub fn normalize(&mut self, frame: &[u8], width: usize, height: usize, layout: PixelLayout)
        requires
            old(self).wf(),
            frame@.len() == width * height * layout.spec_bytes_per_pixel(),
        ensures
            final(self).wf(),
            is_rgb_of(final(self).spec_tensor(), frame@, layout, (width * height) as nat),
            final(self).spec_capacity() == grown_capacity(old(self).spec_capacity(), (3 * width * height) as nat),
    {
        let bpp = layout.bytes_per_pixel();
        let pixels = frame.len() / bpp;
        proof {
            assert(frame@.len() == (width * height) * bpp) by (nonlinear_arith)
                requires
                    frame@.len() == width * height * bpp,
            ;
            assert(pixels == width * height) by (nonlinear_arith)
                requires
                    frame@.len() == (width * height) * bpp,
                    pixels as int == frame@.len() as int / bpp as int,
                    bpp >= 3,
            ;
            assert(3 * width * height == 3 * pixels) by (nonlinear_arith)
                requires
                    pixels == width * height,
            ;
        }
        let needed = pixels * MODEL_CHANNELS;
        self.ensure_capacity(needed);
        extract_rgb(&mut self.buffer, frame, pixels, layout);
        assert forall|q: int, c: int| 0 <= q < pixels && 0 <= c < 3 implies #[trigger] self.spec_tensor()[3 * q + c]
            == frame@[layout.pixel_offset(q) + c] by {
            assert(self.spec_tensor()[3 * q + c] == self.buffer@[3 * q + c]);
        }
    }
}

} // verus!
