use vstd::prelude::*;

use crate::error::HideError;
use crate::text::same_text;

verus! {

/// Slowest frame rate a capture mode must offer to be considered.
pub const MIN_FRAME_RATE: u32 = 24;

/// Frames captured and thrown away while the camera settles its exposure
/// and focus.
pub const WARMUP_FRAMES: u32 = 5;

/// Name under which the virtual output camera registers.
pub const VIRTUAL_CAMERA_NAME: &'static str = "fake-cam";

/// Background colour used when no background image is given (RGBA).
pub const DEFAULT_BACKGROUND: [u8; 4] = [127, 212, 255, 255];

/// A resolution the camera offers, with the frame rates it offers there.
pub struct CaptureMode {
    pub width: u32,
    pub height: u32,
    pub frame_rates: Vec<u32>,
}

/// The resolution and frame rate a session captures at.
#[derive(Debug, Clone, Copy, PartialEq, Eq, Structural)]
pub struct CaptureFormat {
    pub width: u32,
    pub height: u32,
    pub frame_rate: u32,
}

/// The mode offers at least one frame rate fast enough for live video.
pub open spec fn is_eligible(m: CaptureMode) -> bool {
    exists|k: int| 0 <= k < m.frame_rates@.len() && #[trigger] m.frame_rates@[k] >= MIN_FRAME_RATE
}

/// Resolutions ordered by width, then by height.
pub open spec fn resolution_le(a: CaptureMode, b: CaptureMode) -> bool {
    a.width < b.width || (a.width == b.width && a.height <= b.height)
}

/// `i` is the mode to capture at: an eligible one with the largest
/// resolution, the last such in the list where several share it.
pub open spec fn is_best_mode(modes: Seq<CaptureMode>, i: int) -> bool {
    &&& 0 <= i < modes.len()
    &&& is_eligible(modes[i])
    &&& forall|j: int| 0 <= j < modes.len() && is_eligible(#[trigger] modes[j]) ==> resolution_le(modes[j], modes[i])
    &&& forall|j: int|
        i < j < modes.len() && is_eligible(#[trigger] modes[j]) ==> !resolution_le(modes[i], modes[j])
}

pub open spec fn is_highest(r: u32, s: Seq<u32>) -> bool {
    &&& exists|k: int| 0 <= k < s.len() && s[k] == r
    &&& forall|k: int| 0 <= k < s.len() ==> #[trigger] s[k] <= r
}

pub open spec fn or_default(o: Option<u32>, d: u32) -> u32 {
    match o {
        Some(v) => v,
        None => d,
    }
}

fn offers_live_rate(m: &CaptureMode) -> (r: bool)
    ensures
        r == is_eligible(*m),
{
    let n = m.frame_rates.len();
    let mut k: usize = 0;
    while k < n
        invariant
            n == m.frame_rates@.len(),
            k <= n,
            forall|q: int| 0 <= q < k ==> m.frame_rates@[q] < MIN_FRAME_RATE,
        decreases n - k,
    {
        if m.frame_rates[k] >= MIN_FRAME_RATE {
            return true;
        }
        k = k + 1;
    }
    false
}

fn highest_rate(rates: &Vec<u32>) -> (r: u32)
    requires
        rates@.len() > 0,
    ensures
        is_highest(r, rates@),
{
    let mut best = rates[0];
    let mut k: usize = 1;
    while k < rates.len()
        invariant
            1 <= k <= rates@.len(),
            exists|q: int| 0 <= q < k && rates@[q] == best,
            forall|q: int| 0 <= q < k ==> #[trigger] rates@[q] <= best,
        decreases rates@.len() - k,
    {
        if rates[k] > best {
            best = rates[k];
        }
        k = k + 1;
    }
    best
}

/// Picks the capture format: the largest resolution among the modes that
/// offer a live frame rate, at its highest frame rate. A requested width,
/// height or frame rate overrides the one picked. When no mode offers a live
/// frame rate there is nothing to capture at.
pub fn choose_capture_format(
    modes: &Vec<CaptureMode>,
    width: Option<u32>,
    height: Option<u32>,
    fps: Option<u32>,
) -> (r: Result<CaptureFormat, HideError>)
    ensures
        r is Ok <==> exists|i: int| 0 <= i < modes@.len() && is_eligible(#[trigger] modes@[i]),
        r is Err ==> r == Err::<CaptureFormat, HideError>(HideError::NoCameraFormats),
        r matches Ok(f) ==> exists|i: int|
            #[trigger] is_best_mode(modes@, i) && f.width == or_default(width, modes@[i].width) && f.height
                == or_default(height, modes@[i].height) && (fps matches Some(v) ==> f.frame_rate == v) && (
            fps is None ==> is_highest(f.frame_rate, modes@[i].frame_rates@)),
{
    let n = modes.len();
    let mut best: Option<usize> = None;
    let mut k: usize = 0;
    while k < n
        invariant
            n == modes@.len(),
            k <= n,
            best matches Some(b) ==> {
                &&& b < k
                &&& is_eligible(modes@[b as int])
                &&& forall|j: int|
                    0 <= j < k && is_eligible(#[trigger] modes@[j]) ==> resolution_le(modes@[j], modes@[b as int])
                &&& forall|j: int|
                    b < j < k && is_eligible(#[trigger] modes@[j]) ==> !resolution_le(modes@[b as int], modes@[j])
            },
            best is None ==> forall|j: int| 0 <= j < k ==> !is_eligible(#[trigger] modes@[j]),
        decreases n - k,
    {
        let m = &modes[k];
        if offers_live_rate(m) {
            let replace = match best {
                None => true,
                Some(b) => {
                    let cur = &modes[b];
                    cur.width < m.width || (cur.width == m.width && cur.height <= m.height)
                },
            };
            if replace {
                best = Some(k);
            }
        }
        k = k + 1;
    }
    match best {
        None => Err(HideError::NoCameraFormats),
        Some(b) => {
            let m = &modes[b];
            let rate = match fps {
                Some(v) => v,
                None => highest_rate(&m.frame_rates),
            };
            let w = match width {
                Some(v) => v,
                None => m.width,
            };
            let h = match height {
                Some(v) => v,
                None => m.height,
            };
            let f = CaptureFormat { width: w, height: h, frame_rate: rate };
            assert(is_best_mode(modes@, b as int));
            Ok(f)
        },
    }
}

/// The camera to open: the requested index, else the lowest index present.
/// Without any camera there is none to open.
pub fn choose_camera(indices: &Vec<u32>, requested: Option<u32>) -> (r: Option<u32>)
    ensures
        indices@.len() == 0 ==> r is None,
        indices@.len() > 0 && requested is Some ==> r == requested,
        indices@.len() > 0 && requested is None ==> (r matches Some(v) && indices@.contains(v) && forall|k: int|
            0 <= k < indices@.len() ==> v <= #[trigger] indices@[k]),
{
    if indices.len() == 0 {
        return None;
    }
    match requested {
        Some(v) => Some(v),
        None => {
            let mut low = indices[0];
            let mut k: usize = 1;
            while k < indices.len()
                invariant
                    1 <= k <= indices@.len(),
                    indices@.contains(low),
                    forall|q: int| 0 <= q < k ==> low <= #[trigger] indices@[q],
                decreases indices@.len() - k,
            {
                if indices[k] < low {
                    low = indices[k];
                }
                k = k + 1;
            }
            Some(low)
        },
    }
}

/// Position of the first device called `name`.
pub fn find_device(names: &Vec<String>, name: &str) -> (r: Option<usize>)
    ensures
        r matches Some(i) ==> i < names@.len() && names@[i as int]@ == name@ && forall|k: int|
            0 <= k < i ==> #[trigger] names@[k]@ != name@,
        r is None ==> forall|k: int| 0 <= k < names@.len() ==> #[trigger] names@[k]@ != name@,
{
    let n = names.len();
    let mut k: usize = 0;
    while k < n
        invariant
            n == names@.len(),
            k <= n,
            forall|q: int| 0 <= q < k ==> #[trigger] names@[q]@ != name@,
        decreases n - k,
    {
        if same_text(names[k].as_str(), name) {
            return Some(k);
        }
        k = k + 1;
    }
    None
}

/// A background of one colour at the given size (RGBA).
pub fn solid_background(width: u32, height: u32, pixel: [u8; 4]) -> (r: Vec<u8>)
    requires
        4 * width * height <= usize::MAX,
    ensures
        r@.len() == 4 * width * height,
        forall|p: int, c: int| 0 <= p < width * height && 0 <= c < 4 ==> #[trigger] r@[4 * p + c] == pixel@[c],
{
    proof {
        assert(width * height <= 4 * width * height) by (nonlinear_arith);
    }
    let pixels = width as usize * height as usize;
    proof {
        assert(4 * pixels == 4 * width * height) by (nonlinear_arith)
            requires
                pixels == width * height,
        ;
    }
    let mut r: Vec<u8> = Vec::with_capacity(4 * pixels);
    let mut p: usize = 0;
    while p < pixels
        invariant
            4 * pixels <= usize::MAX,
            p <= pixels,
            r@.len() == 4 * p,
            forall|q: int, c: int| 0 <= q < p && 0 <= c < 4 ==> #[trigger] r@[4 * q + c] == pixel@[c],
        decreases pixels - p,
    {
        r.push(pixel[0]);
        r.push(pixel[1]);
        r.push(pixel[2]);
        r.push(pixel[3]);
        p = p + 1;
    }
    r
}

} // verus!
