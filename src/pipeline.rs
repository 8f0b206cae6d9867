use vstd::prelude::*;

use crate::composite::{all_opaque, all_transparent, composite, is_layer_of, overlay_of};
use crate::downsample::{auto_downsample_ratio, ratio_spec, DownsampleRatio};
use crate::normalize::{is_rgb_of, FrameNormalizer, PixelLayout};
use crate::recurrent::InitialRecurrentState;

verus! {

/// Where the background behind the subject comes from.
#[derive(Debug, Clone, Copy, PartialEq, Eq, Structural)]
pub enum BackgroundMode {
    /// A fixed image, loaded once at the capture resolution.
    Static,
    /// A blurred copy of each captured frame, supplied with the frame.
    DynamicBlur,
}

/// Which collaborator failed. Every failure ends the run.
#[derive(Debug, Clone, Copy, PartialEq, Eq, Structural)]
pub enum Failure {
    Capture,
    Engine,
    Sink,
}

#[derive(Debug, Clone, Copy, PartialEq, Eq, Structural)]
pub enum StopReason {
    Error(Failure),
    Shutdown,
}

/// Position inside the steady per-frame cycle.
#[derive(Debug, Clone, Copy, PartialEq, Eq, Structural)]
pub enum Stage {
    /// Waiting for the next captured frame.
    Acquire,
    /// The frame is normalized; waiting for the engine's matte.
    Infer,
    /// The frame is composited; waiting for the sink to take it.
    Emit,
}

#[derive(Debug, Clone, Copy, PartialEq, Eq, Structural)]
pub enum Phase {
    Uninitialized,
    /// Frames still to be captured and thrown away before inference starts.
    Warming(u32),
    Steady(Stage),
    Stopped(StopReason),
}

/// What the caller must do next.
#[derive(Debug, Clone, Copy, PartialEq, Eq, Structural)]
pub enum Action {
    /// Open the capture stream and load the engine, then report `Ready`.
    Prepare,
    /// Capture one frame and report it with `Captured`.
    Acquire,
    /// Run the engine on `tensor()`, `downsample_ratio()` and
    /// `recurrent_state()`, and report the result with `Matted`.
    Infer,
    /// Write `output()` to the sink and report `Written`.
    Emit,
    /// Stop: the run is over.
    Halt,
}

/// The engine's answer for one frame: foreground colour (RGB, one byte per
/// channel), opacity (one byte per pixel) and the next recurrent state.
pub struct Matte<S> {
    pub foreground: Vec<u8>,
    pub alpha: Vec<u8>,
    pub state: InitialRecurrentState<S>,
}

/// What happened since the last action.
pub enum Event<S> {
    Ready,
    Captured { pixels: Vec<u8>, backdrop: Option<Vec<u8>> },
    Matted(Matte<S>),
    Written,
    Failed(Failure),
    Terminated,
}

/// Fixed for the life of one capture session.
#[derive(Debug, Clone, Copy, PartialEq, Eq, Structural)]
pub struct PipelineConfig {
    pub width: u32,
    pub height: u32,
    pub layout: PixelLayout,
    pub mode: BackgroundMode,
    pub warmup_frames: u32,
}

impl PipelineConfig {
    pub open spec fn pixels(self) -> nat {
        (self.width * self.height) as nat
    }
}

/// A captured frame is usable: it has the session's size and layout and,
/// when the background follows the frame, comes with a full RGBA backdrop.
pub open spec fn frame_accepted(config: PipelineConfig, pixels: Seq<u8>, backdrop: Option<Vec<u8>>) -> bool {
    &&& pixels.len() == config.pixels() * config.layout.spec_bytes_per_pixel()
    &&& config.mode == BackgroundMode::DynamicBlur ==> (backdrop matches Some(b) && b@.len() == 4 * config.pixels())
}

/// A matte is usable: one RGB foreground pixel and one alpha byte per pixel.
pub open spec fn matte_accepted<S>(config: PipelineConfig, m: Matte<S>) -> bool {
    &&& m.foreground@.len() == 3 * config.pixels()
    &&& m.alpha@.len() == config.pixels()
}

pub open spec fn is_stopped(phase: Phase) -> bool {
    phase is Stopped
}

/// The phase after `event` arrives in `phase`. An event that the phase does
/// not wait for changes nothing; a stopped pipeline stays stopped.
pub open spec fn next_phase<S>(config: PipelineConfig, phase: Phase, event: Event<S>) -> Phase {
    if is_stopped(phase) {
        phase
    } else {
        match event {
            Event::Terminated => Phase::Stopped(StopReason::Shutdown),
            Event::Failed(f) => Phase::Stopped(StopReason::Error(f)),
            Event::Ready => match phase {
                Phase::Uninitialized => if config.warmup_frames > 0 {
                    Phase::Warming(config.warmup_frames)
                } else {
                    Phase::Steady(Stage::Acquire)
                },
                _ => phase,
            },
            Event::Captured { pixels, backdrop } => match phase {
                Phase::Warming(k) => if k > 1 {
                    Phase::Warming((k - 1) as u32)
                } else {
                    Phase::Steady(Stage::Acquire)
                },
                Phase::Steady(Stage::Acquire) => if frame_accepted(config, pixels@, backdrop) {
                    Phase::Steady(Stage::Infer)
                } else {
                    Phase::Stopped(StopReason::Error(Failure::Capture))
                },
                _ => phase,
            },
            Event::Matted(m) => match phase {
                Phase::Steady(Stage::Infer) => if matte_accepted(config, m) {
                    Phase::Steady(Stage::Emit)
                } else {
                    Phase::Stopped(StopReason::Error(Failure::Engine))
                },
                _ => phase,
            },
            Event::Written => match phase {
                Phase::Steady(Stage::Emit) => Phase::Steady(Stage::Acquire),
                _ => phase,
            },
        }
    }
}

/// The background a taken frame is composited over: the static one, or the
/// backdrop that came with the frame.
pub open spec fn backdrop_for(config: PipelineConfig, background: Seq<u8>, backdrop: Option<Vec<u8>>) -> Seq<u8> {
    match config.mode {
        BackgroundMode::Static => background,
        BackgroundMode::DynamicBlur => match backdrop {
            Some(b) => b@,
            None => background,
        },
    }
}

/// `event` brings a usable frame while the cycle waits for one.
pub open spec fn frame_taken<S>(config: PipelineConfig, phase: Phase, event: Event<S>) -> bool {
    &&& phase == Phase::Steady(Stage::Acquire)
    &&& event matches Event::Captured { pixels, backdrop } && frame_accepted(config, pixels@, backdrop)
}

/// `event` brings a usable matte while the cycle waits for one.
pub open spec fn matte_taken<S>(config: PipelineConfig, phase: Phase, event: Event<S>) -> bool {
    &&& phase == Phase::Steady(Stage::Infer)
    &&& event matches Event::Matted(m) && matte_accepted(config, m)
}

/// The action each phase asks of the caller.
pub open spec fn action_for(phase: Phase) -> Action {
    match phase {
        Phase::Uninitialized => Action::Prepare,
        Phase::Warming(_) => Action::Acquire,
        Phase::Steady(Stage::Acquire) => Action::Acquire,
        Phase::Steady(Stage::Infer) => Action::Infer,
        Phase::Steady(Stage::Emit) => Action::Emit,
        Phase::Stopped(_) => Action::Halt,
    }
}

/// The recurrent state after `event` arrives: the matte's state when the
/// event is a usable matte the cycle waits for, else the state as it was.
pub open spec fn state_after_event<S>(
    config: PipelineConfig,
    phase: Phase,
    state: InitialRecurrentState<S>,
    event: Event<S>,
) -> InitialRecurrentState<S> {
    match event {
        Event::Matted(m) => if matte_taken(config, phase, Event::Matted(m)) {
            m.state
        } else {
            state
        },
        _ => state,
    }
}

/// Copies `src` over `dst` without reallocating.
fn copy_bytes(dst: &mut Vec<u8>, src: &[u8])
    requires
        old(dst)@.len() == src@.len(),
    ensures
        final(dst)@ == src@,
{
    let n = src.len();
    let mut k: usize = 0;
    while k < n
        invariant
            n == src@.len(),
            dst@.len() == n,
            k <= n,
            forall|i: int| 0 <= i < k ==> dst@[i] == src@[i],
        decreases n - k,
    {
        dst.set(k, src[k]);
        k = k + 1;
    }
    assert(dst@ =~= src@);
}

/// Sequences one capture session: warm-up, then once per frame
/// normalize, infer, update the recurrent state, composite and emit.
/// It owns every buffer of the cycle and reuses them from frame to frame;
/// the caller performs the actions it asks for and reports the outcome.
pub struct PipelineDriver<S> {
    config: PipelineConfig,
    pixels: usize,
    phase: Phase,
    normalizer: FrameNormalizer,
    state: InitialRecurrentState<S>,
    background: Vec<u8>,
    canvas: Vec<u8>,
    layer: Vec<u8>,
    output: Vec<u8>,
}

impl<S> PipelineDriver<S> {
    pub closed spec fn wf(&self) -> bool {
        &&& self.normalizer.wf()
        &&& self.pixels == self.config.pixels()
        &&& 4 * self.pixels <= usize::MAX
        &&& self.background@.len() == 4 * self.pixels
        &&& self.canvas@.len() == 4 * self.pixels
    }

    pub closed spec fn spec_config(&self) -> PipelineConfig {
        self.config
    }

    pub closed spec fn spec_phase(&self) -> Phase {
        self.phase
    }

    /// The tensor of the frame being processed.
    pub closed spec fn spec_tensor(&self) -> Seq<u8> {
        self.normalizer.spec_tensor()
    }

    pub closed spec fn spec_state(&self) -> InitialRecurrentState<S> {
        self.state
    }

    /// The static background (RGBA).
    pub closed spec fn spec_background(&self) -> Seq<u8> {
        self.background@
    }

    /// The background of the current frame, with the matte laid over it once
    /// the frame is composited (RGBA).
    pub closed spec fn spec_canvas(&self) -> Seq<u8> {
        self.canvas@
    }

    /// The last matte as an RGBA layer.
    pub closed spec fn spec_layer(&self) -> Seq<u8> {
        self.layer@
    }

    /// The frame handed to the sink (RGB).
    pub closed spec fn spec_output(&self) -> Seq<u8> {
        self.output@
    }

    /// A driver for one session, before the capture stream and the engine
    /// are ready. `background` is the static background at the capture
    /// resolution (RGBA); `initial` is the engine's initial recurrent state.
    pub fn new(config: PipelineConfig, background: Vec<u8>, initial: InitialRecurrentState<S>) -> (r: Self)
        requires
            background@.len() == 4 * config.pixels(),
        ensures
            r.wf(),
            r.spec_config() == config,
            r.spec_phase() == Phase::Uninitialized,
            r.spec_state() == initial,
            r.spec_background() == background@,
            r.spec_canvas() == background@,
            r.spec_tensor() == Seq::<u8>::empty(),
            r.spec_output() == Seq::<u8>::empty(),
    {
        let pixels = background.len() / 4;
        let canvas = background.clone();
        proof {
            assert(canvas@ == background@);
        }
        PipelineDriver {
            config,
            pixels,
            phase: Phase::Uninitialized,
            normalizer: FrameNormalizer::new(),
            state: initial,
            background,
            canvas,
            layer: Vec::new(),
            output: Vec::new(),
        }
    }

    pub fn config(&self) -> (r: PipelineConfig)
        ensures
            r == self.spec_config(),
    {
        self.config
    }

    pub fn phase(&self) -> (r: Phase)
        ensures
            r == self.spec_phase(),
    {
        self.phase
    }

    /// The action the current phase waits for.
    pub fn pending_action(&self) -> (r: Action)
        ensures
            r == action_for(self.spec_phase()),
    {
        match self.phase {
            Phase::Uninitialized => Action::Prepare,
            Phase::Warming(_) => Action::Acquire,
            Phase::Steady(Stage::Acquire) => Action::Acquire,
            Phase::Steady(Stage::Infer) => Action::Infer,
            Phase::Steady(Stage::Emit) => Action::Emit,
            Phase::Stopped(_) => Action::Halt,
        }
    }

    pub fn tensor(&self) -> (r: &[u8])
        requires
            self.wf(),
        ensures
            r@ == self.spec_tensor(),
    {
        self.normalizer.tensor()
    }

    pub fn recurrent_state(&self) -> (r: &InitialRecurrentState<S>)
        ensures
            *r == self.spec_state(),
    {
        &self.state
    }

    pub fn output(&self) -> (r: &[u8])
        ensures
            r@ == self.spec_output(),
    {
        self.output.as_slice()
    }

    /// The downsample hint for the session's frame size.
    pub fn downsample_ratio(&self) -> (r: DownsampleRatio)
        ensures
            r.spec_value() == ratio_spec(self.spec_config().height, self.spec_config().width),
    {
        auto_downsample_ratio(self.config.height, self.config.width)
    }
    /// Advances the session by one event and returns the next action.
    ///
    /// A usable frame, while one is awaited, is normalized into the tensor
    /// and its background is laid on the canvas. A usable matte, while one is
    /// awaited, replaces the recurrent state and is composited over the
    /// canvas into the output. A malformed frame is a capture failure, a
    /// malformed matte an engine failure; any failure stops the session.
    pub fn step(&mut self, event: Event<S>) -> (r: Action)
        requires
            old(self).wf(),
        ensures
            final(self).wf(),
            final(self).spec_config() == old(self).spec_config(),
            final(self).spec_background() == old(self).spec_background(),
            final(self).spec_canvas().len() == 4 * final(self).spec_config().pixels(),
            final(self).spec_background().len() == 4 * final(self).spec_config().pixels(),
            final(self).spec_phase() == next_phase(old(self).spec_config(), old(self).spec_phase(), event),
            final(self).spec_state() == state_after_event(
                old(self).spec_config(),
                old(self).spec_phase(),
                old(self).spec_state(),
                event,
            ),
            r == action_for(final(self).spec_phase()),
            frame_taken(old(self).spec_config(), old(self).spec_phase(), event) ==> {
                &&& event matches Event::Captured { pixels, backdrop }
                &&& is_rgb_of(
                    final(self).spec_tensor(),
                    pixels@,
                    old(self).spec_config().layout,
                    old(self).spec_config().pixels(),
                )
                &&& final(self).spec_canvas() == backdrop_for(old(self).spec_config(), old(self).spec_background(), backdrop)
                &&& final(self).spec_state() == old(self).spec_state()
                &&& final(self).spec_output() == old(self).spec_output()
            },
            matte_taken(old(self).spec_config(), old(self).spec_phase(), event) ==> {
                &&& event matches Event::Matted(m)
                &&& final(self).spec_state() == m.state
                &&& is_layer_of(final(self).spec_layer(), m.foreground@, m.alpha@, old(self).spec_config().pixels())
                &&& final(self).spec_canvas() == overlay_of(
                    old(self).spec_canvas(),
                    final(self).spec_layer(),
                    old(self).spec_config().width,
                    old(self).spec_config().height,
                )
                &&& is_rgb_of(final(self).spec_output(), final(self).spec_canvas(), PixelLayout::Rgba, old(self).spec_config().pixels())
                &&& all_transparent(m.alpha@) ==> final(self).spec_canvas() == old(self).spec_canvas()
                &&& all_opaque(m.alpha@) ==> final(self).spec_output() == m.foreground@
                &&& final(self).spec_tensor() == old(self).spec_tensor()
            },
            !frame_taken(old(self).spec_config(), old(self).spec_phase(), event) && !matte_taken(
                old(self).spec_config(),
                old(self).spec_phase(),
                event,
            ) ==> {
                &&& final(self).spec_tensor() == old(self).spec_tensor()
                &&& final(self).spec_state() == old(self).spec_state()
                &&& final(self).spec_canvas() == old(self).spec_canvas()
                &&& final(self).spec_output() == old(self).spec_output()
            },
    {
        let stopped = match self.phase {
            Phase::Stopped(_) => true,
            _ => false,
        };
        if !stopped {
            match event {
                Event::Terminated => {
                    self.phase = Phase::Stopped(StopReason::Shutdown);
                },
                Event::Failed(f) => {
                    self.phase = Phase::Stopped(StopReason::Error(f));
                },
                Event::Ready => {
                    if self.phase == Phase::Uninitialized {
                        self.phase = if self.config.warmup_frames > 0 {
                            Phase::Warming(self.config.warmup_frames)
                        } else {
                            Phase::Steady(Stage::Acquire)
                        };
                    }
                },
                Event::Captured { pixels, backdrop } => {
                    self.take_frame(pixels, backdrop);
                },
                Event::Matted(m) => {
                    self.take_matte(m);
                },
                Event::Written => {
                    if self.phase == Phase::Steady(Stage::Emit) {
                        self.phase = Phase::Steady(Stage::Acquire);
                    }
                },
            }
        }
        self.pending_action()
    }

    fn take_frame(&mut self, pixels: Vec<u8>, backdrop: Option<Vec<u8>>)
        requires
            old(self).wf(),
            !is_stopped(old(self).spec_phase()),
        ensures
            final(self).wf(),
            final(self).config == old(self).config,
            final(self).background == old(self).background,
            final(self).phase == next_phase(
                old(self).config,
                old(self).phase,
                Event::<S>::Captured { pixels, backdrop },
            ),
            final(self).state == old(self).state,
            final(self).output == old(self).output,
            frame_taken(old(self).config, old(self).phase, Event::<S>::Captured { pixels, backdrop }) ==> {
                &&& is_rgb_of(final(self).spec_tensor(), pixels@, old(self).config.layout, old(self).config.pixels())
                &&& final(self).canvas@ == backdrop_for(old(self).config, old(self).background@, backdrop)
            },
            !frame_taken(old(self).config, old(self).phase, Event::<S>::Captured { pixels, backdrop }) ==> {
                &&& final(self).spec_tensor() == old(self).spec_tensor()
                &&& final(self).canvas == old(self).canvas
            },
    {
        match self.phase {
            Phase::Warming(k) => {
                self.phase = if k > 1 {
                    Phase::Warming(k - 1)
                } else {
                    Phase::Steady(Stage::Acquire)
                };
            },
            Phase::Steady(Stage::Acquire) => {
                let layout = self.config.layout;
                let bpp = layout.bytes_per_pixel();
                let size_ok = pixels.len() == self.pixels * bpp;
                let backdrop_ok = match self.config.mode {
                    BackgroundMode::Static => true,
                    BackgroundMode::DynamicBlur => match &backdrop {
                        Some(b) => b.len() == self.canvas.len(),
                        None => false,
                    },
                };
                if size_ok && backdrop_ok {
                    let width = self.config.width as usize;
                    let height = self.config.height as usize;
                    proof {
                        assert(pixels@.len() == width * height * bpp) by (nonlinear_arith)
                            requires
                                pixels@.len() == self.pixels * bpp,
                                self.pixels == width * height,
                        ;
                    }
                    self.normalizer.normalize(pixels.as_slice(), width, height, layout);
                    match self.config.mode {
                        BackgroundMode::Static => {
                            copy_bytes(&mut self.canvas, self.background.as_slice());
                        },
                        BackgroundMode::DynamicBlur => {
                            if let Some(b) = backdrop {
                                self.canvas = b;
                            }
                        },
                    }
                    self.phase = Phase::Steady(Stage::Infer);
                } else {
                    self.phase = Phase::Stopped(StopReason::Error(Failure::Capture));
                }
            },
            _ => {},
        }
    }

    fn take_matte(&mut self, m: Matte<S>)
        requires
            old(self).wf(),
            !is_stopped(old(self).spec_phase()),
        ensures
            final(self).wf(),
            final(self).config == old(self).config,
            final(self).background == old(self).background,
            final(self).phase == next_phase(old(self).config, old(self).phase, Event::Matted(m)),
            final(self).spec_tensor() == old(self).spec_tensor(),
            matte_taken(old(self).config, old(self).phase, Event::Matted(m)) ==> {
                &&& final(self).state == m.state
                &&& is_layer_of(final(self).layer@, m.foreground@, m.alpha@, old(self).config.pixels())
                &&& final(self).canvas@ == overlay_of(
                    old(self).canvas@,
                    final(self).layer@,
                    old(self).config.width,
                    old(self).config.height,
                )
                &&& is_rgb_of(final(self).output@, final(self).canvas@, PixelLayout::Rgba, old(self).config.pixels())
                &&& all_transparent(m.alpha@) ==> final(self).canvas@ == old(self).canvas@
                &&& all_opaque(m.alpha@) ==> final(self).output@ == m.foreground@
            },
            !matte_taken(old(self).config, old(self).phase, Event::Matted(m)) ==> {
                &&& final(self).state == old(self).state
                &&& final(self).canvas == old(self).canvas
                &&& final(self).output == old(self).output
            },
    {
        if self.phase == Phase::Steady(Stage::Infer) {
            if m.foreground.len() == 3 * self.pixels && m.alpha.len() == self.pixels {
                let Matte { foreground, alpha, state } = m;
                proof {
                    let w = self.config.width;
                    let h = self.config.height;
                    assert(4 * w * h == 4 * self.pixels && 3 * w * h == 3 * self.pixels) by (nonlinear_arith)
                        requires
                            self.pixels == w * h,
                    ;
                }
                self.state.update(state);
                composite(
                    &mut self.canvas,
                    &mut self.layer,
                    &mut self.output,
                    foreground.as_slice(),
                    alpha.as_slice(),
                    self.config.width,
                    self.config.height,
                );
                self.phase = Phase::Steady(Stage::Emit);
            } else {
                self.phase = Phase::Stopped(StopReason::Error(Failure::Engine));
            }
        }
    }
}

} // verus!
