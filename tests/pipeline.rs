use hide_my_mess::normalize::PixelLayout;
use hide_my_mess::pipeline::{
    Action, BackgroundMode, Event, Failure, Matte, Phase, PipelineConfig, PipelineDriver, Stage, StopReason,
};
use hide_my_mess::recurrent::InitialRecurrentState;

fn config(width: u32, height: u32, mode: BackgroundMode, warmup_frames: u32) -> PipelineConfig {
    PipelineConfig { width, height, layout: PixelLayout::Rgba, mode, warmup_frames }
}

fn zero_state() -> InitialRecurrentState<u64> {
    InitialRecurrentState::new(0, 0, 0, 0)
}

fn rgba(pixels: usize, rgb: [u8; 3]) -> Vec<u8> {
    (0..pixels).flat_map(|_| [rgb[0], rgb[1], rgb[2], 255]).collect()
}

/// An engine that returns a fixed matte and adds one to every state value.
fn stub_matte(state: &InitialRecurrentState<u64>, pixels: usize, fg: u8, alpha: u8) -> Matte<u64> {
    Matte {
        foreground: vec![fg; 3 * pixels],
        alpha: vec![alpha; pixels],
        state: InitialRecurrentState::new(state.r1 + 1, state.r2 + 1, state.r3 + 1, state.r4 + 1),
    }
}

fn captured(pixels: Vec<u8>) -> Event<u64> {
    Event::Captured { pixels, backdrop: None }
}

#[test]
fn warmup_discards_frames_before_inference() {
    let mut d = PipelineDriver::new(config(1, 1, BackgroundMode::Static, 2), rgba(1, [0, 0, 0]), zero_state());
    assert_eq!(d.pending_action(), Action::Prepare);
    assert_eq!(d.step(Event::Ready), Action::Acquire);
    assert_eq!(d.phase(), Phase::Warming(2));
    assert_eq!(d.step(captured(vec![1, 2, 3, 4])), Action::Acquire);
    assert_eq!(d.phase(), Phase::Warming(1));
    assert_eq!(d.step(captured(vec![1, 2, 3, 4])), Action::Acquire);
    assert_eq!(d.phase(), Phase::Steady(Stage::Acquire));
    assert!(d.tensor().is_empty());
    assert_eq!(d.step(captured(vec![9, 8, 7, 6])), Action::Infer);
    assert_eq!(d.tensor(), &[9, 8, 7]);
}

#[test]
fn state_threads_through_every_frame() {
    let mut d = PipelineDriver::new(config(2, 1, BackgroundMode::Static, 0), rgba(2, [0, 0, 0]), zero_state());
    d.step(Event::Ready);
    for n in 1..=7u64 {
        assert_eq!(d.step(captured(rgba(2, [5, 5, 5]))), Action::Infer);
        assert_eq!(d.recurrent_state().r1, n - 1);
        let m = stub_matte(d.recurrent_state(), 2, 1, 0);
        assert_eq!(d.step(Event::Matted(m)), Action::Emit);
        assert_eq!(d.step(Event::Written), Action::Acquire);
        let s = d.recurrent_state();
        assert_eq!((s.r1, s.r2, s.r3, s.r4), (n, n, n, n));
    }
}

#[test]
fn end_to_end_two_by_two_frame() {
    let mut d = PipelineDriver::new(config(2, 2, BackgroundMode::Static, 0), rgba(4, [10, 10, 10]), zero_state());
    assert_eq!(d.step(Event::Ready), Action::Acquire);
    assert_eq!(d.step(captured(rgba(4, [50, 60, 70]))), Action::Infer);
    assert_eq!(d.tensor(), [50, 60, 70].repeat(4).as_slice());
    assert_eq!(d.downsample_ratio().numerator, 1);
    let m = stub_matte(d.recurrent_state(), 4, 200, 128);
    assert_eq!(d.step(Event::Matted(m)), Action::Emit);
    assert_eq!(d.output().len(), 12);
    for v in d.output() {
        assert!((104..=106).contains(v), "got {v}");
    }
    assert_eq!(d.output()[0], 105);
}

#[test]
fn engine_failure_stops_before_emitting() {
    let mut d = PipelineDriver::new(config(1, 1, BackgroundMode::Static, 0), rgba(1, [0, 0, 0]), zero_state());
    d.step(Event::Ready);
    let mut emitted = 0;
    for frame in 1..=10 {
        if d.step(captured(rgba(1, [frame, frame, frame]))) != Action::Infer {
            break;
        }
        let action = if frame == 3 {
            d.step(Event::Failed(Failure::Engine))
        } else {
            let m = stub_matte(d.recurrent_state(), 1, frame, 255);
            d.step(Event::Matted(m))
        };
        if action != Action::Emit {
            assert_eq!(action, Action::Halt);
            break;
        }
        assert_eq!(d.output(), &[frame, frame, frame]);
        emitted += 1;
        d.step(Event::Written);
    }
    assert_eq!(emitted, 2);
    assert_eq!(d.phase(), Phase::Stopped(StopReason::Error(Failure::Engine)));
    assert_eq!(d.output(), &[2, 2, 2]);
    assert_eq!(d.step(captured(rgba(1, [9, 9, 9]))), Action::Halt);
    assert_eq!(d.step(Event::Ready), Action::Halt);
}

#[test]
fn malformed_frame_is_a_capture_failure() {
    let mut d = PipelineDriver::new(config(2, 2, BackgroundMode::Static, 0), rgba(4, [0, 0, 0]), zero_state());
    d.step(Event::Ready);
    assert_eq!(d.step(captured(vec![1, 2, 3])), Action::Halt);
    assert_eq!(d.phase(), Phase::Stopped(StopReason::Error(Failure::Capture)));
}

#[test]
fn malformed_matte_is_an_engine_failure() {
    let mut d = PipelineDriver::new(config(2, 2, BackgroundMode::Static, 0), rgba(4, [0, 0, 0]), zero_state());
    d.step(Event::Ready);
    d.step(captured(rgba(4, [1, 1, 1])));
    let m = Matte { foreground: vec![0; 12], alpha: vec![0; 3], state: zero_state() };
    assert_eq!(d.step(Event::Matted(m)), Action::Halt);
    assert_eq!(d.phase(), Phase::Stopped(StopReason::Error(Failure::Engine)));
}

#[test]
fn sink_failure_and_termination_stop_the_run() {
    let mut d = PipelineDriver::new(config(1, 1, BackgroundMode::Static, 0), rgba(1, [0, 0, 0]), zero_state());
    d.step(Event::Ready);
    d.step(captured(rgba(1, [1, 1, 1])));
    let m = stub_matte(d.recurrent_state(), 1, 1, 255);
    d.step(Event::Matted(m));
    assert_eq!(d.step(Event::Failed(Failure::Sink)), Action::Halt);
    assert_eq!(d.phase(), Phase::Stopped(StopReason::Error(Failure::Sink)));

    let mut e = PipelineDriver::new(config(1, 1, BackgroundMode::Static, 3), rgba(1, [0, 0, 0]), zero_state());
    e.step(Event::Ready);
    assert_eq!(e.step(Event::Terminated), Action::Halt);
    assert_eq!(e.phase(), Phase::Stopped(StopReason::Shutdown));
}

#[test]
fn unexpected_events_change_nothing() {
    let mut d = PipelineDriver::new(config(1, 1, BackgroundMode::Static, 0), rgba(1, [0, 0, 0]), zero_state());
    assert_eq!(d.step(Event::Written), Action::Prepare);
    d.step(Event::Ready);
    assert_eq!(d.step(Event::Written), Action::Acquire);
    let m = stub_matte(d.recurrent_state(), 1, 1, 255);
    assert_eq!(d.step(Event::Matted(m)), Action::Acquire);
    assert_eq!(d.recurrent_state().r1, 0);
}

#[test]
fn dynamic_blur_composites_over_frame_backdrop() {
    let mut d = PipelineDriver::new(config(1, 1, BackgroundMode::DynamicBlur, 0), rgba(1, [0, 0, 0]), zero_state());
    d.step(Event::Ready);
    let ev = Event::Captured { pixels: rgba(1, [1, 2, 3]), backdrop: Some(vec![40, 50, 60, 255]) };
    assert_eq!(d.step(ev), Action::Infer);
    let m = stub_matte(d.recurrent_state(), 1, 200, 0);
    assert_eq!(d.step(Event::Matted(m)), Action::Emit);
    assert_eq!(d.output(), &[40, 50, 60]);

    let mut e = PipelineDriver::new(config(1, 1, BackgroundMode::DynamicBlur, 0), rgba(1, [0, 0, 0]), zero_state());
    e.step(Event::Ready);
    assert_eq!(e.step(captured(rgba(1, [1, 2, 3]))), Action::Halt);
    assert_eq!(e.phase(), Phase::Stopped(StopReason::Error(Failure::Capture)));
}
