use hide_my_mess::downsample::{auto_downsample_ratio, DownsampleRatio};

fn as_f32(r: DownsampleRatio) -> f32 {
    r.numerator as f32 / r.denominator as f32
}

#[test]
fn ratio_is_one_below_threshold() {
    let r = auto_downsample_ratio(256, 256);
    assert_eq!(r, DownsampleRatio { numerator: 1, denominator: 1 });
    assert_eq!(as_f32(r), 1.0);
}

#[test]
fn ratio_uses_longest_side_with_margin() {
    let r = auto_downsample_ratio(1024, 768);
    assert_eq!(r, DownsampleRatio { numerator: 51200, denominator: 1024 * 106 });
    assert!((as_f32(r) - 512.0 / (1024.0 * 1.06)).abs() < 1e-6);
    assert!((as_f32(r) - 0.4717).abs() < 1e-4);
}

#[test]
fn ratio_applies_at_threshold() {
    let r = auto_downsample_ratio(512, 512);
    assert_eq!(r, DownsampleRatio { numerator: 51200, denominator: 512 * 106 });
    assert!((as_f32(r) - 0.9434).abs() < 1e-4);
}

#[test]
fn ratio_is_symmetric_in_sides() {
    assert_eq!(auto_downsample_ratio(720, 1280), auto_downsample_ratio(1280, 720));
    assert_eq!(auto_downsample_ratio(511, 100), DownsampleRatio { numerator: 1, denominator: 1 });
}
