use hide_my_mess::capture::{
    choose_camera, choose_capture_format, find_device, solid_background, CaptureFormat, CaptureMode,
    DEFAULT_BACKGROUND, VIRTUAL_CAMERA_NAME,
};
use hide_my_mess::HideError;

fn mode(width: u32, height: u32, rates: &[u32]) -> CaptureMode {
    CaptureMode { width, height, frame_rates: rates.to_vec() }
}

#[test]
fn picks_largest_live_mode_at_highest_rate() {
    let modes = vec![mode(640, 480, &[30, 15]), mode(1920, 1080, &[5, 10]), mode(1280, 720, &[24, 60, 30])];
    let f = choose_capture_format(&modes, None, None, None).unwrap();
    assert_eq!(f, CaptureFormat { width: 1280, height: 720, frame_rate: 60 });
}

#[test]
fn overrides_replace_picked_values() {
    let modes = vec![mode(640, 480, &[30]), mode(1280, 720, &[30])];
    let f = choose_capture_format(&modes, Some(800), None, Some(25)).unwrap();
    assert_eq!(f, CaptureFormat { width: 800, height: 720, frame_rate: 25 });
}

#[test]
fn height_breaks_width_ties() {
    let modes = vec![mode(1280, 960, &[30]), mode(1280, 720, &[30])];
    let f = choose_capture_format(&modes, None, None, None).unwrap();
    assert_eq!((f.width, f.height), (1280, 960));
}

#[test]
fn no_live_mode_is_an_error() {
    let modes = vec![mode(640, 480, &[15, 10])];
    assert_eq!(choose_capture_format(&modes, None, None, None), Err(HideError::NoCameraFormats));
    assert_eq!(choose_capture_format(&Vec::new(), None, None, None), Err(HideError::NoCameraFormats));
}

#[test]
fn camera_defaults_to_lowest_index() {
    assert_eq!(choose_camera(&vec![3, 1, 2], None), Some(1));
    assert_eq!(choose_camera(&vec![3, 1, 2], Some(7)), Some(7));
    assert_eq!(choose_camera(&Vec::new(), Some(0)), None);
}

#[test]
fn finds_virtual_camera_by_name() {
    let names = vec!["Integrated Webcam".to_string(), "fake-cam".to_string(), "fake-cam".to_string()];
    assert_eq!(find_device(&names, VIRTUAL_CAMERA_NAME), Some(1));
    assert_eq!(find_device(&names[..1].to_vec(), VIRTUAL_CAMERA_NAME), None);
}

#[test]
fn solid_background_fills_every_pixel() {
    let bg = solid_background(3, 2, DEFAULT_BACKGROUND);
    assert_eq!(bg.len(), 24);
    assert_eq!(bg, [127, 212, 255, 255].repeat(6));
}
