use gst_cam_rs::format::{available_formats_for, candidate_formats, FormatOption};

fn fmt(width: i32, height: i32, fps: i32, is_mjpeg: bool) -> FormatOption {
    FormatOption { width, height, fps, is_mjpeg }
}

#[test]
fn display_name_of_formats() {
    assert_eq!(fmt(1920, 1080, 30, true).display_name(), "1920x1080 @ 30fps (MJPEG)");
    assert_eq!(fmt(640, 480, 5, false).display_name(), "640x480 @ 5fps (RAW)");
    assert_eq!(fmt(-1, 0, -30, false).display_name(), "-1x0 @ -30fps (RAW)");
}

#[test]
fn media_type_of_formats() {
    assert_eq!(fmt(1, 1, 1, true).media_type(), "image/jpeg");
    assert_eq!(fmt(1, 1, 1, false).media_type(), "video/x-raw");
}

#[test]
fn candidates_follow_probing_order() {
    let c = candidate_formats();
    assert_eq!(c.len(), 126);
    assert_eq!(c[0], fmt(3840, 2160, 60, true));
    assert_eq!(c[1], fmt(3840, 2160, 30, true));
    assert_eq!(c[7], fmt(2560, 1440, 60, true));
    assert_eq!(c[62], fmt(320, 240, 5, true));
    assert_eq!(c[63], fmt(3840, 2160, 60, false));
    assert_eq!(c[125], fmt(320, 240, 5, false));
}

#[test]
fn candidates_match_nested_loops() {
    let res = [(3840, 2160), (2560, 1440), (1920, 1080), (1600, 1200), (1280, 720), (1024, 768), (800, 600), (640, 480), (320, 240)];
    let rates = [60, 30, 25, 24, 15, 10, 5];
    let mut expected = Vec::new();
    for is_mjpeg in [true, false] {
        for (w, h) in res {
            for fps in rates {
                expected.push(fmt(w, h, fps, is_mjpeg));
            }
        }
    }
    assert_eq!(candidate_formats(), expected);
}

#[test]
fn candidates_are_distinct() {
    let c = candidate_formats();
    for i in 0..c.len() {
        for j in 0..i {
            assert_ne!(c[i], c[j]);
        }
    }
}

fn fallback() -> Vec<FormatOption> {
    vec![fmt(1920, 1080, 30, true), fmt(1280, 720, 30, true), fmt(640, 480, 30, false)]
}

#[test]
fn no_caps_gives_fallback_formats() {
    assert_eq!(available_formats_for(&None), fallback());
}

#[test]
fn nothing_supported_gives_fallback_formats() {
    assert_eq!(available_formats_for(&Some(vec![false; 126])), fallback());
}

#[test]
fn supported_formats_kept_in_order() {
    let mut probe = vec![false; 126];
    probe[100] = true;
    probe[8] = true;
    probe[63] = true;
    let c = candidate_formats();
    assert_eq!(available_formats_for(&Some(probe)), vec![c[8], c[63], c[100]]);
}

#[test]
fn everything_supported_keeps_all_candidates() {
    assert_eq!(available_formats_for(&Some(vec![true; 126])), candidate_formats());
}

#[test]
fn different_formats_get_different_labels() {
    let mut all = candidate_formats();
    all.extend(fallback());
    all.push(fmt(1, 11, 30, true));
    all.push(fmt(11, 1, 30, true));
    all.push(fmt(-1, 1, 30, false));
    all.push(fmt(1, -1, 30, false));
    for i in 0..all.len() {
        for j in 0..all.len() {
            assert_eq!(all[i].display_name() == all[j].display_name(), all[i] == all[j]);
        }
    }
}
