use gst_cam_rs::decimal::{append_i32, u64_text};
use gst_cam_rs::devices::{camera_display_name, camera_names};
use gst_cam_rs::frame::rgb_to_rgba;
use gst_cam_rs::paths::{capture_file_path, config_file_path, join_path, recording_file_path};
use gst_cam_rs::settings::AppSettings;

#[test]
fn decimal_text_of_unsigned_numbers() {
    assert_eq!(u64_text(0), "0");
    assert_eq!(u64_text(7), "7");
    assert_eq!(u64_text(10), "10");
    assert_eq!(u64_text(1725029869), "1725029869");
    assert_eq!(u64_text(u64::MAX), u64::MAX.to_string());
}

#[test]
fn decimal_text_of_signed_numbers() {
    for n in [0i32, 5, -5, 42, -100, i32::MAX, i32::MIN] {
        let mut s = String::from("<");
        append_i32(&mut s, n);
        assert_eq!(s, format!("<{}", n));
    }
}

#[test]
fn camera_name_is_cut_at_first_separator() {
    assert_eq!(camera_display_name("HD Pro Webcam C920: HD Pro Webcam C920"), "HD Pro Webcam C920");
    assert_eq!(camera_display_name("a: b: c"), "a");
    assert_eq!(camera_display_name(": rest"), "");
}

#[test]
fn camera_name_without_separator_is_kept() {
    assert_eq!(camera_display_name("Integrated Camera"), "Integrated Camera");
    assert_eq!(camera_display_name("a:b"), "a:b");
    assert_eq!(camera_display_name("ends with:"), "ends with:");
    assert_eq!(camera_display_name(""), "");
    assert_eq!(camera_display_name("Caméra intégrée: USB"), "Caméra intégrée");
}

#[test]
fn camera_name_listing_is_idempotent() {
    for raw in ["x: y", "Cam: one: two", "plain", ": "] {
        let once = camera_display_name(raw);
        assert_eq!(camera_display_name(&once), once);
    }
}

#[test]
fn camera_names_keep_device_order() {
    let devices = vec![String::from("B: 1"), String::from("A"), String::from("C: 3")];
    assert_eq!(camera_names(&devices), vec![String::from("B"), String::from("A"), String::from("C")]);
}

#[test]
fn join_path_inserts_one_separator() {
    assert_eq!(join_path("/home/u/Videos", "gst-cam-rs"), "/home/u/Videos/gst-cam-rs");
    assert_eq!(join_path("/home/u/Videos/", "gst-cam-rs"), "/home/u/Videos/gst-cam-rs");
    assert_eq!(join_path("", "settings.json"), "settings.json");
    assert_eq!(join_path("/", "tmp"), "/tmp");
}

#[test]
fn join_path_with_absolute_name_replaces_base() {
    assert_eq!(join_path("/home/u", "/etc/x"), "/etc/x");
}

#[test]
fn join_path_agrees_with_std() {
    for (base, name) in [("/a/b", "c"), ("a/", "b.png"), ("", "x"), ("rel", "/abs"), ("/", "y")] {
        let expected = std::path::Path::new(base).join(name).to_string_lossy().into_owned();
        assert_eq!(join_path(base, name), expected);
    }
}

#[test]
fn capture_and_recording_paths() {
    assert_eq!(capture_file_path("/tmp/gst-cam-rs", 1700000000), "/tmp/gst-cam-rs/capture_1700000000.png");
    assert_eq!(recording_file_path("/tmp/gst-cam-rs/", 42), "/tmp/gst-cam-rs/video_42.mp4");
    assert_eq!(capture_file_path("", 0), "capture_0.png");
}

#[test]
fn config_path_with_and_without_directory() {
    assert_eq!(
        config_file_path(Some("/home/u/.config/gst-cam-rs")),
        "/home/u/.config/gst-cam-rs/settings.json"
    );
    assert_eq!(config_file_path(None), "settings.json");
}

#[test]
fn default_settings_directory() {
    assert_eq!(
        AppSettings::from_video_dir(Some("/home/u/Videos")).save_directory,
        "/home/u/Videos/gst-cam-rs"
    );
    assert_eq!(AppSettings::from_video_dir(None).save_directory, "/tmp/gst-cam-rs");
}

#[test]
fn rgb_frame_becomes_opaque_rgba() {
    let rgb = [1u8, 2, 3, 4, 5, 6];
    assert_eq!(rgb_to_rgba(&rgb), vec![1, 2, 3, 255, 4, 5, 6, 255]);
    assert_eq!(rgb_to_rgba(&[]), Vec::<u8>::new());
}

#[test]
fn rgb_frame_trailing_bytes_are_dropped() {
    assert_eq!(rgb_to_rgba(&[9, 8, 7, 6, 5]), vec![9, 8, 7, 255]);
    assert_eq!(rgb_to_rgba(&[1, 2]), Vec::<u8>::new());
}
