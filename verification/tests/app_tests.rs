use gst_cam_rs::app::{Command, PreviewRequest, SwitchPlan, UiEvent, WebcamApp};
use gst_cam_rs::format::{available_formats_for, FormatOption};
use gst_cam_rs::settings::AppSettings;

fn settings(dir: &str) -> AppSettings {
    AppSettings { save_directory: dir.to_string() }
}

fn started(devices: &[&str]) -> (WebcamApp, Command) {
    let names: Vec<String> = devices.iter().map(|d| d.to_string()).collect();
    WebcamApp::new(settings("/videos"), &names)
}

/// An app with two cameras whose first camera offers only the fallback formats.
fn ready_app() -> WebcamApp {
    let (mut app, cmd) = started(&["Cam A: usb-1", "Cam B"]);
    assert_eq!(cmd, Command::ReloadCamera { camera: 0 });
    app.update_available_formats(None);
    let plan = app.switch_camera();
    assert!(plan.preview.is_some());
    app
}

#[test]
fn startup_without_cameras() {
    let (app, cmd) = started(&[]);
    assert_eq!(cmd, Command::Nothing);
    assert!(app.cameras.is_empty());
    assert!(app.available_formats.is_empty());
    assert!(!app.is_recording);
    assert_eq!(app.quarter_turns, 0);
    assert_eq!(app.settings.save_directory, "/videos");
}

#[test]
fn startup_with_cameras_reloads_first() {
    let (app, cmd) = started(&["Cam A: usb-1", "Cam B"]);
    assert_eq!(cmd, Command::ReloadCamera { camera: 0 });
    assert_eq!(app.cameras, vec![String::from("Cam A"), String::from("Cam B")]);
    assert_eq!(app.selected_camera_idx, 0);
}

#[test]
fn formats_without_camera_stay_empty() {
    let (mut app, _) = started(&[]);
    app.update_available_formats(Some(vec![true; 126]));
    assert!(app.available_formats.is_empty());
    let plan = app.switch_camera();
    assert_eq!(plan, SwitchPlan { stop_recording: false, preview: None });
}

#[test]
fn switch_starts_preview_in_selected_format() {
    let app = ready_app();
    assert_eq!(app.available_formats, available_formats_for(&None));
    assert_eq!(app.selected_format_idx, 0);
}

#[test]
fn format_pick_switches_camera() {
    let mut app = ready_app();
    let cmd = app.update(UiEvent::Selected { camera: None, format: Some(2) });
    assert_eq!(cmd, Command::SwitchCamera);
    let plan = app.switch_camera();
    assert_eq!(
        plan.preview,
        Some(PreviewRequest { camera: 0, format: FormatOption { width: 640, height: 480, fps: 30, is_mjpeg: false } })
    );
}

#[test]
fn camera_pick_reloads_and_resets_format() {
    let mut app = ready_app();
    let cmd = app.update(UiEvent::Selected { camera: Some(1), format: Some(2) });
    assert_eq!(cmd, Command::ReloadCamera { camera: 1 });
    assert_eq!(app.selected_camera_idx, 1);
    let mut probe = vec![false; 126];
    probe[70] = true;
    app.update_available_formats(Some(probe));
    assert_eq!(app.selected_format_idx, 0);
    assert_eq!(app.available_formats, vec![FormatOption { width: 2560, height: 1440, fps: 60, is_mjpeg: false }]);
    let plan = app.switch_camera();
    assert_eq!(plan.preview.map(|p| p.camera), Some(1));
}

#[test]
fn empty_selection_does_nothing() {
    let mut app = ready_app();
    assert_eq!(app.update(UiEvent::Selected { camera: None, format: None }), Command::Nothing);
}

#[test]
fn record_start_and_stop() {
    let mut app = ready_app();
    assert_eq!(app.record_button_label(), "Start Recording");
    let cmd = app.update(UiEvent::RecordClicked);
    assert_eq!(
        cmd,
        Command::StartRecording {
            directory: String::from("/videos"),
            format: FormatOption { width: 1920, height: 1080, fps: 30, is_mjpeg: true },
        }
    );
    assert!(!app.is_recording);
    assert_eq!(app.update(UiEvent::RecordingStarted), Command::Nothing);
    assert!(app.is_recording);
    assert_eq!(app.record_button_label(), "Stop Recording");
    assert_eq!(app.update(UiEvent::RecordClicked), Command::StopRecording);
    assert!(!app.is_recording);
}

#[test]
fn switching_camera_stops_recording() {
    let mut app = ready_app();
    app.update(UiEvent::RecordClicked);
    app.update(UiEvent::RecordingStarted);
    let plan = app.switch_camera();
    assert!(plan.stop_recording);
    assert!(!app.is_recording);
    let plan = app.switch_camera();
    assert!(!plan.stop_recording);
}

#[test]
fn capture_uses_save_directory() {
    let mut app = ready_app();
    assert_eq!(app.update(UiEvent::CaptureClicked), Command::Capture { directory: String::from("/videos") });
}

#[test]
fn four_rotations_return_to_start() {
    let mut app = ready_app();
    let mut sideways = Vec::new();
    for _ in 0..4 {
        assert_eq!(app.update(UiEvent::RotateClicked), Command::Nothing);
        sideways.push(app.is_rotated_sideways());
    }
    assert_eq!(sideways, vec![true, false, true, false]);
    assert_eq!(app.quarter_turns, 0);
}

#[test]
fn flips_undo_themselves() {
    let mut app = ready_app();
    app.update(UiEvent::FlipHorizontalClicked);
    assert!(app.flip_horizontal);
    app.update(UiEvent::FlipVerticalClicked);
    assert!(app.flip_vertical);
    app.update(UiEvent::FlipHorizontalClicked);
    app.update(UiEvent::FlipVerticalClicked);
    assert!(!app.flip_horizontal);
    assert!(!app.flip_vertical);
}

#[test]
fn settings_window_toggle_and_close() {
    let mut app = ready_app();
    app.update(UiEvent::SettingsClicked);
    assert!(app.show_settings);
    app.update(UiEvent::SettingsClicked);
    assert!(!app.show_settings);
    app.update(UiEvent::SettingsClicked);
    app.update(UiEvent::SettingsClosed);
    assert!(!app.show_settings);
}

#[test]
fn edited_directory_is_saved_and_used() {
    let mut app = ready_app();
    app.update(UiEvent::SettingsClicked);
    let cmd = app.update(UiEvent::SaveDirectoryEdited(String::from("/data/clips")));
    assert_eq!(cmd, Command::SaveSettings { save_directory: String::from("/data/clips") });
    assert_eq!(app.update(UiEvent::CaptureClicked), Command::Capture { directory: String::from("/data/clips") });
    match app.update(UiEvent::RecordClicked) {
        Command::StartRecording { directory, .. } => assert_eq!(directory, "/data/clips"),
        other => panic!("unexpected command {:?}", other),
    }
}

#[test]
fn directory_edit_ignored_when_window_closed() {
    let mut app = ready_app();
    let cmd = app.update(UiEvent::SaveDirectoryEdited(String::from("/elsewhere")));
    assert_eq!(cmd, Command::Nothing);
    assert_eq!(app.settings.save_directory, "/videos");
}
