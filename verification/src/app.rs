use vstd::prelude::*;
use vstd::string::*;

use crate::devices::{camera_label, camera_names};
use crate::format::{offered_formats, probe_view, available_formats_for, FormatOption};
use crate::settings::AppSettings;

verus! {

/// What the viewer decides on: the listed cameras and the one chosen, the
/// formats offered for it and the one chosen, whether a recording runs,
/// how the picture is flipped and turned, the settings, and whether the
/// settings window is open. The camera devices, the video pipelines and
/// the window itself are held by the program that drives this state.
pub struct WebcamApp {
    /// The listed names of the cameras found at start-up.
    pub cameras: Vec<String>,
    pub selected_camera_idx: usize,
    /// The formats offered for the chosen camera.
    pub available_formats: Vec<FormatOption>,
    pub selected_format_idx: usize,
    pub is_recording: bool,
    pub flip_horizontal: bool,
    pub flip_vertical: bool,
    /// Clockwise quarter turns applied to the picture, from 0 to 3.
    pub quarter_turns: u8,
    pub settings: AppSettings,
    pub show_settings: bool,
}

/// The mathematical model of a `WebcamApp`.
#[verifier::ext_equal]
pub struct AppModel {
    pub cameras: Seq<Seq<char>>,
    pub selected_camera: nat,
    pub formats: Seq<FormatOption>,
    pub selected_format: nat,
    pub recording: bool,
    pub flip_horizontal: bool,
    pub flip_vertical: bool,
    pub quarter_turns: nat,
    pub save_directory: Seq<char>,
    pub show_settings: bool,
}

impl View for WebcamApp {
    type V = AppModel;

    open spec fn view(&self) -> AppModel {
        AppModel {
            cameras: self.cameras@.map_values(|c: String| c@),
            selected_camera: self.selected_camera_idx as nat,
            formats: self.available_formats@,
            selected_format: self.selected_format_idx as nat,
            recording: self.is_recording,
            flip_horizontal: self.flip_horizontal,
            flip_vertical: self.flip_vertical,
            quarter_turns: self.quarter_turns as nat,
            save_directory: self.settings.save_directory@,
            show_settings: self.show_settings,
        }
    }
}

/// What the user did in one interaction with the window, or what the
/// program reports back after carrying out a command.
#[derive(Clone, Debug, PartialEq, Eq)]
pub enum UiEvent {
    /// The record button was pressed.
    RecordClicked,
    /// The recording asked for by `Command::StartRecording` has started.
    RecordingStarted,
    /// The capture button was pressed.
    CaptureClicked,
    /// The rotate button was pressed.
    RotateClicked,
    /// The vertical flip button was pressed.
    FlipVerticalClicked,
    /// The horizontal flip button was pressed.
    FlipHorizontalClicked,
    /// Entries were picked in the camera menu and/or the format menu
    /// during one frame.
    Selected { camera: Option<usize>, format: Option<usize> },
    /// The settings button was pressed.
    SettingsClicked,
    /// The settings window was closed with its close button.
    SettingsClosed,
    /// The save directory was edited in the settings window.
    SaveDirectoryEdited(String),
}

/// What the program must do after an event.
#[derive(Clone, Debug, PartialEq, Eq)]
pub enum Command {
    Nothing,
    /// Create `directory` and record the camera's video in `format` to a
    /// new MP4 file there; report `RecordingStarted` if that succeeds.
    StartRecording { directory: String, format: FormatOption },
    /// End the running recording and let its file be finished.
    StopRecording,
    /// Write the next frame as a PNG snapshot into `directory`.
    Capture { directory: String },
    /// Probe the formats of camera `camera`, pass the result to
    /// `update_available_formats`, then carry out `switch_camera`.
    ReloadCamera { camera: usize },
    /// Carry out `switch_camera`.
    SwitchCamera,
    /// Store the settings, whose save directory is now `save_directory`.
    SaveSettings { save_directory: String },
}

/// The mathematical model of a `Command`.
pub enum CommandModel {
    Nothing,
    StartRecording { directory: Seq<char>, format: FormatOption },
    StopRecording,
    Capture { directory: Seq<char> },
    ReloadCamera { camera: nat },
    SwitchCamera,
    SaveSettings { save_directory: Seq<char> },
}

impl View for Command {
    type V = CommandModel;

    open spec fn view(&self) -> CommandModel {
        match self {
            Command::Nothing => CommandModel::Nothing,
            Command::StartRecording { directory, format } => CommandModel::StartRecording {
                directory: directory@,
                format: *format,
            },
            Command::StopRecording => CommandModel::StopRecording,
            Command::Capture { directory } => CommandModel::Capture { directory: directory@ },
            Command::ReloadCamera { camera } => CommandModel::ReloadCamera { camera: *camera as nat },
            Command::SwitchCamera => CommandModel::SwitchCamera,
            Command::SaveSettings { save_directory } => CommandModel::SaveSettings {
                save_directory: save_directory@,
            },
        }
    }
}

/// The live preview to start after a camera switch: camera `camera`
/// delivering video in `format`.
#[derive(Clone, Copy, Debug, PartialEq, Eq)]
pub struct PreviewRequest {
    pub camera: usize,
    pub format: FormatOption,
}

/// What the program must do to switch cameras: end the running recording
/// if `stop_recording`, tear down the live preview, and start the preview
/// in `preview` if there is one.
#[derive(Clone, Copy, Debug, PartialEq, Eq)]
pub struct SwitchPlan {
    pub stop_recording: bool,
    pub preview: Option<PreviewRequest>,
}

impl AppModel {
    /// The chosen camera and format are entries of their lists whenever
    /// the lists are not empty, and the picture is turned less than a
    /// full turn.
    pub open spec fn wf(self) -> bool {
        &&& self.cameras.len() > 0 ==> self.selected_camera < self.cameras.len()
        &&& self.formats.len() > 0 ==> self.selected_format < self.formats.len()
        &&& self.quarter_turns < 4
    }

    /// The state at start-up, with the stored save directory and the
    /// listed names of the cameras found.
    pub open spec fn initial(save_directory: Seq<char>, cameras: Seq<Seq<char>>) -> AppModel {
        AppModel {
            cameras,
            selected_camera: 0,
            formats: seq![],
            selected_format: 0,
            recording: false,
            flip_horizontal: false,
            flip_vertical: false,
            quarter_turns: 0,
            save_directory,
            show_settings: false,
        }
    }

    /// Whether the program can take `event` in this state: a recording
    /// can only start with a format to record in, and menu picks name
    /// entries of the menus.
    pub open spec fn accepts(self, event: UiEvent) -> bool {
        match event {
            UiEvent::RecordClicked => self.recording || self.formats.len() > 0,
            UiEvent::Selected { camera, format } => {
                &&& camera matches Some(i) ==> i < self.cameras.len()
                &&& format matches Some(j) ==> j < self.formats.len()
            },
            _ => true,
        }
    }

    /// The state after `event`, and the command it gives.
    pub open spec fn next(self, event: UiEvent) -> (AppModel, CommandModel) {
        match event {
            UiEvent::RecordClicked => if self.recording {
                (AppModel { recording: false, ..self }, CommandModel::StopRecording)
            } else {
                (
                    self,
                    CommandModel::StartRecording {
                        directory: self.save_directory,
                        format: self.formats[self.selected_format as int],
                    },
                )
            },
            UiEvent::RecordingStarted => (AppModel { recording: true, ..self }, CommandModel::Nothing),
            UiEvent::CaptureClicked => (
                self,
                CommandModel::Capture { directory: self.save_directory },
            ),
            UiEvent::RotateClicked => (
                AppModel { quarter_turns: (self.quarter_turns + 1) % 4, ..self },
                CommandModel::Nothing,
            ),
            UiEvent::FlipVerticalClicked => (
                AppModel { flip_vertical: !self.flip_vertical, ..self },
                CommandModel::Nothing,
            ),
            UiEvent::FlipHorizontalClicked => (
                AppModel { flip_horizontal: !self.flip_horizontal, ..self },
                CommandModel::Nothing,
            ),
            UiEvent::Selected { camera, format } => {
                let selected_camera = match camera {
                    Some(i) => i as nat,
                    None => self.selected_camera,
                };
                let selected_format = match format {
                    Some(j) => j as nat,
                    None => self.selected_format,
                };
                let command = match camera {
                    Some(i) => CommandModel::ReloadCamera { camera: i as nat },
                    None => if format is Some {
                        CommandModel::SwitchCamera
                    } else {
                        CommandModel::Nothing
                    },
                };
                (AppModel { selected_camera, selected_format, ..self }, command)
            },
            UiEvent::SettingsClicked => (
                AppModel { show_settings: !self.show_settings, ..self },
                CommandModel::Nothing,
            ),
            UiEvent::SettingsClosed => (
                AppModel { show_settings: false, ..self },
                CommandModel::Nothing,
            ),
            UiEvent::SaveDirectoryEdited(dir) => if self.show_settings {
                (
                    AppModel { save_directory: dir@, ..self },
                    CommandModel::SaveSettings { save_directory: dir@ },
                )
            } else {
                (self, CommandModel::Nothing)
            },
        }
    }

    /// The state after the formats of the chosen camera were probed with
    /// result `probe` (see `offered_formats`): the offered formats are
    /// replaced, none when no camera was found, and the first is chosen.
    pub open spec fn with_probed_formats(self, probe: Option<Seq<bool>>) -> AppModel {
        AppModel {
            formats: if self.cameras.len() == 0 {
                seq![]
            } else {
                offered_formats(probe)
            },
            selected_format: 0,
            ..self
        }
    }

    /// The state after a camera switch: no recording runs.
    pub open spec fn after_switch(self) -> AppModel {
        AppModel { recording: false, ..self }
    }

    /// Whether a camera switch starts a live preview: only with a camera
    /// and a format to show it in.
    pub open spec fn switch_previews(self) -> bool {
        self.cameras.len() > 0 && self.formats.len() > 0
    }
}

impl WebcamApp {
    /// The state at start-up, from the stored settings and the names of
    /// the capture devices found, with the command that follows: when a
    /// camera was found, its formats are probed and its preview started.
    pub fn new(settings: AppSettings, device_names: &Vec<String>) -> (res: (WebcamApp, Command))
        ensures
            res.0@ == AppModel::initial(
                settings.save_directory@,
                device_names@.map_values(|d: String| camera_label(d@)),
            ),
            res.1@ == (if device_names@.len() > 0 {
                CommandModel::ReloadCamera { camera: 0 }
            } else {
                CommandModel::Nothing
            }),
    {
        let cameras = camera_names(device_names);
        let command = if cameras.len() > 0 {
            Command::ReloadCamera { camera: 0 }
        } else {
            Command::Nothing
        };
        let app = WebcamApp {
            cameras,
            selected_camera_idx: 0,
            available_formats: Vec::new(),
            selected_format_idx: 0,
            is_recording: false,
            flip_horizontal: false,
            flip_vertical: false,
            quarter_turns: 0,
            settings,
            show_settings: false,
        };
        assert(app@.cameras =~= device_names@.map_values(|d: String| camera_label(d@)));
        (app, command)
    }

    /// Takes one event and returns the command it gives.
    pub fn update(&mut self, event: UiEvent) -> (cmd: Command)
        requires
            old(self)@.wf(),
            old(self)@.accepts(event),
        ensures
            final(self)@ == old(self)@.next(event).0,
            cmd@ == old(self)@.next(event).1,
    {
        match event {
            UiEvent::RecordClicked => {
                if self.is_recording {
                    self.is_recording = false;
                    Command::StopRecording
                } else {
                    let format = self.available_formats[self.selected_format_idx];
                    Command::StartRecording { directory: self.settings.save_directory.clone(), format }
                }
            },
            UiEvent::RecordingStarted => {
                self.is_recording = true;
                Command::Nothing
            },
            UiEvent::CaptureClicked => Command::Capture {
                directory: self.settings.save_directory.clone(),
            },
            UiEvent::RotateClicked => {
                self.quarter_turns = (self.quarter_turns + 1) % 4;
                Command::Nothing
            },
            UiEvent::FlipVerticalClicked => {
                self.flip_vertical = !self.flip_vertical;
                Command::Nothing
            },
            UiEvent::FlipHorizontalClicked => {
                self.flip_horizontal = !self.flip_horizontal;
                Command::Nothing
            },
            UiEvent::Selected { camera, format } => {
                if let Some(i) = camera {
                    self.selected_camera_idx = i;
                }
                if let Some(j) = format {
                    self.selected_format_idx = j;
                }
                match camera {
                    Some(i) => Command::ReloadCamera { camera: i },
                    None => if format.is_some() {
                        Command::SwitchCamera
                    } else {
                        Command::Nothing
                    },
                }
            },
            UiEvent::SettingsClicked => {
                self.show_settings = !self.show_settings;
                Command::Nothing
            },
            UiEvent::SettingsClosed => {
                self.show_settings = false;
                Command::Nothing
            },
            UiEvent::SaveDirectoryEdited(dir) => {
                if self.show_settings {
                    self.settings.save_directory = dir.clone();
                    Command::SaveSettings { save_directory: dir }
                } else {
                    Command::Nothing
                }
            },
        }
    }

    /// Replaces the offered formats by those that the probe of the chosen
    /// camera admits (see `offered_formats`), and chooses the first.
    pub fn update_available_formats(&mut self, probe: Option<Vec<bool>>)
        requires
            old(self)@.wf(),
            probe matches Some(supported) ==> supported@.len() == 126,
        ensures
            final(self)@ == old(self)@.with_probed_formats(probe_view(probe)),
            final(self)@.wf(),
    {
        self.selected_format_idx = 0;
        if self.cameras.len() == 0 {
            self.available_formats = Vec::new();
        } else {
            self.available_formats = available_formats_for(&probe);
        }
        proof {
            crate::format::lemma_offered_formats_nonempty(probe_view(probe));
        }
    }

    /// Ends any recording and says which live preview to start: the chosen
    /// camera in the chosen format, when there are both.
    pub fn switch_camera(&mut self) -> (plan: SwitchPlan)
        requires
            old(self)@.wf(),
        ensures
            final(self)@ == old(self)@.after_switch(),
            plan.stop_recording == old(self)@.recording,
            match plan.preview {
                Some(p) => old(self)@.switch_previews() && p.camera as nat == old(self)@.selected_camera
                    && p.format == old(self)@.formats[old(self)@.selected_format as int],
                None => !old(self)@.switch_previews(),
            },
    {
        let stop_recording = self.is_recording;
        self.is_recording = false;
        let preview = if self.cameras.len() > 0 && self.available_formats.len() > 0 {
            Some(
                PreviewRequest {
                    camera: self.selected_camera_idx,
                    format: self.available_formats[self.selected_format_idx],
                },
            )
        } else {
            None
        };
        SwitchPlan { stop_recording, preview }
    }

    /// The caption of the record button.
    pub fn record_button_label(&self) -> (res: &'static str)
        ensures
            res@ == (if self.is_recording {
                "Stop Recording"@
            } else {
                "Start Recording"@
            }),
    {
        if self.is_recording {
            "Stop Recording"
        } else {
            "Start Recording"
        }
    }

    /// Whether the picture is turned sideways (by one or three quarter
    /// turns), so that its width and height trade places on screen.
    pub fn is_rotated_sideways(&self) -> (res: bool)
        ensures
            res == (self.quarter_turns % 2 == 1),
    {
        self.quarter_turns % 2 == 1
    }
}

/// Four quarter turns bring the picture back to where it was, and
/// turning gives no command.
pub proof fn lemma_four_quarter_turns(m: AppModel)
    requires
        m.wf(),
    ensures
        ({
            let m1 = m.next(UiEvent::RotateClicked);
            let m2 = m1.0.next(UiEvent::RotateClicked);
            let m3 = m2.0.next(UiEvent::RotateClicked);
            let m4 = m3.0.next(UiEvent::RotateClicked);
            &&& m4.0 == m
            &&& m1.1 == CommandModel::Nothing
            &&& m2.1 == CommandModel::Nothing
            &&& m3.1 == CommandModel::Nothing
            &&& m4.1 == CommandModel::Nothing
        }),
{
    let m1 = m.next(UiEvent::RotateClicked).0;
    let m2 = m1.next(UiEvent::RotateClicked).0;
    let m3 = m2.next(UiEvent::RotateClicked).0;
    let m4 = m3.next(UiEvent::RotateClicked).0;
    assert(m4 =~= m);
}

/// Flipping twice the same way, or pressing the settings button twice,
/// leaves everything as it was.
pub proof fn lemma_toggles_undo_themselves(m: AppModel)
    ensures
        m.next(UiEvent::FlipHorizontalClicked).0.next(UiEvent::FlipHorizontalClicked).0 == m,
        m.next(UiEvent::FlipVerticalClicked).0.next(UiEvent::FlipVerticalClicked).0 == m,
        m.next(UiEvent::SettingsClicked).0.next(UiEvent::SettingsClicked).0 == m,
{
    assert(m.next(UiEvent::FlipHorizontalClicked).0.next(UiEvent::FlipHorizontalClicked).0 =~= m);
    assert(m.next(UiEvent::FlipVerticalClicked).0.next(UiEvent::FlipVerticalClicked).0 =~= m);
    assert(m.next(UiEvent::SettingsClicked).0.next(UiEvent::SettingsClicked).0 =~= m);
}

/// Every step keeps the chosen camera and format within their lists and
/// the picture within a full turn.
pub proof fn lemma_steps_keep_wf(m: AppModel, event: UiEvent, probe: Option<Seq<bool>>)
    requires
        m.wf(),
        m.accepts(event),
    ensures
        m.next(event).0.wf(),
        m.with_probed_formats(probe).wf(),
        m.after_switch().wf(),
{
    crate::format::lemma_offered_formats_nonempty(probe);
}

/// Starting a recording, hearing that it started, and stopping it again
/// asks for a recording in the configured directory and the chosen
/// format, then for its end, and leaves the state as it was.
pub proof fn lemma_record_round_trip(m: AppModel)
    requires
        m.wf(),
        !m.recording,
        m.formats.len() > 0,
    ensures
        ({
            let (m1, c1) = m.next(UiEvent::RecordClicked);
            let (m2, c2) = m1.next(UiEvent::RecordingStarted);
            let (m3, c3) = m2.next(UiEvent::RecordClicked);
            &&& c1 == CommandModel::StartRecording {
                directory: m.save_directory,
                format: m.formats[m.selected_format as int],
            }
            &&& m2.recording
            &&& c3 == CommandModel::StopRecording
            &&& m3 == m
        }),
{
    let (m1, c1) = m.next(UiEvent::RecordClicked);
    let (m2, c2) = m1.next(UiEvent::RecordingStarted);
    let (m3, c3) = m2.next(UiEvent::RecordClicked);
    assert(m3 =~= m);
}

/// After the save directory is edited in the settings window, snapshots
/// and recordings go to the new directory.
pub proof fn lemma_edited_directory_is_used(m: AppModel, dir: String)
    requires
        m.show_settings,
    ensures
        ({
            let (m1, c1) = m.next(UiEvent::SaveDirectoryEdited(dir));
            &&& c1 == CommandModel::SaveSettings { save_directory: dir@ }
            &&& m1.next(UiEvent::CaptureClicked).1 == CommandModel::Capture { directory: dir@ }
            &&& (!m.recording && m.formats.len() > 0) ==> m1.next(UiEvent::RecordClicked).1
                == CommandModel::StartRecording {
                directory: dir@,
                format: m.formats[m.selected_format as int],
            }
        }),
{
}

/// Picking a camera reloads it; once its formats are probed, switching
/// shows it in the first offered format, with no recording running.
pub proof fn lemma_camera_pick_starts_preview(m: AppModel, i: usize, probe: Option<Seq<bool>>)
    requires
        m.wf(),
        i < m.cameras.len(),
    ensures
        ({
            let (m1, c1) = m.next(UiEvent::Selected { camera: Some(i), format: None });
            let m2 = m1.with_probed_formats(probe);
            &&& c1 == CommandModel::ReloadCamera { camera: i as nat }
            &&& m2.switch_previews()
            &&& m2.selected_camera == i
            &&& m2.formats[m2.selected_format as int] == offered_formats(probe)[0]
            &&& !m2.after_switch().recording
        }),
{
    crate::format::lemma_offered_formats_nonempty(probe);
}

} // verus!
