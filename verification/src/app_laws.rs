use vstd::prelude::*;

use crate::app::{AppModel, CommandModel, UiEvent};
use crate::format::{offered_formats, FormatOption};

verus! {

/// The two states list the same cameras and formats and have chosen the
/// same ones.
pub open spec fn same_choices(a: AppModel, b: AppModel) -> bool {
    &&& a.cameras == b.cameras
    &&& a.selected_camera == b.selected_camera
    &&& a.formats == b.formats
    &&& a.selected_format == b.selected_format
}

/// The two states show the picture flipped and turned the same way.
pub open spec fn same_picture(a: AppModel, b: AppModel) -> bool {
    &&& a.flip_horizontal == b.flip_horizontal
    &&& a.flip_vertical == b.flip_vertical
    &&& a.quarter_turns == b.quarter_turns
}

/// The two states have the same save directory and the settings window
/// in the same state.
pub open spec fn same_settings(a: AppModel, b: AppModel) -> bool {
    &&& a.save_directory == b.save_directory
    &&& a.show_settings == b.show_settings
}

/// The state after `k` presses of the rotate button.
pub open spec fn after_rotations(m: AppModel, k: nat) -> AppModel
    decreases k,
{
    if k == 0 {
        m
    } else {
        after_rotations(m, (k - 1) as nat).next(UiEvent::RotateClicked).0
    }
}

/// A press of the rotate button adds one clockwise quarter turn, counted
/// modulo a full turn, and changes nothing else.
pub proof fn lemma_rotate_adds_quarter_turn(m: AppModel)
    ensures
        ({
            let (m1, c) = m.next(UiEvent::RotateClicked);
            &&& m1.quarter_turns == (m.quarter_turns + 1) % 4
            &&& m1.flip_horizontal == m.flip_horizontal
            &&& m1.flip_vertical == m.flip_vertical
            &&& same_choices(m1, m)
            &&& same_settings(m1, m)
            &&& m1.recording == m.recording
            &&& c == CommandModel::Nothing
        }),
{
}

/// After `k` presses of the rotate button the picture is turned by `k`
/// more quarter turns, counted modulo a full turn: two presses turn it
/// upside down, and only a multiple of four presses brings it back.
pub proof fn lemma_rotations_accumulate(m: AppModel, k: nat)
    requires
        m.quarter_turns < 4,
    ensures
        after_rotations(m, k).quarter_turns == (m.quarter_turns + k) % 4,
        same_choices(after_rotations(m, k), m),
        same_settings(after_rotations(m, k), m),
        after_rotations(m, k).flip_horizontal == m.flip_horizontal,
        after_rotations(m, k).flip_vertical == m.flip_vertical,
        after_rotations(m, k).recording == m.recording,
    decreases k,
{
    if k > 0 {
        lemma_rotations_accumulate(m, (k - 1) as nat);
        lemma_rotate_adds_quarter_turn(after_rotations(m, (k - 1) as nat));
        assert((((m.quarter_turns + (k - 1)) % 4) + 1) % 4 == (m.quarter_turns + k) % 4);
    }
}

/// The vertical flip button mirrors the picture top to bottom only, and
/// the horizontal one left to right only; neither changes anything else.
pub proof fn lemma_flips_are_independent(m: AppModel)
    ensures
        ({
            let (v, cv) = m.next(UiEvent::FlipVerticalClicked);
            &&& v.flip_vertical == !m.flip_vertical
            &&& v.flip_horizontal == m.flip_horizontal
            &&& v.quarter_turns == m.quarter_turns
            &&& same_choices(v, m)
            &&& same_settings(v, m)
            &&& v.recording == m.recording
            &&& cv == CommandModel::Nothing
        }),
        ({
            let (h, ch) = m.next(UiEvent::FlipHorizontalClicked);
            &&& h.flip_horizontal == !m.flip_horizontal
            &&& h.flip_vertical == m.flip_vertical
            &&& h.quarter_turns == m.quarter_turns
            &&& same_choices(h, m)
            &&& same_settings(h, m)
            &&& h.recording == m.recording
            &&& ch == CommandModel::Nothing
        }),
        ({
            let hv = m.next(UiEvent::FlipHorizontalClicked).0.next(UiEvent::FlipVerticalClicked).0;
            &&& hv.flip_horizontal == !m.flip_horizontal
            &&& hv.flip_vertical == !m.flip_vertical
        }),
{
}

/// A camera switch ends the recording and changes nothing else: the
/// chosen camera and format, the picture and the settings stay.
pub proof fn lemma_switch_keeps_choices(m: AppModel)
    ensures
        !m.after_switch().recording,
        same_choices(m.after_switch(), m),
        same_picture(m.after_switch(), m),
        same_settings(m.after_switch(), m),
{
}

/// Probing formats replaces the offered formats and chooses the first,
/// and changes nothing else.
pub proof fn lemma_probe_keeps_camera(m: AppModel, probe: Option<Seq<bool>>)
    ensures
        ({
            let p = m.with_probed_formats(probe);
            &&& p.selected_format == 0
            &&& p.cameras == m.cameras
            &&& p.selected_camera == m.selected_camera
            &&& p.formats == (if m.cameras.len() == 0 {
                Seq::<crate::format::FormatOption>::empty()
            } else {
                offered_formats(probe)
            })
            &&& same_picture(p, m)
            &&& same_settings(p, m)
            &&& p.recording == m.recording
        }),
{
}

/// Picking camera `i`, probing it, switching, then picking format `j` of
/// those offered and switching again shows camera `i` in format `j`.
pub proof fn lemma_camera_then_format_pick(
    m: AppModel,
    i: usize,
    probe: Option<Seq<bool>>,
    j: usize,
)
    requires
        m.wf(),
        i < m.cameras.len(),
        j < offered_formats(probe).len(),
    ensures
        ({
            let m1 = m.next(UiEvent::Selected { camera: Some(i), format: None }).0;
            let m2 = m1.with_probed_formats(probe).after_switch();
            let (m3, c3) = m2.next(UiEvent::Selected { camera: None, format: Some(j) });
            &&& m2.selected_camera == i
            &&& c3 == CommandModel::SwitchCamera
            &&& m3.switch_previews()
            &&& m3.after_switch().selected_camera == i
            &&& m3.after_switch().formats[m3.after_switch().selected_format as int] == offered_formats(
                probe,
            )[j as int]
        }),
{
    crate::format::lemma_offered_formats_nonempty(probe);
}

/// Editing the save directory while the settings window is open sets the
/// directory, asks for it to be stored, and keeps the window open with
/// everything else unchanged; with the window closed an edit does nothing.
pub proof fn lemma_directory_edit(m: AppModel, dir: String)
    ensures
        ({
            let (m1, c) = m.next(UiEvent::SaveDirectoryEdited(dir));
            &&& m.show_settings ==> {
                &&& m1.save_directory == dir@
                &&& m1.show_settings
                &&& c == CommandModel::SaveSettings { save_directory: dir@ }
            }
            &&& !m.show_settings ==> m1.save_directory == m.save_directory && !m1.show_settings
                && c == CommandModel::Nothing
            &&& same_choices(m1, m)
            &&& same_picture(m1, m)
            &&& m1.recording == m.recording
        }),
{
}

/// Typing on in the directory field keeps working: after two edits with
/// the window open the directory is the second one, and it is stored.
pub proof fn lemma_directory_edits_in_a_row(m: AppModel, first: String, second: String)
    requires
        m.show_settings,
    ensures
        ({
            let m1 = m.next(UiEvent::SaveDirectoryEdited(first)).0;
            let (m2, c2) = m1.next(UiEvent::SaveDirectoryEdited(second));
            &&& m2.save_directory == second@
            &&& m2.show_settings
            &&& c2 == CommandModel::SaveSettings { save_directory: second@ }
        }),
{
}

/// The settings button opens a closed window and closes an open one; the
/// close button closes it. Neither changes anything else.
pub proof fn lemma_settings_window(m: AppModel)
    ensures
        ({
            let (t, ct) = m.next(UiEvent::SettingsClicked);
            &&& t.show_settings == !m.show_settings
            &&& t.save_directory == m.save_directory
            &&& same_choices(t, m)
            &&& same_picture(t, m)
            &&& t.recording == m.recording
            &&& ct == CommandModel::Nothing
        }),
        ({
            let (k, ck) = m.next(UiEvent::SettingsClosed);
            &&& !k.show_settings
            &&& k.save_directory == m.save_directory
            &&& same_choices(k, m)
            &&& same_picture(k, m)
            &&& k.recording == m.recording
            &&& ck == CommandModel::Nothing
        }),
{
}

/// The record button starts a recording in the save directory and the
/// chosen format when none runs, and ends the running one otherwise; a
/// snapshot goes to the save directory. None of these changes the
/// choices, the picture or the settings.
pub proof fn lemma_record_and_capture(m: AppModel)
    requires
        m.wf(),
    ensures
        ({
            let (r, cr) = m.next(UiEvent::RecordClicked);
            &&& m.recording ==> !r.recording && cr == CommandModel::StopRecording
            &&& (!m.recording && m.formats.len() > 0) ==> !r.recording && cr
                == CommandModel::StartRecording {
                directory: m.save_directory,
                format: m.formats[m.selected_format as int],
            }
            &&& same_choices(r, m)
            &&& same_picture(r, m)
            &&& same_settings(r, m)
        }),
        ({
            let (s, cs) = m.next(UiEvent::RecordingStarted);
            &&& s.recording
            &&& same_choices(s, m)
            &&& same_picture(s, m)
            &&& same_settings(s, m)
            &&& cs == CommandModel::Nothing
        }),
        ({
            let (p, cp) = m.next(UiEvent::CaptureClicked);
            &&& p.recording == m.recording
            &&& same_choices(p, m)
            &&& same_picture(p, m)
            &&& same_settings(p, m)
            &&& cp == CommandModel::Capture { directory: m.save_directory }
        }),
{
}

/// A menu pick chooses the picked entries and changes nothing else; a
/// camera pick asks for the camera to be reloaded, a format pick alone
/// for a switch.
pub proof fn lemma_menu_pick(m: AppModel, camera: Option<usize>, format: Option<usize>)
    ensures
        ({
            let (s, c) = m.next(UiEvent::Selected { camera, format });
            &&& s.selected_camera == (if let Some(i) = camera {
                i as nat
            } else {
                m.selected_camera
            })
            &&& s.selected_format == (if let Some(j) = format {
                j as nat
            } else {
                m.selected_format
            })
            &&& s.cameras == m.cameras
            &&& s.formats == m.formats
            &&& s.recording == m.recording
            &&& same_picture(s, m)
            &&& same_settings(s, m)
            &&& c == (if let Some(i) = camera {
                CommandModel::ReloadCamera { camera: i as nat }
            } else if format is Some {
                CommandModel::SwitchCamera
            } else {
                CommandModel::Nothing
            })
        }),
{
}

/// At start-up nothing is recorded, flipped or turned, the settings
/// window is closed, no format is offered yet, and the first camera is
/// chosen.
pub proof fn lemma_initial_state(save_directory: Seq<char>, cameras: Seq<Seq<char>>)
    ensures
        ({
            let m = AppModel::initial(save_directory, cameras);
            &&& m.wf()
            &&& !m.recording
            &&& !m.flip_horizontal
            &&& !m.flip_vertical
            &&& m.quarter_turns == 0
            &&& !m.show_settings
            &&& m.formats.len() == 0
            &&& m.selected_camera == 0
            &&& m.selected_format == 0
            &&& m.cameras == cameras
            &&& m.save_directory == save_directory
        }),
{
}

/// Every button can be pressed in every state, except that a recording
/// cannot start with no format offered; every pick of a listed camera or
/// offered format is taken.
pub proof fn lemma_accepted_events(m: AppModel, dir: String, i: usize, j: usize)
    ensures
        m.accepts(UiEvent::RecordingStarted),
        m.accepts(UiEvent::CaptureClicked),
        m.accepts(UiEvent::RotateClicked),
        m.accepts(UiEvent::FlipVerticalClicked),
        m.accepts(UiEvent::FlipHorizontalClicked),
        m.accepts(UiEvent::SettingsClicked),
        m.accepts(UiEvent::SettingsClosed),
        m.accepts(UiEvent::SaveDirectoryEdited(dir)),
        m.accepts(UiEvent::RecordClicked) == (m.recording || m.formats.len() > 0),
        m.accepts(UiEvent::Selected { camera: None, format: None }),
        i < m.cameras.len() ==> m.accepts(UiEvent::Selected { camera: Some(i), format: None }),
        j < m.formats.len() ==> m.accepts(UiEvent::Selected { camera: None, format: Some(j) }),
{
}

} // verus!
