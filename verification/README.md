# gst_cam_rs

A webcam viewer and recorder built on GStreamer and egui, whose decisions are
made by a library verified with Verus.

- `src/` is the verified library: the viewer's state machine (`app`), the
  camera formats it probes and offers (`format`), the names under which
  cameras are listed (`devices`), file and settings paths (`paths`,
  `settings`), decimal numerals (`decimal`) and the conversion of frames to
  snapshot pixels (`frame`).
- `app/` is the program around it: the window, the GStreamer pipelines, the
  settings file and the snapshot files.
- `tests/` runs the library on concrete values.
