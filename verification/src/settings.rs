use vstd::prelude::*;
use vstd::string::*;

use crate::paths::{join_path, joined};

verus! {

/// What the program keeps in its settings file.
#[derive(Clone, Debug, PartialEq, Eq)]
pub struct AppSettings {
    /// Where recordings and snapshots are written.
    pub save_directory: String,
}

/// The save directory used when none is configured: `gst-cam-rs` in the
/// user's video directory, or `/tmp/gst-cam-rs` when the user has none.
pub open spec fn default_save_directory(video_dir: Option<Seq<char>>) -> Seq<char> {
    match video_dir {
        Some(dir) => joined(dir, "gst-cam-rs"@),
        None => "/tmp/gst-cam-rs"@,
    }
}

impl AppSettings {
    /// The settings used when none are stored, given the user's video
    /// directory if there is one.
    pub fn from_video_dir(video_dir: Option<&str>) -> (res: AppSettings)
        ensures
            res.save_directory@ == default_save_directory(
                match video_dir {
                    Some(dir) => Some(dir@),
                    None => None,
                },
            ),
    {
        let save_directory = match video_dir {
            Some(dir) => join_path(dir, "gst-cam-rs"),
            None => String::from_str("/tmp/gst-cam-rs"),
        };
        AppSettings { save_directory }
    }
}

} // verus!
