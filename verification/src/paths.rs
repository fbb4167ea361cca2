use vstd::prelude::*;
use vstd::string::*;

use crate::decimal::{append_u64, nat_text};

verus! {

/// The path that appending `name` to the path `base` gives, as
/// `PathBuf::push` and `Path::join` build it on Unix: an absolute `name`
/// replaces `base`; otherwise a `'/'` separates the two unless `base` is
/// empty or already ends with one.
pub open spec fn joined(base: Seq<char>, name: Seq<char>) -> Seq<char> {
    if name.len() > 0 && name[0] == '/' {
        name
    } else if base.len() == 0 || base.last() == '/' {
        base + name
    } else {
        base + seq!['/'] + name
    }
}

/// Appends the path `name` to the path `base` (see `joined`).
pub fn join_path(base: &str, name: &str) -> (res: String)
    ensures
        res@ == joined(base@, name@),
{
    let name_len = name.unicode_len();
    if name_len > 0 && name.get_char(0) == '/' {
        return String::from_str(name);
    }
    let base_len = base.unicode_len();
    let mut res = String::from_str(base);
    if base_len > 0 && base.get_char(base_len - 1) != '/' {
        proof {
            reveal_strlit("/");
        }
        res.append("/");
    }
    res.append(name);
    proof {
        assert(res@ =~= joined(base@, name@));
    }
    res
}

/// The file name of the snapshot taken at `timestamp` (seconds since the
/// Unix epoch).
pub open spec fn capture_file_name(timestamp: nat) -> Seq<char> {
    seq!['c', 'a', 'p', 't', 'u', 'r', 'e', '_'] + nat_text(timestamp) + seq!['.', 'p', 'n', 'g']
}

/// The file name of the recording started at `timestamp` (seconds since
/// the Unix epoch).
pub open spec fn recording_file_name(timestamp: nat) -> Seq<char> {
    seq!['v', 'i', 'd', 'e', 'o', '_'] + nat_text(timestamp) + seq!['.', 'm', 'p', '4']
}

/// The path of the PNG snapshot taken at `timestamp` in `directory`.
pub fn capture_file_path(directory: &str, timestamp: u64) -> (res: String)
    ensures
        res@ == joined(directory@, capture_file_name(timestamp as nat)),
{
    proof {
        reveal_strlit("capture_");
        reveal_strlit(".png");
    }
    let mut name = String::from_str("capture_");
    append_u64(&mut name, timestamp);
    name.append(".png");
    assert(name@ =~= capture_file_name(timestamp as nat));
    join_path(directory, name.as_str())
}

/// The path of the MP4 recording started at `timestamp` in `directory`.
pub fn recording_file_path(directory: &str, timestamp: u64) -> (res: String)
    ensures
        res@ == joined(directory@, recording_file_name(timestamp as nat)),
{
    proof {
        reveal_strlit("video_");
        reveal_strlit(".mp4");
    }
    let mut name = String::from_str("video_");
    append_u64(&mut name, timestamp);
    name.append(".mp4");
    assert(name@ =~= recording_file_name(timestamp as nat));
    join_path(directory, name.as_str())
}

/// The path of the settings file: `settings.json` in the per-user
/// configuration directory of the program, or in the working directory
/// when there is no such directory.
pub fn config_file_path(config_dir: Option<&str>) -> (res: String)
    ensures
        res@ == (match config_dir {
            Some(dir) => joined(dir@, "settings.json"@),
            None => "settings.json"@,
        }),
{
    match config_dir {
        Some(dir) => join_path(dir, "settings.json"),
        None => String::from_str("settings.json"),
    }
}

/// Appending a relative name to a path gives a path that ends with the name.
pub proof fn lemma_joined_ends_with_name(base: Seq<char>, name: Seq<char>)
    ensures
        joined(base, name).len() >= name.len(),
        joined(base, name).subrange(
            joined(base, name).len() - name.len(),
            joined(base, name).len() as int,
        ) =~= name,
{
}

/// Appending a relative name keeps the path it is appended to as a prefix.
pub proof fn lemma_joined_keeps_base(base: Seq<char>, name: Seq<char>)
    requires
        name.len() == 0 || name[0] != '/',
    ensures
        joined(base, name).len() >= base.len(),
        joined(base, name).take(base.len() as int) =~= base,
{
}

/// Snapshots and recordings are written into the directory they are
/// taken for, under names that end in `.png` and `.mp4`.
pub proof fn lemma_files_in_directory(directory: Seq<char>, timestamp: nat)
    ensures
        joined(directory, capture_file_name(timestamp)).take(directory.len() as int) =~= directory,
        joined(directory, recording_file_name(timestamp)).take(directory.len() as int) =~= directory,
        capture_file_name(timestamp).subrange(
            capture_file_name(timestamp).len() - 4,
            capture_file_name(timestamp).len() as int,
        ) =~= seq!['.', 'p', 'n', 'g'],
        recording_file_name(timestamp).subrange(
            recording_file_name(timestamp).len() - 4,
            recording_file_name(timestamp).len() as int,
        ) =~= seq!['.', 'm', 'p', '4'],
{
    lemma_joined_keeps_base(directory, capture_file_name(timestamp));
    lemma_joined_keeps_base(directory, recording_file_name(timestamp));
}

/// Appending a relative name puts exactly one `'/'` between the path and
/// the name when the path is not empty and does not already end with one,
/// and nothing between them otherwise.
pub proof fn lemma_joined_separator(base: Seq<char>, name: Seq<char>)
    requires
        name.len() == 0 || name[0] != '/',
    ensures
        (base.len() == 0 || base.last() == '/') ==> joined(base, name).len() == base.len()
            + name.len(),
        (base.len() > 0 && base.last() != '/') ==> joined(base, name).len() == base.len()
            + name.len() + 1 && joined(base, name)[base.len() as int] == '/',
{
}

/// Appending an absolute name gives that name.
pub proof fn lemma_joined_absolute(base: Seq<char>, name: Seq<char>)
    requires
        name.len() > 0,
        name[0] == '/',
    ensures
        joined(base, name) == name,
{
}

} // verus!
