use vstd::prelude::*;
use vstd::string::*;

verus! {

/// Whether `": "` starts at position `i` of `s`.
pub open spec fn separator_at(s: Seq<char>, i: int) -> bool {
    0 <= i && i + 1 < s.len() && s[i] == ':' && s[i + 1] == ' '
}

/// The first position at or after `from` where `": "` starts in `s`.
pub open spec fn first_separator(s: Seq<char>, from: nat) -> Option<nat>
    decreases s.len() - from,
{
    if from + 1 >= s.len() {
        None
    } else if separator_at(s, from as int) {
        Some(from)
    } else {
        first_separator(s, from + 1)
    }
}

/// The name under which a capture device is listed: the device's own name
/// up to the first `": "`, or the whole name when it holds none.
pub open spec fn camera_label(raw: Seq<char>) -> Seq<char> {
    match first_separator(raw, 0) {
        Some(i) => raw.take(i as int),
        None => raw,
    }
}

/// The name under which the device named `raw` is listed.
pub fn camera_display_name(raw: &str) -> (res: String)
    ensures
        res@ == camera_label(raw@),
{
    let n = raw.unicode_len();
    let mut i: usize = 0;
    while i < n && i + 1 < n
        invariant
            n == raw@.len(),
            i <= n,
            first_separator(raw@, 0) == first_separator(raw@, i as nat),
        decreases n - i,
    {
        if raw.get_char(i) == ':' && raw.get_char(i + 1) == ' ' {
            return String::from_str(raw.substring_char(0, i));
        }
        i = i + 1;
    }
    String::from_str(raw)
}

/// The names under which the devices named `device_names` are listed, in
/// the same order.
pub fn camera_names(device_names: &Vec<String>) -> (res: Vec<String>)
    ensures
        res@.len() == device_names@.len(),
        forall|k: int|
            0 <= k < res@.len() ==> #[trigger] res@[k]@ == camera_label(device_names@[k]@),
{
    let mut res: Vec<String> = Vec::new();
    let mut k: usize = 0;
    while k < device_names.len()
        invariant
            k <= device_names@.len(),
            res@.len() == k,
            forall|j: int| 0 <= j < k ==> #[trigger] res@[j]@ == camera_label(device_names@[j]@),
        decreases device_names@.len() - k,
    {
        res.push(camera_display_name(device_names[k].as_str()));
        k = k + 1;
    }
    res
}

proof fn lemma_first_separator_facts(s: Seq<char>, from: nat)
    ensures
        match first_separator(s, from) {
            Some(i) => from <= i && separator_at(s, i as int) && forall|j: int|
                from <= j < i ==> !separator_at(s, j),
            None => forall|j: int| from <= j ==> !separator_at(s, j),
        },
    decreases s.len() - from,
{
    if from + 1 >= s.len() {
    } else if separator_at(s, from as int) {
    } else {
        lemma_first_separator_facts(s, from + 1);
    }
}

proof fn lemma_no_separator(s: Seq<char>, from: nat)
    requires
        forall|j: int| from <= j ==> !separator_at(s, j),
    ensures
        first_separator(s, from) is None,
    decreases s.len() - from,
{
    if from + 1 < s.len() {
        lemma_no_separator(s, from + 1);
    }
}

/// A listed name holds no `": "`, so listing it again leaves it unchanged.
pub proof fn lemma_camera_label_idempotent(raw: Seq<char>)
    ensures
        forall|j: int| !separator_at(camera_label(raw), j),
        camera_label(camera_label(raw)) == camera_label(raw),
{
    lemma_first_separator_facts(raw, 0);
    let label = camera_label(raw);
    match first_separator(raw, 0) {
        Some(i) => {
            assert forall|j: int| !separator_at(label, j) by {
                if separator_at(label, j) {
                    assert(separator_at(raw, j));
                }
            }
        },
        None => {},
    }
    lemma_no_separator(label, 0);
}

/// A device name is listed up to the first place where a colon is
/// followed by a space: when `raw[i]` is `':'`, `raw[i + 1]` is `' '`, and
/// no such pair starts before `i`, the listed name is `raw[..i]`.
pub proof fn lemma_camera_label_cuts_at_first_colon_space(raw: Seq<char>, i: int)
    requires
        0 <= i,
        i + 1 < raw.len(),
        raw[i] == ':',
        raw[i + 1] == ' ',
        forall|j: int| 0 <= j < i ==> !(#[trigger] raw[j] == ':' && raw[j + 1] == ' '),
    ensures
        camera_label(raw) == raw.take(i),
{
    lemma_first_separator_facts(raw, 0);
    match first_separator(raw, 0) {
        Some(k) => {
            assert(raw[k as int] == ':' && raw[k as int + 1] == ' ');
            if (k as int) < i {
            } else if (k as int) > i {
                assert(separator_at(raw, i));
            }
        },
        None => {
            assert(separator_at(raw, i));
        },
    }
}

/// A device name in which no colon is followed by a space is listed
/// unchanged.
pub proof fn lemma_camera_label_keeps_plain_name(raw: Seq<char>)
    requires
        forall|j: int| 0 <= j && j + 1 < raw.len() ==> !(#[trigger] raw[j] == ':' && raw[j + 1] == ' '),
    ensures
        camera_label(raw) == raw,
{
    lemma_first_separator_facts(raw, 0);
    match first_separator(raw, 0) {
        Some(k) => {
            assert(raw[k as int] == ':' && raw[k as int + 1] == ' ');
        },
        None => {},
    }
}

} // verus!
