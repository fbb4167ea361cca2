use vstd::prelude::*;
use vstd::string::*;

use crate::decimal::{append_i32, int_text, is_numeral_char, lemma_int_text_chars, lemma_int_text_injective};

verus! {

/// One way a camera can deliver video: frame size, frame rate, and whether
/// the frames come MJPEG-compressed or raw.
#[derive(Clone, Copy, PartialEq, Eq, Structural, Debug)]
pub struct FormatOption {
    pub width: i32,
    pub height: i32,
    pub fps: i32,
    pub is_mjpeg: bool,
}

/// `"MJPEG"` for compressed frames, `"RAW"` for raw ones.
pub open spec fn encoding_text(is_mjpeg: bool) -> Seq<char> {
    if is_mjpeg {
        seq!['M', 'J', 'P', 'E', 'G']
    } else {
        seq!['R', 'A', 'W']
    }
}

impl FormatOption {
    /// The label of the format in the format menu:
    /// `"<width>x<height> @ <fps>fps (<MJPEG|RAW>)"`.
    pub open spec fn label(self) -> Seq<char> {
        int_text(self.width as int) + seq!['x'] + int_text(self.height as int) + seq![' ', '@', ' ']
            + int_text(self.fps as int) + seq!['f', 'p', 's', ' ', '('] + encoding_text(self.is_mjpeg)
            + seq![')']
    }

    /// The menu label of this format.
    pub fn display_name(&self) -> (res: String)
        ensures
            res@ == self.label(),
    {
        proof {
            reveal_strlit("x");
            reveal_strlit(" @ ");
            reveal_strlit("fps (");
            reveal_strlit("MJPEG");
            reveal_strlit("RAW");
            reveal_strlit(")");
        }
        let mut s = String::new();
        append_i32(&mut s, self.width);
        s.append("x");
        append_i32(&mut s, self.height);
        s.append(" @ ");
        append_i32(&mut s, self.fps);
        s.append("fps (");
        if self.is_mjpeg {
            s.append("MJPEG");
        } else {
            s.append("RAW");
        }
        s.append(")");
        assert(s@ =~= self.label());
        s
    }

    /// The media type that a camera's caps must carry for this format:
    /// `"image/jpeg"` for MJPEG frames, `"video/x-raw"` for raw ones.
    pub fn media_type(&self) -> (res: &'static str)
        ensures
            res@ == (if self.is_mjpeg {
                "image/jpeg"@
            } else {
                "video/x-raw"@
            }),
    {
        if self.is_mjpeg {
            "image/jpeg"
        } else {
            "video/x-raw"
        }
    }
}

/// The frame sizes probed on a camera, largest first.
pub open spec fn standard_resolutions() -> Seq<(i32, i32)> {
    seq![
        (3840i32, 2160i32),
        (2560i32, 1440i32),
        (1920i32, 1080i32),
        (1600i32, 1200i32),
        (1280i32, 720i32),
        (1024i32, 768i32),
        (800i32, 600i32),
        (640i32, 480i32),
        (320i32, 240i32),
    ]
}

/// The frame rates probed for each frame size, fastest first.
pub open spec fn standard_frame_rates() -> Seq<i32> {
    seq![60i32, 30i32, 25i32, 24i32, 15i32, 10i32, 5i32]
}

/// The `k`-th format probed on a camera. Formats are probed MJPEG first,
/// then raw; within an encoding by frame size, and within a frame size by
/// frame rate, each in the order of the lists above (nine sizes of seven
/// rates make 63 formats per encoding).
pub open spec fn candidate_at(k: int) -> FormatOption {
    let size = standard_resolutions()[(k % 63) / 7];
    FormatOption {
        width: size.0,
        height: size.1,
        fps: standard_frame_rates()[k % 7],
        is_mjpeg: k < 63,
    }
}

/// Every format probed on a camera, in probing order.
pub open spec fn probe_order() -> Seq<FormatOption> {
    Seq::new(126, |k: int| candidate_at(k))
}

/// The probed formats among the first `n` that the probe found supported,
/// in probing order.
pub open spec fn kept_candidates(supported: Seq<bool>, n: nat) -> Seq<FormatOption>
    decreases n,
{
    if n == 0 {
        seq![]
    } else {
        let before = kept_candidates(supported, (n - 1) as nat);
        if supported[n - 1] {
            before.push(candidate_at(n - 1))
        } else {
            before
        }
    }
}

/// The formats offered when the camera reports none of the probed ones.
pub open spec fn fallback_formats() -> Seq<FormatOption> {
    seq![
        FormatOption { width: 1920, height: 1080, fps: 30, is_mjpeg: true },
        FormatOption { width: 1280, height: 720, fps: 30, is_mjpeg: true },
        FormatOption { width: 640, height: 480, fps: 30, is_mjpeg: false },
    ]
}

/// The formats offered for a camera. `probe` is `None` when the camera
/// reports no capabilities at all, and otherwise says for each format of
/// `probe_order()` whether the camera's capabilities admit it. The offered
/// formats are the admitted ones in probing order, or the fallback formats
/// when none is admitted.
pub open spec fn offered_formats(probe: Option<Seq<bool>>) -> Seq<FormatOption> {
    match probe {
        Some(supported) => {
            let kept = kept_candidates(supported, 126);
            if kept.len() == 0 {
                fallback_formats()
            } else {
                kept
            }
        },
        None => fallback_formats(),
    }
}

/// The view of a probe result.
pub open spec fn probe_view(probe: Option<Vec<bool>>) -> Option<Seq<bool>> {
    match probe {
        Some(v) => Some(v@),
        None => None,
    }
}

fn standard_resolution(i: usize) -> (res: (i32, i32))
    requires
        i < 9,
    ensures
        res == standard_resolutions()[i as int],
{
    if i == 0 {
        (3840, 2160)
    } else if i == 1 {
        (2560, 1440)
    } else if i == 2 {
        (1920, 1080)
    } else if i == 3 {
        (1600, 1200)
    } else if i == 4 {
        (1280, 720)
    } else if i == 5 {
        (1024, 768)
    } else if i == 6 {
        (800, 600)
    } else if i == 7 {
        (640, 480)
    } else {
        (320, 240)
    }
}

fn standard_frame_rate(i: usize) -> (res: i32)
    requires
        i < 7,
    ensures
        res == standard_frame_rates()[i as int],
{
    if i == 0 {
        60
    } else if i == 1 {
        30
    } else if i == 2 {
        25
    } else if i == 3 {
        24
    } else if i == 4 {
        15
    } else if i == 5 {
        10
    } else {
        5
    }
}

fn candidate(k: usize) -> (res: FormatOption)
    requires
        k < 126,
    ensures
        res == candidate_at(k as int),
{
    let size = standard_resolution((k % 63) / 7);
    FormatOption { width: size.0, height: size.1, fps: standard_frame_rate(k % 7), is_mjpeg: k < 63 }
}

/// The formats to probe on a camera, in probing order.
pub fn candidate_formats() -> (res: Vec<FormatOption>)
    ensures
        res@ == probe_order(),
{
    let mut out: Vec<FormatOption> = Vec::new();
    let mut k: usize = 0;
    while k < 126
        invariant
            k <= 126,
            out@ =~= probe_order().take(k as int),
        decreases 126 - k,
    {
        out.push(candidate(k));
        k = k + 1;
    }
    out
}

/// The formats offered for a camera, from the result of probing it
/// (see `offered_formats`).
pub fn available_formats_for(probe: &Option<Vec<bool>>) -> (res: Vec<FormatOption>)
    requires
        probe matches Some(supported) ==> supported@.len() == 126,
    ensures
        res@ == offered_formats(probe_view(*probe)),
{
    let mut kept: Vec<FormatOption> = Vec::new();
    if let Some(supported) = probe {
        let mut k: usize = 0;
        while k < 126
            invariant
                k <= 126,
                supported@.len() == 126,
                kept@ == kept_candidates(supported@, k as nat),
            decreases 126 - k,
        {
            if supported[k] {
                kept.push(candidate(k));
            }
            k = k + 1;
        }
    }
    if kept.len() == 0 {
        kept.push(FormatOption { width: 1920, height: 1080, fps: 30, is_mjpeg: true });
        kept.push(FormatOption { width: 1280, height: 720, fps: 30, is_mjpeg: true });
        kept.push(FormatOption { width: 640, height: 480, fps: 30, is_mjpeg: false });
        assert(kept@ =~= fallback_formats());
    }
    kept
}

/// A camera always gets at least one format offered.
pub proof fn lemma_offered_formats_nonempty(probe: Option<Seq<bool>>)
    ensures
        offered_formats(probe).len() > 0,
{
}

/// No format is probed twice.
pub proof fn lemma_probe_order_distinct()
    ensures
        forall|k1: int, k2: int|
            0 <= k1 < 126 && 0 <= k2 < 126 && k1 != k2 ==> #[trigger] candidate_at(k1)
                != #[trigger] candidate_at(k2),
{
    assert forall|k1: int, k2: int|
        0 <= k1 < 126 && 0 <= k2 < 126 && candidate_at(k1) == candidate_at(k2) implies k1 == k2 by {
        let r1 = (k1 % 63) / 7;
        let r2 = (k2 % 63) / 7;
        assert(standard_resolutions()[r1].0 == standard_resolutions()[r2].0);
        assert(r1 == r2);
        assert(standard_frame_rates()[k1 % 7] == standard_frame_rates()[k2 % 7]);
        assert(k1 % 7 == k2 % 7);
        assert((k1 < 63) == (k2 < 63));
    }
}

/// The positions in probing order of the formats that the probe admits
/// among the first `n`.
pub open spec fn kept_positions(supported: Seq<bool>, n: nat) -> Seq<int>
    decreases n,
{
    if n == 0 {
        seq![]
    } else {
        let before = kept_positions(supported, (n - 1) as nat);
        if supported[n - 1] {
            before.push(n - 1)
        } else {
            before
        }
    }
}

/// The formats kept from a probe are the probed formats at the positions
/// that the probe admits, in increasing order of position.
pub proof fn lemma_kept_candidates_admitted(supported: Seq<bool>, n: nat)
    requires
        n <= supported.len(),
    ensures
        kept_positions(supported, n).len() == kept_candidates(supported, n).len(),
        forall|a: int|
            0 <= a < kept_positions(supported, n).len() ==> {
                let k = #[trigger] kept_positions(supported, n)[a];
                &&& 0 <= k < n
                &&& supported[k]
                &&& kept_candidates(supported, n)[a] == candidate_at(k)
            },
        forall|a: int, b: int|
            0 <= a < b < kept_positions(supported, n).len() ==> #[trigger] kept_positions(
                supported,
                n,
            )[a] < #[trigger] kept_positions(supported, n)[b],
    decreases n,
{
    if n > 0 {
        lemma_kept_candidates_admitted(supported, (n - 1) as nat);
    }
}

/// The format menu never lists a format twice.
pub proof fn lemma_offered_formats_distinct(probe: Option<Seq<bool>>)
    requires
        probe matches Some(supported) ==> supported.len() == 126,
    ensures
        forall|a: int, b: int|
            0 <= a < b < offered_formats(probe).len() ==> #[trigger] offered_formats(probe)[a]
                != #[trigger] offered_formats(probe)[b],
{
    lemma_probe_order_distinct();
    if let Some(supported) = probe {
        lemma_kept_candidates_admitted(supported, 126);
        let kept = kept_candidates(supported, 126);
        let positions = kept_positions(supported, 126);
        if kept.len() > 0 {
            assert forall|a: int, b: int| 0 <= a < b < kept.len() implies #[trigger] kept[a]
                != #[trigger] kept[b] by {
                let ka = positions[a];
                let kb = positions[b];
                assert(ka < kb);
                assert(candidate_at(ka) != candidate_at(kb));
            }
        }
    }
}

/// Two texts that each start with a run of characters other than `c`,
/// followed by `c`, split the same way when they are equal.
proof fn lemma_split_at_marker(p1: Seq<char>, s1: Seq<char>, p2: Seq<char>, s2: Seq<char>, c: char)
    requires
        p1 + s1 == p2 + s2,
        s1.len() > 0 && s1[0] == c,
        s2.len() > 0 && s2[0] == c,
        forall|i: int| 0 <= i < p1.len() ==> #[trigger] p1[i] != c,
        forall|i: int| 0 <= i < p2.len() ==> #[trigger] p2[i] != c,
    ensures
        p1 == p2,
        s1 == s2,
{
    let t = p1 + s1;
    if p1.len() < p2.len() {
        assert(t[p1.len() as int] == c);
        assert((p2 + s2)[p1.len() as int] == p2[p1.len() as int]);
    } else if p2.len() < p1.len() {
        assert((p2 + s2)[p2.len() as int] == c);
        assert(t[p2.len() as int] == p1[p2.len() as int]);
    }
    assert(p1 =~= t.take(p1.len() as int));
    assert(p2 =~= (p2 + s2).take(p2.len() as int));
    assert(s1 =~= t.skip(p1.len() as int));
    assert(s2 =~= (p2 + s2).skip(p2.len() as int));
}

proof fn lemma_numeral_avoids(n: int, c: char)
    requires
        !is_numeral_char(c),
    ensures
        forall|i: int| 0 <= i < int_text(n).len() ==> #[trigger] int_text(n)[i] != c,
{
    lemma_int_text_chars(n);
}

/// Two texts that each start with a numeral followed by a character that
/// no numeral holds split the same way when they are equal.
proof fn lemma_numeral_prefix(n1: int, s1: Seq<char>, n2: int, s2: Seq<char>, c: char)
    requires
        int_text(n1) + s1 == int_text(n2) + s2,
        s1.len() > 0 && s1[0] == c,
        s2.len() > 0 && s2[0] == c,
        !is_numeral_char(c),
    ensures
        n1 == n2,
        s1 == s2,
{
    lemma_numeral_avoids(n1, c);
    lemma_numeral_avoids(n2, c);
    lemma_split_at_marker(int_text(n1), s1, int_text(n2), s2, c);
    lemma_int_text_injective(n1, n2);
}

/// What follows the frame rate in a label: `"fps (<MJPEG|RAW>)"`.
spec fn label_tail(f: FormatOption) -> Seq<char> {
    seq!['f', 'p', 's', ' ', '('] + encoding_text(f.is_mjpeg) + seq![')']
}

/// What follows the height in a label.
spec fn label_after_height(f: FormatOption) -> Seq<char> {
    seq![' ', '@', ' '] + int_text(f.fps as int) + label_tail(f)
}

/// What follows the width in a label.
spec fn label_after_width(f: FormatOption) -> Seq<char> {
    seq!['x'] + int_text(f.height as int) + label_after_height(f)
}

proof fn lemma_label_parts(f: FormatOption)
    ensures
        f.label() == int_text(f.width as int) + label_after_width(f),
        label_after_width(f).drop_first() == int_text(f.height as int) + label_after_height(f),
        label_after_height(f).skip(3) == int_text(f.fps as int) + label_tail(f),
        label_tail(f)[5] == (if f.is_mjpeg {
            'M'
        } else {
            'R'
        }),
{
    assert(f.label() =~= int_text(f.width as int) + label_after_width(f));
    assert(label_after_width(f).drop_first() =~= int_text(f.height as int) + label_after_height(f));
    assert(label_after_height(f).skip(3) =~= int_text(f.fps as int) + label_tail(f));
}

/// Different formats get different menu labels.
pub proof fn lemma_label_injective(a: FormatOption, b: FormatOption)
    ensures
        a.label() == b.label() ==> a == b,
{
    if a.label() == b.label() {
        lemma_label_parts(a);
        lemma_label_parts(b);
        lemma_numeral_prefix(
            a.width as int,
            label_after_width(a),
            b.width as int,
            label_after_width(b),
            'x',
        );
        lemma_numeral_prefix(
            a.height as int,
            label_after_height(a),
            b.height as int,
            label_after_height(b),
            ' ',
        );
        lemma_numeral_prefix(a.fps as int, label_tail(a), b.fps as int, label_tail(b), 'f');
    }
}

/// Every probed format that the probe admits is kept.
pub proof fn lemma_admitted_candidates_kept(supported: Seq<bool>, n: nat, k: int)
    requires
        n <= supported.len(),
        0 <= k < n,
        supported[k],
    ensures
        kept_candidates(supported, n).contains(candidate_at(k)),
    decreases n,
{
    let before = kept_candidates(supported, (n - 1) as nat);
    if k == n - 1 {
        assert(kept_candidates(supported, n)[before.len() as int] == candidate_at(k));
    } else {
        lemma_admitted_candidates_kept(supported, (n - 1) as nat, k);
        let a = choose|a: int| 0 <= a < before.len() && before[a] == candidate_at(k);
        assert(kept_candidates(supported, n)[a] == candidate_at(k));
    }
}

/// The formats offered after a probe that admits something are exactly
/// the admitted probed formats: each offered one is admitted, and each
/// admitted one is offered.
pub proof fn lemma_offered_formats_are_admitted(supported: Seq<bool>)
    requires
        supported.len() == 126,
        exists|k: int| 0 <= k < 126 && supported[k],
    ensures
        forall|f: FormatOption|
            offered_formats(Some(supported)).contains(f) <==> exists|k: int|
                0 <= k < 126 && supported[k] && #[trigger] candidate_at(k) == f,
{
    let k0 = choose|k: int| 0 <= k < 126 && supported[k];
    lemma_admitted_candidates_kept(supported, 126, k0);
    lemma_kept_candidates_admitted(supported, 126);
    let kept = kept_candidates(supported, 126);
    assert forall|f: FormatOption| offered_formats(Some(supported)).contains(f) <==> exists|k: int|
        0 <= k < 126 && supported[k] && #[trigger] candidate_at(k) == f by {
        if offered_formats(Some(supported)).contains(f) {
            let a = choose|a: int| 0 <= a < kept.len() && kept[a] == f;
            let k = kept_positions(supported, 126)[a];
            assert(candidate_at(k) == f);
        }
        if exists|k: int| 0 <= k < 126 && supported[k] && #[trigger] candidate_at(k) == f {
            let k = choose|k: int| 0 <= k < 126 && supported[k] && #[trigger] candidate_at(k) == f;
            lemma_admitted_candidates_kept(supported, 126, k);
        }
    }
}

/// A camera whose probe admits nothing, or that reports no capabilities,
/// gets the fallback formats: 1080p and 720p MJPEG and 480p raw, each at
/// 30 frames per second.
pub proof fn lemma_fallback_when_nothing_admitted(probe: Option<Seq<bool>>)
    requires
        probe matches Some(supported) ==> supported.len() == 126 && forall|k: int|
            0 <= k < 126 ==> !supported[k],
    ensures
        offered_formats(probe).len() == 3,
        offered_formats(probe)[0] == (FormatOption { width: 1920, height: 1080, fps: 30, is_mjpeg: true }),
        offered_formats(probe)[1] == (FormatOption { width: 1280, height: 720, fps: 30, is_mjpeg: true }),
        offered_formats(probe)[2] == (FormatOption { width: 640, height: 480, fps: 30, is_mjpeg: false }),
{
    if let Some(supported) = probe {
        lemma_kept_candidates_admitted(supported, 126);
        if kept_candidates(supported, 126).len() > 0 {
            let k = kept_positions(supported, 126)[0];
            assert(supported[k]);
        }
        assert(kept_candidates(supported, 126).len() == 0);
    }
    assert(offered_formats(probe) == fallback_formats());
}

/// A label starts with the width's numeral and an `'x'`, and ends with
/// `"(MJPEG)"` for compressed frames and `"(RAW)"` for raw ones.
pub proof fn lemma_label_shape(f: FormatOption)
    ensures
        ({
            let l = f.label();
            let w = int_text(f.width as int);
            let e = if f.is_mjpeg {
                seq!['(', 'M', 'J', 'P', 'E', 'G', ')']
            } else {
                seq!['(', 'R', 'A', 'W', ')']
            };
            &&& l.len() > w.len()
            &&& l.take(w.len() as int) == w
            &&& l[w.len() as int] == 'x'
            &&& l.len() >= e.len()
            &&& l.skip(l.len() - e.len()) == e
        }),
{
    lemma_label_parts(f);
    let l = f.label();
    let w = int_text(f.width as int);
    assert(l.take(w.len() as int) =~= w);
    assert(l[w.len() as int] == label_after_width(f)[0]);
    let e = if f.is_mjpeg {
        seq!['(', 'M', 'J', 'P', 'E', 'G', ')']
    } else {
        seq!['(', 'R', 'A', 'W', ')']
    };
    let head = int_text(f.width as int) + seq!['x'] + int_text(f.height as int) + seq![' ', '@', ' ']
        + int_text(f.fps as int) + seq!['f', 'p', 's', ' '];
    assert(l =~= head + e);
    assert(l.skip(l.len() - e.len()) =~= e);
}

} // verus!
