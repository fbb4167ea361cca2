use vstd::prelude::*;

verus! {

/// The RGBA bytes of an image given by its RGB bytes: each complete
/// triple of red, green and blue becomes a pixel of four bytes with full
/// opacity (alpha 255); bytes after the last complete triple are dropped.
pub open spec fn rgba_of_rgb(rgb: Seq<u8>) -> Seq<u8>
    decreases rgb.len(),
{
    if rgb.len() < 3 {
        seq![]
    } else {
        seq![rgb[0], rgb[1], rgb[2], 255u8] + rgba_of_rgb(rgb.skip(3))
    }
}

/// Turns the RGB bytes of a frame into the RGBA bytes of the snapshot
/// written for it.
pub fn rgb_to_rgba(rgb: &[u8]) -> (res: Vec<u8>)
    ensures
        res@ == rgba_of_rgb(rgb@),
{
    let n = rgb.len();
    let mut out: Vec<u8> = Vec::new();
    let mut j: usize = 0;
    assert(rgb@.skip(0) =~= rgb@);
    while n - j >= 3
        invariant
            n == rgb@.len(),
            j <= n,
            rgba_of_rgb(rgb@) =~= out@ + rgba_of_rgb(rgb@.skip(j as int)),
        decreases n - j,
    {
        let ghost rest = rgb@.skip(j as int);
        assert(rest.skip(3) =~= rgb@.skip(j + 3));
        out.push(rgb[j]);
        out.push(rgb[j + 1]);
        out.push(rgb[j + 2]);
        out.push(255);
        j = j + 3;
    }
    out
}

/// Each complete RGB triple becomes one RGBA pixel: the first three bytes
/// of pixel `i` are the colour bytes of triple `i`, and the fourth is 255.
pub proof fn lemma_rgba_pixels(rgb: Seq<u8>)
    ensures
        rgba_of_rgb(rgb).len() == 4 * (rgb.len() / 3),
        forall|i: int, c: int|
            0 <= i < rgb.len() / 3 && 0 <= c < 3 ==> #[trigger] rgba_of_rgb(rgb)[4 * i + c] == rgb[3
                * i + c],
        forall|i: int| 0 <= i < rgb.len() / 3 ==> #[trigger] rgba_of_rgb(rgb)[4 * i + 3] == 255,
    decreases rgb.len(),
{
    if rgb.len() >= 3 {
        let rest = rgb.skip(3);
        lemma_rgba_pixels(rest);
        assert(rest.len() / 3 == rgb.len() / 3 - 1);
        let out = rgba_of_rgb(rgb);
        assert forall|i: int, c: int| 0 <= i < rgb.len() / 3 && 0 <= c < 3 implies #[trigger] out[4
            * i + c] == rgb[3 * i + c] by {
            if i > 0 {
                assert(out[4 * i + c] == rgba_of_rgb(rest)[4 * (i - 1) + c]);
                assert(rest[3 * (i - 1) + c] == rgb[3 * i + c]);
            }
        }
        assert forall|i: int| 0 <= i < rgb.len() / 3 implies #[trigger] out[4 * i + 3] == 255 by {
            if i > 0 {
                assert(out[4 * i + 3] == rgba_of_rgb(rest)[4 * (i - 1) + 3]);
            }
        }
    }
}

} // verus!
