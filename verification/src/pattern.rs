//! Loading a seed pattern from an encoded raster image. The decode of the
//! encoded bytes is delegated to the image codec; everything after it — the
//! palette matching that turns pixels into state codes — is the grid store's
//! own verified logic.

use vstd::prelude::*;
use crate::grid::Grid;
use crate::palette::{decode_pixel, Rgb};

verus! {

/// What the image codec makes of a byte string: `None` when the bytes do not
/// decode as an image, otherwise the image's width, height, and raw RGBA
/// contents, row-major, four bytes per pixel.
pub uninterp spec fn decoded_image(bytes: Seq<u8>) -> Option<(u32, u32, Seq<u8>)>;

/// Relies on image::load_from_memory and DynamicImage::to_rgba8: decoding is
/// a function of the encoded bytes alone, and a decoded image's raw RGBA
/// container holds at least width * height pixels of four bytes each,
/// row-major from the front.
#[verifier::external_body]
fn decode_image(bytes: &[u8]) -> (r: Option<(u32, u32, Vec<u8>)>)
    ensures
        match r {
            Some(t) => decoded_image(bytes@) == Some((t.0, t.1, t.2@)) && t.2@.len() >= 4 * (
            t.0 * t.1),
            None => decoded_image(bytes@) is None,
        },
{
    match image::load_from_memory(bytes) {
        Ok(img) => {
            let rgba = img.to_rgba8();
            let (w, h) = (rgba.width(), rgba.height());
            Some((w, h, rgba.into_raw()))
        },
        Err(_) => None,
    }
}

/// The color of pixel `i` of a raw RGBA buffer; the alpha byte is ignored.
pub open spec fn pixel_rgb(rgba: Seq<u8>, i: int) -> Rgb {
    Rgb { r: rgba[4 * i], g: rgba[4 * i + 1], b: rgba[4 * i + 2] }
}

/// Decodes an encoded raster image and loads it as a grid: the image's pixel
/// dimensions become the simulation dimensions, and every pixel becomes the
/// state code of the palette entry with exactly its color — alpha ignored,
/// unmatched colors falling back to the background state 0. Returns `None`
/// exactly when the bytes do not decode as an image.
pub fn load_pattern(bytes: &[u8]) -> (r: Option<Grid>)
    ensures
        (r is Some) == (decoded_image(bytes@) is Some),
        r is Some ==> {
            let t = (decoded_image(bytes@))->Some_0;
            let g = r->Some_0;
            &&& g.wf()
            &&& g.spec_width() == t.0
            &&& g.spec_height() == t.1
            &&& g.spec_generation() == 0
            &&& g@.len() == t.0 * t.1
            &&& forall|i: int| 0 <= i < g@.len() ==> g@[i] == decode_pixel(
                #[trigger] pixel_rgb(t.2, i),
            )
            &&& g.spec_seed() == g@
        },
{
    match decode_image(bytes) {
        None => None,
        Some((w, h, px)) => {
            proof {
                assert(px@.len() == px.len());
                vstd::arithmetic::mul::lemma_mul_nonnegative(w as int, h as int);
            }
            let n = (w as usize) * (h as usize);
            let mut pixels: Vec<Rgb> = Vec::with_capacity(n);
            let mut i: usize = 0;
            while i < n
                invariant
                    n == w * h,
                    px@.len() >= 4 * n,
                    px@.len() <= usize::MAX,
                    0 <= i <= n,
                    pixels@.len() == i,
                    forall|j: int| 0 <= j < i ==> pixels@[j] == #[trigger] pixel_rgb(px@, j),
                decreases n - i,
            {
                let p = Rgb { r: px[4 * i], g: px[4 * i + 1], b: px[4 * i + 2] };
                pixels.push(p);
                i += 1;
            }
            Some(Grid::load(w, h, &pixels))
        },
    }
}

} // verus!
