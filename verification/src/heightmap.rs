//! Heightmaps stored in the red and green channels of an RGBA image: the red channel
//! holds the low 8 bits of a sample and the green channel its high 8 bits.

use vstd::prelude::*;

verus! {

/// The 16-bit height sample stored in a pixel whose red channel is `r` and whose
/// green channel is `g`.
pub open spec fn height16(r: u8, g: u8) -> u16 {
    (r + 256 * g) as u16
}

/// Combines the red (low byte) and green (high byte) channels of a pixel into its
/// 16-bit height sample.
pub fn decode_height16(r: u8, g: u8) -> (h: u16)
    ensures
        h == height16(r, g),
{
    let lo = r as u16;
    let hi = g as u16;
    assert((hi << 8u16) | lo == lo + 256 * hi) by (bit_vector)
        requires
            lo < 256,
            hi < 256,
    ;
    (hi << 8u16) | lo
}

/// A 16-bit sample is its red byte plus 256 times its green byte, and both bytes can be
/// read back from it: the red channel is the low byte and the green channel the high byte.
pub proof fn lemma_height16_bytes(r: u8, g: u8)
    ensures
        height16(r, g) as int == r + 256 * g,
        height16(r, g) % 256 == r,
        height16(r, g) / 256 == g,
{
}

/// Channel `c` (0 red, 1 green, 2 blue, 3 alpha) of the pixel at column `x` and row `y`
/// of a row-major RGBA buffer `width` pixels wide.
pub open spec fn rgba_channel(rgba: Seq<u8>, width: int, x: int, y: int, c: int) -> u8 {
    rgba[(y * width + x) * 4 + c]
}

/// The height samples of a `width * height` RGBA buffer: one sample per pixel, in the
/// order of the pixels (row by row).
pub open spec fn rgba_heights(width: int, height: int, rgba: Seq<u8>) -> Seq<u16> {
    Seq::new((width * height) as nat, |k: int| height16(rgba[4 * k], rgba[4 * k + 1]))
}

/// A grid of 16-bit height samples, `width` columns by `height` rows, stored row by row:
/// the sample of column `ix` and row `iz` is `samples[iz * width + ix]`.
pub struct HeightGrid {
    pub width: u32,
    pub height: u32,
    pub samples: Vec<u16>,
}

impl HeightGrid {
    /// Holds one sample per grid point.
    pub open spec fn wf(&self) -> bool {
        self.samples.len() == self.width * self.height
    }
}

/// Reads the height grid of an RGBA buffer of `width * height` pixels: the sample of
/// each pixel combines its red (low byte) and green (high byte) channels.
pub fn heights_from_rgba(width: u32, height: u32, rgba: &Vec<u8>) -> (grid: HeightGrid)
    requires
        rgba.len() >= width * height * 4,
    ensures
        grid.width == width,
        grid.height == height,
        grid.samples@ == rgba_heights(width as int, height as int, rgba@),
        grid.wf(),
        forall|k: int|
            0 <= k < width * height ==> #[trigger] grid.samples@[k] as int == rgba@[4 * k] + 256
                * rgba@[4 * k + 1],
{
    let count = (width as usize) * (height as usize);
    let mut samples: Vec<u16> = Vec::new();
    let mut k: usize = 0;
    while k < count
        invariant
            count == width * height,
            rgba.len() >= count * 4,
            k <= count,
            samples.len() == k,
            forall|j: int| 0 <= j < k ==> samples@[j] == height16(rgba@[4 * j], rgba@[4 * j + 1]),
        decreases count - k,
    {
        let base = 4 * k;
        let h = decode_height16(rgba[base], rgba[base + 1]);
        samples.push(h);
        k = k + 1;
    }
    assert(samples@ =~= rgba_heights(width as int, height as int, rgba@));
    assert forall|k: int| 0 <= k < width * height implies #[trigger] samples@[k] as int == rgba@[4
        * k] + 256 * rgba@[4 * k + 1] by {
        lemma_height16_bytes(rgba@[4 * k], rgba@[4 * k + 1]);
    }
    HeightGrid { width, height, samples }
}

/// The sample of column `ix` and row `iz` comes from the red and green channels of the
/// pixel at that column and row.
pub proof fn lemma_sample_of_pixel(width: u32, height: u32, rgba: Seq<u8>, ix: int, iz: int)
    requires
        0 <= ix < width,
        0 <= iz < height,
    ensures
        0 <= iz * width + ix < width * height,
        rgba_heights(width as int, height as int, rgba)[iz * width + ix] == height16(
            rgba_channel(rgba, width as int, ix, iz, 0),
            rgba_channel(rgba, width as int, ix, iz, 1),
        ),
{
    assert(0 <= iz * width + ix < width * height) by (nonlinear_arith)
        requires
            0 <= ix < width,
            0 <= iz < height,
    ;
}

/// The samples depend on the red and green channels alone: two buffers that agree on the
/// red and green channel of every pixel give the same samples, whatever their blue and
/// alpha channels, and each sample is its pixel's red byte plus 256 times its green byte.
pub proof fn lemma_samples_ignore_blue_and_alpha(width: u32, height: u32, a: Seq<u8>, b: Seq<u8>)
    requires
        forall|k: int|
            #![trigger a[4 * k], b[4 * k]]
            0 <= k < width * height ==> a[4 * k] == b[4 * k] && a[4 * k + 1] == b[4 * k + 1],
    ensures
        rgba_heights(width as int, height as int, a) == rgba_heights(width as int, height as int, b),
        forall|k: int|
            0 <= k < width * height ==> #[trigger] rgba_heights(width as int, height as int, a)[k]
                as int == a[4 * k] + 256 * a[4 * k + 1],
{
    assert(rgba_heights(width as int, height as int, a) =~= rgba_heights(
        width as int,
        height as int,
        b,
    ));
    assert forall|k: int| 0 <= k < width * height implies #[trigger] rgba_heights(
        width as int,
        height as int,
        a,
    )[k] as int == a[4 * k] + 256 * a[4 * k + 1] by {
        lemma_height16_bytes(a[4 * k], a[4 * k + 1]);
    }
}

/// What `image::guess_format(bytes)`, `image::load_from_memory_with_format(bytes, format)`
/// with the guessed format, and `to_rgba8()` give for `bytes`: `None` where the magic bytes
/// name no format or the bytes do not decode, else the width, the height and the raw RGBA
/// buffer of the image.
pub uninterp spec fn decoded_image(bytes: Seq<u8>) -> Option<(u32, u32, Seq<u8>)>;

/// Guesses the image format from the magic bytes with `image::guess_format`, decodes with
/// `image::load_from_memory_with_format` in that built-in format, and converts with
/// `DynamicImage::to_rgba8`, handing back its width, height and raw buffer
/// (`ImageBuffer::into_raw`). Neither call consults the crate's run-time format hooks,
/// so the outcome depends on the bytes alone; the buffer of `to_rgba8` holds exactly four
/// bytes per pixel. The contract states nothing of how the image is decoded: it names
/// the outcome `decoded_image`.
#[verifier::external_body]
fn decode_rgba8(bytes: &[u8]) -> (res: Option<(u32, u32, Vec<u8>)>)
    ensures
        match res {
            None => decoded_image(bytes@) is None,
            Some((w, h, raw)) => decoded_image(bytes@) == Some((w, h, raw@)) && raw.len() == w * h * 4,
        },
{
    let format = match image::guess_format(bytes) {
        Ok(format) => format,
        Err(_) => return None,
    };
    match image::load_from_memory_with_format(bytes, format) {
        Ok(img) => {
            let rgba = img.to_rgba8();
            Some((rgba.width(), rgba.height(), rgba.into_raw()))
        },
        Err(_) => None,
    }
}

/// The height grid of the image encoded in `bytes` (PNG or another format that the
/// `image` crate recognises by its magic bytes), or `None` where the bytes cannot be
/// decoded.
pub fn load_heightmap(bytes: &[u8]) -> (res: Option<HeightGrid>)
    ensures
        match decoded_image(bytes@) {
            None => res is None,
            Some((w, h, raw)) => res matches Some(grid) && grid.width == w && grid.height == h
                && grid.samples@ == rgba_heights(w as int, h as int, raw),
        },
{
    match decode_rgba8(bytes) {
        None => None,
        Some((w, h, raw)) => Some(heights_from_rgba(w, h, &raw)),
    }
}

} // verus!
