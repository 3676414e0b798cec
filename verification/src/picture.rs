use vstd::prelude::*;

verus! {

/// What `image::load_from_memory(bytes)` followed by `to_rgba8` gives: the width,
/// the height and the RGBA bytes of the image, or `None` where the bytes hold no
/// image that the `image` crate reads (the format is guessed from the content).
pub uninterp spec fn decoded_rgba(bytes: Seq<u8>) -> Option<(u32, u32, Seq<u8>)>;

/// Calls `image::load_from_memory` and converts the result with `to_rgba8`. As
/// the source of `image` shows, the RGBA buffer holds exactly four bytes per
/// pixel, row after row; which images decode, and to what, is only named.
#[verifier::external_body]
fn decode_rgba(bytes: &[u8]) -> (r: Option<(u32, u32, Vec<u8>)>)
    ensures
        r matches Some(t) ==> decoded_rgba(bytes@) == Some((t.0, t.1, t.2@)) && t.2@.len()
            == t.0 * t.1 * 4,
        r is None ==> decoded_rgba(bytes@) is None,
{
    match image::load_from_memory(bytes) {
        Ok(img) => {
            let rgba = img.to_rgba8();
            let (w, h) = rgba.dimensions();
            Some((w, h, rgba.into_raw()))
        },
        Err(_) => None,
    }
}

/// A picture of `width` by `height` pixels, four bytes (red, green, blue,
/// alpha) per pixel, row after row.
pub struct Picture {
    pub width: u32,
    pub height: u32,
    pub pixels: Vec<u8>,
}

impl Picture {
    /// The pixel bytes are exactly four per pixel.
    pub open spec fn wf(&self) -> bool {
        self.pixels@.len() == self.width * self.height * 4
    }
}

/// Decodes the bytes of an image file (read from a file or from standard input)
/// into a picture; `None` where they hold no image that can be read.
pub fn decode_image(bytes: &[u8]) -> (p: Option<Picture>)
    ensures
        match p {
            Some(pic) => pic.wf() && decoded_rgba(bytes@) == Some(
                (pic.width, pic.height, pic.pixels@),
            ),
            None => decoded_rgba(bytes@) is None,
        },
{
    match decode_rgba(bytes) {
        Some((width, height, pixels)) => Some(Picture { width, height, pixels }),
        None => None,
    }
}

/// Where a crop along an axis of length `limit` starts: at `x`, or at the end
/// where `x` lies past it.
pub open spec fn crop_origin(x: u32, limit: u32) -> u32 {
    if x < limit { x } else { limit }
}

/// The length of a crop along an axis of length `limit`: the wanted length, cut
/// to what is left after its start.
pub open spec fn crop_len(x: u32, want: u32, limit: u32) -> u32 {
    let left = (limit - crop_origin(x, limit)) as u32;
    if want < left { want } else { left }
}

/// Byte `k` of a crop `cw` pixels wide whose top left pixel is `(x0, y0)` of an
/// RGBA picture `width` pixels wide.
pub open spec fn cropped_byte(pixels: Seq<u8>, width: int, x0: int, y0: int, cw: int, k: int) -> u8 {
    let p = k / 4;
    pixels[((y0 + p / cw) * width + x0 + p % cw) * 4 + k % 4]
}

/// Whether `r` (width, height, bytes) is the crop of the `width` by `height`
/// RGBA picture `pixels` to the `w` by `h` rectangle at `(x, y)`, cut to the
/// picture.
pub open spec fn is_crop_of(
    r: (u32, u32, Seq<u8>),
    width: u32,
    height: u32,
    pixels: Seq<u8>,
    x: u32,
    y: u32,
    w: u32,
    h: u32,
) -> bool {
    let x0 = crop_origin(x, width);
    let y0 = crop_origin(y, height);
    &&& r.0 == crop_len(x, w, width)
    &&& r.1 == crop_len(y, h, height)
    &&& r.2.len() == r.0 * r.1 * 4
    &&& forall|k: int|
        0 <= k < r.2.len() ==> #[trigger] r.2[k] == cropped_byte(pixels, width as int, x0 as int, y0 as int, r.0 as int, k)
}

/// Calls `image::imageops::crop_imm` on the picture and copies the result out
/// with `to_image`. As the source of `image` shows, the rectangle is first cut
/// to the picture (its corner to the picture's size, its extent to what is left),
/// and pixel `(i, j)` of the result is pixel `(x0 + i, y0 + j)` of the picture.
#[verifier::external_body]
fn crop_rgba(width: u32, height: u32, pixels: &[u8], x: u32, y: u32, w: u32, h: u32) -> (r: (
    u32,
    u32,
    Vec<u8>,
))
    requires
        pixels@.len() == width * height * 4,
    ensures
        is_crop_of((r.0, r.1, r.2@), width, height, pixels@, x, y, w, h),
{
    match image::RgbaImage::from_raw(width, height, pixels.to_vec()) {
        Some(img) => {
            let cropped = image::imageops::crop_imm(&img, x, y, w, h).to_image();
            let (cw, ch) = cropped.dimensions();
            (cw, ch, cropped.into_raw())
        },
        None => (0, 0, Vec::new()),
    }
}

/// The part of a picture inside the `w` by `h` rectangle at `(x, y)`, cut to the
/// picture.
pub fn crop_picture(p: &Picture, x: u32, y: u32, w: u32, h: u32) -> (c: Picture)
    requires
        p.wf(),
    ensures
        c.wf(),
        is_crop_of((c.width, c.height, c.pixels@), p.width, p.height, p.pixels@, x, y, w, h),
{
    let (width, height, pixels) = crop_rgba(p.width, p.height, p.pixels.as_slice(), x, y, w, h);
    Picture { width, height, pixels }
}

/// A crop lies inside the picture, and a crop wanted at least one pixel long
/// from a start inside the picture is at least one pixel long.
pub proof fn law_crop_stays_inside(x: u32, want: u32, limit: u32)
    ensures
        crop_origin(x, limit) + crop_len(x, want, limit) <= limit,
        x < limit && want >= 1 ==> crop_origin(x, limit) == x && crop_len(x, want, limit) >= 1,
{
}

/// Cropping a picture to its whole rectangle gives the picture back.
pub proof fn law_whole_crop_is_identity(p: Picture, r: (u32, u32, Seq<u8>))
    requires
        p.wf(),
        is_crop_of(r, p.width, p.height, p.pixels@, 0, 0, p.width, p.height),
    ensures
        r.0 == p.width,
        r.1 == p.height,
        r.2 == p.pixels@,
{
    assert forall|k: int| 0 <= k < r.2.len() implies r.2[k] == p.pixels@[k] by {
        let w = p.width as int;
        let q = k / 4;
        vstd::arithmetic::div_mod::lemma_fundamental_div_mod(k, 4);
        vstd::arithmetic::div_mod::lemma_fundamental_div_mod(q, w);
        assert(((q / w) * w + q % w) == q) by (nonlinear_arith)
            requires
                q == w * (q / w) + q % w,
        ;
        assert(r.2[k] == cropped_byte(p.pixels@, w, 0, 0, w, k));
    }
    assert(r.2 =~= p.pixels@);
}

} // verus!
