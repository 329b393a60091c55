//! Decoding the window icon: the codec turns icon bytes into a raw RGBA8
//! pixel buffer, and an undecodable icon is reported so the caller can
//! treat it as fatal at startup.

use vstd::prelude::*;

verus! {

/// What the image codec makes of `bytes`: the RGBA8 pixel buffer with its
/// width and height when the bytes decode, nothing when they do not.
pub uninterp spec fn decoded_rgba(bytes: Seq<u8>) -> Option<(Seq<u8>, u32, u32)>;

/// A decoded buffer is well-formed when it holds exactly four bytes for
/// each of its width times height pixels.
pub open spec fn icon_wf(v: (Seq<u8>, u32, u32)) -> bool {
    v.0.len() == 4 * (v.1 as int) * (v.2 as int)
}

/// An icon decoded to raw pixels: an RGBA8 buffer of four bytes per pixel,
/// with its dimensions.
pub struct IconPixels {
    rgba: Vec<u8>,
    width: u32,
    height: u32,
}

impl View for IconPixels {
    type V = (Seq<u8>, u32, u32);

    closed spec fn view(&self) -> (Seq<u8>, u32, u32) {
        (self.rgba@, self.width, self.height)
    }
}

impl IconPixels {
    /// The icon's width in pixels.
    pub fn width(&self) -> (w: u32)
        ensures
            w == self@.1,
    {
        self.width
    }

    /// The icon's height in pixels.
    pub fn height(&self) -> (h: u32)
        ensures
            h == self@.2,
    {
        self.height
    }

    /// Hands the raw RGBA8 buffer out.
    pub fn into_rgba(self) -> (v: Vec<u8>)
        ensures
            v@ == self@.0,
    {
        self.rgba
    }
}

/// Relies on image::guess_format, image::load_from_memory_with_format and
/// image::DynamicImage::to_rgba8: the format is guessed from the magic
/// bytes alone and a built-in decoder handles it, so the result depends on
/// the bytes alone; the RGBA8 buffer holds width times height pixels of
/// four bytes each.
#[verifier::external_body]
fn decode_rgba(bytes: &[u8]) -> (r: Option<(Vec<u8>, u32, u32)>)
    ensures
        r is Some <==> decoded_rgba(bytes@) is Some,
        r is Some ==> ((r->Some_0).0@, (r->Some_0).1, (r->Some_0).2) == decoded_rgba(
            bytes@,
        )->Some_0,
        r is Some ==> (r->Some_0).0@.len() == 4 * ((r->Some_0).1 as int) * (
        (r->Some_0).2 as int),
{
    let format = match image::guess_format(bytes) {
        Ok(f) => f,
        Err(_) => return None,
    };
    match image::load_from_memory_with_format(bytes, format) {
        Ok(img) => {
            let rgba = img.to_rgba8();
            let (w, h) = rgba.dimensions();
            Some((rgba.into_raw(), w, h))
        },
        Err(_) => None,
    }
}

/// Decodes icon bytes to raw pixels, or nothing when the codec rejects
/// them: exactly the bytes the codec decodes yield an icon, and the icon
/// is the codec's buffer with its dimensions, well-formed.
pub fn icon_from_bytes(bytes: &[u8]) -> (r: Option<IconPixels>)
    ensures
        r is Some <==> decoded_rgba(bytes@) is Some,
        r is Some ==> icon_wf((r->Some_0)@),
        r is Some ==> (r->Some_0)@ == decoded_rgba(bytes@)->Some_0,
{
    match decode_rgba(bytes) {
        Some((rgba, width, height)) => Some(IconPixels { rgba, width, height }),
        None => None,
    }
}

} // verus!
