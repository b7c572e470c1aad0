//! Window-level decisions: the size of the toast window and the decoded
//! application icon.
use vstd::prelude::*;

pub mod toast;

verus! {

/// The narrowest the toast window gets, in tenths of a logical pixel.
pub const TOAST_MIN_WIDTH_TENTHS: u32 = 3000;

/// The widest the toast window gets, in tenths of a logical pixel.
pub const TOAST_MAX_WIDTH_TENTHS: u32 = 3800;

/// The width of the toast window, in tenths of a logical pixel, for text
/// whose longer line has `width_hint` characters: 7.6 pixels a character
/// plus 78 pixels of margin, kept between 300 and 380 pixels.
pub open spec fn spec_toast_window_width_tenths(width_hint: int) -> int {
    let natural = 76 * width_hint + 780;
    if natural < TOAST_MIN_WIDTH_TENTHS {
        TOAST_MIN_WIDTH_TENTHS as int
    } else if natural > TOAST_MAX_WIDTH_TENTHS {
        TOAST_MAX_WIDTH_TENTHS as int
    } else {
        natural
    }
}

/// Sizes the small borderless toast window to roughly fit the longer of
/// the toast's two lines of text.
pub fn toast_window_width_tenths(width_hint: usize) -> (width: u32)
    ensures
        width == spec_toast_window_width_tenths(width_hint as int),
{
    if width_hint >= 40 {
        TOAST_MAX_WIDTH_TENTHS
    } else {
        let natural: u32 = (width_hint as u32) * 76 + 780;
        if natural < TOAST_MIN_WIDTH_TENTHS {
            TOAST_MIN_WIDTH_TENTHS
        } else if natural > TOAST_MAX_WIDTH_TENTHS {
            TOAST_MAX_WIDTH_TENTHS
        } else {
            natural
        }
    }
}

/// The toast window is never narrower than its minimum nor wider than its
/// maximum, and longer text never makes it narrower.
pub proof fn lemma_toast_window_width_bounded_monotone(shorter: int, longer: int)
    requires
        0 <= shorter <= longer,
    ensures
        TOAST_MIN_WIDTH_TENTHS <= spec_toast_window_width_tenths(shorter) <= TOAST_MAX_WIDTH_TENTHS,
        spec_toast_window_width_tenths(shorter) <= spec_toast_window_width_tenths(longer),
{
}

/// An image decoded to 8-bit RGBA pixels, row by row from the top left.
pub struct RgbaIcon {
    pub width: u32,
    pub height: u32,
    pub rgba: Vec<u8>,
}

/// Width, height and RGBA bytes of the PNG image that
/// `image::load_from_memory_with_format` decodes from `encoded` with the PNG
/// format set, once converted by `DynamicImage::to_rgba8`; none where the
/// bytes are not a PNG image it reads.
pub uninterp spec fn decoded_png_rgba8(encoded: Seq<u8>) -> Option<(u32, u32, Seq<u8>)>;

/// The width, height and bytes of a decoded icon, as plain values.
pub open spec fn icon_parts(icon: Option<RgbaIcon>) -> Option<(u32, u32, Seq<u8>)> {
    match icon {
        Some(icon) => Some((icon.width, icon.height, icon.rgba@)),
        None => None,
    }
}

/// Whether the icon holds exactly four bytes for each of its pixels.
pub open spec fn icon_sized(icon: Option<RgbaIcon>) -> bool {
    match icon {
        Some(icon) => icon.rgba@.len() == 4 * icon.width * icon.height,
        None => true,
    }
}

/// Calls `image::load_from_memory_with_format` with the PNG format, which
/// goes straight to the built-in PNG decoder, and converts the image with
/// `DynamicImage::to_rgba8`. Claimed: the result is `decoded_png_rgba8` of
/// the bytes (the built-in decoder reads nothing but the bytes), and an RGBA
/// buffer holds exactly four bytes a pixel. Nothing is claimed of which
/// pixels a PNG holds.
#[verifier::external_body]
fn load_png_rgba8(encoded: &[u8]) -> (icon: Option<RgbaIcon>)
    ensures
        icon_parts(icon) == decoded_png_rgba8(encoded@),
        icon_sized(icon),
{
    match image::load_from_memory_with_format(encoded, image::ImageFormat::Png) {
        Ok(decoded) => {
            let buffer = decoded.to_rgba8();
            let (width, height) = buffer.dimensions();
            Some(RgbaIcon { width, height, rgba: buffer.into_raw() })
        },
        Err(_) => None,
    }
}

/// Decodes the bundled PNG application icon into RGBA pixels for the window
/// and the tray; none where the bytes cannot be decoded.
pub fn decode_icon(encoded: &[u8]) -> (icon: Option<RgbaIcon>)
    ensures
        icon_parts(icon) == decoded_png_rgba8(encoded@),
        icon_sized(icon),
{
    load_png_rgba8(encoded)
}

} // verus!
