//! The window icon: the icon file decoded to RGBA pixels and scaled with
//! nearest-neighbour sampling to the three square sizes a window icon has.
use vstd::prelude::*;

verus! {

/// Side of the small icon.
pub const SMALL: u32 = 16;
/// Side of the medium icon.
pub const MEDIUM: u32 = 32;
/// Side of the big icon.
pub const BIG: u32 = 64;

/// What `image` decodes from ICO file bytes, as width, height and RGBA bytes
/// row by row; `None` where it reports an error.
pub uninterp spec fn ico_rgba(bytes: Seq<u8>) -> Option<(u32, u32, Seq<u8>)>;

/// The RGBA bytes of a `width` by `height` RGBA image scaled to `size` by
/// `size` by `image::imageops::resize` with `FilterType::Nearest`.
pub uninterp spec fn nearest_square(width: u32, height: u32, pixels: Seq<u8>, size: u32) -> Seq<u8>;

/// Decodes ICO bytes with `image::load_from_memory_with_format(bytes,
/// ImageFormat::Ico)` and converts the picture with `to_rgba8`.  The result is
/// named `ico_rgba`; the byte count is width times height times 4, since
/// `to_rgba8` fills a buffer made by `ImageBuffer::new(width, height)`.
#[verifier::external_body]
fn decode_ico(bytes: &[u8]) -> (r: Option<(u32, u32, Vec<u8>)>)
    ensures
        match r {
            Some((w, h, px)) => ico_rgba(bytes@) == Some((w, h, px@)) && px@.len() == w * h * 4,
            None => ico_rgba(bytes@) is None,
        },
{
    match image::load_from_memory_with_format(bytes, image::ImageFormat::Ico) {
        Ok(img) => {
            let rgba = img.to_rgba8();
            Some((rgba.width(), rgba.height(), rgba.into_raw()))
        },
        Err(_) => None,
    }
}

/// Scales an RGBA picture with `image::imageops::resize(.., size, size,
/// FilterType::Nearest)` and takes its bytes with `into_raw`.  The result is
/// named `nearest_square`; it holds `size * size * 4` bytes, since `resize`
/// returns a buffer made by `ImageBuffer::new(size, size)`.  The `requires`
/// keeps that buffer's length within `usize`, where `ImageBuffer::new` would
/// panic.
#[verifier::external_body]
fn resize_nearest(width: u32, height: u32, pixels: &[u8], size: u32) -> (r: Vec<u8>)
    requires
        pixels@.len() == width * height * 4,
        size * size * 4 <= usize::MAX,
    ensures
        r@ == nearest_square(width, height, pixels@, size),
        r@.len() == size * size * 4,
{
    match image::RgbaImage::from_raw(width, height, pixels.to_vec()) {
        Some(img) => image::imageops::resize(&img, size, size, image::imageops::FilterType::Nearest)
            .into_raw(),
        None => Vec::new(),
    }
}

/// The pixels of a window icon in its three sizes, RGBA row by row.
pub struct IconPixels {
    pub small: Vec<u8>,
    pub medium: Vec<u8>,
    pub big: Vec<u8>,
}

/// The picture scaled to `size` by `size`, where that holds exactly `len`
/// bytes, the length of the array the icon keeps it in.
pub fn resize_to(width: u32, height: u32, pixels: &Vec<u8>, size: u32, len: usize) -> (r: Option<
    Vec<u8>,
>)
    requires
        pixels@.len() == width * height * 4,
        size * size * 4 <= usize::MAX,
    ensures
        match r {
            Some(v) => v@ == nearest_square(width, height, pixels@, size) && v@.len() == len
                && len == size * size * 4,
            None => len != size * size * 4,
        },
{
    let raw = resize_nearest(width, height, pixels.as_slice(), size);
    if raw.len() == len {
        Some(raw)
    } else {
        None
    }
}

/// The three icon sizes of an RGBA picture.
pub fn icon_from_rgba(width: u32, height: u32, pixels: &Vec<u8>) -> (icon: Option<IconPixels>)
    requires
        pixels@.len() == width * height * 4,
    ensures
        match icon {
            Some(i) => {
                &&& i.small@ == nearest_square(width, height, pixels@, SMALL)
                &&& i.medium@ == nearest_square(width, height, pixels@, MEDIUM)
                &&& i.big@ == nearest_square(width, height, pixels@, BIG)
                &&& i.small@.len() == 16 * 16 * 4
                &&& i.medium@.len() == 32 * 32 * 4
                &&& i.big@.len() == 64 * 64 * 4
            },
            None => false,
        },
{
    let small = match resize_to(width, height, pixels, 16, 16 * 16 * 4) {
        Some(v) => v,
        None => return None,
    };
    let medium = match resize_to(width, height, pixels, 32, 32 * 32 * 4) {
        Some(v) => v,
        None => return None,
    };
    let big = match resize_to(width, height, pixels, 64, 64 * 64 * 4) {
        Some(v) => v,
        None => return None,
    };
    Some(IconPixels { small, medium, big })
}

/// The window icon from the bytes of an ICO file: `None` where the file does
/// not decode, else the picture in the three icon sizes.
pub fn icon_from_ico(bytes: &Vec<u8>) -> (icon: Option<IconPixels>)
    ensures
        match ico_rgba(bytes@) {
            Some((w, h, px)) => match icon {
                Some(i) => {
                    &&& i.small@ == nearest_square(w, h, px, SMALL)
                    &&& i.medium@ == nearest_square(w, h, px, MEDIUM)
                    &&& i.big@ == nearest_square(w, h, px, BIG)
                    &&& i.small@.len() == 16 * 16 * 4
                    &&& i.medium@.len() == 32 * 32 * 4
                    &&& i.big@.len() == 64 * 64 * 4
                },
                None => false,
            },
            None => icon is None,
        },
{
    match decode_ico(bytes.as_slice()) {
        Some((w, h, px)) => icon_from_rgba(w, h, &px),
        None => None,
    }
}

} // verus!
