//! Image codecs: decoding source images into RGBA pixels and packing RGBA frames into
//! multi-resolution ICO files.

use vstd::prelude::*;
use crate::error::IconToolkitError;
use crate::path::{extension_of, path_extension};
use crate::text::{decimal, decimal_string};

verus! {

/// What the `image` crate decodes from `bytes` read as the format of file extension
/// `ext`: the width, the height and the RGBA pixels row by row, or the display text of
/// the decode error (an unknown extension is an unsupported-format error).
pub uninterp spec fn decoded_image(ext: Seq<char>, bytes: Seq<u8>) -> Result<(u32, u32, Seq<u8>), Seq<char>>;

/// What the `image` crate decodes from `bytes` whose format it guesses from their
/// leading bytes, as `decoded_image` gives it.
pub uninterp spec fn guessed_image(bytes: Seq<u8>) -> Result<(u32, u32, Seq<u8>), Seq<char>>;

/// Decodes `bytes` with an `image::ImageReader` whose format is the one of extension
/// `ext` (`ImageFormat::from_extension`, as `image::open` does for a path), and converts
/// the image to 8-bit RGBA (`to_rgba8`). The result is a function of the extension and
/// the bytes, which the contract names; the RGBA buffer of an `ImageBuffer` holds four
/// bytes per pixel. Decoding hooks registered by a program could change the outcome;
/// this library registers none.
#[verifier::external_body]
pub fn decode_image(ext: &str, bytes: &[u8]) -> (r: Result<(u32, u32, Vec<u8>), String>)
    ensures
        match decoded_image(ext@, bytes@) {
            Ok((w, h, px)) => r matches Ok((rw, rh, v)) && rw == w && rh == h && v@ == px
                && px.len() == 4 * w * h,
            Err(m) => r matches Err(e) && e@ == m,
        },
{
    let mut reader = image::ImageReader::new(std::io::Cursor::new(bytes));
    if let Some(format) = image::ImageFormat::from_extension(ext) {
        reader.set_format(format);
    }
    match reader.decode() {
        Ok(img) => {
            let rgba = img.to_rgba8();
            Ok((rgba.width(), rgba.height(), rgba.into_raw()))
        },
        Err(e) => Err(e.to_string()),
    }
}

/// Decodes `bytes` with `image::load_from_memory`, which guesses the format from the
/// leading bytes, and converts the image to 8-bit RGBA. The result is a function of the
/// bytes, which the contract names.
#[verifier::external_body]
pub fn decode_guessed_image(bytes: &[u8]) -> (r: Result<(u32, u32, Vec<u8>), String>)
    ensures
        match guessed_image(bytes@) {
            Ok((w, h, px)) => r matches Ok((rw, rh, v)) && rw == w && rh == h && v@ == px
                && px.len() == 4 * w * h,
            Err(m) => r matches Err(e) && e@ == m,
        },
{
    match image::load_from_memory(bytes) {
        Ok(img) => {
            let rgba = img.to_rgba8();
            Ok((rgba.width(), rgba.height(), rgba.into_raw()))
        },
        Err(e) => Err(e.to_string()),
    }
}

/// A loaded source image.
pub enum SourceImage {
    /// An SVG source, to be rendered at `width`×`height`.
    Svg { width: u32, height: u32 },
    /// A decoded image: its size and its RGBA pixels, row by row.
    Raster { width: u32, height: u32, pixels: Vec<u8> },
}

/// The extension of a path, or the empty text when it has none.
pub open spec fn extension_or_empty(p: Seq<char>) -> Seq<char> {
    match path_extension(p) {
        Some(e) => e,
        None => Seq::empty(),
    }
}

/// What loading the source at `path` with file contents `bytes` gives: an SVG source is
/// rendered at 1024×1024; any other is decoded as the format of its extension, and a
/// decode failure is an `ImageDecode` error for the path.
pub open spec fn load_source_spec(path: Seq<char>, svg: bool, bytes: Seq<u8>, r: Result<SourceImage, IconToolkitError>) -> bool {
    if svg {
        r matches Ok(SourceImage::Svg { width, height }) && width == 1024 && height == 1024
    } else {
        match decoded_image(extension_or_empty(path), bytes) {
            Ok((w, h, px)) => r matches Ok(SourceImage::Raster { width, height, pixels })
                && width == w && height == h && pixels@ == px,
            Err(m) => r matches Err(IconToolkitError::ImageDecode { path: p, message })
                && p@ == path && message@ == m,
        }
    }
}

/// Loads the source image at `path`, whose file holds `bytes` (unused for an SVG
/// source, which is rendered from its file).
pub fn load_source(path: &str, svg: bool, bytes: &[u8]) -> (r: Result<SourceImage, IconToolkitError>)
    ensures
        load_source_spec(path@, svg, bytes@, r),
        r matches Ok(SourceImage::Raster { width, height, pixels }) ==> pixels@.len() == 4 * width
            * height,
{
    if svg {
        return Ok(SourceImage::Svg { width: 1024, height: 1024 });
    }
    let ext = match extension_of(path) {
        Some(e) => e,
        None => String::new(),
    };
    match decode_image(ext.as_str(), bytes) {
        Ok((width, height, pixels)) => Ok(SourceImage::Raster { width, height, pixels }),
        Err(m) => Err(IconToolkitError::ImageDecode { path: String::from_str(path), message: m }),
    }
}

} // verus!

verus! {

/// The frames of an ICO file by their views: the side of each square frame and its RGBA
/// pixels.
pub open spec fn frame_views(frames: Seq<(u32, Vec<u8>)>) -> Seq<(u32, Seq<u8>)> {
    frames.map_values(|f: (u32, Vec<u8>)| (f.0, f.1@))
}

/// Frames an ICO file is built from here: each frame holds four bytes per pixel and has
/// a side of at least 1 (`IconImage::from_rgba_data` panics otherwise), and each side is
/// at most 256, the largest the file's one-byte size field records (it writes 0 for
/// 256 and above). Sides bounded so, with a bounded number of frames, also keep the
/// file's 32-bit data offsets from overflowing.
pub open spec fn valid_ico_frames(frames: Seq<(u32, Seq<u8>)>) -> bool {
    forall|i: int|
        0 <= i < frames.len() ==> 1 <= (#[trigger] frames[i]).0 <= 256 && frames[i].1.len() == 4
            * frames[i].0 * frames[i].0
}

/// The bytes of the ICO file the `ico` crate writes for these frames, in order; or the
/// failure: the side of the frame whose encoding failed (none when writing the file
/// failed) and the display text of the error.
pub uninterp spec fn ico_container(frames: Seq<(u32, Seq<u8>)>) -> Result<Seq<u8>, (Option<u32>, Seq<char>)>;

/// Builds an `ico::IconDir` of icons from the frames (`IconImage::from_rgba_data`, then
/// `IconDirEntry::encode`, which picks BMP or PNG), stopping at the first frame whose
/// encoding fails, and writes it into a byte vector (`IconDir::write`). The result is a
/// function of the frames, which the contract names. The preconditions exclude the
/// frames `from_rgba_data` panics on (a side of 0, or a wrong data length), and bound the
/// sides and the number of frames so that the 32-bit data offsets cannot overflow.
#[verifier::external_body]
pub fn ico_bytes(frames: &Vec<(u32, Vec<u8>)>) -> (r: Result<Vec<u8>, (Option<u32>, String)>)
    requires
        valid_ico_frames(frame_views(frames@)),
        frames.len() <= 1024,
    ensures
        match ico_container(frame_views(frames@)) {
            Ok(b) => r matches Ok(v) && v@ == b,
            Err((s, m)) => r matches Err((rs, e)) && rs == s && e@ == m,
        },
{
    let mut dir = ico::IconDir::new(ico::ResourceType::Icon);
    for (side, rgba) in frames.iter() {
        let image = ico::IconImage::from_rgba_data(*side, *side, rgba.clone());
        match ico::IconDirEntry::encode(&image) {
            Ok(entry) => dir.add_entry(entry),
            Err(e) => return Err((Some(*side), e.to_string())),
        }
    }
    let mut out: Vec<u8> = Vec::new();
    dir.write(&mut out).map(|_| out).map_err(|e| (None, e.to_string()))
}

/// The message of a failed ICO frame encoding.
pub open spec fn ico_frame_failure(side: u32, m: Seq<char>) -> Seq<char> {
    "Failed to encode "@ + decimal(side as nat) + "x"@ + decimal(side as nat)
        + " frame for ICO: "@ + m
}

/// Encodes square RGBA frames into the bytes of a multi-resolution ICO file. A frame
/// that cannot be encoded, or a file that cannot be written, is an `IcoEncoding` error.
pub fn encode_ico_bytes(frames: &Vec<(u32, Vec<u8>)>) -> (r: Result<Vec<u8>, IconToolkitError>)
    requires
        valid_ico_frames(frame_views(frames@)),
        frames.len() <= 1024,
    ensures
        match ico_container(frame_views(frames@)) {
            Ok(b) => r matches Ok(v) && v@ == b,
            Err((Some(s), m)) => r matches Err(IconToolkitError::IcoEncoding(msg)) && msg@
                == ico_frame_failure(s, m),
            Err((None, m)) => r matches Err(IconToolkitError::IcoEncoding(msg)) && msg@ == m,
        },
{
    match ico_bytes(frames) {
        Ok(v) => Ok(v),
        Err((Some(side), m)) => {
            let d = decimal_string(side as u64);
            let mut msg = String::new();
            msg.append("Failed to encode ");
            msg.append(d.as_str());
            msg.append("x");
            msg.append(d.as_str());
            msg.append(" frame for ICO: ");
            msg.append(m.as_str());
            Err(IconToolkitError::IcoEncoding(msg))
        },
        Err((None, m)) => Err(IconToolkitError::IcoEncoding(m)),
    }
}

} // verus!
