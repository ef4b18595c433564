//! Image conversion plans, and the SVG document that wraps a PNG image.

use vstd::prelude::*;
use base64::Engine;
use crate::error::IconToolkitError;
use crate::generator::is_svg_path;
use crate::generator::is_svg_source;
use crate::path::{parent_of, path_parent, path_with_extension, with_extension};
use crate::text::{copy_opt, decimal, decimal_string, opt_view};
use crate::types::{format_extension, ConvertOptions, ConvertResult, ImageFormat};

verus! {

/// One action of an image conversion, in the order the converter performs them. Every
/// action may fail; conversion stops at the first failure.
pub enum ConvertStep {
    /// Fail with `missing_input_error` unless the source image exists.
    CheckInputExists { path: String },
    /// Create the output directory and its missing parents.
    CreateDir { path: String },
    /// Load the source: render it as SVG at `svg_render_size`, or decode it with
    /// `codec::load_source`.
    LoadSource { path: String, render_svg: bool },
    /// Resize (`resize_target`), fill the background, encode in the target format and
    /// write the file at `path`.
    WriteOutput { path: String },
}

/// A `ConvertStep` with its paths as character sequences.
pub enum ConvertStepSpec {
    CheckInputExists(Seq<char>),
    CreateDir(Seq<char>),
    LoadSource(Seq<char>, bool),
    WriteOutput(Seq<char>),
}

impl View for ConvertStep {
    type V = ConvertStepSpec;

    open spec fn view(&self) -> ConvertStepSpec {
        match self {
            ConvertStep::CheckInputExists { path } => ConvertStepSpec::CheckInputExists(path@),
            ConvertStep::CreateDir { path } => ConvertStepSpec::CreateDir(path@),
            ConvertStep::LoadSource { path, render_svg } => ConvertStepSpec::LoadSource(
                path@,
                *render_svg,
            ),
            ConvertStep::WriteOutput { path } => ConvertStepSpec::WriteOutput(path@),
        }
    }
}

/// What an image conversion does, decided from its options before any file is touched.
pub struct ConvertPlan {
    /// The actions, in order: the existence check comes before anything is created.
    pub steps: Vec<ConvertStep>,
    /// The source image; conversion fails with a not-found error when it does not exist.
    pub input_path: String,
    /// The file to write.
    pub output_path: String,
    /// The directory to create (with its parents) before writing, if any.
    pub output_dir: Option<String>,
    /// Whether the source is rendered as SVG (at the requested size) instead of decoded.
    pub render_svg: bool,
    pub width: Option<u32>,
    pub height: Option<u32>,
    /// Background colour blended under transparent pixels, if any.
    pub background_color: Option<String>,
    pub format: ImageFormat,
    pub quality: u8,
}

/// The output path of a conversion: the given one, or the input path with the
/// extension of the target format.
pub open spec fn convert_output_path(o: ConvertOptions) -> Seq<char> {
    match o.output_path {
        Some(p) => p@,
        None => path_with_extension(o.input_path@, format_extension(o.format)),
    }
}

/// The actions of a conversion: check the source, create the output directory (when
/// the output path has one), load the source, write the output.
pub open spec fn convert_steps(o: ConvertOptions) -> Seq<ConvertStepSpec> {
    let out = convert_output_path(o);
    seq![ConvertStepSpec::CheckInputExists(o.input_path@)] + match path_parent(out) {
        Some(d) => seq![ConvertStepSpec::CreateDir(d)],
        None => Seq::empty(),
    } + seq![
        ConvertStepSpec::LoadSource(o.input_path@, is_svg_source(o.input_path@)),
        ConvertStepSpec::WriteOutput(out),
    ]
}

/// Plans an image conversion from its options.
pub fn convert_image(options: &ConvertOptions) -> (plan: ConvertPlan)
    ensures
        plan.steps@.map_values(|st: ConvertStep| st@) == convert_steps(*options),
        plan.input_path@ == options.input_path@,
        plan.output_path@ == convert_output_path(*options),
        opt_view(plan.output_dir) == path_parent(plan.output_path@),
        plan.render_svg == is_svg_source(options.input_path@),
        plan.width == options.width,
        plan.height == options.height,
        opt_view(plan.background_color) == opt_view(options.background_color),
        plan.format == options.format,
        plan.quality == options.quality,
{
    let output_path = match &options.output_path {
        Some(p) => String::from_str(p.as_str()),
        None => with_extension(options.input_path.as_str(), options.format.extension()),
    };
    let output_dir = parent_of(output_path.as_str());
    proof {
        match path_parent(output_path@) {
            Some(x) => {},
            None => {},
        }
    }
    let render_svg = is_svg_path(options.input_path.as_str());
    let mut steps: Vec<ConvertStep> = Vec::new();
    steps.push(ConvertStep::CheckInputExists { path: String::from_str(options.input_path.as_str()) });
    match &output_dir {
        Some(d) => steps.push(ConvertStep::CreateDir { path: String::from_str(d.as_str()) }),
        None => {},
    }
    steps.push(
        ConvertStep::LoadSource { path: String::from_str(options.input_path.as_str()), render_svg },
    );
    steps.push(ConvertStep::WriteOutput { path: String::from_str(output_path.as_str()) });
    assert(steps@.map_values(|st: ConvertStep| st@) =~= convert_steps(*options));
    ConvertPlan {
        steps,
        input_path: String::from_str(options.input_path.as_str()),
        output_path,
        output_dir,
        render_svg,
        width: options.width,
        height: options.height,
        background_color: copy_opt(&options.background_color),
        format: options.format,
        quality: options.quality,
    }
}

/// The error a conversion reports when its source image does not exist.
pub fn missing_input_error(plan: &ConvertPlan) -> (e: IconToolkitError)
    ensures
        e matches IconToolkitError::Io { path, message } && path@ == plan.input_path@ && message@
            == "Input image file does not exist"@,
{
    IconToolkitError::Io {
        path: String::from_str(plan.input_path.as_str()),
        message: String::from_str("Input image file does not exist"),
    }
}

/// The size a decoded (not SVG) source of size `w`×`h` is resized to: the requested
/// width and height, each defaulting to the source's, when at least one was requested.
pub open spec fn resize_target_spec(plan: ConvertPlan, w: u32, h: u32) -> Option<(u32, u32)> {
    if !plan.render_svg && (plan.width is Some || plan.height is Some) {
        Some(
            (
                match plan.width {
                    Some(x) => x,
                    None => w,
                },
                match plan.height {
                    Some(x) => x,
                    None => h,
                },
            ),
        )
    } else {
        None
    }
}

/// The size to resize a loaded source of size `width`×`height` to, if any.
pub fn resize_target(plan: &ConvertPlan, width: u32, height: u32) -> (r: Option<(u32, u32)>)
    ensures
        r == resize_target_spec(*plan, width, height),
{
    if !plan.render_svg && (plan.width.is_some() || plan.height.is_some()) {
        let w = match plan.width {
            Some(x) => x,
            None => width,
        };
        let h = match plan.height {
            Some(x) => x,
            None => height,
        };
        Some((w, h))
    } else {
        None
    }
}

/// The size an SVG source whose own size is `svg_width`×`svg_height` is rendered at:
/// the requested width and height, each defaulting to the source's.
pub open spec fn svg_render_size_spec(plan: ConvertPlan, svg_width: u32, svg_height: u32) -> (u32, u32) {
    (
        match plan.width {
            Some(x) => x,
            None => svg_width,
        },
        match plan.height {
            Some(x) => x,
            None => svg_height,
        },
    )
}

/// The size to render an SVG source of own size `svg_width`×`svg_height` at.
pub fn svg_render_size(plan: &ConvertPlan, svg_width: u32, svg_height: u32) -> (r: (u32, u32))
    ensures
        r == svg_render_size_spec(*plan, svg_width, svg_height),
{
    let w = match plan.width {
        Some(x) => x,
        None => svg_width,
    };
    let h = match plan.height {
        Some(x) => x,
        None => svg_height,
    };
    (w, h)
}

/// The result of a conversion whose output file has `file_size` bytes.
pub fn convert_result(plan: &ConvertPlan, file_size: u64) -> (r: ConvertResult)
    ensures
        r.output_path@ == plan.output_path@,
        r.format@ == format_extension(plan.format),
        r.file_size == file_size,
{
    ConvertResult {
        output_path: String::from_str(plan.output_path.as_str()),
        format: String::from_str(plan.format.extension()),
        file_size,
    }
}

/// The standard, padded base64 encoding of a byte sequence, as the `base64` crate's
/// `STANDARD` engine produces it.
pub uninterp spec fn base64_standard_encoding(bytes: Seq<u8>) -> Seq<char>;

/// Calls `base64::engine::general_purpose::STANDARD.encode`. The encoding is a function
/// of the bytes alone, which the contract names. The call panics when the encoded length
/// overflows `usize`, which the precondition excludes.
#[verifier::external_body]
fn base64_encode(bytes: &[u8]) -> (r: String)
    requires
        4 * ((bytes@.len() + 2) / 3) <= usize::MAX,
    ensures
        r@ == base64_standard_encoding(bytes@),
{
    base64::engine::general_purpose::STANDARD.encode(bytes)
}

/// The PNG file the `image` crate writes for a `width`×`height` RGBA image, or the
/// display text of the encoding error.
pub uninterp spec fn png_encoding(width: u32, height: u32, rgba: Seq<u8>) -> Result<Seq<u8>, Seq<char>>;

/// Encodes RGBA pixels as a PNG file in memory with `image::write_buffer_with_format`.
/// The result is a function of the size and the pixels, which the contract names; like
/// every `Vec`, the output holds at most `isize::MAX` bytes. The encoder panics when
/// the buffer does not hold four bytes per pixel, which the precondition excludes.
#[verifier::external_body]
pub fn encode_png(width: u32, height: u32, rgba: &[u8]) -> (r: Result<Vec<u8>, String>)
    requires
        rgba@.len() == 4 * width * height,
    ensures
        match png_encoding(width, height, rgba@) {
            Ok(b) => r matches Ok(v) && v@ == b && b.len() <= isize::MAX,
            Err(m) => r matches Err(e) && e@ == m,
        },
{
    let mut out: Vec<u8> = Vec::new();
    let written = image::write_buffer_with_format(
        &mut std::io::Cursor::new(&mut out),
        rgba,
        width,
        height,
        image::ExtendedColorType::Rgba8,
        image::ImageFormat::Png,
    );
    match written {
        Ok(()) => Ok(out),
        Err(e) => Err(e.to_string()),
    }
}

/// The SVG document of a `width`×`height` RGBA image: the image is encoded as PNG and
/// embedded as a data URI. A PNG encoding failure is an `ImageEncode` error.
pub fn svg_wrapper_from_pixels(width: u32, height: u32, rgba: &[u8]) -> (r: Result<String, IconToolkitError>)
    requires
        rgba@.len() == 4 * width * height,
    ensures
        match png_encoding(width, height, rgba@) {
            Ok(png) => r matches Ok(doc) && doc@ == svg_document(
                width,
                height,
                base64_standard_encoding(png),
            ),
            Err(m) => r matches Err(IconToolkitError::ImageEncode { format, message })
                && format@ == "SVG embedded PNG"@ && message@ == m,
        },
{
    match encode_png(width, height, rgba) {
        Ok(png) => {
            assert(4 * ((png@.len() + 2) / 3) <= usize::MAX);
            Ok(svg_wrapper_document(width, height, png.as_slice()))
        },
        Err(m) => Err(
            IconToolkitError::ImageEncode { format: String::from_str("SVG embedded PNG"), message: m },
        ),
    }
}

/// The JPEG file the `image` crate writes for a `width`×`height` RGB image at a quality
/// setting, or the display text of the encoding error.
pub uninterp spec fn jpeg_encoding(width: u32, height: u32, rgb: Seq<u8>, quality: u8) -> Result<Seq<u8>, Seq<char>>;

/// Encodes RGB pixels as a JPEG file in memory with `image`'s `JpegEncoder` at the given
/// quality (which the encoder clamps to 1..=100). The result is a function of the size,
/// the pixels and the quality, which the contract names. The encoder panics when the
/// buffer does not hold three bytes per pixel, which the precondition excludes.
#[verifier::external_body]
pub fn encode_jpeg(width: u32, height: u32, rgb: &[u8], quality: u8) -> (r: Result<Vec<u8>, String>)
    requires
        rgb@.len() == 3 * width * height,
    ensures
        match jpeg_encoding(width, height, rgb@, quality) {
            Ok(b) => r matches Ok(v) && v@ == b,
            Err(m) => r matches Err(e) && e@ == m,
        },
{
    let mut out: Vec<u8> = Vec::new();
    let written = image::codecs::jpeg::JpegEncoder::new_with_quality(&mut out, quality).encode(
        rgb,
        width,
        height,
        image::ExtendedColorType::Rgb8,
    );
    match written {
        Ok(()) => Ok(out),
        Err(e) => Err(e.to_string()),
    }
}

/// The JPEG file of a `width`×`height` RGB image at the conversion's quality. An
/// encoding failure is an `ImageEncode` error.
pub fn jpeg_file(width: u32, height: u32, rgb: &[u8], quality: u8) -> (r: Result<Vec<u8>, IconToolkitError>)
    requires
        rgb@.len() == 3 * width * height,
    ensures
        match jpeg_encoding(width, height, rgb@, quality) {
            Ok(b) => r matches Ok(v) && v@ == b,
            Err(m) => r matches Err(IconToolkitError::ImageEncode { format, message })
                && format@ == "JPEG"@ && message@ == m,
        },
{
    match encode_jpeg(width, height, rgb, quality) {
        Ok(v) => Ok(v),
        Err(m) => Err(IconToolkitError::ImageEncode { format: String::from_str("JPEG"), message: m }),
    }
}

/// The SVG document that shows a `width`×`height` image given as base64 PNG data.
pub open spec fn svg_document(width: u32, height: u32, data: Seq<char>) -> Seq<char> {
    let w = decimal(width as nat);
    let h = decimal(height as nat);
    "<svg xmlns=\"http://www.w3.org/2000/svg\" viewBox=\"0 0 "@ + w + " "@ + h + "\" width=\""@ + w
        + "\" height=\""@ + h + "\">\n  <image width=\""@ + w + "\" height=\""@ + h
        + "\" href=\"data:image/png;base64,"@ + data + "\"/>\n</svg>\n"@
}

/// The SVG document that embeds the PNG file `png` of size `width`×`height` as a data
/// URI.
pub fn svg_wrapper_document(width: u32, height: u32, png: &[u8]) -> (r: String)
    requires
        4 * ((png@.len() + 2) / 3) <= usize::MAX,
    ensures
        r@ == svg_document(width, height, base64_standard_encoding(png@)),
{
    let data = base64_encode(png);
    let w = decimal_string(width as u64);
    let h = decimal_string(height as u64);
    let mut s = String::new();
    s.append("<svg xmlns=\"http://www.w3.org/2000/svg\" viewBox=\"0 0 ");
    s.append(w.as_str());
    s.append(" ");
    s.append(h.as_str());
    s.append("\" width=\"");
    s.append(w.as_str());
    s.append("\" height=\"");
    s.append(h.as_str());
    s.append("\">\n  <image width=\"");
    s.append(w.as_str());
    s.append("\" height=\"");
    s.append(h.as_str());
    s.append("\" href=\"data:image/png;base64,");
    s.append(data.as_str());
    s.append("\"/>\n</svg>\n");
    s
}

} // verus!

verus! {

/// When a conversion is given no output path, the file it writes is the input path with
/// the extension of the target format (for an input path that names a file).
pub proof fn lemma_inferred_output_has_format_extension(o: ConvertOptions)
    requires
        o.output_path is None,
        crate::path::file_name_span(o.input_path@) is Some,
    ensures
        crate::path::path_extension(convert_output_path(o)) == Some(format_extension(o.format)),
{
    reveal_strlit("png");
    reveal_strlit("webp");
    reveal_strlit("svg");
    reveal_strlit("ico");
    reveal_strlit("jpg");
    let ext = format_extension(o.format);
    assert forall|k: int| 0 <= k < ext.len() implies ext[k] != '.' && ext[k] != '/' by {}
    crate::path::lemma_with_extension_sets_extension(o.input_path@, ext);
}

} // verus!

verus! {

/// The frame sizes of an ICO file written by a conversion, smallest first.
pub open spec fn ico_frame_sizes_spec() -> Seq<u32> {
    seq![16u32, 32, 48, 64, 128, 256]
}

/// The frame sizes of an ICO file written by a conversion: 16, 32, 48, 64, 128 and 256
/// pixels.
pub fn ico_frame_sizes() -> (r: Vec<u32>)
    ensures
        r@ == ico_frame_sizes_spec(),
{
    let v: Vec<u32> = vec![16, 32, 48, 64, 128, 256];
    assert(v@ =~= ico_frame_sizes_spec());
    v
}

} // verus!

verus! {

/// A conversion checks that its source exists before it creates a directory or writes
/// a file: the check is its first step, and the only write is its last.
pub proof fn lemma_conversion_checks_input_first(o: ConvertOptions)
    ensures
        convert_steps(o)[0] == ConvertStepSpec::CheckInputExists(o.input_path@),
        convert_steps(o).last() == ConvertStepSpec::WriteOutput(convert_output_path(o)),
        forall|i: int|
            0 < i < convert_steps(o).len() - 1 ==> !(#[trigger] convert_steps(o)[i] is WriteOutput),
{
}

} // verus!

verus! {

/// Each requested side is used on its own: a decoded source is resized to the
/// requested width and the requested height whenever either is given, each side
/// falling back to the source's own when it is not requested; without a request, or for
/// an SVG source (rendered at its size already), nothing is resized.
pub proof fn lemma_resize_uses_each_requested_side(plan: ConvertPlan, w0: u32, h0: u32)
    ensures
        !plan.render_svg && (plan.width is Some || plan.height is Some) ==> (resize_target_spec(
            plan,
            w0,
            h0,
        ) matches Some((w, h)) && (plan.width matches Some(x) ==> w == x) && (plan.width is None
            ==> w == w0) && (plan.height matches Some(y) ==> h == y) && (plan.height is None ==> h
            == h0)),
        plan.render_svg || (plan.width is None && plan.height is None) ==> resize_target_spec(
            plan,
            w0,
            h0,
        ) is None,
{
}

/// An SVG source is rendered at the requested width and the requested height, each on
/// its own; a side that is not requested is the SVG's own.
pub proof fn lemma_svg_renders_at_requested_sides(plan: ConvertPlan, sw: u32, sh: u32)
    ensures
        plan.width matches Some(x) ==> svg_render_size_spec(plan, sw, sh).0 == x,
        plan.width is None ==> svg_render_size_spec(plan, sw, sh).0 == sw,
        plan.height matches Some(y) ==> svg_render_size_spec(plan, sw, sh).1 == y,
        plan.height is None ==> svg_render_size_spec(plan, sw, sh).1 == sh,
{
}

} // verus!
