//! Decoding sources, packing ICO frames, saving AI images at their requested size, and
//! the conversion steps.

use icon_toolkit_core::ai::{image_output, ImageOutput};
use icon_toolkit_core::codec::{
    decode_guessed_image, decode_image, encode_ico_bytes, load_source, SourceImage,
};
use icon_toolkit_core::color::parse_hex_color;
use icon_toolkit_core::converter::{
    convert_image, encode_png, jpeg_file, svg_render_size, svg_wrapper_from_pixels, ConvertStep,
};
use icon_toolkit_core::error::IconToolkitError;
use icon_toolkit_core::generator::missing_source_error;
use icon_toolkit_core::types::{AiGeneratorOptions, AiProvider, ConvertOptions, ImageFormat};
use std::io::Cursor;

fn png_bytes(w: u32, h: u32) -> Vec<u8> {
    let img = image::RgbaImage::from_fn(w, h, |x, y| image::Rgba([x as u8, y as u8, 7, 255]));
    let mut out = Vec::new();
    image::DynamicImage::ImageRgba8(img)
        .write_to(&mut Cursor::new(&mut out), image::ImageFormat::Png)
        .unwrap();
    out
}

#[test]
fn decoding_sources() {
    let bytes = png_bytes(3, 2);
    let (w, h, px) = decode_image("png", &bytes).unwrap();
    assert_eq!((w, h, px.len()), (3, 2, 24));
    assert_eq!(&px[4..8], &[1, 0, 7, 255]);
    assert!(decode_image("png", b"not an image").is_err());
    assert!(decode_image("", &bytes).is_err());
    assert_eq!(decode_guessed_image(&bytes).unwrap().0, 3);

    match load_source("icons/a.PNG", false, &bytes).unwrap() {
        SourceImage::Raster { width, height, pixels } => {
            assert_eq!((width, height, pixels.len()), (3, 2, 24));
        }
        _ => panic!("expected a decoded image"),
    }
    assert!(matches!(
        load_source("logo.svg", true, &[]).unwrap(),
        SourceImage::Svg { width: 1024, height: 1024 }
    ));
    match load_source("bad.png", false, b"garbage") {
        Err(IconToolkitError::ImageDecode { path, .. }) => assert_eq!(path, "bad.png"),
        _ => panic!("expected a decode error"),
    }
    match load_source("noext", false, &bytes) {
        Err(IconToolkitError::ImageDecode { path, .. }) => assert_eq!(path, "noext"),
        _ => panic!("a source without an extension has no format"),
    }
}

#[test]
fn packing_ico_frames() {
    let frames = vec![(16u32, vec![200u8; 16 * 16 * 4]), (32u32, vec![10u8; 32 * 32 * 4])];
    let bytes = encode_ico_bytes(&frames).unwrap();
    assert_eq!(&bytes[0..6], &[0, 0, 1, 0, 2, 0]);
    assert_eq!((bytes[6], bytes[7]), (16, 16));
    assert_eq!((bytes[22], bytes[23]), (32, 32));
    let dir = ico::IconDir::read(Cursor::new(&bytes)).unwrap();
    assert_eq!(dir.entries().len(), 2);
    assert_eq!(dir.entries()[1].width(), 32);
    let big = vec![(256u32, vec![0u8; 256 * 256 * 4])];
    let bytes = encode_ico_bytes(&big).unwrap();
    assert_eq!((bytes[6], bytes[7]), (0, 0));
}

fn ai_options(size: u32) -> AiGeneratorOptions {
    AiGeneratorOptions {
        prompt: "p".to_string(),
        provider: AiProvider::Gemini,
        api_key: None,
        endpoint: None,
        model: None,
        size,
        quality: "standard".to_string(),
        output_path: "o.png".to_string(),
        auto_generate_targets: None,
    }
}

#[test]
fn ai_images_are_saved_at_the_requested_size() {
    let bytes = png_bytes(4, 4);
    assert!(matches!(image_output(&ai_options(4), bytes.clone()), ImageOutput::AsReceived(b) if b == bytes));
    assert!(matches!(image_output(&ai_options(0), bytes.clone()), ImageOutput::AsReceived(_)));
    match image_output(&ai_options(2), bytes.clone()) {
        ImageOutput::Resized { width, height, pixels, side } => {
            assert_eq!((width, height, side, pixels.len()), (4, 4, 2, 64));
        }
        _ => panic!("expected a resize"),
    }
    // Bytes the image crate cannot decode are saved as the provider sent them.
    assert!(matches!(image_output(&ai_options(2), b"xx".to_vec()), ImageOutput::AsReceived(b) if b == b"xx".to_vec()));
}

#[test]
fn conversion_checks_before_creating() {
    let o = ConvertOptions {
        input_path: "in/logo.svg".to_string(),
        output_path: Some("out/x/logo.png".to_string()),
        format: ImageFormat::Png,
        quality: 90,
        width: Some(300),
        height: None,
        background_color: None,
    };
    let plan = convert_image(&o);
    assert_eq!(plan.steps.len(), 4);
    assert!(matches!(&plan.steps[0], ConvertStep::CheckInputExists { path } if path == "in/logo.svg"));
    assert!(matches!(&plan.steps[1], ConvertStep::CreateDir { path } if path == "out/x"));
    assert!(matches!(&plan.steps[2], ConvertStep::LoadSource { path, render_svg: true } if path == "in/logo.svg"));
    assert!(matches!(&plan.steps[3], ConvertStep::WriteOutput { path } if path == "out/x/logo.png"));
    assert_eq!(svg_render_size(&plan, 100, 50), (300, 50));
    let o2 = ConvertOptions {
        output_path: Some("flat.png".to_string()),
        width: None,
        ..o
    };
    let plan = convert_image(&o2);
    // As with `Path::parent`, a bare file name has the empty path as its parent.
    assert_eq!(plan.steps.len(), 4);
    assert!(matches!(&plan.steps[1], ConvertStep::CreateDir { path } if path.is_empty()));
    assert_eq!(svg_render_size(&plan, 100, 50), (100, 50));
}

#[test]
fn missing_generation_source() {
    assert_eq!(
        missing_source_error("a/b.png"),
        IconToolkitError::Io {
            path: "a/b.png".to_string(),
            message: "Source image file does not exist".to_string()
        }
    );
}

#[test]
fn colour_codes_ignore_case_hash_and_padding() {
    let plain = parse_hex_color("1a2B3c").unwrap();
    assert_eq!(plain, [0x1a, 0x2b, 0x3c, 255]);
    assert_eq!(parse_hex_color("#1a2B3c").unwrap(), plain);
    assert_eq!(parse_hex_color("1A2B3C").unwrap(), plain);
    assert_eq!(parse_hex_color("  1a2b3c  ").unwrap(), plain);
    assert!(parse_hex_color("##1a2b3c").is_err());
}

#[test]
fn formats_from_their_extensions() {
    for f in [ImageFormat::Png, ImageFormat::Webp, ImageFormat::Svg, ImageFormat::Ico, ImageFormat::Jpg] {
        assert_eq!(ImageFormat::from_ext(f.extension()), Some(f));
        assert_eq!(ImageFormat::from_ext(&f.extension().to_uppercase()), Some(f));
        assert_eq!(ImageFormat::from_ext(&format!(".{}", f.extension())), Some(f));
    }
}

#[test]
fn svg_wrapper_embeds_png() {
    let pixels = vec![255u8; 2 * 1 * 4];
    let png = encode_png(2, 1, &pixels).unwrap();
    assert_eq!(&png[1..4], b"PNG");
    let doc = svg_wrapper_from_pixels(2, 1, &pixels).unwrap();
    assert!(doc.starts_with("<svg xmlns=\"http://www.w3.org/2000/svg\" viewBox=\"0 0 2 1\" width=\"2\" height=\"1\">"));
    assert!(doc.contains("href=\"data:image/png;base64,iVBORw0KGgo"));
}

#[test]
fn jpeg_files_follow_the_quality() {
    let pixels: Vec<u8> = (0..16 * 16 * 3).map(|i| (i * 7 % 256) as u8).collect();
    let low = jpeg_file(16, 16, &pixels, 10).unwrap();
    let high = jpeg_file(16, 16, &pixels, 95).unwrap();
    assert_eq!(&low[0..2], &[0xff, 0xd8]);
    assert_eq!(&high[0..2], &[0xff, 0xd8]);
    assert!(low.len() < high.len());
}
