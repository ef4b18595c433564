//! Icon-set generation and conversion scenarios, checked on the plans the library makes.

use icon_toolkit_core::converter::convert_image;
use icon_toolkit_core::generator::{generate_icons, generation_result, GenerationPlan, IconStep};
use icon_toolkit_core::types::{ConvertOptions, IconGeneratorOptions, IconTarget, ImageFormat, Mode};

fn demo_icon_path() -> String {
    "demo-icon.png".to_string()
}

fn files_of(plan: &GenerationPlan, targets: &Vec<IconTarget>) -> Vec<String> {
    generation_result(plan, targets).created_files
}

fn creates(files: &[String], path: &str) -> bool {
    files.iter().any(|f| f == path)
}

fn creates_dir(plan: &GenerationPlan, path: &str) -> bool {
    plan.steps.iter().any(|s| matches!(s, IconStep::CreateDir { path: p } if p == path))
}

#[test]
fn test_generate_web_icons() {
    let demo_path = demo_icon_path();
    let out_dir = "out".to_string();
    let opts = IconGeneratorOptions {
        input_path: demo_path,
        dark_input_path: None,
        targets: vec![IconTarget::Web],
        mode: Mode::Light,
        output_dir: out_dir.clone(),
        padding_percent: 5,
        background_color: Some("#ffffff".to_string()),
        border_radius_percent: 10,
    };
    let plan = generate_icons(&opts);
    let files = files_of(&plan, &opts.targets);
    assert!(!files.is_empty());
    assert!(creates_dir(&plan, "out/web"));
    assert!(creates(&files, "out/web/favicon.ico"));
    assert!(creates(&files, "out/web/favicon-16x16.png"));
    assert!(creates(&files, "out/web/favicon-32x32.png"));
    assert!(creates(&files, "out/web/apple-touch-icon.png"));
    assert!(creates(&files, "out/web/android-chrome-192x192.png"));
    assert!(creates(&files, "out/web/android-chrome-512x512.png"));
    assert!(creates(&files, "out/web/site.webmanifest"));
    assert_eq!(plan.background_color.as_deref(), Some("#ffffff"));
}

#[test]
fn test_generate_mobile_icons() {
    let opts = IconGeneratorOptions {
        input_path: demo_icon_path(),
        dark_input_path: None,
        targets: vec![IconTarget::Mobile],
        mode: Mode::Light,
        output_dir: "out".to_string(),
        padding_percent: 0,
        background_color: None,
        border_radius_percent: 0,
    };
    let plan = generate_icons(&opts);
    let files = files_of(&plan, &opts.targets);
    assert!(!files.is_empty());
    assert!(creates(&files, "out/mobile/ios/AppIcon.appiconset/Contents.json"));
    assert!(creates(&files, "out/mobile/ios/AppIcon.appiconset/Icon-1024.png"));
    assert!(creates(&files, "out/mobile/android/res/mipmap-xxxhdpi/ic_launcher.png"));
    assert!(creates(&files, "out/mobile/android/res/mipmap-xxxhdpi/ic_launcher_round.png"));
}

#[test]
fn test_generate_desktop_icons() {
    let opts = IconGeneratorOptions {
        input_path: demo_icon_path(),
        dark_input_path: None,
        targets: vec![IconTarget::Desktop],
        mode: Mode::Light,
        output_dir: "out".to_string(),
        padding_percent: 0,
        background_color: None,
        border_radius_percent: 0,
    };
    let plan = generate_icons(&opts);
    let files = files_of(&plan, &opts.targets);
    assert!(!files.is_empty());
    assert!(creates(&files, "out/desktop/macos/AppIcon.iconset/icon_512x512@2x.png"));
    assert!(creates(&files, "out/desktop/windows/icon.ico"));
    assert!(creates(&files, "out/desktop/linux/hicolor/512x512/apps/app-icon.png"));
}

#[test]
fn test_generate_both_light_and_dark_modes() {
    let demo_path = demo_icon_path();
    let opts = IconGeneratorOptions {
        input_path: demo_path.clone(),
        dark_input_path: Some(demo_path),
        targets: vec![IconTarget::Web],
        mode: Mode::Both,
        output_dir: "out".to_string(),
        padding_percent: 0,
        background_color: None,
        border_radius_percent: 0,
    };
    let plan = generate_icons(&opts);
    let files = files_of(&plan, &opts.targets);
    assert!(!files.is_empty());
    assert!(creates(&files, "out/light/web/favicon.ico"));
    assert!(creates(&files, "out/dark/web/favicon.ico"));
}

#[test]
fn test_convert_image_formats() {
    let demo_path = demo_icon_path();

    // PNG to WebP, resized
    let webp = convert_image(&ConvertOptions {
        input_path: demo_path.clone(),
        output_path: Some("out/demo.webp".to_string()),
        format: ImageFormat::Webp,
        quality: 85,
        width: Some(256),
        height: Some(256),
        background_color: None,
    });
    assert_eq!(webp.output_path, "out/demo.webp");
    assert_eq!(webp.output_dir.as_deref(), Some("out"));
    assert!(!webp.render_svg);
    assert_eq!(webp.format, ImageFormat::Webp);
    assert_eq!(webp.quality, 85);

    // PNG to SVG wrapper
    let svg = convert_image(&ConvertOptions {
        input_path: demo_path.clone(),
        output_path: Some("out/demo.svg".to_string()),
        format: ImageFormat::Svg,
        quality: 100,
        width: None,
        height: None,
        background_color: None,
    });
    assert_eq!(svg.output_path, "out/demo.svg");
    assert_eq!(svg.format, ImageFormat::Svg);

    // SVG input rendered to PNG
    let rendered = convert_image(&ConvertOptions {
        input_path: "out/demo.svg".to_string(),
        output_path: Some("out/rendered_from_svg.png".to_string()),
        format: ImageFormat::Png,
        quality: 100,
        width: Some(128),
        height: Some(128),
        background_color: None,
    });
    assert!(rendered.render_svg);
    assert_eq!(rendered.width, Some(128));
    assert_eq!(rendered.height, Some(128));

    // PNG to multi-size ICO
    let ico = convert_image(&ConvertOptions {
        input_path: demo_path,
        output_path: Some("out/demo.ico".to_string()),
        format: ImageFormat::Ico,
        quality: 100,
        width: None,
        height: None,
        background_color: None,
    });
    assert_eq!(ico.output_path, "out/demo.ico");
    assert_eq!(ico.format, ImageFormat::Ico);
}
