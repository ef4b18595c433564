//! Names, extensions, colour codes and paths.

use icon_toolkit_core::args::{cli_targets, is_all, parse_target_names};
use icon_toolkit_core::color::{parse_clean_hex_color, parse_hex_color, try_parse_hex_color};
use icon_toolkit_core::error::IconToolkitError;
use icon_toolkit_core::path::{extension_of, join_path, parent_of, with_extension};
use icon_toolkit_core::types::{
    AiProvider, IconGeneratorOptions, IconTarget, ImageFormat, Mode,
};

fn invalid_config(message: &str) -> IconToolkitError {
    IconToolkitError::InvalidConfig(message.to_string())
}

#[test]
fn target_names_in_any_case() {
    assert_eq!(IconTarget::from_str_val("WEB"), Some(IconTarget::Web));
    assert_eq!(IconTarget::from_str_val("Mobile"), Some(IconTarget::Mobile));
    assert_eq!(IconTarget::from_str_val("desktop"), Some(IconTarget::Desktop));
    assert_eq!(IconTarget::from_str_val("tv"), None);
    assert_eq!(IconTarget::from_str_val(""), None);
    // The Kelvin sign lowercases to an ASCII `k`.
    assert_eq!(IconTarget::from_str_val("DES\u{212A}TOP"), Some(IconTarget::Desktop));
    assert_eq!(IconTarget::from_lowercase("WEB"), None);
}

#[test]
fn mode_names_default_to_light() {
    assert_eq!(Mode::from_str_val("DARK"), Mode::Dark);
    assert_eq!(Mode::from_str_val("Both"), Mode::Both);
    assert_eq!(Mode::from_str_val("light"), Mode::Light);
    assert_eq!(Mode::from_str_val("sepia"), Mode::Light);
    assert_eq!(Mode::default(), Mode::Light);
}

#[test]
fn formats_from_extensions() {
    assert_eq!(ImageFormat::from_ext("png"), Some(ImageFormat::Png));
    assert_eq!(ImageFormat::from_ext(".PNG"), Some(ImageFormat::Png));
    assert_eq!(ImageFormat::from_ext("..jpeg"), Some(ImageFormat::Jpg));
    assert_eq!(ImageFormat::from_ext("JPG"), Some(ImageFormat::Jpg));
    assert_eq!(ImageFormat::from_ext("WebP"), Some(ImageFormat::Webp));
    assert_eq!(ImageFormat::from_ext("svg"), Some(ImageFormat::Svg));
    assert_eq!(ImageFormat::from_ext("ico"), Some(ImageFormat::Ico));
    assert_eq!(ImageFormat::from_ext("gif"), None);
    assert_eq!(ImageFormat::from_ext(""), None);
    assert_eq!(ImageFormat::from_ext("png."), None);
}

#[test]
fn format_extension_roundtrip() {
    for f in [
        ImageFormat::Png,
        ImageFormat::Webp,
        ImageFormat::Svg,
        ImageFormat::Ico,
        ImageFormat::Jpg,
    ] {
        assert_eq!(ImageFormat::from_ext(f.extension()), Some(f));
        assert_eq!(ImageFormat::from_ext(&format!(".{}", f.extension())), Some(f));
    }
    assert_eq!(ImageFormat::Jpg.extension(), "jpg");
    assert_eq!(ImageFormat::Webp.extension(), "webp");
}

#[test]
fn provider_names_and_aliases() {
    assert_eq!(AiProvider::from_str_val("Stability"), AiProvider::Stability);
    assert_eq!(AiProvider::from_str_val("GEMINI"), AiProvider::Gemini);
    assert_eq!(AiProvider::from_str_val("generic"), AiProvider::GenericOpenAi);
    assert_eq!(AiProvider::from_str_val("custom"), AiProvider::GenericOpenAi);
    assert_eq!(AiProvider::from_str_val("OpenRouter"), AiProvider::GenericOpenAi);
    assert_eq!(AiProvider::from_str_val("ollama"), AiProvider::GenericOpenAi);
    assert_eq!(AiProvider::from_str_val("openai"), AiProvider::OpenAi);
    assert_eq!(AiProvider::from_str_val("midjourney"), AiProvider::OpenAi);
    assert_eq!(AiProvider::default(), AiProvider::OpenAi);
}

#[test]
fn default_generator_options() {
    let o = IconGeneratorOptions::default();
    assert_eq!(o.input_path, "icon.png");
    assert_eq!(o.dark_input_path, None);
    assert_eq!(o.targets, vec![IconTarget::Web, IconTarget::Mobile, IconTarget::Desktop]);
    assert_eq!(o.mode, Mode::Light);
    assert_eq!(o.output_dir, "output/icons");
    assert_eq!(o.padding_percent, 0);
    assert_eq!(o.background_color, None);
    assert_eq!(o.border_radius_percent, 0);
}

#[test]
fn hex_colors() {
    assert_eq!(parse_hex_color("#ffffff"), Ok([255, 255, 255, 255]));
    assert_eq!(parse_hex_color("#00000080"), Ok([0, 0, 0, 128]));
    assert_eq!(parse_hex_color("ABCDEF"), Ok([171, 205, 239, 255]));
    assert_eq!(parse_hex_color("  #FF8000\n"), Ok([255, 128, 0, 255]));
    assert_eq!(parse_hex_color("transparent"), Ok([0, 0, 0, 0]));
    assert_eq!(parse_hex_color(" Transparent "), Ok([0, 0, 0, 0]));
    // `from_str_radix` accepts a leading plus sign in each group.
    assert_eq!(parse_hex_color("#+f+f+f"), Ok([15, 15, 15, 255]));
}

#[test]
fn hex_color_errors() {
    assert_eq!(parse_hex_color("#12345"), Err(invalid_config("Invalid hex color format: #12345")));
    assert_eq!(parse_hex_color("#ff"), Err(invalid_config("Invalid hex color format: #ff")));
    assert_eq!(parse_hex_color(""), Err(invalid_config("Invalid hex color format: ")));
    assert_eq!(parse_hex_color("#gggggg"), Err(invalid_config("Invalid hex color: #gggggg")));
    assert_eq!(parse_hex_color("#ff00zz80"), Err(invalid_config("Invalid hex color: #ff00zz80")));
    assert_eq!(parse_hex_color("#-1ffff"), Err(invalid_config("Invalid hex color: #-1ffff")));
    let e = parse_hex_color("red").unwrap_err();
    assert_eq!(e.message(), "Invalid configuration: Invalid hex color format: red");
}

#[test]
fn hex_colors_cut_inside_characters() {
    // "é" takes two bytes: the first group is the whole character and does not parse.
    assert_eq!(try_parse_hex_color("#é1234"), Some(Err(invalid_config("Invalid hex color: #é1234"))));
    // The first group would end inside "é".
    assert_eq!(try_parse_hex_color("#aé123"), None);
    // The second group would end inside "é", after a first group that parses.
    assert_eq!(try_parse_hex_color("#123é4"), None);
    assert_eq!(try_parse_hex_color("#102030"), Some(Ok([16, 32, 48, 255])));
    assert_eq!(parse_clean_hex_color("#0a0b0c", "#0A0B0C"), Ok([10, 11, 12, 255]));
    assert_eq!(
        parse_clean_hex_color("#0A0B0X", "orig"),
        Err(invalid_config("Invalid hex color: orig"))
    );
}

#[test]
fn error_messages() {
    let cases = [
        (
            IconToolkitError::ImageDecode { path: "a.png".into(), message: "bad".into() },
            "Failed to decode image from path 'a.png': bad",
        ),
        (
            IconToolkitError::ImageEncode { format: "PNG".into(), message: "full".into() },
            "Failed to encode image to format 'PNG': full",
        ),
        (IconToolkitError::IcoEncoding("x".into()), "ICO encoding error: x"),
        (IconToolkitError::SvgProcessing("y".into()), "SVG processing error: y"),
        (
            IconToolkitError::Io { path: "/tmp".into(), message: "denied".into() },
            "File system I/O error on '/tmp': denied",
        ),
        (
            IconToolkitError::AiService { provider: "Gemini".into(), message: "m".into() },
            "AI Service Error (Gemini): m",
        ),
        (IconToolkitError::InvalidConfig("z".into()), "Invalid configuration: z"),
    ];
    for (e, text) in cases {
        assert_eq!(e.message(), text);
    }
}

#[test]
fn joining_paths() {
    assert_eq!(join_path("out", "web"), "out/web");
    assert_eq!(join_path("out/", "web"), "out/web");
    assert_eq!(join_path("", "web"), "web");
    assert_eq!(join_path("a", "/b"), "/b");
    assert_eq!(join_path("a", ""), "a/");
}

#[test]
fn path_extensions() {
    assert_eq!(extension_of("a/b.PNG"), Some("PNG".to_string()));
    assert_eq!(extension_of("archive.tar.gz"), Some("gz".to_string()));
    assert_eq!(extension_of(".hidden"), None);
    assert_eq!(extension_of("a.b/"), Some("b".to_string()));
    assert_eq!(extension_of("foo."), Some("".to_string()));
    assert_eq!(extension_of("foo.txt/."), Some("txt".to_string()));
    assert_eq!(extension_of("a/.."), None);
    assert_eq!(extension_of("noext"), None);
    assert_eq!(extension_of("/"), None);
}

#[test]
fn replacing_extensions() {
    assert_eq!(with_extension("icon.png", "webp"), "icon.webp");
    assert_eq!(with_extension("dir/file", "webp"), "dir/file.webp");
    assert_eq!(with_extension("a.tar.gz", "ico"), "a.tar.ico");
    assert_eq!(with_extension(".hidden", "png"), ".hidden.png");
    assert_eq!(with_extension("x.png/", "svg"), "x.svg");
    assert_eq!(with_extension("/", "png"), "/");
    assert_eq!(with_extension("a/..", "png"), "a/..");
    assert_eq!(with_extension("a.b", ""), "a");
    assert_eq!(extension_of(&with_extension("photos/cat", "jpg")), Some("jpg".to_string()));
}

#[test]
fn parents() {
    assert_eq!(parent_of("a/b"), Some("a".to_string()));
    assert_eq!(parent_of("a"), Some("".to_string()));
    assert_eq!(parent_of("/"), None);
    assert_eq!(parent_of(""), None);
    assert_eq!(parent_of("/a"), Some("/".to_string()));
    assert_eq!(parent_of("./a"), Some(".".to_string()));
    assert_eq!(parent_of("a/./b"), Some("a".to_string()));
    assert_eq!(parent_of("a/b/"), Some("a".to_string()));
    assert_eq!(parent_of("a/.."), Some("a".to_string()));
    assert_eq!(parent_of("."), Some("".to_string()));
}

#[test]
fn command_line_target_lists() {
    let names = |v: &[&str]| v.iter().map(|s| s.to_string()).collect::<Vec<String>>();
    let all = vec![IconTarget::Web, IconTarget::Mobile, IconTarget::Desktop];
    assert_eq!(cli_targets(&names(&["web", "ALL"])), all);
    assert_eq!(cli_targets(&names(&["mobile", "tv"])), vec![IconTarget::Mobile]);
    assert_eq!(cli_targets(&names(&["tv"])), all);
    assert_eq!(cli_targets(&names(&[])), all);
    assert_eq!(cli_targets(&names(&["Web", "web"])), vec![IconTarget::Web, IconTarget::Web]);
    assert_eq!(cli_targets(&names(&["desktop", "All", "web"])), all);
    assert_eq!(parse_target_names(&names(&["all"])), vec![]);
    assert_eq!(
        parse_target_names(&names(&["desktop", "x", "WEB"])),
        vec![IconTarget::Desktop, IconTarget::Web]
    );
    assert!(is_all("aLl"));
    assert!(!is_all("alll"));
}
