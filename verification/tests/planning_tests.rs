//! Generation plans, layouts, conversion plans, AI requests and responses.

use icon_toolkit_core::ai::{
    ai_request, ai_result, ai_step, auto_generate_options, image_dir, key_env_var, payload_path,
    url_path, AiAction, AiEvent, AiPhase, AiRequestBody, JsonKey,
};
use icon_toolkit_core::converter::{
    convert_image, convert_result, ico_frame_sizes, missing_input_error, resize_target,
    svg_wrapper_document,
};
use icon_toolkit_core::error::IconToolkitError;
use icon_toolkit_core::generator::{
    app_icon_contents, created_files, generate_icons, generation_result, is_svg_path,
    favicon_frame_sizes, run_generation_pass, targets_debug, web_manifest,
    windows_icon_frame_sizes, IconStep,
};
use icon_toolkit_core::js::{
    JsAiGeneratorOptions, JsAiGeneratorResult, JsConvertOptions, JsConvertResult,
    JsGeneratorResult, JsIconGeneratorOptions,
};
use icon_toolkit_core::layout::{compose_canvas, icon_render, IconRender};
use icon_toolkit_core::text::decimal_string;
use icon_toolkit_core::types::{
    AiGeneratorOptions, AiProvider, ConvertOptions, ConvertResult, GeneratorResult,
    IconGeneratorOptions, IconTarget, ImageFormat, Mode,
};

fn options(targets: Vec<IconTarget>, mode: Mode, out: &str) -> IconGeneratorOptions {
    IconGeneratorOptions {
        input_path: "src.png".to_string(),
        dark_input_path: None,
        targets,
        mode,
        output_dir: out.to_string(),
        padding_percent: 0,
        background_color: None,
        border_radius_percent: 0,
    }
}

fn step_path(s: &IconStep) -> Option<&String> {
    match s {
        IconStep::CreateDir { path }
        | IconStep::WritePng { path, .. }
        | IconStep::WriteIco { path, .. }
        | IconStep::WriteWebManifest { path }
        | IconStep::WriteAppIconContents { path } => Some(path),
        _ => None,
    }
}

#[test]
fn file_counts_per_target() {
    let o = options(vec![IconTarget::Web], Mode::Light, "out");
    let plan = generate_icons(&o);
    let r = generation_result(&plan, &o.targets);
    assert_eq!(r.created_files.len(), 7);
    assert_eq!(r.summary, "Successfully generated 7 icon file(s) across target(s): [Web]");

    let o = options(vec![IconTarget::Mobile], Mode::Light, "out");
    assert_eq!(created_files(&generate_icons(&o)).len(), 22);
    let o = options(vec![IconTarget::Desktop], Mode::Light, "out");
    assert_eq!(created_files(&generate_icons(&o)).len(), 18);

    let o = options(
        vec![IconTarget::Web, IconTarget::Mobile, IconTarget::Desktop],
        Mode::Both,
        "out",
    );
    let plan = generate_icons(&o);
    let r = generation_result(&plan, &o.targets);
    assert_eq!(r.created_files.len(), 94);
    assert_eq!(
        r.summary,
        "Successfully generated 94 icon file(s) across target(s): [Web, Mobile, Desktop]"
    );
}

#[test]
fn plan_step_order() {
    let mut o = options(vec![IconTarget::Web], Mode::Dark, "out");
    o.padding_percent = 10;
    o.border_radius_percent = 20;
    let plan = generate_icons(&o);
    assert!(matches!(&plan.steps[0], IconStep::CheckSourceExists { path } if path == "src.png"));
    // Without a dark input, the dark pass uses the primary source.
    assert!(matches!(&plan.steps[1], IconStep::LoadSource { path, render_svg: false } if path == "src.png"));
    assert!(matches!(&plan.steps[2], IconStep::CreateDir { path } if path == "out/web"));
    match &plan.steps[3] {
        IconStep::WritePng { path, render } => {
            assert_eq!(path, "out/web/favicon-16x16.png");
            assert_eq!(
                *render,
                IconRender { size: 16, inner_size: 14, offset: 1, border_radius_percent: 20 }
            );
        }
        _ => panic!("expected a PNG step"),
    }
    match &plan.steps[8] {
        IconStep::WriteIco { path, render, frames } => {
            assert_eq!(path, "out/web/favicon.ico");
            assert_eq!(render.size, 256);
            assert_eq!(frames, &vec![16, 32, 48]);
        }
        _ => panic!("expected an ICO step"),
    }
    assert!(matches!(&plan.steps[9], IconStep::WriteWebManifest { path } if path == "out/web/site.webmanifest"));
    assert_eq!(plan.steps.len(), 10);
}

#[test]
fn dark_input_and_svg_sources() {
    let mut o = options(vec![], Mode::Both, "icons/");
    o.dark_input_path = Some("dark.SVG".to_string());
    let plan = generate_icons(&o);
    assert_eq!(plan.steps.len(), 3);
    assert!(matches!(&plan.steps[1], IconStep::LoadSource { path, render_svg: false } if path == "src.png"));
    assert!(matches!(&plan.steps[2], IconStep::LoadSource { path, render_svg: true } if path == "dark.SVG"));
    assert!(is_svg_path("logo.svg"));
    assert!(!is_svg_path("logo.svg.png"));
    assert!(!is_svg_path("svg"));
}

#[test]
fn android_round_icons_and_linux_folders() {
    let mut o = options(vec![IconTarget::Mobile, IconTarget::Desktop], Mode::Light, "o");
    o.border_radius_percent = 12;
    let plan = generate_icons(&o);
    let round = plan.steps.iter().find_map(|s| match s {
        IconStep::WritePng { path, render } if path == "o/mobile/android/res/mipmap-mdpi/ic_launcher_round.png" => Some(*render),
        _ => None,
    });
    assert_eq!(round.map(|r| r.border_radius_percent), Some(50));
    assert_eq!(round.map(|r| r.size), Some(48));
    assert!(plan.steps.iter().any(|s| matches!(s, IconStep::CreateDir { path } if path == "o/desktop/linux/hicolor/16x16/apps")));
    assert!(plan.steps.iter().any(|s| matches!(s, IconStep::WriteAppIconContents { path } if path == "o/mobile/ios/AppIcon.appiconset/Contents.json")));
}

#[test]
fn generation_stays_in_output_dir() {
    let o = options(
        vec![IconTarget::Desktop, IconTarget::Web, IconTarget::Mobile],
        Mode::Both,
        "build/icons",
    );
    let plan = generate_icons(&o);
    for s in &plan.steps {
        if let Some(p) = step_path(s) {
            assert!(p.starts_with("build/icons/"), "{}", p);
        }
    }
}

#[test]
fn contents_lists_written_ios_icons() {
    let c = app_icon_contents();
    assert_eq!(c.version, 1);
    assert_eq!(c.author, "icon-toolkit");
    assert_eq!(c.images.len(), 11);
    let o = options(vec![IconTarget::Mobile], Mode::Light, "m");
    let files = created_files(&generate_icons(&o));
    for (i, img) in c.images.iter().enumerate() {
        assert_eq!(files[i], format!("m/mobile/ios/AppIcon.appiconset/{}", img.filename));
    }
    assert_eq!(c.images[9].size, "83.5x83.5");
    assert_eq!(c.images[10].idiom, "ios-marketing");
    assert_eq!(c.images[10].scale, "1x");
}

#[test]
fn manifest_points_at_written_icons() {
    let m = web_manifest();
    assert_eq!(m.name, "App Icon");
    assert_eq!(m.short_name, "App");
    assert_eq!(m.display, "standalone");
    assert_eq!(m.theme_color, "#ffffff");
    assert_eq!(m.background_color, "#ffffff");
    let o = options(vec![IconTarget::Web], Mode::Light, "");
    let files = created_files(&generate_icons(&o));
    for icon in &m.icons {
        assert_eq!(icon.mime_type, "image/png");
        assert!(files.contains(&format!("web{}", icon.src)));
    }
    assert_eq!(m.icons[0].sizes, "192x192");
}

#[test]
fn targets_debug_forms() {
    assert_eq!(targets_debug(&vec![]), "[]");
    assert_eq!(targets_debug(&vec![IconTarget::Mobile]), "[Mobile]");
    assert_eq!(targets_debug(&vec![IconTarget::Desktop, IconTarget::Web]), "[Desktop, Web]");
    assert_eq!(decimal_string(0), "0");
    assert_eq!(decimal_string(1234567890), "1234567890");
}

#[test]
fn pass_without_targets_only_loads() {
    let steps = run_generation_pass("a.png", "out", &vec![], 0, 0);
    assert_eq!(steps.len(), 1);
}

#[test]
fn icon_layouts() {
    assert_eq!(icon_render(100, 10, 3), IconRender { size: 100, inner_size: 80, offset: 10, border_radius_percent: 3 });
    assert_eq!(icon_render(32, 5, 0), IconRender { size: 32, inner_size: 30, offset: 1, border_radius_percent: 0 });
    assert_eq!(icon_render(16, 49, 0), IconRender { size: 16, inner_size: 2, offset: 7, border_radius_percent: 0 });
    assert_eq!(icon_render(87, 45, 0), IconRender { size: 87, inner_size: 9, offset: 39, border_radius_percent: 0 });
    assert_eq!(icon_render(64, 50, 0).inner_size, 64);
    assert_eq!(icon_render(64, 0, 0).inner_size, 64);
    assert_eq!(icon_render(1, 30, 0), IconRender { size: 1, inner_size: 1, offset: 0, border_radius_percent: 0 });
}

#[test]
fn canvas_composition() {
    let r = IconRender { size: 3, inner_size: 1, offset: 1, border_radius_percent: 0 };
    let canvas = compose_canvas(r, &vec![1, 2, 3, 4]);
    let mut expected = vec![0u8; 36];
    expected[16..20].copy_from_slice(&[1, 2, 3, 4]);
    assert_eq!(canvas, expected);

    let r = IconRender { size: 2, inner_size: 2, offset: 0, border_radius_percent: 0 };
    let pixels: Vec<u8> = (0..16).collect();
    assert_eq!(compose_canvas(r, &pixels), pixels);
}

#[test]
fn conversion_plans() {
    let plan = convert_image(&ConvertOptions {
        input_path: "icons/logo.png".to_string(),
        output_path: None,
        format: ImageFormat::Webp,
        quality: 80,
        width: Some(256),
        height: None,
        background_color: Some("#000000".to_string()),
    });
    assert_eq!(plan.output_path, "icons/logo.webp");
    assert_eq!(plan.output_dir.as_deref(), Some("icons"));
    assert!(!plan.render_svg);
    assert_eq!(plan.background_color.as_deref(), Some("#000000"));
    assert_eq!(resize_target(&plan, 512, 300), Some((256, 300)));

    let svg = convert_image(&ConvertOptions {
        input_path: "logo.SVG".to_string(),
        output_path: None,
        format: ImageFormat::Png,
        quality: 90,
        width: Some(64),
        height: Some(64),
        background_color: None,
    });
    assert_eq!(svg.output_path, "logo.png");
    assert_eq!(svg.output_dir.as_deref(), Some(""));
    assert!(svg.render_svg);
    assert_eq!(resize_target(&svg, 10, 10), None);

    let plain = convert_image(&ConvertOptions {
        input_path: "a.jpeg".to_string(),
        output_path: Some("b.ico".to_string()),
        format: ImageFormat::Ico,
        quality: 90,
        width: None,
        height: None,
        background_color: None,
    });
    assert_eq!(resize_target(&plain, 10, 20), None);
    let r = convert_result(&plain, 1234);
    assert_eq!(r.output_path, "b.ico");
    assert_eq!(r.format, "ico");
    assert_eq!(r.file_size, 1234);
    assert_eq!(
        missing_input_error(&plain),
        IconToolkitError::Io {
            path: "a.jpeg".to_string(),
            message: "Input image file does not exist".to_string()
        }
    );
    assert_eq!(ico_frame_sizes(), vec![16, 32, 48, 64, 128, 256]);
}

#[test]
fn svg_wrapper() {
    let doc = svg_wrapper_document(2, 3, b"hi");
    assert_eq!(
        doc,
        "<svg xmlns=\"http://www.w3.org/2000/svg\" viewBox=\"0 0 2 3\" width=\"2\" height=\"3\">\n  <image width=\"2\" height=\"3\" href=\"data:image/png;base64,aGk=\"/>\n</svg>\n"
    );
}

fn ai_options(provider: AiProvider) -> AiGeneratorOptions {
    AiGeneratorOptions {
        prompt: "rocket".to_string(),
        provider,
        api_key: Some("k1".to_string()),
        endpoint: None,
        model: None,
        size: 512,
        quality: "hd".to_string(),
        output_path: "out/ai.png".to_string(),
        auto_generate_targets: None,
    }
}

const PROMPT: &str = "rocket, modern app icon, clean vector design, isolated on neutral background, crisp details, 8k";

#[test]
fn openai_requests() {
    let req = ai_request(&ai_options(AiProvider::OpenAi), None).unwrap();
    assert_eq!(req.provider_label, "OpenAI");
    assert_eq!(req.url, "https://api.openai.com/v1/images/generations");
    assert_eq!(req.authorization.as_deref(), Some("Bearer k1"));
    assert!(!req.accept_json);
    match req.body {
        AiRequestBody::ImageGeneration { model, prompt, n, size, quality, response_format } => {
            assert_eq!(model, "dall-e-3");
            assert_eq!(prompt, PROMPT);
            assert_eq!(n, 1);
            assert_eq!(size, "1024x1024");
            assert_eq!(quality.as_deref(), Some("hd"));
            assert_eq!(response_format, "b64_json");
        }
        _ => panic!("expected an image generation body"),
    }
    let mut o = ai_options(AiProvider::OpenAi);
    o.api_key = None;
    o.size = 2048;
    let req = ai_request(&o, Some("envkey".to_string())).unwrap();
    assert_eq!(req.authorization.as_deref(), Some("Bearer envkey"));
    assert!(matches!(req.body, AiRequestBody::ImageGeneration { size, .. } if size == "2048x2048"));
    assert_eq!(
        ai_request(&o, None).err(),
        Some(IconToolkitError::InvalidConfig(
            "OpenAI API key missing. Pass --api-key or set OPENAI_API_KEY environment variable."
                .to_string()
        ))
    );
    assert_eq!(key_env_var(AiProvider::OpenAi), "OPENAI_API_KEY");
}

#[test]
fn stability_gemini_and_generic_requests() {
    let req = ai_request(&ai_options(AiProvider::Stability), None).unwrap();
    assert!(req.accept_json);
    assert_eq!(req.provider_label, "Stability AI");
    assert_eq!(req.url, "https://api.stability.ai/v2beta/stable-image/generate/core");
    assert_eq!(req.authorization.as_deref(), Some("Bearer k1"));
    match &req.body {
        AiRequestBody::Form { content_type, body } => {
            assert_eq!(content_type, "multipart/form-data; boundary=icon-toolkit-form-boundary");
            let expected = format!(
                "--icon-toolkit-form-boundary\r\nContent-Disposition: form-data; name=\"prompt\"\r\n\r\n{}\r\n\
                 --icon-toolkit-form-boundary\r\nContent-Disposition: form-data; name=\"output_format\"\r\n\r\npng\r\n\
                 --icon-toolkit-form-boundary\r\nContent-Disposition: form-data; name=\"aspect_ratio\"\r\n\r\n1:1\r\n\
                 --icon-toolkit-form-boundary--\r\n",
                PROMPT
            );
            assert_eq!(body, &expected);
        }
        _ => panic!("expected a form body"),
    }
    let mut o = ai_options(AiProvider::Stability);
    o.model = Some("ultra".to_string());
    assert_eq!(
        ai_request(&o, None).unwrap().url,
        "https://api.stability.ai/v2beta/stable-image/generate/ultra"
    );
    o.api_key = None;
    assert_eq!(
        ai_request(&o, None).err().map(|e| e.message()),
        Some("Invalid configuration: Stability API key missing. Pass --api-key or set STABILITY_API_KEY environment variable.".to_string())
    );

    let mut g = ai_options(AiProvider::Gemini);
    g.model = Some("imagen-x".to_string());
    let req = ai_request(&g, None).unwrap();
    assert_eq!(req.url, "https://generativelanguage.googleapis.com/v1beta/models/imagen-x:predict?key=k1");
    assert_eq!(req.authorization, None);
    assert!(matches!(req.body, AiRequestBody::Predict { sample_count: 1, .. }));
    g.api_key = None;
    assert!(ai_request(&g, None).is_err());
    assert_eq!(key_env_var(AiProvider::Gemini), "GEMINI_API_KEY");

    let mut c = ai_options(AiProvider::GenericOpenAi);
    c.api_key = None;
    c.endpoint = Some("http://localhost:1234/v1/images".to_string());
    let req = ai_request(&c, None).unwrap();
    assert_eq!(req.url, "http://localhost:1234/v1/images");
    assert_eq!(req.authorization, None);
    assert!(matches!(&req.body, AiRequestBody::ImageGeneration { size, quality: None, .. } if size == "512x512"));
    let req = ai_request(&c, Some(String::new())).unwrap();
    assert_eq!(req.authorization, None);
    let req = ai_request(&c, Some("sk".to_string())).unwrap();
    assert_eq!(req.authorization.as_deref(), Some("Bearer sk"));
}

fn fail_message(a: AiAction) -> (String, String) {
    match a {
        AiAction::Fail(IconToolkitError::AiService { provider, message }) => (provider, message),
        _ => panic!("expected a failure"),
    }
}

#[test]
fn response_handling() {
    let p = AiProvider::OpenAi;
    let (ph, a) = ai_step(p, AiPhase::AwaitingResponse, AiEvent::Response { success: true });
    assert_eq!(ph, AiPhase::AwaitingJson);
    assert!(matches!(a, AiAction::ReadJson));
    let (ph, a) = ai_step(p, AiPhase::AwaitingResponse, AiEvent::Response { success: false });
    assert_eq!(ph, AiPhase::AwaitingErrorText);
    assert!(matches!(a, AiAction::ReadErrorText));
    let (ph, a) = ai_step(p, AiPhase::AwaitingErrorText, AiEvent::ErrorText("quota".to_string()));
    assert_eq!(ph, AiPhase::Done);
    assert_eq!(fail_message(a), ("OpenAI".to_string(), "API returned HTTP error: quota".to_string()));
    let (_, a) = ai_step(p, AiPhase::AwaitingResponse, AiEvent::SendFailed("timeout".to_string()));
    assert_eq!(fail_message(a).1, "timeout");
    let (_, a) = ai_step(p, AiPhase::AwaitingJson, AiEvent::Json { payload: Some("aGVsbG8=".to_string()), url: None });
    assert!(matches!(a, AiAction::Save(b) if b == b"hello".to_vec()));
    let (_, a) = ai_step(p, AiPhase::AwaitingJson, AiEvent::Json { payload: Some("!!!!".to_string()), url: None });
    assert_eq!(fail_message(a).1, "Failed to decode base64 image data: Invalid symbol 33, offset 0.");
    let (_, a) = ai_step(p, AiPhase::AwaitingJson, AiEvent::Json { payload: None, url: Some("http://x".to_string()) });
    assert_eq!(fail_message(a).1, "Response did not contain b64_json image payload");
    let (_, a) = ai_step(p, AiPhase::AwaitingJson, AiEvent::JsonFailed("eof".to_string()));
    assert_eq!(fail_message(a).1, "Failed to parse response JSON: eof");
    let (_, a) = ai_step(AiProvider::Gemini, AiPhase::AwaitingJson, AiEvent::JsonFailed("eof".to_string()));
    assert_eq!(fail_message(a), ("Gemini".to_string(), "Failed to parse JSON response: eof".to_string()));
    let (_, a) = ai_step(AiProvider::Stability, AiPhase::AwaitingJson, AiEvent::Json { payload: None, url: None });
    assert_eq!(fail_message(a).1, "Response did not contain image payload");
    let sp = payload_path(AiProvider::Stability);
    assert_eq!(sp.len(), 1);
    assert!(matches!(&sp[0], JsonKey::Field(f) if f == "image"));
}

#[test]
fn generic_download_flow() {
    let p = AiProvider::GenericOpenAi;
    let (ph, a) = ai_step(p, AiPhase::AwaitingJson, AiEvent::Json { payload: None, url: Some("http://img".to_string()) });
    assert_eq!(ph, AiPhase::AwaitingDownload);
    assert!(matches!(a, AiAction::Download(u) if u == "http://img"));
    let (ph, a) = ai_step(p, AiPhase::AwaitingDownload, AiEvent::Downloaded);
    assert_eq!(ph, AiPhase::AwaitingDownloadBody);
    assert!(matches!(a, AiAction::ReadDownloadBody));
    let (ph, a) = ai_step(p, AiPhase::AwaitingDownloadBody, AiEvent::DownloadBody(vec![1, 2]));
    assert_eq!(ph, AiPhase::Done);
    assert!(matches!(a, AiAction::Save(b) if b == vec![1, 2]));
    let (_, a) = ai_step(p, AiPhase::AwaitingDownload, AiEvent::DownloadFailed("dns".to_string()));
    assert_eq!(fail_message(a).1, "Failed to fetch image from URL: dns");
    let (_, a) = ai_step(p, AiPhase::AwaitingDownloadBody, AiEvent::DownloadBodyFailed("reset".to_string()));
    assert_eq!(fail_message(a).1, "Failed to read image bytes: reset");
    let (_, a) = ai_step(p, AiPhase::AwaitingJson, AiEvent::Json { payload: None, url: None });
    assert_eq!(fail_message(a), ("Generic OpenAI".to_string(), "Response did not contain b64_json or image URL".to_string()));
    assert!(url_path(AiProvider::OpenAi).is_none());
    let path = url_path(p).unwrap();
    assert!(matches!(&path[2], JsonKey::Field(f) if f == "url"));
    let pp = payload_path(AiProvider::Gemini);
    assert!(matches!(&pp[0], JsonKey::Field(f) if f == "predictions"));
    assert!(matches!(&pp[1], JsonKey::Index(0)));
    assert!(matches!(&pp[2], JsonKey::Field(f) if f == "bytesBase64Encoded"));
}

#[test]
fn after_saving() {
    let mut o = ai_options(AiProvider::OpenAi);
    assert_eq!(image_dir(&o).as_deref(), Some("out"));
    assert!(auto_generate_options(&o).is_none());
    o.auto_generate_targets = Some(vec![IconTarget::Web]);
    let g = auto_generate_options(&o).unwrap();
    assert_eq!(g.input_path, "out/ai.png");
    assert_eq!(g.output_dir, "out/targets");
    assert_eq!(g.targets, vec![IconTarget::Web]);
    assert_eq!(g.mode, Mode::Light);
    o.output_path = "ai.png".to_string();
    assert_eq!(auto_generate_options(&o).unwrap().output_dir, "targets");
    let r = ai_result(&o, Some(GeneratorResult { created_files: vec![], summary: "s".to_string() }));
    assert_eq!(r.image_path, "ai.png");
    assert_eq!(r.targets_result.map(|t| t.summary), Some("s".to_string()));
}

#[test]
fn javascript_records() {
    let js = JsIconGeneratorOptions {
        input_path: "in.png".to_string(),
        dark_input_path: None,
        targets: None,
        mode: None,
        output_dir: None,
        padding_percent: None,
        background_color: Some("#fff000".to_string()),
        border_radius_percent: Some(8),
    };
    let o = js.to_options();
    assert_eq!(o.targets, vec![IconTarget::Web, IconTarget::Mobile, IconTarget::Desktop]);
    assert_eq!(o.mode, Mode::Light);
    assert_eq!(o.output_dir, "output/icons");
    assert_eq!(o.padding_percent, 0);
    assert_eq!(o.border_radius_percent, 8);
    assert_eq!(o.background_color.as_deref(), Some("#fff000"));

    let js = JsConvertOptions {
        input_path: "a.png".to_string(),
        output_path: None,
        format: "JPEG".to_string(),
        quality: Some(300),
        width: Some(5),
        height: None,
        background_color: None,
    };
    let c = js.to_options().unwrap();
    assert_eq!(c.format, ImageFormat::Jpg);
    assert_eq!(c.quality, 44);
    let bad = JsConvertOptions { format: "bmp".to_string(), ..js };
    assert_eq!(bad.to_options().err().as_deref(), Some("Unsupported format: bmp"));

    let r = JsConvertResult::from_result(&ConvertResult {
        output_path: "o.png".to_string(),
        format: "png".to_string(),
        file_size: (1u64 << 32) + 5,
    });
    assert_eq!(r.file_size, 5);

    let ai = JsAiGeneratorOptions {
        prompt: "p".to_string(),
        provider: None,
        api_key: None,
        endpoint: None,
        model: None,
        size: None,
        quality: None,
        output_path: None,
        auto_generate_targets: Some(vec!["web".to_string(), "all".to_string()]),
    };
    let a = ai.to_options();
    assert_eq!(a.provider, AiProvider::OpenAi);
    assert_eq!(a.size, 1024);
    assert_eq!(a.quality, "standard");
    assert_eq!(a.output_path, "output/ai-icon.png");
    assert_eq!(a.auto_generate_targets, Some(vec![IconTarget::Web]));

    let g = JsGeneratorResult::from_result(&GeneratorResult {
        created_files: vec!["x".to_string()],
        summary: "y".to_string(),
    });
    assert_eq!(g.created_files, vec!["x".to_string()]);
    let air = JsAiGeneratorResult::from_result(&icon_toolkit_core::types::AiGeneratorResult {
        image_path: "i".to_string(),
        targets_result: None,
    });
    assert_eq!(air.targets_summary, None);
}

#[test]
fn icon_files_carry_their_frame_sizes() {
    assert_eq!(favicon_frame_sizes(), vec![16, 32, 48]);
    assert_eq!(windows_icon_frame_sizes(), vec![16, 24, 32, 48, 64, 128, 256]);
    let steps = run_generation_pass("a.png", "o", &vec![IconTarget::Desktop], 0, 0);
    let ico: Vec<&IconStep> = steps
        .iter()
        .filter(|s| matches!(s, IconStep::WriteIco { .. }))
        .collect();
    assert_eq!(ico.len(), 1);
    match ico[0] {
        IconStep::WriteIco { path, render, frames } => {
            assert_eq!(path, "o/desktop/windows/icon.ico");
            assert_eq!(render.size, 256);
            assert_eq!(frames, &vec![16, 24, 32, 48, 64, 128, 256]);
        }
        _ => unreachable!(),
    }
}
