//! Icon-set generation plans: which directories are created and which files are written,
//! at which sizes and in which order, for every target and theme mode.

use vstd::prelude::*;
use crate::error::IconToolkitError;
use crate::layout::{icon_render, icon_render_spec, IconRender};
use crate::path::{extension_of, join_path, path_extension, path_join};
use crate::text::{copy_opt, opt_view, decimal, lowercase_of, push_decimal, str_eq, str_to_lowercase, string_from_chars};
use crate::types::{GeneratorResult, IconGeneratorOptions, IconTarget, Mode};

verus! {

/// One action of an icon-set generation, in the order the generator performs them.
/// Every action may fail; generation stops at the first failure.
pub enum IconStep {
    /// Fail with `missing_source_error` unless the primary source image exists.
    CheckSourceExists { path: String },
    /// Load the source image of a pass as `codec::load_source` says: SVG sources are
    /// rendered at 1024×1024, others are decoded.
    LoadSource { path: String, render_svg: bool },
    /// Create a directory and its missing parents.
    CreateDir { path: String },
    /// Draw the loaded source as laid out by `render` and save it as a PNG file.
    WritePng { path: String, render: IconRender },
    /// Draw the loaded source as laid out by `render` and save it as an ICO file with one
    /// frame per size in `frames`, each scaled from the drawn icon.
    WriteIco { path: String, render: IconRender, frames: Vec<u32> },
    /// Write the PWA manifest that `web_manifest` describes.
    WriteWebManifest { path: String },
    /// Write the Xcode `Contents.json` that `app_icon_contents` describes.
    WriteAppIconContents { path: String },
}

/// An `IconStep` with its paths as character sequences.
pub enum StepSpec {
    CheckSourceExists(Seq<char>),
    LoadSource(Seq<char>, bool),
    CreateDir(Seq<char>),
    WritePng(Seq<char>, IconRender),
    WriteIco(Seq<char>, IconRender, Seq<u32>),
    WriteWebManifest(Seq<char>),
    WriteAppIconContents(Seq<char>),
}

impl View for IconStep {
    type V = StepSpec;

    open spec fn view(&self) -> StepSpec {
        match self {
            IconStep::CheckSourceExists { path } => StepSpec::CheckSourceExists(path@),
            IconStep::LoadSource { path, render_svg } => StepSpec::LoadSource(path@, *render_svg),
            IconStep::CreateDir { path } => StepSpec::CreateDir(path@),
            IconStep::WritePng { path, render } => StepSpec::WritePng(path@, *render),
            IconStep::WriteIco { path, render, frames } => StepSpec::WriteIco(path@, *render, frames@),
            IconStep::WriteWebManifest { path } => StepSpec::WriteWebManifest(path@),
            IconStep::WriteAppIconContents { path } => StepSpec::WriteAppIconContents(path@),
        }
    }
}

/// The views of a sequence of steps.
pub open spec fn steps_view(v: Seq<IconStep>) -> Seq<StepSpec> {
    v.map_values(|s: IconStep| s@)
}

fn push_step(steps: &mut Vec<IconStep>, s: IconStep)
    ensures
        steps_view(final(steps)@) == steps_view(old(steps)@).push(s@),
{
    let ghost v = s@;
    steps.push(s);
    assert(steps_view(steps@) =~= steps_view(old(steps)@).push(v));
}

fn copy_str(s: &str) -> (r: String)
    ensures
        r@ == s@,
{
    String::from_str(s)
}

/// The step that writes the PNG icon `name` of side `size` into `dir`.
pub open spec fn png_step(dir: Seq<char>, name: Seq<char>, size: u32, pad: u32, rad: u32) -> StepSpec {
    StepSpec::WritePng(path_join(dir, name), icon_render_spec(size, pad, rad))
}

fn push_png(steps: &mut Vec<IconStep>, dir: &str, name: &str, size: u32, pad: u32, rad: u32)
    requires
        1 <= size <= 1024,
    ensures
        steps_view(final(steps)@) == steps_view(old(steps)@).push(
            png_step(dir@, name@, size, pad, rad),
        ),
{
    let path = join_path(dir, name);
    let render = icon_render(size, pad, rad);
    push_step(steps, IconStep::WritePng { path, render });
}

/// The frame sizes of the web `favicon.ico`: 16, 32 and 48 pixels.
pub open spec fn favicon_frames() -> Seq<u32> {
    seq![16u32, 32, 48]
}

/// The frame sizes of the Windows `icon.ico`: 16, 24, 32, 48, 64, 128 and 256 pixels.
pub open spec fn windows_icon_frames() -> Seq<u32> {
    seq![16u32, 24, 32, 48, 64, 128, 256]
}

/// The frame sizes of the web `favicon.ico`.
pub fn favicon_frame_sizes() -> (r: Vec<u32>)
    ensures
        r@ == favicon_frames(),
{
    let v: Vec<u32> = vec![16, 32, 48];
    assert(v@ =~= favicon_frames());
    v
}

/// The frame sizes of the Windows `icon.ico`.
pub fn windows_icon_frame_sizes() -> (r: Vec<u32>)
    ensures
        r@ == windows_icon_frames(),
{
    let v: Vec<u32> = vec![16, 24, 32, 48, 64, 128, 256];
    assert(v@ =~= windows_icon_frames());
    v
}

/// The web icon set, written into `dir`.
pub open spec fn web_steps(dir: Seq<char>, pad: u32, rad: u32) -> Seq<StepSpec> {
    seq![
        StepSpec::CreateDir(dir),
        png_step(dir, "favicon-16x16.png"@, 16, pad, rad),
        png_step(dir, "favicon-32x32.png"@, 32, pad, rad),
        png_step(dir, "apple-touch-icon.png"@, 180, pad, rad),
        png_step(dir, "android-chrome-192x192.png"@, 192, pad, rad),
        png_step(dir, "android-chrome-512x512.png"@, 512, pad, rad),
        StepSpec::WriteIco(
            path_join(dir, "favicon.ico"@),
            icon_render_spec(256, pad, rad),
            favicon_frames(),
        ),
        StepSpec::WriteWebManifest(path_join(dir, "site.webmanifest"@)),
    ]
}

/// Plans the web icon set: favicon PNGs, the Apple touch icon, the Android Chrome icons,
/// a multi-size `favicon.ico` and `site.webmanifest`.
pub fn generate_web_target(steps: &mut Vec<IconStep>, web_dir: &str, pad: u32, rad: u32)
    ensures
        steps_view(final(steps)@) == steps_view(old(steps)@) + web_steps(web_dir@, pad, rad),
{
    let ghost start = steps_view(steps@);
    push_step(steps, IconStep::CreateDir { path: copy_str(web_dir) });
    push_png(steps, web_dir, "favicon-16x16.png", 16, pad, rad);
    push_png(steps, web_dir, "favicon-32x32.png", 32, pad, rad);
    push_png(steps, web_dir, "apple-touch-icon.png", 180, pad, rad);
    push_png(steps, web_dir, "android-chrome-192x192.png", 192, pad, rad);
    push_png(steps, web_dir, "android-chrome-512x512.png", 512, pad, rad);
    let ico = join_path(web_dir, "favicon.ico");
    let frames = favicon_frame_sizes();
    push_step(steps, IconStep::WriteIco { path: ico, render: icon_render(256, pad, rad), frames });
    let manifest = join_path(web_dir, "site.webmanifest");
    push_step(steps, IconStep::WriteWebManifest { path: manifest });
    assert(steps_view(steps@) =~= start + web_steps(web_dir@, pad, rad));
}

} // verus!

verus! {

/// The three steps of one Android density folder: the folder, the launcher icon and
/// the round launcher icon (always drawn with a 50% radius).
pub open spec fn android_folder_steps(res: Seq<char>, folder: Seq<char>, size: u32, pad: u32, rad: u32) -> Seq<StepSpec> {
    let d = path_join(res, folder);
    seq![
        StepSpec::CreateDir(d),
        png_step(d, "ic_launcher.png"@, size, pad, rad),
        png_step(d, "ic_launcher_round.png"@, size, pad, 50),
    ]
}

/// The iOS app icon set directory under a mobile output directory.
pub open spec fn ios_dir(dir: Seq<char>) -> Seq<char> {
    path_join(path_join(dir, "ios"@), "AppIcon.appiconset"@)
}

/// The Android resource directory under a mobile output directory.
pub open spec fn android_res_dir(dir: Seq<char>) -> Seq<char> {
    path_join(path_join(dir, "android"@), "res"@)
}

/// The mobile icon set, written into `dir`.
pub open spec fn mobile_steps(dir: Seq<char>, pad: u32, rad: u32) -> Seq<StepSpec> {
    let ios = ios_dir(dir);
    let res = android_res_dir(dir);
    seq![
        StepSpec::CreateDir(ios),
        png_step(ios, "Icon-20@2x.png"@, 40, pad, rad),
        png_step(ios, "Icon-20@3x.png"@, 60, pad, rad),
        png_step(ios, "Icon-29@2x.png"@, 58, pad, rad),
        png_step(ios, "Icon-29@3x.png"@, 87, pad, rad),
        png_step(ios, "Icon-40@2x.png"@, 80, pad, rad),
        png_step(ios, "Icon-40@3x.png"@, 120, pad, rad),
        png_step(ios, "Icon-60@2x.png"@, 120, pad, rad),
        png_step(ios, "Icon-60@3x.png"@, 180, pad, rad),
        png_step(ios, "Icon-76@2x.png"@, 152, pad, rad),
        png_step(ios, "Icon-83.5@2x.png"@, 167, pad, rad),
        png_step(ios, "Icon-1024.png"@, 1024, pad, rad),
        StepSpec::WriteAppIconContents(path_join(ios, "Contents.json"@)),
    ] + android_folder_steps(res, "mipmap-mdpi"@, 48, pad, rad) + android_folder_steps(
        res,
        "mipmap-hdpi"@,
        72,
        pad,
        rad,
    ) + android_folder_steps(res, "mipmap-xhdpi"@, 96, pad, rad) + android_folder_steps(
        res,
        "mipmap-xxhdpi"@,
        144,
        pad,
        rad,
    ) + android_folder_steps(res, "mipmap-xxxhdpi"@, 192, pad, rad)
}

fn push_android_folder(steps: &mut Vec<IconStep>, res: &str, folder: &str, size: u32, pad: u32, rad: u32)
    requires
        1 <= size <= 1024,
    ensures
        steps_view(final(steps)@) == steps_view(old(steps)@) + android_folder_steps(
            res@,
            folder@,
            size,
            pad,
            rad,
        ),
{
    let ghost start = steps_view(steps@);
    let d = join_path(res, folder);
    push_step(steps, IconStep::CreateDir { path: copy_str(d.as_str()) });
    push_png(steps, d.as_str(), "ic_launcher.png", size, pad, rad);
    push_png(steps, d.as_str(), "ic_launcher_round.png", size, pad, 50);
    assert(steps_view(steps@) =~= start + android_folder_steps(res@, folder@, size, pad, rad));
}

/// Plans the mobile icon set: the iOS `AppIcon.appiconset` with its `Contents.json`, and
/// the Android launcher icons of every density.
pub fn generate_mobile_target(steps: &mut Vec<IconStep>, mobile_dir: &str, pad: u32, rad: u32)
    ensures
        steps_view(final(steps)@) == steps_view(old(steps)@) + mobile_steps(mobile_dir@, pad, rad),
{
    let ghost start = steps_view(steps@);
    let ios_parent = join_path(mobile_dir, "ios");
    let ios = join_path(ios_parent.as_str(), "AppIcon.appiconset");
    let d = ios.as_str();
    push_step(steps, IconStep::CreateDir { path: copy_str(d) });
    push_png(steps, d, "Icon-20@2x.png", 40, pad, rad);
    push_png(steps, d, "Icon-20@3x.png", 60, pad, rad);
    push_png(steps, d, "Icon-29@2x.png", 58, pad, rad);
    push_png(steps, d, "Icon-29@3x.png", 87, pad, rad);
    push_png(steps, d, "Icon-40@2x.png", 80, pad, rad);
    push_png(steps, d, "Icon-40@3x.png", 120, pad, rad);
    push_png(steps, d, "Icon-60@2x.png", 120, pad, rad);
    push_png(steps, d, "Icon-60@3x.png", 180, pad, rad);
    push_png(steps, d, "Icon-76@2x.png", 152, pad, rad);
    push_png(steps, d, "Icon-83.5@2x.png", 167, pad, rad);
    push_png(steps, d, "Icon-1024.png", 1024, pad, rad);
    let contents = join_path(d, "Contents.json");
    push_step(steps, IconStep::WriteAppIconContents { path: contents });
    let ghost mid = steps_view(steps@);
    assert(mid =~= start + mobile_steps(mobile_dir@, pad, rad).subrange(0, 13));
    let android = join_path(mobile_dir, "android");
    let res = join_path(android.as_str(), "res");
    let r = res.as_str();
    push_android_folder(steps, r, "mipmap-mdpi", 48, pad, rad);
    push_android_folder(steps, r, "mipmap-hdpi", 72, pad, rad);
    push_android_folder(steps, r, "mipmap-xhdpi", 96, pad, rad);
    push_android_folder(steps, r, "mipmap-xxhdpi", 144, pad, rad);
    push_android_folder(steps, r, "mipmap-xxxhdpi", 192, pad, rad);
    assert(steps_view(steps@) =~= start + mobile_steps(mobile_dir@, pad, rad));
}

/// The directory name of a Linux hicolor size, such as `16x16`.
pub open spec fn size_dir_name(size: u32) -> Seq<char> {
    decimal(size as nat) + seq!['x'] + decimal(size as nat)
}

/// The two steps of one Linux hicolor size: its `apps` folder and the icon in it.
pub open spec fn linux_size_steps(linux: Seq<char>, size: u32, pad: u32, rad: u32) -> Seq<StepSpec> {
    let d = path_join(path_join(linux, size_dir_name(size)), "apps"@);
    seq![StepSpec::CreateDir(d), png_step(d, "app-icon.png"@, size, pad, rad)]
}

/// The macOS icon set directory under a desktop output directory.
pub open spec fn macos_dir(dir: Seq<char>) -> Seq<char> {
    path_join(path_join(dir, "macos"@), "AppIcon.iconset"@)
}

/// The Linux hicolor directory under a desktop output directory.
pub open spec fn linux_dir(dir: Seq<char>) -> Seq<char> {
    path_join(path_join(dir, "linux"@), "hicolor"@)
}

/// The desktop icon set, written into `dir`.
pub open spec fn desktop_steps(dir: Seq<char>, pad: u32, rad: u32) -> Seq<StepSpec> {
    let mac = macos_dir(dir);
    let win = path_join(dir, "windows"@);
    let linux = linux_dir(dir);
    seq![
        StepSpec::CreateDir(mac),
        png_step(mac, "icon_16x16.png"@, 16, pad, rad),
        png_step(mac, "icon_16x16@2x.png"@, 32, pad, rad),
        png_step(mac, "icon_32x32.png"@, 32, pad, rad),
        png_step(mac, "icon_32x32@2x.png"@, 64, pad, rad),
        png_step(mac, "icon_128x128.png"@, 128, pad, rad),
        png_step(mac, "icon_128x128@2x.png"@, 256, pad, rad),
        png_step(mac, "icon_256x256.png"@, 256, pad, rad),
        png_step(mac, "icon_256x256@2x.png"@, 512, pad, rad),
        png_step(mac, "icon_512x512.png"@, 512, pad, rad),
        png_step(mac, "icon_512x512@2x.png"@, 1024, pad, rad),
        StepSpec::CreateDir(win),
        StepSpec::WriteIco(
            path_join(win, "icon.ico"@),
            icon_render_spec(256, pad, rad),
            windows_icon_frames(),
        ),
    ] + linux_size_steps(linux, 16, pad, rad) + linux_size_steps(linux, 32, pad, rad)
        + linux_size_steps(linux, 48, pad, rad) + linux_size_steps(linux, 64, pad, rad)
        + linux_size_steps(linux, 128, pad, rad) + linux_size_steps(linux, 256, pad, rad)
        + linux_size_steps(linux, 512, pad, rad)
}

fn push_linux_size(steps: &mut Vec<IconStep>, linux: &str, size: u32, pad: u32, rad: u32)
    requires
        1 <= size <= 1024,
    ensures
        steps_view(final(steps)@) == steps_view(old(steps)@) + linux_size_steps(
            linux@,
            size,
            pad,
            rad,
        ),
{
    let ghost start = steps_view(steps@);
    let mut name: Vec<char> = Vec::new();
    push_decimal(&mut name, size as u64);
    name.push('x');
    push_decimal(&mut name, size as u64);
    assert(name@ =~= size_dir_name(size));
    let name_str = string_from_chars(&name);
    let size_dir = join_path(linux, name_str.as_str());
    let d = join_path(size_dir.as_str(), "apps");
    push_step(steps, IconStep::CreateDir { path: copy_str(d.as_str()) });
    push_png(steps, d.as_str(), "app-icon.png", size, pad, rad);
    assert(steps_view(steps@) =~= start + linux_size_steps(linux@, size, pad, rad));
}

/// Plans the desktop icon set: the macOS `AppIcon.iconset`, the Windows `icon.ico` and
/// the Linux hicolor icons.
pub fn generate_desktop_target(steps: &mut Vec<IconStep>, desktop_dir: &str, pad: u32, rad: u32)
    ensures
        steps_view(final(steps)@) == steps_view(old(steps)@) + desktop_steps(desktop_dir@, pad, rad),
{
    let ghost start = steps_view(steps@);
    let mac_parent = join_path(desktop_dir, "macos");
    let mac = join_path(mac_parent.as_str(), "AppIcon.iconset");
    let m = mac.as_str();
    push_step(steps, IconStep::CreateDir { path: copy_str(m) });
    push_png(steps, m, "icon_16x16.png", 16, pad, rad);
    push_png(steps, m, "icon_16x16@2x.png", 32, pad, rad);
    push_png(steps, m, "icon_32x32.png", 32, pad, rad);
    push_png(steps, m, "icon_32x32@2x.png", 64, pad, rad);
    push_png(steps, m, "icon_128x128.png", 128, pad, rad);
    push_png(steps, m, "icon_128x128@2x.png", 256, pad, rad);
    push_png(steps, m, "icon_256x256.png", 256, pad, rad);
    push_png(steps, m, "icon_256x256@2x.png", 512, pad, rad);
    push_png(steps, m, "icon_512x512.png", 512, pad, rad);
    push_png(steps, m, "icon_512x512@2x.png", 1024, pad, rad);
    let win = join_path(desktop_dir, "windows");
    push_step(steps, IconStep::CreateDir { path: copy_str(win.as_str()) });
    let ico = join_path(win.as_str(), "icon.ico");
    let frames = windows_icon_frame_sizes();
    push_step(steps, IconStep::WriteIco { path: ico, render: icon_render(256, pad, rad), frames });
    assert(steps_view(steps@) =~= start + desktop_steps(desktop_dir@, pad, rad).subrange(0, 13));
    let linux_parent = join_path(desktop_dir, "linux");
    let linux = join_path(linux_parent.as_str(), "hicolor");
    let l = linux.as_str();
    push_linux_size(steps, l, 16, pad, rad);
    push_linux_size(steps, l, 32, pad, rad);
    push_linux_size(steps, l, 48, pad, rad);
    push_linux_size(steps, l, 64, pad, rad);
    push_linux_size(steps, l, 128, pad, rad);
    push_linux_size(steps, l, 256, pad, rad);
    push_linux_size(steps, l, 512, pad, rad);
    assert(steps_view(steps@) =~= start + desktop_steps(desktop_dir@, pad, rad));
}

} // verus!

verus! {

/// The steps that generate one target into the output directory `out` of a pass.
pub open spec fn target_steps(out: Seq<char>, t: IconTarget, pad: u32, rad: u32) -> Seq<StepSpec> {
    match t {
        IconTarget::Web => web_steps(path_join(out, "web"@), pad, rad),
        IconTarget::Mobile => mobile_steps(path_join(out, "mobile"@), pad, rad),
        IconTarget::Desktop => desktop_steps(path_join(out, "desktop"@), pad, rad),
    }
}

/// The steps that generate the given targets, one after the other, into `out`.
pub open spec fn targets_steps(out: Seq<char>, ts: Seq<IconTarget>, pad: u32, rad: u32) -> Seq<StepSpec>
    decreases ts.len(),
{
    if ts.len() == 0 {
        seq![]
    } else {
        targets_steps(out, ts.drop_last(), pad, rad) + target_steps(out, ts.last(), pad, rad)
    }
}

/// Whether a source image is read as SVG: its extension, lowercased, is `svg`.
pub open spec fn is_svg_source(p: Seq<char>) -> bool {
    lowercase_of(
        match path_extension(p) {
            Some(e) => e,
            None => Seq::empty(),
        },
    ) == "svg"@
}

/// Whether the image at `path` is read as SVG (its extension, lowercased, is `svg`).
pub fn is_svg_path(path: &str) -> (r: bool)
    ensures
        r == is_svg_source(path@),
{
    let lowered = match extension_of(path) {
        Some(e) => str_to_lowercase(e.as_str()),
        None => str_to_lowercase(""),
    };
    proof {
        assert(""@ =~= Seq::<char>::empty()) by {
            reveal_strlit("");
        }
    }
    str_eq(lowered.as_str(), "svg")
}

/// One generation pass: load the source, then generate every target into `out`.
pub open spec fn pass_steps(src: Seq<char>, out: Seq<char>, ts: Seq<IconTarget>, pad: u32, rad: u32) -> Seq<StepSpec> {
    seq![StepSpec::LoadSource(src, is_svg_source(src))] + targets_steps(out, ts, pad, rad)
}

/// Plans a single generation pass for one source image and output directory.
pub fn run_generation_pass(
    source_path: &str,
    out_dir: &str,
    targets: &Vec<IconTarget>,
    padding_percent: u32,
    border_radius_percent: u32,
) -> (r: Vec<IconStep>)
    ensures
        steps_view(r@) == pass_steps(
            source_path@,
            out_dir@,
            targets@,
            padding_percent,
            border_radius_percent,
        ),
{
    let pad = padding_percent;
    let rad = border_radius_percent;
    let mut steps: Vec<IconStep> = Vec::new();
    let render_svg = is_svg_path(source_path);
    push_step(&mut steps, IconStep::LoadSource { path: copy_str(source_path), render_svg });
    let ghost first = steps_view(steps@);
    assert(first =~= seq![StepSpec::LoadSource(source_path@, is_svg_source(source_path@))]);
    let mut i: usize = 0;
    while i < targets.len()
        invariant
            i <= targets.len(),
            steps_view(steps@) == first + targets_steps(out_dir@, targets@.take(i as int), pad, rad),
        decreases targets.len() - i,
    {
        let t = targets[i];
        match t {
            IconTarget::Web => {
                let dir = join_path(out_dir, "web");
                generate_web_target(&mut steps, dir.as_str(), pad, rad);
            },
            IconTarget::Mobile => {
                let dir = join_path(out_dir, "mobile");
                generate_mobile_target(&mut steps, dir.as_str(), pad, rad);
            },
            IconTarget::Desktop => {
                let dir = join_path(out_dir, "desktop");
                generate_desktop_target(&mut steps, dir.as_str(), pad, rad);
            },
        }
        assert(targets@.take(i + 1).drop_last() =~= targets@.take(i as int));
        i = i + 1;
        assert(steps_view(steps@) =~= first + targets_steps(out_dir@, targets@.take(i as int), pad, rad));
    }
    assert(targets@.take(targets.len() as int) =~= targets@);
    steps
}

/// The source image of a dark pass: the dark input when there is one.
pub open spec fn dark_source(o: IconGeneratorOptions) -> Seq<char> {
    match o.dark_input_path {
        Some(d) => d@,
        None => o.input_path@,
    }
}

/// Every step of an icon-set generation: the existence check of the primary source,
/// then one pass per theme (into `light/` and `dark/` subdirectories for both themes).
pub open spec fn plan_steps(o: IconGeneratorOptions) -> Seq<StepSpec> {
    let out = o.output_dir@;
    let ts = o.targets@;
    let pad = o.padding_percent;
    let rad = o.border_radius_percent;
    seq![StepSpec::CheckSourceExists(o.input_path@)] + match o.mode {
        Mode::Both => pass_steps(o.input_path@, path_join(out, "light"@), ts, pad, rad)
            + pass_steps(dark_source(o), path_join(out, "dark"@), ts, pad, rad),
        Mode::Dark => pass_steps(dark_source(o), out, ts, pad, rad),
        Mode::Light => pass_steps(o.input_path@, out, ts, pad, rad),
    }
}

/// The error a generation reports, from its first step, when the primary source image
/// at `path` does not exist; no step that creates or writes anything has run then.
pub fn missing_source_error(path: &str) -> (e: IconToolkitError)
    ensures
        e matches IconToolkitError::Io { path: p, message } && p@ == path@ && message@
            == "Source image file does not exist"@,
{
    IconToolkitError::Io {
        path: String::from_str(path),
        message: String::from_str("Source image file does not exist"),
    }
}

/// What an icon-set generation does, step by step, and the background colour that every
/// icon is filled with.
pub struct GenerationPlan {
    pub steps: Vec<IconStep>,
    pub background_color: Option<String>,
}

fn append_steps(steps: &mut Vec<IconStep>, more: Vec<IconStep>)
    ensures
        steps_view(final(steps)@) == steps_view(old(steps)@) + steps_view(more@),
{
    let mut more = more;
    let ghost m = more@;
    steps.append(&mut more);
    assert(steps_view(steps@) =~= steps_view(old(steps)@) + steps_view(m));
}

/// Plans an icon-set generation from its options.
pub fn generate_icons(options: &IconGeneratorOptions) -> (plan: GenerationPlan)
    ensures
        steps_view(plan.steps@) == plan_steps(*options),
        opt_view(plan.background_color) == opt_view(options.background_color),
{
    let pad = options.padding_percent;
    let rad = options.border_radius_percent;
    let mut steps: Vec<IconStep> = Vec::new();
    push_step(&mut steps, IconStep::CheckSourceExists { path: copy_str(options.input_path.as_str()) });
    let dark = match &options.dark_input_path {
        Some(d) => d.as_str(),
        None => options.input_path.as_str(),
    };
    match options.mode {
        Mode::Both => {
            let light_out = join_path(options.output_dir.as_str(), "light");
            let light = run_generation_pass(
                options.input_path.as_str(),
                light_out.as_str(),
                &options.targets,
                pad,
                rad,
            );
            append_steps(&mut steps, light);
            let dark_out = join_path(options.output_dir.as_str(), "dark");
            let dark_steps = run_generation_pass(dark, dark_out.as_str(), &options.targets, pad, rad);
            append_steps(&mut steps, dark_steps);
        },
        Mode::Dark => {
            let pass = run_generation_pass(dark, options.output_dir.as_str(), &options.targets, pad, rad);
            append_steps(&mut steps, pass);
        },
        Mode::Light => {
            let pass = run_generation_pass(
                options.input_path.as_str(),
                options.output_dir.as_str(),
                &options.targets,
                pad,
                rad,
            );
            append_steps(&mut steps, pass);
        },
    }
    assert(steps_view(steps@) =~= plan_steps(*options));
    let background_color = copy_opt(&options.background_color);
    GenerationPlan { steps, background_color }
}

} // verus!

verus! {

/// The file that a step writes, if it writes one.
pub open spec fn step_output(s: StepSpec) -> Option<Seq<char>> {
    match s {
        StepSpec::WritePng(p, _) => Some(p),
        StepSpec::WriteIco(p, _, _) => Some(p),
        StepSpec::WriteWebManifest(p) => Some(p),
        StepSpec::WriteAppIconContents(p) => Some(p),
        _ => None,
    }
}

/// The files that a sequence of steps writes, in order.
pub open spec fn outputs(ss: Seq<StepSpec>) -> Seq<Seq<char>>
    decreases ss.len(),
{
    if ss.len() == 0 {
        seq![]
    } else {
        match step_output(ss.last()) {
            Some(p) => outputs(ss.drop_last()).push(p),
            None => outputs(ss.drop_last()),
        }
    }
}

/// The characters of each string of a sequence.
pub open spec fn strings_view(v: Seq<String>) -> Seq<Seq<char>> {
    v.map_values(|s: String| s@)
}

/// The name of a target as its debug form prints it.
pub open spec fn target_name(t: IconTarget) -> Seq<char> {
    match t {
        IconTarget::Web => "Web"@,
        IconTarget::Mobile => "Mobile"@,
        IconTarget::Desktop => "Desktop"@,
    }
}

/// The names of targets separated by `", "`.
pub open spec fn target_names(ts: Seq<IconTarget>) -> Seq<char>
    decreases ts.len(),
{
    if ts.len() == 0 {
        seq![]
    } else if ts.len() == 1 {
        target_name(ts[0])
    } else {
        target_names(ts.drop_last()) + ", "@ + target_name(ts.last())
    }
}

/// The debug form of a list of targets, e.g. `[Web, Mobile]`.
pub open spec fn target_list(ts: Seq<IconTarget>) -> Seq<char> {
    "["@ + target_names(ts) + "]"@
}

/// The summary line of a generation that created `n` files.
pub open spec fn summary_text(n: nat, ts: Seq<IconTarget>) -> Seq<char> {
    "Successfully generated "@ + decimal(n) + " icon file(s) across target(s): "@ + target_list(ts)
}

fn append_target_name(s: &mut String, t: IconTarget)
    ensures
        final(s)@ == old(s)@ + target_name(t),
{
    match t {
        IconTarget::Web => s.append("Web"),
        IconTarget::Mobile => s.append("Mobile"),
        IconTarget::Desktop => s.append("Desktop"),
    }
}

/// The debug form of a list of targets, e.g. `[Web, Mobile]`.
pub fn targets_debug(targets: &Vec<IconTarget>) -> (r: String)
    ensures
        r@ == target_list(targets@),
{
    let mut s = String::new();
    s.append("[");
    let ghost start = s@;
    let mut i: usize = 0;
    while i < targets.len()
        invariant
            i <= targets.len(),
            s@ == start + target_names(targets@.take(i as int)),
        decreases targets.len() - i,
    {
        if i > 0 {
            s.append(", ");
        }
        append_target_name(&mut s, targets[i]);
        assert(targets@.take(i + 1).drop_last() =~= targets@.take(i as int));
        i = i + 1;
        assert(s@ =~= start + target_names(targets@.take(i as int)));
    }
    assert(targets@.take(targets.len() as int) =~= targets@);
    s.append("]");
    s
}

/// The files a generation plan creates, in order.
pub fn created_files(plan: &GenerationPlan) -> (r: Vec<String>)
    ensures
        strings_view(r@) == outputs(steps_view(plan.steps@)),
{
    let mut files: Vec<String> = Vec::new();
    let mut i: usize = 0;
    while i < plan.steps.len()
        invariant
            i <= plan.steps.len(),
            strings_view(files@) == outputs(steps_view(plan.steps@.take(i as int))),
        decreases plan.steps.len() - i,
    {
        let ghost before = files@;
        let out = match &plan.steps[i] {
            IconStep::WritePng { path, .. } => Some(copy_str(path.as_str())),
            IconStep::WriteIco { path, .. } => Some(copy_str(path.as_str())),
            IconStep::WriteWebManifest { path } => Some(copy_str(path.as_str())),
            IconStep::WriteAppIconContents { path } => Some(copy_str(path.as_str())),
            _ => None,
        };
        match out {
            Some(p) => files.push(p),
            None => {},
        }
        assert(steps_view(plan.steps@.take(i + 1)).drop_last() =~= steps_view(
            plan.steps@.take(i as int),
        ));
        i = i + 1;
        assert(strings_view(files@) =~= outputs(steps_view(plan.steps@.take(i as int))));
    }
    assert(plan.steps@.take(plan.steps.len() as int) =~= plan.steps@);
    files
}

/// The result of a generation plan that ran to its end: the files it created and the
/// summary line.
pub fn generation_result(plan: &GenerationPlan, targets: &Vec<IconTarget>) -> (r: GeneratorResult)
    ensures
        strings_view(r.created_files@) == outputs(steps_view(plan.steps@)),
        r.summary@ == summary_text(r.created_files@.len(), targets@),
{
    let created = created_files(plan);
    let mut summary = String::new();
    summary.append("Successfully generated ");
    let count = crate::text::decimal_string(created.len() as u64);
    summary.append(count.as_str());
    summary.append(" icon file(s) across target(s): ");
    let list = targets_debug(targets);
    summary.append(list.as_str());
    GeneratorResult { created_files: created, summary }
}

} // verus!

verus! {

/// One icon entry of a PWA manifest.
pub struct ManifestIcon {
    pub src: String,
    pub sizes: String,
    pub mime_type: String,
}

/// The PWA web app manifest (`site.webmanifest`) of the web icon set.
pub struct WebManifest {
    pub name: String,
    pub short_name: String,
    pub icons: Vec<ManifestIcon>,
    pub theme_color: String,
    pub background_color: String,
    pub display: String,
}

/// The characters of a manifest icon entry: source, sizes and MIME type.
pub open spec fn manifest_icon_view(i: ManifestIcon) -> (Seq<char>, Seq<char>, Seq<char>) {
    (i.src@, i.sizes@, i.mime_type@)
}

/// The manifest of the web icon set: it lists the two Android Chrome icons.
pub fn web_manifest() -> (m: WebManifest)
    ensures
        m.name@ == "App Icon"@,
        m.short_name@ == "App"@,
        m.icons@.map_values(|i: ManifestIcon| manifest_icon_view(i)) == seq![
            ("/android-chrome-192x192.png"@, "192x192"@, "image/png"@),
            ("/android-chrome-512x512.png"@, "512x512"@, "image/png"@),
        ],
        m.theme_color@ == "#ffffff"@,
        m.background_color@ == "#ffffff"@,
        m.display@ == "standalone"@,
{
    let mut icons: Vec<ManifestIcon> = Vec::new();
    icons.push(
        ManifestIcon {
            src: String::from_str("/android-chrome-192x192.png"),
            sizes: String::from_str("192x192"),
            mime_type: String::from_str("image/png"),
        },
    );
    icons.push(
        ManifestIcon {
            src: String::from_str("/android-chrome-512x512.png"),
            sizes: String::from_str("512x512"),
            mime_type: String::from_str("image/png"),
        },
    );
    assert(icons@.map_values(|i: ManifestIcon| manifest_icon_view(i)) =~= seq![
        ("/android-chrome-192x192.png"@, "192x192"@, "image/png"@),
        ("/android-chrome-512x512.png"@, "512x512"@, "image/png"@),
    ]);
    WebManifest {
        name: String::from_str("App Icon"),
        short_name: String::from_str("App"),
        icons,
        theme_color: String::from_str("#ffffff"),
        background_color: String::from_str("#ffffff"),
        display: String::from_str("standalone"),
    }
}

/// One image entry of an Xcode `Contents.json`.
pub struct ContentsImage {
    pub size: String,
    pub idiom: String,
    pub filename: String,
    pub scale: String,
}

/// The Xcode `Contents.json` of the iOS app icon set.
pub struct AppIconContents {
    pub images: Vec<ContentsImage>,
    pub version: u32,
    pub author: String,
}

/// The characters of a `Contents.json` entry: size, idiom, file name and scale.
pub open spec fn contents_image_view(i: ContentsImage) -> (Seq<char>, Seq<char>, Seq<char>, Seq<char>) {
    (i.size@, i.idiom@, i.filename@, i.scale@)
}

/// The entries of the iOS `Contents.json`, in the order the icons are written.
pub open spec fn ios_contents_entries() -> Seq<(Seq<char>, Seq<char>, Seq<char>, Seq<char>)> {
    seq![
        ("20x20"@, "iphone"@, "Icon-20@2x.png"@, "2x"@),
        ("20x20"@, "iphone"@, "Icon-20@3x.png"@, "3x"@),
        ("29x29"@, "iphone"@, "Icon-29@2x.png"@, "2x"@),
        ("29x29"@, "iphone"@, "Icon-29@3x.png"@, "3x"@),
        ("40x40"@, "iphone"@, "Icon-40@2x.png"@, "2x"@),
        ("40x40"@, "iphone"@, "Icon-40@3x.png"@, "3x"@),
        ("60x60"@, "iphone"@, "Icon-60@2x.png"@, "2x"@),
        ("60x60"@, "iphone"@, "Icon-60@3x.png"@, "3x"@),
        ("76x76"@, "ipad"@, "Icon-76@2x.png"@, "2x"@),
        ("83.5x83.5"@, "ipad"@, "Icon-83.5@2x.png"@, "2x"@),
        ("1024x1024"@, "ios-marketing"@, "Icon-1024.png"@, "1x"@),
    ]
}

fn contents_image(size: &str, idiom: &str, filename: &str, scale: &str) -> (r: ContentsImage)
    ensures
        contents_image_view(r) == (size@, idiom@, filename@, scale@),
{
    ContentsImage {
        size: String::from_str(size),
        idiom: String::from_str(idiom),
        filename: String::from_str(filename),
        scale: String::from_str(scale),
    }
}

/// The `Contents.json` of the iOS app icon set: one entry per written icon, version 1,
/// author `icon-toolkit`.
pub fn app_icon_contents() -> (c: AppIconContents)
    ensures
        c.images@.map_values(|i: ContentsImage| contents_image_view(i)) == ios_contents_entries(),
        c.version == 1,
        c.author@ == "icon-toolkit"@,
{
    let mut images: Vec<ContentsImage> = Vec::new();
    images.push(contents_image("20x20", "iphone", "Icon-20@2x.png", "2x"));
    images.push(contents_image("20x20", "iphone", "Icon-20@3x.png", "3x"));
    images.push(contents_image("29x29", "iphone", "Icon-29@2x.png", "2x"));
    images.push(contents_image("29x29", "iphone", "Icon-29@3x.png", "3x"));
    images.push(contents_image("40x40", "iphone", "Icon-40@2x.png", "2x"));
    images.push(contents_image("40x40", "iphone", "Icon-40@3x.png", "3x"));
    images.push(contents_image("60x60", "iphone", "Icon-60@2x.png", "2x"));
    images.push(contents_image("60x60", "iphone", "Icon-60@3x.png", "3x"));
    images.push(contents_image("76x76", "ipad", "Icon-76@2x.png", "2x"));
    images.push(contents_image("83.5x83.5", "ipad", "Icon-83.5@2x.png", "2x"));
    images.push(contents_image("1024x1024", "ios-marketing", "Icon-1024.png", "1x"));
    assert(images@.map_values(|i: ContentsImage| contents_image_view(i)) =~= ios_contents_entries());
    AppIconContents { images, version: 1, author: String::from_str("icon-toolkit") }
}

} // verus!

verus! {

/// Whether a step writes a PNG file at `path`.
pub open spec fn writes_png_at(s: StepSpec, path: Seq<char>) -> bool {
    s matches StepSpec::WritePng(p, _) && p == path
}

/// The iOS `Contents.json` lists exactly the icons the mobile target writes into the app
/// icon set, in the same order: its `i`-th entry names the file of the `i`-th icon.
pub proof fn lemma_contents_lists_written_icons(dir: Seq<char>, pad: u32, rad: u32)
    ensures
        ios_contents_entries().len() == 11,
        forall|i: int|
            0 <= i < 11 ==> writes_png_at(
                #[trigger] mobile_steps(dir, pad, rad)[i + 1],
                path_join(ios_dir(dir), ios_contents_entries()[i].2),
            ),
        mobile_steps(dir, pad, rad)[12] == StepSpec::WriteAppIconContents(
            path_join(ios_dir(dir), "Contents.json"@),
        ),
{
    let m = mobile_steps(dir, pad, rad);
    let e = ios_contents_entries();
    assert forall|i: int| 0 <= i < 11 implies writes_png_at(
        #[trigger] m[i + 1],
        path_join(ios_dir(dir), e[i].2),
    ) by {
        if i == 0 {
        } else if i == 1 {
        } else if i == 2 {
        } else if i == 3 {
        } else if i == 4 {
        } else if i == 5 {
        } else if i == 6 {
        } else if i == 7 {
        } else if i == 8 {
        } else if i == 9 {
        } else {
        }
    }
}

/// The manifest of the web target points at the two Android Chrome icons that the web
/// target writes, by their path from the site root.
pub proof fn lemma_manifest_points_at_written_icons(dir: Seq<char>, pad: u32, rad: u32)
    ensures
        "/android-chrome-192x192.png"@ == seq!['/'] + "android-chrome-192x192.png"@,
        "/android-chrome-512x512.png"@ == seq!['/'] + "android-chrome-512x512.png"@,
        web_steps(dir, pad, rad)[4] == png_step(dir, "android-chrome-192x192.png"@, 192, pad, rad),
        web_steps(dir, pad, rad)[5] == png_step(dir, "android-chrome-512x512.png"@, 512, pad, rad),
{
    reveal_strlit("/android-chrome-192x192.png");
    reveal_strlit("android-chrome-192x192.png");
    reveal_strlit("/android-chrome-512x512.png");
    reveal_strlit("android-chrome-512x512.png");
    assert("/android-chrome-192x192.png"@ =~= seq!['/'] + "android-chrome-192x192.png"@);
    assert("/android-chrome-512x512.png"@ =~= seq!['/'] + "android-chrome-512x512.png"@);
}

} // verus!

verus! {

/// The directory a step creates or the file it writes, if any.
pub open spec fn step_path(s: StepSpec) -> Option<Seq<char>> {
    match s {
        StepSpec::CreateDir(p) => Some(p),
        StepSpec::WritePng(p, _) => Some(p),
        StepSpec::WriteIco(p, _, _) => Some(p),
        StepSpec::WriteWebManifest(p) => Some(p),
        StepSpec::WriteAppIconContents(p) => Some(p),
        _ => None,
    }
}

/// Whether a step creates or writes nothing outside `dir`.
pub open spec fn step_under(s: StepSpec, dir: Seq<char>) -> bool {
    match step_path(s) {
        Some(p) => dir.is_prefix_of(p),
        None => true,
    }
}

/// Whether no step of `ss` creates or writes anything outside `dir`.
pub open spec fn all_under(ss: Seq<StepSpec>, dir: Seq<char>) -> bool {
    forall|i: int| 0 <= i < ss.len() ==> #[trigger] step_under(ss[i], dir)
}

/// Whether a path component is relative (joining it keeps the base).
pub open spec fn relative(c: Seq<char>) -> bool {
    c.len() == 0 || c[0] != '/'
}

proof fn lemma_prefix_trans(a: Seq<char>, b: Seq<char>, c: Seq<char>)
    requires
        a.is_prefix_of(b),
        b.is_prefix_of(c),
    ensures
        a.is_prefix_of(c),
{
    assert(c.subrange(0, a.len() as int) =~= b.subrange(0, a.len() as int));
}

proof fn lemma_join_under(base: Seq<char>, comp: Seq<char>, d: Seq<char>)
    requires
        relative(comp),
        d.is_prefix_of(base),
    ensures
        d.is_prefix_of(path_join(base, comp)),
{
    let j = path_join(base, comp);
    if base.len() > 0 && base.last() != '/' {
        assert(j.subrange(0, base.len() as int) =~= base);
    } else {
        assert(j.subrange(0, base.len() as int) =~= base);
    }
    lemma_prefix_trans(d, base, j);
}

proof fn lemma_decimal_relative(n: nat)
    ensures
        decimal(n).len() > 0,
        decimal(n)[0] != '/',
    decreases n,
{
    if n >= 10 {
        lemma_decimal_relative(n / 10);
    }
}

proof fn lemma_all_under_concat(a: Seq<StepSpec>, b: Seq<StepSpec>, d: Seq<char>)
    requires
        all_under(a, d),
        all_under(b, d),
    ensures
        all_under(a + b, d),
{
    assert forall|i: int| 0 <= i < (a + b).len() implies #[trigger] step_under((a + b)[i], d) by {
        if i < a.len() {
            assert((a + b)[i] == a[i]);
        } else {
            assert((a + b)[i] == b[i - a.len()]);
        }
    }
}

proof fn lemma_web_under(dir: Seq<char>, d: Seq<char>, pad: u32, rad: u32)
    requires
        d.is_prefix_of(dir),
    ensures
        all_under(web_steps(dir, pad, rad), d),
{
    reveal_strlit("favicon-16x16.png");
    reveal_strlit("favicon-32x32.png");
    reveal_strlit("apple-touch-icon.png");
    reveal_strlit("android-chrome-192x192.png");
    reveal_strlit("android-chrome-512x512.png");
    reveal_strlit("favicon.ico");
    reveal_strlit("site.webmanifest");
    lemma_join_under(dir, "favicon-16x16.png"@, d);
    lemma_join_under(dir, "favicon-32x32.png"@, d);
    lemma_join_under(dir, "apple-touch-icon.png"@, d);
    lemma_join_under(dir, "android-chrome-192x192.png"@, d);
    lemma_join_under(dir, "android-chrome-512x512.png"@, d);
    lemma_join_under(dir, "favicon.ico"@, d);
    lemma_join_under(dir, "site.webmanifest"@, d);
    let w = web_steps(dir, pad, rad);
    assert forall|i: int| 0 <= i < w.len() implies #[trigger] step_under(w[i], d) by {}
}

proof fn lemma_android_folder_under(res: Seq<char>, folder: Seq<char>, size: u32, pad: u32, rad: u32, d: Seq<char>)
    requires
        d.is_prefix_of(res),
        relative(folder),
    ensures
        all_under(android_folder_steps(res, folder, size, pad, rad), d),
{
    reveal_strlit("ic_launcher.png");
    reveal_strlit("ic_launcher_round.png");
    let f = path_join(res, folder);
    lemma_join_under(res, folder, d);
    lemma_join_under(f, "ic_launcher.png"@, d);
    lemma_join_under(f, "ic_launcher_round.png"@, d);
    let s = android_folder_steps(res, folder, size, pad, rad);
    assert forall|i: int| 0 <= i < s.len() implies #[trigger] step_under(s[i], d) by {}
}

proof fn lemma_mobile_under(dir: Seq<char>, d: Seq<char>, pad: u32, rad: u32)
    requires
        d.is_prefix_of(dir),
    ensures
        all_under(mobile_steps(dir, pad, rad), d),
{
    reveal_strlit("ios");
    reveal_strlit("AppIcon.appiconset");
    reveal_strlit("android");
    reveal_strlit("res");
    reveal_strlit("Icon-20@2x.png");
    reveal_strlit("Icon-20@3x.png");
    reveal_strlit("Icon-29@2x.png");
    reveal_strlit("Icon-29@3x.png");
    reveal_strlit("Icon-40@2x.png");
    reveal_strlit("Icon-40@3x.png");
    reveal_strlit("Icon-60@2x.png");
    reveal_strlit("Icon-60@3x.png");
    reveal_strlit("Icon-76@2x.png");
    reveal_strlit("Icon-83.5@2x.png");
    reveal_strlit("Icon-1024.png");
    reveal_strlit("Contents.json");
    reveal_strlit("mipmap-mdpi");
    reveal_strlit("mipmap-hdpi");
    reveal_strlit("mipmap-xhdpi");
    reveal_strlit("mipmap-xxhdpi");
    reveal_strlit("mipmap-xxxhdpi");
    let ios = ios_dir(dir);
    lemma_join_under(dir, "ios"@, d);
    lemma_join_under(path_join(dir, "ios"@), "AppIcon.appiconset"@, d);
    lemma_join_under(ios, "Icon-20@2x.png"@, d);
    lemma_join_under(ios, "Icon-20@3x.png"@, d);
    lemma_join_under(ios, "Icon-29@2x.png"@, d);
    lemma_join_under(ios, "Icon-29@3x.png"@, d);
    lemma_join_under(ios, "Icon-40@2x.png"@, d);
    lemma_join_under(ios, "Icon-40@3x.png"@, d);
    lemma_join_under(ios, "Icon-60@2x.png"@, d);
    lemma_join_under(ios, "Icon-60@3x.png"@, d);
    lemma_join_under(ios, "Icon-76@2x.png"@, d);
    lemma_join_under(ios, "Icon-83.5@2x.png"@, d);
    lemma_join_under(ios, "Icon-1024.png"@, d);
    lemma_join_under(ios, "Contents.json"@, d);
    let head = seq![
        StepSpec::CreateDir(ios),
        png_step(ios, "Icon-20@2x.png"@, 40, pad, rad),
        png_step(ios, "Icon-20@3x.png"@, 60, pad, rad),
        png_step(ios, "Icon-29@2x.png"@, 58, pad, rad),
        png_step(ios, "Icon-29@3x.png"@, 87, pad, rad),
        png_step(ios, "Icon-40@2x.png"@, 80, pad, rad),
        png_step(ios, "Icon-40@3x.png"@, 120, pad, rad),
        png_step(ios, "Icon-60@2x.png"@, 120, pad, rad),
        png_step(ios, "Icon-60@3x.png"@, 180, pad, rad),
        png_step(ios, "Icon-76@2x.png"@, 152, pad, rad),
        png_step(ios, "Icon-83.5@2x.png"@, 167, pad, rad),
        png_step(ios, "Icon-1024.png"@, 1024, pad, rad),
        StepSpec::WriteAppIconContents(path_join(ios, "Contents.json"@)),
    ];
    assert forall|i: int| 0 <= i < head.len() implies #[trigger] step_under(head[i], d) by {}
    let res = android_res_dir(dir);
    lemma_join_under(dir, "android"@, d);
    lemma_join_under(path_join(dir, "android"@), "res"@, d);
    lemma_android_folder_under(res, "mipmap-mdpi"@, 48, pad, rad, d);
    lemma_android_folder_under(res, "mipmap-hdpi"@, 72, pad, rad, d);
    lemma_android_folder_under(res, "mipmap-xhdpi"@, 96, pad, rad, d);
    lemma_android_folder_under(res, "mipmap-xxhdpi"@, 144, pad, rad, d);
    lemma_android_folder_under(res, "mipmap-xxxhdpi"@, 192, pad, rad, d);
    let a1 = android_folder_steps(res, "mipmap-mdpi"@, 48, pad, rad);
    let a2 = android_folder_steps(res, "mipmap-hdpi"@, 72, pad, rad);
    let a3 = android_folder_steps(res, "mipmap-xhdpi"@, 96, pad, rad);
    let a4 = android_folder_steps(res, "mipmap-xxhdpi"@, 144, pad, rad);
    let a5 = android_folder_steps(res, "mipmap-xxxhdpi"@, 192, pad, rad);
    lemma_all_under_concat(head, a1, d);
    lemma_all_under_concat(head + a1, a2, d);
    lemma_all_under_concat(head + a1 + a2, a3, d);
    lemma_all_under_concat(head + a1 + a2 + a3, a4, d);
    lemma_all_under_concat(head + a1 + a2 + a3 + a4, a5, d);
}

proof fn lemma_linux_size_under(linux: Seq<char>, size: u32, pad: u32, rad: u32, d: Seq<char>)
    requires
        d.is_prefix_of(linux),
    ensures
        all_under(linux_size_steps(linux, size, pad, rad), d),
{
    reveal_strlit("apps");
    reveal_strlit("app-icon.png");
    lemma_decimal_relative(size as nat);
    let name = size_dir_name(size);
    assert(name[0] == decimal(size as nat)[0]);
    let sd = path_join(linux, name);
    lemma_join_under(linux, name, d);
    let ad = path_join(sd, "apps"@);
    lemma_join_under(sd, "apps"@, d);
    lemma_join_under(ad, "app-icon.png"@, d);
    let s = linux_size_steps(linux, size, pad, rad);
    assert forall|i: int| 0 <= i < s.len() implies #[trigger] step_under(s[i], d) by {}
}

proof fn lemma_desktop_under(dir: Seq<char>, d: Seq<char>, pad: u32, rad: u32)
    requires
        d.is_prefix_of(dir),
    ensures
        all_under(desktop_steps(dir, pad, rad), d),
{
    reveal_strlit("macos");
    reveal_strlit("AppIcon.iconset");
    reveal_strlit("windows");
    reveal_strlit("icon.ico");
    reveal_strlit("linux");
    reveal_strlit("hicolor");
    reveal_strlit("icon_16x16.png");
    reveal_strlit("icon_16x16@2x.png");
    reveal_strlit("icon_32x32.png");
    reveal_strlit("icon_32x32@2x.png");
    reveal_strlit("icon_128x128.png");
    reveal_strlit("icon_128x128@2x.png");
    reveal_strlit("icon_256x256.png");
    reveal_strlit("icon_256x256@2x.png");
    reveal_strlit("icon_512x512.png");
    reveal_strlit("icon_512x512@2x.png");
    let mac = macos_dir(dir);
    let win = path_join(dir, "windows"@);
    let linux = linux_dir(dir);
    lemma_join_under(dir, "macos"@, d);
    lemma_join_under(path_join(dir, "macos"@), "AppIcon.iconset"@, d);
    lemma_join_under(mac, "icon_16x16.png"@, d);
    lemma_join_under(mac, "icon_16x16@2x.png"@, d);
    lemma_join_under(mac, "icon_32x32.png"@, d);
    lemma_join_under(mac, "icon_32x32@2x.png"@, d);
    lemma_join_under(mac, "icon_128x128.png"@, d);
    lemma_join_under(mac, "icon_128x128@2x.png"@, d);
    lemma_join_under(mac, "icon_256x256.png"@, d);
    lemma_join_under(mac, "icon_256x256@2x.png"@, d);
    lemma_join_under(mac, "icon_512x512.png"@, d);
    lemma_join_under(mac, "icon_512x512@2x.png"@, d);
    lemma_join_under(dir, "windows"@, d);
    lemma_join_under(win, "icon.ico"@, d);
    let head = seq![
        StepSpec::CreateDir(mac),
        png_step(mac, "icon_16x16.png"@, 16, pad, rad),
        png_step(mac, "icon_16x16@2x.png"@, 32, pad, rad),
        png_step(mac, "icon_32x32.png"@, 32, pad, rad),
        png_step(mac, "icon_32x32@2x.png"@, 64, pad, rad),
        png_step(mac, "icon_128x128.png"@, 128, pad, rad),
        png_step(mac, "icon_128x128@2x.png"@, 256, pad, rad),
        png_step(mac, "icon_256x256.png"@, 256, pad, rad),
        png_step(mac, "icon_256x256@2x.png"@, 512, pad, rad),
        png_step(mac, "icon_512x512.png"@, 512, pad, rad),
        png_step(mac, "icon_512x512@2x.png"@, 1024, pad, rad),
        StepSpec::CreateDir(win),
        StepSpec::WriteIco(
            path_join(win, "icon.ico"@),
            icon_render_spec(256, pad, rad),
            windows_icon_frames(),
        ),
    ];
    assert forall|i: int| 0 <= i < head.len() implies #[trigger] step_under(head[i], d) by {}
    lemma_join_under(dir, "linux"@, d);
    lemma_join_under(path_join(dir, "linux"@), "hicolor"@, d);
    lemma_linux_size_under(linux, 16, pad, rad, d);
    lemma_linux_size_under(linux, 32, pad, rad, d);
    lemma_linux_size_under(linux, 48, pad, rad, d);
    lemma_linux_size_under(linux, 64, pad, rad, d);
    lemma_linux_size_under(linux, 128, pad, rad, d);
    lemma_linux_size_under(linux, 256, pad, rad, d);
    lemma_linux_size_under(linux, 512, pad, rad, d);
    let l1 = linux_size_steps(linux, 16, pad, rad);
    let l2 = linux_size_steps(linux, 32, pad, rad);
    let l3 = linux_size_steps(linux, 48, pad, rad);
    let l4 = linux_size_steps(linux, 64, pad, rad);
    let l5 = linux_size_steps(linux, 128, pad, rad);
    let l6 = linux_size_steps(linux, 256, pad, rad);
    let l7 = linux_size_steps(linux, 512, pad, rad);
    lemma_all_under_concat(head, l1, d);
    lemma_all_under_concat(head + l1, l2, d);
    lemma_all_under_concat(head + l1 + l2, l3, d);
    lemma_all_under_concat(head + l1 + l2 + l3, l4, d);
    lemma_all_under_concat(head + l1 + l2 + l3 + l4, l5, d);
    lemma_all_under_concat(head + l1 + l2 + l3 + l4 + l5, l6, d);
    lemma_all_under_concat(head + l1 + l2 + l3 + l4 + l5 + l6, l7, d);
}

proof fn lemma_pass_under(src: Seq<char>, out: Seq<char>, ts: Seq<IconTarget>, pad: u32, rad: u32, d: Seq<char>)
    requires
        d.is_prefix_of(out),
    ensures
        all_under(pass_steps(src, out, ts, pad, rad), d),
        all_under(targets_steps(out, ts, pad, rad), d),
    decreases ts.len(),
{
    reveal_strlit("web");
    reveal_strlit("mobile");
    reveal_strlit("desktop");
    if ts.len() > 0 {
        lemma_pass_under(src, out, ts.drop_last(), pad, rad, d);
        match ts.last() {
            IconTarget::Web => {
                lemma_join_under(out, "web"@, d);
                lemma_web_under(path_join(out, "web"@), d, pad, rad);
            },
            IconTarget::Mobile => {
                lemma_join_under(out, "mobile"@, d);
                lemma_mobile_under(path_join(out, "mobile"@), d, pad, rad);
            },
            IconTarget::Desktop => {
                lemma_join_under(out, "desktop"@, d);
                lemma_desktop_under(path_join(out, "desktop"@), d, pad, rad);
            },
        }
        lemma_all_under_concat(
            targets_steps(out, ts.drop_last(), pad, rad),
            target_steps(out, ts.last(), pad, rad),
            d,
        );
    }
    let first = seq![StepSpec::LoadSource(src, is_svg_source(src))];
    assert(all_under(first, d)) by {
        assert forall|i: int| 0 <= i < first.len() implies #[trigger] step_under(first[i], d) by {}
    }
    lemma_all_under_concat(first, targets_steps(out, ts, pad, rad), d);
}

/// Icon-set generation creates directories and writes files only inside the output
/// directory: every path a generation step creates or writes starts with it.
pub proof fn lemma_generation_stays_in_output_dir(o: IconGeneratorOptions)
    ensures
        all_under(plan_steps(o), o.output_dir@),
{
    let out = o.output_dir@;
    let ts = o.targets@;
    let pad = o.padding_percent;
    let rad = o.border_radius_percent;
    reveal_strlit("light");
    reveal_strlit("dark");
    assert(out.is_prefix_of(out)) by {
        assert(out.subrange(0, out.len() as int) =~= out);
    }
    let first = seq![StepSpec::CheckSourceExists(o.input_path@)];
    assert(all_under(first, out)) by {
        assert forall|i: int| 0 <= i < first.len() implies #[trigger] step_under(first[i], out) by {}
    }
    match o.mode {
        Mode::Both => {
            lemma_join_under(out, "light"@, out);
            lemma_join_under(out, "dark"@, out);
            lemma_pass_under(o.input_path@, path_join(out, "light"@), ts, pad, rad, out);
            lemma_pass_under(dark_source(o), path_join(out, "dark"@), ts, pad, rad, out);
            lemma_all_under_concat(
                pass_steps(o.input_path@, path_join(out, "light"@), ts, pad, rad),
                pass_steps(dark_source(o), path_join(out, "dark"@), ts, pad, rad),
                out,
            );
            lemma_all_under_concat(
                first,
                pass_steps(o.input_path@, path_join(out, "light"@), ts, pad, rad) + pass_steps(
                    dark_source(o),
                    path_join(out, "dark"@),
                    ts,
                    pad,
                    rad,
                ),
                out,
            );
        },
        Mode::Dark => {
            lemma_pass_under(dark_source(o), out, ts, pad, rad, out);
            lemma_all_under_concat(first, pass_steps(dark_source(o), out, ts, pad, rad), out);
        },
        Mode::Light => {
            lemma_pass_under(o.input_path@, out, ts, pad, rad, out);
            lemma_all_under_concat(first, pass_steps(o.input_path@, out, ts, pad, rad), out);
        },
    }
}

} // verus!

verus! {

proof fn lemma_outputs_concat(a: Seq<StepSpec>, b: Seq<StepSpec>)
    ensures
        outputs(a + b) == outputs(a) + outputs(b),
    decreases b.len(),
{
    if b.len() == 0 {
        assert(a + b =~= a);
        assert(outputs(b) =~= Seq::<Seq<char>>::empty());
        assert(outputs(a) + outputs(b) =~= outputs(a));
    } else {
        assert((a + b).drop_last() =~= a + b.drop_last());
        assert((a + b).last() == b.last());
        lemma_outputs_concat(a, b.drop_last());
        match step_output(b.last()) {
            Some(p) => {
                assert(outputs(a) + outputs(b) =~= (outputs(a) + outputs(b.drop_last())).push(p));
            },
            None => {},
        }
    }
}

/// The web target writes seven files: two favicons, the Apple touch icon, two Android
/// Chrome icons, `favicon.ico` and `site.webmanifest`.
pub proof fn lemma_web_file_count(dir: Seq<char>, pad: u32, rad: u32)
    ensures
        outputs(web_steps(dir, pad, rad)).len() == 7,
{
    reveal_with_fuel(outputs, 9);
}

/// The mobile target writes twenty-two files: eleven iOS icons, `Contents.json`, and a
/// launcher and a round launcher icon for each of five Android densities.
pub proof fn lemma_mobile_file_count(dir: Seq<char>, pad: u32, rad: u32)
    ensures
        outputs(mobile_steps(dir, pad, rad)).len() == 22,
{
    let ios = ios_dir(dir);
    let res = android_res_dir(dir);
    let head = seq![
        StepSpec::CreateDir(ios),
        png_step(ios, "Icon-20@2x.png"@, 40, pad, rad),
        png_step(ios, "Icon-20@3x.png"@, 60, pad, rad),
        png_step(ios, "Icon-29@2x.png"@, 58, pad, rad),
        png_step(ios, "Icon-29@3x.png"@, 87, pad, rad),
        png_step(ios, "Icon-40@2x.png"@, 80, pad, rad),
        png_step(ios, "Icon-40@3x.png"@, 120, pad, rad),
        png_step(ios, "Icon-60@2x.png"@, 120, pad, rad),
        png_step(ios, "Icon-60@3x.png"@, 180, pad, rad),
        png_step(ios, "Icon-76@2x.png"@, 152, pad, rad),
        png_step(ios, "Icon-83.5@2x.png"@, 167, pad, rad),
        png_step(ios, "Icon-1024.png"@, 1024, pad, rad),
        StepSpec::WriteAppIconContents(path_join(ios, "Contents.json"@)),
    ];
    assert(outputs(head).len() == 12) by {
        reveal_with_fuel(outputs, 14);
    }
    let a1 = android_folder_steps(res, "mipmap-mdpi"@, 48, pad, rad);
    let a2 = android_folder_steps(res, "mipmap-hdpi"@, 72, pad, rad);
    let a3 = android_folder_steps(res, "mipmap-xhdpi"@, 96, pad, rad);
    let a4 = android_folder_steps(res, "mipmap-xxhdpi"@, 144, pad, rad);
    let a5 = android_folder_steps(res, "mipmap-xxxhdpi"@, 192, pad, rad);
    assert(outputs(a1).len() == 2 && outputs(a2).len() == 2 && outputs(a3).len() == 2
        && outputs(a4).len() == 2 && outputs(a5).len() == 2) by {
        reveal_with_fuel(outputs, 4);
    }
    lemma_outputs_concat(head, a1);
    lemma_outputs_concat(head + a1, a2);
    lemma_outputs_concat(head + a1 + a2, a3);
    lemma_outputs_concat(head + a1 + a2 + a3, a4);
    lemma_outputs_concat(head + a1 + a2 + a3 + a4, a5);
}

/// The desktop target writes eighteen files: ten macOS icons, the Windows `icon.ico`,
/// and seven Linux hicolor icons.
pub proof fn lemma_desktop_file_count(dir: Seq<char>, pad: u32, rad: u32)
    ensures
        outputs(desktop_steps(dir, pad, rad)).len() == 18,
{
    let mac = macos_dir(dir);
    let win = path_join(dir, "windows"@);
    let linux = linux_dir(dir);
    let head = seq![
        StepSpec::CreateDir(mac),
        png_step(mac, "icon_16x16.png"@, 16, pad, rad),
        png_step(mac, "icon_16x16@2x.png"@, 32, pad, rad),
        png_step(mac, "icon_32x32.png"@, 32, pad, rad),
        png_step(mac, "icon_32x32@2x.png"@, 64, pad, rad),
        png_step(mac, "icon_128x128.png"@, 128, pad, rad),
        png_step(mac, "icon_128x128@2x.png"@, 256, pad, rad),
        png_step(mac, "icon_256x256.png"@, 256, pad, rad),
        png_step(mac, "icon_256x256@2x.png"@, 512, pad, rad),
        png_step(mac, "icon_512x512.png"@, 512, pad, rad),
        png_step(mac, "icon_512x512@2x.png"@, 1024, pad, rad),
        StepSpec::CreateDir(win),
        StepSpec::WriteIco(
            path_join(win, "icon.ico"@),
            icon_render_spec(256, pad, rad),
            windows_icon_frames(),
        ),
    ];
    assert(outputs(head).len() == 11) by {
        reveal_with_fuel(outputs, 14);
    }
    let l1 = linux_size_steps(linux, 16, pad, rad);
    let l2 = linux_size_steps(linux, 32, pad, rad);
    let l3 = linux_size_steps(linux, 48, pad, rad);
    let l4 = linux_size_steps(linux, 64, pad, rad);
    let l5 = linux_size_steps(linux, 128, pad, rad);
    let l6 = linux_size_steps(linux, 256, pad, rad);
    let l7 = linux_size_steps(linux, 512, pad, rad);
    assert(outputs(l1).len() == 1 && outputs(l2).len() == 1 && outputs(l3).len() == 1
        && outputs(l4).len() == 1 && outputs(l5).len() == 1 && outputs(l6).len() == 1
        && outputs(l7).len() == 1) by {
        reveal_with_fuel(outputs, 3);
    }
    lemma_outputs_concat(head, l1);
    lemma_outputs_concat(head + l1, l2);
    lemma_outputs_concat(head + l1 + l2, l3);
    lemma_outputs_concat(head + l1 + l2 + l3, l4);
    lemma_outputs_concat(head + l1 + l2 + l3 + l4, l5);
    lemma_outputs_concat(head + l1 + l2 + l3 + l4 + l5, l6);
    lemma_outputs_concat(head + l1 + l2 + l3 + l4 + l5 + l6, l7);
}

} // verus!

verus! {

/// The number of files one target writes.
pub open spec fn target_file_count(t: IconTarget) -> nat {
    match t {
        IconTarget::Web => 7,
        IconTarget::Mobile => 22,
        IconTarget::Desktop => 18,
    }
}

/// The number of files a list of targets writes in one pass.
pub open spec fn targets_file_count(ts: Seq<IconTarget>) -> nat
    decreases ts.len(),
{
    if ts.len() == 0 {
        0
    } else {
        targets_file_count(ts.drop_last()) + target_file_count(ts.last())
    }
}

proof fn lemma_targets_file_count(out: Seq<char>, ts: Seq<IconTarget>, pad: u32, rad: u32)
    ensures
        outputs(targets_steps(out, ts, pad, rad)).len() == targets_file_count(ts),
    decreases ts.len(),
{
    if ts.len() > 0 {
        lemma_targets_file_count(out, ts.drop_last(), pad, rad);
        lemma_outputs_concat(
            targets_steps(out, ts.drop_last(), pad, rad),
            target_steps(out, ts.last(), pad, rad),
        );
        match ts.last() {
            IconTarget::Web => lemma_web_file_count(path_join(out, "web"@), pad, rad),
            IconTarget::Mobile => lemma_mobile_file_count(path_join(out, "mobile"@), pad, rad),
            IconTarget::Desktop => lemma_desktop_file_count(path_join(out, "desktop"@), pad, rad),
        }
    }
}

proof fn lemma_pass_file_count(src: Seq<char>, out: Seq<char>, ts: Seq<IconTarget>, pad: u32, rad: u32)
    ensures
        outputs(pass_steps(src, out, ts, pad, rad)).len() == targets_file_count(ts),
{
    let first = seq![StepSpec::LoadSource(src, is_svg_source(src))];
    assert(outputs(first).len() == 0) by {
        reveal_with_fuel(outputs, 2);
    }
    lemma_outputs_concat(first, targets_steps(out, ts, pad, rad));
    lemma_targets_file_count(out, ts, pad, rad);
}

/// A generation creates, per theme pass, seven files for the web target, twenty-two
/// for mobile and eighteen for desktop (each time a target is listed); both themes
/// create twice as many.
pub proof fn lemma_generation_file_count(o: IconGeneratorOptions)
    ensures
        outputs(plan_steps(o)).len() == if o.mode == Mode::Both {
            2 * targets_file_count(o.targets@)
        } else {
            targets_file_count(o.targets@)
        },
{
    let out = o.output_dir@;
    let ts = o.targets@;
    let pad = o.padding_percent;
    let rad = o.border_radius_percent;
    let first = seq![StepSpec::CheckSourceExists(o.input_path@)];
    assert(outputs(first).len() == 0) by {
        reveal_with_fuel(outputs, 2);
    }
    match o.mode {
        Mode::Both => {
            let a = pass_steps(o.input_path@, path_join(out, "light"@), ts, pad, rad);
            let b = pass_steps(dark_source(o), path_join(out, "dark"@), ts, pad, rad);
            lemma_pass_file_count(o.input_path@, path_join(out, "light"@), ts, pad, rad);
            lemma_pass_file_count(dark_source(o), path_join(out, "dark"@), ts, pad, rad);
            lemma_outputs_concat(a, b);
            lemma_outputs_concat(first, a + b);
        },
        Mode::Dark => {
            lemma_pass_file_count(dark_source(o), out, ts, pad, rad);
            lemma_outputs_concat(first, pass_steps(dark_source(o), out, ts, pad, rad));
        },
        Mode::Light => {
            lemma_pass_file_count(o.input_path@, out, ts, pad, rad);
            lemma_outputs_concat(first, pass_steps(o.input_path@, out, ts, pad, rad));
        },
    }
}

} // verus!

verus! {

/// A generation checks that its primary source exists before it creates or writes
/// anything: the check is its first step.
pub proof fn lemma_generation_checks_source_first(o: IconGeneratorOptions)
    ensures
        plan_steps(o).len() >= 1,
        plan_steps(o)[0] == StepSpec::CheckSourceExists(o.input_path@),
{
}

} // verus!

verus! {

/// Which source each theme pass draws from: a light pass (in `Light` and `Both` modes)
/// loads the primary input, and a dark pass (in `Dark` and `Both` modes) loads the dark
/// input when one is given, else the primary input. Each pass loads its source right
/// after the existence check or after the previous pass.
pub proof fn lemma_theme_passes_load_their_sources(o: IconGeneratorOptions)
    ensures
        o.mode != Mode::Dark ==> plan_steps(o)[1] == StepSpec::LoadSource(
            o.input_path@,
            is_svg_source(o.input_path@),
        ),
        o.mode == Mode::Dark ==> match o.dark_input_path {
            Some(d) => plan_steps(o)[1] == StepSpec::LoadSource(d@, is_svg_source(d@)),
            None => plan_steps(o)[1] == StepSpec::LoadSource(
                o.input_path@,
                is_svg_source(o.input_path@),
            ),
        },
        o.mode == Mode::Both ==> {
            let n: int = 2 + targets_steps(
                path_join(o.output_dir@, "light"@),
                o.targets@,
                o.padding_percent,
                o.border_radius_percent,
            ).len() as int;
            &&& n < plan_steps(o).len()
            &&& match o.dark_input_path {
                Some(d) => plan_steps(o)[n] == StepSpec::LoadSource(d@, is_svg_source(d@)),
                None => plan_steps(o)[n] == StepSpec::LoadSource(
                    o.input_path@,
                    is_svg_source(o.input_path@),
                ),
            }
        },
{
    if o.mode == Mode::Both {
        let out = o.output_dir@;
        let ts = o.targets@;
        let pad = o.padding_percent;
        let rad = o.border_radius_percent;
        let light = pass_steps(o.input_path@, path_join(out, "light"@), ts, pad, rad);
        let dark = pass_steps(dark_source(o), path_join(out, "dark"@), ts, pad, rad);
        let n: int = 2 + targets_steps(path_join(out, "light"@), ts, pad, rad).len() as int;
        assert(light.len() == n - 1);
        assert(plan_steps(o) =~= seq![StepSpec::CheckSourceExists(o.input_path@)] + light + dark);
        assert(plan_steps(o)[n] == dark[0]);
    }
}

} // verus!
