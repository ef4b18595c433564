//! Option and result types, and the parsers of target, mode, format and provider names.

use vstd::prelude::*;
use crate::text::{ascii_lower, ascii_upper, is_ascii_text, lowercase_of, str_chars, str_eq, str_to_lowercase};

verus! {

/// Target platforms for icon set generation.
#[derive(Debug, Clone, Copy, PartialEq, Eq, Hash, Structural)]
pub enum IconTarget {
    /// Web applications (favicon.ico, apple-touch-icon, android manifest icons).
    Web,
    /// Mobile applications (iOS AppIcon.appiconset and Android mipmap icons).
    Mobile,
    /// Desktop applications (macOS AppIcon.iconset, Windows ico, Linux hicolor).
    Desktop,
}

/// The target that an already lowercased name denotes.
pub open spec fn target_of_lowercase(s: Seq<char>) -> Option<IconTarget> {
    if s == "web"@ {
        Some(IconTarget::Web)
    } else if s == "mobile"@ {
        Some(IconTarget::Mobile)
    } else if s == "desktop"@ {
        Some(IconTarget::Desktop)
    } else {
        None
    }
}

impl IconTarget {
    /// Parses a target from its name, in any letter case.
    pub fn from_str_val(val: &str) -> (r: Option<Self>)
        ensures
            r == target_of_lowercase(lowercase_of(val@)),
    {
        let lowered = str_to_lowercase(val);
        Self::from_lowercase(lowered.as_str())
    }

    /// Parses a target from a name that is already in lower case.
    pub fn from_lowercase(s: &str) -> (r: Option<Self>)
        ensures
            r == target_of_lowercase(s@),
    {
        if str_eq(s, "web") {
            Some(IconTarget::Web)
        } else if str_eq(s, "mobile") {
            Some(IconTarget::Mobile)
        } else if str_eq(s, "desktop") {
            Some(IconTarget::Desktop)
        } else {
            None
        }
    }
}

/// Light / dark theme mode preference.
#[derive(Debug, Clone, Copy, PartialEq, Eq, Structural)]
pub enum Mode {
    /// Standard light theme icon set.
    Light,
    /// Dark theme icon set.
    Dark,
    /// Both light and dark icon sets, in separate folders.
    Both,
}

impl Default for Mode {
    fn default() -> (r: Self)
        ensures
            r == Mode::Light,
    {
        Mode::Light
    }
}

/// The mode that an already lowercased name denotes; every other name means light.
pub open spec fn mode_of_lowercase(s: Seq<char>) -> Mode {
    if s == "dark"@ {
        Mode::Dark
    } else if s == "both"@ {
        Mode::Both
    } else {
        Mode::Light
    }
}

impl Mode {
    /// Parses a mode from its name, in any letter case; unknown names give `Light`.
    pub fn from_str_val(val: &str) -> (r: Self)
        ensures
            r == mode_of_lowercase(lowercase_of(val@)),
    {
        let lowered = str_to_lowercase(val);
        Self::from_lowercase(lowered.as_str())
    }

    /// Parses a mode from a name that is already in lower case.
    pub fn from_lowercase(s: &str) -> (r: Self)
        ensures
            r == mode_of_lowercase(s@),
    {
        if str_eq(s, "dark") {
            Mode::Dark
        } else if str_eq(s, "both") {
            Mode::Both
        } else {
            Mode::Light
        }
    }
}

/// Image formats supported for conversion and encoding.
#[derive(Debug, Clone, Copy, PartialEq, Eq, Structural)]
pub enum ImageFormat {
    Png,
    Webp,
    Svg,
    Ico,
    Jpg,
}

/// A character sequence without its leading `'.'` characters
/// (what `trim_start_matches('.')` leaves).
pub open spec fn without_leading_dots(s: Seq<char>) -> Seq<char>
    decreases s.len(),
{
    if s.len() > 0 && s[0] == '.' {
        without_leading_dots(s.drop_first())
    } else {
        s
    }
}

/// The format that an extension names, once lowercased and stripped of leading dots.
pub open spec fn format_of_bare_extension(s: Seq<char>) -> Option<ImageFormat> {
    if s == "png"@ {
        Some(ImageFormat::Png)
    } else if s == "webp"@ {
        Some(ImageFormat::Webp)
    } else if s == "svg"@ {
        Some(ImageFormat::Svg)
    } else if s == "ico"@ {
        Some(ImageFormat::Ico)
    } else if s == "jpg"@ || s == "jpeg"@ {
        Some(ImageFormat::Jpg)
    } else {
        None
    }
}

/// The extension string of a format.
pub open spec fn format_extension(f: ImageFormat) -> Seq<char> {
    match f {
        ImageFormat::Png => "png"@,
        ImageFormat::Webp => "webp"@,
        ImageFormat::Svg => "svg"@,
        ImageFormat::Ico => "ico"@,
        ImageFormat::Jpg => "jpg"@,
    }
}

impl ImageFormat {
    /// Parses an extension or format name such as `"PNG"`, `".jpeg"` or `"webp"`.
    pub fn from_ext(ext: &str) -> (r: Option<Self>)
        ensures
            r == format_of_bare_extension(without_leading_dots(lowercase_of(ext@))),
    {
        let lowered = str_to_lowercase(ext);
        Self::from_lowercase_ext(lowered.as_str())
    }

    /// Parses an extension that is already in lower case, ignoring its leading dots.
    pub fn from_lowercase_ext(s: &str) -> (r: Option<Self>)
        ensures
            r == format_of_bare_extension(without_leading_dots(s@)),
    {
        let cs = str_chars(s);
        let mut i: usize = 0;
        assert(cs@.skip(0) =~= cs@);
        while i < cs.len() && cs[i] == '.'
            invariant
                cs@ == s@,
                i <= cs.len(),
                without_leading_dots(cs@.skip(i as int)) == without_leading_dots(s@),
            decreases cs.len() - i,
        {
            assert(cs@.skip(i as int).drop_first() =~= cs@.skip(i + 1));
            i = i + 1;
        }
        let ghost rest = cs@.skip(i as int);
        assert(without_leading_dots(rest) == rest);
        if chars_from_eq(&cs, i, "png") {
            Some(ImageFormat::Png)
        } else if chars_from_eq(&cs, i, "webp") {
            Some(ImageFormat::Webp)
        } else if chars_from_eq(&cs, i, "svg") {
            Some(ImageFormat::Svg)
        } else if chars_from_eq(&cs, i, "ico") {
            Some(ImageFormat::Ico)
        } else if chars_from_eq(&cs, i, "jpg") || chars_from_eq(&cs, i, "jpeg") {
            Some(ImageFormat::Jpg)
        } else {
            None
        }
    }

    /// The extension string of the format.
    pub fn extension(&self) -> (r: &'static str)
        ensures
            r@ == format_extension(*self),
    {
        match self {
            ImageFormat::Png => "png",
            ImageFormat::Webp => "webp",
            ImageFormat::Svg => "svg",
            ImageFormat::Ico => "ico",
            ImageFormat::Jpg => "jpg",
        }
    }
}

/// Whether the characters of `cs` from index `from` on are exactly those of `lit`.
pub fn chars_from_eq(cs: &Vec<char>, from: usize, lit: &str) -> (r: bool)
    requires
        from <= cs.len(),
    ensures
        r == (cs@.skip(from as int) == lit@),
{
    let l = str_chars(lit);
    if cs.len() - from != l.len() {
        assert(cs@.skip(from as int).len() != lit@.len());
        return false;
    }
    let mut j: usize = 0;
    while j < l.len()
        invariant
            l@ == lit@,
            from <= cs.len(),
            cs.len() - from == l.len(),
            j <= l.len(),
            forall|k: int| 0 <= k < j ==> cs@[from + k] == l@[k],
        decreases l.len() - j,
    {
        if cs[from + j] != l[j] {
            assert(cs@.skip(from as int)[j as int] != lit@[j as int]);
            return false;
        }
        j = j + 1;
    }
    assert(cs@.skip(from as int) =~= lit@);
    true
}

/// AI image model providers for icon generation (bring your own key).
#[derive(Debug, Clone, Copy, PartialEq, Eq, Structural)]
pub enum AiProvider {
    /// OpenAI (DALL-E 3).
    OpenAi,
    /// Stability AI.
    Stability,
    /// Google Gemini / Imagen 3.
    Gemini,
    /// Generic OpenAI-compatible API endpoint.
    GenericOpenAi,
}

impl Default for AiProvider {
    fn default() -> (r: Self)
        ensures
            r == AiProvider::OpenAi,
    {
        AiProvider::OpenAi
    }
}

/// The provider that an already lowercased name denotes; every other name means OpenAI.
pub open spec fn provider_of_lowercase(s: Seq<char>) -> AiProvider {
    if s == "stability"@ {
        AiProvider::Stability
    } else if s == "gemini"@ {
        AiProvider::Gemini
    } else if s == "generic"@ || s == "custom"@ || s == "openrouter"@ || s == "ollama"@ {
        AiProvider::GenericOpenAi
    } else {
        AiProvider::OpenAi
    }
}

impl AiProvider {
    /// Parses a provider from its name, in any letter case; unknown names give OpenAI.
    pub fn from_str_val(val: &str) -> (r: Self)
        ensures
            r == provider_of_lowercase(lowercase_of(val@)),
    {
        let lowered = str_to_lowercase(val);
        Self::from_lowercase(lowered.as_str())
    }

    /// Parses a provider from a name that is already in lower case.
    pub fn from_lowercase(s: &str) -> (r: Self)
        ensures
            r == provider_of_lowercase(s@),
    {
        if str_eq(s, "stability") {
            AiProvider::Stability
        } else if str_eq(s, "gemini") {
            AiProvider::Gemini
        } else if str_eq(s, "generic") || str_eq(s, "custom") || str_eq(s, "openrouter")
            || str_eq(s, "ollama") {
            AiProvider::GenericOpenAi
        } else {
            AiProvider::OpenAi
        }
    }
}

} // verus!

verus! {

/// Options for icon set generation.
pub struct IconGeneratorOptions {
    /// Primary source image file path.
    pub input_path: String,
    /// Secondary source image file path for dark mode.
    pub dark_input_path: Option<String>,
    /// Targets to generate, in order.
    pub targets: Vec<IconTarget>,
    /// Light, dark or both.
    pub mode: Mode,
    /// Output base directory.
    pub output_dir: String,
    /// Padding percentage applied around the icon (taken into account from 1 to 49).
    pub padding_percent: u32,
    /// Background colour code (e.g. "#ffffff" or "transparent").
    pub background_color: Option<String>,
    /// Border radius percentage (0 to 50, where 50 is a circle).
    pub border_radius_percent: u32,
}

impl Default for IconGeneratorOptions {
    fn default() -> (r: Self)
        ensures
            r.input_path@ == "icon.png"@,
            r.dark_input_path is None,
            r.targets@ == seq![IconTarget::Web, IconTarget::Mobile, IconTarget::Desktop],
            r.mode == Mode::Light,
            r.output_dir@ == "output/icons"@,
            r.padding_percent == 0,
            r.background_color is None,
            r.border_radius_percent == 0,
    {
        let mut targets: Vec<IconTarget> = Vec::new();
        targets.push(IconTarget::Web);
        targets.push(IconTarget::Mobile);
        targets.push(IconTarget::Desktop);
        assert(targets@ =~= seq![IconTarget::Web, IconTarget::Mobile, IconTarget::Desktop]);
        IconGeneratorOptions {
            input_path: String::from_str("icon.png"),
            dark_input_path: None,
            targets,
            mode: Mode::Light,
            output_dir: String::from_str("output/icons"),
            padding_percent: 0,
            background_color: None,
            border_radius_percent: 0,
        }
    }
}

/// Options for image conversion.
pub struct ConvertOptions {
    /// Input file path.
    pub input_path: String,
    /// Output file path; when absent, the input path with the format's extension.
    pub output_path: Option<String>,
    /// Target image format.
    pub format: ImageFormat,
    /// Quality percentage (1 to 100, for WebP and JPG).
    pub quality: u8,
    /// Target width.
    pub width: Option<u32>,
    /// Target height.
    pub height: Option<u32>,
    /// Background colour fill for transparent sources.
    pub background_color: Option<String>,
}

/// Options for AI icon generation.
pub struct AiGeneratorOptions {
    /// Text prompt describing the icon.
    pub prompt: String,
    /// AI service provider.
    pub provider: AiProvider,
    /// API key; when absent the provider's environment variable is used.
    pub api_key: Option<String>,
    /// Custom endpoint URL (generic OpenAI-compatible provider).
    pub endpoint: Option<String>,
    /// Model name.
    pub model: Option<String>,
    /// Icon output size (e.g. 1024, 512).
    pub size: u32,
    /// Quality setting ("standard" or "hd").
    pub quality: String,
    /// Output file path.
    pub output_path: String,
    /// Targets to generate from the new image, if any.
    pub auto_generate_targets: Option<Vec<IconTarget>>,
}

/// Result of an icon set generation.
pub struct GeneratorResult {
    /// The created files, in order of creation.
    pub created_files: Vec<String>,
    /// A one-line summary.
    pub summary: String,
}

/// Result of an image conversion.
pub struct ConvertResult {
    /// Output file path.
    pub output_path: String,
    /// Format extension.
    pub format: String,
    /// File size in bytes.
    pub file_size: u64,
}

/// Result of an AI icon generation.
pub struct AiGeneratorResult {
    /// Path of the saved image.
    pub image_path: String,
    /// Result of the icon set generation, when one was requested.
    pub targets_result: Option<GeneratorResult>,
}

} // verus!

verus! {

/// Every format is recognised from its own extension, with or without a leading dot.
pub proof fn lemma_format_extension_roundtrip(f: ImageFormat)
    ensures
        format_of_bare_extension(without_leading_dots(format_extension(f))) == Some(f),
        format_of_bare_extension(without_leading_dots(seq!['.'] + format_extension(f))) == Some(f),
{
    reveal_strlit("png");
    reveal_strlit("webp");
    reveal_strlit("svg");
    reveal_strlit("ico");
    reveal_strlit("jpg");
    reveal_strlit("jpeg");
    let e = format_extension(f);
    assert(e.len() > 0 && e[0] != '.');
    assert(without_leading_dots(e) == e);
    assert((seq!['.'] + e).drop_first() =~= e);
}


/// Lowercase ASCII letters are ASCII text that lowercasing keeps; their ASCII
/// uppercase is ASCII text that lowercasing turns back into them.
proof fn lemma_lowercase_letters(s: Seq<char>)
    requires
        forall|i: int| 0 <= i < s.len() ==> 97 <= (#[trigger] s[i]) as u32 <= 122,
    ensures
        lowercase_of(s) == s,
        lowercase_of(ascii_upper(s)) == s,
{
    assert(is_ascii_text(s));
    assert(ascii_lower(s) =~= s);
    let u = ascii_upper(s);
    assert forall|i: int| 0 <= i < u.len() implies 65 <= (#[trigger] u[i]) as u32 <= 90 by {
        let n = s[i] as u32;
        assert(u[i] == ((n - 32) as char));
        assert(((n - 32) as char) as u32 == n - 32);
    }
    assert(is_ascii_text(u));
    assert forall|i: int| 0 <= i < u.len() implies #[trigger] ascii_lower(u)[i] == s[i] by {
        let n = s[i] as u32;
        assert(((n - 32) as char) as u32 == n - 32);
        assert(((n - 32 + 32) as char) == s[i]);
    }
    assert(ascii_lower(u) =~= s);
}

/// `from_ext` recognises every format from the extension `extension` gives it, from
/// that extension in upper case, and from it after a leading dot.
pub proof fn lemma_from_ext_recognises_extension(f: ImageFormat)
    ensures
        format_of_bare_extension(without_leading_dots(lowercase_of(format_extension(f)))) == Some(f),
        format_of_bare_extension(without_leading_dots(lowercase_of(ascii_upper(format_extension(f)))))
            == Some(f),
        format_of_bare_extension(without_leading_dots(lowercase_of(seq!['.'] + format_extension(f))))
            == Some(f),
{
    reveal_strlit("png");
    reveal_strlit("webp");
    reveal_strlit("svg");
    reveal_strlit("ico");
    reveal_strlit("jpg");
    let e = format_extension(f);
    assert(forall|i: int| 0 <= i < e.len() ==> 97 <= (#[trigger] e[i]) as u32 <= 122);
    lemma_lowercase_letters(e);
    lemma_format_extension_roundtrip(f);
    let d = seq!['.'] + e;
    assert(is_ascii_text(d));
    assert(ascii_lower(d) =~= d);
}

} // verus!
