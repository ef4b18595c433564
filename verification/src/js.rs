//! The option and result records of the JavaScript binding, and their conversions to
//! and from the library's own types (defaults included).

use vstd::prelude::*;
use crate::args::{all_targets, named_targets, names_view, parse_target_names};
use crate::generator::strings_view;
use crate::text::{copy_opt, lowercase_of, opt_view};
use crate::types::{
    format_of_bare_extension, mode_of_lowercase, provider_of_lowercase, without_leading_dots,
    AiGeneratorOptions, AiGeneratorResult, AiProvider, ConvertOptions, ConvertResult,
    GeneratorResult, IconGeneratorOptions, IconTarget, ImageFormat, Mode,
};

verus! {

/// Icon set generation options as JavaScript passes them.
pub struct JsIconGeneratorOptions {
    pub input_path: String,
    pub dark_input_path: Option<String>,
    pub targets: Option<Vec<String>>,
    pub mode: Option<String>,
    pub output_dir: Option<String>,
    pub padding_percent: Option<u32>,
    pub background_color: Option<String>,
    pub border_radius_percent: Option<u32>,
}

/// Icon set generation result as JavaScript receives it.
pub struct JsGeneratorResult {
    pub created_files: Vec<String>,
    pub summary: String,
}

/// Conversion options as JavaScript passes them.
pub struct JsConvertOptions {
    pub input_path: String,
    pub output_path: Option<String>,
    pub format: String,
    pub quality: Option<u32>,
    pub width: Option<u32>,
    pub height: Option<u32>,
    pub background_color: Option<String>,
}

/// Conversion result as JavaScript receives it.
pub struct JsConvertResult {
    pub output_path: String,
    pub format: String,
    pub file_size: u32,
}

/// AI generation options as JavaScript passes them.
pub struct JsAiGeneratorOptions {
    pub prompt: String,
    pub provider: Option<String>,
    pub api_key: Option<String>,
    pub endpoint: Option<String>,
    pub model: Option<String>,
    pub size: Option<u32>,
    pub quality: Option<String>,
    pub output_path: Option<String>,
    pub auto_generate_targets: Option<Vec<String>>,
}

/// AI generation result as JavaScript receives it.
pub struct JsAiGeneratorResult {
    pub image_path: String,
    pub targets_summary: Option<String>,
}

/// An optional string, or a default.
pub open spec fn str_or(s: Option<String>, default: Seq<char>) -> Seq<char> {
    match s {
        Some(x) => x@,
        None => default,
    }
}

fn copy_or(s: &Option<String>, default: &str) -> (r: String)
    ensures
        r@ == str_or(*s, default@),
{
    match s {
        Some(x) => String::from_str(x.as_str()),
        None => String::from_str(default),
    }
}

fn copy_strings(v: &Vec<String>) -> (r: Vec<String>)
    ensures
        strings_view(r@) == strings_view(v@),
{
    let mut out: Vec<String> = Vec::new();
    let mut i: usize = 0;
    while i < v.len()
        invariant
            i <= v.len(),
            strings_view(out@) == strings_view(v@.take(i as int)),
        decreases v.len() - i,
    {
        let ghost before = out@;
        let src: &String = &v[i];
        let s = String::from_str(src.as_str());
        assert(s@ == v@[i as int]@);
        out.push(s);
        assert(v@.take(i + 1) =~= v@.take(i as int).push(v@[i as int]));
        assert(strings_view(out@) =~= strings_view(before).push(v@[i as int]@));
        assert(strings_view(v@.take(i + 1)) =~= strings_view(v@.take(i as int)).push(v@[i as int]@));
        i = i + 1;
    }
    assert(v@.take(v.len() as int) =~= v@);
    out
}

fn default_targets() -> (r: Vec<IconTarget>)
    ensures
        r@ == all_targets(),
{
    let mut v: Vec<IconTarget> = Vec::new();
    v.push(IconTarget::Web);
    v.push(IconTarget::Mobile);
    v.push(IconTarget::Desktop);
    assert(v@ =~= all_targets());
    v
}

impl JsIconGeneratorOptions {
    /// The library options: targets default to all three (unknown names are skipped),
    /// mode to light, output to `output/icons`, padding and radius to 0.
    pub fn to_options(&self) -> (r: IconGeneratorOptions)
        ensures
            r.input_path@ == self.input_path@,
            opt_view(r.dark_input_path) == opt_view(self.dark_input_path),
            r.targets@ == match self.targets {
                Some(ts) => named_targets(names_view(ts@)),
                None => all_targets(),
            },
            r.mode == mode_of_lowercase(lowercase_of(str_or(self.mode, "light"@))),
            r.output_dir@ == str_or(self.output_dir, "output/icons"@),
            r.padding_percent == match self.padding_percent {
                Some(p) => p,
                None => 0,
            },
            opt_view(r.background_color) == opt_view(self.background_color),
            r.border_radius_percent == match self.border_radius_percent {
                Some(p) => p,
                None => 0,
            },
    {
        let targets = match &self.targets {
            Some(ts) => parse_target_names(ts),
            None => default_targets(),
        };
        let mode_name = copy_or(&self.mode, "light");
        IconGeneratorOptions {
            input_path: String::from_str(self.input_path.as_str()),
            dark_input_path: copy_opt(&self.dark_input_path),
            targets,
            mode: Mode::from_str_val(mode_name.as_str()),
            output_dir: copy_or(&self.output_dir, "output/icons"),
            padding_percent: match self.padding_percent {
                Some(p) => p,
                None => 0,
            },
            background_color: copy_opt(&self.background_color),
            border_radius_percent: match self.border_radius_percent {
                Some(p) => p,
                None => 0,
            },
        }
    }
}

impl JsGeneratorResult {
    /// The JavaScript form of a generation result.
    pub fn from_result(r: &GeneratorResult) -> (j: Self)
        ensures
            strings_view(j.created_files@) == strings_view(r.created_files@),
            j.summary@ == r.summary@,
    {
        JsGeneratorResult {
            created_files: copy_strings(&r.created_files),
            summary: String::from_str(r.summary.as_str()),
        }
    }
}

impl JsConvertOptions {
    /// The library options, or the message of an unsupported format; quality defaults
    /// to 90 and is cut to its low byte.
    pub fn to_options(&self) -> (r: Result<ConvertOptions, String>)
        ensures
            match format_of_bare_extension(without_leading_dots(lowercase_of(self.format@))) {
                Some(f) => r matches Ok(o) && o.input_path@ == self.input_path@ && opt_view(
                    o.output_path,
                ) == opt_view(self.output_path) && o.format == f && o.quality == (match self.quality {
                    Some(q) => q,
                    None => 90,
                }) as u8 && o.width == self.width && o.height == self.height && opt_view(
                    o.background_color,
                ) == opt_view(self.background_color),
                None => r matches Err(m) && m@ == "Unsupported format: "@ + self.format@,
            },
    {
        match ImageFormat::from_ext(self.format.as_str()) {
            Some(format) => {
                let q: u32 = match self.quality {
                    Some(q) => q,
                    None => 90,
                };
                Ok(
                    ConvertOptions {
                        input_path: String::from_str(self.input_path.as_str()),
                        output_path: copy_opt(&self.output_path),
                        format,
                        quality: q as u8,
                        width: self.width,
                        height: self.height,
                        background_color: copy_opt(&self.background_color),
                    },
                )
            },
            None => {
                let mut m = String::new();
                m.append("Unsupported format: ");
                m.append(self.format.as_str());
                Err(m)
            },
        }
    }
}

impl JsConvertResult {
    /// The JavaScript form of a conversion result; the size is cut to 32 bits.
    pub fn from_result(r: &ConvertResult) -> (j: Self)
        ensures
            j.output_path@ == r.output_path@,
            j.format@ == r.format@,
            j.file_size == r.file_size as u32,
    {
        JsConvertResult {
            output_path: String::from_str(r.output_path.as_str()),
            format: String::from_str(r.format.as_str()),
            file_size: r.file_size as u32,
        }
    }
}

impl JsAiGeneratorOptions {
    /// The library options: provider defaults to OpenAI, size to 1024, quality to
    /// `standard`, output to `output/ai-icon.png`; unknown target names are skipped.
    pub fn to_options(&self) -> (r: AiGeneratorOptions)
        ensures
            r.prompt@ == self.prompt@,
            r.provider == provider_of_lowercase(lowercase_of(str_or(self.provider, "openai"@))),
            opt_view(r.api_key) == opt_view(self.api_key),
            opt_view(r.endpoint) == opt_view(self.endpoint),
            opt_view(r.model) == opt_view(self.model),
            r.size == match self.size {
                Some(s) => s,
                None => 1024,
            },
            r.quality@ == str_or(self.quality, "standard"@),
            r.output_path@ == str_or(self.output_path, "output/ai-icon.png"@),
            match self.auto_generate_targets {
                Some(ts) => r.auto_generate_targets matches Some(t) && t@ == named_targets(
                    names_view(ts@),
                ),
                None => r.auto_generate_targets is None,
            },
    {
        let provider_name = copy_or(&self.provider, "openai");
        let targets = match &self.auto_generate_targets {
            Some(ts) => Some(parse_target_names(ts)),
            None => None,
        };
        AiGeneratorOptions {
            prompt: String::from_str(self.prompt.as_str()),
            provider: AiProvider::from_str_val(provider_name.as_str()),
            api_key: copy_opt(&self.api_key),
            endpoint: copy_opt(&self.endpoint),
            model: copy_opt(&self.model),
            size: match self.size {
                Some(s) => s,
                None => 1024,
            },
            quality: copy_or(&self.quality, "standard"),
            output_path: copy_or(&self.output_path, "output/ai-icon.png"),
            auto_generate_targets: targets,
        }
    }
}

impl JsAiGeneratorResult {
    /// The JavaScript form of an AI generation result: the summary of the generated icon
    /// set, if any.
    pub fn from_result(r: &AiGeneratorResult) -> (j: Self)
        ensures
            j.image_path@ == r.image_path@,
            opt_view(j.targets_summary) == match r.targets_result {
                Some(g) => Some(g.summary@),
                None => None::<Seq<char>>,
            },
    {
        JsAiGeneratorResult {
            image_path: String::from_str(r.image_path.as_str()),
            targets_summary: match &r.targets_result {
                Some(g) => Some(String::from_str(g.summary.as_str())),
                None => None,
            },
        }
    }
}

} // verus!
