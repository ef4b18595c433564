//! The error type of the library.

use vstd::prelude::*;

verus! {

/// Every failure the toolkit reports. Causes that come from the file system, image
/// codecs or HTTP clients are carried as the text of their message.
#[derive(Debug, Clone, PartialEq, Eq)]
pub enum IconToolkitError {
    /// An image could not be loaded or decoded.
    ImageDecode { path: String, message: String },
    /// An image could not be encoded to the given format.
    ImageEncode { format: String, message: String },
    /// A multi-resolution ICO file could not be built.
    IcoEncoding(String),
    /// An SVG document could not be parsed or rendered.
    SvgProcessing(String),
    /// A file-system operation failed on the given path.
    Io { path: String, message: String },
    /// An AI provider request or its response failed.
    AiService { provider: String, message: String },
    /// An option or input value is invalid.
    InvalidConfig(String),
}

/// The text that describes an error, as its display form reads.
pub open spec fn error_message(e: IconToolkitError) -> Seq<char> {
    match e {
        IconToolkitError::ImageDecode { path, message } => "Failed to decode image from path '"@
            + path@ + "': "@ + message@,
        IconToolkitError::ImageEncode { format, message } => "Failed to encode image to format '"@
            + format@ + "': "@ + message@,
        IconToolkitError::IcoEncoding(m) => "ICO encoding error: "@ + m@,
        IconToolkitError::SvgProcessing(m) => "SVG processing error: "@ + m@,
        IconToolkitError::Io { path, message } => "File system I/O error on '"@ + path@ + "': "@
            + message@,
        IconToolkitError::AiService { provider, message } => "AI Service Error ("@ + provider@
            + "): "@ + message@,
        IconToolkitError::InvalidConfig(m) => "Invalid configuration: "@ + m@,
    }
}

impl IconToolkitError {
    /// The display text of the error.
    pub fn message(&self) -> (r: String)
        ensures
            r@ == error_message(*self),
    {
        let mut s = String::new();
        match self {
            IconToolkitError::ImageDecode { path, message } => {
                s.append("Failed to decode image from path '");
                s.append(path.as_str());
                s.append("': ");
                s.append(message.as_str());
            },
            IconToolkitError::ImageEncode { format, message } => {
                s.append("Failed to encode image to format '");
                s.append(format.as_str());
                s.append("': ");
                s.append(message.as_str());
            },
            IconToolkitError::IcoEncoding(m) => {
                s.append("ICO encoding error: ");
                s.append(m.as_str());
            },
            IconToolkitError::SvgProcessing(m) => {
                s.append("SVG processing error: ");
                s.append(m.as_str());
            },
            IconToolkitError::Io { path, message } => {
                s.append("File system I/O error on '");
                s.append(path.as_str());
                s.append("': ");
                s.append(message.as_str());
            },
            IconToolkitError::AiService { provider, message } => {
                s.append("AI Service Error (");
                s.append(provider.as_str());
                s.append("): ");
                s.append(message.as_str());
            },
            IconToolkitError::InvalidConfig(m) => {
                s.append("Invalid configuration: ");
                s.append(m.as_str());
            },
        }
        s
    }
}

} // verus!
