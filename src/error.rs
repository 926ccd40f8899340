//! The error taxonomy that every fallible operation reports through.

use vstd::prelude::*;

use crate::text::{contains, decimal, lemma_contains_suffix, push_decimal};

verus! {

#[verifier::external_type_specification]
#[verifier::external_body]
pub struct ExIoError(std::io::Error);

#[verifier::external_type_specification]
#[verifier::external_body]
pub struct ExImageError(image::ImageError);

#[verifier::external_type_specification]
#[verifier::external_body]
pub struct ExDecoderError(rodio::decoder::DecoderError);

/// The result of every operation that can fail in a recoverable way.
pub type Result<T = ()> = std::result::Result<T, TetraError>;

/// The kinds of error that can occur. New kinds may be added, so a match on
/// this type from outside the crate needs a fallback arm.
#[non_exhaustive]
#[derive(Debug)]
pub enum TetraError {
    /// The underlying platform returned an unexpected error.
    PlatformError(String),
    /// A file-backed asset could not be read.
    FailedToLoadAsset {
        /// The underlying reason for the error.
        reason: std::io::Error,
        /// The path of the asset that failed to load.
        path: String,
    },
    /// A color value failed validation.
    InvalidColor,
    /// Image bytes could not be decoded into pixel data.
    InvalidTexture(image::ImageError),
    /// A shader failed to compile or link; holds the compiler's message.
    InvalidShader(String),
    /// Font data could not be parsed.
    InvalidFont,
    /// Audio bytes could not be decoded.
    InvalidSound(rodio::decoder::DecoderError),
    /// A raw buffer was shorter than required.
    NotEnoughData {
        /// The number of bytes that were expected.
        expected: usize,
        /// The number of bytes that were provided.
        actual: usize,
    },
    /// No playback device was available.
    NoAudioDevice,
    /// The platform rejected a change of display settings.
    FailedToChangeDisplayMode(String),
}

/// The underlying error that a wrapping variant preserves.
#[derive(Debug)]
pub enum ErrorSource<'a> {
    /// The I/O failure behind `FailedToLoadAsset`.
    Io(&'a std::io::Error),
    /// The decoding failure behind `InvalidTexture`.
    Texture(&'a image::ImageError),
    /// The decoding failure behind `InvalidSound`.
    Sound(&'a rodio::decoder::DecoderError),
}

/// Relies on the `Display` impl of `std::io::Error`: its one-line message.
#[verifier::external_body]
fn io_error_text(e: &std::io::Error) -> String {
    e.to_string()
}

/// Relies on the `Display` impl of `image::ImageError`: its one-line message.
#[verifier::external_body]
fn image_error_text(e: &image::ImageError) -> String {
    e.to_string()
}

/// Relies on the `Display` impl of `rodio::decoder::DecoderError`: its one-line message.
#[verifier::external_body]
fn decoder_error_text(e: &rodio::decoder::DecoderError) -> String {
    e.to_string()
}

impl TetraError {
    /// Whether this variant wraps an underlying error.
    pub open spec fn has_source(&self) -> bool {
        match self {
            TetraError::FailedToLoadAsset { .. } => true,
            TetraError::InvalidTexture(_) => true,
            TetraError::InvalidSound(_) => true,
            _ => false,
        }
    }

    /// The one-line message of this error, where `cause` is the message of
    /// the wrapped error (not read by variants without one).
    pub open spec fn rendered(&self, cause: Seq<char>) -> Seq<char> {
        match self {
            TetraError::PlatformError(reason) => "An error was thrown by the platform: "@ + reason@,
            TetraError::FailedToLoadAsset { path, .. } => "Failed to load asset from "@ + path@ + ": "@
                + cause,
            TetraError::InvalidColor => "Invalid color"@,
            TetraError::InvalidTexture(_) => "Invalid texture: "@ + cause,
            TetraError::InvalidShader(reason) => "Invalid shader: "@ + reason@,
            TetraError::InvalidFont => "Invalid font"@,
            TetraError::InvalidSound(_) => "Invalid sound: "@ + cause,
            TetraError::NotEnoughData { expected, actual } =>
                "Not enough data was provided to fill a buffer - expected "@ + decimal(*expected as nat)
                + ", found "@ + decimal(*actual as nat) + "."@,
            TetraError::NoAudioDevice => "No audio device was available for playback."@,
            TetraError::FailedToChangeDisplayMode(reason) => "Failed to change display mode: "@
                + reason@,
        }
    }

    /// The one-line message of this error, given the message of the wrapped
    /// error as `cause`.
    pub fn message_with_cause(&self, cause: &str) -> (r: String)
        ensures
            r@ == self.rendered(cause@),
    {
        match self {
            TetraError::PlatformError(reason) => {
                let mut out = String::from_str("An error was thrown by the platform: ");
                out.append(reason.as_str());
                out
            },
            TetraError::FailedToLoadAsset { path, .. } => {
                let mut out = String::from_str("Failed to load asset from ");
                out.append(path.as_str());
                out.append(": ");
                out.append(cause);
                out
            },
            TetraError::InvalidColor => String::from_str("Invalid color"),
            TetraError::InvalidTexture(_) => {
                let mut out = String::from_str("Invalid texture: ");
                out.append(cause);
                out
            },
            TetraError::InvalidShader(reason) => {
                let mut out = String::from_str("Invalid shader: ");
                out.append(reason.as_str());
                out
            },
            TetraError::InvalidFont => String::from_str("Invalid font"),
            TetraError::InvalidSound(_) => {
                let mut out = String::from_str("Invalid sound: ");
                out.append(cause);
                out
            },
            TetraError::NotEnoughData { expected, actual } => {
                let mut out = String::from_str(
                    "Not enough data was provided to fill a buffer - expected ",
                );
                push_decimal(&mut out, *expected);
                out.append(", found ");
                push_decimal(&mut out, *actual);
                out.append(".");
                out
            },
            TetraError::NoAudioDevice => String::from_str(
                "No audio device was available for playback.",
            ),
            TetraError::FailedToChangeDisplayMode(reason) => {
                let mut out = String::from_str("Failed to change display mode: ");
                out.append(reason.as_str());
                out
            },
        }
    }

    /// The one-line, user-facing message of this error. For a variant that
    /// wraps an error, it ends with that error's own message.
    pub fn message(&self) -> (r: String)
        ensures
            !self.has_source() ==> r@ == self.rendered(Seq::empty()),
            self.has_source() ==> exists|cause: Seq<char>| r@ == self.rendered(cause),
    {
        let cause = match self {
            TetraError::FailedToLoadAsset { reason, .. } => io_error_text(reason),
            TetraError::InvalidTexture(reason) => image_error_text(reason),
            TetraError::InvalidSound(reason) => decoder_error_text(reason),
            _ => String::new(),
        };
        let r = self.message_with_cause(cause.as_str());
        proof {
            if !self.has_source() {
                assert(self.rendered(cause@) == self.rendered(Seq::empty()));
            }
        }
        r
    }

    /// The wrapped error, for the variants that have one; `None` for the rest.
    pub fn source(&self) -> (r: Option<ErrorSource<'_>>)
        ensures
            r is Some <==> self.has_source(),
            match self {
                TetraError::FailedToLoadAsset { reason, .. } => r == Some(ErrorSource::Io(reason)),
                TetraError::InvalidTexture(reason) => r == Some(ErrorSource::Texture(reason)),
                TetraError::InvalidSound(reason) => r == Some(ErrorSource::Sound(reason)),
                _ => r is None,
            },
    {
        match self {
            TetraError::PlatformError(_) => None,
            TetraError::FailedToLoadAsset { reason, .. } => Some(ErrorSource::Io(reason)),
            TetraError::InvalidColor => None,
            TetraError::InvalidTexture(reason) => Some(ErrorSource::Texture(reason)),
            TetraError::InvalidShader(_) => None,
            TetraError::InvalidFont => None,
            TetraError::InvalidSound(reason) => Some(ErrorSource::Sound(reason)),
            TetraError::NotEnoughData { .. } => None,
            TetraError::NoAudioDevice => None,
            TetraError::FailedToChangeDisplayMode(_) => None,
        }
    }
}

/// Every error renders to a non-empty message; a variant that wraps an error
/// carries that error's message inside its own, and a variant that carries a
/// message of its own (a compiler diagnostic, a platform report) carries it
/// inside too.
pub proof fn lemma_rendered_message(e: &TetraError, cause: Seq<char>)
    ensures
        e.rendered(cause).len() > 0,
        e.has_source() ==> contains(e.rendered(cause), cause),
        e matches TetraError::InvalidShader(m) ==> contains(e.rendered(cause), m@),
        e matches TetraError::PlatformError(m) ==> contains(e.rendered(cause), m@),
        e matches TetraError::FailedToChangeDisplayMode(m) ==> contains(e.rendered(cause), m@),
        e matches TetraError::FailedToLoadAsset { path, .. } ==> contains(e.rendered(cause), path@),
{
    reveal_strlit("An error was thrown by the platform: ");
    reveal_strlit("Failed to load asset from ");
    reveal_strlit(": ");
    reveal_strlit("Invalid color");
    reveal_strlit("Invalid texture: ");
    reveal_strlit("Invalid shader: ");
    reveal_strlit("Invalid font");
    reveal_strlit("Invalid sound: ");
    reveal_strlit("Not enough data was provided to fill a buffer - expected ");
    reveal_strlit("No audio device was available for playback.");
    reveal_strlit("Failed to change display mode: ");
    match e {
        TetraError::PlatformError(m) => {
            lemma_contains_suffix("An error was thrown by the platform: "@, m@);
        },
        TetraError::FailedToLoadAsset { path, .. } => {
            let head = "Failed to load asset from "@;
            lemma_contains_suffix(head + path@ + ": "@, cause);
            let hay = head + path@ + ": "@ + cause;
            assert(hay.subrange(head.len() as int, (head.len() + path@.len()) as int) =~= path@);
        },
        TetraError::InvalidTexture(_) => {
            lemma_contains_suffix("Invalid texture: "@, cause);
        },
        TetraError::InvalidShader(m) => {
            lemma_contains_suffix("Invalid shader: "@, m@);
        },
        TetraError::InvalidSound(_) => {
            lemma_contains_suffix("Invalid sound: "@, cause);
        },
        TetraError::FailedToChangeDisplayMode(m) => {
            lemma_contains_suffix("Failed to change display mode: "@, m@);
        },
        _ => {},
    }
}

} // verus!
