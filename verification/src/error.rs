//! Error taxonomy and translation layer.
//!
//! The external engine reports failures in its own vocabulary; this module
//! models those reports as plain values ([`EngineFailure`]), adds the
//! caller-side failures this library detects itself ([`APIError`]), and
//! classifies every failure into one externally stable category with a
//! deterministic, human-readable message ([`ClassifiedError`]).
//! Classification is total: every failure maps to exactly one category, and
//! translation itself never fails.

use vstd::prelude::*;
use crate::text::{dec_chars, push_decimal};

verus! {

/// A failure reported by the external extraction engine for one path,
/// carried as plain values: the message strings and the raw sample index
/// the engine attached to the report.
#[derive(Debug, Clone, PartialEq, Eq)]
pub enum EngineFailure {
    /// Filesystem read/write error during extraction, with its description.
    Io(String),
    /// A specific sample failed to decode, with the engine's description.
    Extraction(String),
    /// The module format is recognized but not supported, with a description.
    UnsupportedModule(String),
    /// The module file is structurally corrupt, with a description.
    InvalidModule(String),
    /// The module contains zero samples.
    EmptyModule,
    /// Writing a decoded sample to the requested output format failed,
    /// with the encoder's message.
    AudioFormat(String),
    /// A sample descriptor points outside the module's bounds; carries the
    /// raw sample index.
    BadSample(u16),
    /// Some but not all samples in the module failed to extract.
    PartialRip,
    /// Every sample in the module failed to extract.
    TotalRip,
    /// The engine could not determine the module's format at all.
    NoFormatFound,
}

/// A failure this library detects itself, before the engine is invoked.
#[derive(Debug, Clone, PartialEq, Eq)]
pub enum APIError {
    /// The path's file extension is not in the supported set; carries the
    /// offending extension, lower-cased.
    UnrecognizedFileExtension(String),
    /// The output-format override names no known format; carries the
    /// offending token verbatim.
    UnrecognizedFormat(String),
    /// The index-padding override does not fit in a single byte; carries
    /// the rejected width.
    PaddingTooWide(usize),
}

/// Any failure a single extraction can end in: one the engine reported,
/// or one this library raised before invoking the engine.
#[derive(Debug, Clone, PartialEq, Eq)]
pub enum Error {
    Xmodits(EngineFailure),
    APIError(APIError),
}

/// The externally stable error categories. Consumers depend on this small
/// fixed vocabulary rather than on the engine's internal representation.
#[derive(Debug, Clone, Copy, PartialEq, Eq, Structural)]
pub enum ErrorKind {
    Io,
    SampleExtraction,
    TotalExtraction,
    PartialExtraction,
    UnsupportedFormat,
    InvalidModule,
    InvalidSample,
    EmptyModule,
    NoFormatFound,
    AudioFormat,
    UnrecognizedFileExtension,
    UnrecognizedFormat,
    PaddingTooWide,
}

/// One classified failure: a stable category carrying its rendered message.
#[derive(Debug, Clone, PartialEq, Eq)]
pub enum ClassifiedError {
    Io(String),
    SampleExtraction(String),
    TotalExtraction(String),
    PartialExtraction(String),
    UnsupportedFormat(String),
    InvalidModule(String),
    InvalidSample(String),
    EmptyModule(String),
    NoFormatFound(String),
    AudioFormat(String),
    UnrecognizedFileExtension(String),
    UnrecognizedFormat(String),
    PaddingTooWide(String),
}

impl ClassifiedError {
    /// The stable category of this error.
    pub open spec fn kind(&self) -> ErrorKind {
        match self {
            ClassifiedError::Io(_) => ErrorKind::Io,
            ClassifiedError::SampleExtraction(_) => ErrorKind::SampleExtraction,
            ClassifiedError::TotalExtraction(_) => ErrorKind::TotalExtraction,
            ClassifiedError::PartialExtraction(_) => ErrorKind::PartialExtraction,
            ClassifiedError::UnsupportedFormat(_) => ErrorKind::UnsupportedFormat,
            ClassifiedError::InvalidModule(_) => ErrorKind::InvalidModule,
            ClassifiedError::InvalidSample(_) => ErrorKind::InvalidSample,
            ClassifiedError::EmptyModule(_) => ErrorKind::EmptyModule,
            ClassifiedError::NoFormatFound(_) => ErrorKind::NoFormatFound,
            ClassifiedError::AudioFormat(_) => ErrorKind::AudioFormat,
            ClassifiedError::UnrecognizedFileExtension(_) => ErrorKind::UnrecognizedFileExtension,
            ClassifiedError::UnrecognizedFormat(_) => ErrorKind::UnrecognizedFormat,
            ClassifiedError::PaddingTooWide(_) => ErrorKind::PaddingTooWide,
        }
    }

    /// The rendered message carried by this error.
    pub open spec fn msg(&self) -> Seq<char> {
        match self {
            ClassifiedError::Io(s) => s@,
            ClassifiedError::SampleExtraction(s) => s@,
            ClassifiedError::TotalExtraction(s) => s@,
            ClassifiedError::PartialExtraction(s) => s@,
            ClassifiedError::UnsupportedFormat(s) => s@,
            ClassifiedError::InvalidModule(s) => s@,
            ClassifiedError::InvalidSample(s) => s@,
            ClassifiedError::EmptyModule(s) => s@,
            ClassifiedError::NoFormatFound(s) => s@,
            ClassifiedError::AudioFormat(s) => s@,
            ClassifiedError::UnrecognizedFileExtension(s) => s@,
            ClassifiedError::UnrecognizedFormat(s) => s@,
            ClassifiedError::PaddingTooWide(s) => s@,
        }
    }

    /// The stable category of this error.
    pub fn category(&self) -> (r: ErrorKind)
        ensures
            r == self.kind(),
    {
        match self {
            ClassifiedError::Io(_) => ErrorKind::Io,
            ClassifiedError::SampleExtraction(_) => ErrorKind::SampleExtraction,
            ClassifiedError::TotalExtraction(_) => ErrorKind::TotalExtraction,
            ClassifiedError::PartialExtraction(_) => ErrorKind::PartialExtraction,
            ClassifiedError::UnsupportedFormat(_) => ErrorKind::UnsupportedFormat,
            ClassifiedError::InvalidModule(_) => ErrorKind::InvalidModule,
            ClassifiedError::InvalidSample(_) => ErrorKind::InvalidSample,
            ClassifiedError::EmptyModule(_) => ErrorKind::EmptyModule,
            ClassifiedError::NoFormatFound(_) => ErrorKind::NoFormatFound,
            ClassifiedError::AudioFormat(_) => ErrorKind::AudioFormat,
            ClassifiedError::UnrecognizedFileExtension(_) => ErrorKind::UnrecognizedFileExtension,
            ClassifiedError::UnrecognizedFormat(_) => ErrorKind::UnrecognizedFormat,
            ClassifiedError::PaddingTooWide(_) => ErrorKind::PaddingTooWide,
        }
    }

    /// The rendered message carried by this error.
    pub fn message(&self) -> (r: String)
        ensures
            r@ == self.msg(),
    {
        match self {
            ClassifiedError::Io(s) => s.clone(),
            ClassifiedError::SampleExtraction(s) => s.clone(),
            ClassifiedError::TotalExtraction(s) => s.clone(),
            ClassifiedError::PartialExtraction(s) => s.clone(),
            ClassifiedError::UnsupportedFormat(s) => s.clone(),
            ClassifiedError::InvalidModule(s) => s.clone(),
            ClassifiedError::InvalidSample(s) => s.clone(),
            ClassifiedError::EmptyModule(s) => s.clone(),
            ClassifiedError::NoFormatFound(s) => s.clone(),
            ClassifiedError::AudioFormat(s) => s.clone(),
            ClassifiedError::UnrecognizedFileExtension(s) => s.clone(),
            ClassifiedError::UnrecognizedFormat(s) => s.clone(),
            ClassifiedError::PaddingTooWide(s) => s.clone(),
        }
    }
}

/// Message for a file extension outside the supported set.
pub open spec fn unrecognized_extension_msg(ext: Seq<char>) -> Seq<char> {
    "\""@ + ext + "\" is not a recognized format."@
}

/// Message for a module with zero samples.
pub open spec fn empty_module_msg() -> Seq<char> {
    "The module has no samples"@
}

/// Message for a sample descriptor pointing outside the module's bounds.
pub open spec fn invalid_sample_msg(index: u16) -> Seq<char> {
    "Sample with raw index "@ + dec_chars(index as nat) + " points to an invalid offset"@
}

/// Message for a module whose format could not be determined.
pub open spec fn no_format_found_msg() -> Seq<char> {
    "Could not determine a valid format"@
}

/// Message for a failed export of a decoded sample.
pub open spec fn audio_format_msg(error: Seq<char>) -> Seq<char> {
    "Could not export sample to desired format: "@ + error
}

/// Message for a partial extraction failure.
pub open spec fn partial_msg() -> Seq<char> {
    "Could not extract everything"@
}

/// Message for a total extraction failure.
pub open spec fn total_failure_msg() -> Seq<char> {
    "Could not extract anything, the module might be corrupted"@
}

/// Message for an index-padding override that does not fit in a byte.
pub open spec fn padding_too_wide_msg(width: nat) -> Seq<char> {
    "Index padding "@ + dec_chars(width) + " does not fit in a byte"@
}

/// Render the message for a file extension outside the supported set.
pub fn unrecognized_extension(ext: &str) -> (r: String)
    ensures
        r@ == unrecognized_extension_msg(ext@),
{
    let mut r = String::from_str("\"");
    r.append(ext);
    r.append("\" is not a recognized format.");
    proof {
        assert(r@ =~= unrecognized_extension_msg(ext@));
    }
    r
}

/// Render the message for a module with zero samples.
pub fn empty_module() -> (r: String)
    ensures
        r@ == empty_module_msg(),
{
    String::from_str("The module has no samples")
}

/// Render the message for a sample descriptor pointing outside the
/// module's bounds.
pub fn invalid_sample(index: u16) -> (r: String)
    ensures
        r@ == invalid_sample_msg(index),
{
    let mut r = String::from_str("Sample with raw index ");
    push_decimal(&mut r, index as u64);
    r.append(" points to an invalid offset");
    proof {
        assert(r@ =~= invalid_sample_msg(index));
    }
    r
}

/// Render the message for a module whose format could not be determined.
pub fn no_format_found() -> (r: String)
    ensures
        r@ == no_format_found_msg(),
{
    String::from_str("Could not determine a valid format")
}

/// Render the message for a failed export of a decoded sample.
pub fn audio_format(error: String) -> (r: String)
    ensures
        r@ == audio_format_msg(error@),
{
    let mut r = String::from_str("Could not export sample to desired format: ");
    r.append(error.as_str());
    r
}

/// Render the message for a partial extraction failure.
pub fn partial() -> (r: String)
    ensures
        r@ == partial_msg(),
{
    String::from_str("Could not extract everything")
}

/// Render the message for a total extraction failure.
pub fn total_failure() -> (r: String)
    ensures
        r@ == total_failure_msg(),
{
    String::from_str("Could not extract anything, the module might be corrupted")
}

/// Render the message for an index-padding override that does not fit
/// in a byte.
pub fn padding_too_wide(width: usize) -> (r: String)
    ensures
        r@ == padding_too_wide_msg(width as nat),
{
    let mut r = String::from_str("Index padding ");
    push_decimal(&mut r, width as u64);
    r.append(" does not fit in a byte");
    proof {
        assert(r@ =~= padding_too_wide_msg(width as nat));
    }
    r
}

/// The category an engine-reported failure classifies to.
pub open spec fn xmodits_kind(e: EngineFailure) -> ErrorKind {
    match e {
        EngineFailure::Io(_) => ErrorKind::Io,
        EngineFailure::Extraction(_) => ErrorKind::SampleExtraction,
        EngineFailure::UnsupportedModule(_) => ErrorKind::UnsupportedFormat,
        EngineFailure::InvalidModule(_) => ErrorKind::InvalidModule,
        EngineFailure::EmptyModule => ErrorKind::EmptyModule,
        EngineFailure::AudioFormat(_) => ErrorKind::AudioFormat,
        EngineFailure::BadSample(_) => ErrorKind::InvalidSample,
        EngineFailure::PartialRip => ErrorKind::PartialExtraction,
        EngineFailure::TotalRip => ErrorKind::TotalExtraction,
        EngineFailure::NoFormatFound => ErrorKind::NoFormatFound,
    }
}

/// The message an engine-reported failure classifies to.
pub open spec fn xmodits_msg(e: EngineFailure) -> Seq<char> {
    match e {
        EngineFailure::Io(s) => s@,
        EngineFailure::Extraction(s) => s@,
        EngineFailure::UnsupportedModule(s) => s@,
        EngineFailure::InvalidModule(s) => s@,
        EngineFailure::EmptyModule => empty_module_msg(),
        EngineFailure::AudioFormat(s) => audio_format_msg(s@),
        EngineFailure::BadSample(i) => invalid_sample_msg(i),
        EngineFailure::PartialRip => partial_msg(),
        EngineFailure::TotalRip => total_failure_msg(),
        EngineFailure::NoFormatFound => no_format_found_msg(),
    }
}

/// The category a caller-side failure classifies to.
pub open spec fn api_kind(e: APIError) -> ErrorKind {
    match e {
        APIError::UnrecognizedFileExtension(_) => ErrorKind::UnrecognizedFileExtension,
        APIError::UnrecognizedFormat(_) => ErrorKind::UnrecognizedFormat,
        APIError::PaddingTooWide(_) => ErrorKind::PaddingTooWide,
    }
}

/// The message a caller-side failure classifies to.
pub open spec fn api_msg(e: APIError) -> Seq<char> {
    match e {
        APIError::UnrecognizedFileExtension(s) => unrecognized_extension_msg(s@),
        APIError::UnrecognizedFormat(s) => unrecognized_extension_msg(s@),
        APIError::PaddingTooWide(w) => padding_too_wide_msg(w as nat),
    }
}

/// The category any failure classifies to.
pub open spec fn error_kind(e: Error) -> ErrorKind {
    match e {
        Error::Xmodits(x) => xmodits_kind(x),
        Error::APIError(a) => api_kind(a),
    }
}

/// The message any failure classifies to.
pub open spec fn error_msg(e: Error) -> Seq<char> {
    match e {
        Error::Xmodits(x) => xmodits_msg(x),
        Error::APIError(a) => api_msg(a),
    }
}

/// Classify one engine-reported failure: every report maps to exactly one
/// stable category, carrying its deterministic message.
pub fn convert_xmodits(err: EngineFailure) -> (r: ClassifiedError)
    ensures
        r.kind() == xmodits_kind(err),
        r.msg() == xmodits_msg(err),
{
    match err {
        EngineFailure::Io(e) => ClassifiedError::Io(e),
        EngineFailure::Extraction(e) => ClassifiedError::SampleExtraction(e),
        EngineFailure::UnsupportedModule(e) => ClassifiedError::UnsupportedFormat(e),
        EngineFailure::InvalidModule(e) => ClassifiedError::InvalidModule(e),
        EngineFailure::EmptyModule => ClassifiedError::EmptyModule(empty_module()),
        EngineFailure::AudioFormat(e) => ClassifiedError::AudioFormat(audio_format(e)),
        EngineFailure::BadSample(raw_index) => ClassifiedError::InvalidSample(
            invalid_sample(raw_index),
        ),
        EngineFailure::PartialRip => ClassifiedError::PartialExtraction(partial()),
        EngineFailure::TotalRip => ClassifiedError::TotalExtraction(total_failure()),
        EngineFailure::NoFormatFound => ClassifiedError::NoFormatFound(no_format_found()),
    }
}

/// Classify one caller-side failure.
pub fn convert_api(err: APIError) -> (r: ClassifiedError)
    ensures
        r.kind() == api_kind(err),
        r.msg() == api_msg(err),
{
    match err {
        APIError::UnrecognizedFileExtension(ext) => ClassifiedError::UnrecognizedFileExtension(
            unrecognized_extension(ext.as_str()),
        ),
        APIError::UnrecognizedFormat(token) => ClassifiedError::UnrecognizedFormat(
            unrecognized_extension(token.as_str()),
        ),
        APIError::PaddingTooWide(width) => ClassifiedError::PaddingTooWide(
            padding_too_wide(width),
        ),
    }
}

/// Classify any failure a single extraction can end in.
pub fn classify(err: Error) -> (r: ClassifiedError)
    ensures
        r.kind() == error_kind(err),
        r.msg() == error_msg(err),
{
    match err {
        Error::Xmodits(e) => convert_xmodits(e),
        Error::APIError(e) => convert_api(e),
    }
}

impl From<EngineFailure> for Error {
    /// Wrap an engine-reported failure.
    fn from(value: EngineFailure) -> (r: Self) {
        Error::Xmodits(value)
    }
}

impl vstd::std_specs::convert::FromSpecImpl<EngineFailure> for Error {
    open spec fn obeys_from_spec() -> bool {
        true
    }

    open spec fn from_spec(value: EngineFailure) -> Self {
        Error::Xmodits(value)
    }
}

impl From<APIError> for Error {
    /// Wrap a caller-side failure.
    fn from(value: APIError) -> (r: Self) {
        Error::APIError(value)
    }
}

impl vstd::std_specs::convert::FromSpecImpl<APIError> for Error {
    open spec fn obeys_from_spec() -> bool {
        true
    }

    open spec fn from_spec(value: APIError) -> Self {
        Error::APIError(value)
    }
}

} // verus!
