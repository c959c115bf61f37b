//! The extraction configuration and its builder.
//!
//! One configuration describes how samples are named and exported for one
//! run. It is built once per invocation from optional caller-supplied
//! overrides layered onto the documented defaults, and never mutated after
//! construction.

use vstd::prelude::*;
use crate::error::APIError;
use crate::text::{ascii_lower, lower_chars};

verus! {

/// Output audio format for exported samples.
#[derive(Debug, Clone, Copy, PartialEq, Eq, Structural)]
pub enum Format {
    Wav,
    Aiff,
    /// Selected by the token `8svx`.
    Iff,
    Its,
    S3i,
    Raw,
}

/// The default zero-padding width for numeric sample indices.
pub const DEFAULT_INDEX_PADDING: u8 = 2;

/// One extraction configuration: how samples are named and exported for
/// one run. Immutable once built; shared read-only across all per-path
/// calls within one batch.
#[derive(Debug, Clone, Copy, PartialEq, Eq, Structural)]
pub struct RipConfig {
    /// Name samples by their number alone.
    pub index_only: bool,
    /// Zero-padding width for numeric indices.
    pub index_padding: u8,
    /// Preserve the raw sample number.
    pub index_raw: bool,
    /// Name samples in lower case.
    pub lower: bool,
    /// Name samples in upper case.
    pub upper: bool,
    /// Output audio format for exported samples.
    pub format: Format,
    /// Place each module's samples in their own subdirectory.
    pub self_contained: bool,
}

/// The format a lower-cased token selects, if any.
pub open spec fn format_of_token(t: Seq<char>) -> Option<Format> {
    if t == "wav"@ {
        Some(Format::Wav)
    } else if t == "aiff"@ {
        Some(Format::Aiff)
    } else if t == "8svx"@ {
        Some(Format::Iff)
    } else if t == "its"@ {
        Some(Format::Its)
    } else if t == "s3i"@ {
        Some(Format::S3i)
    } else if t == "raw"@ {
        Some(Format::Raw)
    } else {
        None
    }
}

/// Select the output format: an absent override defaults to `wav`; a given
/// token is matched ASCII case-insensitively against the fixed enumeration,
/// and an unrecognized token fails, carried verbatim.
pub fn get_format(format: Option<String>) -> (r: Result<Format, APIError>)
    ensures
        match format {
            Option::None => r == Result::<Format, APIError>::Ok(Format::Wav),
            Option::Some(token) => match format_of_token(lower_chars(token@)) {
                Option::Some(f) => r == Result::<Format, APIError>::Ok(f),
                Option::None => r == Result::<Format, APIError>::Err(
                    APIError::UnrecognizedFormat(token),
                ),
            },
        },
{
    match format {
        Option::None => Ok(Format::Wav),
        Option::Some(token) => {
            let lowered = ascii_lower(token.as_str());
            if lowered == String::from_str("wav") {
                Ok(Format::Wav)
            } else if lowered == String::from_str("aiff") {
                Ok(Format::Aiff)
            } else if lowered == String::from_str("8svx") {
                Ok(Format::Iff)
            } else if lowered == String::from_str("its") {
                Ok(Format::Its)
            } else if lowered == String::from_str("s3i") {
                Ok(Format::S3i)
            } else if lowered == String::from_str("raw") {
                Ok(Format::Raw)
            } else {
                Err(APIError::UnrecognizedFormat(token))
            }
        },
    }
}

/// What configuration building yields for the given overrides: the format
/// token decides first (an unrecognized one fails, carried verbatim), then
/// the index-padding width (one that does not fit in a byte is rejected,
/// never truncated). Absent boolean overrides default to `false`; an absent
/// padding defaults to [`DEFAULT_INDEX_PADDING`]. When `upper` and `lower`
/// are both set, lower case wins: the two flags are semantically exclusive
/// and this is the documented deterministic tie-break.
pub open spec fn config_result(
    index_raw: Option<bool>,
    index_padding: Option<usize>,
    index_only: Option<bool>,
    with_folder: Option<bool>,
    upper: Option<bool>,
    lower: Option<bool>,
    format: Option<String>,
) -> Result<RipConfig, APIError> {
    let fmt = match format {
        Option::None => Result::<Format, APIError>::Ok(Format::Wav),
        Option::Some(token) => match format_of_token(lower_chars(token@)) {
            Option::Some(f) => Ok(f),
            Option::None => Err(APIError::UnrecognizedFormat(token)),
        },
    };
    match fmt {
        Result::Err(e) => Err(e),
        Result::Ok(f) => match index_padding {
            Option::Some(w) if w > 255 => Err(APIError::PaddingTooWide(w)),
            _ => {
                let lower_flag = lower == Some(true);
                Ok(
                    RipConfig {
                        index_only: index_only == Some(true),
                        index_padding: match index_padding {
                            Option::Some(w) => w as u8,
                            Option::None => DEFAULT_INDEX_PADDING,
                        },
                        index_raw: index_raw == Some(true),
                        lower: lower_flag,
                        upper: upper == Some(true) && !lower_flag,
                        format: f,
                        self_contained: with_folder == Some(true),
                    },
                )
            },
        },
    }
}

/// Build one extraction configuration from optional caller overrides; pure
/// construction, no side effects. See [`config_result`] for the exact
/// defaulting, rejection and tie-break rules.
pub fn build_config(
    index_raw: Option<bool>,
    index_padding: Option<usize>,
    index_only: Option<bool>,
    with_folder: Option<bool>,
    upper: Option<bool>,
    lower: Option<bool>,
    format: Option<String>,
) -> (r: Result<RipConfig, APIError>)
    ensures
        r == config_result(index_raw, index_padding, index_only, with_folder, upper, lower, format),
{
    let f = match get_format(format) {
        Ok(f) => f,
        Err(e) => {
            return Err(e);
        },
    };
    let padding: u8 = match index_padding {
        Option::Some(w) => {
            if w > 255 {
                return Err(APIError::PaddingTooWide(w));
            }
            w as u8
        },
        Option::None => DEFAULT_INDEX_PADDING,
    };
    let lower_flag = lower.unwrap_or(false);
    Ok(
        RipConfig {
            index_only: index_only.unwrap_or(false),
            index_padding: padding,
            index_raw: index_raw.unwrap_or(false),
            lower: lower_flag,
            upper: upper.unwrap_or(false) && !lower_flag,
            format: f,
            self_contained: with_folder.unwrap_or(false),
        },
    )
}

/// Format selection is a stable bijection on the six tokens: each maps to
/// its own distinct configuration value, and matching folds case, so a
/// token in capitals selects the same format as its lower-case spelling.
pub proof fn lemma_format_tokens_distinct()
    ensures
        format_of_token("wav"@) == Some(Format::Wav),
        format_of_token("aiff"@) == Some(Format::Aiff),
        format_of_token("8svx"@) == Some(Format::Iff),
        format_of_token("its"@) == Some(Format::Its),
        format_of_token("s3i"@) == Some(Format::S3i),
        format_of_token("raw"@) == Some(Format::Raw),
        lower_chars("WAV"@) == "wav"@,
{
    reveal_strlit("wav");
    reveal_strlit("aiff");
    reveal_strlit("8svx");
    reveal_strlit("its");
    reveal_strlit("s3i");
    reveal_strlit("raw");
    reveal_strlit("WAV");
    assert("8svx"@[0] != "aiff"@[0]);
    assert("its"@[0] != "wav"@[0]);
    assert("s3i"@[0] != "wav"@[0]);
    assert("s3i"@[0] != "its"@[0]);
    assert("raw"@[0] != "wav"@[0]);
    assert("raw"@[0] != "its"@[0]);
    assert("raw"@[0] != "s3i"@[0]);
    assert(lower_chars("WAV"@) =~= "wav"@);
}

} // verus!
