//! Single-path extraction entry points: the extension pre-check gate and
//! the validate-then-configure sequence that precedes one engine call.
//!
//! The engine call itself is filesystem work and belongs to the embedding
//! layer; it runs [`prepare_rip`] first, invokes the engine only on success,
//! and hands the engine's outcome back to [`finish_rip`].

use vstd::prelude::*;
use crate::config::{build_config, config_result, RipConfig};
use crate::error::{APIError, EngineFailure, Error, ErrorKind};
use crate::error::{api_kind, api_msg, error_kind, error_msg, unrecognized_extension_msg};
use crate::error::{xmodits_kind, xmodits_msg};
use crate::text::{ascii_lower, lower_chars};

verus! {

/// `i` is the position of the dot that starts the extension of path `p`:
/// a dot in the last path component, not the component's first character,
/// with no later dot.
pub open spec fn is_ext_dot(p: Seq<char>, i: int) -> bool {
    &&& 1 <= i < p.len()
    &&& p[i] == '.'
    &&& p[i - 1] != '/'
    &&& forall|j: int| i < j < p.len() ==> p[j] != '.' && p[j] != '/'
}

/// The path's file extension: what follows the last dot of the last
/// path component, provided that dot is not the component's first
/// character; empty when there is no such dot.
pub open spec fn ext_of(p: Seq<char>) -> Seq<char> {
    if exists|i: int| is_ext_dot(p, i) {
        p.subrange((choose|i: int| is_ext_dot(p, i)) + 1, p.len() as int)
    } else {
        Seq::empty()
    }
}

/// At most one position can start the extension.
proof fn lemma_ext_dot_unique(p: Seq<char>, i: int, j: int)
    requires
        is_ext_dot(p, i),
        is_ext_dot(p, j),
    ensures
        i == j,
{
    if i < j {
        assert(p[j] == '.');
    }
    if j < i {
        assert(p[i] == '.');
    }
}

/// Extract the path's file extension; see [`ext_of`] for the rule.
pub fn extension_of(path: &str) -> (r: String)
    ensures
        r@ == ext_of(path@),
{
    let n = path.unicode_len();
    let mut i: usize = n;
    while i > 0
        invariant
            n == path@.len(),
            i <= n,
            forall|j: int| i <= j < n ==> path@[j] != '.' && path@[j] != '/',
        decreases i,
    {
        let c = path.get_char(i - 1);
        if c == '/' {
            proof {
                assert forall|k: int| !is_ext_dot(path@, k) by {
                    if is_ext_dot(path@, k) {
                        if k >= i {
                            assert(path@[k] != '.');
                        } else if k == i - 1 {
                            assert(path@[k] == '.');
                        } else {
                            assert(path@[i - 1] != '/');
                        }
                    }
                }
            }
            return String::new();
        }
        if c == '.' {
            if i >= 2 {
                let b = path.get_char(i - 2);
                if b != '/' {
                    proof {
                        assert(is_ext_dot(path@, i - 1));
                        let w = choose|k: int| is_ext_dot(path@, k);
                        lemma_ext_dot_unique(path@, w, i - 1);
                    }
                    let e = path.substring_char(i, n);
                    return String::from_str(e);
                }
            }
            // The dot is the first character of the last component:
            // no extension.
            proof {
                assert forall|k: int| !is_ext_dot(path@, k) by {
                    if is_ext_dot(path@, k) {
                        if k >= i {
                            assert(path@[k] != '.');
                        } else if k == i - 1 {
                            assert(path@[k - 1] != '/');
                        } else {
                            assert(path@[i - 1] != '.');
                        }
                    }
                }
            }
            return String::new();
        }
        i = i - 1;
    }
    proof {
        assert forall|k: int| !is_ext_dot(path@, k) by {
            if is_ext_dot(path@, k) {
                assert(path@[k] != '.');
            }
        }
    }
    String::new()
}

/// Whether a lower-cased extension is in the fixed supported set of
/// tracker-module formats.
pub open spec fn is_supported_ext(e: Seq<char>) -> bool {
    ||| e == "it"@
    ||| e == "xm"@
    ||| e == "s3m"@
    ||| e == "mod"@
    ||| e == "umx"@
    ||| e == "mptm"@
}

/// Test a lower-cased extension against the supported set.
pub fn supported_extension(ext: &str) -> (r: bool)
    ensures
        r == is_supported_ext(ext@),
{
    let e = String::from_str(ext);
    e == String::from_str("it") || e == String::from_str("xm") || e == String::from_str("s3m")
        || e == String::from_str("mod") || e == String::from_str("umx") || e == String::from_str(
        "mptm",
    )
}

/// Whether a path passes the extension pre-check: with strict mode off it
/// always does; with strict mode on, its lower-cased extension must be in
/// the supported set.
pub open spec fn passes_precheck(path: Seq<char>, strict: bool) -> bool {
    !strict || is_supported_ext(lower_chars(ext_of(path)))
}

/// The extension pre-check gate: with strict mode on, a path whose
/// lower-cased extension is outside the supported set is rejected, carrying
/// exactly that lower-cased extension; with strict mode off every path
/// passes, and the engine itself is left to reject what it cannot read.
pub fn verify_extension(path: &String, strict: bool) -> (r: Result<(), APIError>)
    ensures
        r is Ok <==> passes_precheck(path@, strict),
        !passes_precheck(path@, strict) ==> r == Result::<(), APIError>::Err(
            APIError::UnrecognizedFileExtension(r->Err_0->UnrecognizedFileExtension_0),
        ) && r->Err_0->UnrecognizedFileExtension_0@ == lower_chars(ext_of(path@)),
{
    if !strict {
        return Ok(());
    }
    let ext = extension_of(path.as_str());
    let lowered = ascii_lower(ext.as_str());
    if supported_extension(lowered.as_str()) {
        Ok(())
    } else {
        Err(APIError::UnrecognizedFileExtension(lowered))
    }
}

/// Validate one path and build the extraction configuration, exactly as a
/// single extraction does before the engine is invoked: the extension
/// pre-check gate decides first (strict mode defaults to on), then the
/// configuration is built from the overrides. `Ok` is returned if and only
/// if both steps accept, and the engine is to be invoked only then.
pub fn prepare_rip(
    path: &String,
    index_raw: Option<bool>,
    index_padding: Option<usize>,
    index_only: Option<bool>,
    with_folder: Option<bool>,
    upper: Option<bool>,
    lower: Option<bool>,
    strict: Option<bool>,
    format: Option<String>,
) -> (r: Result<RipConfig, Error>)
    ensures
        !passes_precheck(path@, strict != Some(false)) ==> (match r {
            Result::Err(Error::APIError(APIError::UnrecognizedFileExtension(e))) => e@
                == lower_chars(ext_of(path@)),
            _ => false,
        }),
        passes_precheck(path@, strict != Some(false)) ==> r == (match config_result(
            index_raw,
            index_padding,
            index_only,
            with_folder,
            upper,
            lower,
            format,
        ) {
            Result::Ok(c) => Result::<RipConfig, Error>::Ok(c),
            Result::Err(a) => Result::<RipConfig, Error>::Err(Error::APIError(a)),
        }),
        ({
            let strict_on = strict != Some(false);
            forall|outcome: Result<(), EngineFailure>|
                #[trigger] single_outcome(
                    path@,
                    strict_on,
                    config_result(
                        index_raw,
                        index_padding,
                        index_only,
                        with_folder,
                        upper,
                        lower,
                        format,
                    ),
                    outcome,
                ) == (match r {
                    Result::Err(e) => Some((error_kind(e), error_msg(e))),
                    Result::Ok(_) => match outcome {
                        Result::Ok(()) => None::<(ErrorKind, Seq<char>)>,
                        Result::Err(f) => Some((xmodits_kind(f), xmodits_msg(f))),
                    },
                })
        }),
{
    let strict_on = match strict {
        Option::Some(b) => b,
        Option::None => true,
    };
    match verify_extension(path, strict_on) {
        Ok(()) => {},
        Err(e) => {
            return Err(Error::APIError(e));
        },
    }
    match build_config(index_raw, index_padding, index_only, with_folder, upper, lower, format) {
        Ok(c) => Ok(c),
        Err(a) => Err(Error::APIError(a)),
    }
}

/// Interpret the engine's outcome for one path: success stands, and a
/// reported failure is wrapped for classification.
pub fn finish_rip(outcome: Result<(), EngineFailure>) -> (r: Result<(), Error>)
    ensures
        match outcome {
            Result::Ok(()) => r is Ok,
            Result::Err(f) => r == Result::<(), Error>::Err(Error::Xmodits(f)),
        },
{
    match outcome {
        Ok(()) => Ok(()),
        Err(f) => Err(Error::Xmodits(f)),
    }
}

/// The classification one single-path extraction reports, as a function of
/// the call's inputs and of the outcome the engine reports when invoked:
/// `None` is success, otherwise the stable category and message. The
/// pre-check gate decides first (the engine is never consulted for a path
/// it rejects), then configuration building, then the engine's own report.
pub open spec fn single_outcome(
    path: Seq<char>,
    strict: bool,
    cfg: Result<RipConfig, APIError>,
    outcome: Result<(), EngineFailure>,
) -> Option<(ErrorKind, Seq<char>)> {
    if !passes_precheck(path, strict) {
        Some(
            (
                ErrorKind::UnrecognizedFileExtension,
                unrecognized_extension_msg(lower_chars(ext_of(path))),
            ),
        )
    } else {
        match cfg {
            Result::Err(a) => Some((api_kind(a), api_msg(a))),
            Result::Ok(_) => match outcome {
                Result::Ok(()) => None,
                Result::Err(f) => Some((xmodits_kind(f), xmodits_msg(f))),
            },
        }
    }
}

/// Idempotence of single-path extraction: two calls on the same input with
/// the same configuration and destination classify identically, provided
/// the engine reports the same outcome both times (that is, no external
/// filesystem state changed between the calls).
pub proof fn lemma_single_dump_idempotent(
    path: Seq<char>,
    strict: bool,
    cfg: Result<RipConfig, APIError>,
    first: Result<(), EngineFailure>,
    second: Result<(), EngineFailure>,
)
    requires
        first == second,
    ensures
        single_outcome(path, strict, cfg, first) == single_outcome(path, strict, cfg, second),
{
}

} // verus!
