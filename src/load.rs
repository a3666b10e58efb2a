use crate::error::{ConfigFileError, DecodeError};
use crate::format::{
    ascii_lower, classify_path, extension_of, is_supported_word, lower_seq, tag_of_extension,
    tag_of_path, FormatTag,
};
use vstd::prelude::*;

verus! {

/// What the loader does with a path.
#[derive(Clone, Copy, Debug, PartialEq, Eq, Structural)]
pub enum LoadPlan {
    /// Fail with `UnsupportedFormat` before touching the file system.
    Reject,
    /// Read the whole file, then decode its content in the format. A failure
    /// to open or read the file is told apart from a failure to decode it.
    Decode(FormatTag),
}

/// The plan for a file of the given format: an unknown format is rejected,
/// a known one is read in full and then decoded.
pub open spec fn plan_for(tag: FormatTag) -> LoadPlan {
    match tag {
        FormatTag::Unknown => LoadPlan::Reject,
        _ => LoadPlan::Decode(tag),
    }
}

/// Decides what to do for a file of the given format.
pub fn plan_for_format(tag: FormatTag) -> (r: LoadPlan)
    ensures
        r == plan_for(tag),
{
    match tag {
        FormatTag::Unknown => LoadPlan::Reject,
        _ => LoadPlan::Decode(tag),
    }
}

/// Decides what to do for a path, from its extension alone.
pub fn plan_load(path: &str) -> (r: LoadPlan)
    ensures
        r == plan_for(tag_of_path(path@)),
        !path@.contains('.') ==> r == LoadPlan::Reject,
{
    plan_for_format(classify_path(path))
}

/// The load's result when the plan rejects the path.
pub open spec fn rejected<T>() -> Result<T, ConfigFileError> {
    Err(ConfigFileError::UnsupportedFormat)
}

/// The failure of a rejected path, for a load that yields a `T`.
pub fn reject<T>() -> (r: Result<T, ConfigFileError>)
    ensures
        r == rejected::<T>(),
{
    Err(ConfigFileError::UnsupportedFormat)
}

/// What reading the whole file leaves of the load: the content to decode,
/// or a `FileAccess` failure, whether the open or the read failed.
pub open spec fn access_outcome<S>(r: Result<S, std::io::Error>) -> Result<S, ConfigFileError> {
    match r {
        Ok(s) => Ok(s),
        Err(e) => Err(ConfigFileError::FileAccess(e)),
    }
}

/// Turns the result of reading the whole file into the load's terms.
pub fn after_access<S>(r: Result<S, std::io::Error>) -> (o: Result<S, ConfigFileError>)
    ensures
        o == access_outcome(r),
{
    match r {
        Ok(s) => Ok(s),
        Err(e) => Err(ConfigFileError::FileAccess(e)),
    }
}

/// The load's result from the decoder's result.
pub open spec fn decode_outcome<T>(r: Result<T, DecodeError>) -> Result<T, ConfigFileError> {
    match r {
        Ok(v) => Ok(v),
        Err(e) => Err(ConfigFileError::spec_from_decode(e)),
    }
}

/// Turns the decoder's result into the load's result.
pub fn after_decode<T>(r: Result<T, DecodeError>) -> (o: Result<T, ConfigFileError>)
    ensures
        o == decode_outcome(r),
{
    match r {
        Ok(v) => Ok(v),
        Err(e) => Err(ConfigFileError::from_decode(e)),
    }
}

/// A path whose extension is absent, or is none of "toml", "json", "yaml",
/// "yml" and "xml" in any ASCII case, is rejected before the file system is
/// touched, and the load fails with `UnsupportedFormat`.
pub proof fn lemma_unsupported_extension_rejected<T>(path: Seq<char>)
    requires
        extension_of(path) is None || !is_supported_word(lower_seq(extension_of(path)->0)),
    ensures
        plan_for(tag_of_path(path)) == LoadPlan::Reject,
        rejected::<T>() is Err,
        rejected::<T>()->Err_0 is UnsupportedFormat,
{
}

/// A path with a supported extension is always read in full before any
/// decoder runs, and a failure to open or read the file ends the load with
/// `FileAccess`, never with `UnsupportedFormat` or a parse error.
pub proof fn lemma_missing_file_is_file_access<S>(path: Seq<char>, e: std::io::Error)
    requires
        extension_of(path) is Some,
        is_supported_word(lower_seq(extension_of(path)->0)),
    ensures
        plan_for(tag_of_path(path)) == LoadPlan::Decode(tag_of_path(path)),
        tag_of_path(path) != FormatTag::Unknown,
        access_outcome::<S>(Err(e)) == Err::<S, ConfigFileError>(ConfigFileError::FileAccess(e)),
{
}

/// A decoder's failure ends the load with the parse error of that decoder's
/// format, never with `FileAccess` or `UnsupportedFormat`.
pub proof fn lemma_decode_failure_kind<T>(e: DecodeError)
    ensures
        decode_outcome::<T>(Err(e)) is Err,
        decode_outcome::<T>(Err(e))->Err_0.parse_format() == e.format(),
        e.format() != FormatTag::Unknown,
        !(decode_outcome::<T>(Err(e))->Err_0 is FileAccess),
        !(decode_outcome::<T>(Err(e))->Err_0 is UnsupportedFormat),
{
}

/// Extensions that differ only in ASCII case name the same format and get
/// the same plan.
pub proof fn lemma_extension_case_ignored(a: Seq<char>, b: Seq<char>)
    requires
        a.len() == b.len(),
        forall|i: int| 0 <= i < a.len() ==> ascii_lower(#[trigger] a[i]) == ascii_lower(b[i]),
    ensures
        tag_of_extension(Some(a)) == tag_of_extension(Some(b)),
        plan_for(tag_of_extension(Some(a))) == plan_for(tag_of_extension(Some(b))),
{
    assert(lower_seq(a) =~= lower_seq(b));
}

} // verus!
