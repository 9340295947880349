//! The path table as JSON text.
//!
//! The text is written by `serde_json`. The library does not say what the
//! text is; it gives the text a name, so that contracts can say whose text a
//! string is.

use vstd::prelude::*;
use crate::records::strings_view;
use crate::tracer::Tracer;

verus! {

/// The error type of `serde_json`, `serde_json::Error`. Declared so that a
/// result can carry it; nothing is claimed of its values.
#[verifier::external_type_specification]
#[verifier::external_body]
pub struct ExJsonError(serde_json::Error);

/// The JSON text that `serde_json::to_string` gives for a list of strings,
/// or `None` where it gives an error.
pub uninterp spec fn json_of_strings(strings: Seq<Seq<char>>) -> Option<Seq<char>>;

/// Why a table could not be written as text.
#[derive(Debug)]
pub enum EncodeError {
    /// `serde_json` gave an error.
    Json(serde_json::Error),
}

/// Calls `serde_json::to_string` on a list of strings. Trusted: the result
/// is the text, or the error, that the function gives for these strings;
/// the same strings give the same result.
#[verifier::external_body]
fn strings_to_json(strings: &Vec<String>) -> (r: Result<String, serde_json::Error>)
    ensures
        match r {
            Ok(text) => json_of_strings(strings_view(strings@)) == Some(text@),
            Err(_) => json_of_strings(strings_view(strings@)) is None,
        },
{
    serde_json::to_string(strings)
}

/// Turns the outcome of a `serde_json` call into the outcome of the
/// library: the text as it is, an error wrapped.
pub fn encoded(outcome: Result<String, serde_json::Error>) -> (r: Result<String, EncodeError>)
    ensures
        match outcome {
            Ok(text) => r == Ok::<String, EncodeError>(text),
            Err(e) => r == Err::<String, EncodeError>(EncodeError::Json(e)),
        },
{
    match outcome {
        Ok(text) => Ok(text),
        Err(e) => Err(EncodeError::Json(e)),
    }
}

impl Tracer {
    /// The path table as JSON text: an array of the interned paths, entry
    /// `n` being the path of `PathId(n)`.
    pub fn trace_paths_json(&self) -> (r: Result<String, EncodeError>)
        ensures
            match r {
                Ok(text) => json_of_strings(self@.path_list) == Some(text@),
                Err(_) => json_of_strings(self@.path_list) is None,
            },
    {
        encoded(strings_to_json(self.path_list()))
    }
}

} // verus!
