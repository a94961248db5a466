//! The computing side of the file-staging operation: decoding the base64
//! content of a file record and naming the staging directory.
//!
//! Writing the decoded bytes under the cache directory and asking the host
//! to open the staged file are the surrounding application's work.

use vstd::prelude::*;

use crate::model::FileData;

verus! {

/// The bytes that standard base64 decoding of `s` yields, or nothing where
/// `s` is not well-formed base64.
pub uninterp spec fn base64_decoding(s: Seq<char>) -> Option<Seq<u8>>;

/// Relies on base64's `Engine::decode` with the `STANDARD` engine: the
/// result depends on the input characters alone, and decoding fails exactly
/// on malformed base64.
#[verifier::external_body]
fn decode_standard_base64(s: &str) -> (r: Option<Vec<u8>>)
    ensures
        r matches Some(v) ==> base64_decoding(s@) == Some(v@),
        r is None <==> base64_decoding(s@) is None,
{
    base64::Engine::decode(&base64::engine::general_purpose::STANDARD, s).ok()
}

/// Decodes the base64 content of a file record into the bytes to stage;
/// yields nothing exactly where the content is not well-formed base64.
pub fn decode_file_content(file: &FileData) -> (r: Option<Vec<u8>>)
    ensures
        r matches Some(v) ==> base64_decoding(file.content@) == Some(v@),
        r is None <==> base64_decoding(file.content@) is None,
{
    decode_standard_base64(file.content.as_str())
}

/// The name of the directory under the cache directory where staged files
/// are written.
pub fn staging_dir_name() -> (r: String)
    ensures
        r@ == "andromeda_temp_files"@,
{
    "andromeda_temp_files".to_string()
}

} // verus!
