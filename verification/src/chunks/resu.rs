use crate::errors::LocalError;
use crate::template::{entry_of, named, render_entry, upon_rendered_text, values_view};
use crate::output::{OutputEntry, Section};
use vstd::prelude::*;

verus! {

/// What zlib decompression of the bytes gives, read as UTF-8 text: the text,
/// or the message of the error met (a corrupt stream, or text that is not
/// UTF-8).
pub uninterp spec fn zlib_inflated_text(data: Seq<u8>) -> Result<Seq<char>, Seq<char>>;

/// Decompresses zlib data into text with `flate2::read::ZlibDecoder` and
/// `std::io::Read::read_to_string`, turning an error into its message.
/// Stated: the outcome is `zlib_inflated_text` of the bytes; what the text or
/// the message is, is left to flate2.
#[verifier::external_body]
fn inflate_zlib_text(chunk_data: &[u8]) -> (inflated: Result<String, String>)
    ensures
        match inflated {
            Ok(text) => zlib_inflated_text(chunk_data@) == Ok::<Seq<char>, Seq<char>>(text@),
            Err(message) => zlib_inflated_text(chunk_data@) == Err::<Seq<char>, Seq<char>>(
                message@,
            ),
        },
{
    let mut zlib = flate2::read::ZlibDecoder::new(chunk_data);
    let mut text = String::new();
    match std::io::Read::read_to_string(&mut zlib, &mut text) {
        Ok(_) => Ok(text),
        Err(e) => Err(e.to_string()),
    }
}

/// The JSON text of a `RESU` chunk from the outcome of decompressing it: the
/// text, or `InvalidZipDataFound` with the error's message.
pub fn resu_json_from_inflated(inflated: Result<String, String>) -> (result: Result<String, LocalError>)
    ensures
        match inflated {
            Ok(text) => result matches Ok(json) && json@ == text@,
            Err(message) => result matches Err(LocalError::InvalidZipDataFound(m)) && m@ == message@,
        },
{
    match inflated {
        Ok(text) => Ok(text),
        Err(message) => Err(LocalError::InvalidZipDataFound(message)),
    }
}

/// Decodes a `RESU` chunk: zlib-compressed JSON text.
pub fn get_metadata(chunk_data: Vec<u8>) -> (result: Result<String, LocalError>)
    ensures
        match zlib_inflated_text(chunk_data@) {
            Ok(text) => result matches Ok(json) && json@ == text,
            Err(message) => result matches Err(LocalError::InvalidZipDataFound(m)) && m@ == message,
        },
{
    resu_json_from_inflated(inflate_zlib_text(chunk_data.as_slice()))
}

/// The template of a `RESU` chunk's report entry.
pub const RESU_TEMPLATE: &'static str = "\n-------------\nLogic Pro (ResU) Chunk Details:\n-------------\n{{ resu_json }}";

/// The report entry of a `RESU` chunk: `InvalidZipDataFound` with the
/// decompression error, or the JSON text rendered under `Optional`.
pub open spec fn resu_entry_is(data: Seq<u8>, result: Result<OutputEntry, LocalError>) -> bool {
    match zlib_inflated_text(data) {
        Ok(t) => entry_of(Section::Optional, upon_rendered_text(RESU_TEMPLATE@, seq![("resu_json"@, t)]), result),
        Err(message) => result matches Err(LocalError::InvalidZipDataFound(m)) && m@ == message,
    }
}

/// Decompresses a `RESU` chunk and renders it as its report entry.
pub fn resu_entry(chunk_data: Vec<u8>) -> (result: Result<OutputEntry, LocalError>)
    ensures
        resu_entry_is(chunk_data@, result),
{
    match get_metadata(chunk_data) {
        Ok(json) => {
            let ghost t = json@;
            let values = vec![named("resu_json", json)];
            assert(values_view(values@) =~= seq![("resu_json"@, t)]);
            render_entry(Section::Optional, RESU_TEMPLATE, &values)
        },
        Err(e) => Err(e),
    }
}

} // verus!
