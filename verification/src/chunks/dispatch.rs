use crate::chunks::acid::{acid_entry, acid_entry_is};
use crate::chunks::bext::{bext_entry, bext_entry_is};
use crate::chunks::cart::{cart_entry, cart_entry_is};
use crate::chunks::comm::{comm_entry, comm_entry_is};
use crate::chunks::comt::{comt_entry, comt_entry_is};
use crate::chunks::cue::{cue_entry, cue_entry_is};
use crate::chunks::extra::{extra_entry, extra_entry_is};
use crate::chunks::fact::{fact_entry, fact_entry_is};
use crate::chunks::fmt::{extension_fits, fmt_entry, fmt_entry_is};
use crate::chunks::fver::{fver_entry, fver_entry_is};
use crate::chunks::list::{list_entry, list_entry_is};
use crate::chunks::mark::{mark_entry, mark_entry_is};
use crate::chunks::resu::{resu_entry, resu_entry_is};
use crate::chunks::smpl::{smpl_entry, smpl_entry_is, MANUFACTURER_ID_LENGTH_IN_BYTES};
use crate::chunks::sndm::{sndm_entry, sndm_entry_is};
use crate::chunks::text::{text_entry, text_entry_is, EMPTY_TEMPLATE};
use crate::chunks::umid::{umid_entry, umid_entry_is};
use crate::errors::LocalError;
use crate::output::{OutputEntry, Section};
use crate::strings::{ascii_lower, ascii_lowercase, text_equals};
use crate::template::{entry_of, named, render_entry, upon_rendered_text, values_view};
use vstd::prelude::*;

verus! {

/// The template of the entry of a chunk whose data is not read.
pub const SKIPPED_TEMPLATE: &'static str = "{{ chunk_id }}";

/// The decoder a chunk ID selects, its letters taken in lower case.
#[derive(Debug, Clone, Copy, PartialEq, Eq, Structural)]
pub enum EntryKind {
    Skipped,
    Fmt,
    Fact,
    Comm,
    Comt,
    Mark,
    Bext,
    Cart,
    Acid,
    Cue,
    List,
    Smpl,
    Sndm,
    Fver,
    Umid,
    Resu,
    Id3,
    Name,
    Author,
    Copyright,
    Annotation,
    Extra,
}

/// The decoder of a lower-case chunk ID: the audio data (`data`, `ssnd`)
/// is skipped; IDs without a decoder are `Extra`.
pub open spec fn kind_of_lower_id(id: Seq<char>) -> EntryKind {
    if id == "data"@ || id == "ssnd"@ {
        EntryKind::Skipped
    } else if id == "fmt "@ {
        EntryKind::Fmt
    } else if id == "fact"@ {
        EntryKind::Fact
    } else if id == "comm"@ {
        EntryKind::Comm
    } else if id == "comt"@ {
        EntryKind::Comt
    } else if id == "mark"@ {
        EntryKind::Mark
    } else if id == "bext"@ {
        EntryKind::Bext
    } else if id == "cart"@ {
        EntryKind::Cart
    } else if id == "acid"@ {
        EntryKind::Acid
    } else if id == "cue "@ {
        EntryKind::Cue
    } else if id == "list"@ {
        EntryKind::List
    } else if id == "smpl"@ {
        EntryKind::Smpl
    } else if id == "sndm"@ {
        EntryKind::Sndm
    } else if id == "fver"@ {
        EntryKind::Fver
    } else if id == "umid"@ {
        EntryKind::Umid
    } else if id == "resu"@ {
        EntryKind::Resu
    } else if id == "id3 "@ {
        EntryKind::Id3
    } else if id == "name"@ {
        EntryKind::Name
    } else if id == "auth"@ {
        EntryKind::Author
    } else if id == "(c) "@ {
        EntryKind::Copyright
    } else if id == "anno"@ {
        EntryKind::Annotation
    } else {
        EntryKind::Extra
    }
}

/// The decoder a chunk ID selects, in any letter case.
pub open spec fn entry_kind(id: Seq<char>) -> EntryKind {
    kind_of_lower_id(ascii_lower(id))
}

/// The decoder of a lower-case chunk ID.
fn lower_id_kind(id: &String) -> (kind: EntryKind)
    ensures
        kind == kind_of_lower_id(id@),
{
    if text_equals(id, "data") || text_equals(id, "ssnd") {
        EntryKind::Skipped
    } else if text_equals(id, "fmt ") {
        EntryKind::Fmt
    } else if text_equals(id, "fact") {
        EntryKind::Fact
    } else if text_equals(id, "comm") {
        EntryKind::Comm
    } else if text_equals(id, "comt") {
        EntryKind::Comt
    } else if text_equals(id, "mark") {
        EntryKind::Mark
    } else if text_equals(id, "bext") {
        EntryKind::Bext
    } else if text_equals(id, "cart") {
        EntryKind::Cart
    } else if text_equals(id, "acid") {
        EntryKind::Acid
    } else if text_equals(id, "cue ") {
        EntryKind::Cue
    } else if text_equals(id, "list") {
        EntryKind::List
    } else if text_equals(id, "smpl") {
        EntryKind::Smpl
    } else if text_equals(id, "sndm") {
        EntryKind::Sndm
    } else if text_equals(id, "fver") {
        EntryKind::Fver
    } else if text_equals(id, "umid") {
        EntryKind::Umid
    } else if text_equals(id, "resu") {
        EntryKind::Resu
    } else if text_equals(id, "id3 ") {
        EntryKind::Id3
    } else if text_equals(id, "name") {
        EntryKind::Name
    } else if text_equals(id, "auth") {
        EntryKind::Author
    } else if text_equals(id, "(c) ") {
        EntryKind::Copyright
    } else if text_equals(id, "anno") {
        EntryKind::Annotation
    } else {
        EntryKind::Extra
    }
}

/// The decoder a chunk ID selects, in any letter case.
pub fn get_entry_kind(chunk_id: &String) -> (kind: EntryKind)
    ensures
        kind == entry_kind(chunk_id@),
{
    let lower = ascii_lowercase(chunk_id.as_str());
    lower_id_kind(&lower)
}

/// A floating point field of a chunk: its raw bytes, and how they encode
/// the number.
#[derive(Debug, Clone, PartialEq, Eq)]
pub enum FloatField {
    /// A 32-bit IEEE float, little-endian.
    LittleEndianSingle(Vec<u8>),
    /// An 80-bit IEEE extended precision float, big-endian.
    BigEndianExtended(Vec<u8>),
}

/// The view of a floating point field: whether it is an extended float,
/// and its bytes.
pub open spec fn float_field_view(f: FloatField) -> (bool, Seq<u8>) {
    match f {
        FloatField::LittleEndianSingle(b) => (false, b@),
        FloatField::BigEndianExtended(b) => (true, b@),
    }
}

/// The floating point fields of a chunk whose report shows them, in order:
/// an ACID chunk's second mystery value (bytes 8 to 12) and tempo (bytes 20
/// to 24), and a COMM chunk's sample rate (bytes 8 to 18); none for a chunk
/// too short to hold them or of another kind.
pub open spec fn float_fields(id: Seq<char>, data: Seq<u8>) -> Seq<(bool, Seq<u8>)> {
    if entry_kind(id) == EntryKind::Acid && data.len() >= 24 {
        seq![(false, data.subrange(8, 12)), (false, data.subrange(20, 24))]
    } else if entry_kind(id) == EntryKind::Comm && data.len() >= 18 {
        seq![(true, data.subrange(8, 18))]
    } else {
        Seq::empty()
    }
}

fn byte_range(data: &Vec<u8>, start: usize, end: usize) -> (bytes: Vec<u8>)
    requires
        start <= end <= data@.len(),
    ensures
        bytes@ == data@.subrange(start as int, end as int),
{
    let mut bytes: Vec<u8> = Vec::new();
    let mut i = start;
    while i < end
        invariant
            start <= i <= end <= data@.len(),
            bytes@ == data@.subrange(start as int, i as int),
        decreases end - i,
    {
        bytes.push(data[i]);
        i = i + 1;
        assert(bytes@ =~= data@.subrange(start as int, i as int));
    }
    bytes
}

/// The floating point fields that the report of a chunk shows; the caller
/// writes each as text and hands the texts to `chunk_entry`, in order.
pub fn chunk_float_fields(chunk_id: &String, chunk_data: &Vec<u8>) -> (fields: Vec<FloatField>)
    ensures
        fields@.map_values(|f: FloatField| float_field_view(f)) == float_fields(chunk_id@, chunk_data@),
{
    let kind = get_entry_kind(chunk_id);
    let mut fields: Vec<FloatField> = Vec::new();
    if kind == EntryKind::Acid && chunk_data.len() >= 24 {
        fields.push(FloatField::LittleEndianSingle(byte_range(chunk_data, 8, 12)));
        fields.push(FloatField::LittleEndianSingle(byte_range(chunk_data, 20, 24)));
    } else if kind == EntryKind::Comm && chunk_data.len() >= 18 {
        fields.push(FloatField::BigEndianExtended(byte_range(chunk_data, 8, 18)));
    }
    assert(fields@.map_values(|f: FloatField| float_field_view(f)) =~= float_fields(chunk_id@, chunk_data@));
    fields
}

/// The `i`th text, or empty text where there is none.
pub open spec fn text_at(texts: Seq<String>, i: int) -> Seq<char> {
    if 0 <= i < texts.len() {
        texts[i]@
    } else {
        Seq::empty()
    }
}

fn text_at_index(texts: &Vec<String>, i: usize) -> (text: String)
    ensures
        text@ == text_at(texts@, i as int),
{
    if i < texts.len() {
        texts[i].clone()
    } else {
        String::new()
    }
}

/// What a chunk gives: its report entry, or a request to read the file's
/// ID3 tag and hand its frames to `chunks::id3::id3_entry`.
#[derive(Debug, Clone, PartialEq)]
pub enum ChunkEntry {
    Entry(OutputEntry),
    ReadId3Tags,
}

/// The entry a chunk outcome holds; a request for the ID3 tag holds none.
pub open spec fn entry_result(result: Result<ChunkEntry, LocalError>) -> Result<OutputEntry, LocalError> {
    match result {
        Ok(ChunkEntry::Entry(e)) => Ok(e),
        Ok(ChunkEntry::ReadId3Tags) => Err(LocalError::InvalidRiffTypeID),
        Err(e) => Err(e),
    }
}

/// What a chunk's ID and data give: for skipped audio data the ID under
/// `Skipped`; for an empty chunk its ID under `Empty`; otherwise the entry
/// of the decoder the ID selects (a chunk without one under `Unsupported`),
/// the floating point fields written as `float_texts`, and for an ID3 chunk
/// the request to read the file's ID3 tag.
pub open spec fn chunk_entry_is(
    id: Seq<char>,
    data: Seq<u8>,
    float_texts: Seq<String>,
    result: Result<ChunkEntry, LocalError>,
) -> bool {
    let kind = entry_kind(id);
    let r = entry_result(result);
    &&& (result matches Ok(ChunkEntry::ReadId3Tags)) <==> (kind == EntryKind::Id3 && data.len() > 0)
    &&& if kind == EntryKind::Skipped {
        entry_of(Section::Skipped, upon_rendered_text(SKIPPED_TEMPLATE@, seq![("chunk_id"@, id)]), r)
    } else if data.len() == 0 {
        entry_of(Section::Empty, upon_rendered_text(EMPTY_TEMPLATE@, seq![("body"@, id)]), r)
    } else {
        match kind {
            EntryKind::Fmt => fmt_entry_is(data, r),
            EntryKind::Fact => fact_entry_is(data, r),
            EntryKind::Comm => comm_entry_is(data, text_at(float_texts, 0), r),
            EntryKind::Comt => comt_entry_is(data, r),
            EntryKind::Mark => mark_entry_is(data, r),
            EntryKind::Bext => bext_entry_is(data, r),
            EntryKind::Cart => cart_entry_is(data, r),
            EntryKind::Acid => acid_entry_is(data, text_at(float_texts, 0), text_at(float_texts, 1), r),
            EntryKind::Cue => cue_entry_is(data, r),
            EntryKind::List => list_entry_is(data, r),
            EntryKind::Smpl => smpl_entry_is(data, r),
            EntryKind::Sndm => sndm_entry_is(data, r),
            EntryKind::Fver => fver_entry_is(data, r),
            EntryKind::Umid => umid_entry_is(data, r),
            EntryKind::Resu => resu_entry_is(data, r),
            EntryKind::Id3 => true,
            EntryKind::Name => text_entry_is("Name"@, data, r),
            EntryKind::Author => text_entry_is("Author"@, data, r),
            EntryKind::Copyright => text_entry_is("Copyright"@, data, r),
            EntryKind::Annotation => text_entry_is("Annotation"@, data, r),
            _ => extra_entry_is(id, data, r),
        }
    }
}

fn wrap(result: Result<OutputEntry, LocalError>) -> (wrapped: Result<ChunkEntry, LocalError>)
    ensures
        entry_result(wrapped) == result,
        !(wrapped matches Ok(ChunkEntry::ReadId3Tags)),
{
    match result {
        Ok(e) => Ok(ChunkEntry::Entry(e)),
        Err(e) => Err(e),
    }
}

/// Decodes a chunk by its ID (in any letter case) and renders its report
/// entry. The floating point fields that `chunk_float_fields` names come
/// as the texts they are written as, in order.
pub fn chunk_entry(chunk_id: String, chunk_data: Vec<u8>, float_texts: &Vec<String>) -> (result: Result<
    ChunkEntry,
    LocalError,
>)
    requires
        chunk_data@.len() > 0 && entry_kind(chunk_id@) == EntryKind::Fmt ==> extension_fits(chunk_data@),
        chunk_data@.len() > 0 && entry_kind(chunk_id@) == EntryKind::Smpl
            && chunk_data@.len() >= MANUFACTURER_ID_LENGTH_IN_BYTES ==> chunk_data@[0] < 4,
    ensures
        chunk_entry_is(chunk_id@, chunk_data@, float_texts@, result),
{
    let kind = get_entry_kind(&chunk_id);
    if kind == EntryKind::Skipped {
        let ghost id = chunk_id@;
        let values = vec![named("chunk_id", chunk_id)];
        assert(values_view(values@) =~= seq![("chunk_id"@, id)]);
        return wrap(render_entry(Section::Skipped, SKIPPED_TEMPLATE, &values));
    }
    if chunk_data.len() == 0 {
        let ghost id = chunk_id@;
        let values = vec![named("body", chunk_id)];
        assert(values_view(values@) =~= seq![("body"@, id)]);
        return wrap(render_entry(Section::Empty, EMPTY_TEMPLATE, &values));
    }
    match kind {
        EntryKind::Fmt => wrap(fmt_entry(chunk_data)),
        EntryKind::Fact => wrap(fact_entry(chunk_data)),
        EntryKind::Comm => {
            let rate = text_at_index(float_texts, 0);
            wrap(comm_entry(chunk_data, rate.as_str()))
        },
        EntryKind::Comt => wrap(comt_entry(chunk_data)),
        EntryKind::Mark => wrap(mark_entry(chunk_data)),
        EntryKind::Bext => wrap(bext_entry(chunk_data)),
        EntryKind::Cart => wrap(cart_entry(chunk_data)),
        EntryKind::Acid => {
            let mystery_two = text_at_index(float_texts, 0);
            let tempo = text_at_index(float_texts, 1);
            wrap(acid_entry(chunk_data, mystery_two.as_str(), tempo.as_str()))
        },
        EntryKind::Cue => wrap(cue_entry(chunk_data)),
        EntryKind::List => wrap(list_entry(chunk_data)),
        EntryKind::Smpl => wrap(smpl_entry(chunk_data)),
        EntryKind::Sndm => wrap(sndm_entry(chunk_data)),
        EntryKind::Fver => wrap(fver_entry(chunk_data)),
        EntryKind::Umid => wrap(umid_entry(chunk_data)),
        EntryKind::Resu => wrap(resu_entry(chunk_data)),
        EntryKind::Id3 => Ok(ChunkEntry::ReadId3Tags),
        EntryKind::Name => wrap(text_entry("Name", chunk_data)),
        EntryKind::Author => wrap(text_entry("Author", chunk_data)),
        EntryKind::Copyright => wrap(text_entry("Copyright", chunk_data)),
        EntryKind::Annotation => wrap(text_entry("Annotation", chunk_data)),
        _ => wrap(extra_entry(chunk_id, chunk_data)),
    }
}

/// Whether chunks of a kind are in the report when only the mandatory
/// sections are asked for: the format, FACT and COMM chunks.
pub open spec fn is_mandatory_kind(kind: EntryKind) -> bool {
    kind == EntryKind::Fmt || kind == EntryKind::Fact || kind == EntryKind::Comm
}

/// Whether a chunk ID is reported when only the mandatory sections are
/// asked for.
pub fn is_mandatory_chunk(chunk_id: &String) -> (mandatory: bool)
    ensures
        mandatory == is_mandatory_kind(entry_kind(chunk_id@)),
{
    let kind = get_entry_kind(chunk_id);
    kind == EntryKind::Fmt || kind == EntryKind::Fact || kind == EntryKind::Comm
}

} // verus!
