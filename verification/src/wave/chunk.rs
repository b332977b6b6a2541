use crate::byte_arrays::{text_field, u32_field, Endian};
use crate::chunks::acid::{acid_fields, acid_metadata_matches};
use crate::chunks::resu::zlib_inflated_text;
use crate::chunks::smpl::{manufacturer_id_fits, smpl_chunk, smpl_metadata_matches, SmplMetadata};
use crate::chunks::sndm::{sndm_tags, SndmMetadata, SndmView};
use crate::errors::LocalError;
use crate::shared::extra::{chunk_view, extra_chunk_text, ExtraChunks};
use crate::shared::text::{padded_length, TextFields};
use crate::strings::{lines_view, text_equals};
use crate::wave::acid::AcidFields;
use crate::wave::bext::{bext_data_fields, bext_data_matches, read_bext_chunk, BextData};
use crate::wave::cart::{cart_data_matches, cart_leading_texts, cart_tail, CartData};
use crate::wave::cue::{cue_chunk, cue_points_view, CueFields};
use crate::wave::fact::FactFields;
use crate::wave::fmt::{fmt_fields, fmt_fields_match, FmtFields};
use crate::wave::id3::ID3Fields;
use crate::wave::list::{list_fields, list_fields_failure_is, ListFields};
use crate::wave::resu::ResuFields;
use crate::wave::umid::UMIDFields;
use crate::wave::xmp::XMPFields;
use crate::strings::utf8_lossy_text;
use vstd::prelude::*;

verus! {

/// Which decoder a (lower-case) chunk ID of a Wave file selects.
#[derive(Debug, Clone, Copy, PartialEq, Eq, Structural)]
pub enum ChunkKind {
    Format,
    Fact,
    Data,
    Junk,
    Cue,
    Resu,
    List,
    Ixml,
    Xmp,
    Id3,
    Bext,
    Cart,
    Acid,
    Smpl,
    Sndm,
    Axml,
    Pad,
    Umid,
    Ignored,
    Extra,
}

/// The kind of a chunk ID.
pub open spec fn chunk_kind(id: Seq<char>) -> ChunkKind {
    if id == "fmt "@ {
        ChunkKind::Format
    } else if id == "fact"@ {
        ChunkKind::Fact
    } else if id == "data"@ {
        ChunkKind::Data
    } else if id == "junk"@ {
        ChunkKind::Junk
    } else if id == "cue "@ {
        ChunkKind::Cue
    } else if id == "resu"@ {
        ChunkKind::Resu
    } else if id == "list"@ {
        ChunkKind::List
    } else if id == "ixml"@ {
        ChunkKind::Ixml
    } else if id == "_pmx"@ {
        ChunkKind::Xmp
    } else if id == "id3 "@ {
        ChunkKind::Id3
    } else if id == "bext"@ {
        ChunkKind::Bext
    } else if id == "cart"@ {
        ChunkKind::Cart
    } else if id == "acid"@ {
        ChunkKind::Acid
    } else if id == "smpl"@ {
        ChunkKind::Smpl
    } else if id == "sndm"@ {
        ChunkKind::Sndm
    } else if id == "axml"@ {
        ChunkKind::Axml
    } else if id == "pad "@ {
        ChunkKind::Pad
    } else if id == "umid"@ {
        ChunkKind::Umid
    } else if id == "elm1"@ || id == "minf"@ || id == "dgda"@ || id == "regn"@ || id == "disp"@
        || id == "lgwv"@ {
        ChunkKind::Ignored
    } else {
        ChunkKind::Extra
    }
}

/// Whether a chunk's data is left unread and its ID listed as skipped: the
/// audio data and the Pro Tools, display and Logic chunks.
pub open spec fn is_skipped_chunk_id(id: Seq<char>) -> bool {
    id == "data"@ || id == "disp"@ || id == "lgwv"@ || id == "dgda"@ || id == "minf"@ || id
        == "elm1"@ || id == "regn"@
}

/// The kind of a chunk ID.
pub fn get_chunk_kind(id: &String) -> (kind: ChunkKind)
    ensures
        kind == chunk_kind(id@),
{
    if text_equals(id, "fmt ") {
        ChunkKind::Format
    } else if text_equals(id, "fact") {
        ChunkKind::Fact
    } else if text_equals(id, "data") {
        ChunkKind::Data
    } else if text_equals(id, "junk") {
        ChunkKind::Junk
    } else if text_equals(id, "cue ") {
        ChunkKind::Cue
    } else if text_equals(id, "resu") {
        ChunkKind::Resu
    } else if text_equals(id, "list") {
        ChunkKind::List
    } else if text_equals(id, "ixml") {
        ChunkKind::Ixml
    } else if text_equals(id, "_pmx") {
        ChunkKind::Xmp
    } else if text_equals(id, "id3 ") {
        ChunkKind::Id3
    } else if text_equals(id, "bext") {
        ChunkKind::Bext
    } else if text_equals(id, "cart") {
        ChunkKind::Cart
    } else if text_equals(id, "acid") {
        ChunkKind::Acid
    } else if text_equals(id, "smpl") {
        ChunkKind::Smpl
    } else if text_equals(id, "sndm") {
        ChunkKind::Sndm
    } else if text_equals(id, "axml") {
        ChunkKind::Axml
    } else if text_equals(id, "pad ") {
        ChunkKind::Pad
    } else if text_equals(id, "umid") {
        ChunkKind::Umid
    } else if text_equals(id, "elm1") || text_equals(id, "minf") || text_equals(id, "dgda")
        || text_equals(id, "regn") || text_equals(id, "disp") || text_equals(id, "lgwv") {
        ChunkKind::Ignored
    } else {
        ChunkKind::Extra
    }
}

/// Whether a chunk's data is left unread and its ID listed as skipped.
pub fn is_skipped_chunk(id: &String) -> (skipped: bool)
    ensures
        skipped == is_skipped_chunk_id(id@),
{
    text_equals(id, "data") || text_equals(id, "disp") || text_equals(id, "lgwv") || text_equals(
        id,
        "dgda",
    ) || text_equals(id, "minf") || text_equals(id, "elm1") || text_equals(id, "regn")
}

/// What to do next for a chunk just added.
#[derive(Debug, Clone, Copy, PartialEq, Eq, Structural)]
pub enum ChunkFollowUp {
    Nothing,
    /// Read the file's ID3 tag and hand its frames to `set_id3_data`.
    ReadId3Tags,
}

/// The chunks of a Wave file decoded so far, and the IDs met.
#[derive(Debug, Clone, PartialEq)]
pub struct Chunk {
    pub found_chunk_ids: Vec<String>,
    pub skipped_chunk_ids: Vec<String>,
    pub extra_chunks: ExtraChunks,
    pub acid_data: Option<AcidFields>,
    pub axml_data: Option<TextFields>,
    pub bext_data: Option<BextData>,
    pub cart_data: Option<CartData>,
    pub cue_data: Option<CueFields>,
    pub fact_data: Option<FactFields>,
    pub format_data: Option<FmtFields>,
    pub id3_data: Option<ID3Fields>,
    pub ixml_data: Option<TextFields>,
    pub junk_data: Option<TextFields>,
    pub list_data: Vec<ListFields>,
    pub pad_data: Option<TextFields>,
    pub resu_data: Option<ResuFields>,
    pub smpl_data: Option<SmplMetadata>,
    pub sndm_data: Option<SndmMetadata>,
    pub umid_data: Option<UMIDFields>,
    pub xmp_data: Option<XMPFields>,
}

/// The found and skipped IDs after meeting chunk `id`: a skipped kind is
/// listed as skipped each time; any other ID is listed as found the first
/// time only.
pub open spec fn recorded(
    old_found: Seq<Seq<char>>,
    old_skipped: Seq<Seq<char>>,
    id: Seq<char>,
    new_found: Seq<Seq<char>>,
    new_skipped: Seq<Seq<char>>,
) -> bool {
    if is_skipped_chunk_id(id) {
        new_found == old_found && new_skipped == old_skipped.push(id)
    } else if old_found.contains(id) {
        new_found == old_found && new_skipped == old_skipped
    } else {
        new_found == old_found.push(id) && new_skipped == old_skipped
    }
}

/// The registry's invariant: the found IDs are distinct and none of them is
/// of a skipped kind; every skipped ID is of a skipped kind.
pub open spec fn ids_well_formed(found: Seq<Seq<char>>, skipped: Seq<Seq<char>>) -> bool {
    &&& forall|i: int, j: int| 0 <= i < j < found.len() ==> found[i] != found[j]
    &&& forall|i: int| 0 <= i < found.len() ==> !is_skipped_chunk_id(#[trigger] found[i])
    &&& forall|i: int| 0 <= i < skipped.len() ==> is_skipped_chunk_id(#[trigger] skipped[i])
}

/// The registry keeps its IDs well formed: after meeting any chunk the found
/// IDs are still distinct and not of a skipped kind, and the skipped IDs are
/// all of a skipped kind.
pub proof fn chunk_ids_stay_well_formed(
    old_found: Seq<Seq<char>>,
    old_skipped: Seq<Seq<char>>,
    id: Seq<char>,
    new_found: Seq<Seq<char>>,
    new_skipped: Seq<Seq<char>>,
)
    requires
        ids_well_formed(old_found, old_skipped),
        recorded(old_found, old_skipped, id, new_found, new_skipped),
    ensures
        ids_well_formed(new_found, new_skipped),
{
    if !is_skipped_chunk_id(id) && !old_found.contains(id) {
        assert forall|i: int, j: int| 0 <= i < j < new_found.len() implies new_found[i]
            != new_found[j] by {
            if j == new_found.len() - 1 {
                assert(new_found[j] == id);
                assert(new_found[i] == old_found[i]);
            } else {
                assert(new_found[i] == old_found[i]);
                assert(new_found[j] == old_found[j]);
            }
        }
        assert forall|i: int| 0 <= i < new_found.len() implies !is_skipped_chunk_id(
            #[trigger] new_found[i],
        ) by {
            if i < old_found.len() {
                assert(new_found[i] == old_found[i]);
            }
        }
    }
    if is_skipped_chunk_id(id) {
        assert forall|i: int| 0 <= i < new_skipped.len() implies is_skipped_chunk_id(
            #[trigger] new_skipped[i],
        ) by {
            if i < old_skipped.len() {
                assert(new_skipped[i] == old_skipped[i]);
            }
        }
    }
}

/// Whether the decoder of `kind` refuses `data` with `e`.
pub open spec fn refused(kind: ChunkKind, data: Seq<u8>, e: LocalError) -> bool {
    match kind {
        ChunkKind::Format => fmt_fields(data) == Err::<
            (u16, u16, u32, u32, u16, u16, u16, u32, Seq<u8>),
            LocalError,
        >(e),
        ChunkKind::Fact => match u32_field(data, Endian::Little) {
            Err(x) => x == e,
            Ok(_) => false,
        },
        ChunkKind::Junk | ChunkKind::Ixml | ChunkKind::Axml | ChunkKind::Pad => match text_field(
            data,
            padded_length(data.len()),
        ) {
            Err(x) => x == e,
            Ok(_) => false,
        },
        ChunkKind::Cue => match cue_chunk(data) {
            Err(x) => x == e,
            Ok(_) => false,
        },
        ChunkKind::Resu => match (zlib_inflated_text(data), e) {
            (Err(m), LocalError::InvalidZipDataFound(t)) => t@ == m,
            _ => false,
        },
        ChunkKind::List => match list_fields(data) {
            Err(f) => list_fields_failure_is(e, f),
            Ok(_) => false,
        },
        ChunkKind::Bext => match bext_data_fields(data) {
            Err(x) => x == e,
            Ok(_) => false,
        },
        ChunkKind::Cart => match cart_leading_texts(data) {
            Err(x) => x == e,
            Ok((_, rest)) => match cart_tail(rest) {
                Err(x) => x == e,
                Ok(_) => false,
            },
        },
        ChunkKind::Acid => match acid_fields(data) {
            Err(x) => x == e,
            Ok(_) => false,
        },
        ChunkKind::Smpl => match smpl_chunk(data) {
            Err(x) => x == e,
            Ok(_) => false,
        },
        ChunkKind::Sndm => match sndm_tags(
            data,
            SndmView { genre: Seq::empty(), author: Seq::empty(), album: Seq::empty() },
        ) {
            Err(x) => x == e,
            Ok(_) => false,
        },
        _ => false,
    }
}

/// Whether a text chunk holds the text of `data`.
pub open spec fn text_chunk_holds(t: Option<TextFields>, data: Seq<u8>) -> bool {
    match (t, text_field(data, padded_length(data.len()))) {
        (Some(f), Ok((body, _))) => f.body@ == body,
        _ => false,
    }
}

/// Whether `decoded` holds what the decoder of `kind` gives for `data`.
pub open spec fn decoded_as(kind: ChunkKind, id: Seq<char>, data: Seq<u8>, old: Chunk, new: Chunk) -> bool {
    match kind {
        ChunkKind::Format => match (new.format_data, fmt_fields(data)) {
            (Some(f), Ok(v)) => fmt_fields_match(f, v),
            _ => false,
        },
        ChunkKind::Fact => match (new.fact_data, u32_field(data, Endian::Little)) {
            (Some(f), Ok((n, _))) => f.samples_per_channel == n,
            _ => false,
        },
        ChunkKind::Junk => text_chunk_holds(new.junk_data, data),
        ChunkKind::Ixml => text_chunk_holds(new.ixml_data, data),
        ChunkKind::Axml => text_chunk_holds(new.axml_data, data),
        ChunkKind::Pad => text_chunk_holds(new.pad_data, data),
        ChunkKind::Cue => match (new.cue_data, cue_chunk(data)) {
            (Some(f), Ok((n, points))) => f.number_of_cue_points == n && cue_points_view(
                f.cue_points@,
            ) == points,
            _ => false,
        },
        ChunkKind::Resu => match (new.resu_data, zlib_inflated_text(data)) {
            (Some(f), Ok(text)) => f.resu_json@ == text,
            _ => false,
        },
        ChunkKind::List => match list_fields(data) {
            Ok((infos, adtl)) => {
                &&& new.list_data@.len() == old.list_data@.len() + 1
                &&& new.list_data@.drop_last() == old.list_data@
                &&& crate::wave::list::infos_view(new.list_data@.last().info_data@) == infos
                &&& crate::wave::list::adtl_data_matches(new.list_data@.last().adtl_data@, adtl)
            },
            Err(_) => false,
        },
        ChunkKind::Xmp => match new.xmp_data {
            Some(f) => f.xmp_xml@ == utf8_lossy_text(data),
            None => false,
        },
        ChunkKind::Bext => match (new.bext_data, bext_data_fields(data)) {
            (Some(b), Ok(v)) => bext_data_matches(b, v),
            _ => false,
        },
        ChunkKind::Cart => match (new.cart_data, cart_leading_texts(data)) {
            (Some(c), Ok((texts, rest))) => match cart_tail(rest) {
                Ok(tail) => cart_data_matches(c, texts, tail),
                Err(_) => false,
            },
            _ => false,
        },
        ChunkKind::Acid => match (new.acid_data, acid_fields(data)) {
            (Some(a), Ok(f)) => acid_metadata_matches(a.metadata, f),
            _ => false,
        },
        ChunkKind::Smpl => match (new.smpl_data, smpl_chunk(data)) {
            (Some(m), Ok(f)) => smpl_metadata_matches(m, f),
            _ => false,
        },
        ChunkKind::Sndm => match (
            new.sndm_data,
            sndm_tags(data, SndmView { genre: Seq::empty(), author: Seq::empty(), album: Seq::empty() }),
        ) {
            (Some(m), Ok(v)) => m.genre@ == v.genre && m.author@ == v.author && m.album@ == v.album,
            _ => false,
        },
        ChunkKind::Umid => match new.umid_data {
            Some(u) => u.umid_bytes@ == data,
            None => false,
        },
        ChunkKind::Extra => {
            &&& new.extra_chunks.chunks@.len() == old.extra_chunks.chunks@.len() + 1
            &&& new.extra_chunks.chunks@.drop_last() == old.extra_chunks.chunks@
            &&& chunk_view(new.extra_chunks.chunks@.last()) == (id, extra_chunk_text(data))
        },
        _ => true,
    }
}

/// Whether `new` holds, for a chunk of `kind` with `data`, what its decoder
/// gives, every other decoded chunk as in `old`.
pub open spec fn stored(kind: ChunkKind, id: Seq<char>, data: Seq<u8>, old: Chunk, new: Chunk) -> bool {
    &&& decoded_as(kind, id, data, old, new)
    &&& (kind != ChunkKind::Format ==> new.format_data == old.format_data)
    &&& (kind != ChunkKind::Fact ==> new.fact_data == old.fact_data)
    &&& (kind != ChunkKind::Junk ==> new.junk_data == old.junk_data)
    &&& (kind != ChunkKind::Ixml ==> new.ixml_data == old.ixml_data)
    &&& (kind != ChunkKind::Axml ==> new.axml_data == old.axml_data)
    &&& (kind != ChunkKind::Pad ==> new.pad_data == old.pad_data)
    &&& (kind != ChunkKind::Cue ==> new.cue_data == old.cue_data)
    &&& (kind != ChunkKind::Resu ==> new.resu_data == old.resu_data)
    &&& (kind != ChunkKind::List ==> new.list_data == old.list_data)
    &&& (kind != ChunkKind::Xmp ==> new.xmp_data == old.xmp_data)
    &&& new.id3_data == old.id3_data
    &&& (kind != ChunkKind::Bext ==> new.bext_data == old.bext_data)
    &&& (kind != ChunkKind::Cart ==> new.cart_data == old.cart_data)
    &&& (kind != ChunkKind::Acid ==> new.acid_data == old.acid_data)
    &&& (kind != ChunkKind::Smpl ==> new.smpl_data == old.smpl_data)
    &&& (kind != ChunkKind::Sndm ==> new.sndm_data == old.sndm_data)
    &&& (kind != ChunkKind::Umid ==> new.umid_data == old.umid_data)
    &&& (kind != ChunkKind::Extra ==> new.extra_chunks == old.extra_chunks)
}

impl Chunk {
    /// No chunks yet.
    pub fn new() -> (chunk: Self)
        ensures
            chunk.found_chunk_ids@.len() == 0,
            chunk.skipped_chunk_ids@.len() == 0,
            chunk.extra_chunks.chunks@.len() == 0,
            chunk.list_data@.len() == 0,
            chunk.format_data is None,
            chunk.id3_data is None,
    {
        Chunk {
            found_chunk_ids: Vec::new(),
            skipped_chunk_ids: Vec::new(),
            extra_chunks: ExtraChunks::new(),
            acid_data: None,
            axml_data: None,
            bext_data: None,
            cart_data: None,
            cue_data: None,
            fact_data: None,
            format_data: None,
            id3_data: None,
            ixml_data: None,
            junk_data: None,
            list_data: Vec::new(),
            pad_data: None,
            resu_data: None,
            smpl_data: None,
            sndm_data: None,
            umid_data: None,
            xmp_data: None,
        }
    }

    /// Stores the ID3 frames read for an `id3 ` chunk.
    pub fn set_id3_data(&mut self, id3_data: ID3Fields)
        ensures
            *final(self) == (Chunk { id3_data: Some(id3_data), ..*old(self) }),
    {
        self.id3_data = Some(id3_data);
    }

    fn add_format(&mut self, id: &String, data: Vec<u8>) -> (result: Result<(), LocalError>)
        ensures
            match result {
                Err(e) => refused(ChunkKind::Format, data@, e) && *final(self) == *old(self),
                Ok(()) => stored(ChunkKind::Format, id@, data@, *old(self), *final(self))
                    && final(self).found_chunk_ids == old(self).found_chunk_ids
                    && final(self).skipped_chunk_ids == old(self).skipped_chunk_ids,
            },
    {
        match FmtFields::new(data) {
            Ok(f) => {
                self.format_data = Some(f);
                Ok(())
            },
            Err(e) => Err(e),
        }
    }

    fn add_fact(&mut self, id: &String, data: Vec<u8>) -> (result: Result<(), LocalError>)
        ensures
            match result {
                Err(e) => refused(ChunkKind::Fact, data@, e) && *final(self) == *old(self),
                Ok(()) => stored(ChunkKind::Fact, id@, data@, *old(self), *final(self))
                    && final(self).found_chunk_ids == old(self).found_chunk_ids
                    && final(self).skipped_chunk_ids == old(self).skipped_chunk_ids,
            },
    {
        match FactFields::new(data) {
            Ok(f) => {
                self.fact_data = Some(f);
                Ok(())
            },
            Err(e) => Err(e),
        }
    }

    fn add_junk(&mut self, id: &String, data: Vec<u8>) -> (result: Result<(), LocalError>)
        requires
            data@.len() < u32::MAX,
        ensures
            match result {
                Err(e) => refused(ChunkKind::Junk, data@, e) && *final(self) == *old(self),
                Ok(()) => stored(ChunkKind::Junk, id@, data@, *old(self), *final(self))
                    && final(self).found_chunk_ids == old(self).found_chunk_ids
                    && final(self).skipped_chunk_ids == old(self).skipped_chunk_ids,
            },
    {
        match TextFields::new(data) {
            Ok(f) => {
                self.junk_data = Some(f);
                Ok(())
            },
            Err(e) => Err(e),
        }
    }

    fn add_ixml(&mut self, id: &String, data: Vec<u8>) -> (result: Result<(), LocalError>)
        requires
            data@.len() < u32::MAX,
        ensures
            match result {
                Err(e) => refused(ChunkKind::Ixml, data@, e) && *final(self) == *old(self),
                Ok(()) => stored(ChunkKind::Ixml, id@, data@, *old(self), *final(self))
                    && final(self).found_chunk_ids == old(self).found_chunk_ids
                    && final(self).skipped_chunk_ids == old(self).skipped_chunk_ids,
            },
    {
        match TextFields::new(data) {
            Ok(f) => {
                self.ixml_data = Some(f);
                Ok(())
            },
            Err(e) => Err(e),
        }
    }

    fn add_axml(&mut self, id: &String, data: Vec<u8>) -> (result: Result<(), LocalError>)
        requires
            data@.len() < u32::MAX,
        ensures
            match result {
                Err(e) => refused(ChunkKind::Axml, data@, e) && *final(self) == *old(self),
                Ok(()) => stored(ChunkKind::Axml, id@, data@, *old(self), *final(self))
                    && final(self).found_chunk_ids == old(self).found_chunk_ids
                    && final(self).skipped_chunk_ids == old(self).skipped_chunk_ids,
            },
    {
        match TextFields::new(data) {
            Ok(f) => {
                self.axml_data = Some(f);
                Ok(())
            },
            Err(e) => Err(e),
        }
    }

    fn add_pad(&mut self, id: &String, data: Vec<u8>) -> (result: Result<(), LocalError>)
        requires
            data@.len() < u32::MAX,
        ensures
            match result {
                Err(e) => refused(ChunkKind::Pad, data@, e) && *final(self) == *old(self),
                Ok(()) => stored(ChunkKind::Pad, id@, data@, *old(self), *final(self))
                    && final(self).found_chunk_ids == old(self).found_chunk_ids
                    && final(self).skipped_chunk_ids == old(self).skipped_chunk_ids,
            },
    {
        match TextFields::new(data) {
            Ok(f) => {
                self.pad_data = Some(f);
                Ok(())
            },
            Err(e) => Err(e),
        }
    }

    fn add_cue(&mut self, id: &String, data: Vec<u8>) -> (result: Result<(), LocalError>)
        ensures
            match result {
                Err(e) => refused(ChunkKind::Cue, data@, e) && *final(self) == *old(self),
                Ok(()) => stored(ChunkKind::Cue, id@, data@, *old(self), *final(self))
                    && final(self).found_chunk_ids == old(self).found_chunk_ids
                    && final(self).skipped_chunk_ids == old(self).skipped_chunk_ids,
            },
    {
        match CueFields::new(data) {
            Ok(f) => {
                self.cue_data = Some(f);
                Ok(())
            },
            Err(e) => Err(e),
        }
    }

    fn add_resu(&mut self, id: &String, data: Vec<u8>) -> (result: Result<(), LocalError>)
        ensures
            match result {
                Err(e) => refused(ChunkKind::Resu, data@, e) && *final(self) == *old(self),
                Ok(()) => stored(ChunkKind::Resu, id@, data@, *old(self), *final(self))
                    && final(self).found_chunk_ids == old(self).found_chunk_ids
                    && final(self).skipped_chunk_ids == old(self).skipped_chunk_ids,
            },
    {
        match ResuFields::new(data) {
            Ok(f) => {
                self.resu_data = Some(f);
                Ok(())
            },
            Err(e) => Err(e),
        }
    }

    fn add_list(&mut self, id: &String, data: Vec<u8>) -> (result: Result<(), LocalError>)
        ensures
            match result {
                Err(e) => refused(ChunkKind::List, data@, e) && *final(self) == *old(self),
                Ok(()) => stored(ChunkKind::List, id@, data@, *old(self), *final(self))
                    && final(self).found_chunk_ids == old(self).found_chunk_ids
                    && final(self).skipped_chunk_ids == old(self).skipped_chunk_ids,
            },
    {
        let ghost before = self.list_data@;
        match ListFields::new(data) {
            Ok(f) => {
                self.list_data.push(f);
                assert(self.list_data@.drop_last() =~= before);
                Ok(())
            },
            Err(e) => Err(e),
        }
    }

    fn add_xmp(&mut self, id: &String, data: Vec<u8>) -> (result: Result<(), LocalError>)
        ensures
            match result {
                Err(e) => refused(ChunkKind::Xmp, data@, e) && *final(self) == *old(self),
                Ok(()) => stored(ChunkKind::Xmp, id@, data@, *old(self), *final(self))
                    && final(self).found_chunk_ids == old(self).found_chunk_ids
                    && final(self).skipped_chunk_ids == old(self).skipped_chunk_ids,
            },
    {
        match XMPFields::new(data) {
            Ok(f) => {
                self.xmp_data = Some(f);
                Ok(())
            },
            Err(e) => Err(e),
        }
    }

    fn add_bext(&mut self, id: &String, data: Vec<u8>) -> (result: Result<(), LocalError>)
        ensures
            match result {
                Err(e) => refused(ChunkKind::Bext, data@, e) && *final(self) == *old(self),
                Ok(()) => stored(ChunkKind::Bext, id@, data@, *old(self), *final(self))
                    && final(self).found_chunk_ids == old(self).found_chunk_ids
                    && final(self).skipped_chunk_ids == old(self).skipped_chunk_ids,
            },
    {
        match read_bext_chunk(data) {
            Ok(f) => {
                self.bext_data = Some(f);
                Ok(())
            },
            Err(e) => Err(e),
        }
    }

    fn add_cart(&mut self, id: &String, data: Vec<u8>) -> (result: Result<(), LocalError>)
        ensures
            match result {
                Err(e) => refused(ChunkKind::Cart, data@, e) && *final(self) == *old(self),
                Ok(()) => stored(ChunkKind::Cart, id@, data@, *old(self), *final(self))
                    && final(self).found_chunk_ids == old(self).found_chunk_ids
                    && final(self).skipped_chunk_ids == old(self).skipped_chunk_ids,
            },
    {
        match CartData::new(data) {
            Ok(f) => {
                self.cart_data = Some(f);
                Ok(())
            },
            Err(e) => Err(e),
        }
    }

    fn add_acid(&mut self, id: &String, data: Vec<u8>) -> (result: Result<(), LocalError>)
        ensures
            match result {
                Err(e) => refused(ChunkKind::Acid, data@, e) && *final(self) == *old(self),
                Ok(()) => stored(ChunkKind::Acid, id@, data@, *old(self), *final(self))
                    && final(self).found_chunk_ids == old(self).found_chunk_ids
                    && final(self).skipped_chunk_ids == old(self).skipped_chunk_ids,
            },
    {
        match AcidFields::new(data) {
            Ok(f) => {
                self.acid_data = Some(f);
                Ok(())
            },
            Err(e) => Err(e),
        }
    }

    fn add_smpl(&mut self, id: &String, data: Vec<u8>) -> (result: Result<(), LocalError>)
        requires
            manufacturer_id_fits(data@.take(4)),
        ensures
            match result {
                Err(e) => refused(ChunkKind::Smpl, data@, e) && *final(self) == *old(self),
                Ok(()) => stored(ChunkKind::Smpl, id@, data@, *old(self), *final(self))
                    && final(self).found_chunk_ids == old(self).found_chunk_ids
                    && final(self).skipped_chunk_ids == old(self).skipped_chunk_ids,
            },
    {
        assert(data@.len() >= 4 ==> data@.take(4)[0] == data@[0]);
        match crate::chunks::smpl::get_metadata(data) {
            Ok(f) => {
                self.smpl_data = Some(f);
                Ok(())
            },
            Err(e) => Err(e),
        }
    }

    fn add_sndm(&mut self, id: &String, data: Vec<u8>) -> (result: Result<(), LocalError>)
        ensures
            match result {
                Err(e) => refused(ChunkKind::Sndm, data@, e) && *final(self) == *old(self),
                Ok(()) => stored(ChunkKind::Sndm, id@, data@, *old(self), *final(self))
                    && final(self).found_chunk_ids == old(self).found_chunk_ids
                    && final(self).skipped_chunk_ids == old(self).skipped_chunk_ids,
            },
    {
        match crate::chunks::sndm::get_metadata(data) {
            Ok(f) => {
                self.sndm_data = Some(f);
                Ok(())
            },
            Err(e) => Err(e),
        }
    }

    fn add_umid(&mut self, id: &String, data: Vec<u8>) -> (result: Result<(), LocalError>)
        ensures
            match result {
                Err(e) => refused(ChunkKind::Umid, data@, e) && *final(self) == *old(self),
                Ok(()) => stored(ChunkKind::Umid, id@, data@, *old(self), *final(self))
                    && final(self).found_chunk_ids == old(self).found_chunk_ids
                    && final(self).skipped_chunk_ids == old(self).skipped_chunk_ids,
            },
    {
        match UMIDFields::new(data) {
            Ok(f) => {
                self.umid_data = Some(f);
                Ok(())
            },
            Err(e) => Err(e),
        }
    }

    fn add_extra(&mut self, id: &String, data: Vec<u8>)
        ensures
            stored(ChunkKind::Extra, id@, data@, *old(self), *final(self)),
            final(self).found_chunk_ids == old(self).found_chunk_ids,
            final(self).skipped_chunk_ids == old(self).skipped_chunk_ids,
    {
        let ghost before = self.extra_chunks.chunks@;
        let _ = self.extra_chunks.add_chunk(id.as_str(), data);
        assert(self.extra_chunks.chunks@.drop_last() =~= before);
    }

    /// Notes a chunk ID as skipped or found (see `recorded`).
    pub fn record_chunk_id(&mut self, chunk_id: String)
        ensures
            recorded(
                lines_view(old(self).found_chunk_ids@),
                lines_view(old(self).skipped_chunk_ids@),
                chunk_id@,
                lines_view(final(self).found_chunk_ids@),
                lines_view(final(self).skipped_chunk_ids@),
            ),
            *final(self) == (Chunk {
                found_chunk_ids: final(self).found_chunk_ids,
                skipped_chunk_ids: final(self).skipped_chunk_ids,
                ..*old(self)
            }),
    {
        let ghost found = lines_view(self.found_chunk_ids@);
        let ghost skipped = lines_view(self.skipped_chunk_ids@);
        if is_skipped_chunk(&chunk_id) {
            self.skipped_chunk_ids.push(chunk_id);
            assert(lines_view(self.skipped_chunk_ids@) =~= skipped.push(chunk_id@));
            return;
        }
        let mut known = false;
        let mut i: usize = 0;
        while i < self.found_chunk_ids.len()
            invariant
                i <= self.found_chunk_ids@.len(),
                found == lines_view(self.found_chunk_ids@),
                known <==> exists|j: int| 0 <= j < i && found[j] == chunk_id@,
            decreases self.found_chunk_ids@.len() - i,
        {
            assert(found[i as int] == self.found_chunk_ids@[i as int]@);
            if self.found_chunk_ids[i] == chunk_id {
                known = true;
            }
            i = i + 1;
        }
        assert(known <==> found.contains(chunk_id@));
        if !known {
            self.found_chunk_ids.push(chunk_id);
            assert(lines_view(self.found_chunk_ids@) =~= found.push(chunk_id@));
        }
    }

    /// Decodes a chunk by its (lower-case) ID and notes the ID as found or
    /// skipped. A chunk the decoder refuses leaves everything as it was. An
    /// `id3 ` chunk asks for the file's ID3 tag to be read.
    pub fn add_chunk(&mut self, chunk_id: String, chunk_data: Vec<u8>) -> (result: Result<
        ChunkFollowUp,
        LocalError,
    >)
        requires
            chunk_data@.len() < u32::MAX,
            chunk_kind(chunk_id@) == ChunkKind::Smpl ==> manufacturer_id_fits(
                chunk_data@.take(4),
            ),
        ensures
            match result {
                Err(e) => refused(chunk_kind(chunk_id@), chunk_data@, e) && *final(self)
                    == *old(self),
                Ok(follow_up) => {
                    &&& stored(chunk_kind(chunk_id@), chunk_id@, chunk_data@, *old(self), *final(self))
                    &&& recorded(
                        lines_view(old(self).found_chunk_ids@),
                        lines_view(old(self).skipped_chunk_ids@),
                        chunk_id@,
                        lines_view(final(self).found_chunk_ids@),
                        lines_view(final(self).skipped_chunk_ids@),
                    )
                    &&& follow_up == if chunk_kind(chunk_id@) == ChunkKind::Id3 {
                        ChunkFollowUp::ReadId3Tags
                    } else {
                        ChunkFollowUp::Nothing
                    }
                },
            },
    {
        let kind = get_chunk_kind(&chunk_id);
        let decoded = match kind {
            ChunkKind::Format => self.add_format(&chunk_id, chunk_data),
            ChunkKind::Fact => self.add_fact(&chunk_id, chunk_data),
            ChunkKind::Junk => self.add_junk(&chunk_id, chunk_data),
            ChunkKind::Ixml => self.add_ixml(&chunk_id, chunk_data),
            ChunkKind::Axml => self.add_axml(&chunk_id, chunk_data),
            ChunkKind::Pad => self.add_pad(&chunk_id, chunk_data),
            ChunkKind::Cue => self.add_cue(&chunk_id, chunk_data),
            ChunkKind::Resu => self.add_resu(&chunk_id, chunk_data),
            ChunkKind::List => self.add_list(&chunk_id, chunk_data),
            ChunkKind::Xmp => self.add_xmp(&chunk_id, chunk_data),
            ChunkKind::Bext => self.add_bext(&chunk_id, chunk_data),
            ChunkKind::Cart => self.add_cart(&chunk_id, chunk_data),
            ChunkKind::Acid => self.add_acid(&chunk_id, chunk_data),
            ChunkKind::Smpl => self.add_smpl(&chunk_id, chunk_data),
            ChunkKind::Sndm => self.add_sndm(&chunk_id, chunk_data),
            ChunkKind::Umid => self.add_umid(&chunk_id, chunk_data),
            ChunkKind::Extra => {
                self.add_extra(&chunk_id, chunk_data);
                Ok(())
            },
            _ => Ok(()),
        };
        match decoded {
            Err(e) => Err(e),
            Ok(()) => {
                self.record_chunk_id(chunk_id);
                if matches!(kind, ChunkKind::Id3) {
                    Ok(ChunkFollowUp::ReadId3Tags)
                } else {
                    Ok(ChunkFollowUp::Nothing)
                }
            },
        }
    }
}

} // verus!
