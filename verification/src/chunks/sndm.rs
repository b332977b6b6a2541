use crate::byte_arrays::{
    take_field, take_first_number_of_bytes, take_first_number_of_bytes_as_string,
    take_first_two_bytes_as_unsigned_integer, text_field, u16_field, Endian,
};
use crate::errors::LocalError;
use crate::strings::text_equals;
use crate::template::{get_file_chunk_output, named, rendered_as, upon_rendered_text, values_view};
use crate::template::{entry_of, into_entry};
use crate::output::{OutputEntry, Section};
use vstd::prelude::*;

verus! {

/// Length of the header in front of each tag of a `SNDM` chunk.
pub const TAG_HEADER_LENGTH_IN_BYTES: usize = 5;

/// Length of a tag id.
pub const TAG_ID_LENGTH_IN_BYTES: usize = 3;

/// Length of the spacer between a tag's length and its data.
pub const TAG_DATA_SPACER_LENGTH_IN_BYTES: usize = 2;

/// Tag id of the genre.
pub const GENRE_TAG_ID: &'static str = "gen";

/// Tag id of the author.
pub const AUTHOR_TAG_ID: &'static str = "aut";

/// Tag id of the album.
pub const ALBUM_TAG_ID: &'static str = "alb";

/// The genre, author and album of a `SNDM` chunk.
#[derive(Debug, Clone, PartialEq, Eq)]
pub struct SndmMetadata {
    pub genre: String,
    pub author: String,
    pub album: String,
}

/// What the tags of a chunk set: genre, author and album texts.
pub ghost struct SndmView {
    pub genre: Seq<char>,
    pub author: Seq<char>,
    pub album: Seq<char>,
}

/// Reads the tags of `s` on top of `acc`: while a tag header fits, a header,
/// a three byte id, a big-endian data length and a spacer, then for the
/// ids `gen`, `aut` and `alb` the data as that field's text (a later tag
/// replacing an earlier one); any other id ends the tags.
pub open spec fn sndm_tags(s: Seq<u8>, acc: SndmView) -> Result<SndmView, LocalError>
    decreases s.len(),
{
    if s.len() < TAG_HEADER_LENGTH_IN_BYTES {
        Ok(acc)
    } else {
        let s = s.skip(TAG_HEADER_LENGTH_IN_BYTES as int);
        match text_field(s, TAG_ID_LENGTH_IN_BYTES as int) {
            Err(e) => Err(e),
            Ok((id, s)) => match u16_field(s, Endian::Big) {
                Err(e) => Err(e),
                Ok((length, s)) => match take_field(s, TAG_DATA_SPACER_LENGTH_IN_BYTES as int) {
                    Err(e) => Err(e),
                    Ok((_, s)) => if id == GENRE_TAG_ID@ || id == AUTHOR_TAG_ID@ || id
                        == ALBUM_TAG_ID@ {
                        match text_field(s, length as int) {
                            Err(e) => Err(e),
                            Ok((text, rest)) => sndm_tags(
                                rest,
                                if id == GENRE_TAG_ID@ {
                                    SndmView { genre: text, ..acc }
                                } else if id == AUTHOR_TAG_ID@ {
                                    SndmView { author: text, ..acc }
                                } else {
                                    SndmView { album: text, ..acc }
                                },
                            ),
                        }
                    } else {
                        Ok(acc)
                    },
                },
            },
        }
    }
}

/// Decodes a `SNDM` chunk: the genre, author and album tags, each empty
/// when the chunk does not set it.
#[verifier::loop_isolation(false)]
pub fn get_metadata(chunk_data: Vec<u8>) -> (result: Result<SndmMetadata, LocalError>)
    ensures
        match sndm_tags(
            chunk_data@,
            SndmView { genre: Seq::empty(), author: Seq::empty(), album: Seq::empty() },
        ) {
            Ok(v) => result matches Ok(m) && m.genre@ == v.genre && m.author@ == v.author
                && m.album@ == v.album,
            Err(e) => result == Err::<SndmMetadata, LocalError>(e),
        },
{
    let ghost start = chunk_data@;
    let mut data = chunk_data;
    let mut genre = String::new();
    let mut author = String::new();
    let mut album = String::new();
    loop
        invariant
            sndm_tags(
                start,
                SndmView { genre: Seq::empty(), author: Seq::empty(), album: Seq::empty() },
            ) == sndm_tags(
                data@,
                SndmView { genre: genre@, author: author@, album: album@ },
            ),
        decreases data@.len(),
    {
        let ghost acc = SndmView { genre: genre@, author: author@, album: album@ };
        let ghost before = data@;
        if data.len() < TAG_HEADER_LENGTH_IN_BYTES {
            break ;
        }
        let _header = match take_first_number_of_bytes(&mut data, TAG_HEADER_LENGTH_IN_BYTES) {
            Ok(b) => b,
            Err(e) => return Err(e),
        };
        let tag_id = match take_first_number_of_bytes_as_string(&mut data, TAG_ID_LENGTH_IN_BYTES) {
            Ok(t) => t,
            Err(e) => return Err(e),
        };
        let tag_data_length = match take_first_two_bytes_as_unsigned_integer(&mut data, Endian::Big) {
            Ok(v) => v,
            Err(e) => return Err(e),
        };
        let _spacer = match take_first_number_of_bytes(&mut data, TAG_DATA_SPACER_LENGTH_IN_BYTES) {
            Ok(b) => b,
            Err(e) => return Err(e),
        };
        let is_genre = text_equals(&tag_id, GENRE_TAG_ID);
        let is_author = text_equals(&tag_id, AUTHOR_TAG_ID);
        let is_album = text_equals(&tag_id, ALBUM_TAG_ID);
        if !is_genre && !is_author && !is_album {
            break ;
        }
        let text = match take_first_number_of_bytes_as_string(&mut data, tag_data_length as usize) {
            Ok(t) => t,
            Err(e) => return Err(e),
        };
        if is_genre {
            genre = text;
        } else if is_author {
            author = text;
        } else {
            album = text;
        }
    }
    Ok(SndmMetadata { genre, author, album })
}

/// The template of a Sound Designer chunk.
pub const SNDM_TEMPLATE: &'static str = "\n-------------\nSound Designer (SNDM) Chunk Details:\n-------------\nGenre: {{ genre }}\nAuthor: {{ author }}\nAlbum: {{ album }}";

/// The values a Sound Designer chunk is rendered from.
pub open spec fn sndm_output_values(m: SndmMetadata) -> Seq<(Seq<char>, Seq<char>)> {
    seq![("genre"@, m.genre@), ("author"@, m.author@), ("album"@, m.album@)]
}

impl SndmMetadata {
    /// Renders the genre, author and album.
    pub fn format_data_for_output(&self) -> (result: Result<String, String>)
        ensures
            rendered_as(result, upon_rendered_text(SNDM_TEMPLATE@, sndm_output_values(*self))),
    {
        let values = vec![
            named("genre", self.genre.clone()),
            named("author", self.author.clone()),
            named("album", self.album.clone()),
        ];
        assert(values_view(values@) =~= sndm_output_values(*self));
        get_file_chunk_output(SNDM_TEMPLATE, &values)
    }
}

/// The report entry of a Sound Designer chunk: the decoding error, or its
/// genre, author and album rendered under `Optional`.
pub open spec fn sndm_entry_is(data: Seq<u8>, result: Result<OutputEntry, LocalError>) -> bool {
    match sndm_tags(data, SndmView { genre: Seq::empty(), author: Seq::empty(), album: Seq::empty() }) {
        Ok(v) => entry_of(
            Section::Optional,
            upon_rendered_text(SNDM_TEMPLATE@, seq![("genre"@, v.genre), ("author"@, v.author), ("album"@, v.album)]),
            result,
        ),
        Err(e) => result == Err::<OutputEntry, LocalError>(e),
    }
}

/// Decodes a Sound Designer chunk and renders it as its report entry.
pub fn sndm_entry(chunk_data: Vec<u8>) -> (result: Result<OutputEntry, LocalError>)
    ensures
        sndm_entry_is(chunk_data@, result),
{
    let ghost data = chunk_data@;
    match get_metadata(chunk_data) {
        Ok(m) => {
            let ghost v = sndm_tags(data, SndmView { genre: Seq::empty(), author: Seq::empty(), album: Seq::empty() })->Ok_0;
            assert(sndm_output_values(m) =~= seq![("genre"@, v.genre), ("author"@, v.author), ("album"@, v.album)]);
            into_entry(Section::Optional, m.format_data_for_output())
        },
        Err(e) => Err(e),
    }
}

} // verus!
