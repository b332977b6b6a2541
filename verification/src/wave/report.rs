use crate::chunks::smpl::{smpl_output_values, SMPL_TEMPLATE};
use crate::chunks::sndm::{sndm_output_values, SNDM_TEMPLATE};
use crate::shared::extra::extra_chunks_output;
use crate::shared::text::{TextFields, TEXT_TEMPLATE};
use crate::strings::{decimal_text, insertable_at_byte_two, lines_view};
use crate::template::{join_on_own_lines, own_lines, rendered_as, upon_rendered_text};
use crate::wave::acid::{acid_output_values, ACID_TEMPLATE};
use crate::wave::bext::{bext_output_values, BEXT_TEMPLATE};
use crate::wave::cart::cart_output_lines;
use crate::wave::chunk::{chunk_kind, get_chunk_kind, Chunk, ChunkKind};
use crate::wave::cue::{cue_output_values, CUE_TEMPLATE};
use crate::wave::fact::FACT_TEMPLATE;
use crate::wave::fmt::fmt_output_lines;
use crate::wave::id3::{id3_tag_text, ID3Tag, ID3_TEMPLATE};
use crate::wave::list::{list_output, ListFields};
use crate::wave::resu::RESU_TEMPLATE;
use crate::wave::umid::UMID_TEMPLATE;
use crate::wave::xmp::XMP_OUTPUT_HEADER;
use crate::formating::hex_bytes_text;
use vstd::prelude::*;

verus! {

/// The title of a JUNK chunk's text.
pub const JUNK_TEMPLATE_TITLE: &'static str = "Junk";
/// The title of an iXML chunk's text.
pub const IXML_TEMPLATE_TITLE: &'static str = "iXML";
/// The title of an AXML chunk's text.
pub const AXML_TEMPLATE_TITLE: &'static str = "AXML";
/// The title of a PAD chunk's text.
pub const PAD_TEMPLATE_TITLE: &'static str = "Pad";

/// A text chunk's body rendered under a title; nothing when there is none.
pub open spec fn text_output(body: Option<TextFields>, title: Seq<char>) -> Result<
    Seq<char>,
    Seq<char>,
> {
    match body {
        Some(t) => upon_rendered_text(TEXT_TEMPLATE@, seq![("title"@, title), ("body"@, t.body@)]),
        None => Ok(Seq::empty()),
    }
}

/// The `LIST` chunks rendered one after another; the first error met ends it.
pub open spec fn lists_output(lists: Seq<ListFields>) -> Result<Seq<char>, Seq<char>>
    decreases lists.len(),
{
    if lists.len() == 0 {
        Ok(Seq::empty())
    } else {
        match lists_output(lists.drop_last()) {
            Err(e) => Err(e),
            Ok(before) => match list_output(lists.last()) {
                Err(e) => Err(e),
                Ok(text) => Ok(before + text),
            },
        }
    }
}

/// What the chunks of a kind are rendered as: nothing when none was stored,
/// and nothing for the audio data, ignored chunks and chunks without a
/// decoder (those are rendered together at the end). The ACID chunk's two
/// floating point fields come as the texts they are written as.
pub open spec fn kind_output(c: Chunk, kind: ChunkKind, mystery_two: Seq<char>, tempo: Seq<char>) -> Result<
    Seq<char>,
    Seq<char>,
> {
    match kind {
        ChunkKind::Fact => match c.fact_data {
            Some(f) => upon_rendered_text(
                FACT_TEMPLATE@,
                seq![("samples_per_channel"@, decimal_text(f.samples_per_channel as nat))],
            ),
            None => Ok(Seq::empty()),
        },
        ChunkKind::Format => match c.format_data {
            Some(f) => Ok(own_lines(fmt_output_lines(f))),
            None => Ok(Seq::empty()),
        },
        ChunkKind::Bext => match c.bext_data {
            Some(b) => upon_rendered_text(BEXT_TEMPLATE@, bext_output_values(b)),
            None => Ok(Seq::empty()),
        },
        ChunkKind::Id3 => match c.id3_data {
            Some(i) => upon_rendered_text(
                ID3_TEMPLATE@,
                seq![("id3_tags"@, own_lines(i.tags@.map_values(|t: ID3Tag| id3_tag_text(t))))],
            ),
            None => Ok(Seq::empty()),
        },
        ChunkKind::Cue => match c.cue_data {
            Some(q) => upon_rendered_text(CUE_TEMPLATE@, cue_output_values(q)),
            None => Ok(Seq::empty()),
        },
        ChunkKind::Junk => text_output(c.junk_data, JUNK_TEMPLATE_TITLE@),
        ChunkKind::Acid => match c.acid_data {
            Some(a) => upon_rendered_text(ACID_TEMPLATE@, acid_output_values(a.metadata, mystery_two, tempo)),
            None => Ok(Seq::empty()),
        },
        ChunkKind::Xmp => match c.xmp_data {
            Some(x) => if x.xmp_xml@.len() == 0 {
                Ok(Seq::empty())
            } else {
                Ok(own_lines(seq![XMP_OUTPUT_HEADER@, x.xmp_xml@]))
            },
            None => Ok(Seq::empty()),
        },
        ChunkKind::Ixml => text_output(c.ixml_data, IXML_TEMPLATE_TITLE@),
        ChunkKind::Resu => match c.resu_data {
            Some(r) => upon_rendered_text(RESU_TEMPLATE@, seq![("resu_json"@, r.resu_json@)]),
            None => Ok(Seq::empty()),
        },
        ChunkKind::Cart => match c.cart_data {
            Some(d) => Ok(own_lines(cart_output_lines(d))),
            None => Ok(Seq::empty()),
        },
        ChunkKind::Smpl => match c.smpl_data {
            Some(s) => upon_rendered_text(SMPL_TEMPLATE@, smpl_output_values(s)),
            None => Ok(Seq::empty()),
        },
        ChunkKind::Umid => match c.umid_data {
            Some(u) => upon_rendered_text(UMID_TEMPLATE@, seq![("umid"@, hex_bytes_text(u.umid_bytes@))]),
            None => Ok(Seq::empty()),
        },
        ChunkKind::Sndm => match c.sndm_data {
            Some(s) => upon_rendered_text(SNDM_TEMPLATE@, sndm_output_values(s)),
            None => Ok(Seq::empty()),
        },
        ChunkKind::Axml => text_output(c.axml_data, AXML_TEMPLATE_TITLE@),
        ChunkKind::Pad => text_output(c.pad_data, PAD_TEMPLATE_TITLE@),
        ChunkKind::List => lists_output(c.list_data@),
        _ => Ok(Seq::empty()),
    }
}

/// The rendered texts of the chunks found, in the order of their IDs, the
/// empty ones left out; the first error met ends it.
pub open spec fn found_outputs(c: Chunk, ids: Seq<Seq<char>>, mystery_two: Seq<char>, tempo: Seq<char>) -> Result<
    Seq<Seq<char>>,
    Seq<char>,
>
    decreases ids.len(),
{
    if ids.len() == 0 {
        Ok(Seq::empty())
    } else {
        match found_outputs(c, ids.drop_last(), mystery_two, tempo) {
            Err(e) => Err(e),
            Ok(texts) => match kind_output(c, chunk_kind(ids.last()), mystery_two, tempo) {
                Err(e) => Err(e),
                Ok(text) => Ok(
                    if text.len() == 0 {
                        texts
                    } else {
                        texts.push(text)
                    },
                ),
            },
        }
    }
}

/// The report of a Wave file's chunks: the texts of the chunks found, in
/// order, then the chunks without a decoder, empty texts left out.
pub open spec fn chunk_report(c: Chunk, mystery_two: Seq<char>, tempo: Seq<char>) -> Result<
    Seq<Seq<char>>,
    Seq<char>,
> {
    match found_outputs(c, lines_view(c.found_chunk_ids@), mystery_two, tempo) {
        Err(e) => Err(e),
        Ok(texts) => match extra_chunks_output(c.extra_chunks.chunks@) {
            Err(e) => Err(e),
            Ok(extra) => Ok(
                if extra.len() == 0 {
                    texts
                } else {
                    texts.push(extra)
                },
            ),
        },
    }
}

/// An error met rendering the first lists is the error of rendering all.
proof fn lemma_lists_error_persists(lists: Seq<ListFields>, k: int)
    requires
        0 <= k <= lists.len(),
        lists_output(lists.take(k)) is Err,
    ensures
        lists_output(lists) == lists_output(lists.take(k)),
    decreases lists.len(),
{
    if k < lists.len() {
        assert(lists.drop_last().take(k) =~= lists.take(k));
        lemma_lists_error_persists(lists.drop_last(), k);
    } else {
        assert(lists.take(k) =~= lists);
    }
}

/// An error met rendering the first chunks found is the error of rendering
/// them all.
proof fn lemma_found_error_persists(c: Chunk, ids: Seq<Seq<char>>, k: int, m: Seq<char>, t: Seq<char>)
    requires
        0 <= k <= ids.len(),
        found_outputs(c, ids.take(k), m, t) is Err,
    ensures
        found_outputs(c, ids, m, t) == found_outputs(c, ids.take(k), m, t),
    decreases ids.len(),
{
    if k < ids.len() {
        assert(ids.drop_last().take(k) =~= ids.take(k));
        lemma_found_error_persists(c, ids.drop_last(), k, m, t);
    } else {
        assert(ids.take(k) =~= ids);
    }
}

impl Chunk {
    /// Renders the `LIST` chunks one after another.
    fn lists_output_string(&self) -> (result: Result<String, String>)
        ensures
            rendered_as(result, lists_output(self.list_data@)),
    {
        let mut output = String::new();
        let mut i: usize = 0;
        while i < self.list_data.len()
            invariant
                i <= self.list_data@.len(),
                lists_output(self.list_data@.take(i as int)) matches Ok(t) && output@ == t,
            decreases self.list_data@.len() - i,
        {
            assert(self.list_data@.take(i + 1).drop_last() =~= self.list_data@.take(i as int));
            match self.list_data[i].get_metadata_output() {
                Ok(text) => output.append(text.as_str()),
                Err(message) => {
                    proof {
                        lemma_lists_error_persists(self.list_data@, i + 1);
                    }
                    return Err(message);
                },
            }
            i = i + 1;
        }
        assert(self.list_data@.take(i as int) =~= self.list_data@);
        Ok(output)
    }

    /// Renders the chunks of one kind.
    fn kind_output_string(&self, kind: ChunkKind, mystery_two: &str, tempo: &str) -> (result: Result<
        String,
        String,
    >)
        requires
            self.cart_data matches Some(d) ==> insertable_at_byte_two(d.version@),
        ensures
            rendered_as(result, kind_output(*self, kind, mystery_two@, tempo@)),
    {
        match kind {
            ChunkKind::Fact => match &self.fact_data {
                Some(f) => f.get_metadata_output(),
                None => Ok(String::new()),
            },
            ChunkKind::Format => match &self.format_data {
                Some(f) => Ok(join_on_own_lines(&f.get_metadata_output())),
                None => Ok(String::new()),
            },
            ChunkKind::Bext => match &self.bext_data {
                Some(b) => b.format_data_for_output(),
                None => Ok(String::new()),
            },
            ChunkKind::Id3 => match &self.id3_data {
                Some(i) => i.format_data_for_output(),
                None => Ok(String::new()),
            },
            ChunkKind::Cue => match &self.cue_data {
                Some(q) => q.format_data_for_output(),
                None => Ok(String::new()),
            },
            ChunkKind::Junk => match &self.junk_data {
                Some(t) => t.format_data_for_output(JUNK_TEMPLATE_TITLE),
                None => Ok(String::new()),
            },
            ChunkKind::Acid => match &self.acid_data {
                Some(a) => a.format_data_for_output(mystery_two, tempo),
                None => Ok(String::new()),
            },
            ChunkKind::Xmp => match &self.xmp_data {
                Some(x) => {
                    let lines = x.get_metadata_output();
                    proof {
                        if x.xmp_xml@.len() == 0 {
                            assert(lines_view(lines@) =~= Seq::<Seq<char>>::empty());
                        } else {
                            assert(lines_view(lines@) =~= seq![XMP_OUTPUT_HEADER@, x.xmp_xml@]);
                        }
                    }
                    Ok(join_on_own_lines(&lines))
                },
                None => Ok(String::new()),
            },
            ChunkKind::Ixml => match &self.ixml_data {
                Some(t) => t.format_data_for_output(IXML_TEMPLATE_TITLE),
                None => Ok(String::new()),
            },
            ChunkKind::Resu => match &self.resu_data {
                Some(r) => r.format_data_for_output(),
                None => Ok(String::new()),
            },
            ChunkKind::Cart => match &self.cart_data {
                Some(d) => Ok(join_on_own_lines(&d.get_metadata_output())),
                None => Ok(String::new()),
            },
            ChunkKind::Smpl => match &self.smpl_data {
                Some(s) => s.format_data_for_output(),
                None => Ok(String::new()),
            },
            ChunkKind::Umid => match &self.umid_data {
                Some(u) => u.format_data_for_output(),
                None => Ok(String::new()),
            },
            ChunkKind::Sndm => match &self.sndm_data {
                Some(s) => s.format_data_for_output(),
                None => Ok(String::new()),
            },
            ChunkKind::Axml => match &self.axml_data {
                Some(t) => t.format_data_for_output(AXML_TEMPLATE_TITLE),
                None => Ok(String::new()),
            },
            ChunkKind::Pad => match &self.pad_data {
                Some(t) => t.format_data_for_output(PAD_TEMPLATE_TITLE),
                None => Ok(String::new()),
            },
            ChunkKind::List => self.lists_output_string(),
            _ => Ok(String::new()),
        }
    }

    /// Renders the chunks found, in the order their IDs were first met,
    /// leaving out empty texts, then the chunks without a decoder. The ACID
    /// chunk's second mystery value and tempo are floating point numbers,
    /// handed in as the texts they are written as. A cart chunk's version
    /// must take a `.` after its second byte.
    pub fn format_data_for_output(&self, acid_mystery_two: &str, acid_tempo: &str) -> (result: Result<
        Vec<String>,
        String,
    >)
        requires
            self.cart_data matches Some(d) ==> insertable_at_byte_two(d.version@),
        ensures
            match chunk_report(*self, acid_mystery_two@, acid_tempo@) {
                Ok(texts) => result matches Ok(v) && lines_view(v@) == texts,
                Err(message) => result matches Err(m) && m@ == message,
            },
    {
        let ghost ids = lines_view(self.found_chunk_ids@);
        let mut data_output_lines: Vec<String> = Vec::new();
        let mut i: usize = 0;
        while i < self.found_chunk_ids.len()
            invariant
                i <= self.found_chunk_ids@.len(),
                ids == lines_view(self.found_chunk_ids@),
                self.cart_data matches Some(d) ==> insertable_at_byte_two(d.version@),
                found_outputs(*self, ids.take(i as int), acid_mystery_two@, acid_tempo@) matches Ok(t)
                    && lines_view(data_output_lines@) == t,
            decreases self.found_chunk_ids@.len() - i,
        {
            assert(ids.take(i + 1).drop_last() =~= ids.take(i as int));
            assert(ids.take(i + 1).last() == self.found_chunk_ids@[i as int]@);
            let kind = get_chunk_kind(&self.found_chunk_ids[i]);
            match self.kind_output_string(kind, acid_mystery_two, acid_tempo) {
                Ok(text) => {
                    let ghost before = lines_view(data_output_lines@);
                    let ghost shown = text@;
                    if text.as_str().unicode_len() > 0 {
                        data_output_lines.push(text);
                        assert(lines_view(data_output_lines@) =~= before.push(shown));
                    }
                },
                Err(message) => {
                    proof {
                        lemma_found_error_persists(*self, ids, i + 1, acid_mystery_two@, acid_tempo@);
                    }
                    return Err(message);
                },
            }
            i = i + 1;
        }
        assert(ids.take(i as int) =~= ids);
        match self.extra_chunks.format_data_for_output() {
            Ok(extra) => {
                let ghost before = lines_view(data_output_lines@);
                let ghost shown = extra@;
                if extra.as_str().unicode_len() > 0 {
                    data_output_lines.push(extra);
                    assert(lines_view(data_output_lines@) =~= before.push(shown));
                }
                Ok(data_output_lines)
            },
            Err(message) => Err(message),
        }
    }
}

} // verus!
