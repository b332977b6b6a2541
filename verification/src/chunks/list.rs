use crate::byte_arrays::{
    take_first_four_bytes_as_unsigned_integer, take_first_number_of_bytes_as_string, text_field,
    u32_field, Endian,
};
use crate::errors::LocalError;
use crate::strings::text_equals;
use crate::template::{entry_of, into_entry};
use crate::output::{OutputEntry, Section};
use crate::wave::list::{list_output, ListFields};
use vstd::prelude::*;

verus! {

/// Length of the list type of a `LIST` chunk.
pub const LIST_TYPE_LENGTH_IN_BYTES: usize = 4;

/// List type of an information list.
pub const INFO_TYPE_ID: &'static str = "INFO";

/// List type of an associated data list.
pub const ADTL_TYPE_ID: &'static str = "adtl";

/// Length of the id of an information item.
pub const INFO_ITEM_ID_LENGTH_IN_BYTES: usize = 4;

/// Length of the id of an associated data sub-chunk.
pub const ADTL_SUB_CHUNK_ID_LENGTH_IN_BYTES: usize = 4;

/// Id of a label sub-chunk.
pub const ADTL_SUB_CHUNK_ID_LABEL: &'static str = "labl";

/// Id of a note sub-chunk.
pub const ADTL_SUB_CHUNK_ID_NOTE: &'static str = "note";

/// Id of a labeled text sub-chunk.
pub const ADTL_SUB_CHUNK_ID_LABELED_TEXT: &'static str = "ltxt";

/// Length of the cue point id at the start of a label or note.
pub const ADTL_CUE_POINT_ID_LENGTH_IN_BYTES: usize = 4;

/// An item of an information list.
#[derive(Debug, Clone, PartialEq, Eq)]
pub struct InfoData {
    pub id: String,
    pub data: String,
}

/// A label of a cue point.
#[derive(Debug, Clone, PartialEq, Eq)]
pub struct LabelData {
    pub cue_point_id: u32,
    pub data: String,
}

/// A note on a cue point.
#[derive(Debug, Clone, PartialEq, Eq)]
pub struct NoteData {
    pub cue_point_id: u32,
    pub data: String,
}

/// A text about a stretch of samples from a cue point.
#[derive(Debug, Clone, PartialEq, Eq)]
pub struct LabeledText {
    pub cue_point_id: u32,
    pub sample_length: u32,
    pub purpose_id: String,
    pub country: String,
    pub language: String,
    pub dialect: String,
    pub code_page: String,
    pub data: String,
}

/// One sub-chunk of an associated data list, in the list that fits its kind.
#[derive(Debug, Clone, PartialEq, Eq)]
pub struct AssociatedData {
    pub labels: Vec<LabelData>,
    pub notes: Vec<NoteData>,
    pub labeled_texts: Vec<LabeledText>,
}

/// The items of a `LIST` chunk.
#[derive(Debug, Clone, PartialEq, Eq)]
pub struct ListMetadata {
    pub info_data: Vec<InfoData>,
    pub adtl_data: Vec<AssociatedData>,
}

/// The length of a field of `size` bytes padded to an even length.
pub open spec fn padded(size: u32) -> int {
    size + size % 2
}

/// The items of an information list: while bytes remain, a four byte id,
/// a little-endian size and the item's text, padded to an even length.
pub open spec fn info_items(s: Seq<u8>) -> Result<Seq<(Seq<char>, Seq<char>)>, LocalError>
    decreases s.len(),
{
    if s.len() == 0 {
        Ok(Seq::empty())
    } else {
        match text_field(s, INFO_ITEM_ID_LENGTH_IN_BYTES as int) {
            Err(e) => Err(e),
            Ok((id, s)) => match u32_field(s, Endian::Little) {
                Err(e) => Err(e),
                Ok((size, s)) => match text_field(s, padded(size)) {
                    Err(e) => Err(e),
                    Ok((data, s)) => match info_items(s) {
                        Err(e) => Err(e),
                        Ok(rest) => Ok(seq![(id, data)] + rest),
                    },
                },
            },
        }
    }
}

/// The view of an information item.
pub open spec fn info_view(i: InfoData) -> (Seq<char>, Seq<char>) {
    (i.id@, i.data@)
}

/// The views of a list of information items.
pub open spec fn infos_view(items: Seq<InfoData>) -> Seq<(Seq<char>, Seq<char>)> {
    items.map_values(|i: InfoData| info_view(i))
}

/// Takes a text field of `size` bytes padded to an even length.
pub fn take_padded_text(data: &mut Vec<u8>, size: u32) -> (result: Result<String, LocalError>)
    ensures
        match text_field(old(data)@, padded(size)) {
            Ok((t, rest)) => result matches Ok(text) && text@ == t && final(data)@ == rest,
            Err(e) => result == Err::<String, LocalError>(e),
        },
{
    let length: u64 = size as u64 + (size % 2) as u64;
    if length > data.len() as u64 {
        return Err(LocalError::InsufficientBytesToTake(length as usize, data.len()));
    }
    take_first_number_of_bytes_as_string(data, length as usize)
}

/// Reads the items of an information list.
pub fn parse_info_data(list_data: &mut Vec<u8>) -> (result: Result<Vec<InfoData>, LocalError>)
    ensures
        match info_items(old(list_data)@) {
            Ok(items) => result matches Ok(v) && infos_view(v@) == items,
            Err(e) => result == Err::<Vec<InfoData>, LocalError>(e),
        },
{
    let ghost start = list_data@;
    let mut list_fields: Vec<InfoData> = Vec::new();
    loop
        invariant
            start == old(list_data)@,
            info_items(start) == match info_items(list_data@) {
                Ok(rest) => Ok(infos_view(list_fields@) + rest),
                Err(e) => Err::<Seq<(Seq<char>, Seq<char>)>, LocalError>(e),
            },
        decreases list_data@.len(),
    {
        if list_data.len() == 0 {
            assert(infos_view(list_fields@) + Seq::empty() =~= infos_view(list_fields@));
            return Ok(list_fields);
        }
        let id = match take_first_number_of_bytes_as_string(list_data, INFO_ITEM_ID_LENGTH_IN_BYTES) {
            Ok(t) => t,
            Err(e) => return Err(e),
        };
        let size = match take_first_four_bytes_as_unsigned_integer(list_data, Endian::Little) {
            Ok(v) => v,
            Err(e) => return Err(e),
        };
        let data = match take_padded_text(list_data, size) {
            Ok(t) => t,
            Err(e) => return Err(e),
        };
        let ghost before = infos_view(list_fields@);
        let item = InfoData { id, data };
        list_fields.push(item);
        assert(infos_view(list_fields@) =~= before.push(info_view(item)));
        proof {
            match info_items(list_data@) {
                Ok(rest) => {
                    assert(before + (seq![info_view(item)] + rest) =~= before.push(info_view(item))
                        + rest);
                },
                Err(_) => {},
            }
        }
    }
}

/// What a sub-chunk of an associated data list holds.
pub ghost enum AdtlView {
    Label(u32, Seq<char>),
    Note(u32, Seq<char>),
    LabeledText(u32, u32, Seq<char>, Seq<char>, Seq<char>, Seq<char>, Seq<char>, Seq<char>),
}

/// A label or note: its little-endian size, the cue point id and the text of
/// the size less the id, padded to an even length when `pad` holds. A size
/// too small to hold the id is refused.
pub open spec fn cue_text_field(s: Seq<u8>, pad: bool) -> Result<(u32, Seq<char>, Seq<u8>), LocalError> {
    match u32_field(s, Endian::Little) {
        Err(e) => Err(e),
        Ok((size, s)) => if size < ADTL_CUE_POINT_ID_LENGTH_IN_BYTES {
            Err(LocalError::InsufficientBytesToTake(ADTL_CUE_POINT_ID_LENGTH_IN_BYTES, size as usize))
        } else {
            let data_size = (size - ADTL_CUE_POINT_ID_LENGTH_IN_BYTES) as u32;
            match u32_field(s, Endian::Little) {
                Err(e) => Err(e),
                Ok((cue_point_id, s)) => match text_field(
                    s,
                    if pad {
                        padded(data_size)
                    } else {
                        data_size as int
                    },
                ) {
                    Err(e) => Err(e),
                    Ok((text, s)) => Ok((cue_point_id, text, s)),
                },
            }
        },
    }
}

/// A labeled text: cue point id, sample length, a four byte purpose id,
/// country, language, dialect and code page (two bytes each), then the rest
/// as its text.
pub open spec fn labeled_text_field(s: Seq<u8>) -> Result<AdtlView, LocalError> {
    match u32_field(s, Endian::Little) {
        Err(e) => Err(e),
        Ok((cue_point_id, s)) => match u32_field(s, Endian::Little) {
            Err(e) => Err(e),
            Ok((sample_length, s)) => match text_field(s, 4) {
                Err(e) => Err(e),
                Ok((purpose_id, s)) => match text_field(s, 2) {
                    Err(e) => Err(e),
                    Ok((country, s)) => match text_field(s, 2) {
                        Err(e) => Err(e),
                        Ok((language, s)) => match text_field(s, 2) {
                            Err(e) => Err(e),
                            Ok((dialect, s)) => match text_field(s, 2) {
                                Err(e) => Err(e),
                                Ok((code_page, s)) => match text_field(s, s.len() as int) {
                                    Err(e) => Err(e),
                                    Ok((data, _)) => Ok(
                                        AdtlView::LabeledText(
                                            cue_point_id,
                                            sample_length,
                                            purpose_id,
                                            country,
                                            language,
                                            dialect,
                                            code_page,
                                            data,
                                        ),
                                    ),
                                },
                            },
                        },
                    },
                },
            },
        },
    }
}

/// Why reading a list failed: a field that could not be taken, or a
/// sub-chunk id that is not known.
pub ghost enum ListFailure {
    Error(LocalError),
    UnknownSubChunk(Seq<char>),
}

/// Whether the error `e` reports the failure `f`.
pub open spec fn failure_is(e: LocalError, f: ListFailure) -> bool {
    match f {
        ListFailure::Error(x) => e == x,
        ListFailure::UnknownSubChunk(id) => e matches LocalError::InvalidADTLTypeID(text) && text@
            == id,
    }
}

/// The sub-chunks of an associated data list: while bytes remain, a four
/// byte id, then a label, a note or a labeled text (which takes the rest);
/// any other id is refused. Label texts are padded to an even length when
/// `pad_labels` holds.
pub open spec fn adtl_items(s: Seq<u8>, pad_labels: bool) -> Result<Seq<AdtlView>, ListFailure>
    decreases s.len(),
{
    if s.len() == 0 {
        Ok(Seq::empty())
    } else {
        match text_field(s, ADTL_SUB_CHUNK_ID_LENGTH_IN_BYTES as int) {
            Err(e) => Err(ListFailure::Error(e)),
            Ok((id, s)) => if id == ADTL_SUB_CHUNK_ID_LABEL@ || id == ADTL_SUB_CHUNK_ID_NOTE@ {
                match cue_text_field(s, pad_labels && id == ADTL_SUB_CHUNK_ID_LABEL@) {
                    Err(e) => Err(ListFailure::Error(e)),
                    Ok((cue_point_id, text, s)) => match adtl_items(s, pad_labels) {
                        Err(f) => Err(f),
                        Ok(rest) => Ok(
                            seq![
                                if id == ADTL_SUB_CHUNK_ID_LABEL@ {
                                    AdtlView::Label(cue_point_id, text)
                                } else {
                                    AdtlView::Note(cue_point_id, text)
                                },
                            ] + rest,
                        ),
                    },
                }
            } else if id == ADTL_SUB_CHUNK_ID_LABELED_TEXT@ {
                match labeled_text_field(s) {
                    Err(e) => Err(ListFailure::Error(e)),
                    Ok(v) => Ok(seq![v]),
                }
            } else {
                Err(ListFailure::UnknownSubChunk(id))
            },
        }
    }
}

/// Whether a sub-chunk record holds exactly the one item `v`.
pub open spec fn associated_data_matches(a: AssociatedData, v: AdtlView) -> bool {
    match v {
        AdtlView::Label(id, text) => a.notes@.len() == 0 && a.labeled_texts@.len() == 0
            && a.labels@.len() == 1 && a.labels@[0].cue_point_id == id && a.labels@[0].data@
            == text,
        AdtlView::Note(id, text) => a.labels@.len() == 0 && a.labeled_texts@.len() == 0
            && a.notes@.len() == 1 && a.notes@[0].cue_point_id == id && a.notes@[0].data@ == text,
        AdtlView::LabeledText(..) => {
            &&& a.labels@.len() == 0
            &&& a.notes@.len() == 0
            &&& a.labeled_texts@.len() == 1
            &&& labeled_text_view(a.labeled_texts@[0]) == v
        },
    }
}

/// The view of a labeled text.
pub open spec fn labeled_text_view(t: LabeledText) -> AdtlView {
    AdtlView::LabeledText(
        t.cue_point_id,
        t.sample_length,
        t.purpose_id@,
        t.country@,
        t.language@,
        t.dialect@,
        t.code_page@,
        t.data@,
    )
}

/// Whether the records hold the sub-chunks `views`, one each, in order.
pub open spec fn adtl_data_matches(records: Seq<AssociatedData>, views: Seq<AdtlView>) -> bool {
    records.len() == views.len() && forall|i: int|
        0 <= i < records.len() ==> associated_data_matches(#[trigger] records[i], views[i])
}

/// Reads a label or note: its cue point id and text.
pub(crate) fn take_cue_text(list_data: &mut Vec<u8>, pad: bool) -> (result: Result<(u32, String), LocalError>)
    ensures
        match cue_text_field(old(list_data)@, pad) {
            Ok((id, t, rest)) => result matches Ok((cue_point_id, text)) && cue_point_id == id
                && text@ == t && final(list_data)@ == rest,
            Err(e) => result == Err::<(u32, String), LocalError>(e),
        },
{
    let size = match take_first_four_bytes_as_unsigned_integer(list_data, Endian::Little) {
        Ok(v) => v,
        Err(e) => return Err(e),
    };
    if size < 4 {
        return Err(
            LocalError::InsufficientBytesToTake(ADTL_CUE_POINT_ID_LENGTH_IN_BYTES, size as usize),
        );
    }
    let data_size = size - 4;
    let cue_point_id = match take_first_four_bytes_as_unsigned_integer(list_data, Endian::Little) {
        Ok(v) => v,
        Err(e) => return Err(e),
    };
    let text = if pad {
        match take_padded_text(list_data, data_size) {
            Ok(t) => t,
            Err(e) => return Err(e),
        }
    } else {
        match take_first_number_of_bytes_as_string(list_data, data_size as usize) {
            Ok(t) => t,
            Err(e) => return Err(e),
        }
    };
    Ok((cue_point_id, text))
}

/// Reads a labeled text; it takes every byte that is left.
pub fn data_labeled_text_data(list_data: &mut Vec<u8>) -> (result: Result<LabeledText, LocalError>)
    ensures
        match labeled_text_field(old(list_data)@) {
            Ok(v) => result matches Ok(t) && labeled_text_view(t) == v && final(list_data)@.len()
                == 0,
            Err(e) => result == Err::<LabeledText, LocalError>(e),
        },
{
    let cue_point_id = match take_first_four_bytes_as_unsigned_integer(list_data, Endian::Little) {
        Ok(v) => v,
        Err(e) => return Err(e),
    };
    let sample_length = match take_first_four_bytes_as_unsigned_integer(list_data, Endian::Little) {
        Ok(v) => v,
        Err(e) => return Err(e),
    };
    let purpose_id = match take_first_number_of_bytes_as_string(list_data, 4) {
        Ok(t) => t,
        Err(e) => return Err(e),
    };
    let country = match take_first_number_of_bytes_as_string(list_data, 2) {
        Ok(t) => t,
        Err(e) => return Err(e),
    };
    let language = match take_first_number_of_bytes_as_string(list_data, 2) {
        Ok(t) => t,
        Err(e) => return Err(e),
    };
    let dialect = match take_first_number_of_bytes_as_string(list_data, 2) {
        Ok(t) => t,
        Err(e) => return Err(e),
    };
    let code_page = match take_first_number_of_bytes_as_string(list_data, 2) {
        Ok(t) => t,
        Err(e) => return Err(e),
    };
    let remaining = list_data.len();
    let data = match take_first_number_of_bytes_as_string(list_data, remaining) {
        Ok(t) => t,
        Err(e) => return Err(e),
    };
    Ok(
        LabeledText {
            cue_point_id,
            sample_length,
            purpose_id,
            country,
            language,
            dialect,
            code_page,
            data,
        },
    )
}

/// Reads a label; its text is padded to an even length.
pub fn parse_label_data(list_data: &mut Vec<u8>) -> (result: Result<LabelData, LocalError>)
    ensures
        match cue_text_field(old(list_data)@, true) {
            Ok((id, t, rest)) => result matches Ok(label) && label.cue_point_id == id && label.data@
                == t && final(list_data)@ == rest,
            Err(e) => result == Err::<LabelData, LocalError>(e),
        },
{
    match take_cue_text(list_data, true) {
        Ok((cue_point_id, data)) => Ok(LabelData { cue_point_id, data }),
        Err(e) => Err(e),
    }
}

/// Reads a note.
pub fn parse_note_data(list_data: &mut Vec<u8>) -> (result: Result<NoteData, LocalError>)
    ensures
        match cue_text_field(old(list_data)@, false) {
            Ok((id, t, rest)) => result matches Ok(note) && note.cue_point_id == id && note.data@
                == t && final(list_data)@ == rest,
            Err(e) => result == Err::<NoteData, LocalError>(e),
        },
{
    match take_cue_text(list_data, false) {
        Ok((cue_point_id, data)) => Ok(NoteData { cue_point_id, data }),
        Err(e) => Err(e),
    }
}

/// `prefix` in front of the sub-chunks of a result.
pub open spec fn prepended(prefix: Seq<AdtlView>, result: Result<Seq<AdtlView>, ListFailure>) -> Result<
    Seq<AdtlView>,
    ListFailure,
> {
    match result {
        Ok(rest) => Ok(prefix + rest),
        Err(f) => Err(f),
    }
}

/// Reads the sub-chunks of an associated data list, label texts padded to
/// an even length when `pad_labels` holds.
pub(crate) fn adtl_records(list_data: &mut Vec<u8>, pad_labels: bool) -> (result: Result<
    Vec<AssociatedData>,
    LocalError,
>)
    ensures
        match adtl_items(old(list_data)@, pad_labels) {
            Ok(items) => result matches Ok(v) && adtl_data_matches(v@, items),
            Err(f) => result matches Err(e) && failure_is(e, f),
        },
        result is Ok ==> final(list_data)@.len() == 0,
{
    let ghost start = list_data@;
    let ghost mut done: Seq<AdtlView> = Seq::empty();
    let mut records: Vec<AssociatedData> = Vec::new();
    loop
        invariant
            start == old(list_data)@,
            adtl_items(start, pad_labels) == prepended(done, adtl_items(list_data@, pad_labels)),
            adtl_data_matches(records@, done),
        decreases list_data@.len(),
    {
        if list_data.len() == 0 {
            assert(done + Seq::empty() =~= done);
            return Ok(records);
        }
        let ghost before = list_data@;
        let id = match take_first_number_of_bytes_as_string(list_data, ADTL_SUB_CHUNK_ID_LENGTH_IN_BYTES) {
            Ok(t) => t,
            Err(e) => return Err(e),
        };
        let is_label = text_equals(&id, ADTL_SUB_CHUNK_ID_LABEL);
        let is_note = text_equals(&id, ADTL_SUB_CHUNK_ID_NOTE);
        let is_labeled_text = text_equals(&id, ADTL_SUB_CHUNK_ID_LABELED_TEXT);
        let ghost item: AdtlView;
        let record = if is_label || is_note {
            let (cue_point_id, data) = match take_cue_text(list_data, pad_labels && is_label) {
                Ok(v) => v,
                Err(e) => return Err(e),
            };
            if is_label {
                proof {
                    item = AdtlView::Label(cue_point_id, data@);
                }
                AssociatedData {
                    labels: vec![LabelData { cue_point_id, data }],
                    notes: Vec::new(),
                    labeled_texts: Vec::new(),
                }
            } else {
                proof {
                    item = AdtlView::Note(cue_point_id, data@);
                }
                AssociatedData {
                    labels: Vec::new(),
                    notes: vec![NoteData { cue_point_id, data }],
                    labeled_texts: Vec::new(),
                }
            }
        } else if is_labeled_text {
            let text = match data_labeled_text_data(list_data) {
                Ok(t) => t,
                Err(e) => return Err(e),
            };
            proof {
                item = labeled_text_view(text);
            }
            AssociatedData { labels: Vec::new(), notes: Vec::new(), labeled_texts: vec![text] }
        } else {
            return Err(LocalError::InvalidADTLTypeID(id));
        };
        assert(associated_data_matches(record, item));
        assert(adtl_items(before, pad_labels) == prepended(seq![item], adtl_items(list_data@, pad_labels)));
        proof {
            if let Ok(rest) = adtl_items(list_data@, pad_labels) {
                assert(done + (seq![item] + rest) =~= done.push(item) + rest);
            }
        }
        records.push(record);
        proof {
            done = done.push(item);
        }
    }
}

/// Reads the sub-chunks of an associated data list (label texts padded to
/// an even length).
pub fn parse_adtl_data(list_data: &mut Vec<u8>) -> (result: Result<Vec<AssociatedData>, LocalError>)
    ensures
        match adtl_items(old(list_data)@, true) {
            Ok(items) => result matches Ok(v) && adtl_data_matches(v@, items),
            Err(f) => result matches Err(e) && failure_is(e, f),
        },
        result is Ok ==> final(list_data)@.len() == 0,
{
    adtl_records(list_data, true)
}

/// What a `LIST` chunk holds: a four byte list type, then the items of an
/// `INFO` or `adtl` list; a list of another type holds nothing.
pub open spec fn list_chunk(s: Seq<u8>) -> Result<
    (Seq<(Seq<char>, Seq<char>)>, Seq<AdtlView>),
    ListFailure,
> {
    match text_field(s, LIST_TYPE_LENGTH_IN_BYTES as int) {
        Err(e) => Err(ListFailure::Error(e)),
        Ok((list_type, s)) => if list_type == INFO_TYPE_ID@ {
            match info_items(s) {
                Err(e) => Err(ListFailure::Error(e)),
                Ok(items) => Ok((items, Seq::empty())),
            }
        } else if list_type == ADTL_TYPE_ID@ {
            match adtl_items(s, true) {
                Err(f) => Err(f),
                Ok(items) => Ok((Seq::empty(), items)),
            }
        } else {
            Ok((Seq::empty(), Seq::empty()))
        },
    }
}

/// Decodes a `LIST` chunk.
pub fn get_metadata(chunk_data: Vec<u8>) -> (result: Result<ListMetadata, LocalError>)
    ensures
        match list_chunk(chunk_data@) {
            Ok((infos, adtl)) => result matches Ok(m) && infos_view(m.info_data@) == infos
                && adtl_data_matches(m.adtl_data@, adtl),
            Err(f) => result matches Err(e) && failure_is(e, f),
        },
{
    let mut data = chunk_data;
    let list_type = match take_first_number_of_bytes_as_string(&mut data, LIST_TYPE_LENGTH_IN_BYTES) {
        Ok(t) => t,
        Err(e) => return Err(e),
    };
    let mut info_data: Vec<InfoData> = Vec::new();
    let mut adtl_data: Vec<AssociatedData> = Vec::new();
    if text_equals(&list_type, INFO_TYPE_ID) {
        info_data = match parse_info_data(&mut data) {
            Ok(v) => v,
            Err(e) => return Err(e),
        };
    } else if text_equals(&list_type, ADTL_TYPE_ID) {
        adtl_data = match parse_adtl_data(&mut data) {
            Ok(v) => v,
            Err(e) => return Err(e),
        };
    }
    assert(infos_view(Seq::<InfoData>::empty()) =~= Seq::empty());
    Ok(ListMetadata { info_data, adtl_data })
}

/// The report entry of a `LIST` chunk: the decoding error, or its
/// information items and associated data lists rendered under `Optional`.
pub open spec fn list_entry_is(data: Seq<u8>, result: Result<OutputEntry, LocalError>) -> bool {
    match list_chunk(data) {
        Ok((infos, adtl)) => exists|m: ListMetadata| #[trigger] adtl_data_matches(m.adtl_data@, adtl)
            && infos_view(m.info_data@) == infos && entry_of(
            Section::Optional,
            list_output(ListFields { info_data: m.info_data, adtl_data: m.adtl_data }),
            result,
        ),
        Err(f) => result matches Err(e) && failure_is(e, f),
    }
}

/// Decodes a `LIST` chunk and renders it as its report entry.
pub fn list_entry(chunk_data: Vec<u8>) -> (result: Result<OutputEntry, LocalError>)
    ensures
        list_entry_is(chunk_data@, result),
{
    match get_metadata(chunk_data) {
        Ok(m) => {
            let fields = ListFields { info_data: m.info_data, adtl_data: m.adtl_data };
            into_entry(Section::Optional, fields.get_metadata_output())
        },
        Err(e) => Err(e),
    }
}

} // verus!
