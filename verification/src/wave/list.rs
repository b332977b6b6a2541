use crate::byte_arrays::{take_first_number_of_bytes_as_string, text_field};
pub use crate::chunks::list::{
    adtl_data_matches, adtl_items, cue_text_field, failure_is, info_items, infos_view,
    labeled_text_field, labeled_text_view, AdtlView, AssociatedData, InfoData, LabelData,
    LabeledText, ListFailure, NoteData, ADTL_TYPE_ID, INFO_TYPE_ID, LIST_TYPE_LENGTH_IN_BYTES,
};
use crate::chunks::list::{
    adtl_records, data_labeled_text_data, parse_info_data, take_cue_text,
};
use crate::errors::LocalError;
use crate::strings::text_equals;
use crate::template::{get_file_chunk_output, join_on_own_lines, labelled, labelled_string, named, own_lines, rendered_as, upon_rendered_text, values_view};
use crate::strings::{decimal_text, lines_view, push_decimal};
use vstd::prelude::*;

verus! {

/// The items of a `LIST` chunk of a Wave file.
#[derive(Debug, Clone, PartialEq, Eq)]
pub struct ListFields {
    pub info_data: Vec<InfoData>,
    pub adtl_data: Vec<AssociatedData>,
}

/// Reads the items of an information list.
pub fn read_info_list(list_data: &mut Vec<u8>) -> (result: Result<Vec<InfoData>, LocalError>)
    ensures
        match info_items(old(list_data)@) {
            Ok(items) => result matches Ok(v) && infos_view(v@) == items,
            Err(e) => result == Err::<Vec<InfoData>, LocalError>(e),
        },
{
    parse_info_data(list_data)
}

/// Reads the sub-chunks of an associated data list (label texts not padded).
pub fn read_adtl_list(list_data: &mut Vec<u8>) -> (result: Result<Vec<AssociatedData>, LocalError>)
    ensures
        match adtl_items(old(list_data)@, false) {
            Ok(items) => result matches Ok(v) && adtl_data_matches(v@, items),
            Err(f) => result matches Err(e) && failure_is(e, f),
        },
{
    adtl_records(list_data, false)
}

/// Reads a label.
pub fn read_label_data(list_data: &mut Vec<u8>) -> (result: Result<LabelData, LocalError>)
    ensures
        match cue_text_field(old(list_data)@, false) {
            Ok((id, t, rest)) => result matches Ok(label) && label.cue_point_id == id && label.data@
                == t && final(list_data)@ == rest,
            Err(e) => result == Err::<LabelData, LocalError>(e),
        },
{
    match take_cue_text(list_data, false) {
        Ok((cue_point_id, data)) => Ok(LabelData { cue_point_id, data }),
        Err(e) => Err(e),
    }
}

/// Reads a note.
pub fn read_note_data(list_data: &mut Vec<u8>) -> (result: Result<NoteData, LocalError>)
    ensures
        match cue_text_field(old(list_data)@, false) {
            Ok((id, t, rest)) => result matches Ok(note) && note.cue_point_id == id && note.data@
                == t && final(list_data)@ == rest,
            Err(e) => result == Err::<NoteData, LocalError>(e),
        },
{
    match take_cue_text(list_data, false) {
        Ok((cue_point_id, data)) => Ok(NoteData { cue_point_id, data }),
        Err(e) => Err(e),
    }
}

/// Reads a labeled text; it takes every byte that is left.
pub fn read_labeled_text_data(list_data: &mut Vec<u8>) -> (result: Result<LabeledText, LocalError>)
    ensures
        match labeled_text_field(old(list_data)@) {
            Ok(v) => result matches Ok(t) && labeled_text_view(t) == v,
            Err(e) => result == Err::<LabeledText, LocalError>(e),
        },
{
    data_labeled_text_data(list_data)
}

/// Why reading a Wave `LIST` chunk failed: as for any list, or a list type
/// that is neither `INFO` nor `adtl`.
pub ghost enum ListFieldsFailure {
    List(ListFailure),
    UnknownListType(Seq<char>),
}

/// What a Wave `LIST` chunk holds: a four byte list type, then the items of
/// an `INFO` list or the sub-chunks of an `adtl` list (label texts not
/// padded); another list type is refused.
pub open spec fn list_fields(s: Seq<u8>) -> Result<
    (Seq<(Seq<char>, Seq<char>)>, Seq<AdtlView>),
    ListFieldsFailure,
> {
    match text_field(s, LIST_TYPE_LENGTH_IN_BYTES as int) {
        Err(e) => Err(ListFieldsFailure::List(ListFailure::Error(e))),
        Ok((list_type, s)) => if list_type == INFO_TYPE_ID@ {
            match info_items(s) {
                Err(e) => Err(ListFieldsFailure::List(ListFailure::Error(e))),
                Ok(items) => Ok((items, Seq::empty())),
            }
        } else if list_type == ADTL_TYPE_ID@ {
            match adtl_items(s, false) {
                Err(f) => Err(ListFieldsFailure::List(f)),
                Ok(items) => Ok((Seq::empty(), items)),
            }
        } else {
            Err(ListFieldsFailure::UnknownListType(list_type))
        },
    }
}

/// Whether the error `e` reports the failure `f`.
pub open spec fn list_fields_failure_is(e: LocalError, f: ListFieldsFailure) -> bool {
    match f {
        ListFieldsFailure::List(g) => failure_is(e, g),
        ListFieldsFailure::UnknownListType(t) => e matches LocalError::InvalidInfoTypeID(text)
            && text@ == t,
    }
}

impl ListFields {
    /// Decodes the bytes of a `LIST` chunk.
    pub fn new(chunk_data: Vec<u8>) -> (result: Result<Self, LocalError>)
        ensures
            match list_fields(chunk_data@) {
                Ok((infos, adtl)) => result matches Ok(l) && infos_view(l.info_data@) == infos
                    && adtl_data_matches(l.adtl_data@, adtl),
                Err(f) => result matches Err(e) && list_fields_failure_is(e, f),
            },
    {
        let mut data = chunk_data;
        let list_type = match take_first_number_of_bytes_as_string(
            &mut data,
            LIST_TYPE_LENGTH_IN_BYTES,
        ) {
            Ok(t) => t,
            Err(e) => return Err(e),
        };
        let mut info_data: Vec<InfoData> = Vec::new();
        let mut adtl_data: Vec<AssociatedData> = Vec::new();
        if text_equals(&list_type, INFO_TYPE_ID) {
            info_data = match read_info_list(&mut data) {
                Ok(v) => v,
                Err(e) => return Err(e),
            };
        } else if text_equals(&list_type, ADTL_TYPE_ID) {
            adtl_data = match read_adtl_list(&mut data) {
                Ok(v) => v,
                Err(e) => return Err(e),
            };
        } else {
            return Err(LocalError::InvalidInfoTypeID(list_type));
        }
        assert(infos_view(Seq::<InfoData>::empty()) =~= Seq::empty());
        Ok(ListFields { info_data, adtl_data })
    }
}

/// The template of the information items of a `LIST` chunk.
pub const LIST_INFO_TEMPLATE: &'static str = "\n-------------\nList (INFO) Chunk Details:\n-------------{{ info_items }}";
/// The template of an associated data list of a `LIST` chunk.
pub const LIST_ADTL_TEMPLATE: &'static str = "\n-------------\nList (adtl) Chunk Details:\n-------------{{ labels }}{{ notes }}{{ labeled_texts }}";

/// The line of an information item: `ID: text`.
pub open spec fn info_line(i: InfoData) -> Seq<char> {
    labelled(i.id@, i.data@)
}

/// The line of a label: `Label {cue point}: text`.
pub open spec fn label_line(l: LabelData) -> Seq<char> {
    labelled("Label "@ + decimal_text(l.cue_point_id as nat), l.data@)
}

/// The line of a note: `Note {cue point}: text`.
pub open spec fn note_line(n: NoteData) -> Seq<char> {
    labelled("Note "@ + decimal_text(n.cue_point_id as nat), n.data@)
}

/// The line of a labeled text: its cue point and text, then its other fields.
pub open spec fn labeled_text_line(t: LabeledText) -> Seq<char> {
    labelled("Labeled Text "@ + decimal_text(t.cue_point_id as nat), t.data@) + " (sample length "@
        + decimal_text(t.sample_length as nat) + ", purpose "@ + t.purpose_id@ + ", country "@
        + t.country@ + ", language "@ + t.language@ + ", dialect "@ + t.dialect@ + ", code page "@
        + t.code_page@ + ")"@
}

/// The values an associated data list is rendered from.
pub open spec fn adtl_output_values(a: AssociatedData) -> Seq<(Seq<char>, Seq<char>)> {
    seq![
        ("labels"@, own_lines(a.labels@.map_values(|x: LabelData| label_line(x)))),
        ("notes"@, own_lines(a.notes@.map_values(|x: NoteData| note_line(x)))),
        ("labeled_texts"@, own_lines(a.labeled_texts@.map_values(|x: LabeledText| labeled_text_line(x)))),
    ]
}

/// The associated data lists rendered one after another; the first error
/// met ends it.
pub open spec fn adtl_outputs(lists: Seq<AssociatedData>) -> Result<Seq<char>, Seq<char>>
    decreases lists.len(),
{
    if lists.len() == 0 {
        Ok(Seq::empty())
    } else {
        match adtl_outputs(lists.drop_last()) {
            Err(e) => Err(e),
            Ok(before) => match upon_rendered_text(LIST_ADTL_TEMPLATE@, adtl_output_values(lists.last())) {
                Err(e) => Err(e),
                Ok(text) => Ok(before + text),
            },
        }
    }
}

/// An error met rendering the first lists of a sequence is the error of
/// rendering them all.
proof fn lemma_adtl_error_persists(lists: Seq<AssociatedData>, k: int)
    requires
        0 <= k <= lists.len(),
        adtl_outputs(lists.take(k)) is Err,
    ensures
        adtl_outputs(lists) == adtl_outputs(lists.take(k)),
    decreases lists.len(),
{
    if k < lists.len() {
        assert(lists.drop_last().take(k) =~= lists.take(k));
        lemma_adtl_error_persists(lists.drop_last(), k);
    } else {
        assert(lists.take(k) =~= lists);
    }
}

/// What a `LIST` chunk is rendered as: its information items, then each of
/// its associated data lists.
pub open spec fn list_output(l: ListFields) -> Result<Seq<char>, Seq<char>> {
    match upon_rendered_text(
        LIST_INFO_TEMPLATE@,
        seq![("info_items"@, own_lines(l.info_data@.map_values(|x: InfoData| info_line(x))))],
    ) {
        Err(e) => Err(e),
        Ok(info) => match adtl_outputs(l.adtl_data@) {
            Err(e) => Err(e),
            Ok(adtl) => Ok(info + adtl),
        },
    }
}

/// The lines of a list of items, in order.
fn info_lines(items: &Vec<InfoData>) -> (text: String)
    ensures
        text@ == own_lines(items@.map_values(|x: InfoData| info_line(x))),
{
    let mut lines: Vec<String> = Vec::new();
    let mut i: usize = 0;
    while i < items.len()
        invariant
            i <= items@.len(),
            lines_view(lines@) =~= items@.take(i as int).map_values(|x: InfoData| info_line(x)),
        decreases items@.len() - i,
    {
        let ghost before = lines_view(lines@);
        let item = &items[i];
        let line = labelled_string(item.id.as_str(), item.data.as_str());
        lines.push(line);
        assert(lines_view(lines@) =~= before.push(info_line(items@[i as int])));
        assert(items@.take(i + 1) =~= items@.take(i as int).push(items@[i as int]));
        i = i + 1;
    }
    assert(items@.take(i as int) =~= items@);
    join_on_own_lines(&lines)
}

/// The lines of a list of items, in order.
fn label_lines(items: &Vec<LabelData>) -> (text: String)
    ensures
        text@ == own_lines(items@.map_values(|x: LabelData| label_line(x))),
{
    let mut lines: Vec<String> = Vec::new();
    let mut i: usize = 0;
    while i < items.len()
        invariant
            i <= items@.len(),
            lines_view(lines@) =~= items@.take(i as int).map_values(|x: LabelData| label_line(x)),
        decreases items@.len() - i,
    {
        let ghost before = lines_view(lines@);
        let item = &items[i];
        let mut label = String::from_str("Label ");
        push_decimal(&mut label, item.cue_point_id as u64);
        let line = labelled_string(label.as_str(), item.data.as_str());
        lines.push(line);
        assert(lines_view(lines@) =~= before.push(label_line(items@[i as int])));
        assert(items@.take(i + 1) =~= items@.take(i as int).push(items@[i as int]));
        i = i + 1;
    }
    assert(items@.take(i as int) =~= items@);
    join_on_own_lines(&lines)
}

/// The lines of a list of items, in order.
fn note_lines(items: &Vec<NoteData>) -> (text: String)
    ensures
        text@ == own_lines(items@.map_values(|x: NoteData| note_line(x))),
{
    let mut lines: Vec<String> = Vec::new();
    let mut i: usize = 0;
    while i < items.len()
        invariant
            i <= items@.len(),
            lines_view(lines@) =~= items@.take(i as int).map_values(|x: NoteData| note_line(x)),
        decreases items@.len() - i,
    {
        let ghost before = lines_view(lines@);
        let item = &items[i];
        let mut label = String::from_str("Note ");
        push_decimal(&mut label, item.cue_point_id as u64);
        let line = labelled_string(label.as_str(), item.data.as_str());
        lines.push(line);
        assert(lines_view(lines@) =~= before.push(note_line(items@[i as int])));
        assert(items@.take(i + 1) =~= items@.take(i as int).push(items@[i as int]));
        i = i + 1;
    }
    assert(items@.take(i as int) =~= items@);
    join_on_own_lines(&lines)
}

/// The lines of a list of items, in order.
fn labeled_text_lines(items: &Vec<LabeledText>) -> (text: String)
    ensures
        text@ == own_lines(items@.map_values(|x: LabeledText| labeled_text_line(x))),
{
    let mut lines: Vec<String> = Vec::new();
    let mut i: usize = 0;
    while i < items.len()
        invariant
            i <= items@.len(),
            lines_view(lines@) =~= items@.take(i as int).map_values(|x: LabeledText| labeled_text_line(x)),
        decreases items@.len() - i,
    {
        let ghost before = lines_view(lines@);
        let item = &items[i];
        let mut label = String::from_str("Labeled Text ");
        push_decimal(&mut label, item.cue_point_id as u64);
        let mut line = labelled_string(label.as_str(), item.data.as_str());
        line.append(" (sample length ");
        push_decimal(&mut line, item.sample_length as u64);
        line.append(", purpose ");
        line.append(item.purpose_id.as_str());
        line.append(", country ");
        line.append(item.country.as_str());
        line.append(", language ");
        line.append(item.language.as_str());
        line.append(", dialect ");
        line.append(item.dialect.as_str());
        line.append(", code page ");
        line.append(item.code_page.as_str());
        line.append(")");
        lines.push(line);
        assert(lines_view(lines@) =~= before.push(labeled_text_line(items@[i as int])));
        assert(items@.take(i + 1) =~= items@.take(i as int).push(items@[i as int]));
        i = i + 1;
    }
    assert(items@.take(i as int) =~= items@);
    join_on_own_lines(&lines)
}

impl ListFields {
    /// Renders the information items, then each associated data list in
    /// order, one after another.
    pub fn get_metadata_output(&self) -> (result: Result<String, String>)
        ensures
            rendered_as(result, list_output(*self)),
    {
        let info_values = vec![named("info_items", info_lines(&self.info_data))];
        assert(values_view(info_values@) =~= seq![
            ("info_items"@, own_lines(self.info_data@.map_values(|x: InfoData| info_line(x)))),
        ]);
        let mut output = match get_file_chunk_output(LIST_INFO_TEMPLATE, &info_values) {
            Ok(text) => text,
            Err(message) => return Err(message),
        };
        let ghost info = output@;
        let mut i: usize = 0;
        while i < self.adtl_data.len()
            invariant
                i <= self.adtl_data@.len(),
                upon_rendered_text(
                    LIST_INFO_TEMPLATE@,
                    seq![("info_items"@, own_lines(self.info_data@.map_values(|x: InfoData| info_line(x))))],
                ) == Ok::<Seq<char>, Seq<char>>(info),
                adtl_outputs(self.adtl_data@.take(i as int)) matches Ok(a) && output@ == info + a,
            decreases self.adtl_data@.len() - i,
        {
            let field = &self.adtl_data[i];
            let values = vec![
                named("labels", label_lines(&field.labels)),
                named("notes", note_lines(&field.notes)),
                named("labeled_texts", labeled_text_lines(&field.labeled_texts)),
            ];
            assert(values_view(values@) =~= adtl_output_values(self.adtl_data@[i as int]));
            assert(self.adtl_data@.take(i + 1).drop_last() =~= self.adtl_data@.take(i as int));
            match get_file_chunk_output(LIST_ADTL_TEMPLATE, &values) {
                Ok(text) => output.append(text.as_str()),
                Err(message) => {
                    proof {
                        lemma_adtl_error_persists(self.adtl_data@, i + 1);
                    }
                    return Err(message);
                },
            }
            proof {
                let a = adtl_outputs(self.adtl_data@.take(i as int))->Ok_0;
                assert(output@ =~= info + (a + upon_rendered_text(
                    LIST_ADTL_TEMPLATE@,
                    adtl_output_values(self.adtl_data@[i as int]),
                )->Ok_0));
            }
            i = i + 1;
        }
        assert(self.adtl_data@.take(i as int) =~= self.adtl_data@);
        Ok(output)
    }
}

} // verus!
