use crate::byte_arrays::{printable_string, printable_text};
use crate::errors::LocalError;
use crate::output::Section;
use crate::strings::{trim_white_space, trim_white_space_string};
use crate::template::{entry_of, named, render_entry, upon_rendered_text, values_view};
use crate::output::OutputEntry;
use vstd::prelude::*;

verus! {

/// A text chunk: its title, its trimmed body, and its section (empty when
/// the body is).
#[derive(Debug, Clone, PartialEq, Eq)]
pub struct TextChunk {
    pub section: Section,
    pub title: String,
    pub body: String,
}

/// Decodes a text chunk (such as an XML or PAD chunk) under a title.
pub fn get_metadata(title: &str, chunk_data: Vec<u8>) -> (result: Result<TextChunk, LocalError>)
    ensures
        result matches Ok(c) && c.title@ == title@ && c.body@ == trim_white_space(
            printable_text(chunk_data@),
        ) && c.section == if c.body@.len() == 0 {
            Section::Empty
        } else {
            Section::Optional
        },
{
    let raw_body = printable_string(&chunk_data);
    let body = trim_white_space_string(raw_body.as_str());
    let section = if body.as_str().unicode_len() == 0 {
        Section::Empty
    } else {
        Section::Optional
    };
    Ok(TextChunk { section, title: String::from_str(title), body })
}

/// The template of a text chunk's report entry.
pub const TEXT_TEMPLATE: &'static str = "\n-------------\n{{ title }}:\n-------------\n{{ body }}";
/// The template of the entry of a chunk without contents.
pub const EMPTY_TEMPLATE: &'static str = "{{ body }}";

/// The report entry of a text chunk: its title under `Empty` when its
/// trimmed text is empty, else its title and text under `Optional`.
pub open spec fn text_entry_is(title: Seq<char>, data: Seq<u8>, result: Result<OutputEntry, LocalError>) -> bool {
    let body = trim_white_space(printable_text(data));
    if body.len() == 0 {
        entry_of(Section::Empty, upon_rendered_text(EMPTY_TEMPLATE@, seq![("body"@, title)]), result)
    } else {
        entry_of(
            Section::Optional,
            upon_rendered_text(TEXT_TEMPLATE@, seq![("title"@, title), ("body"@, body)]),
            result,
        )
    }
}

/// Renders a text chunk under a title as its report entry.
pub fn text_entry(title: &str, chunk_data: Vec<u8>) -> (result: Result<OutputEntry, LocalError>)
    ensures
        text_entry_is(title@, chunk_data@, result),
{
    match get_metadata(title, chunk_data) {
        Ok(text) => {
            if text.section == Section::Empty {
                let values = vec![named("body", text.title)];
                assert(values_view(values@) =~= seq![("body"@, title@)]);
                render_entry(Section::Empty, EMPTY_TEMPLATE, &values)
            } else {
                let ghost body = text.body@;
                let values = vec![named("title", text.title), named("body", text.body)];
                assert(values_view(values@) =~= seq![("title"@, title@), ("body"@, body)]);
                render_entry(Section::Optional, TEXT_TEMPLATE, &values)
            }
        },
        Err(e) => Err(e),
    }
}

} // verus!
