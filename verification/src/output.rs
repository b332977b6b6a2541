use crate::strings::lines_view;
use vstd::prelude::*;

verus! {

/// The section of the report a piece of output belongs to.
#[derive(Debug, Clone, Copy, PartialEq, Eq, Structural)]
pub enum Section {
    Header,
    Mandatory,
    Optional,
    Unsupported,
    Skipped,
    Empty,
}

/// One formatted piece of output and its section.
#[derive(Debug, Clone, PartialEq, Eq)]
pub struct OutputEntry {
    pub section: Section,
    pub text: String,
}

/// The heading lines written in front of each non-header section.
#[derive(Debug, Clone, PartialEq, Eq)]
pub struct SectionHeadings {
    pub mandatory: String,
    pub optional: String,
    pub unsupported: String,
    pub skipped: String,
    pub empty: String,
}

/// The texts of the entries of one section, in their original order.
pub open spec fn section_texts(entries: Seq<OutputEntry>, section: Section) -> Seq<Seq<char>>
    decreases entries.len(),
{
    if entries.len() == 0 {
        Seq::empty()
    } else if entries.last().section == section {
        section_texts(entries.drop_last(), section).push(entries.last().text@)
    } else {
        section_texts(entries.drop_last(), section)
    }
}

/// A section's texts behind its heading; nothing when it has no texts.
pub open spec fn headed(heading: Seq<char>, texts: Seq<Seq<char>>) -> Seq<Seq<char>> {
    if texts.len() == 0 {
        Seq::empty()
    } else {
        seq![heading] + texts
    }
}

/// The report: header texts first, then mandatory, optional, unsupported,
/// skipped and empty texts, each non-empty group behind its heading;
/// within a group the entries keep their order.
pub open spec fn output_lines(entries: Seq<OutputEntry>, headings: SectionHeadings) -> Seq<
    Seq<char>,
> {
    section_texts(entries, Section::Header) + headed(
        headings.mandatory@,
        section_texts(entries, Section::Mandatory),
    ) + headed(headings.optional@, section_texts(entries, Section::Optional)) + headed(
        headings.unsupported@,
        section_texts(entries, Section::Unsupported),
    ) + headed(headings.skipped@, section_texts(entries, Section::Skipped)) + headed(
        headings.empty@,
        section_texts(entries, Section::Empty),
    )
}

/// Appends `texts` behind `heading` when there are any.
fn push_headed(lines: &mut Vec<String>, heading: &String, texts: Vec<String>)
    ensures
        lines_view(final(lines)@) == lines_view(old(lines)@) + headed(heading@, lines_view(texts@)),
{
    let ghost original = texts@;
    if texts.len() > 0 {
        let mut texts = texts;
        lines.push(heading.clone());
        lines.append(&mut texts);
        assert(lines_view(lines@) =~= lines_view(old(lines)@) + headed(
            heading@,
            lines_view(original),
        ));
    } else {
        assert(lines_view(lines@) =~= lines_view(old(lines)@) + headed(
            heading@,
            lines_view(texts@),
        ));
    }
}

/// Arranges the output entries into the lines of the report (see
/// `output_lines`).
pub fn output_metadata(file_data: Vec<OutputEntry>, headings: &SectionHeadings) -> (lines: Vec<
    String,
>)
    ensures
        lines_view(lines@) == output_lines(file_data@, *headings),
{
    let mut header: Vec<String> = Vec::new();
    let mut mandatory: Vec<String> = Vec::new();
    let mut optional: Vec<String> = Vec::new();
    let mut unsupported: Vec<String> = Vec::new();
    let mut skipped: Vec<String> = Vec::new();
    let mut empty: Vec<String> = Vec::new();
    let mut i: usize = 0;
    while i < file_data.len()
        invariant
            i <= file_data@.len(),
            lines_view(header@) == section_texts(file_data@.take(i as int), Section::Header),
            lines_view(mandatory@) == section_texts(file_data@.take(i as int), Section::Mandatory),
            lines_view(optional@) == section_texts(file_data@.take(i as int), Section::Optional),
            lines_view(unsupported@) == section_texts(
                file_data@.take(i as int),
                Section::Unsupported,
            ),
            lines_view(skipped@) == section_texts(file_data@.take(i as int), Section::Skipped),
            lines_view(empty@) == section_texts(file_data@.take(i as int), Section::Empty),
        decreases file_data@.len() - i,
    {
        let entry = &file_data[i];
        assert(file_data@.take(i + 1).drop_last() =~= file_data@.take(i as int));
        assert(file_data@.take(i + 1).last() == file_data@[i as int]);
        let text = entry.text.clone();
        match entry.section {
            Section::Header => header.push(text),
            Section::Mandatory => mandatory.push(text),
            Section::Optional => optional.push(text),
            Section::Unsupported => unsupported.push(text),
            Section::Skipped => skipped.push(text),
            Section::Empty => empty.push(text),
        }
        i = i + 1;
        assert(lines_view(header@) =~= section_texts(file_data@.take(i as int), Section::Header));
        assert(lines_view(mandatory@) =~= section_texts(file_data@.take(i as int), Section::Mandatory));
        assert(lines_view(optional@) =~= section_texts(file_data@.take(i as int), Section::Optional));
        assert(lines_view(unsupported@) =~= section_texts(
            file_data@.take(i as int),
            Section::Unsupported,
        ));
        assert(lines_view(skipped@) =~= section_texts(file_data@.take(i as int), Section::Skipped));
        assert(lines_view(empty@) =~= section_texts(file_data@.take(i as int), Section::Empty));
    }
    assert(file_data@.take(i as int) =~= file_data@);
    let mut lines = header;
    push_headed(&mut lines, &headings.mandatory, mandatory);
    push_headed(&mut lines, &headings.optional, optional);
    push_headed(&mut lines, &headings.unsupported, unsupported);
    push_headed(&mut lines, &headings.skipped, skipped);
    push_headed(&mut lines, &headings.empty, empty);
    lines
}

/// How many entries the section has.
pub open spec fn section_size(entries: Seq<OutputEntry>, section: Section) -> int {
    section_texts(entries, section).len() as int
}

/// One for a section with entries, zero for an empty one.
pub open spec fn group_heading_count(entries: Seq<OutputEntry>, section: Section) -> int {
    if section_size(entries, section) > 0 {
        1
    } else {
        0
    }
}

proof fn lemma_sections_partition(entries: Seq<OutputEntry>)
    ensures
        section_size(entries, Section::Header) + section_size(entries, Section::Mandatory)
            + section_size(entries, Section::Optional) + section_size(entries, Section::Unsupported)
            + section_size(entries, Section::Skipped) + section_size(entries, Section::Empty)
            == entries.len(),
    decreases entries.len(),
{
    if entries.len() > 0 {
        lemma_sections_partition(entries.drop_last());
    }
}

/// The report keeps every entry: it has one line per entry, plus one heading
/// for each non-header section that has entries.
pub proof fn report_holds_every_entry(entries: Seq<OutputEntry>, headings: SectionHeadings)
    ensures
        output_lines(entries, headings).len() == entries.len() + group_heading_count(
            entries,
            Section::Mandatory,
        ) + group_heading_count(entries, Section::Optional) + group_heading_count(
            entries,
            Section::Unsupported,
        ) + group_heading_count(entries, Section::Skipped) + group_heading_count(
            entries,
            Section::Empty,
        ),
{
    lemma_sections_partition(entries);
}

} // verus!
