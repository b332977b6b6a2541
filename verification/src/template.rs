use crate::errors::LocalError;
use crate::output::{OutputEntry, Section};
use crate::strings::{lines_view, push_char};
use vstd::prelude::*;

verus! {

/// The views of named template values.
pub open spec fn values_view(values: Seq<(String, String)>) -> Seq<(Seq<char>, Seq<char>)> {
    values.map_values(|v: (String, String)| (v.0@, v.1@))
}

/// What the `upon` template engine renders from a template and named text
/// values (a later value of a name replacing an earlier one): the text, or
/// the message of the error met in compiling or rendering.
pub uninterp spec fn upon_rendered_text(
    template: Seq<char>,
    values: Seq<(Seq<char>, Seq<char>)>,
) -> Result<Seq<char>, Seq<char>>;

/// Compiles the template with `upon::Engine::compile` and renders it with
/// `upon::Template::render_from` on a map of the named values, turning an
/// error into its message. Stated: the outcome is `upon_rendered_text` of
/// the template and the values; what the text or the message is, is left to
/// upon.
#[verifier::external_body]
fn render_with_upon(template_content: &str, values: &Vec<(String, String)>) -> (rendered: Result<
    String,
    String,
>)
    ensures
        match rendered {
            Ok(text) => upon_rendered_text(template_content@, values_view(values@)) == Ok::<
                Seq<char>,
                Seq<char>,
            >(text@),
            Err(message) => upon_rendered_text(template_content@, values_view(values@)) == Err::<
                Seq<char>,
                Seq<char>,
            >(message@),
        },
{
    let map: std::collections::BTreeMap<String, upon::Value> = values.iter().map(
        |(name, value)| (name.clone(), upon::Value::String(value.clone())),
    ).collect();
    let engine = upon::Engine::new();
    let template = engine.compile(template_content).map_err(|e| e.to_string())?;
    template.render_from(&engine, &upon::Value::Map(map)).to_string().map_err(|e| e.to_string())
}

/// Whether an outcome is the given text or error message.
pub open spec fn rendered_as(result: Result<String, String>, expected: Result<Seq<char>, Seq<char>>) -> bool {
    match expected {
        Ok(text) => result matches Ok(r) && r@ == text,
        Err(message) => result matches Err(m) && m@ == message,
    }
}

/// Fills a template (`{{ name }}` placeholders) with named text values: the
/// rendered text, or the message of the template error.
pub fn get_file_chunk_output(template_content: &str, values: &Vec<(String, String)>) -> (result:
    Result<String, String>)
    ensures
        rendered_as(result, upon_rendered_text(template_content@, values_view(values@))),
{
    render_with_upon(template_content, values)
}

/// A named template value.
pub fn named(name: &str, value: String) -> (pair: (String, String))
    ensures
        pair.0@ == name@,
        pair.1@ == value@,
{
    (String::from_str(name), value)
}

/// Texts each put on a line of their own: each preceded by a line break.
pub open spec fn own_lines(texts: Seq<Seq<char>>) -> Seq<char>
    decreases texts.len(),
{
    if texts.len() == 0 {
        Seq::empty()
    } else {
        own_lines(texts.drop_last()) + seq!['\n'] + texts.last()
    }
}

/// Joins texts, each preceded by a line break.
pub fn join_on_own_lines(texts: &Vec<String>) -> (joined: String)
    ensures
        joined@ == own_lines(lines_view(texts@)),
{
    let mut joined = String::new();
    let mut i: usize = 0;
    while i < texts.len()
        invariant
            i <= texts@.len(),
            joined@ == own_lines(lines_view(texts@).take(i as int)),
        decreases texts@.len() - i,
    {
        assert(lines_view(texts@).take(i + 1).drop_last() =~= lines_view(texts@).take(i as int));
        push_char(&mut joined, '\n');
        joined.append(texts[i].as_str());
        i = i + 1;
    }
    assert(lines_view(texts@).take(i as int) =~= lines_view(texts@));
    joined
}

/// A value after its label: `label: value`.
pub open spec fn labelled(label: Seq<char>, value: Seq<char>) -> Seq<char> {
    label + ": "@ + value
}

/// Writes a value after its label: `label: value`.
pub fn labelled_string(label: &str, value: &str) -> (text: String)
    ensures
        text@ == labelled(label@, value@),
{
    let mut text = String::from_str(label);
    text.append(": ");
    text.append(value);
    text
}

/// Whether an entry is the rendered text under a section, or the render
/// error reported as `CouldNotRenderOutput`.
pub open spec fn entry_of(
    section: Section,
    rendered: Result<Seq<char>, Seq<char>>,
    result: Result<OutputEntry, LocalError>,
) -> bool {
    match rendered {
        Ok(text) => result matches Ok(e) && e.section == section && e.text@ == text,
        Err(message) => result matches Err(LocalError::CouldNotRenderOutput(m)) && m@ == message,
    }
}

/// Renders a template into an entry of a section of the report.
pub fn render_entry(section: Section, template_content: &str, values: &Vec<(String, String)>) -> (result:
    Result<OutputEntry, LocalError>)
    ensures
        entry_of(section, upon_rendered_text(template_content@, values_view(values@)), result),
{
    match get_file_chunk_output(template_content, values) {
        Ok(text) => Ok(OutputEntry { section, text }),
        Err(message) => Err(LocalError::CouldNotRenderOutput(message)),
    }
}

/// An entry of a section from rendered text, or the render error reported
/// as `CouldNotRenderOutput`.
pub fn into_entry(section: Section, rendered: Result<String, String>) -> (result: Result<OutputEntry, LocalError>)
    ensures
        match rendered {
            Ok(t) => result == Ok::<OutputEntry, LocalError>(OutputEntry { section, text: t }),
            Err(m) => result == Err::<OutputEntry, LocalError>(LocalError::CouldNotRenderOutput(m)),
        },
{
    match rendered {
        Ok(text) => Ok(OutputEntry { section, text }),
        Err(message) => Err(LocalError::CouldNotRenderOutput(message)),
    }
}

} // verus!
