use crate::byte_arrays::{take_first_number_of_bytes_as_string, text_field};
use crate::errors::LocalError;
use crate::formating::add_one_if_byte_size_is_odd;
use crate::template::{get_file_chunk_output, named, rendered_as, upon_rendered_text, values_view};
use vstd::prelude::*;

verus! {

/// The body text of a text chunk.
#[derive(Debug, Clone, PartialEq, Eq, Default)]
pub struct TextFields {
    pub body: String,
}

/// The size a text chunk body is read with: its length rounded up to even.
pub open spec fn padded_length(n: nat) -> int {
    if n % 2 == 1 {
        n + 1int
    } else {
        n as int
    }
}

impl TextFields {
    /// Decodes a text chunk: the text of its bytes, read with the size
    /// padded to even (so a body of odd length is one byte short).
    pub fn new(chunk_data: Vec<u8>) -> (result: Result<Self, LocalError>)
        requires
            chunk_data@.len() < u32::MAX,
        ensures
            match text_field(chunk_data@, padded_length(chunk_data@.len())) {
                Ok((body, _)) => result matches Ok(f) && f.body@ == body,
                Err(e) => result == Err::<TextFields, LocalError>(e),
            },
    {
        let mut data = chunk_data;
        let chunk_size = add_one_if_byte_size_is_odd(data.len() as u32);
        match take_first_number_of_bytes_as_string(&mut data, chunk_size as usize) {
            Ok(body) => Ok(TextFields { body }),
            Err(e) => Err(e),
        }
    }
}

/// The template of a text chunk: its title and its body.
pub const TEXT_TEMPLATE: &'static str = "\n-------------\n{{ title }}:\n-------------\n{{ body }}";

impl TextFields {
    /// Renders the body under a title.
    pub fn format_data_for_output(&self, title: &str) -> (result: Result<String, String>)
        ensures
            rendered_as(
                result,
                upon_rendered_text(TEXT_TEMPLATE@, seq![("title"@, title@), ("body"@, self.body@)]),
            ),
    {
        let values = vec![named("title", String::from_str(title)), named("body", self.body.clone())];
        assert(values_view(values@) =~= seq![("title"@, title@), ("body"@, self.body@)]);
        get_file_chunk_output(TEXT_TEMPLATE, &values)
    }
}

} // verus!
