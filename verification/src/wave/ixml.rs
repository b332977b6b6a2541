use crate::byte_arrays::{printable_string, printable_text};
use crate::errors::LocalError;
use crate::template::{get_file_chunk_output, named, rendered_as, upon_rendered_text, values_view};
use vstd::prelude::*;

verus! {

/// The contents of an iXML chunk: its XML text.
#[derive(Debug, Clone, PartialEq, Eq, Default)]
pub struct IXMLFields {
    pub ixml_xml: String,
}

impl IXMLFields {
    /// Decodes an iXML chunk: the text of all its bytes.
    pub fn new(chunk_data: Vec<u8>) -> (result: Result<Self, LocalError>)
        ensures
            result matches Ok(f) && f.ixml_xml@ == printable_text(chunk_data@),
    {
        Ok(IXMLFields { ixml_xml: printable_string(&chunk_data) })
    }
}

/// The template of an iXML chunk: its XML text.
pub const IXML_TEMPLATE: &'static str = "\n-------------\niXML Chunk Details:\n-------------\n{{ ixml_xml }}";

impl IXMLFields {
    /// Renders the XML text.
    pub fn format_data_for_output(&self) -> (result: Result<String, String>)
        ensures
            rendered_as(result, upon_rendered_text(IXML_TEMPLATE@, seq![("ixml_xml"@, self.ixml_xml@)])),
    {
        let values = vec![named("ixml_xml", self.ixml_xml.clone())];
        assert(values_view(values@) =~= seq![("ixml_xml"@, self.ixml_xml@)]);
        get_file_chunk_output(IXML_TEMPLATE, &values)
    }
}

} // verus!
