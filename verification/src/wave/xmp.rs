use crate::errors::LocalError;
use crate::strings::{utf8_lossy_string, utf8_lossy_text};
use vstd::prelude::*;

verus! {

/// The title line of the XMP section.
pub const XMP_OUTPUT_HEADER: &'static str =
    "\n-------------\nXMP (_PMX) Chunk XPacket (XML) Data:\n-------------";

/// The contents of an XMP (`_PMX`) chunk: its XML packet.
#[derive(Debug, Clone, PartialEq, Eq, Default)]
pub struct XMPFields {
    pub xmp_xml: String,
}

impl XMPFields {
    /// Decodes an XMP chunk as UTF-8 text with invalid sequences replaced.
    pub fn new(chunk_data: Vec<u8>) -> (result: Result<Self, LocalError>)
        ensures
            result matches Ok(f) && f.xmp_xml@ == utf8_lossy_text(chunk_data@),
    {
        Ok(XMPFields { xmp_xml: utf8_lossy_string(chunk_data.as_slice()) })
    }

    /// The output lines: the title and the XML, or nothing when the XML is
    /// empty.
    pub fn get_metadata_output(&self) -> (lines: Vec<String>)
        ensures
            self.xmp_xml@.len() == 0 ==> lines@.len() == 0,
            self.xmp_xml@.len() > 0 ==> lines@.len() == 2 && lines@[0]@ == XMP_OUTPUT_HEADER@
                && lines@[1]@ == self.xmp_xml@,
    {
        let mut xmp_data: Vec<String> = Vec::new();
        if self.xmp_xml.as_str().unicode_len() > 0 {
            xmp_data.push(String::from_str(XMP_OUTPUT_HEADER));
            xmp_data.push(self.xmp_xml.clone());
        }
        xmp_data
    }
}

} // verus!
