use crate::byte_arrays::{be32, take_first_four_bytes_as_unsigned_integer, u32_field, Endian};
use crate::errors::LocalError;
use crate::formating::{
    format_mac_hfs_timestamp_as_date_time_string, utc_date_time_text,
    MAC_HFS_FORMAT_TIMESTAMP_OFFSET,
};
use crate::template::{entry_of, named, render_entry, upon_rendered_text, values_view};
use crate::output::{OutputEntry, Section};
use vstd::prelude::*;

verus! {

/// The field of an FVER chunk: a Mac HFS timestamp, four bytes, most
/// significant first.
pub open spec fn fver_field(s: Seq<u8>) -> Result<(u32, Seq<u8>), LocalError> {
    u32_field(s, Endian::Big)
}

/// An FVER chunk's timestamp is its first four bytes, most significant
/// first.
pub proof fn fver_timestamp_is_big_endian(s: Seq<u8>)
    requires
        fver_field(s) is Ok,
    ensures
        s.len() >= 4,
        fver_field(s)->Ok_0.0 == be32(s, 0),
{
    assert(s.take(4) =~= s.subrange(0, 4));
}

/// Decodes an AIFF-C FVER chunk: its big-endian Mac HFS timestamp as a UTC
/// date and time.
pub fn get_metadata(chunk_data: Vec<u8>) -> (result: Result<String, LocalError>)
    ensures
        match fver_field(chunk_data@) {
            Ok((timestamp, _)) => if timestamp < MAC_HFS_FORMAT_TIMESTAMP_OFFSET {
                result == Err::<String, LocalError>(LocalError::HFSTimestampTooSmall)
            } else {
                result matches Ok(text) && Some(text@) == utc_date_time_text(
                    timestamp - MAC_HFS_FORMAT_TIMESTAMP_OFFSET,
                )
            },
            Err(e) => result == Err::<String, LocalError>(e),
        },
{
    let mut data = chunk_data;
    let timestamp = match take_first_four_bytes_as_unsigned_integer(&mut data, Endian::Big) {
        Ok(v) => v,
        Err(e) => return Err(e),
    };
    format_mac_hfs_timestamp_as_date_time_string(timestamp)
}

/// The template of a format version chunk's report entry.
pub const FVER_TEMPLATE: &'static str = "\n-------------\nFormat Version (FVER) Chunk Details:\n-------------\nVersion Timestamp: {{ timestamp }}";

/// The report entry of a format version chunk: the decoding error, or its
/// timestamp as a UTC date and time rendered under `Optional`.
pub open spec fn fver_entry_is(data: Seq<u8>, result: Result<OutputEntry, LocalError>) -> bool {
    match fver_field(data) {
        Ok((timestamp, _)) => if timestamp < MAC_HFS_FORMAT_TIMESTAMP_OFFSET {
            result == Err::<OutputEntry, LocalError>(LocalError::HFSTimestampTooSmall)
        } else {
            match utc_date_time_text(timestamp - MAC_HFS_FORMAT_TIMESTAMP_OFFSET) {
                Some(t) => entry_of(Section::Optional, upon_rendered_text(FVER_TEMPLATE@, seq![("timestamp"@, t)]), result),
                None => false,
            }
        },
        Err(e) => result == Err::<OutputEntry, LocalError>(e),
    }
}

/// Decodes a format version chunk and renders it as its report entry.
pub fn fver_entry(chunk_data: Vec<u8>) -> (result: Result<OutputEntry, LocalError>)
    ensures
        fver_entry_is(chunk_data@, result),
{
    match get_metadata(chunk_data) {
        Ok(text) => {
            let ghost t = text@;
            let values = vec![named("timestamp", text)];
            assert(values_view(values@) =~= seq![("timestamp"@, t)]);
            render_entry(Section::Optional, FVER_TEMPLATE, &values)
        },
        Err(e) => Err(e),
    }
}

} // verus!
