//! Trusted boundary to the `zip` crate: a package archive is a byte
//! vector, and the crate's parser is relied on to list its entry names
//! and to decompress single entries.
//!
//! The names below stand for what the `zip` crate computes from the
//! archive bytes; they are functions of the bytes alone, so two calls
//! on the same bytes agree.

use vstd::prelude::*;

verus! {

/// Whether the `zip` crate accepts these bytes as an archive.
pub uninterp spec fn zip_parses(bytes: Seq<u8>) -> bool;

/// The entry names of the archive, in central-directory order;
/// meaningful only when `zip_parses(bytes)` holds.
pub uninterp spec fn zip_entry_names(bytes: Seq<u8>) -> Seq<Seq<char>>;

/// The decompressed contents of the entry called `name`, if the archive
/// has such an entry and its data can be read.
pub uninterp spec fn zip_entry_bytes(bytes: Seq<u8>, name: Seq<char>) -> Option<Seq<u8>>;

/// Relies on `zip::ZipArchive::new` over an in-memory cursor to parse the
/// archive, and on `ZipArchive::file_names` for the entry names in
/// central-directory order.
#[verifier::external_body]
pub fn zip_list_entries(bytes: &Vec<u8>) -> (r: Option<Vec<String>>)
    ensures
        r is Some <==> zip_parses(bytes@),
        r matches Some(v) ==> v.deep_view() == zip_entry_names(bytes@),
{
    match zip::ZipArchive::new(std::io::Cursor::new(bytes.as_slice())) {
        Ok(archive) => Some(archive.file_names().map(|n| n.to_owned()).collect()),
        Err(_) => None,
    }
}

/// Relies on `zip::ZipArchive::by_name` to find the entry called `name`
/// and on `std::io::Read::read_to_end` to decompress it; any failure
/// (unparsable archive, missing entry, corrupt data) yields `None`.
#[verifier::external_body]
pub fn zip_read_entry(bytes: &Vec<u8>, name: &str) -> (r: Option<Vec<u8>>)
    ensures
        r matches Some(d) ==> zip_entry_bytes(bytes@, name@) == Some(d@),
        r is None ==> zip_entry_bytes(bytes@, name@) is None,
{
    let mut archive = zip::ZipArchive::new(std::io::Cursor::new(bytes.as_slice())).ok()?;
    let mut entry = archive.by_name(name).ok()?;
    let mut data: Vec<u8> = Vec::new();
    std::io::Read::read_to_end(&mut entry, &mut data).ok()?;
    Some(data)
}

} // verus!
