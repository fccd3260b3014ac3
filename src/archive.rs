//! Zip archives and property lists, as read and written by the `zip` and
//! `plist` crates.

use vstd::prelude::*;
use std::io::{Cursor, Read, Write};
use zip::write::SimpleFileOptions;
use zip::ZipWriter;

verus! {

/// One archive member: its name and its uncompressed contents.
pub struct ArchiveEntry {
    pub name: String,
    pub data: Vec<u8>,
}

/// A member as a name and bytes.
pub type EntryView = (Seq<char>, Seq<u8>);

pub open spec fn entry_view(e: ArchiveEntry) -> EntryView {
    (e.name@, e.data@)
}

pub open spec fn entries_view(v: Seq<ArchiveEntry>) -> Seq<EntryView> {
    v.map_values(|e: ArchiveEntry| entry_view(e))
}

/// A dictionary entry of a property list: its key, and, when the value is
/// an array, each element's text if that element is a string.
pub type PlistField = (Seq<char>, Option<Seq<Option<Seq<char>>>>);

pub open spec fn opt_text_view(x: Option<String>) -> Option<Seq<char>> {
    match x {
        Some(s) => Some(s@),
        None => None,
    }
}

pub open spec fn plist_field_view(f: (String, Option<Vec<Option<String>>>)) -> PlistField {
    (
        f.0@,
        match f.1 {
            Some(a) => Some(a@.map_values(|x: Option<String>| opt_text_view(x))),
            None => None,
        },
    )
}

/// The member names that `zip::ZipArchive` lists for an archive, in order,
/// or `None` when it cannot open the bytes as an archive.
pub uninterp spec fn zip_names(archive: Seq<u8>) -> Option<Seq<Seq<char>>>;

/// The contents of member `index` as `zip::ZipArchive` reads them, or `None`
/// when the member cannot be read.
pub uninterp spec fn zip_data(archive: Seq<u8>, index: int) -> Option<Seq<u8>>;

/// The members that the writer holds so far.
pub uninterp spec fn zip_pending(w: ArchiveWriter) -> Seq<EntryView>;

/// Whether a `zip::ZipWriter` over an in-memory buffer accepts these members,
/// each added with `start_file` under default options and `write_all`, in
/// order, and then finishes with `finish`.
pub uninterp spec fn zip_writable(entries: Seq<EntryView>) -> bool;

/// The bytes that `zip::ZipWriter::finish` produces for a list of members
/// written with default options.
pub uninterp spec fn zip_archive_of(entries: Seq<EntryView>) -> Seq<u8>;

/// The top-level dictionary that `plist::Value::from_reader_xml` reads from
/// bytes, or `None` when the bytes are no XML property list with a
/// dictionary at the top.
pub uninterp spec fn plist_dict_of(xml: Seq<u8>) -> Option<Seq<PlistField>>;

/// The XML property list that `plist::Value::to_writer_xml` writes for a
/// dictionary of string values, in the order given.
pub uninterp spec fn plist_xml_of(pairs: Seq<(Seq<char>, Seq<char>)>) -> Seq<u8>;

/// An archive being written in memory. Verus does not accept the writer's
/// type with its `Write + Seek` bound, so the writer sits in a field hidden
/// from verification.
#[verifier::external_body]
pub struct ArchiveWriter {
    inner: ZipWriter<Cursor<Vec<u8>>>,
}

/// Relies on `zip::ZipArchive::new` and `len`: the number of members.
#[verifier::external_body]
pub(crate) fn zip_entry_count(archive: &[u8]) -> (r: Option<usize>)
    ensures
        match r {
            Some(n) => zip_names(archive@) matches Some(ns) && n == ns.len(),
            None => zip_names(archive@) is None,
        },
{
    zip::ZipArchive::new(Cursor::new(archive)).ok().map(|z| z.len())
}

/// Relies on `zip::ZipArchive::by_index` and `Read::read_to_end`: the name and
/// uncompressed contents of member `index`.
#[verifier::external_body]
pub(crate) fn zip_entry(archive: &[u8], index: usize) -> (r: Option<ArchiveEntry>)
    requires
        zip_names(archive@) matches Some(ns) && index < ns.len(),
    ensures
        match r {
            Some(e) => e.name@ == zip_names(archive@)->0[index as int] && zip_data(
                archive@,
                index as int,
            ) == Some(e.data@),
            None => zip_data(archive@, index as int) is None,
        },
{
    let mut z = zip::ZipArchive::new(Cursor::new(archive)).ok()?;
    let mut file = z.by_index(index).ok()?;
    let mut data = Vec::new();
    file.read_to_end(&mut data).ok()?;
    Some(ArchiveEntry { name: file.name().to_string(), data })
}

/// Relies on `zip::ZipWriter::new` over an empty in-memory buffer.
#[verifier::external_body]
pub(crate) fn zip_writer() -> (w: ArchiveWriter)
    ensures
        zip_pending(w) == Seq::<EntryView>::empty(),
{
    ArchiveWriter { inner: ZipWriter::new(Cursor::new(Vec::new())) }
}

/// Relies on `zip::ZipWriter::start_file` with default options followed by
/// `Write::write_all` of the contents: on success the member is added last;
/// on failure no list that starts with the members so far and this one can be
/// written, and the writer is dropped.
#[verifier::external_body]
pub(crate) fn zip_add(w: ArchiveWriter, name: &str, data: &[u8]) -> (r: Option<ArchiveWriter>)
    ensures
        match r {
            Some(w2) => zip_pending(w2) == zip_pending(w).push((name@, data@)),
            None => forall|rest: Seq<EntryView>|
                !#[trigger] zip_writable(zip_pending(w).push((name@, data@)) + rest),
        },
{
    let mut w = w;
    match w.inner.start_file(name, SimpleFileOptions::default()) {
        Ok(()) => match w.inner.write_all(data) {
            Ok(()) => Some(w),
            Err(_) => None,
        },
        Err(_) => None,
    }
}

/// Relies on `zip::ZipWriter::finish`: it succeeds exactly when the members
/// added so far can be written, and yields the finished archive bytes.
#[verifier::external_body]
pub(crate) fn zip_finish(w: ArchiveWriter) -> (r: Option<Vec<u8>>)
    ensures
        r is Some <==> zip_writable(zip_pending(w)),
        r matches Some(b) ==> b@ == zip_archive_of(zip_pending(w)),
{
    w.inner.finish().ok().map(|c| c.into_inner())
}

/// Relies on `plist::Value::from_reader_xml` and `into_dictionary`: the
/// top-level dictionary, with array values seen as lists of optional strings.
#[verifier::external_body]
pub(crate) fn plist_dict(xml: &[u8]) -> (r: Option<Vec<(String, Option<Vec<Option<String>>>)>>)
    ensures
        match r {
            Some(d) => plist_dict_of(xml@) == Some(
                d@.map_values(|f: (String, Option<Vec<Option<String>>>)| plist_field_view(f)),
            ),
            None => plist_dict_of(xml@) is None,
        },
{
    let dict = plist::Value::from_reader_xml(xml).ok()?.into_dictionary()?;
    Some(
        dict.into_iter().map(
            |(k, v)| (k, v.into_array().map(|a| a.into_iter().map(|x| x.into_string()).collect())),
        ).collect(),
    )
}

/// Relies on `plist::Value::to_writer_xml` for a dictionary of strings built
/// from the pairs in order; writing such a dictionary into a `Vec` fails only
/// on an I/O error, which a `Vec` never reports.
#[verifier::external_body]
pub(crate) fn plist_xml(pairs: &Vec<(String, String)>) -> (r: Option<Vec<u8>>)
    ensures
        r is Some,
        r matches Some(b) ==> b@ == plist_xml_of(
            pairs@.map_values(|p: (String, String)| (p.0@, p.1@)),
        ),
{
    let dict: plist::Dictionary = pairs.iter().map(
        |(k, v)| (k.clone(), plist::Value::String(v.clone())),
    ).collect();
    let mut buf = Vec::new();
    plist::Value::Dictionary(dict).to_writer_xml(&mut buf).ok()?;
    Some(buf)
}

} // verus!
