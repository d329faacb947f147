//! Sorting the entries of a source tree into documents, reserved files and
//! assets.

use crate::text::{ends_with, starts_with, to_chars};
use vstd::prelude::*;

verus! {

/// One entry met on a walk through the source tree.
pub struct SourceEntry {
    /// The entry's path, source root included.
    pub path: String,
    /// The last component of the path.
    pub file_name: String,
    /// Whether the entry is a regular file.
    pub is_file: bool,
    /// The text of the file where it was read; `None` where it was not read
    /// or could not be read.
    pub contents: Option<String>,
}

/// The mathematical reading of a `SourceEntry`.
pub ghost struct SourceEntryView {
    pub path: Seq<char>,
    pub file_name: Seq<char>,
    pub is_file: bool,
    pub contents: Option<Seq<char>>,
}

impl View for SourceEntry {
    type V = SourceEntryView;

    open spec fn view(&self) -> SourceEntryView {
        SourceEntryView {
            path: self.path@,
            file_name: self.file_name@,
            is_file: self.is_file,
            contents: match self.contents {
                Some(text) => Some(text@),
                None => None,
            },
        }
    }
}

/// What the compiler does with an entry.
#[derive(PartialEq, Eq, Structural)]
pub enum EntryKind {
    /// A markup document: rendered to a page.
    Document,
    /// A file whose name begins with `_`: neither rendered nor copied.
    Reserved,
    /// Any other regular file: copied as it is.
    Asset,
    /// Not a regular file: passed over.
    Skipped,
}

/// The kind of an entry, by its file name and by whether it is a regular
/// file.
pub open spec fn kind_of(file_name: Seq<char>, is_file: bool) -> EntryKind {
    if !is_file {
        EntryKind::Skipped
    } else if "_"@.is_prefix_of(file_name) {
        EntryKind::Reserved
    } else if ".md"@.is_suffix_of(file_name) {
        EntryKind::Document
    } else {
        EntryKind::Asset
    }
}

/// Sorts an entry by its file name and by whether it is a regular file.
pub fn classify(file_name: &str, is_file: bool) -> (kind: EntryKind)
    ensures
        kind == kind_of(file_name@, is_file),
{
    if !is_file {
        return EntryKind::Skipped;
    }
    let name = to_chars(file_name);
    if starts_with(&name, &to_chars("_")) {
        EntryKind::Reserved
    } else if ends_with(&name, &to_chars(".md")) {
        EntryKind::Document
    } else {
        EntryKind::Asset
    }
}

/// A document that was found and read.
pub struct MarkdownFile {
    /// The document's path, source root included.
    pub path: String,
    /// The document's raw text, header and body.
    pub body: String,
}

/// The mathematical reading of a `MarkdownFile`.
pub ghost struct MarkdownFileView {
    pub path: Seq<char>,
    pub body: Seq<char>,
}

impl View for MarkdownFile {
    type V = MarkdownFileView;

    open spec fn view(&self) -> MarkdownFileView {
        MarkdownFileView { path: self.path@, body: self.body@ }
    }
}

/// The document that an entry gives: one for each regular file that is a
/// document by its name and whose text was read, none for any other entry.
pub open spec fn document_in(entry: SourceEntryView) -> Option<MarkdownFileView> {
    if kind_of(entry.file_name, entry.is_file) == EntryKind::Document && entry.contents is Some {
        Some(MarkdownFileView { path: entry.path, body: entry.contents->0 })
    } else {
        None
    }
}

/// The readings of a list of entries.
pub open spec fn entry_views(entries: Seq<SourceEntry>) -> Seq<SourceEntryView> {
    entries.map_values(|e: SourceEntry| e@)
}

/// The readings of a list of documents.
pub open spec fn file_views(files: Seq<MarkdownFile>) -> Seq<MarkdownFileView> {
    files.map_values(|f: MarkdownFile| f@)
}

/// The documents among `entries`, in the order of the walk. An entry that is
/// no document, and a document whose text could not be read, is left out.
pub fn get_files(entries: &Vec<SourceEntry>) -> (files: Vec<MarkdownFile>)
    ensures
        file_views(files@) == entry_views(entries@).filter_map(
            |e: SourceEntryView| document_in(e),
        ),
{
    let ghost pick = |e: SourceEntryView| document_in(e);
    let mut files: Vec<MarkdownFile> = Vec::new();
    let mut i: usize = 0;
    assert(entry_views(entries@).take(0).filter_map(pick) =~= file_views(files@));
    while i < entries.len()
        invariant
            i <= entries.len(),
            pick == |e: SourceEntryView| document_in(e),
            file_views(files@) == entry_views(entries@).take(i as int).filter_map(pick),
        decreases entries.len() - i,
    {
        let entry = &entries[i];
        let ghost seen = entry_views(entries@).take(i as int);
        let ghost before = file_views(files@);
        proof {
            assert(entry_views(entries@).take(i + 1).drop_last() =~= seen);
            assert(entry_views(entries@).take(i + 1).last() == entry@);
        }
        let kind = classify(entry.file_name.as_str(), entry.is_file);
        if kind == EntryKind::Document {
            match &entry.contents {
                Some(text) => {
                    files.push(MarkdownFile { path: entry.path.clone(), body: text.clone() });
                    assert(file_views(files@) =~= before.push(document_in(entry@)->0));
                },
                None => {},
            }
        }
        i += 1;
    }
    assert(entry_views(entries@).take(entries@.len() as int) =~= entry_views(entries@));
    files
}

} // verus!
