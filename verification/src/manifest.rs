//! The entries of a manifest: where a file goes and what it must hold.

use crate::config::member_items;
use crate::integrity::text_view;
use crate::json::{items, member, member_text, text_at};
use crate::path::{normalize_path, normalized};
use serde_json::Value;
use vstd::prelude::*;

verus! {

/// One file of the manifest.
#[derive(Clone, Debug)]
pub struct ManifestEntry {
    /// The destination, relative to the download root, separated by `/`.
    pub dest: String,
    /// The expected MD5 digest in lower-case hexadecimal, where one is known.
    pub md5: Option<String>,
    /// The expected size in bytes, where one is known.
    pub size: Option<u64>,
}

/// A manifest entry as plain values.
pub struct EntryModel {
    pub dest: Seq<char>,
    pub md5: Option<Seq<char>>,
    pub size: Option<u64>,
}

impl View for ManifestEntry {
    type V = EntryModel;

    open spec fn view(&self) -> EntryModel {
        EntryModel { dest: self.dest@, md5: self.digest(), size: self.size }
    }
}

/// The entries as plain values.
pub open spec fn entry_models(entries: Seq<ManifestEntry>) -> Seq<EntryModel> {
    Seq::new(entries.len(), |i: int| entries[i]@)
}

/// The entry that an element of the index describes: its destination under
/// `dest`, normalised, and its digest under `md5` where it has one. An
/// element without a destination describes none. The index gives no sizes.
pub open spec fn resource_entry(resource: Value) -> Option<EntryModel> {
    match member_text(resource, "dest"@) {
        Some(dest) => Some(
            EntryModel { dest: normalized(dest), md5: member_text(resource, "md5"@), size: None },
        ),
        None => None,
    }
}

/// The entries that the elements of a list describe, in order.
pub open spec fn resource_entries(resources: Seq<Value>) -> Seq<EntryModel>
    decreases resources.len(),
{
    if resources.len() == 0 {
        Seq::empty()
    } else {
        match resource_entry(resources.last()) {
            Some(entry) => resource_entries(resources.drop_last()).push(entry),
            None => resource_entries(resources.drop_last()),
        }
    }
}

/// The manifest that an index document holds under `resource`; none where it
/// holds no array there.
pub open spec fn manifest_of(index: Value) -> Option<Seq<EntryModel>> {
    match member_items(index, "resource"@) {
        Some(resources) => Some(resource_entries(resources)),
        None => None,
    }
}

/// Reads the manifest from an index document.
pub fn manifest_entries(index: &Value) -> (manifest: Option<Vec<ManifestEntry>>)
    ensures
        match manifest {
            Some(entries) => manifest_of(*index) == Some(entry_models(entries@)),
            None => manifest_of(*index) is None,
        },
{
    let resources = match member(index, "resource") {
        Some(inner) => match items(inner) {
            Some(resources) => resources,
            None => {
                return None;
            },
        },
        None => {
            return None;
        },
    };
    let mut entries: Vec<ManifestEntry> = Vec::new();
    let mut i: usize = 0;
    assert(resources@.take(0) =~= Seq::<Value>::empty());
    assert(entry_models(entries@) =~= resource_entries(resources@.take(0)));
    while i < resources.len()
        invariant
            i <= resources@.len(),
            entry_models(entries@) == resource_entries(resources@.take(i as int)),
        decreases resources@.len() - i,
    {
        let ghost before = entry_models(entries@);
        assert(resources@.take(i + 1).drop_last() =~= resources@.take(i as int));
        assert(resources@.take(i + 1).last() == resources@[i as int]);
        if let Some(dest) = text_at(&resources[i], "dest") {
            let entry = ManifestEntry::new(dest, text_at(&resources[i], "md5"), None);
            entries.push(entry);
            assert(entry_models(entries@) =~= before.push(entry@));
        }
        i += 1;
    }
    assert(resources@.take(resources@.len() as int) =~= resources@);
    Some(entries)
}

impl ManifestEntry {
    /// The characters of the expected digest, where one is known.
    pub open spec fn digest(self) -> Option<Seq<char>> {
        match self.md5 {
            Some(text) => Some(text@),
            None => None,
        }
    }

    /// An entry for a destination as the manifest writes it; `\` in it is
    /// replaced by `/`.
    pub fn new(dest: &str, md5: Option<&str>, size: Option<u64>) -> (entry: ManifestEntry)
        ensures
            entry.dest@ == normalized(dest@),
            entry.digest() == text_view(md5),
            entry.size == size,
    {
        let md5 = match md5 {
            Some(text) => Some(text.to_owned()),
            None => None,
        };
        ManifestEntry { dest: normalize_path(dest), md5, size }
    }

    /// The expected digest, where one is known.
    pub fn digest_text(&self) -> (text: Option<&str>)
        ensures
            text_view(text) == self.digest(),
    {
        match &self.md5 {
            Some(text) => Some(text.as_str()),
            None => None,
        }
    }
}

} // verus!
