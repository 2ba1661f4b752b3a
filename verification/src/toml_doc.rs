//! Building small annotated TOML documents with `toml_edit`.
//!
//! A document is modelled by the entries of its root table, in order:
//! each is the key, the key's value when that value is a string, and the
//! prefix decoration (comment text) placed before the key when one was
//! set. What `toml_edit` prints for a document is named, not spelled out.

use vstd::prelude::*;

use toml_edit::DocumentMut;

verus! {

#[verifier::external_type_specification]
#[verifier::external_body]
pub struct ExDocumentMut(DocumentMut);

/// The root-table entries of `doc`, in table order: key, string value
/// (`None` for a value of another kind), and the key's prefix decoration
/// (`None` when it was never set).
pub uninterp spec fn toml_entries(doc: DocumentMut) -> Seq<(Seq<char>, Option<Seq<char>>, Option<Seq<char>>)>;

/// The text that `toml_edit` renders for `doc`.
pub uninterp spec fn toml_text(doc: DocumentMut) -> Seq<char>;

/// The index of the entry whose key is `key`, if there is one.
pub open spec fn entry_index(entries: Seq<(Seq<char>, Option<Seq<char>>, Option<Seq<char>>)>, key: Seq<char>) -> Option<int> {
    if exists|i: int| 0 <= i < entries.len() && entries[i].0 == key {
        Some(choose|i: int| 0 <= i < entries.len() && entries[i].0 == key)
    } else {
        None
    }
}

/// Entries after `key` is assigned the string `value`: an existing entry
/// keeps its place and its decoration, a new one goes last.
pub open spec fn assign_string(
    entries: Seq<(Seq<char>, Option<Seq<char>>, Option<Seq<char>>)>,
    key: Seq<char>,
    value: Seq<char>,
) -> Seq<(Seq<char>, Option<Seq<char>>, Option<Seq<char>>)> {
    match entry_index(entries, key) {
        Some(i) => entries.update(i, (key, Some(value), entries[i].2)),
        None => entries.push((key, Some(value), None)),
    }
}

/// Entries after the prefix decoration of `key` is set to `prefix`
/// (unchanged when there is no such key).
pub open spec fn assign_prefix(
    entries: Seq<(Seq<char>, Option<Seq<char>>, Option<Seq<char>>)>,
    key: Seq<char>,
    prefix: Seq<char>,
) -> Seq<(Seq<char>, Option<Seq<char>>, Option<Seq<char>>)> {
    match entry_index(entries, key) {
        Some(i) => entries.update(i, (key, entries[i].1, Some(prefix))),
        None => entries,
    }
}

/// The string value stored under `key`, if the key is present and its
/// value is a string.
pub open spec fn entry_string(entries: Seq<(Seq<char>, Option<Seq<char>>, Option<Seq<char>>)>, key: Seq<char>) -> Option<Seq<char>> {
    match entry_index(entries, key) {
        Some(i) => entries[i].1,
        None => None,
    }
}

/// `text` is what `toml_edit` renders for a document with these entries.
pub open spec fn rendered_from(text: Seq<char>, entries: Seq<(Seq<char>, Option<Seq<char>>, Option<Seq<char>>)>) -> bool {
    exists|d: DocumentMut| toml_entries(d) == entries && #[trigger] toml_text(d) == text
}

/// `toml_edit::DocumentMut::new`: an empty document.
#[verifier::external_body]
pub fn new_document() -> (d: DocumentMut)
    ensures
        toml_entries(d) == Seq::<(Seq<char>, Option<Seq<char>>, Option<Seq<char>>)>::empty(),
{
    DocumentMut::new()
}

/// `doc[key] = toml_edit::value(value)`: the `IndexMut<&str>` of
/// `DocumentMut`, which finds or appends the root-table entry for `key`
/// (keeping an existing key's position and decoration), and the string
/// item that `toml_edit::value` makes.
#[verifier::external_body]
pub fn set_string(doc: &mut DocumentMut, key: &str, value: &str)
    ensures
        toml_entries(*final(doc)) == assign_string(toml_entries(*old(doc)), key@, value@),
{
    doc[key] = toml_edit::value(value);
}

/// `Table::key_mut` on the root table, then `KeyMut::leaf_decor_mut` and
/// `Decor::set_prefix`: sets the text printed before `key` (a comment
/// block), or does nothing when the table has no such key.
#[verifier::external_body]
pub fn set_key_prefix(doc: &mut DocumentMut, key: &str, prefix: &str)
    ensures
        toml_entries(*final(doc)) == assign_prefix(toml_entries(*old(doc)), key@, prefix@),
{
    if let Some(mut k) = doc.as_table_mut().key_mut(key) {
        k.leaf_decor_mut().set_prefix(prefix);
    }
}

/// The `Display` rendering of `DocumentMut`.
#[verifier::external_body]
pub fn render(doc: &DocumentMut) -> (s: String)
    ensures
        s@ == toml_text(*doc),
{
    doc.to_string()
}

} // verus!
