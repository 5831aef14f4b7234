//! The records that the reference manager hands over, as plain values.

use vstd::prelude::*;

verus! {

/// A bibliographic item, identified by the key the remote service gave it.
#[derive(Debug, Clone, PartialEq)]
pub struct BibItem {
    pub key: String,
    pub title: String,
    pub author: String,
    pub year: i32,
    pub has_children: bool,
}

/// A file attached to an item, with its MIME content type.
#[derive(Debug, Clone, PartialEq)]
pub struct Attachment {
    pub key: String,
    pub title: String,
    pub content_type: String,
}

/// One child of an item as the service lists it: an attachment, or
/// something else (a note, an annotation) that synchronisation ignores.
#[derive(Debug, Clone, PartialEq)]
pub enum ChildItem {
    Attachment(Attachment),
    Other,
}

} // verus!
