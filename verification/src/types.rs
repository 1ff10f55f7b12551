//! Document value types: identity, revision, header, and the payload
//! wrappers used by every operation. Pure data carriers with no behavior
//! beyond field access; no validation is performed here, malformed keys are
//! rejected by the server, not by this layer.

use vstd::prelude::*;

verus! {

/// Identifies a document by collection name and key, rendered canonically as
/// `"collection/key"` in request paths.
#[derive(Clone, Debug, PartialEq)]
pub struct DocumentId {
    collection_name: String,
    document_key: String,
}

impl DocumentId {
    pub closed spec fn spec_collection_name(&self) -> Seq<char> {
        self.collection_name@
    }

    pub closed spec fn spec_document_key(&self) -> Seq<char> {
        self.document_key@
    }

    /// The canonical `"collection/key"` textual form.
    pub open spec fn spec_to_string(&self) -> Seq<char> {
        self.spec_collection_name() + "/"@ + self.spec_document_key()
    }

    pub fn new(collection_name: &str, document_key: &str) -> (r: DocumentId)
        ensures
            r.spec_collection_name() == collection_name@,
            r.spec_document_key() == document_key@,
    {
        DocumentId {
            collection_name: collection_name.to_owned(),
            document_key: document_key.to_owned(),
        }
    }

    pub fn collection_name(&self) -> (r: &str)
        ensures
            r@ == self.spec_collection_name(),
    {
        self.collection_name.as_str()
    }

    pub fn document_key(&self) -> (r: &str)
        ensures
            r@ == self.spec_document_key(),
    {
        self.document_key.as_str()
    }

    /// Renders the id to its canonical `"collection/key"` form.
    pub fn to_string(&self) -> (r: String)
        ensures
            r@ == self.spec_to_string(),
    {
        let joined: String = self.collection_name.clone().concat("/");
        joined.concat(self.document_key.as_str())
    }
}

/// An opaque version stamp assigned by the database on every create, replace
/// or update. Only equality and mismatch are meaningful; no order is assumed.
#[derive(Clone, Debug, PartialEq)]
pub struct Revision {
    value: String,
}

impl Revision {
    pub closed spec fn spec_value(&self) -> Seq<char> {
        self.value@
    }

    pub fn new(value: &str) -> (r: Revision)
        ensures
            r.spec_value() == value@,
    {
        Revision { value: value.to_owned() }
    }

    pub fn as_str(&self) -> (r: &str)
        ensures
            r@ == self.spec_value(),
    {
        self.value.as_str()
    }
}

/// Identity plus current version of a document; produced by create, replace
/// and update responses that do not return full content.
#[derive(Clone, Debug, PartialEq)]
pub struct DocumentHeader {
    id: DocumentId,
    key: String,
    revision: Revision,
}

impl DocumentHeader {
    pub closed spec fn spec_id(&self) -> DocumentId {
        self.id
    }

    pub closed spec fn spec_key(&self) -> Seq<char> {
        self.key@
    }

    pub closed spec fn spec_revision(&self) -> Revision {
        self.revision
    }

    pub fn new(id: DocumentId, key: &str, revision: Revision) -> (r: DocumentHeader)
        ensures
            r.spec_id() == id,
            r.spec_key() == key@,
            r.spec_revision() == revision,
    {
        DocumentHeader { id, key: key.to_owned(), revision }
    }

    pub fn id(&self) -> (r: &DocumentId)
        ensures
            *r == self.spec_id(),
    {
        &self.id
    }

    pub fn key(&self) -> (r: &str)
        ensures
            r@ == self.spec_key(),
    {
        self.key.as_str()
    }

    pub fn revision(&self) -> (r: &Revision)
        ensures
            *r == self.spec_revision(),
    {
        &self.revision
    }
}

/// A full document snapshot: header plus content.
#[derive(Clone, Debug, PartialEq)]
pub struct Document<T> {
    header: DocumentHeader,
    content: T,
}

impl<T> Document<T> {
    pub closed spec fn spec_header(&self) -> DocumentHeader {
        self.header
    }

    pub closed spec fn spec_content(&self) -> T {
        self.content
    }

    pub fn new(header: DocumentHeader, content: T) -> (r: Document<T>)
        ensures
            r.spec_header() == header,
            r.spec_content() == content,
    {
        Document { header, content }
    }

    pub fn header(&self) -> (r: &DocumentHeader)
        ensures
            *r == self.spec_header(),
    {
        &self.header
    }

    pub fn content(&self) -> (r: &T)
        ensures
            *r == self.spec_content(),
    {
        &self.content
    }
}

/// The payload for a create operation: content plus an optional
/// caller-supplied key. Without a key the server generates one.
#[derive(Clone, Debug, PartialEq)]
pub struct NewDocument<T> {
    key: Option<String>,
    content: T,
}

impl<T> NewDocument<T> {
    pub closed spec fn spec_key(&self) -> Option<Seq<char>> {
        self.key.deep_view()
    }

    pub closed spec fn spec_content(&self) -> T {
        self.content
    }

    /// A new-document payload with server-generated key.
    pub fn from_content(content: T) -> (r: NewDocument<T>)
        ensures
            r.spec_key() is None,
            r.spec_content() == content,
    {
        NewDocument { key: None, content }
    }

    /// Replaces the optional caller-supplied key.
    pub fn with_key(self, key: Option<String>) -> (r: NewDocument<T>)
        ensures
            r.spec_key() == key.deep_view(),
            r.spec_content() == self.spec_content(),
    {
        NewDocument { key, content: self.content }
    }

    pub fn key(&self) -> (r: Option<&String>)
        ensures
            (match r {
                Some(k) => self.spec_key() == Some(k@),
                None => self.spec_key() is None,
            }),
    {
        self.key.as_ref()
    }

    pub fn content(&self) -> (r: &T)
        ensures
            *r == self.spec_content(),
    {
        &self.content
    }
}

/// The payload for a replace (full content) or a partial update (partial
/// content): the same representation, interpreted differently downstream.
#[derive(Clone, Debug, PartialEq)]
pub struct DocumentUpdate<T> {
    content: T,
}

impl<T> DocumentUpdate<T> {
    pub closed spec fn spec_content(&self) -> T {
        self.content
    }

    pub fn new(content: T) -> (r: DocumentUpdate<T>)
        ensures
            r.spec_content() == content,
    {
        DocumentUpdate { content }
    }

    pub fn content(&self) -> (r: &T)
        ensures
            *r == self.spec_content(),
    {
        &self.content
    }
}

/// The result of a replace or update when the caller requested either or
/// both content snapshots: the old and new contents are independently
/// present or absent, exactly as requested, never inferred.
#[derive(Clone, Debug, PartialEq)]
pub struct UpdatedDocument<Old, New> {
    header: DocumentHeader,
    old_content: Option<Old>,
    new_content: Option<New>,
}

impl<Old, New> UpdatedDocument<Old, New> {
    pub closed spec fn spec_header(&self) -> DocumentHeader {
        self.header
    }

    pub closed spec fn spec_old_content(&self) -> Option<Old> {
        self.old_content
    }

    pub closed spec fn spec_new_content(&self) -> Option<New> {
        self.new_content
    }

    pub fn new(header: DocumentHeader, old_content: Option<Old>, new_content: Option<New>) -> (r:
        UpdatedDocument<Old, New>)
        ensures
            r.spec_header() == header,
            r.spec_old_content() == old_content,
            r.spec_new_content() == new_content,
    {
        UpdatedDocument { header, old_content, new_content }
    }

    pub fn header(&self) -> (r: &DocumentHeader)
        ensures
            *r == self.spec_header(),
    {
        &self.header
    }

    pub fn old_content(&self) -> (r: Option<&Old>)
        ensures
            (match r {
                Some(c) => self.spec_old_content() == Some(*c),
                None => self.spec_old_content() is None,
            }),
    {
        self.old_content.as_ref()
    }

    pub fn new_content(&self) -> (r: Option<&New>)
        ensures
            (match r {
                Some(c) => self.spec_new_content() == Some(*c),
                None => self.spec_new_content() is None,
            }),
    {
        self.new_content.as_ref()
    }
}

} // verus!
