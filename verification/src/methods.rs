//! One immutable, builder-configured descriptor per document-level remote
//! operation: fetch, fetch-header, insert one or many (each with a
//! return-new variant), replace, and partial update. Each descriptor
//! implements the [`Method`] and [`Prepare`] contracts; a dispatcher outside
//! this crate turns them into an actual network call.
//!
//! Optional modifiers default to unset, meaning "let the server apply its
//! default". An unset modifier contributes no query parameter and no header.
//! A caller may set both `If-Match` and `If-None-Match` on a read; this layer
//! does not enforce mutual exclusion, the combination is left to the server's
//! interpretation.

use core::marker::PhantomData;

use vstd::prelude::*;

use crate::api::{opt_bool_value, opt_entry, Method, Operation, Parameters, Prepare, RpcReturnType};
use crate::protocol::{
    bool_to_str, document_path, spec_bool_str, spec_document_path, spec_field_code,
    spec_header_if_match, spec_header_if_non_match, spec_param_ignore_revisions,
    spec_param_keep_null, spec_param_merge_objects, spec_param_return_new, spec_param_return_old,
    spec_param_wait_for_sync,
};
use crate::types::{Document, DocumentHeader, DocumentId, DocumentUpdate, NewDocument, UpdatedDocument};

verus! {

/// A zero-sized marker tying a descriptor to a content type of its declared
/// result; a compile-time-only association, never materialized at run time.
#[derive(Debug, PartialEq)]
pub(crate) struct ContentMarker<T> {
    marker: PhantomData<T>,
}

impl<T> ContentMarker<T> {
    pub(crate) fn new() -> (r: ContentMarker<T>) {
        ContentMarker { marker: PhantomData }
    }
}

impl<T> Clone for ContentMarker<T> {
    fn clone(&self) -> (r: ContentMarker<T>)
        ensures
            r == *self,
    {
        ContentMarker { marker: PhantomData }
    }
}

/// Fetches a document by id; the response body is the full document. The
/// type parameter `T` only pins the content type of the declared result.
#[derive(Clone, Debug, PartialEq)]
pub struct GetDocument<T> {
    id: DocumentId,
    if_match: Option<String>,
    if_non_match: Option<String>,
    content: ContentMarker<T>,
}

impl<T> GetDocument<T> {
    pub closed spec fn spec_id(&self) -> DocumentId {
        self.id
    }

    pub closed spec fn spec_if_match(&self) -> Option<Seq<char>> {
        self.if_match.deep_view()
    }

    pub closed spec fn spec_if_non_match(&self) -> Option<Seq<char>> {
        self.if_non_match.deep_view()
    }

    pub fn new(id: DocumentId) -> (r: GetDocument<T>)
        ensures
            r.spec_id() == id,
            r.spec_if_match() is None,
            r.spec_if_non_match() is None,
    {
        GetDocument { id, if_match: None, if_non_match: None, content: ContentMarker::new() }
    }

    /// Replaces the optional `If-Match` revision; a later call overwrites an
    /// earlier one.
    pub fn with_if_match(self, if_match: Option<String>) -> (r: GetDocument<T>)
        ensures
            r.spec_id() == self.spec_id(),
            r.spec_if_match() == if_match.deep_view(),
            r.spec_if_non_match() == self.spec_if_non_match(),
    {
        GetDocument {
            id: self.id,
            if_match,
            if_non_match: self.if_non_match,
            content: self.content,
        }
    }

    /// Replaces the optional `If-None-Match` revision; a later call
    /// overwrites an earlier one.
    pub fn with_if_non_match(self, if_non_match: Option<String>) -> (r: GetDocument<T>)
        ensures
            r.spec_id() == self.spec_id(),
            r.spec_if_match() == self.spec_if_match(),
            r.spec_if_non_match() == if_non_match.deep_view(),
    {
        GetDocument {
            id: self.id,
            if_match: self.if_match,
            if_non_match,
            content: self.content,
        }
    }

    pub fn id(&self) -> (r: &DocumentId)
        ensures
            *r == self.spec_id(),
    {
        &self.id
    }

    pub fn if_match(&self) -> (r: Option<&String>)
        ensures
            (match r {
                Some(s) => self.spec_if_match() == Some(s@),
                None => self.spec_if_match() is None,
            }),
    {
        self.if_match.as_ref()
    }

    pub fn if_non_match(&self) -> (r: Option<&String>)
        ensures
            (match r {
                Some(s) => self.spec_if_non_match() == Some(s@),
                None => self.spec_if_non_match() is None,
            }),
    {
        self.if_non_match.as_ref()
    }
}

impl<T> Method for GetDocument<T> {
    type Result = Document<T>;

    open spec fn spec_result_field() -> Option<Seq<char>> {
        None
    }

    open spec fn spec_code_field() -> Option<Seq<char>> {
        Some(spec_field_code())
    }

    fn return_type() -> RpcReturnType {
        RpcReturnType { result_field: None, code_field: Some("code") }
    }
}

impl<T> Prepare for GetDocument<T> {
    type Content = ();

    open spec fn spec_operation(&self) -> Operation {
        Operation::Read
    }

    open spec fn spec_path(&self) -> Seq<char> {
        spec_document_path(self.spec_id().spec_to_string())
    }

    open spec fn spec_parameters(&self) -> Seq<(Seq<char>, Seq<char>)> {
        Seq::empty()
    }

    open spec fn spec_header(&self) -> Seq<(Seq<char>, Seq<char>)> {
        opt_entry(spec_header_if_match(), self.spec_if_match()) + opt_entry(
            spec_header_if_non_match(),
            self.spec_if_non_match(),
        )
    }

    open spec fn spec_content(&self) -> Option<()> {
        None
    }

    fn operation(&self) -> Operation {
        Operation::Read
    }

    fn path(&self) -> String {
        let id_str: String = self.id.to_string();
        document_path(id_str.as_str())
    }

    fn parameters(&self) -> Parameters {
        Parameters::empty()
    }

    fn header(&self) -> (header: Parameters) {
        let mut header = Parameters::new();
        match self.if_match.as_ref() {
            Some(im) => header.insert("If-Match", im.as_str()),
            None => {},
        }
        match self.if_non_match.as_ref() {
            Some(inm) => header.insert("If-None-Match", inm.as_str()),
            None => {},
        }
        proof {
            assert(header@ =~= self.spec_header());
        }
        header
    }

    fn content(&self) -> Option<&()> {
        None
    }
}

/// Fetches only the header of a document: identity and current revision come
/// back in response headers, the body carries nothing.
#[derive(Clone, Debug, PartialEq)]
pub struct GetDocumentHeader {
    id: DocumentId,
    if_match: Option<String>,
    if_non_match: Option<String>,
}

impl GetDocumentHeader {
    pub closed spec fn spec_id(&self) -> DocumentId {
        self.id
    }

    pub closed spec fn spec_if_match(&self) -> Option<Seq<char>> {
        self.if_match.deep_view()
    }

    pub closed spec fn spec_if_non_match(&self) -> Option<Seq<char>> {
        self.if_non_match.deep_view()
    }

    pub fn new(id: DocumentId) -> (r: GetDocumentHeader)
        ensures
            r.spec_id() == id,
            r.spec_if_match() is None,
            r.spec_if_non_match() is None,
    {
        GetDocumentHeader { id, if_match: None, if_non_match: None }
    }

    /// Replaces the optional `If-Match` revision; a later call overwrites an
    /// earlier one.
    pub fn with_if_match(self, if_match: Option<String>) -> (r: GetDocumentHeader)
        ensures
            r.spec_id() == self.spec_id(),
            r.spec_if_match() == if_match.deep_view(),
            r.spec_if_non_match() == self.spec_if_non_match(),
    {
        GetDocumentHeader { id: self.id, if_match, if_non_match: self.if_non_match }
    }

    /// Replaces the optional `If-None-Match` revision; a later call
    /// overwrites an earlier one.
    pub fn with_if_non_match(self, if_non_match: Option<String>) -> (r: GetDocumentHeader)
        ensures
            r.spec_id() == self.spec_id(),
            r.spec_if_match() == self.spec_if_match(),
            r.spec_if_non_match() == if_non_match.deep_view(),
    {
        GetDocumentHeader { id: self.id, if_match: self.if_match, if_non_match }
    }

    pub fn id(&self) -> (r: &DocumentId)
        ensures
            *r == self.spec_id(),
    {
        &self.id
    }

    pub fn if_match(&self) -> (r: Option<&String>)
        ensures
            (match r {
                Some(s) => self.spec_if_match() == Some(s@),
                None => self.spec_if_match() is None,
            }),
    {
        self.if_match.as_ref()
    }

    pub fn if_non_match(&self) -> (r: Option<&String>)
        ensures
            (match r {
                Some(s) => self.spec_if_non_match() == Some(s@),
                None => self.spec_if_non_match() is None,
            }),
    {
        self.if_non_match.as_ref()
    }
}

impl Method for GetDocumentHeader {
    type Result = ();

    open spec fn spec_result_field() -> Option<Seq<char>> {
        None
    }

    open spec fn spec_code_field() -> Option<Seq<char>> {
        Some(spec_field_code())
    }

    fn return_type() -> RpcReturnType {
        RpcReturnType { result_field: None, code_field: Some("code") }
    }
}

impl Prepare for GetDocumentHeader {
    type Content = ();

    open spec fn spec_operation(&self) -> Operation {
        Operation::ReadHeader
    }

    open spec fn spec_path(&self) -> Seq<char> {
        spec_document_path(self.spec_id().spec_to_string())
    }

    open spec fn spec_parameters(&self) -> Seq<(Seq<char>, Seq<char>)> {
        Seq::empty()
    }

    open spec fn spec_header(&self) -> Seq<(Seq<char>, Seq<char>)> {
        opt_entry(spec_header_if_match(), self.spec_if_match()) + opt_entry(
            spec_header_if_non_match(),
            self.spec_if_non_match(),
        )
    }

    open spec fn spec_content(&self) -> Option<()> {
        None
    }

    fn operation(&self) -> Operation {
        Operation::ReadHeader
    }

    fn path(&self) -> String {
        let id_str: String = self.id.to_string();
        document_path(id_str.as_str())
    }

    fn parameters(&self) -> Parameters {
        Parameters::empty()
    }

    fn header(&self) -> (header: Parameters) {
        let mut header = Parameters::new();
        match self.if_match.as_ref() {
            Some(im) => header.insert("If-Match", im.as_str()),
            None => {},
        }
        match self.if_non_match.as_ref() {
            Some(inm) => header.insert("If-None-Match", inm.as_str()),
            None => {},
        }
        proof {
            assert(header@ =~= self.spec_header());
        }
        header
    }

    fn content(&self) -> Option<&()> {
        None
    }
}

/// Inserts one new document into a collection; only the header of the
/// created document comes back. `returnNew` is hard-coded to `false` because
/// the declared result carries no content; the variant that returns content
/// is [`InsertDocumentReturnNew`].
#[derive(Clone, Debug, PartialEq)]
pub struct InsertDocument<T> {
    collection_name: String,
    document: NewDocument<T>,
    force_wait_for_sync: Option<bool>,
}

impl<T> InsertDocument<T> {
    pub closed spec fn spec_collection_name(&self) -> Seq<char> {
        self.collection_name@
    }

    pub closed spec fn spec_document(&self) -> NewDocument<T> {
        self.document
    }

    pub closed spec fn spec_force_wait_for_sync(&self) -> Option<bool> {
        self.force_wait_for_sync
    }

    pub fn new(collection_name: &str, document: NewDocument<T>) -> (r: InsertDocument<T>)
        ensures
            r.spec_collection_name() == collection_name@,
            r.spec_document() == document,
            r.spec_force_wait_for_sync() is None,
    {
        InsertDocument {
            collection_name: collection_name.to_owned(),
            document,
            force_wait_for_sync: None,
        }
    }

    pub fn collection_name(&self) -> (r: &str)
        ensures
            r@ == self.spec_collection_name(),
    {
        self.collection_name.as_str()
    }

    pub fn document(&self) -> (r: &NewDocument<T>)
        ensures
            *r == self.spec_document(),
    {
        &self.document
    }

    /// Replaces the optional wait-for-sync modifier; a later call overwrites
    /// an earlier one.
    pub fn with_force_wait_for_sync(self, force_wait_for_sync: Option<bool>) -> (r: InsertDocument<T>)
        ensures
            r.spec_collection_name() == self.spec_collection_name(),
            r.spec_document() == self.spec_document(),
            r.spec_force_wait_for_sync() == force_wait_for_sync,
    {
        InsertDocument {
            collection_name: self.collection_name,
            document: self.document,
            force_wait_for_sync,
        }
    }

    pub fn is_force_wait_for_sync(&self) -> (r: Option<bool>)
        ensures
            r == self.spec_force_wait_for_sync(),
    {
        self.force_wait_for_sync
    }
}

impl<T> Method for InsertDocument<T> {
    type Result = DocumentHeader;

    open spec fn spec_result_field() -> Option<Seq<char>> {
        None
    }

    open spec fn spec_code_field() -> Option<Seq<char>> {
        Some(spec_field_code())
    }

    fn return_type() -> RpcReturnType {
        RpcReturnType { result_field: None, code_field: Some("code") }
    }
}

impl<T> Prepare for InsertDocument<T> {
    type Content = NewDocument<T>;

    open spec fn spec_operation(&self) -> Operation {
        Operation::Create
    }

    open spec fn spec_path(&self) -> Seq<char> {
        spec_document_path(self.spec_collection_name())
    }

    open spec fn spec_parameters(&self) -> Seq<(Seq<char>, Seq<char>)> {
        seq![(spec_param_return_new(), spec_bool_str(false))] + opt_entry(
            spec_param_wait_for_sync(),
            opt_bool_value(self.spec_force_wait_for_sync()),
        )
    }

    open spec fn spec_header(&self) -> Seq<(Seq<char>, Seq<char>)> {
        Seq::empty()
    }

    open spec fn spec_content(&self) -> Option<NewDocument<T>> {
        Some(self.spec_document())
    }

    fn operation(&self) -> Operation {
        Operation::Create
    }

    fn path(&self) -> String {
        document_path(self.collection_name.as_str())
    }

    fn parameters(&self) -> (params: Parameters) {
        let mut params = Parameters::new();
        params.insert("returnNew", bool_to_str(false));
        match self.force_wait_for_sync {
            Some(b) => params.insert("waitForSync", bool_to_str(b)),
            None => {},
        }
        proof {
            assert(params@ =~= self.spec_parameters());
        }
        params
    }

    fn header(&self) -> Parameters {
        Parameters::empty()
    }

    fn content(&self) -> Option<&NewDocument<T>> {
        Some(&self.document)
    }
}

/// Inserts one new document into a collection and asks the server to return
/// the full created document. `returnNew` is hard-coded to `true` so the
/// response always matches the declared result type.
#[derive(Clone, Debug, PartialEq)]
pub struct InsertDocumentReturnNew<T> {
    collection_name: String,
    document: NewDocument<T>,
    force_wait_for_sync: Option<bool>,
}

impl<T> InsertDocumentReturnNew<T> {
    pub closed spec fn spec_collection_name(&self) -> Seq<char> {
        self.collection_name@
    }

    pub closed spec fn spec_document(&self) -> NewDocument<T> {
        self.document
    }

    pub closed spec fn spec_force_wait_for_sync(&self) -> Option<bool> {
        self.force_wait_for_sync
    }

    pub fn new(collection_name: &str, document: NewDocument<T>) -> (r: InsertDocumentReturnNew<T>)
        ensures
            r.spec_collection_name() == collection_name@,
            r.spec_document() == document,
            r.spec_force_wait_for_sync() is None,
    {
        InsertDocumentReturnNew {
            collection_name: collection_name.to_owned(),
            document,
            force_wait_for_sync: None,
        }
    }

    pub fn collection_name(&self) -> (r: &str)
        ensures
            r@ == self.spec_collection_name(),
    {
        self.collection_name.as_str()
    }

    pub fn document(&self) -> (r: &NewDocument<T>)
        ensures
            *r == self.spec_document(),
    {
        &self.document
    }

    /// Replaces the optional wait-for-sync modifier; a later call overwrites
    /// an earlier one.
    pub fn with_force_wait_for_sync(self, force_wait_for_sync: Option<bool>) -> (r:
        InsertDocumentReturnNew<T>)
        ensures
            r.spec_collection_name() == self.spec_collection_name(),
            r.spec_document() == self.spec_document(),
            r.spec_force_wait_for_sync() == force_wait_for_sync,
    {
        InsertDocumentReturnNew {
            collection_name: self.collection_name,
            document: self.document,
            force_wait_for_sync,
        }
    }

    pub fn is_force_wait_for_sync(&self) -> (r: Option<bool>)
        ensures
            r == self.spec_force_wait_for_sync(),
    {
        self.force_wait_for_sync
    }
}

impl<T> Method for InsertDocumentReturnNew<T> {
    type Result = Document<T>;

    open spec fn spec_result_field() -> Option<Seq<char>> {
        None
    }

    open spec fn spec_code_field() -> Option<Seq<char>> {
        Some(spec_field_code())
    }

    fn return_type() -> RpcReturnType {
        RpcReturnType { result_field: None, code_field: Some("code") }
    }
}

impl<T> Prepare for InsertDocumentReturnNew<T> {
    type Content = NewDocument<T>;

    open spec fn spec_operation(&self) -> Operation {
        Operation::Create
    }

    open spec fn spec_path(&self) -> Seq<char> {
        spec_document_path(self.spec_collection_name())
    }

    open spec fn spec_parameters(&self) -> Seq<(Seq<char>, Seq<char>)> {
        seq![(spec_param_return_new(), spec_bool_str(true))] + opt_entry(
            spec_param_wait_for_sync(),
            opt_bool_value(self.spec_force_wait_for_sync()),
        )
    }

    open spec fn spec_header(&self) -> Seq<(Seq<char>, Seq<char>)> {
        Seq::empty()
    }

    open spec fn spec_content(&self) -> Option<NewDocument<T>> {
        Some(self.spec_document())
    }

    fn operation(&self) -> Operation {
        Operation::Create
    }

    fn path(&self) -> String {
        document_path(self.collection_name.as_str())
    }

    fn parameters(&self) -> (params: Parameters) {
        let mut params = Parameters::new();
        params.insert("returnNew", bool_to_str(true));
        match self.force_wait_for_sync {
            Some(b) => params.insert("waitForSync", bool_to_str(b)),
            None => {},
        }
        proof {
            assert(params@ =~= self.spec_parameters());
        }
        params
    }

    fn header(&self) -> Parameters {
        Parameters::empty()
    }

    fn content(&self) -> Option<&NewDocument<T>> {
        Some(&self.document)
    }
}

/// Inserts a batch of new documents into a collection, in the given order;
/// only the headers of the created documents come back. `returnNew` is
/// hard-coded to `false`; the variant that returns content is
/// [`InsertDocumentsReturnNew`].
#[derive(Clone, Debug, PartialEq)]
pub struct InsertDocuments<T> {
    collection_name: String,
    documents: Vec<NewDocument<T>>,
    force_wait_for_sync: Option<bool>,
}

impl<T> InsertDocuments<T> {
    pub closed spec fn spec_documents_vec(&self) -> Vec<NewDocument<T>> {
        self.documents
    }

    pub closed spec fn spec_collection_name(&self) -> Seq<char> {
        self.collection_name@
    }

    /// The batch, in insertion order.
    pub open spec fn spec_documents(&self) -> Seq<NewDocument<T>> {
        self.spec_documents_vec()@
    }

    pub closed spec fn spec_force_wait_for_sync(&self) -> Option<bool> {
        self.force_wait_for_sync
    }

    pub fn new(collection_name: &str, documents: Vec<NewDocument<T>>) -> (r: InsertDocuments<T>)
        ensures
            r.spec_collection_name() == collection_name@,
            r.spec_documents() == documents@,
            r.spec_force_wait_for_sync() is None,
    {
        InsertDocuments {
            collection_name: collection_name.to_owned(),
            documents,
            force_wait_for_sync: None,
        }
    }

    pub fn collection_name(&self) -> (r: &str)
        ensures
            r@ == self.spec_collection_name(),
    {
        self.collection_name.as_str()
    }

    pub fn documents(&self) -> (r: &[NewDocument<T>])
        ensures
            r@ == self.spec_documents(),
    {
        self.documents.as_slice()
    }

    /// Replaces the optional wait-for-sync modifier; a later call overwrites
    /// an earlier one.
    pub fn with_force_wait_for_sync(self, force_wait_for_sync: Option<bool>) -> (r: InsertDocuments<T>)
        ensures
            r.spec_collection_name() == self.spec_collection_name(),
            r.spec_documents() == self.spec_documents(),
            r.spec_force_wait_for_sync() == force_wait_for_sync,
    {
        InsertDocuments {
            collection_name: self.collection_name,
            documents: self.documents,
            force_wait_for_sync,
        }
    }

    pub fn is_force_wait_for_sync(&self) -> (r: Option<bool>)
        ensures
            r == self.spec_force_wait_for_sync(),
    {
        self.force_wait_for_sync
    }
}

impl<T> Method for InsertDocuments<T> {
    type Result = Vec<DocumentHeader>;

    open spec fn spec_result_field() -> Option<Seq<char>> {
        None
    }

    open spec fn spec_code_field() -> Option<Seq<char>> {
        Some(spec_field_code())
    }

    fn return_type() -> RpcReturnType {
        RpcReturnType { result_field: None, code_field: Some("code") }
    }
}

impl<T> Prepare for InsertDocuments<T> {
    type Content = Vec<NewDocument<T>>;

    open spec fn spec_operation(&self) -> Operation {
        Operation::Create
    }

    open spec fn spec_path(&self) -> Seq<char> {
        spec_document_path(self.spec_collection_name())
    }

    open spec fn spec_parameters(&self) -> Seq<(Seq<char>, Seq<char>)> {
        seq![(spec_param_return_new(), spec_bool_str(false))] + opt_entry(
            spec_param_wait_for_sync(),
            opt_bool_value(self.spec_force_wait_for_sync()),
        )
    }

    open spec fn spec_header(&self) -> Seq<(Seq<char>, Seq<char>)> {
        Seq::empty()
    }

    open spec fn spec_content(&self) -> Option<Vec<NewDocument<T>>> {
        Some(self.spec_documents_vec())
    }

    fn operation(&self) -> Operation {
        Operation::Create
    }

    fn path(&self) -> String {
        document_path(self.collection_name.as_str())
    }

    fn parameters(&self) -> (params: Parameters) {
        let mut params = Parameters::new();
        params.insert("returnNew", bool_to_str(false));
        match self.force_wait_for_sync {
            Some(b) => params.insert("waitForSync", bool_to_str(b)),
            None => {},
        }
        proof {
            assert(params@ =~= self.spec_parameters());
        }
        params
    }

    fn header(&self) -> Parameters {
        Parameters::empty()
    }

    fn content(&self) -> Option<&Vec<NewDocument<T>>> {
        Some(&self.documents)
    }
}

/// Inserts a batch of new documents into a collection, in the given order,
/// and asks the server to return each created document in full. `returnNew`
/// is hard-coded to `true` so the response always matches the declared
/// result type.
#[derive(Clone, Debug, PartialEq)]
pub struct InsertDocumentsReturnNew<T> {
    collection_name: String,
    documents: Vec<NewDocument<T>>,
    force_wait_for_sync: Option<bool>,
}

impl<T> InsertDocumentsReturnNew<T> {
    pub closed spec fn spec_documents_vec(&self) -> Vec<NewDocument<T>> {
        self.documents
    }

    pub closed spec fn spec_collection_name(&self) -> Seq<char> {
        self.collection_name@
    }

    /// The batch, in insertion order.
    pub open spec fn spec_documents(&self) -> Seq<NewDocument<T>> {
        self.spec_documents_vec()@
    }

    pub closed spec fn spec_force_wait_for_sync(&self) -> Option<bool> {
        self.force_wait_for_sync
    }

    pub fn new(collection_name: &str, documents: Vec<NewDocument<T>>) -> (r:
        InsertDocumentsReturnNew<T>)
        ensures
            r.spec_collection_name() == collection_name@,
            r.spec_documents() == documents@,
            r.spec_force_wait_for_sync() is None,
    {
        InsertDocumentsReturnNew {
            collection_name: collection_name.to_owned(),
            documents,
            force_wait_for_sync: None,
        }
    }

    pub fn collection_name(&self) -> (r: &str)
        ensures
            r@ == self.spec_collection_name(),
    {
        self.collection_name.as_str()
    }

    pub fn documents(&self) -> (r: &[NewDocument<T>])
        ensures
            r@ == self.spec_documents(),
    {
        self.documents.as_slice()
    }

    /// Replaces the optional wait-for-sync modifier; a later call overwrites
    /// an earlier one.
    pub fn with_force_wait_for_sync(self, force_wait_for_sync: Option<bool>) -> (r:
        InsertDocumentsReturnNew<T>)
        ensures
            r.spec_collection_name() == self.spec_collection_name(),
            r.spec_documents() == self.spec_documents(),
            r.spec_force_wait_for_sync() == force_wait_for_sync,
    {
        InsertDocumentsReturnNew {
            collection_name: self.collection_name,
            documents: self.documents,
            force_wait_for_sync,
        }
    }

    pub fn is_force_wait_for_sync(&self) -> (r: Option<bool>)
        ensures
            r == self.spec_force_wait_for_sync(),
    {
        self.force_wait_for_sync
    }
}

impl<T> Method for InsertDocumentsReturnNew<T> {
    type Result = Vec<Document<T>>;

    open spec fn spec_result_field() -> Option<Seq<char>> {
        None
    }

    open spec fn spec_code_field() -> Option<Seq<char>> {
        Some(spec_field_code())
    }

    fn return_type() -> RpcReturnType {
        RpcReturnType { result_field: None, code_field: Some("code") }
    }
}

impl<T> Prepare for InsertDocumentsReturnNew<T> {
    type Content = Vec<NewDocument<T>>;

    open spec fn spec_operation(&self) -> Operation {
        Operation::Create
    }

    open spec fn spec_path(&self) -> Seq<char> {
        spec_document_path(self.spec_collection_name())
    }

    open spec fn spec_parameters(&self) -> Seq<(Seq<char>, Seq<char>)> {
        seq![(spec_param_return_new(), spec_bool_str(true))] + opt_entry(
            spec_param_wait_for_sync(),
            opt_bool_value(self.spec_force_wait_for_sync()),
        )
    }

    open spec fn spec_header(&self) -> Seq<(Seq<char>, Seq<char>)> {
        Seq::empty()
    }

    open spec fn spec_content(&self) -> Option<Vec<NewDocument<T>>> {
        Some(self.spec_documents_vec())
    }

    fn operation(&self) -> Operation {
        Operation::Create
    }

    fn path(&self) -> String {
        document_path(self.collection_name.as_str())
    }

    fn parameters(&self) -> (params: Parameters) {
        let mut params = Parameters::new();
        params.insert("returnNew", bool_to_str(true));
        match self.force_wait_for_sync {
            Some(b) => params.insert("waitForSync", bool_to_str(b)),
            None => {},
        }
        proof {
            assert(params@ =~= self.spec_parameters());
        }
        params
    }

    fn header(&self) -> Parameters {
        Parameters::empty()
    }

    fn content(&self) -> Option<&Vec<NewDocument<T>>> {
        Some(&self.documents)
    }
}

/// Replaces a document's content in full. The optional old/new content
/// snapshots in the result are independently requested through the
/// `returnOld` and `returnNew` modifiers; the type parameters pin the
/// declared result's content types.
#[derive(Clone, Debug, PartialEq)]
pub struct ReplaceDocument<Old, New> {
    document_id: DocumentId,
    new_document: DocumentUpdate<New>,
    old_document: ContentMarker<Old>,
    force_wait_for_sync: Option<bool>,
    ignore_revisions: Option<bool>,
    if_match: Option<String>,
    return_old: Option<bool>,
    return_new: Option<bool>,
}

impl<Old, New> ReplaceDocument<Old, New> {
    pub closed spec fn spec_document_id(&self) -> DocumentId {
        self.document_id
    }

    pub closed spec fn spec_new_document(&self) -> DocumentUpdate<New> {
        self.new_document
    }

    pub closed spec fn spec_force_wait_for_sync(&self) -> Option<bool> {
        self.force_wait_for_sync
    }

    pub closed spec fn spec_ignore_revisions(&self) -> Option<bool> {
        self.ignore_revisions
    }

    pub closed spec fn spec_if_match(&self) -> Option<Seq<char>> {
        self.if_match.deep_view()
    }

    pub closed spec fn spec_return_old(&self) -> Option<bool> {
        self.return_old
    }

    pub closed spec fn spec_return_new(&self) -> Option<bool> {
        self.return_new
    }

    pub fn new(document_id: DocumentId, new_document: DocumentUpdate<New>) -> (r: ReplaceDocument<
        Old,
        New,
    >)
        ensures
            r.spec_document_id() == document_id,
            r.spec_new_document() == new_document,
            r.spec_force_wait_for_sync() is None,
            r.spec_ignore_revisions() is None,
            r.spec_if_match() is None,
            r.spec_return_old() is None,
            r.spec_return_new() is None,
    {
        ReplaceDocument {
            document_id,
            new_document,
            old_document: ContentMarker::new(),
            force_wait_for_sync: None,
            ignore_revisions: None,
            if_match: None,
            return_old: None,
            return_new: None,
        }
    }

    /// Replaces the optional wait-for-sync modifier; a later call overwrites
    /// an earlier one.
    pub fn with_force_wait_for_sync(self, force_wait_for_sync: Option<bool>) -> (r: ReplaceDocument<
        Old,
        New,
    >)
        ensures
            r.spec_document_id() == self.spec_document_id(),
            r.spec_new_document() == self.spec_new_document(),
            r.spec_force_wait_for_sync() == force_wait_for_sync,
            r.spec_ignore_revisions() == self.spec_ignore_revisions(),
            r.spec_if_match() == self.spec_if_match(),
            r.spec_return_old() == self.spec_return_old(),
            r.spec_return_new() == self.spec_return_new(),
    {
        ReplaceDocument { force_wait_for_sync, ..self }
    }

    /// Replaces the optional ignore-revisions modifier; a later call
    /// overwrites an earlier one.
    pub fn with_ignore_revisions(self, ignore_revisions: Option<bool>) -> (r: ReplaceDocument<
        Old,
        New,
    >)
        ensures
            r.spec_document_id() == self.spec_document_id(),
            r.spec_new_document() == self.spec_new_document(),
            r.spec_force_wait_for_sync() == self.spec_force_wait_for_sync(),
            r.spec_ignore_revisions() == ignore_revisions,
            r.spec_if_match() == self.spec_if_match(),
            r.spec_return_old() == self.spec_return_old(),
            r.spec_return_new() == self.spec_return_new(),
    {
        ReplaceDocument { ignore_revisions, ..self }
    }

    /// Replaces the optional `If-Match` revision; a later call overwrites an
    /// earlier one.
    pub fn with_if_match(self, if_match: Option<String>) -> (r: ReplaceDocument<Old, New>)
        ensures
            r.spec_document_id() == self.spec_document_id(),
            r.spec_new_document() == self.spec_new_document(),
            r.spec_force_wait_for_sync() == self.spec_force_wait_for_sync(),
            r.spec_ignore_revisions() == self.spec_ignore_revisions(),
            r.spec_if_match() == if_match.deep_view(),
            r.spec_return_old() == self.spec_return_old(),
            r.spec_return_new() == self.spec_return_new(),
    {
        ReplaceDocument { if_match, ..self }
    }

    /// Replaces the optional return-old modifier; a later call overwrites an
    /// earlier one.
    pub fn with_return_old(self, return_old: Option<bool>) -> (r: ReplaceDocument<Old, New>)
        ensures
            r.spec_document_id() == self.spec_document_id(),
            r.spec_new_document() == self.spec_new_document(),
            r.spec_force_wait_for_sync() == self.spec_force_wait_for_sync(),
            r.spec_ignore_revisions() == self.spec_ignore_revisions(),
            r.spec_if_match() == self.spec_if_match(),
            r.spec_return_old() == return_old,
            r.spec_return_new() == self.spec_return_new(),
    {
        ReplaceDocument { return_old, ..self }
    }

    /// Replaces the optional return-new modifier; a later call overwrites an
    /// earlier one.
    pub fn with_return_new(self, return_new: Option<bool>) -> (r: ReplaceDocument<Old, New>)
        ensures
            r.spec_document_id() == self.spec_document_id(),
            r.spec_new_document() == self.spec_new_document(),
            r.spec_force_wait_for_sync() == self.spec_force_wait_for_sync(),
            r.spec_ignore_revisions() == self.spec_ignore_revisions(),
            r.spec_if_match() == self.spec_if_match(),
            r.spec_return_old() == self.spec_return_old(),
            r.spec_return_new() == return_new,
    {
        ReplaceDocument { return_new, ..self }
    }

    pub fn force_wait_for_sync(&self) -> (r: Option<bool>)
        ensures
            r == self.spec_force_wait_for_sync(),
    {
        self.force_wait_for_sync
    }

    pub fn ignore_revisions(&self) -> (r: Option<bool>)
        ensures
            r == self.spec_ignore_revisions(),
    {
        self.ignore_revisions
    }

    pub fn if_match(&self) -> (r: Option<&String>)
        ensures
            (match r {
                Some(s) => self.spec_if_match() == Some(s@),
                None => self.spec_if_match() is None,
            }),
    {
        self.if_match.as_ref()
    }

    pub fn return_old(&self) -> (r: Option<bool>)
        ensures
            r == self.spec_return_old(),
    {
        self.return_old
    }

    pub fn return_new(&self) -> (r: Option<bool>)
        ensures
            r == self.spec_return_new(),
    {
        self.return_new
    }
}

impl<Old, New> Method for ReplaceDocument<Old, New> {
    type Result = UpdatedDocument<Old, New>;

    open spec fn spec_result_field() -> Option<Seq<char>> {
        None
    }

    open spec fn spec_code_field() -> Option<Seq<char>> {
        Some(spec_field_code())
    }

    fn return_type() -> RpcReturnType {
        RpcReturnType { result_field: None, code_field: Some("code") }
    }
}

impl<Old, New> Prepare for ReplaceDocument<Old, New> {
    type Content = DocumentUpdate<New>;

    open spec fn spec_operation(&self) -> Operation {
        Operation::Replace
    }

    open spec fn spec_path(&self) -> Seq<char> {
        spec_document_path(self.spec_document_id().spec_to_string())
    }

    open spec fn spec_parameters(&self) -> Seq<(Seq<char>, Seq<char>)> {
        opt_entry(spec_param_wait_for_sync(), opt_bool_value(self.spec_force_wait_for_sync()))
            + opt_entry(spec_param_ignore_revisions(), opt_bool_value(self.spec_ignore_revisions()))
            + opt_entry(spec_param_return_old(), opt_bool_value(self.spec_return_old()))
            + opt_entry(spec_param_return_new(), opt_bool_value(self.spec_return_new()))
    }

    open spec fn spec_header(&self) -> Seq<(Seq<char>, Seq<char>)> {
        opt_entry(spec_header_if_match(), self.spec_if_match())
    }

    open spec fn spec_content(&self) -> Option<DocumentUpdate<New>> {
        Some(self.spec_new_document())
    }

    fn operation(&self) -> Operation {
        Operation::Replace
    }

    fn path(&self) -> String {
        let id_str: String = self.document_id.to_string();
        document_path(id_str.as_str())
    }

    fn parameters(&self) -> (params: Parameters) {
        let mut params = Parameters::new();
        match self.force_wait_for_sync {
            Some(b) => params.insert("waitForSync", bool_to_str(b)),
            None => {},
        }
        match self.ignore_revisions {
            Some(b) => params.insert("ignoreRevs", bool_to_str(b)),
            None => {},
        }
        match self.return_old {
            Some(b) => params.insert("returnOld", bool_to_str(b)),
            None => {},
        }
        match self.return_new {
            Some(b) => params.insert("returnNew", bool_to_str(b)),
            None => {},
        }
        proof {
            assert(params@ =~= self.spec_parameters());
        }
        params
    }

    fn header(&self) -> (header: Parameters) {
        let mut header = Parameters::new();
        match self.if_match.as_ref() {
            Some(im) => header.insert("If-Match", im.as_str()),
            None => {},
        }
        proof {
            assert(header@ =~= self.spec_header());
        }
        header
    }

    fn content(&self) -> Option<&DocumentUpdate<New>> {
        Some(&self.new_document)
    }
}

/// Partially updates a document: the payload is merged into the stored
/// document under the `keepNull` and `mergeObjects` semantics. The optional
/// old/new content snapshots in the result are independently requested
/// through the `returnOld` and `returnNew` modifiers.
#[derive(Clone, Debug, PartialEq)]
pub struct UpdateDocument<Upd, Old, New> {
    document_id: DocumentId,
    update: DocumentUpdate<Upd>,
    old_content: ContentMarker<Old>,
    new_content: ContentMarker<New>,
    force_wait_for_sync: Option<bool>,
    ignore_revisions: Option<bool>,
    if_match: Option<String>,
    keep_none: Option<bool>,
    merge_objects: Option<bool>,
    return_old: Option<bool>,
    return_new: Option<bool>,
}

impl<Upd, Old, New> UpdateDocument<Upd, Old, New> {
    pub closed spec fn spec_document_id(&self) -> DocumentId {
        self.document_id
    }

    pub closed spec fn spec_update(&self) -> DocumentUpdate<Upd> {
        self.update
    }

    pub closed spec fn spec_force_wait_for_sync(&self) -> Option<bool> {
        self.force_wait_for_sync
    }

    pub closed spec fn spec_ignore_revisions(&self) -> Option<bool> {
        self.ignore_revisions
    }

    pub closed spec fn spec_if_match(&self) -> Option<Seq<char>> {
        self.if_match.deep_view()
    }

    pub closed spec fn spec_keep_none(&self) -> Option<bool> {
        self.keep_none
    }

    pub closed spec fn spec_merge_objects(&self) -> Option<bool> {
        self.merge_objects
    }

    pub closed spec fn spec_return_old(&self) -> Option<bool> {
        self.return_old
    }

    pub closed spec fn spec_return_new(&self) -> Option<bool> {
        self.return_new
    }

    pub fn new(document_id: DocumentId, update: DocumentUpdate<Upd>) -> (r: UpdateDocument<
        Upd,
        Old,
        New,
    >)
        ensures
            r.spec_document_id() == document_id,
            r.spec_update() == update,
            r.spec_force_wait_for_sync() is None,
            r.spec_ignore_revisions() is None,
            r.spec_if_match() is None,
            r.spec_keep_none() is None,
            r.spec_merge_objects() is None,
            r.spec_return_old() is None,
            r.spec_return_new() is None,
    {
        UpdateDocument {
            document_id,
            update,
            old_content: ContentMarker::new(),
            new_content: ContentMarker::new(),
            force_wait_for_sync: None,
            ignore_revisions: None,
            if_match: None,
            keep_none: None,
            merge_objects: None,
            return_old: None,
            return_new: None,
        }
    }

    /// Replaces the optional wait-for-sync modifier; a later call overwrites
    /// an earlier one.
    pub fn with_force_wait_for_sync(self, force_wait_for_sync: Option<bool>) -> (r: UpdateDocument<
        Upd,
        Old,
        New,
    >)
        ensures
            r.spec_document_id() == self.spec_document_id(),
            r.spec_update() == self.spec_update(),
            r.spec_force_wait_for_sync() == force_wait_for_sync,
            r.spec_ignore_revisions() == self.spec_ignore_revisions(),
            r.spec_if_match() == self.spec_if_match(),
            r.spec_keep_none() == self.spec_keep_none(),
            r.spec_merge_objects() == self.spec_merge_objects(),
            r.spec_return_old() == self.spec_return_old(),
            r.spec_return_new() == self.spec_return_new(),
    {
        UpdateDocument { force_wait_for_sync, ..self }
    }

    /// Replaces the optional ignore-revisions modifier; a later call
    /// overwrites an earlier one.
    pub fn with_ignore_revisions(self, ignore_revisions: Option<bool>) -> (r: UpdateDocument<
        Upd,
        Old,
        New,
    >)
        ensures
            r.spec_document_id() == self.spec_document_id(),
            r.spec_update() == self.spec_update(),
            r.spec_force_wait_for_sync() == self.spec_force_wait_for_sync(),
            r.spec_ignore_revisions() == ignore_revisions,
            r.spec_if_match() == self.spec_if_match(),
            r.spec_keep_none() == self.spec_keep_none(),
            r.spec_merge_objects() == self.spec_merge_objects(),
            r.spec_return_old() == self.spec_return_old(),
            r.spec_return_new() == self.spec_return_new(),
    {
        UpdateDocument { ignore_revisions, ..self }
    }

    /// Replaces the optional `If-Match` revision; a later call overwrites an
    /// earlier one.
    pub fn with_if_match(self, if_match: Option<String>) -> (r: UpdateDocument<Upd, Old, New>)
        ensures
            r.spec_document_id() == self.spec_document_id(),
            r.spec_update() == self.spec_update(),
            r.spec_force_wait_for_sync() == self.spec_force_wait_for_sync(),
            r.spec_ignore_revisions() == self.spec_ignore_revisions(),
            r.spec_if_match() == if_match.deep_view(),
            r.spec_keep_none() == self.spec_keep_none(),
            r.spec_merge_objects() == self.spec_merge_objects(),
            r.spec_return_old() == self.spec_return_old(),
            r.spec_return_new() == self.spec_return_new(),
    {
        UpdateDocument { if_match, ..self }
    }

    /// Replaces the optional keep-null modifier; a later call overwrites an
    /// earlier one.
    pub fn with_keep_none(self, keep_none: Option<bool>) -> (r: UpdateDocument<Upd, Old, New>)
        ensures
            r.spec_document_id() == self.spec_document_id(),
            r.spec_update() == self.spec_update(),
            r.spec_force_wait_for_sync() == self.spec_force_wait_for_sync(),
            r.spec_ignore_revisions() == self.spec_ignore_revisions(),
            r.spec_if_match() == self.spec_if_match(),
            r.spec_keep_none() == keep_none,
            r.spec_merge_objects() == self.spec_merge_objects(),
            r.spec_return_old() == self.spec_return_old(),
            r.spec_return_new() == self.spec_return_new(),
    {
        UpdateDocument { keep_none, ..self }
    }

    /// Replaces the optional merge-objects modifier; a later call overwrites
    /// an earlier one.
    pub fn with_merge_objects(self, merge_objects: Option<bool>) -> (r: UpdateDocument<Upd, Old, New>)
        ensures
            r.spec_document_id() == self.spec_document_id(),
            r.spec_update() == self.spec_update(),
            r.spec_force_wait_for_sync() == self.spec_force_wait_for_sync(),
            r.spec_ignore_revisions() == self.spec_ignore_revisions(),
            r.spec_if_match() == self.spec_if_match(),
            r.spec_keep_none() == self.spec_keep_none(),
            r.spec_merge_objects() == merge_objects,
            r.spec_return_old() == self.spec_return_old(),
            r.spec_return_new() == self.spec_return_new(),
    {
        UpdateDocument { merge_objects, ..self }
    }

    /// Replaces the optional return-old modifier; a later call overwrites an
    /// earlier one.
    pub fn with_return_old(self, return_old: Option<bool>) -> (r: UpdateDocument<Upd, Old, New>)
        ensures
            r.spec_document_id() == self.spec_document_id(),
            r.spec_update() == self.spec_update(),
            r.spec_force_wait_for_sync() == self.spec_force_wait_for_sync(),
            r.spec_ignore_revisions() == self.spec_ignore_revisions(),
            r.spec_if_match() == self.spec_if_match(),
            r.spec_keep_none() == self.spec_keep_none(),
            r.spec_merge_objects() == self.spec_merge_objects(),
            r.spec_return_old() == return_old,
            r.spec_return_new() == self.spec_return_new(),
    {
        UpdateDocument { return_old, ..self }
    }

    /// Replaces the optional return-new modifier; a later call overwrites an
    /// earlier one.
    pub fn with_return_new(self, return_new: Option<bool>) -> (r: UpdateDocument<Upd, Old, New>)
        ensures
            r.spec_document_id() == self.spec_document_id(),
            r.spec_update() == self.spec_update(),
            r.spec_force_wait_for_sync() == self.spec_force_wait_for_sync(),
            r.spec_ignore_revisions() == self.spec_ignore_revisions(),
            r.spec_if_match() == self.spec_if_match(),
            r.spec_keep_none() == self.spec_keep_none(),
            r.spec_merge_objects() == self.spec_merge_objects(),
            r.spec_return_old() == self.spec_return_old(),
            r.spec_return_new() == return_new,
    {
        UpdateDocument { return_new, ..self }
    }

    pub fn force_wait_for_sync(&self) -> (r: Option<bool>)
        ensures
            r == self.spec_force_wait_for_sync(),
    {
        self.force_wait_for_sync
    }

    pub fn ignore_revisions(&self) -> (r: Option<bool>)
        ensures
            r == self.spec_ignore_revisions(),
    {
        self.ignore_revisions
    }

    pub fn if_match(&self) -> (r: Option<&String>)
        ensures
            (match r {
                Some(s) => self.spec_if_match() == Some(s@),
                None => self.spec_if_match() is None,
            }),
    {
        self.if_match.as_ref()
    }

    pub fn keep_none(&self) -> (r: Option<bool>)
        ensures
            r == self.spec_keep_none(),
    {
        self.keep_none
    }

    pub fn merge_objects(&self) -> (r: Option<bool>)
        ensures
            r == self.spec_merge_objects(),
    {
        self.merge_objects
    }

    pub fn return_old(&self) -> (r: Option<bool>)
        ensures
            r == self.spec_return_old(),
    {
        self.return_old
    }

    pub fn return_new(&self) -> (r: Option<bool>)
        ensures
            r == self.spec_return_new(),
    {
        self.return_new
    }
}

impl<Upd, Old, New> Method for UpdateDocument<Upd, Old, New> {
    type Result = UpdatedDocument<Old, New>;

    open spec fn spec_result_field() -> Option<Seq<char>> {
        None
    }

    open spec fn spec_code_field() -> Option<Seq<char>> {
        Some(spec_field_code())
    }

    fn return_type() -> RpcReturnType {
        RpcReturnType { result_field: None, code_field: Some("code") }
    }
}

impl<Upd, Old, New> Prepare for UpdateDocument<Upd, Old, New> {
    type Content = DocumentUpdate<Upd>;

    open spec fn spec_operation(&self) -> Operation {
        Operation::Modify
    }

    open spec fn spec_path(&self) -> Seq<char> {
        spec_document_path(self.spec_document_id().spec_to_string())
    }

    open spec fn spec_parameters(&self) -> Seq<(Seq<char>, Seq<char>)> {
        opt_entry(spec_param_wait_for_sync(), opt_bool_value(self.spec_force_wait_for_sync()))
            + opt_entry(spec_param_ignore_revisions(), opt_bool_value(self.spec_ignore_revisions()))
            + opt_entry(spec_param_keep_null(), opt_bool_value(self.spec_keep_none()))
            + opt_entry(spec_param_merge_objects(), opt_bool_value(self.spec_merge_objects()))
            + opt_entry(spec_param_return_old(), opt_bool_value(self.spec_return_old()))
            + opt_entry(spec_param_return_new(), opt_bool_value(self.spec_return_new()))
    }

    open spec fn spec_header(&self) -> Seq<(Seq<char>, Seq<char>)> {
        opt_entry(spec_header_if_match(), self.spec_if_match())
    }

    open spec fn spec_content(&self) -> Option<DocumentUpdate<Upd>> {
        Some(self.spec_update())
    }

    fn operation(&self) -> Operation {
        Operation::Modify
    }

    fn path(&self) -> String {
        let id_str: String = self.document_id.to_string();
        document_path(id_str.as_str())
    }

    fn parameters(&self) -> (params: Parameters) {
        let mut params = Parameters::new();
        match self.force_wait_for_sync {
            Some(b) => params.insert("waitForSync", bool_to_str(b)),
            None => {},
        }
        match self.ignore_revisions {
            Some(b) => params.insert("ignoreRevs", bool_to_str(b)),
            None => {},
        }
        match self.keep_none {
            Some(b) => params.insert("keepNull", bool_to_str(b)),
            None => {},
        }
        match self.merge_objects {
            Some(b) => params.insert("mergeObjects", bool_to_str(b)),
            None => {},
        }
        match self.return_old {
            Some(b) => params.insert("returnOld", bool_to_str(b)),
            None => {},
        }
        match self.return_new {
            Some(b) => params.insert("returnNew", bool_to_str(b)),
            None => {},
        }
        proof {
            assert(params@ =~= self.spec_parameters());
        }
        params
    }

    fn header(&self) -> (header: Parameters) {
        let mut header = Parameters::new();
        match self.if_match.as_ref() {
            Some(im) => header.insert("If-Match", im.as_str()),
            None => {},
        }
        proof {
            assert(header@ =~= self.spec_header());
        }
        header
    }

    fn content(&self) -> Option<&DocumentUpdate<Upd>> {
        Some(&self.update)
    }
}

} // verus!
