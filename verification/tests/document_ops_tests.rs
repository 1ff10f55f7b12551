use document_ops::api::{Method, Operation, Parameters, Prepare};
use document_ops::methods::{
    GetDocument, GetDocumentHeader, InsertDocument, InsertDocumentReturnNew, InsertDocuments,
    InsertDocumentsReturnNew, ReplaceDocument, UpdateDocument,
};
use document_ops::types::{
    Document, DocumentHeader, DocumentId, DocumentUpdate, NewDocument, Revision, UpdatedDocument,
};

#[test]
fn document_id_renders_collection_slash_key() {
    let id = DocumentId::new("users", "42");
    assert_eq!(id.collection_name(), "users");
    assert_eq!(id.document_key(), "42");
    assert_eq!(id.to_string(), "users/42");
}

#[test]
fn revision_keeps_its_value() {
    let rev = Revision::new("_XYZ123");
    assert_eq!(rev.as_str(), "_XYZ123");
}

#[test]
fn document_header_carries_identity_and_revision() {
    let header = DocumentHeader::new(DocumentId::new("users", "7"), "7", Revision::new("_r1"));
    assert_eq!(header.id().to_string(), "users/7");
    assert_eq!(header.key(), "7");
    assert_eq!(header.revision().as_str(), "_r1");
}

#[test]
fn document_carries_header_and_content() {
    let header = DocumentHeader::new(DocumentId::new("users", "7"), "7", Revision::new("_r1"));
    let doc = Document::new(header, 99u32);
    assert_eq!(*doc.content(), 99u32);
    assert_eq!(doc.header().key(), "7");
}

#[test]
fn new_document_key_is_optional() {
    let doc = NewDocument::from_content(5i64);
    assert!(doc.key().is_none());
    assert_eq!(*doc.content(), 5i64);
    let keyed = doc.with_key(Some("k1".to_string()));
    assert_eq!(keyed.key(), Some(&"k1".to_string()));
    assert_eq!(*keyed.content(), 5i64);
}

#[test]
fn updated_document_sides_are_independent() {
    let header = DocumentHeader::new(DocumentId::new("users", "7"), "7", Revision::new("_r2"));
    let upd: UpdatedDocument<i32, i32> = UpdatedDocument::new(header, Some(1), None);
    assert_eq!(upd.old_content(), Some(&1));
    assert!(upd.new_content().is_none());
}

#[test]
fn parameters_get_returns_first_match() {
    let mut params = Parameters::new();
    assert!(params.is_empty());
    params.insert("a", "1");
    params.insert("b", "2");
    params.insert("a", "3");
    assert_eq!(params.len(), 3);
    assert_eq!(params.get("a"), Some("1".to_string()));
    assert_eq!(params.get("b"), Some("2".to_string()));
    assert_eq!(params.get("c"), None);
    assert_eq!(params.name_at(1).as_str(), "b");
    assert_eq!(params.value_at(2).as_str(), "3");
}

#[test]
fn get_document_fresh_descriptor_has_no_modifiers() {
    let d: GetDocument<i32> = GetDocument::new(DocumentId::new("users", "42"));
    assert!(d.if_match().is_none());
    assert!(d.if_non_match().is_none());
    assert!(d.parameters().is_empty());
    assert!(d.header().is_empty());
    assert_eq!(d.operation(), Operation::Read);
    assert!(d.content().is_none());
}

#[test]
fn get_document_path_is_prefix_plus_id() {
    let d: GetDocument<i32> = GetDocument::new(DocumentId::new("users", "42"));
    assert_eq!(d.path(), "/_api/document/users/42");
}

#[test]
fn get_document_with_if_match_sets_header() {
    let d: GetDocument<i32> = GetDocument::new(DocumentId::new("users", "42")).with_if_match(
        Some("rev1".to_string()),
    );
    assert_eq!(d.if_match(), Some(&"rev1".to_string()));
    let header = d.header();
    assert_eq!(header.len(), 1);
    assert_eq!(header.get("If-Match"), Some("rev1".to_string()));
    assert_eq!(header.get("If-None-Match"), None);
}

#[test]
fn get_document_if_match_overwrites_on_repeat() {
    let d: GetDocument<i32> = GetDocument::new(DocumentId::new("users", "42"))
        .with_if_match(Some("rev1".to_string()))
        .with_if_match(Some("rev2".to_string()));
    assert_eq!(d.if_match(), Some(&"rev2".to_string()));
    let header = d.header();
    assert_eq!(header.len(), 1);
    assert_eq!(header.get("If-Match"), Some("rev2".to_string()));
}

#[test]
fn get_document_allows_both_conditional_headers() {
    let d: GetDocument<i32> = GetDocument::new(DocumentId::new("users", "42"))
        .with_if_match(Some("r1".to_string()))
        .with_if_non_match(Some("r2".to_string()));
    let header = d.header();
    assert_eq!(header.len(), 2);
    assert_eq!(header.name_at(0).as_str(), "If-Match");
    assert_eq!(header.value_at(0).as_str(), "r1");
    assert_eq!(header.name_at(1).as_str(), "If-None-Match");
    assert_eq!(header.value_at(1).as_str(), "r2");
}

#[test]
fn get_document_unset_if_match_can_be_cleared() {
    let d: GetDocument<i32> = GetDocument::new(DocumentId::new("users", "42"))
        .with_if_match(Some("r1".to_string()))
        .with_if_match(None);
    assert!(d.if_match().is_none());
    assert!(d.header().is_empty());
}

#[test]
fn get_document_header_descriptor_basics() {
    let d = GetDocumentHeader::new(DocumentId::new("users", "42"));
    assert!(d.if_match().is_none());
    assert!(d.if_non_match().is_none());
    assert_eq!(d.operation(), Operation::ReadHeader);
    assert_eq!(d.path(), "/_api/document/users/42");
    assert!(d.parameters().is_empty());
    assert!(d.content().is_none());
}

#[test]
fn get_document_header_with_if_non_match_sets_header() {
    let d = GetDocumentHeader::new(DocumentId::new("users", "42")).with_if_non_match(
        Some("r9".to_string()),
    );
    assert_eq!(d.if_non_match(), Some(&"r9".to_string()));
    let header = d.header();
    assert_eq!(header.len(), 1);
    assert_eq!(header.get("If-None-Match"), Some("r9".to_string()));
}

#[test]
fn insert_document_path_is_prefix_plus_collection() {
    let d = InsertDocument::new("users", NewDocument::from_content(1i32));
    assert_eq!(d.path(), "/_api/document/users");
}

#[test]
fn insert_document_always_sets_return_new_false() {
    let d = InsertDocument::new("users", NewDocument::from_content(1i32));
    let params = d.parameters();
    assert_eq!(params.len(), 1);
    assert_eq!(params.get("returnNew"), Some("false".to_string()));
    assert_eq!(params.get("waitForSync"), None);
}

#[test]
fn insert_document_return_new_always_sets_return_new_true() {
    let d = InsertDocumentReturnNew::new("users", NewDocument::from_content(1i32));
    let params = d.parameters();
    assert_eq!(params.len(), 1);
    assert_eq!(params.get("returnNew"), Some("true".to_string()));
}

#[test]
fn insert_document_wait_for_sync_round_trip() {
    let fresh = InsertDocument::new("users", NewDocument::from_content(1i32));
    assert_eq!(fresh.is_force_wait_for_sync(), None);
    let d = fresh.with_force_wait_for_sync(Some(true));
    assert_eq!(d.is_force_wait_for_sync(), Some(true));
    let params = d.parameters();
    assert_eq!(params.len(), 2);
    assert_eq!(params.get("waitForSync"), Some("true".to_string()));
    assert_eq!(params.get("returnNew"), Some("false".to_string()));
}

#[test]
fn insert_document_carries_its_payload() {
    let d = InsertDocument::new("users", NewDocument::from_content(41i32));
    assert_eq!(d.collection_name(), "users");
    assert_eq!(*d.document().content(), 41i32);
    assert_eq!(d.operation(), Operation::Create);
    let body = d.content().expect("create carries a body");
    assert_eq!(*body.content(), 41i32);
}

#[test]
fn insert_documents_preserves_batch_order() {
    let doc1 = NewDocument::from_content(1i32).with_key(Some("a".to_string()));
    let doc2 = NewDocument::from_content(2i32).with_key(Some("b".to_string()));
    let d = InsertDocuments::new("c", vec![doc1.clone(), doc2.clone()]);
    assert_eq!(d.documents().len(), 2);
    assert_eq!(d.documents(), &[doc1.clone(), doc2.clone()][..]);
    let body = d.content().expect("batch create carries a body");
    assert_eq!(body.len(), 2);
    assert_eq!(body[0], doc1);
    assert_eq!(body[1], doc2);
}

#[test]
fn insert_documents_sets_return_new_false() {
    let d = InsertDocuments::new("c", vec![NewDocument::from_content(1i32)]);
    let params = d.parameters();
    assert_eq!(params.len(), 1);
    assert_eq!(params.get("returnNew"), Some("false".to_string()));
    assert_eq!(d.operation(), Operation::Create);
    assert_eq!(d.path(), "/_api/document/c");
}

#[test]
fn insert_documents_return_new_sets_return_new_true() {
    let d = InsertDocumentsReturnNew::new("c", vec![NewDocument::from_content(1i32)]);
    let params = d.parameters();
    assert_eq!(params.get("returnNew"), Some("true".to_string()));
    assert_eq!(d.documents().len(), 1);
}

#[test]
fn replace_document_fresh_descriptor_has_no_modifiers() {
    let d: ReplaceDocument<i32, i32> = ReplaceDocument::new(
        DocumentId::new("users", "42"),
        DocumentUpdate::new(7i32),
    );
    assert_eq!(d.force_wait_for_sync(), None);
    assert_eq!(d.ignore_revisions(), None);
    assert!(d.if_match().is_none());
    assert_eq!(d.return_old(), None);
    assert_eq!(d.return_new(), None);
    assert!(d.parameters().is_empty());
    assert!(d.header().is_empty());
    assert_eq!(d.operation(), Operation::Replace);
    assert_eq!(d.path(), "/_api/document/users/42");
}

#[test]
fn replace_document_bool_modifiers_round_trip() {
    let base: ReplaceDocument<i32, i32> = ReplaceDocument::new(
        DocumentId::new("users", "42"),
        DocumentUpdate::new(7i32),
    );
    let d = base.clone().with_force_wait_for_sync(Some(true));
    assert_eq!(d.force_wait_for_sync(), Some(true));
    assert_eq!(d.parameters().get("waitForSync"), Some("true".to_string()));

    let d = base.clone().with_ignore_revisions(Some(false));
    assert_eq!(d.ignore_revisions(), Some(false));
    assert_eq!(d.parameters().get("ignoreRevs"), Some("false".to_string()));

    let d = base.clone().with_return_old(Some(true));
    assert_eq!(d.return_old(), Some(true));
    assert_eq!(d.parameters().get("returnOld"), Some("true".to_string()));

    let d = base.clone().with_return_new(Some(true));
    assert_eq!(d.return_new(), Some(true));
    assert_eq!(d.parameters().get("returnNew"), Some("true".to_string()));
}

#[test]
fn replace_document_unset_modifier_produces_no_parameter() {
    let d: ReplaceDocument<i32, i32> = ReplaceDocument::new(
        DocumentId::new("users", "42"),
        DocumentUpdate::new(7i32),
    ).with_return_old(Some(true));
    let params = d.parameters();
    assert_eq!(params.len(), 1);
    assert_eq!(params.get("waitForSync"), None);
    assert_eq!(params.get("ignoreRevs"), None);
    assert_eq!(params.get("returnNew"), None);
}

#[test]
fn replace_document_modifier_overwrites_on_repeat() {
    let d: ReplaceDocument<i32, i32> = ReplaceDocument::new(
        DocumentId::new("users", "42"),
        DocumentUpdate::new(7i32),
    ).with_return_old(Some(true)).with_return_old(Some(false));
    assert_eq!(d.return_old(), Some(false));
    let params = d.parameters();
    assert_eq!(params.len(), 1);
    assert_eq!(params.get("returnOld"), Some("false".to_string()));
}

#[test]
fn replace_document_if_match_goes_to_header_not_parameters() {
    let d: ReplaceDocument<i32, i32> = ReplaceDocument::new(
        DocumentId::new("users", "42"),
        DocumentUpdate::new(7i32),
    ).with_if_match(Some("r3".to_string()));
    assert_eq!(d.if_match(), Some(&"r3".to_string()));
    assert!(d.parameters().is_empty());
    let header = d.header();
    assert_eq!(header.len(), 1);
    assert_eq!(header.get("If-Match"), Some("r3".to_string()));
}

#[test]
fn replace_document_carries_replacement_content() {
    let d: ReplaceDocument<i32, i32> = ReplaceDocument::new(
        DocumentId::new("users", "42"),
        DocumentUpdate::new(7i32),
    );
    let body = d.content().expect("replace carries a body");
    assert_eq!(*body.content(), 7i32);
}

#[test]
fn update_document_fresh_descriptor_has_no_modifiers() {
    let d: UpdateDocument<i32, i32, i32> = UpdateDocument::new(
        DocumentId::new("users", "42"),
        DocumentUpdate::new(5i32),
    );
    assert_eq!(d.force_wait_for_sync(), None);
    assert_eq!(d.ignore_revisions(), None);
    assert!(d.if_match().is_none());
    assert_eq!(d.keep_none(), None);
    assert_eq!(d.merge_objects(), None);
    assert_eq!(d.return_old(), None);
    assert_eq!(d.return_new(), None);
    assert!(d.parameters().is_empty());
    assert!(d.header().is_empty());
    assert_eq!(d.operation(), Operation::Modify);
    assert_eq!(d.path(), "/_api/document/users/42");
}

#[test]
fn update_document_bool_modifiers_round_trip() {
    let base: UpdateDocument<i32, i32, i32> = UpdateDocument::new(
        DocumentId::new("users", "42"),
        DocumentUpdate::new(5i32),
    );
    let d = base.clone().with_force_wait_for_sync(Some(true));
    assert_eq!(d.force_wait_for_sync(), Some(true));
    assert_eq!(d.parameters().get("waitForSync"), Some("true".to_string()));

    let d = base.clone().with_ignore_revisions(Some(true));
    assert_eq!(d.ignore_revisions(), Some(true));
    assert_eq!(d.parameters().get("ignoreRevs"), Some("true".to_string()));

    let d = base.clone().with_keep_none(Some(true));
    assert_eq!(d.keep_none(), Some(true));
    assert_eq!(d.parameters().get("keepNull"), Some("true".to_string()));

    let d = base.clone().with_merge_objects(Some(false));
    assert_eq!(d.merge_objects(), Some(false));
    assert_eq!(d.parameters().get("mergeObjects"), Some("false".to_string()));

    let d = base.clone().with_return_old(Some(true));
    assert_eq!(d.return_old(), Some(true));
    assert_eq!(d.parameters().get("returnOld"), Some("true".to_string()));

    let d = base.clone().with_return_new(Some(false));
    assert_eq!(d.return_new(), Some(false));
    assert_eq!(d.parameters().get("returnNew"), Some("false".to_string()));
}

#[test]
fn update_document_unset_modifiers_produce_no_parameters() {
    let d: UpdateDocument<i32, i32, i32> = UpdateDocument::new(
        DocumentId::new("users", "42"),
        DocumentUpdate::new(5i32),
    ).with_merge_objects(Some(true));
    let params = d.parameters();
    assert_eq!(params.len(), 1);
    assert_eq!(params.get("waitForSync"), None);
    assert_eq!(params.get("ignoreRevs"), None);
    assert_eq!(params.get("keepNull"), None);
    assert_eq!(params.get("returnOld"), None);
    assert_eq!(params.get("returnNew"), None);
}

#[test]
fn update_document_end_to_end_scenario() {
    let d: UpdateDocument<i32, i32, i32> = UpdateDocument::new(
        DocumentId::new("users", "42"),
        DocumentUpdate::new(5i32),
    ).with_keep_none(Some(false)).with_return_new(Some(true));
    let params = d.parameters();
    assert_eq!(params.len(), 2);
    assert_eq!(params.get("keepNull"), Some("false".to_string()));
    assert_eq!(params.get("returnNew"), Some("true".to_string()));
    assert_eq!(params.get("waitForSync"), None);
    assert_eq!(params.get("ignoreRevs"), None);
    assert_eq!(params.get("mergeObjects"), None);
    assert_eq!(params.get("returnOld"), None);
    assert_eq!(d.operation(), Operation::Modify);
    let body = d.content().expect("update carries a body");
    assert_eq!(*body.content(), 5i32);
    assert!(d.header().is_empty());
}

#[test]
fn update_document_if_match_sets_only_that_header() {
    let d: UpdateDocument<i32, i32, i32> = UpdateDocument::new(
        DocumentId::new("users", "42"),
        DocumentUpdate::new(5i32),
    ).with_if_match(Some("r7".to_string()));
    let header = d.header();
    assert_eq!(header.len(), 1);
    assert_eq!(header.get("If-Match"), Some("r7".to_string()));
    assert_eq!(header.get("If-None-Match"), None);
}

#[test]
fn return_types_check_the_code_field_only() {
    let rt = <GetDocument<i32> as Method>::return_type();
    assert!(rt.result_field.is_none());
    assert_eq!(rt.code_field, Some("code"));
    let rt = <GetDocumentHeader as Method>::return_type();
    assert!(rt.result_field.is_none());
    assert_eq!(rt.code_field, Some("code"));
    let rt = <UpdateDocument<i32, i32, i32> as Method>::return_type();
    assert!(rt.result_field.is_none());
    assert_eq!(rt.code_field, Some("code"));
    let rt = <InsertDocuments<i32> as Method>::return_type();
    assert!(rt.result_field.is_none());
    assert_eq!(rt.code_field, Some("code"));
}
