//! Wire-level names fixed by the document API: the path prefix for document
//! resources, the query-parameter and header names, and the response field
//! that carries a status code. All of them are fixed literals.

use vstd::prelude::*;

verus! {

/// The API root under which document resources live.
pub open spec fn spec_path_api_document() -> Seq<char> {
    "/_api/document"@
}

/// The response field holding the status code to check.
pub open spec fn spec_field_code() -> Seq<char> {
    "code"@
}

/// Header naming the revision the document must match.
pub open spec fn spec_header_if_match() -> Seq<char> {
    "If-Match"@
}

/// Header naming the revision the document must not match.
pub open spec fn spec_header_if_non_match() -> Seq<char> {
    "If-None-Match"@
}

/// Query parameter: wait until the write is synced to disk.
pub open spec fn spec_param_wait_for_sync() -> Seq<char> {
    "waitForSync"@
}

/// Query parameter: ignore revision conflicts.
pub open spec fn spec_param_ignore_revisions() -> Seq<char> {
    "ignoreRevs"@
}

/// Query parameter: keep attributes set to null in a partial update.
pub open spec fn spec_param_keep_null() -> Seq<char> {
    "keepNull"@
}

/// Query parameter: merge object attributes in a partial update.
pub open spec fn spec_param_merge_objects() -> Seq<char> {
    "mergeObjects"@
}

/// Query parameter: return the old document content.
pub open spec fn spec_param_return_old() -> Seq<char> {
    "returnOld"@
}

/// Query parameter: return the new document content.
pub open spec fn spec_param_return_new() -> Seq<char> {
    "returnNew"@
}

/// The canonical document path: the API prefix, a slash, then either a
/// document id or a collection name.
pub open spec fn spec_document_path(tail: Seq<char>) -> Seq<char> {
    spec_path_api_document() + "/"@ + tail
}

/// How a boolean parameter value is rendered on the wire.
pub open spec fn spec_bool_str(b: bool) -> Seq<char> {
    if b {
        "true"@
    } else {
        "false"@
    }
}

/// Renders a boolean parameter value.
pub fn bool_to_str(b: bool) -> (r: &'static str)
    ensures
        r@ == spec_bool_str(b),
{
    if b {
        "true"
    } else {
        "false"
    }
}

/// Builds the path for a document resource.
pub fn document_path(tail: &str) -> (r: String)
    ensures
        r@ == spec_document_path(tail@),
{
    let prefix: String = "/_api/document".to_owned();
    let with_slash: String = prefix.concat("/");
    with_slash.concat(tail)
}

/// The five query-parameter names used by write operations are pairwise
/// distinct, and so are the two conditional header names.
pub proof fn lemma_protocol_names_distinct()
    ensures
        spec_param_wait_for_sync() != spec_param_ignore_revisions(),
        spec_param_wait_for_sync() != spec_param_keep_null(),
        spec_param_wait_for_sync() != spec_param_merge_objects(),
        spec_param_wait_for_sync() != spec_param_return_old(),
        spec_param_wait_for_sync() != spec_param_return_new(),
        spec_param_ignore_revisions() != spec_param_keep_null(),
        spec_param_ignore_revisions() != spec_param_merge_objects(),
        spec_param_ignore_revisions() != spec_param_return_old(),
        spec_param_ignore_revisions() != spec_param_return_new(),
        spec_param_keep_null() != spec_param_merge_objects(),
        spec_param_keep_null() != spec_param_return_old(),
        spec_param_keep_null() != spec_param_return_new(),
        spec_param_merge_objects() != spec_param_return_old(),
        spec_param_merge_objects() != spec_param_return_new(),
        spec_param_return_old() != spec_param_return_new(),
        spec_header_if_match() != spec_header_if_non_match(),
{
    reveal_strlit("waitForSync");
    reveal_strlit("ignoreRevs");
    reveal_strlit("keepNull");
    reveal_strlit("mergeObjects");
    reveal_strlit("returnOld");
    reveal_strlit("returnNew");
    reveal_strlit("If-Match");
    reveal_strlit("If-None-Match");
    assert(spec_param_wait_for_sync().len() == 11);
    assert(spec_param_ignore_revisions().len() == 10);
    assert(spec_param_keep_null().len() == 8);
    assert(spec_param_merge_objects().len() == 12);
    assert(spec_param_return_old().len() == 9);
    assert(spec_param_return_new().len() == 9);
    assert(spec_param_return_old()[6] == 'O');
    assert(spec_param_return_new()[6] == 'N');
    assert(spec_header_if_match().len() == 8);
    assert(spec_header_if_non_match().len() == 13);
}

} // verus!
