//! Laws about the produced parameter and header mappings, proved once for
//! every descriptor value: an unset optional modifier never appears in the
//! mapping, a set modifier appears under exactly its wire name with exactly
//! its rendered value, the hard-coded `returnNew` of the insert variants is
//! fixed, and no name beyond the operation's own ever appears.

use vstd::prelude::*;

use crate::api::{opt_bool_value, opt_entry, spec_lookup, Prepare};
use crate::api::{lemma_lookup_empty, lemma_lookup_opt_entry};
use crate::methods::{
    GetDocument, GetDocumentHeader, InsertDocument, InsertDocumentReturnNew, InsertDocuments,
    InsertDocumentsReturnNew, ReplaceDocument, UpdateDocument,
};
use crate::protocol::{
    lemma_protocol_names_distinct, spec_bool_str, spec_header_if_match, spec_header_if_non_match,
    spec_param_ignore_revisions, spec_param_keep_null, spec_param_merge_objects,
    spec_param_return_new, spec_param_return_old, spec_param_wait_for_sync,
};

verus! {

/// Looking up any name in the headers of a fetch: `If-Match` answers with
/// the revision set by `with_if_match` (nothing when unset), `If-None-Match`
/// likewise, and no other header ever appears.
pub proof fn lemma_get_document_header_entries<T>(d: GetDocument<T>, n: Seq<char>)
    ensures
        spec_lookup(d.spec_header(), n) == (if n == spec_header_if_match() {
            d.spec_if_match()
        } else if n == spec_header_if_non_match() {
            d.spec_if_non_match()
        } else {
            None::<Seq<char>>
        }),
{
    lemma_protocol_names_distinct();
    let s2 = opt_entry(spec_header_if_non_match(), d.spec_if_non_match());
    lemma_lookup_opt_entry(spec_header_if_match(), d.spec_if_match(), s2, n);
    lemma_lookup_opt_entry(
        spec_header_if_non_match(),
        d.spec_if_non_match(),
        Seq::empty(),
        n,
    );
    assert(s2 + Seq::<(Seq<char>, Seq<char>)>::empty() =~= s2);
    lemma_lookup_empty(n);
}

/// The header law of [`lemma_get_document_header_entries`], for the
/// header-only fetch.
pub proof fn lemma_get_document_header_header_entries(d: GetDocumentHeader, n: Seq<char>)
    ensures
        spec_lookup(d.spec_header(), n) == (if n == spec_header_if_match() {
            d.spec_if_match()
        } else if n == spec_header_if_non_match() {
            d.spec_if_non_match()
        } else {
            None::<Seq<char>>
        }),
{
    lemma_protocol_names_distinct();
    let s2 = opt_entry(spec_header_if_non_match(), d.spec_if_non_match());
    lemma_lookup_opt_entry(spec_header_if_match(), d.spec_if_match(), s2, n);
    lemma_lookup_opt_entry(
        spec_header_if_non_match(),
        d.spec_if_non_match(),
        Seq::empty(),
        n,
    );
    assert(s2 + Seq::<(Seq<char>, Seq<char>)>::empty() =~= s2);
    lemma_lookup_empty(n);
}

/// Looking up any name in the parameters of a plain insert: `returnNew` is
/// always `"false"` (no modifier can change it), `waitForSync` carries the
/// wait-for-sync modifier exactly when it was set, and no other parameter
/// ever appears.
pub proof fn lemma_insert_document_parameter_entries<T>(d: InsertDocument<T>, n: Seq<char>)
    ensures
        spec_lookup(d.spec_parameters(), n) == (if n == spec_param_return_new() {
            Some(spec_bool_str(false))
        } else if n == spec_param_wait_for_sync() {
            opt_bool_value(d.spec_force_wait_for_sync())
        } else {
            None::<Seq<char>>
        }),
{
    lemma_protocol_names_distinct();
    let s2 = opt_entry(spec_param_wait_for_sync(), opt_bool_value(d.spec_force_wait_for_sync()));
    assert(d.spec_parameters() == opt_entry(spec_param_return_new(), Some(spec_bool_str(false)))
        + s2);
    lemma_lookup_opt_entry(spec_param_return_new(), Some(spec_bool_str(false)), s2, n);
    lemma_lookup_opt_entry(
        spec_param_wait_for_sync(),
        opt_bool_value(d.spec_force_wait_for_sync()),
        Seq::empty(),
        n,
    );
    assert(s2 + Seq::<(Seq<char>, Seq<char>)>::empty() =~= s2);
    lemma_lookup_empty(n);
}

/// The parameter law of [`lemma_insert_document_parameter_entries`], for the
/// return-new insert: `returnNew` is always `"true"`.
pub proof fn lemma_insert_document_return_new_parameter_entries<T>(
    d: InsertDocumentReturnNew<T>,
    n: Seq<char>,
)
    ensures
        spec_lookup(d.spec_parameters(), n) == (if n == spec_param_return_new() {
            Some(spec_bool_str(true))
        } else if n == spec_param_wait_for_sync() {
            opt_bool_value(d.spec_force_wait_for_sync())
        } else {
            None::<Seq<char>>
        }),
{
    lemma_protocol_names_distinct();
    let s2 = opt_entry(spec_param_wait_for_sync(), opt_bool_value(d.spec_force_wait_for_sync()));
    assert(d.spec_parameters() == opt_entry(spec_param_return_new(), Some(spec_bool_str(true)))
        + s2);
    lemma_lookup_opt_entry(spec_param_return_new(), Some(spec_bool_str(true)), s2, n);
    lemma_lookup_opt_entry(
        spec_param_wait_for_sync(),
        opt_bool_value(d.spec_force_wait_for_sync()),
        Seq::empty(),
        n,
    );
    assert(s2 + Seq::<(Seq<char>, Seq<char>)>::empty() =~= s2);
    lemma_lookup_empty(n);
}

/// The parameter law of [`lemma_insert_document_parameter_entries`], for the
/// batch insert.
pub proof fn lemma_insert_documents_parameter_entries<T>(d: InsertDocuments<T>, n: Seq<char>)
    ensures
        spec_lookup(d.spec_parameters(), n) == (if n == spec_param_return_new() {
            Some(spec_bool_str(false))
        } else if n == spec_param_wait_for_sync() {
            opt_bool_value(d.spec_force_wait_for_sync())
        } else {
            None::<Seq<char>>
        }),
{
    lemma_protocol_names_distinct();
    let s2 = opt_entry(spec_param_wait_for_sync(), opt_bool_value(d.spec_force_wait_for_sync()));
    assert(d.spec_parameters() == opt_entry(spec_param_return_new(), Some(spec_bool_str(false)))
        + s2);
    lemma_lookup_opt_entry(spec_param_return_new(), Some(spec_bool_str(false)), s2, n);
    lemma_lookup_opt_entry(
        spec_param_wait_for_sync(),
        opt_bool_value(d.spec_force_wait_for_sync()),
        Seq::empty(),
        n,
    );
    assert(s2 + Seq::<(Seq<char>, Seq<char>)>::empty() =~= s2);
    lemma_lookup_empty(n);
}

/// The parameter law of [`lemma_insert_document_parameter_entries`], for the
/// return-new batch insert: `returnNew` is always `"true"`.
pub proof fn lemma_insert_documents_return_new_parameter_entries<T>(
    d: InsertDocumentsReturnNew<T>,
    n: Seq<char>,
)
    ensures
        spec_lookup(d.spec_parameters(), n) == (if n == spec_param_return_new() {
            Some(spec_bool_str(true))
        } else if n == spec_param_wait_for_sync() {
            opt_bool_value(d.spec_force_wait_for_sync())
        } else {
            None::<Seq<char>>
        }),
{
    lemma_protocol_names_distinct();
    let s2 = opt_entry(spec_param_wait_for_sync(), opt_bool_value(d.spec_force_wait_for_sync()));
    assert(d.spec_parameters() == opt_entry(spec_param_return_new(), Some(spec_bool_str(true)))
        + s2);
    lemma_lookup_opt_entry(spec_param_return_new(), Some(spec_bool_str(true)), s2, n);
    lemma_lookup_opt_entry(
        spec_param_wait_for_sync(),
        opt_bool_value(d.spec_force_wait_for_sync()),
        Seq::empty(),
        n,
    );
    assert(s2 + Seq::<(Seq<char>, Seq<char>)>::empty() =~= s2);
    lemma_lookup_empty(n);
}

/// Looking up any name in the parameters of a replace: each boolean
/// modifier appears under its own wire name exactly when it was set, with
/// its rendered value, and no other parameter ever appears.
pub proof fn lemma_replace_document_parameter_entries<Old, New>(
    d: ReplaceDocument<Old, New>,
    n: Seq<char>,
)
    ensures
        spec_lookup(d.spec_parameters(), n) == (if n == spec_param_wait_for_sync() {
            opt_bool_value(d.spec_force_wait_for_sync())
        } else if n == spec_param_ignore_revisions() {
            opt_bool_value(d.spec_ignore_revisions())
        } else if n == spec_param_return_old() {
            opt_bool_value(d.spec_return_old())
        } else if n == spec_param_return_new() {
            opt_bool_value(d.spec_return_new())
        } else {
            None::<Seq<char>>
        }),
{
    lemma_protocol_names_distinct();
    let o1 = opt_entry(spec_param_wait_for_sync(), opt_bool_value(d.spec_force_wait_for_sync()));
    let o2 = opt_entry(spec_param_ignore_revisions(), opt_bool_value(d.spec_ignore_revisions()));
    let o3 = opt_entry(spec_param_return_old(), opt_bool_value(d.spec_return_old()));
    let o4 = opt_entry(spec_param_return_new(), opt_bool_value(d.spec_return_new()));
    let r3 = o3 + o4;
    let r2 = o2 + r3;
    assert(d.spec_parameters() =~= o1 + r2);
    lemma_lookup_opt_entry(
        spec_param_wait_for_sync(),
        opt_bool_value(d.spec_force_wait_for_sync()),
        r2,
        n,
    );
    lemma_lookup_opt_entry(
        spec_param_ignore_revisions(),
        opt_bool_value(d.spec_ignore_revisions()),
        r3,
        n,
    );
    lemma_lookup_opt_entry(spec_param_return_old(), opt_bool_value(d.spec_return_old()), o4, n);
    lemma_lookup_opt_entry(
        spec_param_return_new(),
        opt_bool_value(d.spec_return_new()),
        Seq::empty(),
        n,
    );
    assert(o4 + Seq::<(Seq<char>, Seq<char>)>::empty() =~= o4);
    lemma_lookup_empty(n);
}

/// Looking up any name in the headers of a replace: only `If-Match` can
/// appear, and it appears exactly when the modifier was set.
pub proof fn lemma_replace_document_header_entries<Old, New>(
    d: ReplaceDocument<Old, New>,
    n: Seq<char>,
)
    ensures
        spec_lookup(d.spec_header(), n) == (if n == spec_header_if_match() {
            d.spec_if_match()
        } else {
            None::<Seq<char>>
        }),
{
    lemma_lookup_opt_entry(spec_header_if_match(), d.spec_if_match(), Seq::empty(), n);
    assert(opt_entry(spec_header_if_match(), d.spec_if_match())
        + Seq::<(Seq<char>, Seq<char>)>::empty() =~= opt_entry(
        spec_header_if_match(),
        d.spec_if_match(),
    ));
    lemma_lookup_empty(n);
}

/// Looking up any name in the parameters of a partial update: each of the
/// six boolean modifiers appears under its own wire name exactly when it was
/// set, with its rendered value, and no other parameter ever appears.
pub proof fn lemma_update_document_parameter_entries<Upd, Old, New>(
    d: UpdateDocument<Upd, Old, New>,
    n: Seq<char>,
)
    ensures
        spec_lookup(d.spec_parameters(), n) == (if n == spec_param_wait_for_sync() {
            opt_bool_value(d.spec_force_wait_for_sync())
        } else if n == spec_param_ignore_revisions() {
            opt_bool_value(d.spec_ignore_revisions())
        } else if n == spec_param_keep_null() {
            opt_bool_value(d.spec_keep_none())
        } else if n == spec_param_merge_objects() {
            opt_bool_value(d.spec_merge_objects())
        } else if n == spec_param_return_old() {
            opt_bool_value(d.spec_return_old())
        } else if n == spec_param_return_new() {
            opt_bool_value(d.spec_return_new())
        } else {
            None::<Seq<char>>
        }),
{
    lemma_protocol_names_distinct();
    let o1 = opt_entry(spec_param_wait_for_sync(), opt_bool_value(d.spec_force_wait_for_sync()));
    let o2 = opt_entry(spec_param_ignore_revisions(), opt_bool_value(d.spec_ignore_revisions()));
    let o3 = opt_entry(spec_param_keep_null(), opt_bool_value(d.spec_keep_none()));
    let o4 = opt_entry(spec_param_merge_objects(), opt_bool_value(d.spec_merge_objects()));
    let o5 = opt_entry(spec_param_return_old(), opt_bool_value(d.spec_return_old()));
    let o6 = opt_entry(spec_param_return_new(), opt_bool_value(d.spec_return_new()));
    let r5 = o5 + o6;
    let r4 = o4 + r5;
    let r3 = o3 + r4;
    let r2 = o2 + r3;
    assert(d.spec_parameters() =~= o1 + r2);
    lemma_lookup_opt_entry(
        spec_param_wait_for_sync(),
        opt_bool_value(d.spec_force_wait_for_sync()),
        r2,
        n,
    );
    lemma_lookup_opt_entry(
        spec_param_ignore_revisions(),
        opt_bool_value(d.spec_ignore_revisions()),
        r3,
        n,
    );
    lemma_lookup_opt_entry(spec_param_keep_null(), opt_bool_value(d.spec_keep_none()), r4, n);
    lemma_lookup_opt_entry(
        spec_param_merge_objects(),
        opt_bool_value(d.spec_merge_objects()),
        r5,
        n,
    );
    lemma_lookup_opt_entry(spec_param_return_old(), opt_bool_value(d.spec_return_old()), o6, n);
    lemma_lookup_opt_entry(
        spec_param_return_new(),
        opt_bool_value(d.spec_return_new()),
        Seq::empty(),
        n,
    );
    assert(o6 + Seq::<(Seq<char>, Seq<char>)>::empty() =~= o6);
    lemma_lookup_empty(n);
}

/// Looking up any name in the headers of a partial update: only `If-Match`
/// can appear, and it appears exactly when the modifier was set.
pub proof fn lemma_update_document_header_entries<Upd, Old, New>(
    d: UpdateDocument<Upd, Old, New>,
    n: Seq<char>,
)
    ensures
        spec_lookup(d.spec_header(), n) == (if n == spec_header_if_match() {
            d.spec_if_match()
        } else {
            None::<Seq<char>>
        }),
{
    lemma_lookup_opt_entry(spec_header_if_match(), d.spec_if_match(), Seq::empty(), n);
    assert(opt_entry(spec_header_if_match(), d.spec_if_match())
        + Seq::<(Seq<char>, Seq<char>)>::empty() =~= opt_entry(
        spec_header_if_match(),
        d.spec_if_match(),
    ));
    lemma_lookup_empty(n);
}

} // verus!
