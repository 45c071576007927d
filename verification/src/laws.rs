//! Resolution laws: what the resolver guarantees across its components.
//! Each law is stated over the same models that the executable functions'
//! contracts use, so together they pin the observable behaviour down.

use vstd::prelude::*;

verus! {

use vstd::utf8::valid_utf8;

use crate::store::{lookup_result, payload, records, scan_result, store_absent};
use crate::translations::{translate_model, DefaultTable};

/// With the store absent (terminator at offset 0, or no data at all),
/// resolution of any key of the table yields the table's own text and never
/// fails.
pub proof fn lemma_absent_store_falls_back(table: DefaultTable, blob: Seq<u8>, key: Seq<char>)
    requires
        table.wf(),
        table.has_key(key),
        store_absent(blob),
    ensures
        translate_model(table, blob, key) == Some(table.text_of(key)),
{
}

/// Requesting an ordinal at or beyond the number of records the store holds
/// finds no override.
pub proof fn lemma_ordinal_beyond_records(blob: Seq<u8>, index: int)
    requires
        index >= records(payload(blob)).len(),
    ensures
        lookup_result(blob, index) is None,
{
}

/// A key whose ordinal lies at or beyond the store's records resolves to the
/// table's own text: fallback, not a failure.
pub proof fn lemma_missing_record_falls_back(table: DefaultTable, blob: Seq<u8>, key: Seq<char>)
    requires
        table.wf(),
        table.has_key(key),
        table.ordinal_of(key) >= records(payload(blob)).len(),
    ensures
        translate_model(table, blob, key) == Some(table.text_of(key)),
{
    lemma_ordinal_beyond_records(blob, table.ordinal_of(key));
}

/// Lookup depends only on the record sequence of the payload: two stores
/// with the same records answer every ordinal alike, however their bytes sit
/// relative to window boundaries.
pub proof fn lemma_lookup_depends_on_records(b1: Seq<u8>, b2: Seq<u8>, index: int)
    requires
        records(payload(b1)) == records(payload(b2)),
    ensures
        lookup_result(b1, index) == lookup_result(b2, index),
{
}

/// A record that is not valid UTF-8 never aborts resolution: the key
/// resolves to the table's own text.
pub proof fn lemma_malformed_record_falls_back(table: DefaultTable, blob: Seq<u8>, key: Seq<char>)
    requires
        table.wf(),
        table.has_key(key),
        scan_result(payload(blob), table.ordinal_of(key)) matches Some(bytes) && !valid_utf8(
            bytes,
        ),
    ensures
        translate_model(table, blob, key) == Some(table.text_of(key)),
{
}

} // verus!
