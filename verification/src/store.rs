//! Byte-level model of the external translations store.
//!
//! The store is an opaque byte sequence: a fixed-size header followed by a
//! payload of records separated by [`DELIMITER_BYTE`] and ended by
//! [`TERMINATE_BYTE`].  Record `i` of the payload is the override text for
//! ordinal `i` of the default table.  Everything here is specification:
//! the executable scanner in `translations` is proved against these
//! functions.

use vstd::prelude::*;

verus! {

use vstd::utf8::{decode_utf8, valid_utf8};

/// Byte that separates two consecutive payload records.
pub const DELIMITER_BYTE: u8 = 0x00;

/// Byte that ends the payload; it never occurs inside valid payload data.
pub const TERMINATE_BYTE: u8 = 0xFF;

/// Number of bytes reserved for the header of the external store.
pub const HEADER_LEN: usize = 256;

/// Offset of the language name field inside the header.
pub const LANGUAGE_OFFSET: usize = 20;

/// Size in bytes of the language name field inside the header.
pub const LANGUAGE_FIELD_LEN: usize = 32;

/// Size of one bounded read window used by the record scanner.  A record is
/// only retrievable when it is shorter than this (a build-time constraint of
/// the store format).
pub const CHUNK_LEN: usize = 1024;

/// The scanner never reads at or past this offset, however long the store
/// claims to be; it bounds every scan over corrupt or oversized data.
pub const MAX_OFFSET: usize = 65536;

/// A payload byte that is neither the delimiter nor the terminator.
pub open spec fn is_plain(b: u8) -> bool {
    b != DELIMITER_BYTE && b != TERMINATE_BYTE
}

/// The records parsed from `d` scanning at position `i`, where the current
/// record began at position `start`.  A record counts only when its closing
/// delimiter appears before the terminator and before the end of `d`.
pub open spec fn records_from(d: Seq<u8>, start: int, i: int) -> Seq<Seq<u8>>
    recommends
        0 <= start <= i <= d.len(),
    decreases d.len() - i,
{
    if i < 0 || i >= d.len() {
        Seq::empty()
    } else if d[i] == TERMINATE_BYTE {
        Seq::empty()
    } else if d[i] == DELIMITER_BYTE {
        seq![d.subrange(start, i)] + records_from(d, i + 1, i + 1)
    } else {
        records_from(d, start, i + 1)
    }
}

/// The complete delimited records of payload `d`, in order.
pub open spec fn records(d: Seq<u8>) -> Seq<Seq<u8>> {
    records_from(d, 0, 0)
}

/// End of the region the scanner may touch: the store's own length, capped at
/// [`MAX_OFFSET`].
pub open spec fn region_end_of(blob: Seq<u8>) -> int {
    if blob.len() <= MAX_OFFSET {
        blob.len() as int
    } else {
        MAX_OFFSET as int
    }
}

/// The payload bytes of the store: everything after the header, capped at
/// [`MAX_OFFSET`].
pub open spec fn payload(blob: Seq<u8>) -> Seq<u8> {
    if blob.len() <= HEADER_LEN {
        Seq::empty()
    } else {
        blob.subrange(HEADER_LEN as int, region_end_of(blob))
    }
}

/// Records `0 ..= index` all fit strictly inside one read window.
pub open spec fn scan_ok_upto(rs: Seq<Seq<u8>>, index: int) -> bool {
    forall|k: int| 0 <= k <= index ==> rs[k].len() < CHUNK_LEN
}

/// What the bounded scanner yields for ordinal `index` over payload `d`: the
/// record's bytes exactly when it exists and no record up to it is too long
/// for a window.
pub open spec fn scan_result(d: Seq<u8>, index: int) -> Option<Seq<u8>> {
    let rs = records(d);
    if 0 <= index < rs.len() && scan_ok_upto(rs, index) {
        Some(rs[index])
    } else {
        None
    }
}

/// What looking up ordinal `index` in the whole store yields: the scanned
/// record decoded as UTF-8, or nothing when it is absent or malformed.
pub open spec fn lookup_result(blob: Seq<u8>, index: int) -> Option<Seq<char>> {
    match scan_result(payload(blob), index) {
        Some(bytes) => if valid_utf8(bytes) {
            Some(decode_utf8(bytes))
        } else {
            None
        },
        None => None,
    }
}

/// The store is unprovisioned: empty, or the terminator sits at offset 0.
pub open spec fn store_absent(blob: Seq<u8>) -> bool {
    blob.len() == 0 || blob[0] == TERMINATE_BYTE
}

/// Position of the delimiter that ends the language name field, if the field
/// is present and terminated inside its fixed window.
pub open spec fn language_delim_at(blob: Seq<u8>, i: int) -> bool {
    &&& LANGUAGE_OFFSET <= i < LANGUAGE_OFFSET + LANGUAGE_FIELD_LEN
    &&& blob[i] == DELIMITER_BYTE
    &&& forall|t: int| LANGUAGE_OFFSET <= t < i ==> blob[t] != DELIMITER_BYTE
}

/// The raw bytes of the language name field, when the store is long enough to
/// hold the header field and the field is delimiter-terminated.
pub open spec fn language_field(blob: Seq<u8>) -> Option<Seq<u8>> {
    if blob.len() >= LANGUAGE_OFFSET + LANGUAGE_FIELD_LEN && (exists|i: int|
        language_delim_at(blob, i)) {
        Some(blob.subrange(LANGUAGE_OFFSET as int, choose|i: int| language_delim_at(blob, i)))
    } else {
        None
    }
}

/// The language name of the store: the field decoded as UTF-8.
pub open spec fn language_name_model(blob: Seq<u8>) -> Option<Seq<char>> {
    match language_field(blob) {
        Some(bytes) => if valid_utf8(bytes) {
            Some(decode_utf8(bytes))
        } else {
            None
        },
        None => None,
    }
}

/// The language field ends at the first delimiter inside its window, so a
/// witness for that position determines the field.
pub proof fn lemma_language_field_at(blob: Seq<u8>, e: int)
    requires
        blob.len() >= LANGUAGE_OFFSET + LANGUAGE_FIELD_LEN,
        language_delim_at(blob, e),
    ensures
        language_field(blob) == Some(blob.subrange(LANGUAGE_OFFSET as int, e)),
{
    let c = choose|x: int| language_delim_at(blob, x);
    assert(language_delim_at(blob, c));
    if c < e {
        assert(blob[c] != DELIMITER_BYTE);
    }
    if c > e {
        assert(blob[e] != DELIMITER_BYTE);
    }
}

/// Scanning past bytes of the current record does not change what is parsed:
/// the parse from the record's start equals the parse from any position
/// reached over plain bytes.
pub proof fn lemma_records_from_plain_prefix(d: Seq<u8>, start: int, i: int)
    requires
        0 <= start <= i <= d.len(),
        forall|t: int| start <= t < i ==> is_plain(#[trigger] d[t]),
    ensures
        records_from(d, start, start) == records_from(d, start, i),
    decreases i - start,
{
    if i > start {
        lemma_records_from_plain_prefix(d, start, i - 1);
        assert(records_from(d, start, i - 1) == records_from(d, start, i));
    }
}

/// A nonempty parse that has already consumed `i - start` plain bytes of its
/// first record yields a first record at least that long.
pub proof fn lemma_records_from_first_len(d: Seq<u8>, start: int, i: int)
    requires
        0 <= start <= i <= d.len(),
        records_from(d, start, i).len() > 0,
    ensures
        records_from(d, start, i)[0].len() >= i - start,
    decreases d.len() - i,
{
    if i < d.len() && is_plain(d[i]) {
        lemma_records_from_first_len(d, start, i + 1);
    }
}

/// Parsing is invariant under dropping an already-consumed prefix of the
/// payload.
pub proof fn lemma_records_from_shift(d: Seq<u8>, m: int, start: int, i: int)
    requires
        0 <= m <= start <= i <= d.len(),
    ensures
        records_from(d, start, i) == records_from(d.skip(m), start - m, i - m),
    decreases d.len() - i,
{
    let e = d.skip(m);
    if i < d.len() {
        assert(e[i - m] == d[i]);
        if d[i] == TERMINATE_BYTE {
        } else if d[i] == DELIMITER_BYTE {
            assert(d.subrange(start, i) =~= e.subrange(start - m, i - m));
            lemma_records_from_shift(d, m, i + 1, i + 1);
        } else {
            lemma_records_from_shift(d, m, start, i + 1);
        }
    }
}

/// Splitting one record off a suffix of a record sequence.
pub proof fn lemma_skip_cons(s: Seq<Seq<u8>>, k: int, x: Seq<u8>, t: Seq<Seq<u8>>)
    requires
        0 <= k <= s.len(),
        s.skip(k) == seq![x] + t,
    ensures
        k < s.len(),
        s[k] == x,
        s.skip(k + 1) == t,
{
    assert(s.skip(k).len() == s.len() - k);
    assert(s[k] == s.skip(k)[0]);
    assert(s.skip(k + 1) =~= t) by {
        assert forall|n: int| 0 <= n < t.len() implies s.skip(k + 1)[n] == #[trigger] t[n] by {
            assert(s.skip(k + 1)[n] == s[k + 1 + n]);
            assert(s.skip(k)[n + 1] == s[k + 1 + n]);
            assert((seq![x] + t)[n + 1] == t[n]);
        }
    }
}

} // verus!
