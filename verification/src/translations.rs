//! The translation resolver: bounded scanner over the external store, the
//! compiled-in default table, and the lookup-with-fallback entry points.

use vstd::prelude::*;

verus! {

use vstd::utf8::{decode_utf8, encode_utf8, encode_utf8_decode_utf8, valid_utf8};

use crate::store::{
    is_plain, language_delim_at, language_field, language_name_model, lookup_result, payload,
    records, records_from, region_end_of, scan_ok_upto, scan_result, store_absent,
    lemma_records_from_first_len, lemma_records_from_plain_prefix, lemma_skip_cons,
    CHUNK_LEN, DELIMITER_BYTE, HEADER_LEN, LANGUAGE_FIELD_LEN, LANGUAGE_OFFSET, MAX_OFFSET,
    TERMINATE_BYTE,
};

/// What a bounded read of `len` bytes at `offset` returns: the available
/// prefix of the requested window, empty when the offset is out of range.
pub open spec fn read_model(blob: Seq<u8>, offset: int, len: int) -> Seq<u8> {
    if offset > blob.len() {
        Seq::empty()
    } else if offset + len <= blob.len() {
        blob.subrange(offset, offset + len)
    } else {
        blob.subrange(offset, blob.len() as int)
    }
}

/// Bounded read primitive into the store: a window of at most `len` bytes
/// starting at `offset`.  Out-of-range requests yield an empty window, never
/// a panic.
pub fn read_window<'a>(blob: &'a [u8], offset: usize, len: usize) -> (w: &'a [u8])
    ensures
        w@ == read_model(blob@, offset as int, len as int),
{
    if offset > blob.len() {
        &blob[0..0]
    } else if len <= blob.len() - offset {
        &blob[offset..offset + len]
    } else {
        &blob[offset..blob.len()]
    }
}

/// Relies on core::str::from_utf8: it succeeds exactly on valid UTF-8 input,
/// and the returned string views the given bytes.
#[verifier::external_body]
fn bytes_to_string(bytes: &[u8]) -> (r: Option<String>)
    ensures
        r is Some <==> valid_utf8(bytes@),
        r matches Some(s) ==> encode_utf8(s@) == bytes@,
{
    match core::str::from_utf8(bytes) {
        Ok(s) => Some(s.to_owned()),
        Err(_) => None,
    }
}

/// Decodes a record's bytes as UTF-8; succeeds exactly on valid input.
fn decode_record(bytes: &[u8]) -> (r: Option<String>)
    ensures
        r is Some <==> valid_utf8(bytes@),
        r matches Some(s) ==> s@ == decode_utf8(bytes@),
{
    let r = bytes_to_string(bytes);
    proof {
        if r is Some {
            encode_utf8_decode_utf8(r.unwrap()@);
        }
    }
    r
}

/// Loops through the translations data of the store in bounded windows and
/// returns the record at the given index, decoded as UTF-8.
pub fn get_translation_by_index(blob: &[u8], index: usize) -> (r: Option<String>)
    ensures
        r.deep_view() == lookup_result(blob@, index as int),
{
    let ghost d = payload(blob@);
    let ghost rs = records(d);

    let region_end: usize = if blob.len() <= MAX_OFFSET {
        blob.len()
    } else {
        MAX_OFFSET
    };
    if region_end <= HEADER_LEN {
        proof {
            assert(blob@.len() <= HEADER_LEN);
            assert(d =~= Seq::<u8>::empty());
            assert(rs =~= Seq::<Seq<u8>>::empty());
        }
        return None;
    }
    assert(region_end as int == region_end_of(blob@));
    assert(d =~= blob@.subrange(HEADER_LEN as int, region_end as int));

    let mut wo: usize = HEADER_LEN;
    let mut k: usize = 0;
    loop
        invariant
            HEADER_LEN < blob@.len(),
            region_end == region_end_of(blob@),
            region_end <= blob@.len(),
            d == payload(blob@),
            rs == records(d),
            d.len() == region_end - HEADER_LEN,
            HEADER_LEN <= wo <= region_end,
            k <= index,
            k <= rs.len(),
            rs.skip(k as int) == records_from(d, wo - HEADER_LEN, wo - HEADER_LEN),
            forall|t: int| 0 <= t < k ==> #[trigger] rs[t].len() < CHUNK_LEN,
        decreases region_end - wo,
    {
        let wlen: usize = if CHUNK_LEN <= region_end - wo {
            CHUNK_LEN
        } else {
            region_end - wo
        };
        if wlen == 0 {
            proof {
                assert(wo - HEADER_LEN == d.len());
                assert(records_from(d, d.len() as int, d.len() as int) =~= Seq::<Seq<u8>>::empty());
                assert(rs.skip(k as int).len() == 0);
                assert(rs.skip(k as int).len() == rs.len() - k);
                assert(rs.len() == k);
            }
            return None;
        }
        let window: &[u8] = read_window(blob, wo, wlen);
        proof {
            assert(window@ =~= d.subrange(wo - HEADER_LEN, wo + wlen - HEADER_LEN));
        }

        let mut cs: usize = 0;
        let mut j: usize = 0;
        while j < wlen
            invariant
                HEADER_LEN < blob@.len(),
                region_end == region_end_of(blob@),
                region_end <= blob@.len(),
                d == payload(blob@),
                rs == records(d),
                d.len() == region_end - HEADER_LEN,
                HEADER_LEN <= wo,
                wo + wlen <= region_end,
                0 < wlen <= CHUNK_LEN,
                window@ == d.subrange(wo - HEADER_LEN, wo + wlen - HEADER_LEN),
                window@.len() == wlen,
                cs <= j <= wlen,
                k <= index,
                k <= rs.len(),
                rs.skip(k as int) == records_from(d, wo + cs - HEADER_LEN, wo + j - HEADER_LEN),
                forall|t: int| 0 <= t < k ==> #[trigger] rs[t].len() < CHUNK_LEN,
                forall|t: int|
                    wo + cs - HEADER_LEN <= t < wo + j - HEADER_LEN ==> is_plain(#[trigger] d[t]),
            decreases wlen - j,
        {
            let b = window[j];
            proof {
                assert(b == d[wo + j - HEADER_LEN]);
            }
            if b == TERMINATE_BYTE {
                proof {
                    assert(records_from(d, wo + cs - HEADER_LEN, wo + j - HEADER_LEN)
                        =~= Seq::<Seq<u8>>::empty());
                    assert(rs.len() == k);
                }
                return None;
            }
            if b == DELIMITER_BYTE {
                let ghost rstart = wo + cs - HEADER_LEN;
                let ghost rpos = wo + j - HEADER_LEN;
                proof {
                    assert(records_from(d, rstart, rpos) == seq![d.subrange(rstart, rpos)]
                        + records_from(d, rpos + 1, rpos + 1));
                    lemma_skip_cons(
                        rs,
                        k as int,
                        d.subrange(rstart, rpos),
                        records_from(d, rpos + 1, rpos + 1),
                    );
                }
                if k == index {
                    let rec: &[u8] = &window[cs..j];
                    proof {
                        assert(rec@ =~= d.subrange(rstart, rpos));
                        assert(rs[index as int] == rec@);
                        assert(rec@.len() < CHUNK_LEN);
                        assert(scan_ok_upto(rs, index as int));
                        assert(scan_result(d, index as int) == Some(rec@));
                    }
                    let s = decode_record(rec);
                    return s;
                }
                k = k + 1;
                cs = j + 1;
            }
            j = j + 1;
        }
        if wlen < CHUNK_LEN {
            proof {
                assert(wo + wlen == region_end);
                assert(wo + wlen - HEADER_LEN == d.len());
                assert(records_from(d, wo + cs - HEADER_LEN, d.len() as int)
                    =~= Seq::<Seq<u8>>::empty());
                assert(rs.len() == k);
            }
            return None;
        }
        if cs == 0 {
            proof {
                let rstart = wo - HEADER_LEN;
                if rs.len() > k {
                    lemma_records_from_first_len(d, rstart, rstart + wlen);
                    assert(records_from(d, rstart, rstart + wlen)[0].len() >= wlen);
                    assert(rs.skip(k as int)[0] == rs[k as int]);
                    assert(rs[k as int].len() >= CHUNK_LEN);
                    assert(!scan_ok_upto(rs, index as int));
                } else {
                    assert(rs.len() == k);
                }
            }
            return None;
        }
        proof {
            lemma_records_from_plain_prefix(d, wo + cs - HEADER_LEN, wo + wlen - HEADER_LEN);
        }
        wo = wo + cs;
    }
}

/// Reads the fixed header field that holds the active language name: a
/// delimiter-terminated string at a fixed offset.  Returns nothing when the
/// store is too short or the field cannot be decoded.
pub fn get_language_name(blob: &[u8]) -> (r: Option<String>)
    ensures
        r.deep_view() == language_name_model(blob@),
{
    if blob.len() < LANGUAGE_OFFSET + LANGUAGE_FIELD_LEN {
        return None;
    }
    let mut i: usize = 0;
    while i < LANGUAGE_FIELD_LEN
        invariant
            LANGUAGE_OFFSET + LANGUAGE_FIELD_LEN <= blob@.len(),
            i <= LANGUAGE_FIELD_LEN,
            forall|t: int|
                LANGUAGE_OFFSET <= t < LANGUAGE_OFFSET + i ==> #[trigger] blob@[t]
                    != DELIMITER_BYTE,
        decreases LANGUAGE_FIELD_LEN - i,
    {
        if blob[LANGUAGE_OFFSET + i] == DELIMITER_BYTE {
            let field: &[u8] = &blob[LANGUAGE_OFFSET..LANGUAGE_OFFSET + i];
            proof {
                let e = LANGUAGE_OFFSET + i as int;
                assert(language_delim_at(blob@, e));
                let c = choose|x: int| language_delim_at(blob@, x);
                assert(language_delim_at(blob@, c));
                assert(c == e) by {
                    if c < e {
                        assert(blob@[c] != DELIMITER_BYTE);
                    }
                    if c > e {
                        assert(blob@[e] != DELIMITER_BYTE);
                    }
                }
                assert(language_field(blob@) == Some(field@));
            }
            return decode_record(field);
        }
        i = i + 1;
    }
    proof {
        assert forall|x: int| !language_delim_at(blob@, x) by {
            if LANGUAGE_OFFSET <= x < LANGUAGE_OFFSET + LANGUAGE_FIELD_LEN {
                assert(blob@[x] != DELIMITER_BYTE);
            }
        }
    }
    None
}

/// Strict lexicographic order on byte sequences.
pub open spec fn lex_lt(a: Seq<u8>, b: Seq<u8>) -> bool
    decreases a.len() + b.len(),
{
    if b.len() == 0 {
        false
    } else if a.len() == 0 {
        true
    } else if a[0] < b[0] {
        true
    } else if a[0] == b[0] {
        lex_lt(a.drop_first(), b.drop_first())
    } else {
        false
    }
}

/// Nothing is lexicographically below itself.
pub proof fn lemma_lex_lt_irrefl(a: Seq<u8>)
    ensures
        !lex_lt(a, a),
    decreases a.len(),
{
    if a.len() > 0 {
        lemma_lex_lt_irrefl(a.drop_first());
    }
}

/// The lexicographic order is transitive.
pub proof fn lemma_lex_lt_trans(a: Seq<u8>, b: Seq<u8>, c: Seq<u8>)
    requires
        lex_lt(a, b),
        lex_lt(b, c),
    ensures
        lex_lt(a, c),
    decreases a.len() + b.len() + c.len(),
{
    if a.len() > 0 && b.len() > 0 && c.len() > 0 && a[0] == b[0] && b[0] == c[0] {
        lemma_lex_lt_trans(a.drop_first(), b.drop_first(), c.drop_first());
    }
}

/// The lexicographic order is asymmetric, so ordered sequences differ.
pub proof fn lemma_lex_lt_asym(a: Seq<u8>, b: Seq<u8>)
    requires
        lex_lt(a, b),
    ensures
        !lex_lt(b, a),
        a != b,
{
    if lex_lt(b, a) {
        lemma_lex_lt_trans(a, b, a);
        lemma_lex_lt_irrefl(a);
    }
    lemma_lex_lt_irrefl(a);
}

/// With an equal prefix of length `i`, the order is decided at `i`: by the
/// bytes there, or, when one side ends, by length.
pub proof fn lemma_lex_decide_at(a: Seq<u8>, b: Seq<u8>, i: int)
    requires
        0 <= i <= a.len(),
        0 <= i <= b.len(),
        forall|t: int| 0 <= t < i ==> a[t] == #[trigger] b[t],
    ensures
        i < a.len() && i < b.len() && a[i] < b[i] ==> lex_lt(a, b),
        i < a.len() && i < b.len() && a[i] > b[i] ==> lex_lt(b, a),
        i == a.len() && i < b.len() ==> lex_lt(a, b),
        i == b.len() && i < a.len() ==> lex_lt(b, a),
        i == a.len() && i == b.len() ==> a == b,
    decreases i,
{
    if i == 0 {
        if i == a.len() && i == b.len() {
            assert(a =~= b);
        }
    } else {
        let a1 = a.drop_first();
        let b1 = b.drop_first();
        assert(a[0] == b[0]);
        assert(forall|t: int| 0 <= t < i - 1 ==> a1[t] == #[trigger] b1[t]) by {
            assert(forall|t: int|
                0 <= t < i - 1 ==> a1[t] == a[t + 1] && #[trigger] b1[t] == b[t + 1]);
        }
        lemma_lex_decide_at(a1, b1, i - 1);
        if i == a.len() && i == b.len() {
            assert(a1 == b1);
            assert(a =~= b);
        }
        if i < a.len() && i < b.len() {
            assert(a1[i - 1] == a[i] && b1[i - 1] == b[i]);
        }
    }
}

/// Compares two byte strings lexicographically: -1, 0 or 1 as the first is
/// below, equal to or above the second.
fn compare_bytes(a: &[u8], b: &[u8]) -> (r: i8)
    ensures
        r == -1 || r == 0 || r == 1,
        r == -1 <==> lex_lt(a@, b@),
        r == 0 <==> a@ == b@,
        r == 1 <==> lex_lt(b@, a@),
{
    let n: usize = if a.len() <= b.len() {
        a.len()
    } else {
        b.len()
    };
    let mut i: usize = 0;
    while i < n
        invariant
            n <= a@.len(),
            n <= b@.len(),
            n == a@.len() || n == b@.len(),
            i <= n,
            forall|t: int| 0 <= t < i ==> a@[t] == #[trigger] b@[t],
        decreases n - i,
    {
        if a[i] < b[i] {
            proof {
                lemma_lex_decide_at(a@, b@, i as int);
                lemma_lex_lt_asym(a@, b@);
            }
            return -1;
        }
        if a[i] > b[i] {
            proof {
                lemma_lex_decide_at(a@, b@, i as int);
                lemma_lex_lt_asym(b@, a@);
            }
            return 1;
        }
        i = i + 1;
    }
    proof {
        lemma_lex_decide_at(a@, b@, n as int);
        if a@.len() < b@.len() {
            lemma_lex_lt_asym(a@, b@);
        }
        if b@.len() < a@.len() {
            lemma_lex_lt_asym(b@, a@);
        }
        if a@.len() == b@.len() {
            lemma_lex_lt_irrefl(a@);
        }
    }
    if a.len() == b.len() {
        0
    } else if a.len() < b.len() {
        -1
    } else {
        1
    }
}

/// One row of the compiled-in default table: a translation key, its build
/// assigned ordinal, and the default-language text.
pub struct Entry {
    pub key: String,
    pub ordinal: usize,
    pub text: String,
}

/// The key of an entry, as the bytes its sort order goes by.
pub open spec fn key_bytes(e: Entry) -> Seq<u8> {
    encode_utf8(e.key@)
}

/// Well-formedness of a default table: ordinals are exactly the positions,
/// and keys are strictly sorted (hence unique and binary-searchable).
pub open spec fn entries_wf(s: Seq<Entry>) -> bool {
    &&& forall|i: int| 0 <= i < s.len() ==> #[trigger] s[i].ordinal == i
    &&& forall|i: int|
        0 <= i < s.len() - 1 ==> lex_lt(key_bytes(#[trigger] s[i]), key_bytes(s[i + 1]))
}

/// In a well-formed table every earlier key is below every later one.
pub proof fn lemma_sorted_pairwise(s: Seq<Entry>, i: int, j: int)
    requires
        entries_wf(s),
        0 <= i < j < s.len(),
    ensures
        lex_lt(key_bytes(s[i]), key_bytes(s[j])),
    decreases j - i,
{
    if j > i + 1 {
        lemma_sorted_pairwise(s, i, j - 1);
        lemma_lex_lt_trans(key_bytes(s[i]), key_bytes(s[j - 1]), key_bytes(s[j]));
    }
}

/// In a well-formed table no key occurs twice.
pub proof fn lemma_wf_keys_unique(s: Seq<Entry>, i: int, j: int)
    requires
        entries_wf(s),
        0 <= i < j < s.len(),
    ensures
        s[i].key@ != s[j].key@,
{
    lemma_sorted_pairwise(s, i, j);
    if s[i].key@ == s[j].key@ {
        lemma_lex_lt_irrefl(key_bytes(s[i]));
    }
}

/// The compiled-in, immutable catalog of (key, ordinal, text) entries for the
/// base language.  Ordinal `i` is position `i`; keys are unique.
pub struct DefaultTable {
    entries: Vec<Entry>,
}

impl View for DefaultTable {
    type V = Seq<Entry>;

    closed spec fn view(&self) -> Seq<Entry> {
        self.entries@
    }
}

impl DefaultTable {
    /// The table's invariant: see [`entries_wf`].
    pub open spec fn wf(&self) -> bool {
        entries_wf(self@)
    }

    /// Some entry of the table carries this key.
    pub open spec fn has_key(&self, key: Seq<char>) -> bool {
        exists|i: int| 0 <= i < self@.len() && #[trigger] self@[i].key@ == key
    }

    /// The ordinal of the entry carrying this key (unique in a well-formed
    /// table).
    pub open spec fn ordinal_of(&self, key: Seq<char>) -> int {
        choose|i: int| 0 <= i < self@.len() && #[trigger] self@[i].key@ == key
    }

    /// The default-language text of the entry carrying this key.
    pub open spec fn text_of(&self, key: Seq<char>) -> Seq<char> {
        self@[self.ordinal_of(key)].text@
    }

    /// Builds a table from its entries, validating the invariant: every
    /// ordinal equals its position and the keys are strictly sorted.
    pub fn new(entries: Vec<Entry>) -> (r: Option<DefaultTable>)
        ensures
            r matches Some(t) ==> t@ == entries@ && t.wf(),
            r is Some <==> entries_wf(entries@),
    {
        let n = entries.len();
        let mut i: usize = 0;
        while i < n
            invariant
                n == entries@.len(),
                i <= n,
                forall|a: int| 0 <= a < i ==> #[trigger] entries@[a].ordinal == a,
                forall|a: int|
                    0 <= a < i && a < n - 1 ==> lex_lt(
                        key_bytes(#[trigger] entries@[a]),
                        key_bytes(entries@[a + 1]),
                    ),
            decreases n - i,
        {
            if entries[i].ordinal != i {
                return None;
            }
            if i + 1 < n {
                let c = compare_bytes(
                    entries[i].key.as_str().as_bytes(),
                    entries[i + 1].key.as_str().as_bytes(),
                );
                if c != -1 {
                    proof {
                        if c == 0 {
                            lemma_lex_lt_irrefl(key_bytes(entries@[i as int]));
                        } else {
                            lemma_lex_lt_asym(
                                key_bytes(entries@[i as int + 1]),
                                key_bytes(entries@[i as int]),
                            );
                        }
                    }
                    return None;
                }
            }
            i = i + 1;
        }
        Some(DefaultTable { entries })
    }

    /// The number of entries.
    pub fn len(&self) -> (r: usize)
        ensures
            r == self@.len(),
    {
        self.entries.len()
    }

    /// Finds the ordinal assigned to `key` by binary search over the sorted
    /// keys, if the key is in the table.
    pub fn get_position(&self, key: &str) -> (r: Option<usize>)
        requires
            self.wf(),
        ensures
            r matches Some(i) ==> self.has_key(key@) && i as int == self.ordinal_of(key@),
            r is None ==> !self.has_key(key@),
    {
        let kb: &[u8] = key.as_bytes();
        let mut lo: usize = 0;
        let mut hi: usize = self.entries.len();
        while lo < hi
            invariant
                self.wf(),
                kb@ == encode_utf8(key@),
                lo <= hi <= self@.len(),
                forall|t: int| 0 <= t < lo ==> lex_lt(key_bytes(#[trigger] self@[t]), kb@),
                forall|t: int|
                    hi <= t < self@.len() ==> lex_lt(kb@, key_bytes(#[trigger] self@[t])),
            decreases hi - lo,
        {
            let mid: usize = lo + (hi - lo) / 2;
            let mb: &[u8] = self.entries[mid].key.as_str().as_bytes();
            let c = compare_bytes(mb, kb);
            if c == 0 {
                proof {
                    encode_utf8_decode_utf8(self@[mid as int].key@);
                    encode_utf8_decode_utf8(key@);
                    assert(self@[mid as int].key@ == key@);
                    let ch = self.ordinal_of(key@);
                    assert(0 <= ch < self@.len() && self@[ch].key@ == key@);
                    if ch < mid as int {
                        lemma_wf_keys_unique(self@, ch, mid as int);
                    }
                    if ch > mid as int {
                        lemma_wf_keys_unique(self@, mid as int, ch);
                    }
                }
                return Some(mid);
            }
            if c == -1 {
                proof {
                    assert forall|t: int| 0 <= t < mid as int + 1 implies lex_lt(
                        key_bytes(#[trigger] self@[t]),
                        kb@,
                    ) by {
                        if t < mid as int {
                            lemma_sorted_pairwise(self@, t, mid as int);
                            lemma_lex_lt_trans(key_bytes(self@[t]), key_bytes(self@[mid as int]), kb@);
                        }
                    }
                }
                lo = mid + 1;
            } else {
                proof {
                    assert forall|t: int| mid as int <= t < self@.len() implies lex_lt(
                        kb@,
                        key_bytes(#[trigger] self@[t]),
                    ) by {
                        if t > mid as int {
                            lemma_sorted_pairwise(self@, mid as int, t);
                            lemma_lex_lt_trans(kb@, key_bytes(self@[mid as int]), key_bytes(self@[t]));
                        }
                    }
                }
                hi = mid;
            }
        }
        proof {
            assert forall|t: int| 0 <= t < self@.len() implies self@[t].key@ != key@ by {
                if self@[t].key@ == key@ {
                    assert(key_bytes(self@[t]) == kb@);
                    if t < lo as int {
                        lemma_lex_lt_irrefl(kb@);
                    } else {
                        lemma_lex_lt_irrefl(kb@);
                    }
                }
            }
        }
        None
    }

    /// Returns the default-language text for `key`, if the key is in the
    /// table.
    pub fn get_text(&self, key: &str) -> (r: Option<String>)
        requires
            self.wf(),
        ensures
            r matches Some(s) ==> self.has_key(key@) && s@ == self.text_of(key@),
            r is None ==> !self.has_key(key@),
    {
        match self.get_position(key) {
            Some(i) => Some(self.entries[i].text.clone()),
            None => None,
        }
    }
}

/// What resolution through the external store alone yields for `key`: the
/// override record at the key's ordinal, when the store is provisioned, the
/// key is known, and the record exists and decodes.
pub open spec fn override_model(table: DefaultTable, blob: Seq<u8>, key: Seq<char>) -> Option<
    Seq<char>,
> {
    if !store_absent(blob) && table.has_key(key) {
        lookup_result(blob, table.ordinal_of(key))
    } else {
        None
    }
}

/// What full resolution yields for `key`: the override when it is available,
/// else the default table's own text, else nothing (unknown key).
pub open spec fn translate_model(table: DefaultTable, blob: Seq<u8>, key: Seq<char>) -> Option<
    Seq<char>,
> {
    match override_model(table, blob, key) {
        Some(s) => Some(s),
        None => if table.has_key(key) {
            Some(table.text_of(key))
        } else {
            None
        },
    }
}

/// Tries to find the translation for `key` in the external store (a
/// non-default language); falls back to the default table.  Returns nothing
/// only for a key absent from the table.
pub fn translate(table: &DefaultTable, blob: &[u8], key: &str) -> (r: Option<String>)
    requires
        table.wf(),
    ensures
        r.deep_view() == translate_model(*table, blob@, key@),
{
    let mut translation: Option<String> = None;

    if are_there_translations(blob) {
        if let Some(index) = table.get_position(key) {
            translation = get_translation_by_index(blob, index);
        }
    }

    if translation.is_none() {
        translation = table.get_text(key);
    }

    translation
}

/// Quickly checks whether there are some valid translations data: the store
/// is provisioned unless it is empty or starts with the terminator.
pub fn are_there_translations(blob: &[u8]) -> (r: bool)
    ensures
        r == !store_absent(blob@),
{
    blob.len() > 0 && blob[0] != TERMINATE_BYTE
}

/// Translation function: the resolved text for a key known to the table.
/// Total for such keys; an unknown key is a build-time mismatch and is ruled
/// out by the caller's obligation.
pub fn tr(table: &DefaultTable, blob: &[u8], key: &str) -> (r: String)
    requires
        table.wf(),
        table.has_key(key@),
    ensures
        Some(r@) == translate_model(*table, blob@, key@),
{
    match translate(table, blob, key) {
        Some(s) => s,
        None => String::new(),
    }
}

} // verus!
