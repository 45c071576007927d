//! Building a store image from plain values: the provisioning side of the
//! record format, and the round-trip law tying it to the scanner.

use vstd::prelude::*;

verus! {

use vstd::utf8::{encode_utf8, encode_utf8_decode_utf8, encode_utf8_valid_utf8};

use crate::store::{
    is_plain, language_delim_at, language_name_model, lemma_records_from_plain_prefix,
    lemma_records_from_shift, lookup_result, payload, records, records_from, scan_ok_upto,
    scan_result, store_absent, CHUNK_LEN, DELIMITER_BYTE, HEADER_LEN, LANGUAGE_FIELD_LEN,
    LANGUAGE_OFFSET, MAX_OFFSET, TERMINATE_BYTE,
};

/// Every byte of the record is payload: neither delimiter nor terminator.
pub open spec fn plain_bytes(t: Seq<u8>) -> bool {
    forall|i: int| 0 <= i < t.len() ==> is_plain(#[trigger] t[i])
}

/// Every record consists of plain bytes only.
pub open spec fn all_plain_records(ts: Seq<Seq<u8>>) -> bool {
    forall|k: int| 0 <= k < ts.len() ==> plain_bytes(#[trigger] ts[k])
}

/// The payload bytes encoding a sequence of records: each record followed by
/// one delimiter.
pub open spec fn encode_records(ts: Seq<Seq<u8>>) -> Seq<u8>
    decreases ts.len(),
{
    if ts.len() == 0 {
        Seq::empty()
    } else {
        ts[0] + seq![DELIMITER_BYTE] + encode_records(ts.skip(1))
    }
}

/// Length of the encoded records: each record plus its delimiter.
pub open spec fn encoded_len(ts: Seq<Seq<u8>>) -> int
    decreases ts.len(),
{
    if ts.len() == 0 {
        0
    } else {
        ts[0].len() + 1 + encoded_len(ts.skip(1))
    }
}

/// The UTF-8 encodings of a sequence of strings, record by record.
pub open spec fn byte_records(ts: Seq<Seq<char>>) -> Seq<Seq<u8>> {
    ts.map_values(|t: Seq<char>| encode_utf8(t))
}

/// The fixed-size header with the language name at its fixed offset,
/// zero-filled elsewhere; the zero right after the name is the field's
/// delimiter.
pub open spec fn header_bytes(lang: Seq<u8>) -> Seq<u8> {
    Seq::new(
        HEADER_LEN as nat,
        |i: int|
            if LANGUAGE_OFFSET <= i < LANGUAGE_OFFSET + lang.len() {
                lang[i - LANGUAGE_OFFSET]
            } else {
                0x00u8
            },
    )
}

/// The complete store image for a language name and its records.
pub open spec fn store_bytes(lang: Seq<char>, ts: Seq<Seq<char>>) -> Seq<u8> {
    header_bytes(encode_utf8(lang)) + encode_records(byte_records(ts)) + seq![TERMINATE_BYTE]
}

/// When a language name and records can be laid out as a store at all: the
/// name fits its header field, records are delimiter- and terminator-free
/// and each fits a scan window, and the whole image stays inside the
/// scannable region.
pub open spec fn store_encodable(lang: Seq<char>, ts: Seq<Seq<char>>) -> bool {
    &&& encode_utf8(lang).len() < LANGUAGE_FIELD_LEN
    &&& plain_bytes(encode_utf8(lang))
    &&& all_plain_records(byte_records(ts))
    &&& forall|k: int| 0 <= k < ts.len() ==> #[trigger] byte_records(ts)[k].len() < CHUNK_LEN
    &&& HEADER_LEN + encoded_len(byte_records(ts)) + 1 <= MAX_OFFSET
}

/// The encoded length of a record sequence is nonnegative.
pub proof fn lemma_encoded_len_nonneg(ts: Seq<Seq<u8>>)
    ensures
        encoded_len(ts) >= 0,
    decreases ts.len(),
{
    if ts.len() > 0 {
        lemma_encoded_len_nonneg(ts.skip(1));
    }
}

/// Appending one record appends its bytes and one delimiter.
pub proof fn lemma_encode_records_snoc(ts: Seq<Seq<u8>>, x: Seq<u8>)
    ensures
        encode_records(ts.push(x)) == encode_records(ts) + x + seq![DELIMITER_BYTE],
        encoded_len(ts.push(x)) == encoded_len(ts) + x.len() + 1,
    decreases ts.len(),
{
    if ts.len() == 0 {
        assert(ts.push(x)[0] == x);
        assert(ts.push(x).skip(1) =~= Seq::<Seq<u8>>::empty());
        assert(encode_records(ts.push(x).skip(1)) == Seq::<u8>::empty());
        assert(encoded_len(ts.push(x).skip(1)) == 0);
        assert(encode_records(ts.push(x)) =~= encode_records(ts) + x + seq![DELIMITER_BYTE]);
    } else {
        assert(ts.push(x)[0] == ts[0]);
        assert(ts.push(x).skip(1) =~= ts.skip(1).push(x));
        lemma_encode_records_snoc(ts.skip(1), x);
        assert(encode_records(ts.push(x)) =~= encode_records(ts) + x + seq![DELIMITER_BYTE]);
    }
}

/// Encoding a prefix never takes more space than encoding the whole.
pub proof fn lemma_encoded_len_take_le(ts: Seq<Seq<u8>>, m: int)
    requires
        0 <= m <= ts.len(),
    ensures
        encoded_len(ts.take(m)) <= encoded_len(ts),
    decreases ts.len() - m,
{
    if m == ts.len() {
        assert(ts.take(m) =~= ts);
    } else {
        assert(ts.take(m + 1) =~= ts.take(m).push(ts[m]));
        lemma_encode_records_snoc(ts.take(m), ts[m]);
        lemma_encoded_len_take_le(ts, m + 1);
    }
}

/// The encoded bytes are exactly as long as [`encoded_len`] says.
pub proof fn lemma_encode_records_len(ts: Seq<Seq<u8>>)
    ensures
        encode_records(ts).len() == encoded_len(ts),
    decreases ts.len(),
{
    if ts.len() > 0 {
        lemma_encode_records_len(ts.skip(1));
    }
}

/// Scanning the encoding of plain records parses back exactly those records.
pub proof fn lemma_records_of_encoding(ts: Seq<Seq<u8>>)
    requires
        all_plain_records(ts),
    ensures
        records(encode_records(ts) + seq![TERMINATE_BYTE]) == ts,
    decreases ts.len(),
{
    let p = encode_records(ts) + seq![TERMINATE_BYTE];
    if ts.len() == 0 {
        assert(p[0] == TERMINATE_BYTE);
        assert(records(p) =~= ts);
    } else {
        let t0 = ts[0];
        let n = t0.len() as int;
        assert forall|i: int| 0 <= i < n implies is_plain(#[trigger] p[i]) by {
            assert(p[i] == t0[i]);
        }
        lemma_records_from_plain_prefix(p, 0, n);
        assert(p[n] == DELIMITER_BYTE);
        assert(records_from(p, 0, n) == seq![p.subrange(0, n)] + records_from(p, n + 1, n + 1));
        assert(p.subrange(0, n) =~= t0);
        lemma_records_from_shift(p, n + 1, n + 1, n + 1);
        assert(p.skip(n + 1) =~= encode_records(ts.skip(1)) + seq![TERMINATE_BYTE]);
        assert(all_plain_records(ts.skip(1))) by {
            assert(forall|k: int|
                0 <= k < ts.skip(1).len() ==> #[trigger] ts.skip(1)[k] == ts[k + 1]);
        }
        lemma_records_of_encoding(ts.skip(1));
        assert(records(p) =~= ts) by {
            assert(records(p) == seq![t0] + ts.skip(1));
        }
    }
}

/// The payload of a built store scans back to exactly its records, and the
/// store reads as provisioned.
pub proof fn lemma_payload_of_store(lang: Seq<char>, ts: Seq<Seq<char>>)
    requires
        store_encodable(lang, ts),
    ensures
        payload(store_bytes(lang, ts)) == encode_records(byte_records(ts)) + seq![
            TERMINATE_BYTE,
        ],
        records(payload(store_bytes(lang, ts))) == byte_records(ts),
        !store_absent(store_bytes(lang, ts)),
        store_bytes(lang, ts).len() <= MAX_OFFSET,
{
    let b = store_bytes(lang, ts);
    let br = byte_records(ts);
    lemma_encode_records_len(br);
    lemma_encoded_len_nonneg(br);
    assert(b.len() == HEADER_LEN + encode_records(br).len() + 1);
    assert(b[0] == header_bytes(encode_utf8(lang))[0]);
    assert(payload(b) =~= encode_records(br) + seq![TERMINATE_BYTE]);
    lemma_records_of_encoding(br);
}

/// Round-trip law: scanning a built store for any ordinal yields exactly the
/// string that was encoded at that ordinal.
pub proof fn lemma_store_round_trip(lang: Seq<char>, ts: Seq<Seq<char>>, i: int)
    requires
        store_encodable(lang, ts),
        0 <= i < ts.len(),
    ensures
        lookup_result(store_bytes(lang, ts), i) == Some(ts[i]),
{
    let b = store_bytes(lang, ts);
    let br = byte_records(ts);
    lemma_payload_of_store(lang, ts);
    assert(br[i] == encode_utf8(ts[i]));
    assert(scan_ok_upto(br, i));
    assert(scan_result(payload(b), i) == Some(br[i]));
    encode_utf8_valid_utf8(ts[i]);
    encode_utf8_decode_utf8(ts[i]);
}

/// The language name written into a built store's header reads back exactly.
pub proof fn lemma_store_language(lang: Seq<char>, ts: Seq<Seq<char>>)
    requires
        store_encodable(lang, ts),
    ensures
        language_name_model(store_bytes(lang, ts)) == Some(lang),
{
    let b = store_bytes(lang, ts);
    let lb = encode_utf8(lang);
    let hdr = header_bytes(lb);
    let e = LANGUAGE_OFFSET + lb.len() as int;
    lemma_encoded_len_nonneg(byte_records(ts));
    lemma_encode_records_len(byte_records(ts));
    assert(b.len() >= HEADER_LEN);
    assert forall|t: int| 0 <= t < HEADER_LEN implies b[t] == hdr[t] by {}
    assert(language_delim_at(b, e)) by {
        assert(b[e] == hdr[e]);
        assert forall|t: int| LANGUAGE_OFFSET <= t < e implies b[t] != DELIMITER_BYTE by {
            assert(b[t] == lb[t - LANGUAGE_OFFSET]);
            assert(is_plain(lb[t - LANGUAGE_OFFSET]));
        }
    }
    crate::store::lemma_language_field_at(b, e);
    assert(b.subrange(LANGUAGE_OFFSET as int, e) =~= lb);
    encode_utf8_valid_utf8(lang);
    encode_utf8_decode_utf8(lang);
}

/// Lays a language name and its records out as a complete store image:
/// header with the name at its fixed offset, then the delimited records and
/// the terminator.  Fails exactly when the data cannot form a scannable
/// store (see [`store_encodable`]).
pub fn build_store(language: &str, texts: &Vec<String>) -> (r: Option<Vec<u8>>)
    ensures
        r is Some <==> store_encodable(language@, texts.deep_view()),
        r matches Some(out) ==> out@ == store_bytes(language@, texts.deep_view()),
{
    let ghost lang = language@;
    let ghost ts = texts.deep_view();
    let ghost br = byte_records(ts);

    let lb: &[u8] = language.as_bytes();
    if lb.len() >= LANGUAGE_FIELD_LEN {
        return None;
    }
    let mut i: usize = 0;
    while i < lb.len()
        invariant
            lang == language@,
            lb@ == encode_utf8(lang),
            i <= lb@.len(),
            forall|t: int| 0 <= t < i ==> is_plain(#[trigger] lb@[t]),
        decreases lb@.len() - i,
    {
        if lb[i] == DELIMITER_BYTE || lb[i] == TERMINATE_BYTE {
            proof {
                assert(!is_plain(lb@[i as int]));
                assert(!plain_bytes(encode_utf8(lang)));
            }
            return None;
        }
        i = i + 1;
    }

    let ghost hdr = header_bytes(lb@);
    let mut out: Vec<u8> = Vec::new();
    while out.len() < LANGUAGE_OFFSET
        invariant
            hdr == header_bytes(lb@),
            out@.len() <= LANGUAGE_OFFSET,
            forall|t: int| 0 <= t < out@.len() ==> out@[t] == #[trigger] hdr[t],
        decreases LANGUAGE_OFFSET - out@.len(),
    {
        out.push(0x00u8);
    }
    let mut p: usize = 0;
    while p < lb.len()
        invariant
            hdr == header_bytes(lb@),
            lb@.len() < LANGUAGE_FIELD_LEN,
            p <= lb@.len(),
            out@.len() == LANGUAGE_OFFSET + p,
            forall|t: int| 0 <= t < out@.len() ==> out@[t] == #[trigger] hdr[t],
        decreases lb@.len() - p,
    {
        out.push(lb[p]);
        p = p + 1;
    }
    while out.len() < HEADER_LEN
        invariant
            hdr == header_bytes(lb@),
            lb@.len() < LANGUAGE_FIELD_LEN,
            LANGUAGE_OFFSET + lb@.len() <= out@.len() <= HEADER_LEN,
            forall|t: int| 0 <= t < out@.len() ==> out@[t] == #[trigger] hdr[t],
        decreases HEADER_LEN - out@.len(),
    {
        out.push(0x00u8);
    }
    proof {
        assert(out@ =~= hdr);
        assert(out@ =~= hdr + encode_records(br.take(0)));
        assert(encoded_len(br.take(0)) == 0);
    }

    let mut idx: usize = 0;
    while idx < texts.len()
        invariant
            lang == language@,
            lb@ == encode_utf8(lang),
            lb@.len() < LANGUAGE_FIELD_LEN,
            plain_bytes(lb@),
            ts == texts.deep_view(),
            br == byte_records(ts),
            hdr == header_bytes(lb@),
            br.len() == texts@.len(),
            ts.len() == texts@.len(),
            idx <= texts@.len(),
            out@ == hdr + encode_records(br.take(idx as int)),
            out@.len() == HEADER_LEN + encoded_len(br.take(idx as int)),
            HEADER_LEN + encoded_len(br.take(idx as int)) + 1 <= MAX_OFFSET,
            forall|k: int| 0 <= k < idx ==> plain_bytes(#[trigger] br[k]),
            forall|k: int| 0 <= k < idx ==> #[trigger] br[k].len() < CHUNK_LEN,
        decreases texts@.len() - idx,
    {
        let tb: &[u8] = texts[idx].as_str().as_bytes();
        proof {
            assert(ts[idx as int] == texts@[idx as int]@);
            assert(tb@ == br[idx as int]);
        }
        if tb.len() >= CHUNK_LEN {
            proof {
                assert(byte_records(ts)[idx as int].len() >= CHUNK_LEN);
            }
            return None;
        }
        let mut q: usize = 0;
        while q < tb.len()
            invariant
                lang == language@,
                ts == texts.deep_view(),
                lb@ == encode_utf8(lang),
                lb@.len() < LANGUAGE_FIELD_LEN,
                plain_bytes(lb@),
                tb@ == br[idx as int],
                0 <= idx < br.len(),
                br == byte_records(ts),
                q <= tb@.len(),
                forall|t: int| 0 <= t < q ==> is_plain(#[trigger] tb@[t]),
            decreases tb@.len() - q,
        {
            if tb[q] == DELIMITER_BYTE || tb[q] == TERMINATE_BYTE {
                proof {
                    assert(!is_plain(tb@[q as int]));
                    assert(!plain_bytes(byte_records(ts)[idx as int]));
                }
                return None;
            }
            q = q + 1;
        }
        if MAX_OFFSET - out.len() < tb.len() + 2 {
            proof {
                lemma_encode_records_snoc(br.take(idx as int), br[idx as int]);
                assert(br.take(idx as int + 1) =~= br.take(idx as int).push(br[idx as int]));
                lemma_encoded_len_take_le(br, idx as int + 1);
                assert(HEADER_LEN + encoded_len(br) + 1 > MAX_OFFSET);
            }
            return None;
        }
        let ghost base = out@;
        let mut w: usize = 0;
        while w < tb.len()
            invariant
                tb@ == br[idx as int],
                w <= tb@.len(),
                out@ == base + tb@.take(w as int),
                base.len() + tb@.len() + 2 <= MAX_OFFSET,
            decreases tb@.len() - w,
        {
            out.push(tb[w]);
            proof {
                assert(out@ =~= base + tb@.take(w as int + 1));
            }
            w = w + 1;
        }
        out.push(DELIMITER_BYTE);
        proof {
            lemma_encode_records_snoc(br.take(idx as int), br[idx as int]);
            assert(br.take(idx as int + 1) =~= br.take(idx as int).push(br[idx as int]));
            assert(tb@.take(tb@.len() as int) =~= tb@);
            assert(out@ =~= hdr + encode_records(br.take(idx as int + 1)));
        }
        idx = idx + 1;
    }
    out.push(TERMINATE_BYTE);
    proof {
        assert(br.take(idx as int) =~= br);
        assert(out@ =~= store_bytes(lang, ts));
        assert(store_encodable(lang, ts));
    }
    Some(out)
}

} // verus!
