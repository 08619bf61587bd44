//! Binary persistence framing: the verified layout that carries a
//! continuation's or run's bookkeeping (a kind, call identifiers, and name
//! lists) around an opaque engine image.
//!
//! The frame is: a four-byte magic, the token count, the tokens (each one
//! `u32`, little endian), the engine image length, and the image bytes.
//! The token stream holds the kind, the identifier list and the name lists,
//! every name as a length-prefixed sequence of character codes. Building
//! and parsing are exact inverses, proved by `lemma_frame_round_trip` and
//! `lemma_meta_round_trip`; a frame with the wrong magic, a truncated
//! frame, or trailing garbage parses to nothing and loads as an error.

use vstd::prelude::*;

verus! {

broadcast use vstd::std_specs::vec::axiom_vec_index_decreases;

/// The four magic bytes opening every frame.
pub open spec fn magic() -> Seq<u8> {
    seq![77u8, 70u8, 86u8, 49u8]
}

/// The little-endian bytes of one `u32`.
pub open spec fn u32_le(x: u32) -> Seq<u8> {
    seq![
        (x & 0xff) as u8,
        ((x >> 8) & 0xff) as u8,
        ((x >> 16) & 0xff) as u8,
        ((x >> 24) & 0xff) as u8,
    ]
}

/// The `u32` carried by four little-endian bytes.
pub open spec fn u32_from_le(b0: u8, b1: u8, b2: u8, b3: u8) -> u32 {
    (b0 as u32) | ((b1 as u32) << 8) | ((b2 as u32) << 16) | ((b3 as u32) << 24)
}

/// Reading back the little-endian bytes of a `u32` yields that `u32`.
pub proof fn lemma_u32_le_round_trip(x: u32)
    ensures
        u32_from_le(u32_le(x)[0], u32_le(x)[1], u32_le(x)[2], u32_le(x)[3]) == x,
{
    assert(((x & 0xff) as u8 as u32) | ((((x >> 8) & 0xff) as u8 as u32) << 8) | ((((x >> 16)
        & 0xff) as u8 as u32) << 16) | ((((x >> 24) & 0xff) as u8 as u32) << 24) == x)
        by (bit_vector);
}

/// The byte stream of a token sequence, each token little endian.
pub open spec fn tokens_bytes(ts: Seq<u32>) -> Seq<u8>
    decreases ts.len(),
{
    if ts.len() == 0 {
        Seq::empty()
    } else {
        u32_le(ts[0]) + tokens_bytes(ts.drop_first())
    }
}

/// Token byte streams grow four bytes per token.
pub proof fn lemma_tokens_bytes_len(ts: Seq<u32>)
    ensures
        tokens_bytes(ts).len() == 4 * ts.len(),
    decreases ts.len(),
{
    if ts.len() > 0 {
        lemma_tokens_bytes_len(ts.drop_first());
    }
}

/// Appending one token appends its four bytes.
pub proof fn lemma_tokens_bytes_snoc(ts: Seq<u32>, x: u32)
    ensures
        tokens_bytes(ts.push(x)) == tokens_bytes(ts) + u32_le(x),
    decreases ts.len(),
{
    if ts.len() == 0 {
        assert(ts.push(x).len() == 1);
        assert(ts.push(x)[0] == x);
        assert(ts.push(x).drop_first() =~= Seq::<u32>::empty());
        assert(tokens_bytes(ts.push(x)) == u32_le(x) + tokens_bytes(ts.push(x).drop_first()));
        assert(tokens_bytes(Seq::<u32>::empty()) =~= Seq::<u8>::empty());
        assert(tokens_bytes(ts.push(x)) =~= u32_le(x));
        assert(tokens_bytes(ts) + u32_le(x) =~= u32_le(x));
    } else {
        lemma_tokens_bytes_snoc(ts.drop_first(), x);
        assert(ts.push(x).drop_first() =~= ts.drop_first().push(x));
        assert(tokens_bytes(ts.push(x)) =~= tokens_bytes(ts) + u32_le(x));
    }
}

/// The four bytes of token `i` stand at offset `4 * i` of the stream.
#[verifier::rlimit(100)]
pub proof fn lemma_tokens_bytes_index(ts: Seq<u32>, i: int)
    requires
        0 <= i < ts.len(),
    ensures
        tokens_bytes(ts)[4 * i] == u32_le(ts[i])[0],
        tokens_bytes(ts)[4 * i + 1] == u32_le(ts[i])[1],
        tokens_bytes(ts)[4 * i + 2] == u32_le(ts[i])[2],
        tokens_bytes(ts)[4 * i + 3] == u32_le(ts[i])[3],
    decreases ts.len(),
{
    lemma_tokens_bytes_len(ts.drop_first());
    assert(tokens_bytes(ts) == u32_le(ts[0]) + tokens_bytes(ts.drop_first()));
    if i > 0 {
        lemma_tokens_bytes_index(ts.drop_first(), i - 1);
        assert(ts.drop_first()[i - 1] == ts[i]);
        assert(tokens_bytes(ts)[4 * i] == tokens_bytes(ts.drop_first())[4 * (i - 1)]);
        assert(tokens_bytes(ts)[4 * i + 1] == tokens_bytes(ts.drop_first())[4 * (i - 1) + 1]);
        assert(tokens_bytes(ts)[4 * i + 2] == tokens_bytes(ts.drop_first())[4 * (i - 1) + 2]);
        assert(tokens_bytes(ts)[4 * i + 3] == tokens_bytes(ts.drop_first())[4 * (i - 1) + 3]);
    }
}

/// The full frame: magic, token count, tokens, image length, image.
pub open spec fn frame(ts: Seq<u32>, blob: Seq<u8>) -> Seq<u8> {
    magic() + u32_le(ts.len() as u32) + tokens_bytes(ts) + u32_le(blob.len() as u32) + blob
}

/// The token sequence and image a byte string parses to as a frame, or
/// nothing where the magic, the lengths, or the total size do not agree.
pub open spec fn parse_frame(b: Seq<u8>) -> Option<(Seq<u32>, Seq<u8>)> {
    if b.len() >= 12 && b.subrange(0, 4) == magic() {
        let n = u32_from_le(b[4], b[5], b[6], b[7]) as int;
        if 12 + 4 * n <= b.len() {
            let ts = Seq::new(
                n as nat,
                |i: int| u32_from_le(
                    b[8 + 4 * i],
                    b[8 + 4 * i + 1],
                    b[8 + 4 * i + 2],
                    b[8 + 4 * i + 3],
                ),
            );
            let bl = u32_from_le(b[8 + 4 * n], b[8 + 4 * n + 1], b[8 + 4 * n + 2], b[8 + 4 * n
                + 3]) as int;
            if 12 + 4 * n + bl == b.len() {
                Some((ts, b.subrange(12 + 4 * n, b.len() as int)))
            } else {
                None
            }
        } else {
            None
        }
    } else {
        None
    }
}

/// Parsing a built frame recovers exactly its tokens and image.
#[verifier::rlimit(50)]
pub proof fn lemma_frame_round_trip(ts: Seq<u32>, blob: Seq<u8>)
    requires
        ts.len() <= 0xffff_ffff,
        blob.len() <= 0xffff_ffff,
    ensures
        parse_frame(frame(ts, blob)) == Some((ts, blob)),
{
    let b = frame(ts, blob);
    lemma_tokens_bytes_len(ts);
    lemma_u32_le_round_trip(ts.len() as u32);
    lemma_u32_le_round_trip(blob.len() as u32);
    assert(b.subrange(0, 4) =~= magic());
    assert(b[4] == u32_le(ts.len() as u32)[0]);
    assert(b[5] == u32_le(ts.len() as u32)[1]);
    assert(b[6] == u32_le(ts.len() as u32)[2]);
    assert(b[7] == u32_le(ts.len() as u32)[3]);
    let n = ts.len() as int;
    assert forall|i: int| 0 <= i < n implies u32_from_le(
        b[8 + 4 * i],
        b[8 + 4 * i + 1],
        b[8 + 4 * i + 2],
        b[8 + 4 * i + 3],
    ) == ts[i] by {
        lemma_tokens_bytes_index(ts, i);
        lemma_u32_le_round_trip(ts[i]);
        assert(b[8 + 4 * i] == tokens_bytes(ts)[4 * i]);
        assert(b[8 + 4 * i + 1] == tokens_bytes(ts)[4 * i + 1]);
        assert(b[8 + 4 * i + 2] == tokens_bytes(ts)[4 * i + 2]);
        assert(b[8 + 4 * i + 3] == tokens_bytes(ts)[4 * i + 3]);
    }
    assert(b[8 + 4 * n] == u32_le(blob.len() as u32)[0]);
    assert(b[8 + 4 * n + 1] == u32_le(blob.len() as u32)[1]);
    assert(b[8 + 4 * n + 2] == u32_le(blob.len() as u32)[2]);
    assert(b[8 + 4 * n + 3] == u32_le(blob.len() as u32)[3]);
    if let Some((pts, pblob)) = parse_frame(b) {
        assert(pts =~= ts);
        assert(pblob =~= blob);
    }
}

/// One name as tokens: its length, then one token per character code.
pub open spec fn name_tokens(cs: Seq<u32>) -> Seq<u32> {
    seq![cs.len() as u32] + cs
}

/// A name list as tokens, names in order.
pub open spec fn names_tokens(ns: Seq<Seq<u32>>) -> Seq<u32>
    decreases ns.len(),
{
    if ns.len() == 0 {
        Seq::empty()
    } else {
        name_tokens(ns[0]) + names_tokens(ns.drop_first())
    }
}

/// The bookkeeping token stream: the kind, the identifier list with its
/// count, and the name list with its count.
pub open spec fn meta_tokens(kind: u32, ids: Seq<u32>, ns: Seq<Seq<u32>>) -> Seq<u32> {
    seq![kind, ids.len() as u32] + ids + seq![ns.len() as u32] + names_tokens(ns)
}

/// Every count and length of the bookkeeping fits its token.
pub open spec fn meta_ok(ids: Seq<u32>, ns: Seq<Seq<u32>>) -> bool {
    &&& ids.len() <= 0xffff_ffff
    &&& ns.len() <= 0xffff_ffff
    &&& (forall|i: int| 0 <= i < ns.len() ==> (#[trigger] ns[i]).len() <= 0xffff_ffff)
}

/// The name list carried by `n` names' worth of tokens, where the tokens
/// hold exactly that list; nothing where they are truncated, malformed or
/// followed by trailing tokens.
pub open spec fn parse_names(ts: Seq<u32>, n: nat) -> Option<Seq<Seq<u32>>>
    decreases n,
{
    if n == 0 {
        if ts.len() == 0 {
            Some(Seq::empty())
        } else {
            None
        }
    } else if ts.len() >= 1 && 1 + (ts[0] as int) <= ts.len() {
        let l = ts[0] as int;
        match parse_names(ts.subrange(1 + l, ts.len() as int), (n - 1) as nat) {
            Some(rest) => Some(seq![ts.subrange(1, 1 + l)] + rest),
            None => None,
        }
    } else {
        None
    }
}

/// The bookkeeping a token stream parses to, or nothing where it is
/// malformed.
pub open spec fn parse_meta(ts: Seq<u32>) -> Option<(u32, Seq<u32>, Seq<Seq<u32>>)> {
    if ts.len() >= 2 {
        let kind = ts[0];
        let nids = ts[1] as int;
        if 2 + nids + 1 <= ts.len() {
            let ids = ts.subrange(2, 2 + nids);
            let nn = ts[2 + nids] as nat;
            match parse_names(ts.subrange(3 + nids, ts.len() as int), nn) {
                Some(ns) => Some((kind, ids, ns)),
                None => None,
            }
        } else {
            None
        }
    } else {
        None
    }
}

/// Parsing a built name-token stream recovers exactly the names.
pub proof fn lemma_parse_names_round_trip(ns: Seq<Seq<u32>>)
    requires
        forall|i: int| 0 <= i < ns.len() ==> (#[trigger] ns[i]).len() <= 0xffff_ffff,
    ensures
        parse_names(names_tokens(ns), ns.len() as nat) == Some(ns),
    decreases ns.len(),
{
    if ns.len() > 0 {
        lemma_parse_names_round_trip(ns.drop_first());
        let ts = names_tokens(ns);
        let l = ns[0].len() as int;
        assert(ts[0] == (ns[0].len() as u32));
        assert(ts.subrange(1, 1 + l) =~= ns[0]);
        assert(ts.subrange(1 + l, ts.len() as int) =~= names_tokens(ns.drop_first()));
        assert(seq![ts.subrange(1, 1 + l)] + ns.drop_first() =~= ns);
    }
}

/// Parsing a built bookkeeping stream recovers exactly the bookkeeping.
pub proof fn lemma_meta_round_trip(kind: u32, ids: Seq<u32>, ns: Seq<Seq<u32>>)
    requires
        meta_ok(ids, ns),
    ensures
        parse_meta(meta_tokens(kind, ids, ns)) == Some((kind, ids, ns)),
{
    let ts = meta_tokens(kind, ids, ns);
    let nids = ids.len() as int;
    assert(ts[0] == kind);
    assert(ts[1] == (ids.len() as u32));
    assert(ts.subrange(2, 2 + nids) =~= ids);
    assert(ts[2 + nids] == (ns.len() as u32));
    assert(ts.subrange(3 + nids, ts.len() as int) =~= names_tokens(ns));
    lemma_parse_names_round_trip(ns);
}

// ---------------------------------------------------------------------------
// Executable framing
// ---------------------------------------------------------------------------

/// Appends the little-endian bytes of one `u32`.
pub fn write_u32(out: &mut Vec<u8>, x: u32)
    ensures
        final(out)@ == old(out)@ + u32_le(x),
{
    let ghost prev = out@;
    out.push((x & 0xff) as u8);
    out.push(((x >> 8) & 0xff) as u8);
    out.push(((x >> 16) & 0xff) as u8);
    out.push(((x >> 24) & 0xff) as u8);
    assert(out@ =~= prev + u32_le(x));
}

/// Appends the byte stream of a token vector.
pub fn write_tokens(out: &mut Vec<u8>, ts: &Vec<u32>)
    ensures
        final(out)@ == old(out)@ + tokens_bytes(ts@),
{
    let ghost base = out@;
    let mut i: usize = 0;
    while i < ts.len()
        invariant
            i <= ts.len(),
            out@ == base + tokens_bytes(ts@.take(i as int)),
        decreases ts.len() - i,
    {
        write_u32(out, ts[i]);
        proof {
            lemma_tokens_bytes_snoc(ts@.take(i as int), ts@[i as int]);
            assert(ts@.take(i as int).push(ts@[i as int]) =~= ts@.take(i + 1 as int));
            assert(out@ =~= base + tokens_bytes(ts@.take(i + 1 as int)));
        }
        i = i + 1;
    }
    assert(ts@.take(ts@.len() as int) =~= ts@);
}

/// Reads one little-endian `u32` at `pos`, where four bytes remain.
pub fn read_u32(bytes: &Vec<u8>, pos: usize) -> (r: Option<u32>)
    ensures
        (pos + 4 <= bytes@.len() ==> r == Some(
            u32_from_le(bytes@[pos as int], bytes@[pos + 1], bytes@[pos + 2], bytes@[pos + 3]),
        )),
        (pos + 4 > bytes@.len() ==> r is None),
{
    if bytes.len() < 4 || pos > bytes.len() - 4 {
        return None;
    }
    let b0 = bytes[pos];
    let b1 = bytes[pos + 1];
    let b2 = bytes[pos + 2];
    let b3 = bytes[pos + 3];
    Some((b0 as u32) | ((b1 as u32) << 8) | ((b2 as u32) << 16) | ((b3 as u32) << 24))
}

/// Builds the frame around a token vector and an engine image.
pub fn build_frame(ts: &Vec<u32>, blob: &Vec<u8>) -> (r: Result<Vec<u8>, crate::error::FfiError>)
    ensures
        (r matches Ok(b) ==> b@ == frame(ts@, blob@) && ts@.len() <= 0xffff_ffff
            && blob@.len() <= 0xffff_ffff),
{
    if ts.len() > 0xffff_ffff || blob.len() > 0xffff_ffff {
        return Err(crate::error::FfiError::Message("image too large to frame".to_owned()));
    }
    let mut out: Vec<u8> = Vec::new();
    out.push(77);
    out.push(70);
    out.push(86);
    out.push(49);
    assert(out@ =~= magic());
    write_u32(&mut out, ts.len() as u32);
    write_tokens(&mut out, ts);
    write_u32(&mut out, blob.len() as u32);
    let ghost before_blob = out@;
    let mut i: usize = 0;
    while i < blob.len()
        invariant
            i <= blob.len(),
            out@ == before_blob + blob@.take(i as int),
        decreases blob.len() - i,
    {
        out.push(blob[i]);
        assert(out@ =~= before_blob + blob@.take(i + 1 as int));
        i = i + 1;
    }
    assert(out@ =~= frame(ts@, blob@));
    Ok(out)
}

/// Parses a frame back into its token vector and engine image; fails
/// exactly where the spec-level `parse_frame` rejects the bytes.
pub fn split_frame(bytes: &Vec<u8>) -> (r: Result<(Vec<u32>, Vec<u8>), crate::error::FfiError>)
    ensures
        (r matches Ok(p) ==> parse_frame(bytes@) == Some((p.0@, p.1@))),
        (r is Err ==> parse_frame(bytes@) is None),
{
    if bytes.len() < 12 {
        return Err(crate::error::FfiError::Message("truncated image".to_owned()));
    }
    if !(bytes[0] == 77 && bytes[1] == 70 && bytes[2] == 86 && bytes[3] == 49) {
        proof {
            assert(bytes@.subrange(0, 4)[0] == bytes@[0]);
            assert(bytes@.subrange(0, 4)[1] == bytes@[1]);
            assert(bytes@.subrange(0, 4)[2] == bytes@[2]);
            assert(bytes@.subrange(0, 4)[3] == bytes@[3]);
            assert(bytes@.subrange(0, 4) != magic());
        }
        return Err(crate::error::FfiError::Message("foreign image: bad magic".to_owned()));
    }
    assert(bytes@.subrange(0, 4) =~= magic());
    let n32 = match read_u32(bytes, 4) {
        Some(x) => x,
        None => {
            return Err(crate::error::FfiError::Message("truncated image".to_owned()));
        },
    };
    let n = n32 as usize;
    if n > (usize::MAX - 12) / 4 || 12 + 4 * n > bytes.len() {
        return Err(crate::error::FfiError::Message("truncated image".to_owned()));
    }
    let mut ts: Vec<u32> = Vec::new();
    let mut i: usize = 0;
    while i < n
        invariant
            i <= n,
            n <= (usize::MAX - 12) / 4,
            12 + 4 * n <= bytes@.len(),
            ts@.len() == i,
            forall|j: int| 0 <= j < i ==> #[trigger] ts@[j] == u32_from_le(
                bytes@[8 + 4 * j],
                bytes@[8 + 4 * j + 1],
                bytes@[8 + 4 * j + 2],
                bytes@[8 + 4 * j + 3],
            ),
        decreases n - i,
    {
        match read_u32(bytes, 8 + 4 * i) {
            Some(x) => ts.push(x),
            None => {
                proof {
                    assert(false);
                }
                return Err(crate::error::FfiError::Message("truncated image".to_owned()));
            },
        }
        i = i + 1;
    }
    let bl32 = match read_u32(bytes, 8 + 4 * n) {
        Some(x) => x,
        None => {
            proof {
                assert(false);
            }
            return Err(crate::error::FfiError::Message("truncated image".to_owned()));
        },
    };
    let bl = bl32 as usize;
    if bl > usize::MAX - 12 - 4 * n || 12 + 4 * n + bl != bytes.len() {
        return Err(crate::error::FfiError::Message("image length mismatch".to_owned()));
    }
    let mut blob: Vec<u8> = Vec::new();
    let mut t = 12 + 4 * n;
    while t < bytes.len()
        invariant
            12 + 4 * n <= t <= bytes@.len(),
            blob@ =~= bytes@.subrange(12 + 4 * n, t as int),
        decreases bytes.len() - t,
    {
        blob.push(bytes[t]);
        assert(blob@ =~= bytes@.subrange(12 + 4 * n, t + 1 as int));
        t = t + 1;
    }
    proof {
        let expect = Seq::new(
            n as nat,
            |j: int| u32_from_le(
                bytes@[8 + 4 * j],
                bytes@[8 + 4 * j + 1],
                bytes@[8 + 4 * j + 2],
                bytes@[8 + 4 * j + 3],
            ),
        );
        assert(ts@ =~= expect);
        assert(blob@ =~= bytes@.subrange(12 + 4 * n, bytes@.len() as int));
    }
    Ok((ts, blob))
}


// ---------------------------------------------------------------------------
// Names and codes
// ---------------------------------------------------------------------------

/// The character codes of a string, in order.
pub open spec fn char_codes(s: Seq<char>) -> Seq<u32> {
    Seq::new(s.len(), |i: int| s[i] as u32)
}

/// The character codes of each string of a list, in order.
pub open spec fn codes_model(ns: Seq<String>) -> Seq<Seq<u32>> {
    Seq::new(ns.len(), |i: int| char_codes(ns[i]@))
}

/// Every code of the sequence is a Unicode scalar value, so it carries a
/// character.
pub open spec fn code_seq_ok(cs: Seq<u32>) -> bool {
    forall|j: int| 0 <= j < cs.len() ==> vstd::utf8::is_scalar(#[trigger] cs[j])
}

/// Every name's codes are scalar values.
pub open spec fn codes_ok(ns: Seq<Seq<u32>>) -> bool {
    forall|i: int| 0 <= i < ns.len() ==> code_seq_ok(#[trigger] ns[i])
}

/// The codes of real strings are always scalar values: each is the code of
/// a character.
pub proof fn lemma_codes_model_ok(ns: Seq<String>)
    ensures
        codes_ok(codes_model(ns)),
{
    broadcast use vstd::utf8::char_is_scalar;

    assert forall|i: int| 0 <= i < codes_model(ns).len() implies code_seq_ok(
        #[trigger] codes_model(ns)[i],
    ) by {
        assert forall|j: int| 0 <= j < codes_model(ns)[i].len() implies vstd::utf8::is_scalar(
            #[trigger] codes_model(ns)[i][j],
        ) by {
            assert(codes_model(ns)[i] == char_codes(ns[i]@));
            assert(char_codes(ns[i]@)[j] == (ns[i]@[j] as u32));
            vstd::utf8::char_is_scalar(ns[i]@[j]);
            assert(codes_model(ns)[i][j] == (ns[i]@[j] as u32));
        }
    }
}

/// Relies on `char::from_u32`: `Some` exactly for Unicode scalar values,
/// holding the character with that code; inverse of the character-to-code
/// cast.
#[verifier::external_body]
pub fn char_of(u: u32) -> (r: Option<char>)
    ensures
        (r is Some <==> vstd::utf8::is_scalar(u)),
        (r matches Some(c) ==> (c as u32) == u),
        (forall|c: char| (c as u32) == u ==> r == Some(c)),
{
    char::from_u32(u)
}

/// Relies on `String::push`: appends the given character to the end.
#[verifier::external_body]
pub fn push_char(s: &mut String, c: char)
    ensures
        final(s)@ == old(s)@.push(c),
{
    s.push(c);
}

/// The character codes of a string, as a vector.
pub fn string_codes(s: &String) -> (r: Vec<u32>)
    ensures
        r@ == char_codes(s@),
{
    let n = s.as_str().unicode_len();
    let mut r: Vec<u32> = Vec::new();
    let mut i: usize = 0;
    while i < n
        invariant
            i <= n,
            n == s@.len(),
            r@.len() == i,
            forall|j: int| 0 <= j < i ==> #[trigger] r@[j] == (s@[j] as u32),
        decreases n - i,
    {
        let c = s.as_str().get_char(i);
        r.push(c as u32);
        i = i + 1;
    }
    assert(r@ =~= char_codes(s@));
    r
}

/// The string whose characters carry the given codes, or an error where a
/// code is no scalar value.
pub fn codes_string(codes: &Vec<u32>) -> (r: Result<String, crate::error::FfiError>)
    ensures
        (r is Ok <==> code_seq_ok(codes@)),
        (r matches Ok(s) ==> char_codes(s@) == codes@),
{
    let mut s = String::new();
    let mut i: usize = 0;
    while i < codes.len()
        invariant
            i <= codes.len(),
            s@.len() == i,
            forall|j: int| 0 <= j < i ==> (#[trigger] s@[j] as u32) == codes@[j],
            forall|j: int| 0 <= j < i ==> vstd::utf8::is_scalar(#[trigger] codes@[j]),
        decreases codes.len() - i,
    {
        match char_of(codes[i]) {
            Some(c) => push_char(&mut s, c),
            None => {
                assert(!vstd::utf8::is_scalar(codes@[i as int]));
                assert(!code_seq_ok(codes@));
                return Err(
                    crate::error::FfiError::Message("invalid character in image".to_owned()),
                );
            },
        }
        i = i + 1;
    }
    assert(char_codes(s@) =~= codes@);
    Ok(s)
}

/// Appending one name appends its tokens.
pub proof fn lemma_names_tokens_snoc(ns: Seq<Seq<u32>>, c: Seq<u32>)
    ensures
        names_tokens(ns.push(c)) == names_tokens(ns) + name_tokens(c),
    decreases ns.len(),
{
    if ns.len() == 0 {
        assert(ns.push(c).len() == 1);
        assert(ns.push(c)[0] == c);
        assert(ns.push(c).drop_first() =~= Seq::<Seq<u32>>::empty());
        assert(names_tokens(Seq::<Seq<u32>>::empty()) =~= Seq::<u32>::empty());
        assert(names_tokens(ns.push(c)) =~= name_tokens(c));
        assert(names_tokens(ns) + name_tokens(c) =~= name_tokens(c));
    } else {
        lemma_names_tokens_snoc(ns.drop_first(), c);
        assert(ns.push(c).drop_first() =~= ns.drop_first().push(c));
        assert(names_tokens(ns.push(c)) =~= names_tokens(ns) + name_tokens(c));
    }
}

/// Builds the bookkeeping token stream for a kind, identifiers and names.
pub fn meta_to_tokens(kind: u32, ids: &Vec<u32>, names: &Vec<String>) -> (r: Result<
    Vec<u32>,
    crate::error::FfiError,
>)
    ensures
        (r matches Ok(ts) ==> ts@ == meta_tokens(kind, ids@, codes_model(names@)) && meta_ok(
            ids@,
            codes_model(names@),
        )),
{
    if ids.len() > 0xffff_ffff || names.len() > 0xffff_ffff {
        return Err(crate::error::FfiError::Message("too many entries to frame".to_owned()));
    }
    let ghost nsm = codes_model(names@);
    let mut ts: Vec<u32> = Vec::new();
    ts.push(kind);
    ts.push(ids.len() as u32);
    let mut i: usize = 0;
    while i < ids.len()
        invariant
            i <= ids.len(),
            ids@.len() <= 0xffff_ffff,
            ts@ =~= seq![kind, ids@.len() as u32] + ids@.take(i as int),
        decreases ids.len() - i,
    {
        ts.push(ids[i]);
        assert(ts@ =~= seq![kind, ids@.len() as u32] + ids@.take(i + 1 as int));
        i = i + 1;
    }
    ts.push(names.len() as u32);
    let ghost head = seq![kind, ids@.len() as u32] + ids@ + seq![names@.len() as u32];
    assert(ts@ =~= head);
    let mut j: usize = 0;
    while j < names.len()
        invariant
            j <= names.len(),
            names@.len() <= 0xffff_ffff,
            nsm == codes_model(names@),
            nsm.len() == names@.len(),
            forall|i2: int| 0 <= i2 < j ==> (#[trigger] nsm[i2]).len() <= 0xffff_ffff,
            ts@ == head + names_tokens(nsm.take(j as int)),
        decreases names.len() - j,
    {
        let codes = string_codes(&names[j]);
        if codes.len() > 0xffff_ffff {
            return Err(crate::error::FfiError::Message("name too long to frame".to_owned()));
        }
        let ghost before = ts@;
        ts.push(codes.len() as u32);
        let mut k: usize = 0;
        while k < codes.len()
            invariant
                k <= codes.len(),
                codes@.len() <= 0xffff_ffff,
                ts@ =~= before + seq![codes@.len() as u32] + codes@.take(k as int),
            decreases codes.len() - k,
        {
            ts.push(codes[k]);
            assert(ts@ =~= before + seq![codes@.len() as u32] + codes@.take(k + 1 as int));
            k = k + 1;
        }
        proof {
            assert(codes@.take(codes@.len() as int) =~= codes@);
            assert(ts@ =~= before + name_tokens(codes@));
            assert(nsm[j as int] == codes@);
            lemma_names_tokens_snoc(nsm.take(j as int), codes@);
            assert(nsm.take(j as int).push(codes@) =~= nsm.take(j + 1 as int));
            assert(ts@ =~= head + names_tokens(nsm.take(j + 1 as int)));
        }
        j = j + 1;
    }
    proof {
        assert(nsm.take(nsm.len() as int) =~= nsm);
        assert(ts@ =~= meta_tokens(kind, ids@, nsm));
        assert forall|i2: int| 0 <= i2 < nsm.len() implies (#[trigger] nsm[i2]).len()
            <= 0xffff_ffff by {
            assert(nsm[i2] == char_codes(names@[i2]@));
        }
    }
    Ok(ts)
}

/// Parses a bookkeeping token stream back into kind, identifiers and
/// names. Succeeds exactly where the spec-level `parse_meta` accepts the
/// stream and every stored character code is a scalar value, and then
/// returns exactly the parsed bookkeeping.
pub fn tokens_to_meta(ts: &Vec<u32>) -> (r: Result<
    (u32, Vec<u32>, Vec<String>),
    crate::error::FfiError,
>)
    ensures
        (r matches Ok(m) ==> parse_meta(ts@) == Some((m.0, m.1@, codes_model(m.2@)))),
        (r is Ok <==> (parse_meta(ts@) matches Some(m) && codes_ok(m.2))),
{
    if ts.len() < 2 {
        return Err(crate::error::FfiError::Message("truncated image".to_owned()));
    }
    let kind = ts[0];
    let nids32 = ts[1];
    let nids = nids32 as usize;
    if ts.len() < 3 || nids > ts.len() - 3 {
        assert(parse_meta(ts@) is None);
        return Err(crate::error::FfiError::Message("truncated image".to_owned()));
    }
    let mut ids: Vec<u32> = Vec::new();
    let mut i: usize = 0;
    while i < nids
        invariant
            i <= nids,
            ts@.len() <= usize::MAX,
            2 + nids + 1 <= ts@.len(),
            ids@ =~= ts@.subrange(2, 2 + i as int),
        decreases nids - i,
    {
        ids.push(ts[2 + i]);
        assert(ids@ =~= ts@.subrange(2, 2 + (i + 1) as int));
        i = i + 1;
    }
    assert(ids@ =~= ts@.subrange(2, 2 + nids as int));
    let nn32 = ts[2 + nids];
    let nn = nn32 as usize;
    let mut names: Vec<String> = Vec::new();
    let mut pos: usize = 3 + nids;
    let mut j: usize = 0;
    while j < nn
        invariant
            j <= nn,
            ts@.len() <= usize::MAX,
            ts@.len() >= 2,
            nids == nids32 as usize,
            nids32 == ts@[1],
            2 + nids + 1 <= ts@.len(),
            nn == nn32 as usize,
            nn32 == ts@[2 + nids as int],
            ids@ == ts@.subrange(2, 2 + nids as int),
            3 + nids <= pos <= ts@.len(),
            names@.len() == j,
            forall|i2: int| 0 <= i2 < j ==> (#[trigger] codes_model(names@)[i2]).len()
                <= 0xffff_ffff,
            forall|i2: int| 0 <= i2 < j ==> code_seq_ok(#[trigger] codes_model(names@)[i2]),
            parse_names(ts@.subrange(3 + nids as int, ts@.len() as int), nn as nat) == (
            match parse_names(ts@.subrange(pos as int, ts@.len() as int), (nn - j) as nat) {
                Some(rest) => Some(codes_model(names@) + rest),
                None => None::<Seq<Seq<u32>>>,
            }),
        decreases nn - j,
    {
        if pos >= ts.len() {
            proof {
                assert(ts@.subrange(pos as int, ts@.len() as int).len() == 0);
                assert(parse_names(
                    ts@.subrange(3 + nids as int, ts@.len() as int),
                    nn as nat,
                ) is None);
                assert(parse_meta(ts@) is None);
            }
            return Err(crate::error::FfiError::Message("truncated image".to_owned()));
        }
        let l32 = ts[pos];
        let l = l32 as usize;
        if l > ts.len() - pos - 1 {
            proof {
                let suffix = ts@.subrange(pos as int, ts@.len() as int);
                assert(suffix[0] == ts@[pos as int]);
                assert(parse_names(suffix, (nn - j) as nat) is None);
                assert(parse_meta(ts@) is None);
            }
            return Err(crate::error::FfiError::Message("truncated image".to_owned()));
        }
        let mut codes: Vec<u32> = Vec::new();
        let mut k: usize = 0;
        while k < l
            invariant
                k <= l,
                ts@.len() <= usize::MAX,
                pos + 1 + l <= ts@.len(),
                codes@ =~= ts@.subrange(pos + 1, pos + 1 + k as int),
            decreases l - k,
        {
            codes.push(ts[pos + 1 + k]);
            assert(codes@ =~= ts@.subrange(pos + 1, pos + 1 + (k + 1) as int));
            k = k + 1;
        }
        assert(codes@ =~= ts@.subrange(pos + 1, pos + 1 + l as int));
        proof {
            let suffix = ts@.subrange(pos as int, ts@.len() as int);
            let next = ts@.subrange((pos + 1 + l) as int, ts@.len() as int);
            assert(suffix[0] == ts@[pos as int]);
            assert(suffix.subrange(1, 1 + l as int) =~= codes@);
            assert(suffix.subrange(1 + l as int, suffix.len() as int) =~= next);
        }
        let name = match codes_string(&codes) {
            Ok(s) => s,
            Err(e) => {
                proof {
                    let suffix = ts@.subrange(pos as int, ts@.len() as int);
                    let next = ts@.subrange((pos + 1 + l) as int, ts@.len() as int);
                    let whole = parse_names(
                        ts@.subrange(3 + nids as int, ts@.len() as int),
                        nn as nat,
                    );
                    match parse_names(next, (nn - j - 1) as nat) {
                        Some(rest2) => {
                            assert(parse_names(suffix, (nn - j) as nat) == Some(
                                seq![codes@] + rest2,
                            ));
                            let ns = codes_model(names@) + (seq![codes@] + rest2);
                            assert(whole == Some(ns));
                            assert(ns[j as int] == codes@);
                            assert(!code_seq_ok(ns[j as int]));
                            assert(!codes_ok(ns));
                        },
                        None => {
                            assert(parse_names(suffix, (nn - j) as nat) is None);
                            assert(whole is None);
                            assert(parse_meta(ts@) is None);
                        },
                    }
                }
                return Err(e);
            },
        };
        proof {
            assert(codes_model(names@.push(name)) =~= codes_model(names@) + seq![codes@]);
        }
        names.push(name);
        pos = pos + 1 + l;
        j = j + 1;
    }
    if pos != ts.len() {
        proof {
            assert(ts@.subrange(pos as int, ts@.len() as int).len() > 0);
            assert(parse_names(ts@.subrange(pos as int, ts@.len() as int), 0) is None);
            assert(parse_names(
                ts@.subrange(3 + nids as int, ts@.len() as int),
                nn as nat,
            ) is None);
            assert(parse_meta(ts@) is None);
        }
        return Err(crate::error::FfiError::Message("image length mismatch".to_owned()));
    }
    proof {
        assert(ts@.subrange(pos as int, ts@.len() as int).len() == 0);
        assert(codes_model(names@) + Seq::<Seq<u32>>::empty() =~= codes_model(names@));
        assert(parse_meta(ts@) == Some((kind, ids@, codes_model(names@))));
        assert(codes_ok(codes_model(names@)));
    }
    Ok((kind, ids, names))
}

} // verus!
