//! The canonical binary encoding of the module's values: fixed-width
//! integers in big-endian order, variable-length byte strings as a varint
//! length followed by the bytes, and sum types as a tag byte followed by the
//! payload.
//!
//! Each value has a spec encoding (`enc_*`) and a spec parser (`parse_*`)
//! that reads one value from the front of a byte sequence and says how many
//! bytes it took; the executable writers and readers are proved against them.
use vstd::prelude::*;
use crate::event::{Event, EventView, canonical_event_text, nostr_canonical_json, nostr_event_id};
use crate::types::{Account, Amount, OutPoint, PeerId, TransactionId};
use crate::common::{
    NostimintConsensusItem, NostimintInput, NostimintOutput, NostimintOutputOutcome,
    SignatureShare,
};

verus! {

/// Malformed bytes or JSON.
#[derive(Clone, Copy, Debug, PartialEq, Eq, Structural, Hash)]
pub enum DecodeError {
    Invalid,
}

pub open spec fn enc_u16(n: u16) -> Seq<u8> {
    seq![(n >> 8u16) as u8, n as u8]
}

pub open spec fn enc_u32(n: u32) -> Seq<u8> {
    seq![(n >> 24u32) as u8, (n >> 16u32) as u8, (n >> 8u32) as u8, n as u8]
}

pub open spec fn enc_u64(n: u64) -> Seq<u8> {
    seq![
        (n >> 56u64) as u8,
        (n >> 48u64) as u8,
        (n >> 40u64) as u8,
        (n >> 32u64) as u8,
        (n >> 24u64) as u8,
        (n >> 16u64) as u8,
        (n >> 8u64) as u8,
        n as u8,
    ]
}

/// A length: one byte below 0xfd, else a marker byte and the value in the
/// fewest of 2, 4 or 8 bytes.
pub open spec fn enc_varint(n: u64) -> Seq<u8> {
    if n < 0xfd {
        seq![n as u8]
    } else if n <= 0xffff {
        seq![0xfdu8] + enc_u16(n as u16)
    } else if n <= 0xffff_ffff {
        seq![0xfeu8] + enc_u32(n as u32)
    } else {
        seq![0xffu8] + enc_u64(n)
    }
}

pub open spec fn enc_bytes(b: Seq<u8>) -> Seq<u8> {
    enc_varint(b.len() as u64) + b
}

pub open spec fn parse_u16(s: Seq<u8>) -> Option<(u16, nat)> {
    if s.len() < 2 {
        None
    } else {
        Some((((s[0] as u16) << 8u16) | (s[1] as u16), 2))
    }
}

pub open spec fn parse_u32(s: Seq<u8>) -> Option<(u32, nat)> {
    if s.len() < 4 {
        None
    } else {
        Some(
            (
                ((s[0] as u32) << 24u32) | ((s[1] as u32) << 16u32) | ((s[2] as u32) << 8u32) | (
                s[3] as u32),
                4,
            ),
        )
    }
}

pub open spec fn parse_u64(s: Seq<u8>) -> Option<(u64, nat)> {
    if s.len() < 8 {
        None
    } else {
        Some(
            (
                ((s[0] as u64) << 56u64) | ((s[1] as u64) << 48u64) | ((s[2] as u64) << 40u64) | ((
                s[3] as u64) << 32u64) | ((s[4] as u64) << 24u64) | ((s[5] as u64) << 16u64) | ((
                s[6] as u64) << 8u64) | (s[7] as u64),
                8,
            ),
        )
    }
}

/// Reads a varint; a value written in more bytes than it needs is refused.
pub open spec fn parse_varint(s: Seq<u8>) -> Option<(u64, nat)> {
    if s.len() < 1 {
        None
    } else if s[0] < 0xfd {
        Some((s[0] as u64, 1))
    } else if s[0] == 0xfd {
        match parse_u16(s.skip(1)) {
            Some((v, _)) => if v < 0xfd {
                None
            } else {
                Some((v as u64, 3))
            },
            None => None,
        }
    } else if s[0] == 0xfe {
        match parse_u32(s.skip(1)) {
            Some((v, _)) => if v <= 0xffff {
                None
            } else {
                Some((v as u64, 5))
            },
            None => None,
        }
    } else {
        match parse_u64(s.skip(1)) {
            Some((v, _)) => if v <= 0xffff_ffff {
                None
            } else {
                Some((v, 9))
            },
            None => None,
        }
    }
}

/// Reads `n` raw bytes.
pub open spec fn parse_raw(s: Seq<u8>, n: nat) -> Option<(Seq<u8>, nat)> {
    if s.len() < n {
        None
    } else {
        Some((s.take(n as int), n))
    }
}

/// Reads a length-prefixed byte string.
pub open spec fn parse_bytes(s: Seq<u8>) -> Option<(Seq<u8>, nat)> {
    match parse_varint(s) {
        Some((n, c)) => if s.len() < c + n {
            None
        } else {
            Some((s.subrange(c as int, c + n as int), (c + n) as nat))
        },
        None => None,
    }
}

pub proof fn lemma_u16_round_trip(n: u16, rest: Seq<u8>)
    ensures
        parse_u16(enc_u16(n) + rest) == Some((n, 2nat)),
{
    let s = enc_u16(n) + rest;
    assert(s[0] == (n >> 8u16) as u8 && s[1] == n as u8);
    assert((((((n >> 8u16) as u8) as u16) << 8u16) | ((n as u8) as u16)) == n) by (bit_vector);
}

pub proof fn lemma_u32_round_trip(n: u32, rest: Seq<u8>)
    ensures
        parse_u32(enc_u32(n) + rest) == Some((n, 4nat)),
{
    let s = enc_u32(n) + rest;
    assert(s[0] == (n >> 24u32) as u8 && s[1] == (n >> 16u32) as u8 && s[2] == (n >> 8u32) as u8
        && s[3] == n as u8);
    assert((((((n >> 24u32) as u8) as u32) << 24u32) | ((((n >> 16u32) as u8) as u32) << 16u32) | ((
    ((n >> 8u32) as u8) as u32) << 8u32) | ((n as u8) as u32)) == n) by (bit_vector);
}

pub proof fn lemma_u64_round_trip(n: u64, rest: Seq<u8>)
    ensures
        parse_u64(enc_u64(n) + rest) == Some((n, 8nat)),
{
    let s = enc_u64(n) + rest;
    assert(s[0] == (n >> 56u64) as u8 && s[1] == (n >> 48u64) as u8 && s[2] == (n >> 40u64) as u8
        && s[3] == (n >> 32u64) as u8 && s[4] == (n >> 24u64) as u8 && s[5] == (n >> 16u64) as u8
        && s[6] == (n >> 8u64) as u8 && s[7] == n as u8);
    assert((((((n >> 56u64) as u8) as u64) << 56u64) | ((((n >> 48u64) as u8) as u64) << 48u64) | ((
    ((n >> 40u64) as u8) as u64) << 40u64) | ((((n >> 32u64) as u8) as u64) << 32u64) | ((((n
        >> 24u64) as u8) as u64) << 24u64) | ((((n >> 16u64) as u8) as u64) << 16u64) | ((((n
        >> 8u64) as u8) as u64) << 8u64) | ((n as u8) as u64)) == n) by (bit_vector);
}

pub proof fn lemma_varint_round_trip(n: u64, rest: Seq<u8>)
    ensures
        parse_varint(enc_varint(n) + rest) == Some((n, enc_varint(n).len())),
{
    let s = enc_varint(n) + rest;
    if n < 0xfd {
        assert(s[0] == n as u8);
    } else if n <= 0xffff {
        assert(s.skip(1) =~= enc_u16(n as u16) + rest);
        lemma_u16_round_trip(n as u16, rest);
        assert(s[0] == 0xfdu8);
    } else if n <= 0xffff_ffff {
        assert(s.skip(1) =~= enc_u32(n as u32) + rest);
        lemma_u32_round_trip(n as u32, rest);
        assert(s[0] == 0xfeu8);
    } else {
        assert(s.skip(1) =~= enc_u64(n) + rest);
        lemma_u64_round_trip(n, rest);
        assert(s[0] == 0xffu8);
    }
}

pub proof fn lemma_raw_round_trip(b: Seq<u8>, rest: Seq<u8>)
    ensures
        parse_raw(b + rest, b.len()) == Some((b, b.len())),
{
    assert((b + rest).take(b.len() as int) =~= b);
}

pub proof fn lemma_bytes_round_trip(b: Seq<u8>, rest: Seq<u8>)
    requires
        b.len() <= u64::MAX,
    ensures
        parse_bytes(enc_bytes(b) + rest) == Some((b, enc_bytes(b).len())),
{
    let v = enc_varint(b.len() as u64);
    assert(enc_bytes(b) + rest =~= v + (b + rest));
    lemma_varint_round_trip(b.len() as u64, b + rest);
    assert((enc_bytes(b) + rest).subrange(v.len() as int, v.len() + b.len() as int) =~= b);
}

// ---------------------------------------------------------------------------
// Writers and readers of the primitive encodings.

pub fn write_u16(out: &mut Vec<u8>, n: u16)
    ensures
        final(out)@ == old(out)@ + enc_u16(n),
{
    out.push((n >> 8) as u8);
    out.push(n as u8);
    assert(out@ =~= old(out)@ + enc_u16(n));
}

pub fn write_u32(out: &mut Vec<u8>, n: u32)
    ensures
        final(out)@ == old(out)@ + enc_u32(n),
{
    out.push((n >> 24) as u8);
    out.push((n >> 16) as u8);
    out.push((n >> 8) as u8);
    out.push(n as u8);
    assert(out@ =~= old(out)@ + enc_u32(n));
}

pub fn write_u64(out: &mut Vec<u8>, n: u64)
    ensures
        final(out)@ == old(out)@ + enc_u64(n),
{
    out.push((n >> 56) as u8);
    out.push((n >> 48) as u8);
    out.push((n >> 40) as u8);
    out.push((n >> 32) as u8);
    out.push((n >> 24) as u8);
    out.push((n >> 16) as u8);
    out.push((n >> 8) as u8);
    out.push(n as u8);
    assert(out@ =~= old(out)@ + enc_u64(n));
}

pub fn write_varint(out: &mut Vec<u8>, n: u64)
    ensures
        final(out)@ == old(out)@ + enc_varint(n),
{
    if n < 0xfd {
        out.push(n as u8);
        assert(out@ =~= old(out)@ + enc_varint(n));
    } else if n <= 0xffff {
        out.push(0xfd);
        write_u16(out, n as u16);
        assert(out@ =~= old(out)@ + enc_varint(n));
    } else if n <= 0xffff_ffff {
        out.push(0xfe);
        write_u32(out, n as u32);
        assert(out@ =~= old(out)@ + enc_varint(n));
    } else {
        out.push(0xff);
        write_u64(out, n);
        assert(out@ =~= old(out)@ + enc_varint(n));
    }
}

pub fn write_raw(out: &mut Vec<u8>, b: &[u8])
    ensures
        final(out)@ == old(out)@ + b@,
{
    let mut i: usize = 0;
    while i < b.len()
        invariant
            0 <= i <= b@.len(),
            out@ == old(out)@ + b@.take(i as int),
        decreases b@.len() - i,
    {
        out.push(b[i]);
        i = i + 1;
        assert(out@ =~= old(out)@ + b@.take(i as int));
    }
    assert(b@.take(b@.len() as int) =~= b@);
}

pub fn write_bytes(out: &mut Vec<u8>, b: &[u8])
    ensures
        final(out)@ == old(out)@ + enc_bytes(b@),
{
    write_varint(out, b.len() as u64);
    write_raw(out, b);
    assert(out@ =~= old(out)@ + enc_bytes(b@));
}

/// What a reader at `pos` of `b` returns, held to the spec parser's answer on
/// the bytes from `pos` on: the value seen through `view`, and the position
/// after it.
pub open spec fn read_as<T, V>(
    r: Option<(T, usize)>,
    b: Seq<u8>,
    pos: usize,
    parsed: Option<(V, nat)>,
    view: spec_fn(T) -> V,
) -> bool {
    match r {
        Some((v, p)) => pos <= p <= b.len() && parsed == Some((view(v), (p - pos) as nat)),
        None => parsed is None,
    }
}

pub fn read_u16(b: &[u8], pos: usize) -> (r: Option<(u16, usize)>)
    requires
        pos <= b@.len(),
    ensures
        read_as(r, b@, pos, parse_u16(b@.skip(pos as int)), |v: u16| v),
{
    if b.len() - pos < 2 {
        return None;
    }
    let v = ((b[pos] as u16) << 8) | (b[pos + 1] as u16);
    Some((v, pos + 2))
}

pub fn read_u32(b: &[u8], pos: usize) -> (r: Option<(u32, usize)>)
    requires
        pos <= b@.len(),
    ensures
        read_as(r, b@, pos, parse_u32(b@.skip(pos as int)), |v: u32| v),
{
    if b.len() - pos < 4 {
        return None;
    }
    let v = ((b[pos] as u32) << 24) | ((b[pos + 1] as u32) << 16) | ((b[pos + 2] as u32) << 8) | (
    b[pos + 3] as u32);
    Some((v, pos + 4))
}

pub fn read_u64(b: &[u8], pos: usize) -> (r: Option<(u64, usize)>)
    requires
        pos <= b@.len(),
    ensures
        read_as(r, b@, pos, parse_u64(b@.skip(pos as int)), |v: u64| v),
{
    if b.len() - pos < 8 {
        return None;
    }
    let v = ((b[pos] as u64) << 56) | ((b[pos + 1] as u64) << 48) | ((b[pos + 2] as u64) << 40) | ((
    b[pos + 3] as u64) << 32) | ((b[pos + 4] as u64) << 24) | ((b[pos + 5] as u64) << 16) | ((b[pos
        + 6] as u64) << 8) | (b[pos + 7] as u64);
    Some((v, pos + 8))
}

pub fn read_varint(b: &[u8], pos: usize) -> (r: Option<(u64, usize)>)
    requires
        pos <= b@.len(),
    ensures
        read_as(r, b@, pos, parse_varint(b@.skip(pos as int)), |v: u64| v),
{
    let ghost s = b@.skip(pos as int);
    if pos >= b.len() {
        return None;
    }
    let t = b[pos];
    if t < 0xfd {
        return Some((t as u64, pos + 1));
    }
    proof {
        assert(s.skip(1) =~= b@.skip(pos + 1));
    }
    if t == 0xfd {
        match read_u16(b, pos + 1) {
            Some((v, p)) => if v < 0xfd {
                None
            } else {
                Some((v as u64, p))
            },
            None => None,
        }
    } else if t == 0xfe {
        match read_u32(b, pos + 1) {
            Some((v, p)) => if v <= 0xffff {
                None
            } else {
                Some((v as u64, p))
            },
            None => None,
        }
    } else {
        match read_u64(b, pos + 1) {
            Some((v, p)) => if v <= 0xffff_ffff {
                None
            } else {
                Some((v, p))
            },
            None => None,
        }
    }
}

/// Reads `n` raw bytes.
pub fn read_raw(b: &[u8], pos: usize, n: usize) -> (r: Option<(Vec<u8>, usize)>)
    requires
        pos <= b@.len(),
    ensures
        read_as(r, b@, pos, parse_raw(b@.skip(pos as int), n as nat), |v: Vec<u8>| v@),
{
    if b.len() - pos < n {
        return None;
    }
    let mut v: Vec<u8> = Vec::new();
    let mut i: usize = 0;
    let len = b.len();
    while i < n
        invariant
            pos + n <= b@.len(),
            len == b@.len(),
            0 <= i <= n,
            v@ == b@.subrange(pos as int, pos + i),
        decreases n - i,
    {
        v.push(b[pos + i]);
        i = i + 1;
        assert(v@ =~= b@.subrange(pos as int, pos + i));
    }
    assert(v@ =~= b@.skip(pos as int).take(n as int));
    Some((v, pos + n))
}

pub fn read_array32(b: &[u8], pos: usize) -> (r: Option<([u8; 32], usize)>)
    requires
        pos <= b@.len(),
    ensures
        read_as(r, b@, pos, parse_raw(b@.skip(pos as int), 32), |v: [u8; 32]| v@),
{
    if b.len() - pos < 32 {
        return None;
    }
    let mut a = [0u8; 32];
    let mut i: usize = 0;
    let len = b.len();
    while i < 32
        invariant
            pos + 32 <= b@.len(),
            len == b@.len(),
            0 <= i <= 32,
            a@.len() == 32,
            forall|j: int| 0 <= j < i ==> a@[j] == b@[pos + j],
        decreases 32 - i,
    {
        a[i] = b[pos + i];
        i = i + 1;
    }
    assert(a@ =~= b@.skip(pos as int).take(32));
    Some((a, pos + 32))
}

pub fn read_array96(b: &[u8], pos: usize) -> (r: Option<([u8; 96], usize)>)
    requires
        pos <= b@.len(),
    ensures
        read_as(r, b@, pos, parse_raw(b@.skip(pos as int), 96), |v: [u8; 96]| v@),
{
    if b.len() - pos < 96 {
        return None;
    }
    let mut a = [0u8; 96];
    let mut i: usize = 0;
    let len = b.len();
    while i < 96
        invariant
            pos + 96 <= b@.len(),
            len == b@.len(),
            0 <= i <= 96,
            a@.len() == 96,
            forall|j: int| 0 <= j < i ==> a@[j] == b@[pos + j],
        decreases 96 - i,
    {
        a[i] = b[pos + i];
        i = i + 1;
    }
    assert(a@ =~= b@.skip(pos as int).take(96));
    Some((a, pos + 96))
}

pub fn read_bytes(b: &[u8], pos: usize) -> (r: Option<(Vec<u8>, usize)>)
    requires
        pos <= b@.len(),
    ensures
        read_as(r, b@, pos, parse_bytes(b@.skip(pos as int)), |v: Vec<u8>| v@),
{
    match read_varint(b, pos) {
        Some((n, p)) => {
            if n > (b.len() - p) as u64 {
                return None;
            }
            match read_raw(b, p, n as usize) {
                Some((v, q)) => {
                    assert(b@.skip(p as int).take(n as int) =~= b@.skip(pos as int).subrange(
                        (p - pos) as int,
                        (p - pos) + n as int,
                    ));
                    Some((v, q))
                },
                None => None,
            }
        },
        None => None,
    }
}


// ---------------------------------------------------------------------------
// The module's values.

/// The value a parser read, where it took the whole input.
pub open spec fn whole<V>(parsed: Option<(V, nat)>, len: nat) -> Option<V> {
    match parsed {
        Some((v, n)) => if n == len {
            Some(v)
        } else {
            None
        },
        None => None,
    }
}

/// What a decoder of a whole byte string returns, held to the spec parser.
pub open spec fn decoded_as<T, V>(
    r: Result<T, DecodeError>,
    b: Seq<u8>,
    parsed: Option<(V, nat)>,
    view: spec_fn(T) -> V,
) -> bool {
    match r {
        Ok(v) => whole(parsed, b.len()) == Some(view(v)),
        Err(_) => whole(parsed, b.len()) is None,
    }
}

/// An amount and an account, as an output outcome, an input and an output
/// are written.
pub open spec fn enc_amount_account(a: u64, k: Seq<u8>) -> Seq<u8> {
    enc_u64(a) + k
}

pub open spec fn parse_amount_account(s: Seq<u8>) -> Option<((u64, Seq<u8>), nat)> {
    match parse_u64(s) {
        Some((a, n)) => match parse_raw(s.skip(n as int), 32) {
            Some((k, m)) => Some(((a, k), n + m)),
            None => None,
        },
        None => None,
    }
}

pub open spec fn enc_out_point(p: (Seq<u8>, u64)) -> Seq<u8> {
    p.0 + enc_u64(p.1)
}

pub open spec fn parse_out_point(s: Seq<u8>) -> Option<((Seq<u8>, u64), nat)> {
    match parse_raw(s, 32) {
        Some((t, n)) => match parse_u64(s.skip(n as int)) {
            Some((i, m)) => Some(((t, i), n + m)),
            None => None,
        },
        None => None,
    }
}

/// An event is written as its JSON text, length-prefixed.
pub open spec fn enc_event(e: EventView) -> Seq<u8> {
    enc_bytes(e.json)
}

/// Reads an event: the text must be a canonical event text, and the id is the
/// one it carries.
pub open spec fn parse_event(s: Seq<u8>) -> Option<(EventView, nat)> {
    match parse_bytes(s) {
        Some((j, n)) => if canonical_event_text(j) {
            Some((EventView { json: j, id: nostr_event_id(j)->0 }, n))
        } else {
            None
        },
        None => None,
    }
}

pub open spec fn option_view(e: Option<Event>) -> Option<EventView> {
    match e {
        Some(e) => Some(e@),
        None => None,
    }
}

/// The value of an event row: a tag, and the completed event after tag 1.
pub open spec fn enc_event_value(v: Option<EventView>) -> Seq<u8> {
    match v {
        None => seq![0u8],
        Some(e) => seq![1u8] + enc_event(e),
    }
}

pub open spec fn parse_event_value(s: Seq<u8>) -> Option<(Option<EventView>, nat)> {
    if s.len() < 1 {
        None
    } else if s[0] == 0 {
        Some((None, 1))
    } else if s[0] == 1 {
        match parse_event(s.skip(1)) {
            Some((e, n)) => Some((Some(e), n + 1)),
            None => None,
        }
    } else {
        None
    }
}

pub open spec fn item_view(item: NostimintConsensusItem) -> (EventView, Seq<u8>) {
    match item {
        NostimintConsensusItem::Note(e, s) => (e@, s.bytes@),
    }
}

/// A consensus item: tag 0, the event, and the 96 bytes of the share.
pub open spec fn enc_item(v: (EventView, Seq<u8>)) -> Seq<u8> {
    seq![0u8] + enc_event(v.0) + v.1
}

pub open spec fn parse_item(s: Seq<u8>) -> Option<((EventView, Seq<u8>), nat)> {
    if s.len() < 1 || s[0] != 0 {
        None
    } else {
        match parse_event(s.skip(1)) {
            Some((e, n)) => match parse_raw(s.skip(1 + n as int), 96) {
                Some((sh, m)) => Some(((e, sh), 1 + n + m)),
                None => None,
            },
            None => None,
        }
    }
}

pub proof fn lemma_amount_account_round_trip(a: u64, k: Seq<u8>, rest: Seq<u8>)
    requires
        k.len() == 32,
    ensures
        parse_amount_account(enc_amount_account(a, k) + rest) == Some(((a, k), 40nat)),
{
    let s = enc_amount_account(a, k) + rest;
    assert(s =~= enc_u64(a) + (k + rest));
    lemma_u64_round_trip(a, k + rest);
    assert(s.skip(8) =~= k + rest);
    lemma_raw_round_trip(k, rest);
}

pub proof fn lemma_out_point_round_trip(p: (Seq<u8>, u64), rest: Seq<u8>)
    requires
        p.0.len() == 32,
    ensures
        parse_out_point(enc_out_point(p) + rest) == Some((p, 40nat)),
{
    let s = enc_out_point(p) + rest;
    assert(s =~= p.0 + (enc_u64(p.1) + rest));
    lemma_raw_round_trip(p.0, enc_u64(p.1) + rest);
    assert(s.skip(32) =~= enc_u64(p.1) + rest);
    lemma_u64_round_trip(p.1, rest);
}

pub proof fn lemma_event_round_trip(e: EventView, rest: Seq<u8>)
    requires
        canonical_event_text(e.json),
        nostr_event_id(e.json) == Some(e.id),
        e.json.len() <= u64::MAX,
    ensures
        parse_event(enc_event(e) + rest) == Some((e, enc_event(e).len())),
{
    lemma_bytes_round_trip(e.json, rest);
}

pub proof fn lemma_event_value_round_trip(v: Option<EventView>, rest: Seq<u8>)
    requires
        v matches Some(e) ==> canonical_event_text(e.json) && nostr_event_id(e.json) == Some(e.id)
            && e.json.len() <= u64::MAX,
    ensures
        parse_event_value(enc_event_value(v) + rest) == Some((v, enc_event_value(v).len())),
{
    let s = enc_event_value(v) + rest;
    match v {
        None => {},
        Some(e) => {
            assert(s.skip(1) =~= enc_event(e) + rest);
            lemma_event_round_trip(e, rest);
        },
    }
}

pub proof fn lemma_item_round_trip(v: (EventView, Seq<u8>), rest: Seq<u8>)
    requires
        canonical_event_text(v.0.json),
        nostr_event_id(v.0.json) == Some(v.0.id),
        v.0.json.len() <= u64::MAX,
        v.1.len() == 96,
    ensures
        parse_item(enc_item(v) + rest) == Some((v, enc_item(v).len())),
{
    let s = enc_item(v) + rest;
    let n = enc_event(v.0).len();
    assert(s.skip(1) =~= enc_event(v.0) + (v.1 + rest));
    lemma_event_round_trip(v.0, v.1 + rest);
    assert(s.skip(1 + n as int) =~= v.1 + rest);
    lemma_raw_round_trip(v.1, rest);
}

/// Encode-then-decode gives back the value, for every value of the module
/// that is stored or broadcast: an amount, an account, an output, an output
/// outcome, an input, a peer id, a signature share, an event, the value of an
/// event row and a consensus item.
pub proof fn lemma_round_trip(
    amount: u64,
    account: Seq<u8>,
    out_point: (Seq<u8>, u64),
    peer: u16,
    share: Seq<u8>,
    event: EventView,
    event_value: Option<EventView>,
)
    requires
        account.len() == 32,
        out_point.0.len() == 32,
        share.len() == 96,
        canonical_event_text(event.json),
        nostr_event_id(event.json) == Some(event.id),
        event.json.len() <= u64::MAX,
        event_value matches Some(e) ==> canonical_event_text(e.json) && nostr_event_id(e.json)
            == Some(e.id) && e.json.len() <= u64::MAX,
    ensures
        whole(parse_u64(enc_u64(amount)), 8) == Some(amount),
        whole(parse_raw(account, 32), 32) == Some(account),
        whole(parse_out_point(enc_out_point(out_point)), 40) == Some(out_point),
        whole(parse_amount_account(enc_amount_account(amount, account)), 40) == Some(
            (amount, account),
        ),
        whole(parse_u16(enc_u16(peer)), 2) == Some(peer),
        whole(parse_raw(share, 96), 96) == Some(share),
        whole(parse_event(enc_event(event)), enc_event(event).len()) == Some(event),
        whole(parse_event_value(enc_event_value(event_value)), enc_event_value(event_value).len())
            == Some(event_value),
        whole(parse_item(enc_item((event, share))), enc_item((event, share)).len()) == Some(
            (event, share),
        ),
{
    let e = Seq::<u8>::empty();
    lemma_u64_round_trip(amount, e);
    assert(enc_u64(amount) + e =~= enc_u64(amount));
    assert(account.take(32) =~= account);
    lemma_out_point_round_trip(out_point, e);
    assert(enc_out_point(out_point) + e =~= enc_out_point(out_point));
    lemma_amount_account_round_trip(amount, account, e);
    assert(enc_amount_account(amount, account) + e =~= enc_amount_account(amount, account));
    lemma_u16_round_trip(peer, e);
    assert(enc_u16(peer) + e =~= enc_u16(peer));
    assert(share.take(96) =~= share);
    lemma_event_round_trip(event, e);
    assert(enc_event(event) + e =~= enc_event(event));
    lemma_event_value_round_trip(event_value, e);
    assert(enc_event_value(event_value) + e =~= enc_event_value(event_value));
    lemma_item_round_trip((event, share), e);
    assert(enc_item((event, share)) + e =~= enc_item((event, share)));
}

/// Semantically equal events encode to the same bytes, whichever peer
/// encodes them: events read from two texts of the same signed event (texts
/// with the same canonical rendering) are equal, and so are their encodings
/// and those of the event rows and consensus items that carry them.
pub proof fn lemma_equal_events_encode_equally(
    x: Seq<u8>,
    y: Seq<u8>,
    a: EventView,
    b: EventView,
    share: Seq<u8>,
)
    requires
        nostr_canonical_json(x) == nostr_canonical_json(y),
        nostr_canonical_json(x) == Some(a.json),
        nostr_canonical_json(y) == Some(b.json),
        nostr_event_id(a.json) == Some(a.id),
        nostr_event_id(b.json) == Some(b.id),
    ensures
        a == b,
        enc_event(a) == enc_event(b),
        enc_event_value(Some(a)) == enc_event_value(Some(b)),
        enc_item((a, share)) == enc_item((b, share)),
{
}

pub fn write_amount_account(out: &mut Vec<u8>, a: u64, k: &[u8; 32])
    ensures
        final(out)@ == old(out)@ + enc_amount_account(a, k@),
{
    write_u64(out, a);
    write_raw(out, k);
    assert(out@ =~= old(out)@ + enc_amount_account(a, k@));
}

pub fn read_amount_account(b: &[u8], pos: usize) -> (r: Option<((u64, [u8; 32]), usize)>)
    requires
        pos <= b@.len(),
    ensures
        read_as(
            r,
            b@,
            pos,
            parse_amount_account(b@.skip(pos as int)),
            |v: (u64, [u8; 32])| (v.0, v.1@),
        ),
{
    match read_u64(b, pos) {
        Some((a, p)) => {
            assert(b@.skip(pos as int).skip(8) =~= b@.skip(p as int));
            match read_array32(b, p) {
                Some((k, q)) => Some(((a, k), q)),
                None => None,
            }
        },
        None => None,
    }
}

pub fn write_event(out: &mut Vec<u8>, e: &Event)
    ensures
        final(out)@ == old(out)@ + enc_event(e@),
{
    write_bytes(out, e.json().as_slice());
}

pub fn read_event(b: &[u8], pos: usize) -> (r: Option<(Event, usize)>)
    requires
        pos <= b@.len(),
    ensures
        read_as(r, b@, pos, parse_event(b@.skip(pos as int)), |v: Event| v@),
{
    match read_bytes(b, pos) {
        Some((json, p)) => match Event::from_canonical(json) {
            Some(e) => Some((e, p)),
            None => None,
        },
        None => None,
    }
}

impl Amount {
    pub fn consensus_encode(&self) -> (r: Vec<u8>)
        ensures
            r@ == enc_u64(self.msats),
    {
        let mut out: Vec<u8> = Vec::new();
        write_u64(&mut out, self.msats);
        assert(out@ =~= enc_u64(self.msats));
        out
    }

    pub fn consensus_decode(b: &[u8]) -> (r: Result<Amount, DecodeError>)
        ensures
            decoded_as(r, b@, parse_u64(b@), |v: Amount| v.msats),
    {
        assert(b@.skip(0) =~= b@);
        match read_u64(b, 0) {
            Some((v, p)) => if p == b.len() {
                Ok(Amount { msats: v })
            } else {
                Err(DecodeError::Invalid)
            },
            None => Err(DecodeError::Invalid),
        }
    }
}

impl Account {
    pub fn consensus_encode(&self) -> (r: Vec<u8>)
        ensures
            r@ == self@,
    {
        let mut out: Vec<u8> = Vec::new();
        write_raw(&mut out, &self.key);
        assert(out@ =~= self@);
        out
    }

    pub fn consensus_decode(b: &[u8]) -> (r: Result<Account, DecodeError>)
        ensures
            decoded_as(r, b@, parse_raw(b@, 32), |v: Account| v@),
    {
        assert(b@.skip(0) =~= b@);
        match read_array32(b, 0) {
            Some((key, p)) => if p == b.len() {
                Ok(Account { key })
            } else {
                Err(DecodeError::Invalid)
            },
            None => Err(DecodeError::Invalid),
        }
    }
}

impl OutPoint {
    pub fn consensus_encode(&self) -> (r: Vec<u8>)
        ensures
            r@ == enc_out_point(self@),
    {
        let mut out: Vec<u8> = Vec::new();
        write_raw(&mut out, &self.txid.bytes);
        write_u64(&mut out, self.out_idx);
        assert(out@ =~= enc_out_point(self@));
        out
    }

    pub fn consensus_decode(b: &[u8]) -> (r: Result<OutPoint, DecodeError>)
        ensures
            decoded_as(r, b@, parse_out_point(b@), |v: OutPoint| v@),
    {
        assert(b@.skip(0) =~= b@);
        match read_array32(b, 0) {
            Some((t, p)) => {
                assert(b@.skip(32) =~= b@.skip(p as int));
                match read_u64(b, p) {
                    Some((i, q)) => if q == b.len() {
                        Ok(OutPoint { txid: TransactionId { bytes: t }, out_idx: i })
                    } else {
                        Err(DecodeError::Invalid)
                    },
                    None => Err(DecodeError::Invalid),
                }
            },
            None => Err(DecodeError::Invalid),
        }
    }
}

impl PeerId {
    pub fn consensus_encode(&self) -> (r: Vec<u8>)
        ensures
            r@ == enc_u16(self.id),
    {
        let mut out: Vec<u8> = Vec::new();
        write_u16(&mut out, self.id);
        assert(out@ =~= enc_u16(self.id));
        out
    }

    pub fn consensus_decode(b: &[u8]) -> (r: Result<PeerId, DecodeError>)
        ensures
            decoded_as(r, b@, parse_u16(b@), |v: PeerId| v.id),
    {
        assert(b@.skip(0) =~= b@);
        match read_u16(b, 0) {
            Some((id, p)) => if p == b.len() {
                Ok(PeerId { id })
            } else {
                Err(DecodeError::Invalid)
            },
            None => Err(DecodeError::Invalid),
        }
    }
}

impl SignatureShare {
    pub fn consensus_encode(&self) -> (r: Vec<u8>)
        ensures
            r@ == self.bytes@,
    {
        let mut out: Vec<u8> = Vec::new();
        write_raw(&mut out, &self.bytes);
        assert(out@ =~= self.bytes@);
        out
    }

    pub fn consensus_decode(b: &[u8]) -> (r: Result<SignatureShare, DecodeError>)
        ensures
            decoded_as(r, b@, parse_raw(b@, 96), |v: SignatureShare| v.bytes@),
    {
        assert(b@.skip(0) =~= b@);
        match read_array96(b, 0) {
            Some((bytes, p)) => if p == b.len() {
                Ok(SignatureShare { bytes })
            } else {
                Err(DecodeError::Invalid)
            },
            None => Err(DecodeError::Invalid),
        }
    }
}

impl NostimintOutputOutcome {
    pub fn consensus_encode(&self) -> (r: Vec<u8>)
        ensures
            r@ == enc_amount_account(self.0.msats, self.1@),
    {
        let mut out: Vec<u8> = Vec::new();
        write_amount_account(&mut out, self.0.msats, &self.1.key);
        assert(out@ =~= enc_amount_account(self.0.msats, self.1@));
        out
    }

    pub fn consensus_decode(b: &[u8]) -> (r: Result<NostimintOutputOutcome, DecodeError>)
        ensures
            decoded_as(
                r,
                b@,
                parse_amount_account(b@),
                |v: NostimintOutputOutcome| (v.0.msats, v.1@),
            ),
    {
        assert(b@.skip(0) =~= b@);
        match read_amount_account(b, 0) {
            Some(((a, key), p)) => if p == b.len() {
                Ok(NostimintOutputOutcome(Amount { msats: a }, Account { key }))
            } else {
                Err(DecodeError::Invalid)
            },
            None => Err(DecodeError::Invalid),
        }
    }
}

impl NostimintInput {
    pub fn consensus_encode(&self) -> (r: Vec<u8>)
        ensures
            r@ == enc_amount_account(self.amount.msats, self.account@),
    {
        let mut out: Vec<u8> = Vec::new();
        write_amount_account(&mut out, self.amount.msats, &self.account.key);
        assert(out@ =~= enc_amount_account(self.amount.msats, self.account@));
        out
    }

    pub fn consensus_decode(b: &[u8]) -> (r: Result<NostimintInput, DecodeError>)
        ensures
            decoded_as(
                r,
                b@,
                parse_amount_account(b@),
                |v: NostimintInput| (v.amount.msats, v.account@),
            ),
    {
        assert(b@.skip(0) =~= b@);
        match read_amount_account(b, 0) {
            Some(((a, key), p)) => if p == b.len() {
                Ok(NostimintInput { amount: Amount { msats: a }, account: Account { key } })
            } else {
                Err(DecodeError::Invalid)
            },
            None => Err(DecodeError::Invalid),
        }
    }
}

impl NostimintOutput {
    pub fn consensus_encode(&self) -> (r: Vec<u8>)
        ensures
            r@ == enc_amount_account(self.amount.msats, self.account@),
    {
        let mut out: Vec<u8> = Vec::new();
        write_amount_account(&mut out, self.amount.msats, &self.account.key);
        assert(out@ =~= enc_amount_account(self.amount.msats, self.account@));
        out
    }

    pub fn consensus_decode(b: &[u8]) -> (r: Result<NostimintOutput, DecodeError>)
        ensures
            decoded_as(
                r,
                b@,
                parse_amount_account(b@),
                |v: NostimintOutput| (v.amount.msats, v.account@),
            ),
    {
        assert(b@.skip(0) =~= b@);
        match read_amount_account(b, 0) {
            Some(((a, key), p)) => if p == b.len() {
                Ok(NostimintOutput { amount: Amount { msats: a }, account: Account { key } })
            } else {
                Err(DecodeError::Invalid)
            },
            None => Err(DecodeError::Invalid),
        }
    }
}

impl Event {
    /// The event's JSON text, length-prefixed.
    pub fn consensus_encode(&self) -> (r: Vec<u8>)
        ensures
            r@ == enc_event(self@),
    {
        let mut out: Vec<u8> = Vec::new();
        write_event(&mut out, self);
        assert(out@ =~= enc_event(self@));
        out
    }

    /// Reads an event; the text must parse as a signed event.
    pub fn consensus_decode(b: &[u8]) -> (r: Result<Event, DecodeError>)
        ensures
            decoded_as(r, b@, parse_event(b@), |v: Event| v@),
    {
        assert(b@.skip(0) =~= b@);
        match read_event(b, 0) {
            Some((e, p)) => if p == b.len() {
                Ok(e)
            } else {
                Err(DecodeError::Invalid)
            },
            None => Err(DecodeError::Invalid),
        }
    }
}

/// Encodes the value of an event row.
pub fn encode_event_value(v: &Option<Event>) -> (r: Vec<u8>)
    ensures
        r@ == enc_event_value(option_view(*v)),
{
    let mut out: Vec<u8> = Vec::new();
    match v {
        None => out.push(0),
        Some(e) => {
            out.push(1);
            write_event(&mut out, e);
        },
    }
    assert(out@ =~= enc_event_value(option_view(*v)));
    out
}

/// Decodes the value of an event row.
pub fn decode_event_value(b: &[u8]) -> (r: Result<Option<Event>, DecodeError>)
    ensures
        decoded_as(r, b@, parse_event_value(b@), |v: Option<Event>| option_view(v)),
{
    if b.len() < 1 {
        return Err(DecodeError::Invalid);
    }
    if b[0] == 0 {
        if b.len() == 1 {
            Ok(None)
        } else {
            Err(DecodeError::Invalid)
        }
    } else if b[0] == 1 {
        assert(b@.skip(1) =~= b@.skip(1int));
        match read_event(b, 1) {
            Some((e, p)) => if p == b.len() {
                Ok(Some(e))
            } else {
                Err(DecodeError::Invalid)
            },
            None => Err(DecodeError::Invalid),
        }
    } else {
        Err(DecodeError::Invalid)
    }
}

impl NostimintConsensusItem {
    pub fn consensus_encode(&self) -> (r: Vec<u8>)
        ensures
            r@ == enc_item(item_view(*self)),
    {
        let mut out: Vec<u8> = Vec::new();
        out.push(0);
        match self {
            NostimintConsensusItem::Note(e, s) => {
                write_event(&mut out, e);
                write_raw(&mut out, &s.bytes);
            },
        }
        assert(out@ =~= enc_item(item_view(*self)));
        out
    }

    pub fn consensus_decode(b: &[u8]) -> (r: Result<NostimintConsensusItem, DecodeError>)
        ensures
            decoded_as(r, b@, parse_item(b@), |v: NostimintConsensusItem| item_view(v)),
    {
        if b.len() < 1 || b[0] != 0 {
            return Err(DecodeError::Invalid);
        }
        match read_event(b, 1) {
            Some((e, p)) => {
                assert(b@.skip(1).skip((p - 1) as int) =~= b@.skip(p as int));
                match read_array96(b, p) {
                    Some((bytes, q)) => if q == b.len() {
                        Ok(NostimintConsensusItem::Note(e, SignatureShare { bytes }))
                    } else {
                        Err(DecodeError::Invalid)
                    },
                    None => Err(DecodeError::Invalid),
                }
            },
            None => Err(DecodeError::Invalid),
        }
    }
}

} // verus!
