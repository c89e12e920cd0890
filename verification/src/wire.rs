//! The wire format of a handoff.
//!
//! A frame is one version byte, the length of the body as four big-endian
//! bytes, and the body. The body is the entries of the payload one after the
//! other, each as four big-endian bytes of length followed by that many bytes
//! of UTF-8.

use crate::error::ListenerError;
use crate::payload::Payload;
use vstd::prelude::*;
use vstd::utf8::{decode_utf8, encode_utf8, valid_utf8};

verus! {

/// The leading byte of every frame.
pub const PROTOCOL_VERSION: u8 = 1;

/// Bytes before the body: the version byte and the body length.
pub const HEADER_LEN: usize = 5;

/// The largest body a frame can announce.
pub const MAX_BODY_LEN: u64 = 0xffff_ffff;

/// The four big-endian bytes of `n`.
pub open spec fn be32(n: nat) -> Seq<u8> {
    seq![
        ((n / 0x100_0000) % 0x100) as u8,
        ((n / 0x1_0000) % 0x100) as u8,
        ((n / 0x100) % 0x100) as u8,
        (n % 0x100) as u8,
    ]
}

/// The number that the first four bytes of `b` spell, big-endian.
pub open spec fn be32_value(b: Seq<u8>) -> nat
    recommends
        b.len() >= 4,
{
    (b[0] as nat) * 0x100_0000 + (b[1] as nat) * 0x1_0000 + (b[2] as nat) * 0x100 + (b[3] as nat)
}

/// One entry on the wire: its length in bytes, then its UTF-8 encoding.
pub open spec fn text_bytes(text: Seq<char>) -> Seq<u8> {
    be32(encode_utf8(text).len()) + encode_utf8(text)
}

/// The body of a frame: the entries one after the other.
pub open spec fn body_bytes(p: Seq<Seq<char>>) -> Seq<u8>
    decreases p.len(),
{
    if p.len() == 0 {
        Seq::empty()
    } else {
        text_bytes(p[0]) + body_bytes(p.drop_first())
    }
}

/// Whether the payload fits in one frame whose body may be `limit` bytes
/// long.
pub open spec fn fits(p: Seq<Seq<char>>, limit: u32) -> bool {
    body_bytes(p).len() <= limit
}

/// The frame that carries `p`.
pub open spec fn frame_bytes(p: Seq<Seq<char>>) -> Seq<u8> {
    seq![PROTOCOL_VERSION] + be32(body_bytes(p).len()) + body_bytes(p)
}

/// The payload that a body spells, if it spells one.
pub open spec fn body_payload(b: Seq<u8>) -> Option<Seq<Seq<char>>>
    decreases b.len(),
{
    if b.len() == 0 {
        Some(Seq::empty())
    } else if b.len() < 4 {
        None
    } else {
        let end = 4 + be32_value(b) as int;
        if end > b.len() {
            None
        } else if !valid_utf8(b.subrange(4, end)) {
            None
        } else {
            match body_payload(b.skip(end)) {
                Some(rest) => Some(seq![decode_utf8(b.subrange(4, end))] + rest),
                None => None,
            }
        }
    }
}

/// How far the bytes received so far are from a whole frame.
#[derive(Clone, Copy, Debug, PartialEq, Eq, Structural)]
pub enum FrameStatus {
    /// At least this many bytes are still to come.
    NeedMore(u64),
    /// The bytes are exactly one frame long.
    Complete,
    /// The bytes cannot begin a frame, or run past its end.
    Malformed,
}

/// The status of `b`, read off its header, where a body may be `limit`
/// bytes long.
pub open spec fn frame_status_of(b: Seq<u8>, limit: u32) -> FrameStatus {
    if b.len() == 0 {
        FrameStatus::NeedMore(5)
    } else if b[0] != PROTOCOL_VERSION {
        FrameStatus::Malformed
    } else if b.len() < 5 {
        FrameStatus::NeedMore((5 - b.len()) as u64)
    } else {
        let whole = 5 + be32_value(b.subrange(1, 5));
        if whole > 5 + limit {
            FrameStatus::Malformed
        } else if b.len() < whole {
            FrameStatus::NeedMore((whole - b.len()) as u64)
        } else if b.len() == whole {
            FrameStatus::Complete
        } else {
            FrameStatus::Malformed
        }
    }
}

/// What a receiver makes of everything a peer sent before it stopped.
///
/// Bytes that stop short of the announced frame mean that the peer went away
/// in the middle of the transfer; anything else that is not the encoding of
/// a payload within the limit is malformed.
pub open spec fn frame_payload(b: Seq<u8>, limit: u32) -> Result<Seq<Seq<char>>, ListenerError> {
    match frame_status_of(b, limit) {
        FrameStatus::NeedMore(_) => Err(ListenerError::Closed),
        FrameStatus::Malformed => Err(ListenerError::Malformed),
        FrameStatus::Complete => match body_payload(b.skip(5)) {
            Some(p) => Ok(p),
            None => Err(ListenerError::Malformed),
        },
    }
}

/// `be32` is four bytes long and `be32_value` reads it back.
pub proof fn lemma_be32_roundtrip(n: nat)
    requires
        n <= MAX_BODY_LEN,
    ensures
        be32(n).len() == 4,
        be32_value(be32(n)) == n,
{
}

/// The digits of a number written in base 256 are read back by division.
proof fn lemma_base256_digits(b0: int, b1: int, b2: int, b3: int)
    requires
        0 <= b0 < 0x100,
        0 <= b1 < 0x100,
        0 <= b2 < 0x100,
        0 <= b3 < 0x100,
    ensures
        ({
            let v = b0 * 0x100_0000 + b1 * 0x1_0000 + b2 * 0x100 + b3;
            &&& 0 <= v <= 0xffff_ffff
            &&& (v / 0x100_0000) % 0x100 == b0
            &&& (v / 0x1_0000) % 0x100 == b1
            &&& (v / 0x100) % 0x100 == b2
            &&& v % 0x100 == b3
        }),
{
    let v = b0 * 0x100_0000 + b1 * 0x1_0000 + b2 * 0x100 + b3;
    assert(v / 0x100 == b0 * 0x1_0000 + b1 * 0x100 + b2);
    assert(v / 0x1_0000 == b0 * 0x100 + b1);
    assert(v / 0x100_0000 == b0);
}

/// Four bytes spell a number that `be32` writes back as the same bytes.
pub proof fn lemma_be32_value_roundtrip(b: Seq<u8>)
    requires
        b.len() == 4,
    ensures
        be32_value(b) <= MAX_BODY_LEN,
        be32(be32_value(b)) == b,
{
    lemma_base256_digits(b[0] as int, b[1] as int, b[2] as int, b[3] as int);
    assert(be32(be32_value(b)) =~= b);
}

/// Appends the four big-endian bytes of `n` to `out`.
fn put_be32(out: &mut Vec<u8>, n: u32)
    ensures
        final(out)@ == old(out)@ + be32(n as nat),
{
    out.push(((n / 0x100_0000) % 0x100) as u8);
    out.push(((n / 0x1_0000) % 0x100) as u8);
    out.push(((n / 0x100) % 0x100) as u8);
    out.push((n % 0x100) as u8);
    assert(out@ =~= old(out)@ + be32(n as nat));
}

/// Reads the big-endian number at `at`.
fn read_be32(bytes: &[u8], at: usize) -> (n: u32)
    requires
        at + 4 <= bytes@.len(),
    ensures
        n == be32_value(bytes@.subrange(at as int, at + 4)),
{
    let b0: u32 = bytes[at] as u32;
    let b1: u32 = bytes[at + 1] as u32;
    let b2: u32 = bytes[at + 2] as u32;
    let b3: u32 = bytes[at + 3] as u32;
    b0 * 0x100_0000 + b1 * 0x1_0000 + b2 * 0x100 + b3
}

/// `String::from_utf8` of the standard library: the bytes become a string
/// exactly when they are valid UTF-8, and the string then holds the
/// characters that the bytes encode. Nothing of this is proved here.
#[verifier::external_body]
fn string_from_utf8(bytes: Vec<u8>) -> (r: Option<String>)
    ensures
        r is Some <==> valid_utf8(bytes@),
        r matches Some(s) ==> s@ == decode_utf8(bytes@),
{
    match String::from_utf8(bytes) {
        Ok(s) => Some(s),
        Err(_) => None,
    }
}

/// Appends a copy of `bytes` to `out`.
fn append_bytes(out: &mut Vec<u8>, bytes: &[u8])
    ensures
        final(out)@ == old(out)@ + bytes@,
{
    let mut i: usize = 0;
    while i < bytes.len()
        invariant
            i <= bytes@.len(),
            out@ == old(out)@ + bytes@.take(i as int),
        decreases bytes@.len() - i,
    {
        out.push(bytes[i]);
        assert(bytes@.take(i + 1) =~= bytes@.take(i as int).push(bytes@[i as int]));
        i = i + 1;
    }
    assert(bytes@.take(i as int) =~= bytes@);
}

/// A copy of the bytes from `from` up to `to`.
fn copy_range(bytes: &[u8], from: usize, to: usize) -> (out: Vec<u8>)
    requires
        from <= to <= bytes@.len(),
    ensures
        out@ == bytes@.subrange(from as int, to as int),
{
    let mut out: Vec<u8> = Vec::new();
    let mut i: usize = from;
    while i < to
        invariant
            from <= i <= to <= bytes@.len(),
            out@ == bytes@.subrange(from as int, i as int),
        decreases to - i,
    {
        out.push(bytes[i]);
        assert(bytes@.subrange(from as int, i + 1) =~= bytes@.subrange(from as int, i as int).push(
            bytes@[i as int],
        ));
        i = i + 1;
    }
    out
}

/// The body of two payloads in a row is the two bodies in a row.
pub proof fn lemma_body_bytes_concat(p: Seq<Seq<char>>, q: Seq<Seq<char>>)
    ensures
        body_bytes(p + q) == body_bytes(p) + body_bytes(q),
    decreases p.len(),
{
    if p.len() == 0 {
        assert(p + q =~= q);
        assert(body_bytes(p) + body_bytes(q) =~= body_bytes(q));
    } else {
        lemma_body_bytes_concat(p.drop_first(), q);
        assert((p + q).drop_first() =~= p.drop_first() + q);
        assert(body_bytes(p + q) =~= body_bytes(p) + body_bytes(q));
    }
}

/// Adding an entry at the end adds its bytes at the end of the body.
pub proof fn lemma_body_bytes_push(p: Seq<Seq<char>>, text: Seq<char>)
    ensures
        body_bytes(p.push(text)) == body_bytes(p) + text_bytes(text),
{
    let one = seq![text];
    assert(body_bytes(one) =~= text_bytes(text)) by {
        reveal_with_fuel(body_bytes, 2);
    }
    lemma_body_bytes_concat(p, one);
    assert(p.push(text) =~= p + one);
}

/// The body of the first `k` entries is no longer than the whole body.
pub proof fn lemma_body_bytes_prefix(p: Seq<Seq<char>>, k: int)
    requires
        0 <= k <= p.len(),
    ensures
        body_bytes(p.take(k)).len() <= body_bytes(p).len(),
{
    lemma_body_bytes_concat(p.take(k), p.skip(k));
    assert(p.take(k) + p.skip(k) =~= p);
}

/// A body that fits is read back as the payload it was made from.
pub proof fn lemma_body_roundtrip(p: Seq<Seq<char>>)
    requires
        body_bytes(p).len() <= MAX_BODY_LEN,
    ensures
        body_payload(body_bytes(p)) == Some(p),
    decreases p.len(),
{
    if p.len() > 0 {
        let rest = p.drop_first();
        let b = body_bytes(p);
        let utf8 = encode_utf8(p[0]);
        let end = 4 + utf8.len() as int;
        assert(b =~= be32(utf8.len()) + utf8 + body_bytes(rest));
        lemma_be32_roundtrip(utf8.len());
        assert(be32_value(b) == be32_value(be32(utf8.len())));
        assert(b.subrange(4, end) =~= utf8);
        assert(b.skip(end) =~= body_bytes(rest));
        vstd::utf8::encode_utf8_valid_utf8(p[0]);
        vstd::utf8::encode_utf8_decode_utf8(p[0]);
        lemma_body_roundtrip(rest);
        assert(seq![p[0]] + rest =~= p);
    }
}

/// Only the bytes that a payload is encoded to are read as that payload.
pub proof fn lemma_body_canonical(b: Seq<u8>)
    requires
        body_payload(b) is Some,
    ensures
        body_bytes(body_payload(b)->0) == b,
    decreases b.len(),
{
    if b.len() > 0 {
        let end = 4 + be32_value(b) as int;
        let chunk = b.subrange(4, end);
        let rest = body_payload(b.skip(end))->0;
        let p = body_payload(b)->0;
        lemma_body_canonical(b.skip(end));
        assert(p.drop_first() =~= rest);
        vstd::utf8::decode_utf8_encode_utf8(chunk);
        lemma_be32_value_roundtrip(b.subrange(0, 4));
        assert(be32_value(b.subrange(0, 4)) == be32_value(b));
        assert(body_bytes(p) =~= b.subrange(0, 4) + chunk + b.skip(end));
        assert(b.subrange(0, 4) + chunk + b.skip(end) =~= b);
    }
}

/// Every payload that fits in a frame survives the wire unchanged: the
/// frame it is encoded to is whole and is decoded to the same entries in the
/// same order.
pub proof fn lemma_frame_roundtrip(p: Seq<Seq<char>>, limit: u32)
    requires
        fits(p, limit),
    ensures
        frame_status_of(frame_bytes(p), limit) == FrameStatus::Complete,
        frame_payload(frame_bytes(p), limit) == Ok::<Seq<Seq<char>>, ListenerError>(p),
{
    let body = body_bytes(p);
    let f = frame_bytes(p);
    lemma_be32_roundtrip(body.len());
    assert(f.subrange(1, 5) =~= be32(body.len()));
    assert(f.skip(5) =~= body);
    lemma_body_roundtrip(p);
}

/// Decoding never invents a payload: bytes that are decoded to `p` are
/// exactly the frame of `p`.
pub proof fn lemma_frame_canonical(b: Seq<u8>, limit: u32)
    requires
        frame_payload(b, limit) is Ok,
    ensures
        fits(frame_payload(b, limit)->Ok_0, limit),
        frame_bytes(frame_payload(b, limit)->Ok_0) == b,
{
    let p = frame_payload(b, limit)->Ok_0;
    lemma_body_canonical(b.skip(5));
    lemma_be32_value_roundtrip(b.subrange(1, 5));
    assert(frame_bytes(p) =~= b);
}

/// A frame that was cut short anywhere is told apart from a whole one: the
/// receiver sees how many bytes are missing, and what it makes of the cut
/// frame is that the peer went away.
pub proof fn lemma_cut_frame_is_closed(p: Seq<Seq<char>>, limit: u32, k: int)
    requires
        fits(p, limit),
        0 <= k < frame_bytes(p).len(),
    ensures
        frame_status_of(frame_bytes(p).take(k), limit) == FrameStatus::NeedMore(
            (if k < 5 {
                5 - k
            } else {
                frame_bytes(p).len() - k
            }) as u64,
        ),
        frame_payload(frame_bytes(p).take(k), limit) == Err::<Seq<Seq<char>>, ListenerError>(
            ListenerError::Closed,
        ),
{
    let body = body_bytes(p);
    let f = frame_bytes(p);
    lemma_be32_roundtrip(body.len());
    if k >= 5 {
        assert(f.take(k).subrange(1, 5) =~= be32(body.len()));
    }
}

/// How far the bytes received so far are from a whole frame.
///
/// A reader calls this after every read, asks for `NeedMore` bytes at least,
/// and decodes once the frame is `Complete`. A frame that announces a body
/// of more than `limit` bytes is refused as soon as its header is there.
pub fn frame_status(bytes: &[u8], limit: u32) -> (s: FrameStatus)
    ensures
        s == frame_status_of(bytes@, limit),
{
    let len: usize = bytes.len();
    if len == 0 {
        return FrameStatus::NeedMore(5);
    }
    if bytes[0] != PROTOCOL_VERSION {
        return FrameStatus::Malformed;
    }
    if len < 5 {
        return FrameStatus::NeedMore((5 - len) as u64);
    }
    let announced: u64 = read_be32(bytes, 1) as u64;
    let whole: u64 = 5 + announced;
    let have: u64 = len as u64;
    proof {
        lemma_be32_value_roundtrip(bytes@.subrange(1, 5));
    }
    if announced > limit as u64 {
        FrameStatus::Malformed
    } else if have < whole {
        FrameStatus::NeedMore(whole - have)
    } else if have == whole {
        FrameStatus::Complete
    } else {
        FrameStatus::Malformed
    }
}

/// Encodes a payload as one frame. A payload whose body would be longer
/// than `limit` bytes is refused as `Oversized`.
pub fn encode_frame(payload: &Payload, limit: u32) -> (r: Result<Vec<u8>, ListenerError>)
    ensures
        match r {
            Ok(bytes) => fits(payload@, limit) && bytes@ == frame_bytes(payload@),
            Err(e) => !fits(payload@, limit) && e == ListenerError::Oversized,
        },
{
    let n: usize = payload.len();
    let most: u64 = limit as u64;
    let mut total: u64 = 0;
    let mut i: usize = 0;
    while i < n
        invariant
            n == payload@.len(),
            i <= n,
            total == body_bytes(payload@.take(i as int)).len(),
            total <= most,
            most == limit,
        decreases n - i,
    {
        let bytes = payload.get(i).as_str().as_bytes();
        let len: u64 = bytes.len() as u64;
        proof {
            lemma_body_bytes_push(payload@.take(i as int), payload@[i as int]);
            assert(payload@.take(i + 1) =~= payload@.take(i as int).push(payload@[i as int]));
            lemma_body_bytes_prefix(payload@, i + 1);
        }
        if len > most - total || most - total - len < 4 {
            return Err(ListenerError::Oversized);
        }
        total = total + 4 + len;
        i = i + 1;
    }
    assert(payload@.take(n as int) =~= payload@);
    let mut out: Vec<u8> = Vec::new();
    out.push(PROTOCOL_VERSION);
    put_be32(&mut out, total as u32);
    let mut j: usize = 0;
    assert(out@ =~= seq![PROTOCOL_VERSION] + be32(total as nat) + body_bytes(
        payload@.take(0),
    ));
    while j < n
        invariant
            n == payload@.len(),
            j <= n,
            body_bytes(payload@).len() <= MAX_BODY_LEN,
            out@ == seq![PROTOCOL_VERSION] + be32(total as nat) + body_bytes(
                payload@.take(j as int),
            ),
        decreases n - j,
    {
        let bytes = payload.get(j).as_str().as_bytes();
        proof {
            lemma_body_bytes_push(payload@.take(j as int), payload@[j as int]);
            assert(payload@.take(j + 1) =~= payload@.take(j as int).push(payload@[j as int]));
            lemma_body_bytes_prefix(payload@, j + 1);
        }
        let ghost before = out@;
        put_be32(&mut out, bytes.len() as u32);
        append_bytes(&mut out, bytes);
        assert(out@ =~= before + text_bytes(payload@[j as int]));
        assert(out@ =~= seq![PROTOCOL_VERSION] + be32(total as nat) + body_bytes(
            payload@.take(j + 1),
        ));
        j = j + 1;
    }
    assert(payload@.take(n as int) =~= payload@);
    Ok(out)
}

/// The entries read so far, in front of what the rest of the body spells.
pub open spec fn entries_then(done: Seq<Seq<char>>, rest: Option<Seq<Seq<char>>>) -> Option<
    Seq<Seq<char>>,
> {
    match rest {
        Some(more) => Some(done + more),
        None => None,
    }
}

/// Decodes everything a peer sent before it stopped.
///
/// The result is the payload exactly when the bytes are the frame of a
/// payload within the limit; bytes that stop short of the frame they
/// announce give `Closed`, all others `Malformed`.
pub fn decode_frame(bytes: &[u8], limit: u32) -> (r: Result<Payload, ListenerError>)
    ensures
        match r {
            Ok(p) => frame_payload(bytes@, limit) == Ok::<Seq<Seq<char>>, ListenerError>(p@),
            Err(e) => frame_payload(bytes@, limit) == Err::<Seq<Seq<char>>, ListenerError>(e),
        },
{
    match frame_status(bytes, limit) {
        FrameStatus::NeedMore(_) => {
            return Err(ListenerError::Closed);
        },
        FrameStatus::Malformed => {
            return Err(ListenerError::Malformed);
        },
        FrameStatus::Complete => {},
    }
    let len: usize = bytes.len();
    let mut payload = Payload::new();
    let mut pos: usize = 5;
    assert(entries_then(payload@, body_payload(bytes@.skip(5))) == body_payload(bytes@.skip(5)))
        by {
        let whole = body_payload(bytes@.skip(5));
        if whole is Some {
            assert(payload@ + whole->0 =~= whole->0);
        }
    }
    while pos < len
        invariant
            len == bytes@.len(),
            5 <= pos <= len,
            frame_status_of(bytes@, limit) == FrameStatus::Complete,
            body_payload(bytes@.skip(5)) == entries_then(
                payload@,
                body_payload(bytes@.skip(pos as int)),
            ),
        decreases len - pos,
    {
        let ghost tail = bytes@.skip(pos as int);
        if len - pos < 4 {
            return Err(ListenerError::Malformed);
        }
        let n: usize = read_be32(bytes, pos) as usize;
        assert(be32_value(bytes@.subrange(pos as int, pos + 4)) == be32_value(tail));
        if n > len - pos - 4 {
            return Err(ListenerError::Malformed);
        }
        let chunk = copy_range(bytes, pos + 4, pos + 4 + n);
        assert(chunk@ =~= tail.subrange(4, 4 + n));
        assert(tail.skip(4 + n) =~= bytes@.skip(pos + 4 + n));
        match string_from_utf8(chunk) {
            None => {
                return Err(ListenerError::Malformed);
            },
            Some(text) => {
                let ghost before = payload@;
                payload.push(text);
                proof {
                    let rest = body_payload(bytes@.skip(pos + 4 + n));
                    if rest is Some {
                        assert(before + (seq![text@] + rest->0) =~= payload@ + rest->0);
                    }
                }
            },
        }
        pos = pos + 4 + n;
    }
    assert(bytes@.skip(pos as int) =~= Seq::<u8>::empty());
    assert(payload@ + Seq::<Seq<char>>::empty() =~= payload@);
    Ok(payload)
}

/// What an owner tells a peer right after accepting its connection, as one
/// byte in front of anything else.
#[derive(Clone, Copy, Debug, PartialEq, Eq, Structural)]
pub enum Greeting {
    /// The owner is listening: send the frame.
    Admit,
    /// The owner is paused: nothing was consumed, come back later.
    RetryLater,
}

/// The byte that spells `Greeting::Admit`.
pub const GREETING_ADMIT: u8 = 0x41;

/// The byte that spells `Greeting::RetryLater`.
pub const GREETING_RETRY_LATER: u8 = 0x52;

impl Greeting {
    /// The byte that spells this greeting.
    pub open spec fn byte_of(self) -> u8 {
        match self {
            Greeting::Admit => GREETING_ADMIT,
            Greeting::RetryLater => GREETING_RETRY_LATER,
        }
    }

    /// The greeting that a byte spells, if any.
    pub open spec fn spelled_by(byte: u8) -> Option<Greeting> {
        if byte == GREETING_ADMIT {
            Some(Greeting::Admit)
        } else if byte == GREETING_RETRY_LATER {
            Some(Greeting::RetryLater)
        } else {
            None
        }
    }

    /// The byte to send for this greeting.
    pub fn to_byte(self) -> (byte: u8)
        ensures
            byte == self.byte_of(),
            Greeting::spelled_by(byte) == Some(self),
    {
        match self {
            Greeting::Admit => GREETING_ADMIT,
            Greeting::RetryLater => GREETING_RETRY_LATER,
        }
    }

    /// Reads a greeting; any byte but the two greetings is refused.
    pub fn from_byte(byte: u8) -> (g: Option<Greeting>)
        ensures
            g == Greeting::spelled_by(byte),
            g matches Some(greeting) ==> greeting.byte_of() == byte,
    {
        if byte == GREETING_ADMIT {
            Some(Greeting::Admit)
        } else if byte == GREETING_RETRY_LATER {
            Some(Greeting::RetryLater)
        } else {
            None
        }
    }
}

} // verus!
