//! Length-prefixed framing: every frame is a two-byte big-endian length
//! followed by that many payload bytes. A frame of length zero is a poke that
//! readers skip.

use vstd::prelude::*;
use vstd::slice::slice_to_vec;

verus! {

/// Largest payload that the two-byte length header can describe.
pub const MAX_FRAME_LEN: usize = 65535;

/// Number of bytes in a frame header.
pub const HEADER_LEN: usize = 2;

/// The length that a header made of bytes `hi` and `lo` declares.
pub open spec fn header_value(hi: u8, lo: u8) -> nat {
    hi as nat * 256 + lo as nat
}

/// The two header bytes for a payload of `len` bytes.
pub open spec fn header_bytes(len: nat) -> Seq<u8> {
    seq![(len / 256) as u8, (len % 256) as u8]
}

/// The frame that carries `payload`.
pub open spec fn frame_of(payload: Seq<u8>) -> Seq<u8> {
    header_bytes(payload.len()) + payload
}

/// The frame with no payload.
pub open spec fn poke() -> Seq<u8> {
    seq![0u8, 0u8]
}

/// The first non-empty frame at the start of `bytes`, skipping pokes: its
/// payload and the bytes after it, or `None` while no such frame is complete.
pub open spec fn next_frame(bytes: Seq<u8>) -> Option<(Seq<u8>, Seq<u8>)>
    decreases bytes.len(),
{
    if bytes.len() < 2 {
        None
    } else {
        let n = header_value(bytes[0], bytes[1]);
        if n == 0 {
            next_frame(bytes.skip(2))
        } else if bytes.len() < 2 + n {
            None
        } else {
            Some((bytes.subrange(2, 2 + n as int), bytes.skip(2 + n as int)))
        }
    }
}

/// `bytes` without the pokes at its front.
pub open spec fn skip_pokes(bytes: Seq<u8>) -> Seq<u8>
    decreases bytes.len(),
{
    if bytes.len() >= 2 && header_value(bytes[0], bytes[1]) == 0 {
        skip_pokes(bytes.skip(2))
    } else {
        bytes
    }
}

/// Dropping the pokes at the front of buffered bytes changes nothing that is
/// read from them, whatever arrives after them.
pub proof fn lemma_skip_pokes(bytes: Seq<u8>, more: Seq<u8>)
    ensures
        next_frame(skip_pokes(bytes) + more) == next_frame(bytes + more),
    decreases bytes.len(),
{
    if bytes.len() >= 2 && header_value(bytes[0], bytes[1]) == 0 {
        let all = bytes + more;
        assert(all[0] == bytes[0] && all[1] == bytes[1]);
        assert(all.skip(2) =~= bytes.skip(2) + more);
        lemma_skip_pokes(bytes.skip(2), more);
    }
}

/// The header of a frame declares the length of its payload.
pub proof fn lemma_header_value(len: nat)
    requires
        len <= MAX_FRAME_LEN,
    ensures
        header_value(header_bytes(len)[0], header_bytes(len)[1]) == len,
{
    assert(len / 256 < 256 && len % 256 < 256);
    assert(len == (len / 256) * 256 + len % 256);
}

/// Reading back a frame gives its payload, and the bytes that follow it stay
/// in place: decoding what was encoded returns it unchanged, for every
/// non-empty payload up to the largest length that the header can describe.
pub proof fn lemma_frame_round_trip(payload: Seq<u8>, rest: Seq<u8>)
    requires
        0 < payload.len() <= MAX_FRAME_LEN,
    ensures
        next_frame(frame_of(payload) + rest) == Some((payload, rest)),
{
    let bytes = frame_of(payload) + rest;
    lemma_header_value(payload.len());
    assert(bytes[0] == header_bytes(payload.len())[0]);
    assert(bytes[1] == header_bytes(payload.len())[1]);
    assert(bytes.subrange(2, 2 + payload.len() as int) =~= payload);
    assert(bytes.skip(2 + payload.len() as int) =~= rest);
}

/// A poke in front of any bytes is invisible to the reader: the next frame
/// read, and what stays behind it, are those of the bytes alone.
pub proof fn lemma_poke_transparent(bytes: Seq<u8>)
    ensures
        next_frame(poke() + bytes) == next_frame(bytes),
{
    assert((poke() + bytes).skip(2) =~= bytes);
}

/// Bytes that arrive after a frame is complete do not change that frame: it
/// is read the same, and the new bytes stay behind it.
pub proof fn lemma_next_frame_extend(held: Seq<u8>, more: Seq<u8>)
    requires
        next_frame(held) is Some,
    ensures
        next_frame(held + more) == Some(
            (next_frame(held)->Some_0.0, next_frame(held)->Some_0.1 + more),
        ),
    decreases held.len(),
{
    let all = held + more;
    assert(all[0] == held[0] && all[1] == held[1]);
    let n = header_value(held[0], held[1]);
    if n == 0 {
        assert(all.skip(2) =~= held.skip(2) + more);
        lemma_next_frame_extend(held.skip(2), more);
    } else {
        assert(all.subrange(2, 2 + n as int) =~= held.subrange(2, 2 + n as int));
        assert(all.skip(2 + n as int) =~= held.skip(2 + n as int) + more);
    }
}

/// Receiving may stop after any part of the incoming bytes has been buffered
/// and be started again later: until a frame is complete the reader keeps
/// every byte but the pokes in front, so the frame finally read from `held`,
/// then `first`, then `second` is the one read from all of them at once, and
/// a frame that was already complete after `first` is unchanged by `second`.
pub proof fn lemma_receive_cancel_safe(held: Seq<u8>, first: Seq<u8>, second: Seq<u8>)
    ensures
        next_frame((held + first) + second) == next_frame(held + (first + second)),
        next_frame(skip_pokes(held + first) + second) == next_frame(held + (first + second)),
        next_frame(held + first) is Some ==> next_frame((held + first) + second) == Some(
            (
                next_frame(held + first)->Some_0.0,
                next_frame(held + first)->Some_0.1 + second,
            ),
        ),
{
    assert((held + first) + second =~= held + (first + second));
    lemma_skip_pokes(held + first, second);
    if next_frame(held + first) is Some {
        lemma_next_frame_extend(held + first, second);
    }
}

/// Why a payload cannot be framed.
#[derive(Clone, Copy, Debug, PartialEq, Eq)]
pub enum FrameError {
    /// An empty payload would read as a poke.
    EmptyPayload,
    /// The payload is longer than the header can describe.
    TooLong,
}

/// Frames `payload`: its length as two big-endian bytes, then the payload.
pub fn encode_frame(payload: &[u8]) -> (r: Result<Vec<u8>, FrameError>)
    ensures
        payload@.len() == 0 ==> r == Err::<Vec<u8>, FrameError>(FrameError::EmptyPayload),
        payload@.len() > MAX_FRAME_LEN ==> r == Err::<Vec<u8>, FrameError>(FrameError::TooLong),
        0 < payload@.len() <= MAX_FRAME_LEN ==> r is Ok && r->Ok_0@ == frame_of(payload@),
{
    let len = payload.len();
    if len == 0 {
        return Err(FrameError::EmptyPayload);
    }
    if len > MAX_FRAME_LEN {
        return Err(FrameError::TooLong);
    }
    let mut out: Vec<u8> = Vec::with_capacity(HEADER_LEN + len);
    out.push((len / 256) as u8);
    out.push((len % 256) as u8);
    out.extend_from_slice(payload);
    assert(out@ =~= frame_of(payload@));
    Ok(out)
}

/// The poke frame: a header that declares no payload.
pub fn poke_frame() -> (r: Vec<u8>)
    ensures
        r@ == poke(),
{
    let mut out: Vec<u8> = Vec::with_capacity(HEADER_LEN);
    out.push(0);
    out.push(0);
    assert(out@ =~= poke());
    out
}


#[verifier::external_type_specification]
#[verifier::external_body]
pub struct ExBytesMut(bytes::BytesMut);

/// The bytes that a `BytesMut` holds.
pub uninterp spec fn buffered(b: bytes::BytesMut) -> Seq<u8>;

/// Relies on `BytesMut::new`: an empty buffer.
pub assume_specification[ bytes::BytesMut::new ]() -> (r: bytes::BytesMut)
    ensures
        buffered(r) == Seq::<u8>::empty(),
;

/// Relies on `BytesMut::len`: the number of bytes held.
pub assume_specification[ bytes::BytesMut::len ](b: &bytes::BytesMut) -> (r: usize)
    ensures
        r == buffered(*b).len(),
;

/// Relies on `BytesMut::extend_from_slice`: appends the slice. It reserves
/// room first, which panics when the new length overflows.
pub assume_specification[ bytes::BytesMut::extend_from_slice ](
    b: &mut bytes::BytesMut,
    extend: &[u8],
)
    requires
        buffered(*old(b)).len() + extend@.len() <= isize::MAX,
    ensures
        buffered(*final(b)) == buffered(*old(b)) + extend@,
;

/// Relies on `BytesMut::split_to`: returns the first `at` bytes and keeps the
/// rest. It panics when `at` exceeds the length.
pub assume_specification[ bytes::BytesMut::split_to ](b: &mut bytes::BytesMut, at: usize) -> (r:
    bytes::BytesMut)
    requires
        at <= buffered(*old(b)).len(),
    ensures
        buffered(r) == buffered(*old(b)).subrange(0, at as int),
        buffered(*final(b)) == buffered(*old(b)).skip(at as int),
;

/// Relies on `BytesMut`'s `Deref`: a view of the bytes held.
pub assume_specification[ <bytes::BytesMut as core::ops::Deref>::deref ](
    b: &bytes::BytesMut,
) -> (r: &[u8])
    ensures
        r@ == buffered(*b),
;

/// Accumulates bytes read from a stream and hands out the complete frames in
/// them. Bytes leave it only as part of a complete frame (a poke is one), so
/// a reader that stops waiting between two calls loses nothing.
pub struct MessageReader {
    buf: bytes::BytesMut,
}

impl View for MessageReader {
    type V = Seq<u8>;

    closed spec fn view(&self) -> Seq<u8> {
        buffered(self.buf)
    }
}

impl MessageReader {
    /// An empty reader.
    pub fn new() -> (r: MessageReader)
        ensures
            r@ == Seq::<u8>::empty(),
    {
        MessageReader { buf: bytes::BytesMut::new() }
    }

    /// Number of bytes held.
    pub fn len(&self) -> (r: usize)
        ensures
            r == self@.len(),
    {
        self.buf.len()
    }

    /// Appends bytes that arrived from the stream.
    pub fn receive(&mut self, data: &[u8])
        requires
            old(self)@.len() + data@.len() <= isize::MAX,
        ensures
            final(self)@ == old(self)@ + data@,
    {
        self.buf.extend_from_slice(data);
    }

    /// Takes the payload of the next complete non-empty frame, together with
    /// the pokes before it. While no such frame is complete only the pokes
    /// in front are taken.
    pub fn next_frame(&mut self) -> (r: Option<Vec<u8>>)
        ensures
            next_frame(old(self)@) is None ==> r is None && final(self)@ == skip_pokes(old(self)@),
            next_frame(old(self)@) is Some ==> r is Some && r->Some_0@ == next_frame(
                old(self)@,
            )->Some_0.0 && final(self)@ == next_frame(old(self)@)->Some_0.1,
    {
        let ghost start = old(self)@;
        let len = self.buf.len();
        let mut i: usize = 0;
        assert(start.skip(0) =~= start);
        while i < len
            invariant
                self@ == start,
                old(self)@ == start,
                len == start.len(),
                i <= len,
                next_frame(start) == next_frame(start.skip(i as int)),
                skip_pokes(start) == skip_pokes(start.skip(i as int)),
            decreases len - i,
        {
            assert(start.skip(i as int).len() == len - i);
            if len - i < HEADER_LEN {
                let _pokes = self.buf.split_to(i);
                return None;
            }
            let held: &[u8] = std::ops::Deref::deref(&self.buf);
            let hi = held[i];
            let lo = held[i + 1];
            let n: usize = hi as usize * 256 + lo as usize;
            proof {
                let s = start.skip(i as int);
                assert(s[0] == hi && s[1] == lo);
                assert(s.skip(2) =~= start.skip(i + 2));
            }
            if n == 0 {
                i = i + HEADER_LEN;
            } else if len - i - HEADER_LEN < n {
                let _pokes = self.buf.split_to(i);
                return None;
            } else {
                let _skipped = self.buf.split_to(i + HEADER_LEN);
                let frame = self.buf.split_to(n);
                let payload = slice_to_vec(std::ops::Deref::deref(&frame));
                proof {
                    let s = start.skip(i as int);
                    assert(payload@ =~= s.subrange(2, 2 + n as int));
                    assert(self@ =~= s.skip(2 + n as int));
                }
                return Some(payload);
            }
        }
        proof {
            assert(start.skip(i as int).len() == 0);
        }
        let _pokes = self.buf.split_to(i);
        None
    }
}

} // verus!
