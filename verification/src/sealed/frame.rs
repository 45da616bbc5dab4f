//! The provider's frames: a header of fixed length, with a digest of the payload
//! that follows it.

use vstd::prelude::*;

use crate::bytes::{
    be16, be16_round, be32, be32_round, from_be16, from_be32, put, put_be16, put_be32, same_bytes,
    slice_of,
};
use crate::sealed::digest::{sha256, sha256_of};

verus! {

/// The protocol of ordinary requests.
pub const VERSION: u16 = 3;

/// The protocol of private requests.
pub const PRIVATE_VERSION: u16 = 4;

/// The length of a frame's header.
pub const HEADER_LENGTH: usize = 72;

/// The length of the longest frame.
pub const MAX_FRAME: usize = 1_048_576;

/// A frame that was read.
#[derive(Debug)]
pub struct WireFrame {
    pub kind: u16,
    pub nonce: Vec<u8>,
    pub attempt: Vec<u8>,
    pub payload: Vec<u8>,
}

/// The parts of a frame.
pub struct FrameView {
    pub kind: u16,
    pub nonce: Seq<u8>,
    pub attempt: Seq<u8>,
    pub payload: Seq<u8>,
}

impl View for WireFrame {
    type V = FrameView;

    open spec fn view(&self) -> FrameView {
        FrameView {
            kind: self.kind,
            nonce: self.nonce@,
            attempt: self.attempt@,
            payload: self.payload@,
        }
    }
}

/// The bytes of a frame.
pub open spec fn frame_bytes(version: u16, frame: FrameView) -> Seq<u8> {
    be16(version) + be16(frame.kind) + be32((72 + frame.payload.len()) as u32) + frame.nonce
        + frame.attempt + sha256_of(frame.payload) + frame.payload
}

/// The length of the payload that a header announces, or why the header is
/// refused.
pub open spec fn announced(header: Seq<u8>, version: u16) -> Result<nat, &'static str> {
    let total = from_be32(header.subrange(4, 8));
    if from_be16(header) != version {
        Err("unsupported provider protocol")
    } else if total < 72 || total > MAX_FRAME {
        Err("invalid provider frame length")
    } else {
        Ok((total - 72) as nat)
    }
}

/// Reads the length of the payload that a header announces.
pub fn announced_payload(header: &[u8], expected_version: u16) -> (r: Result<usize, &'static str>)
    requires
        header.len() == HEADER_LENGTH,
    ensures
        match r {
            Ok(length) => announced(header@, expected_version) == Ok::<nat, &'static str>(
                length as nat,
            ),
            Err(fault) => announced(header@, expected_version) == Err::<nat, &'static str>(fault),
        },
{
    let version: u16 = header[0] as u16 * 256 + header[1] as u16;
    if version != expected_version {
        return Err("unsupported provider protocol");
    }
    let total: usize = ((header[4] as usize * 256 + header[5] as usize) * 256 + header[6] as usize)
        * 256 + header[7] as usize;
    assert(header@.subrange(4, 8)[0] == header@[4]);
    assert(header@.subrange(4, 8)[1] == header@[5]);
    assert(header@.subrange(4, 8)[2] == header@[6]);
    assert(header@.subrange(4, 8)[3] == header@[7]);
    if total < HEADER_LENGTH || total > MAX_FRAME {
        return Err("invalid provider frame length");
    }
    Ok(total - HEADER_LENGTH)
}

/// The frame that a header and the payload after it hold.
pub open spec fn frame_in(header: Seq<u8>, payload: Seq<u8>) -> Result<FrameView, &'static str> {
    if sha256_of(payload) != header.subrange(40, 72) {
        Err("provider payload digest mismatch")
    } else {
        Ok(
            FrameView {
                kind: from_be16(header.subrange(2, 4)) as u16,
                nonce: header.subrange(8, 24),
                attempt: header.subrange(24, 40),
                payload,
            },
        )
    }
}

/// Takes in the payload that a header announced: its digest must be the one that
/// the header holds.
pub fn read_frame(header: &[u8], payload: Vec<u8>) -> (r: Result<WireFrame, &'static str>)
    requires
        header.len() == HEADER_LENGTH,
    ensures
        match r {
            Ok(frame) => frame_in(header@, payload@) == Ok::<FrameView, &'static str>(frame@),
            Err(fault) => frame_in(header@, payload@) == Err::<FrameView, &'static str>(fault),
        },
{
    let digest = sha256(payload.as_slice());
    let wanted = slice_of(header, 40, 72);
    if !same_bytes(digest.as_slice(), wanted.as_slice()) {
        return Err("provider payload digest mismatch");
    }
    let kind: u16 = header[2] as u16 * 256 + header[3] as u16;
    assert(header@.subrange(2, 4)[0] == header@[2]);
    assert(header@.subrange(2, 4)[1] == header@[3]);
    Ok(
        WireFrame {
            kind,
            nonce: slice_of(header, 8, 24),
            attempt: slice_of(header, 24, 40),
            payload,
        },
    )
}

proof fn lemma_round_trip(version: u16, frame: FrameView, bytes: Seq<u8>)
    requires
        frame.nonce.len() == 16,
        frame.attempt.len() == 16,
        sha256_of(frame.payload).len() == 32,
        72 + frame.payload.len() <= MAX_FRAME,
        bytes == frame_bytes(version, frame),
    ensures
        announced(bytes.take(72), version) == Ok::<nat, &'static str>(frame.payload.len()),
        bytes.skip(72) == frame.payload,
        frame_in(bytes.take(72), bytes.skip(72)) == Ok::<FrameView, &'static str>(frame),
        forall|other: u16|
            other != version ==> #[trigger] announced(bytes.take(72), other) == Err::<
                nat,
                &'static str,
            >("unsupported provider protocol"),
{
    let header = bytes.take(72);
    let total = (72 + frame.payload.len()) as u32;
    be16_round(version);
    be16_round(frame.kind);
    be32_round(total);
    assert(header[0] == be16(version)[0]);
    assert(header[1] == be16(version)[1]);
    assert(header.subrange(2, 4) =~= be16(frame.kind));
    assert(header.subrange(4, 8) =~= be32(total));
    assert(header.subrange(8, 24) =~= frame.nonce);
    assert(header.subrange(24, 40) =~= frame.attempt);
    assert(header.subrange(40, 72) =~= sha256_of(frame.payload));
    assert(bytes.skip(72) =~= frame.payload);
}

/// Whether some bytes are a frame that a reader of the same protocol takes apart
/// into what was written, and that a reader of another protocol refuses.
pub open spec fn is_frame(bytes: Seq<u8>, version: u16, frame: FrameView) -> bool {
    &&& bytes == frame_bytes(version, frame)
    &&& bytes.len() == 72 + frame.payload.len()
    &&& announced(bytes.take(72), version) == Ok::<nat, &'static str>(frame.payload.len())
    &&& bytes.skip(72) == frame.payload
    &&& frame_in(bytes.take(72), bytes.skip(72)) == Ok::<FrameView, &'static str>(frame)
    &&& forall|other: u16|
        other != version ==> #[trigger] announced(bytes.take(72), other) == Err::<
            nat,
            &'static str,
        >("unsupported provider protocol")
}

/// A refusal to write a frame that would be too long.
#[derive(Clone, Copy, Debug, PartialEq, Eq, Structural)]
pub enum FrameFault {
    Overflow,
    TooLong,
}

/// Why a payload of this length cannot be framed.
pub open spec fn frame_fault(length: nat) -> Option<FrameFault> {
    if 72 + length > usize::MAX {
        Some(FrameFault::Overflow)
    } else if 72 + length > MAX_FRAME {
        Some(FrameFault::TooLong)
    } else {
        None
    }
}

fn frame(version: u16, kind: u16, nonce: &[u8], attempt: &[u8], payload: &[u8]) -> (r: Result<
    Vec<u8>,
    FrameFault,
>)
    requires
        nonce.len() == 16,
        attempt.len() == 16,
    ensures
        match r {
            Ok(bytes) => frame_fault(payload@.len()) is None && is_frame(
                bytes@,
                version,
                FrameView { kind, nonce: nonce@, attempt: attempt@, payload: payload@ },
            ),
            Err(fault) => frame_fault(payload@.len()) == Some(fault),
        },
{
    let total = match HEADER_LENGTH.checked_add(payload.len()) {
        Some(total) => total,
        None => {
            return Err(FrameFault::Overflow);
        },
    };
    if total > MAX_FRAME {
        return Err(FrameFault::TooLong);
    }
    let mut bytes: Vec<u8> = Vec::new();
    put_be16(&mut bytes, version);
    put_be16(&mut bytes, kind);
    put_be32(&mut bytes, total as u32);
    put(&mut bytes, nonce);
    put(&mut bytes, attempt);
    let digest = sha256(payload);
    put(&mut bytes, digest.as_slice());
    put(&mut bytes, payload);
    proof {
        let whole = FrameView { kind, nonce: nonce@, attempt: attempt@, payload: payload@ };
        assert(bytes@ =~= frame_bytes(version, whole));
        lemma_round_trip(version, whole, bytes@);
    }
    Ok(bytes)
}

/// Writes a frame of the given protocol; one that is too long is refused. What
/// was written is read back as the same frame by a reader of that protocol, and
/// refused by a reader of any other.
pub fn encoded_frame_for_version(
    version: u16,
    kind: u16,
    nonce: &[u8],
    attempt: &[u8],
    payload: &[u8],
) -> (r: Result<Vec<u8>, &'static str>)
    requires
        nonce.len() == 16,
        attempt.len() == 16,
    ensures
        match r {
            Ok(bytes) => frame_fault(payload@.len()) is None && is_frame(
                bytes@,
                version,
                FrameView { kind, nonce: nonce@, attempt: attempt@, payload: payload@ },
            ),
            Err(text) => frame_fault(payload@.len()) matches Some(fault) && text == match fault {
                FrameFault::Overflow => "frame overflow",
                FrameFault::TooLong => "frame exceeds protocol limit",
            },
        },
{
    match frame(version, kind, nonce, attempt, payload) {
        Ok(bytes) => Ok(bytes),
        Err(FrameFault::Overflow) => Err("frame overflow"),
        Err(FrameFault::TooLong) => Err("frame exceeds protocol limit"),
    }
}

/// Writes a frame of the ordinary protocol.
pub fn encoded_frame(kind: u16, nonce: &[u8], attempt: &[u8], payload: &[u8]) -> (r: Result<
    Vec<u8>,
    &'static str,
>)
    requires
        nonce.len() == 16,
        attempt.len() == 16,
    ensures
        match r {
            Ok(bytes) => frame_fault(payload@.len()) is None && is_frame(
                bytes@,
                VERSION,
                FrameView { kind, nonce: nonce@, attempt: attempt@, payload: payload@ },
            ),
            Err(text) => frame_fault(payload@.len()) matches Some(fault) && text == match fault {
                FrameFault::Overflow => "frame overflow",
                FrameFault::TooLong => "frame exceeds protocol limit",
            },
        },
{
    encoded_frame_for_version(VERSION, kind, nonce, attempt, payload)
}

/// The bytes that go out for a request of the ordinary protocol that carries no
/// descriptors.
pub fn write_frame(kind: u16, nonce: &[u8], attempt: &[u8], payload: &[u8]) -> (r: Result<
    Vec<u8>,
    &'static str,
>)
    requires
        nonce.len() == 16,
        attempt.len() == 16,
    ensures
        match r {
            Ok(bytes) => frame_fault(payload@.len()) is None && is_frame(
                bytes@,
                VERSION,
                FrameView { kind, nonce: nonce@, attempt: attempt@, payload: payload@ },
            ),
            Err(text) => frame_fault(payload@.len()) matches Some(fault) && text == match fault {
                FrameFault::Overflow => "frame length overflow",
                FrameFault::TooLong => "frame too large",
            },
        },
{
    match frame(VERSION, kind, nonce, attempt, payload) {
        Ok(bytes) => Ok(bytes),
        Err(FrameFault::Overflow) => Err("frame length overflow"),
        Err(FrameFault::TooLong) => Err("frame too large"),
    }
}

/// A reader that gets a frame first and anything after it takes exactly the frame: the
/// header announces its payload, and what is read is what was written. A reader of
/// another protocol refuses it.
pub proof fn frames_come_first(
    bytes: Seq<u8>,
    version: u16,
    frame: FrameView,
    rest: Seq<u8>,
    other: u16,
)
    requires
        is_frame(bytes, version, frame),
    ensures
        ({
            let stream = bytes + rest;
            &&& announced(stream.take(72), version) == Ok::<nat, &'static str>(frame.payload.len())
            &&& frame_in(
                stream.take(72),
                stream.subrange(72, 72 + frame.payload.len() as int),
            ) == Ok::<FrameView, &'static str>(frame)
            &&& stream.skip(72 + frame.payload.len() as int) == rest
            &&& other != version ==> announced(stream.take(72), other) is Err
        }),
{
    let stream = bytes + rest;
    assert(stream.take(72) =~= bytes.take(72));
    assert(stream.subrange(72, 72 + frame.payload.len() as int) =~= bytes.skip(72));
    assert(stream.skip(72 + frame.payload.len() as int) =~= rest);
}

/// A payload with another digest than the one that was framed is refused; so any change
/// of a payload shows that changes its digest.
pub proof fn other_payloads_are_refused(
    bytes: Seq<u8>,
    version: u16,
    frame: FrameView,
    payload: Seq<u8>,
)
    requires
        is_frame(bytes, version, frame),
        sha256_of(payload) != sha256_of(frame.payload),
    ensures
        frame_in(bytes.take(72), payload) == Err::<FrameView, &'static str>(
            "provider payload digest mismatch",
        ),
{
}

/// A payload is framed exactly where the whole frame is within the bound.
pub proof fn long_payloads_are_not_framed(length: nat)
    ensures
        frame_fault(length) is None <==> 72 + length <= MAX_FRAME,
{
}

} // verus!
