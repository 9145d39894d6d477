use vstd::prelude::*;

verus! {

/// Largest payload whose length fits the 32-bit header.
pub const MAX_PAYLOAD_LEN: usize = 0xFFFF_FFFF;

/// The four big-endian bytes of a 32-bit length.
pub open spec fn be32_bytes(n: nat) -> Seq<u8> {
    seq![
        (n / 0x100_0000) as u8,
        ((n / 0x1_0000) % 0x100) as u8,
        ((n / 0x100) % 0x100) as u8,
        (n % 0x100) as u8,
    ]
}

/// The length that four big-endian header bytes encode.
pub open spec fn be32_value(h: Seq<u8>) -> nat
    recommends
        h.len() == 4,
{
    (h[0] as nat) * 0x100_0000 + (h[1] as nat) * 0x1_0000 + (h[2] as nat) * 0x100 + (h[3] as nat)
}

/// A frame on the wire: the payload's length as a 32-bit big-endian header, then the payload.
pub open spec fn framed(payload: Seq<u8>) -> Seq<u8> {
    be32_bytes(payload.len()) + payload
}

/// Why an inbound frame could not be unwrapped.
#[derive(Debug, Clone, Copy, PartialEq, Eq, Structural)]
pub enum FrameError {
    /// Fewer than the four header bytes.
    ShortFrame,
    /// The header disagrees with the number of bytes that follow it.
    LengthMismatch,
}

proof fn lemma_be32_value_of_bytes(n: nat)
    requires
        n <= 0xFFFF_FFFF,
    ensures
        be32_value(be32_bytes(n)) == n,
{
    let b0 = n / 0x100_0000;
    let b1 = (n / 0x1_0000) % 0x100;
    let b2 = (n / 0x100) % 0x100;
    let b3 = n % 0x100;
    assert(b0 < 0x100) by (nonlinear_arith)
        requires
            n <= 0xFFFF_FFFF,
            b0 == n / 0x100_0000,
    ;
    assert(b0 * 0x100_0000 + b1 * 0x1_0000 + b2 * 0x100 + b3 == n) by (nonlinear_arith)
        requires
            b0 == n / 0x100_0000,
            b1 == (n / 0x1_0000) % 0x100,
            b2 == (n / 0x100) % 0x100,
            b3 == n % 0x100,
    ;
    let h = be32_bytes(n);
    assert(h[0] as nat == b0);
    assert(h[1] as nat == b1);
    assert(h[2] as nat == b2);
    assert(h[3] as nat == b3);
}

/// Wraps a schema-encoded payload into a frame.
pub fn encode_frame(payload: &Vec<u8>) -> (r: Vec<u8>)
    requires
        payload@.len() <= MAX_PAYLOAD_LEN,
    ensures
        r@ == framed(payload@),
        r@.len() == payload@.len() + 4,
{
    let n: u64 = payload.len() as u64;
    let mut r: Vec<u8> = Vec::new();
    r.push((n / 0x100_0000) as u8);
    r.push(((n / 0x1_0000) % 0x100) as u8);
    r.push(((n / 0x100) % 0x100) as u8);
    r.push((n % 0x100) as u8);
    let mut i: usize = 0;
    while i < payload.len()
        invariant
            0 <= i <= payload@.len(),
            n == payload@.len(),
            r@ == be32_bytes(n as nat) + payload@.subrange(0, i as int),
        decreases payload@.len() - i,
    {
        r.push(payload[i]);
        assert(payload@.subrange(0, i + 1) == payload@.subrange(0, i as int).push(payload@[i as int]));
        i = i + 1;
    }
    assert(payload@.subrange(0, payload@.len() as int) == payload@);
    r
}

/// Unwraps an inbound frame into its payload, checking the length header.
pub fn decode_frame(frame: &Vec<u8>) -> (r: Result<Vec<u8>, FrameError>)
    ensures
        frame@.len() < 4 ==> r == Err::<Vec<u8>, FrameError>(FrameError::ShortFrame),
        frame@.len() >= 4 && be32_value(frame@.subrange(0, 4)) != frame@.len() - 4 ==> r == Err::<
            Vec<u8>,
            FrameError,
        >(FrameError::LengthMismatch),
        frame@.len() >= 4 && be32_value(frame@.subrange(0, 4)) == frame@.len() - 4 ==> r is Ok
            && r->Ok_0@ == frame@.subrange(4, frame@.len() as int),
{
    if frame.len() < 4 {
        return Err(FrameError::ShortFrame);
    }
    let n: u64 = (frame[0] as u64) * 0x100_0000 + (frame[1] as u64) * 0x1_0000 + (frame[2] as u64)
        * 0x100 + (frame[3] as u64);
    proof {
        let h = frame@.subrange(0, 4);
        assert(h[0] == frame@[0] && h[1] == frame@[1] && h[2] == frame@[2] && h[3] == frame@[3]);
    }
    if n != (frame.len() - 4) as u64 {
        return Err(FrameError::LengthMismatch);
    }
    let mut payload: Vec<u8> = Vec::with_capacity(frame.len() - 4);
    let mut i: usize = 4;
    while i < frame.len()
        invariant
            4 <= i <= frame@.len(),
            payload@ == frame@.subrange(4, i as int),
        decreases frame@.len() - i,
    {
        payload.push(frame[i]);
        assert(frame@.subrange(4, i + 1) == frame@.subrange(4, i as int).push(frame@[i as int]));
        i = i + 1;
    }
    Ok(payload)
}

/// Unwrapping a frame gives back the payload it was made from, and its header
/// holds the payload's length.
pub proof fn lemma_frame_round_trip(payload: Seq<u8>)
    requires
        payload.len() <= MAX_PAYLOAD_LEN,
    ensures
        framed(payload).len() == payload.len() + 4,
        be32_value(framed(payload).subrange(0, 4)) == payload.len(),
        framed(payload).subrange(4, framed(payload).len() as int) == payload,
{
    lemma_be32_value_of_bytes(payload.len());
    assert(framed(payload).subrange(0, 4) == be32_bytes(payload.len()));
    assert(framed(payload).subrange(4, framed(payload).len() as int) == payload);
}

} // verus!
