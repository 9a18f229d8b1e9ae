use vstd::prelude::*;

verus! {

/// Number of bytes in the little-endian length field that opens every envelope.
pub const HEADER_LEN: usize = 4;

/// Largest envelope a peer may announce unless the caller configures another bound.
pub const DEFAULT_MAX_ENVELOPE: u32 = 16777216;

/// Why a byte stream cannot yield an envelope.
#[derive(Clone, Copy, Debug, PartialEq, Eq, Structural)]
pub enum FrameError {
    /// The stream was closed before the announced envelope was complete.
    Truncated,
    /// The announced length cannot even hold the length field itself.
    Malformed,
    /// The announced length is above the configured maximum.
    SizeExceeded,
}

/// What decoding a buffered stream amounts to, without the bytes themselves.
#[derive(Clone, Copy, Debug, PartialEq, Eq, Structural)]
pub enum DecodeStatus {
    NotReady,
    Complete,
    Failed(FrameError),
}

/// The result of looking for one envelope at the front of a buffered stream.
#[derive(Debug)]
pub enum Decoded {
    /// More bytes are needed; nothing is wrong yet.
    NotReady,
    /// One whole envelope: its payload, and how many bytes of the stream it took.
    Complete { payload: Vec<u8>, consumed: usize },
    /// The connection can yield no further message.
    Failed { error: FrameError },
}

impl Decoded {
    pub open spec fn status(&self) -> DecodeStatus {
        match self {
            Decoded::NotReady => DecodeStatus::NotReady,
            Decoded::Complete { .. } => DecodeStatus::Complete,
            Decoded::Failed { error } => DecodeStatus::Failed(*error),
        }
    }
}

/// The little-endian value of four bytes.
pub open spec fn le_u32(b0: u8, b1: u8, b2: u8, b3: u8) -> int {
    b0 as int + 256 * (b1 as int) + 65536 * (b2 as int) + 16777216 * (b3 as int)
}

/// The four little-endian bytes of `n`.
pub open spec fn le_bytes(n: u32) -> Seq<u8> {
    seq![(n & 0xff) as u8, ((n >> 8u32) & 0xff) as u8, ((n >> 16u32) & 0xff) as u8, ((n >> 24u32) & 0xff) as u8]
}

/// The length that the first four bytes of a stream announce.
pub open spec fn declared_len(s: Seq<u8>) -> int
    recommends
        s.len() >= 4,
{
    le_u32(s[0], s[1], s[2], s[3])
}

/// The envelope that carries `payload`: its total length, header included, then the payload.
pub open spec fn envelope(payload: Seq<u8>) -> Seq<u8>
    recommends
        payload.len() + 4 <= u32::MAX,
{
    le_bytes((payload.len() + 4) as u32) + payload
}

/// How decoding the buffered bytes `s` ends, given the maximum envelope length and whether the
/// peer has closed the stream.
pub open spec fn decode_status(s: Seq<u8>, max_len: int, closed: bool) -> DecodeStatus {
    if s.len() < 4 {
        if closed { DecodeStatus::Failed(FrameError::Truncated) } else { DecodeStatus::NotReady }
    } else if declared_len(s) < 4 {
        DecodeStatus::Failed(FrameError::Malformed)
    } else if declared_len(s) > max_len {
        DecodeStatus::Failed(FrameError::SizeExceeded)
    } else if s.len() < declared_len(s) {
        if closed { DecodeStatus::Failed(FrameError::Truncated) } else { DecodeStatus::NotReady }
    } else {
        DecodeStatus::Complete
    }
}

/// The payload of the envelope at the front of `s`, when decoding completes.
pub open spec fn payload_of(s: Seq<u8>) -> Seq<u8> {
    s.subrange(4, declared_len(s))
}

/// Reads the little-endian `u32` stored in the first four bytes of `bytes`.
pub fn read_u32_le(bytes: &[u8]) -> (r: u32)
    requires
        bytes@.len() >= 4,
    ensures
        r as int == le_u32(bytes@[0], bytes@[1], bytes@[2], bytes@[3]),
{
    let b0 = bytes[0];
    let b1 = bytes[1];
    let b2 = bytes[2];
    let b3 = bytes[3];
    let r: u32 = b0 as u32 | (b1 as u32) << 8u32 | (b2 as u32) << 16u32 | (b3 as u32) << 24u32;
    assert((b0 as u32 | (b1 as u32) << 8u32 | (b2 as u32) << 16u32 | (b3 as u32) << 24u32) as int
        == b0 as int + 256 * (b1 as int) + 65536 * (b2 as int) + 16777216 * (b3 as int)) by (bit_vector);
    r
}

/// Four little-endian bytes read back give the number they were written from.
pub proof fn lemma_le_bytes_inverse(n: u32)
    ensures
        le_u32(le_bytes(n)[0], le_bytes(n)[1], le_bytes(n)[2], le_bytes(n)[3]) == n as int,
{
    assert(((n & 0xff) as u8) as int + 256 * (((n >> 8u32) & 0xff) as u8 as int) + 65536 * (((n >> 16u32)
        & 0xff) as u8 as int) + 16777216 * (((n >> 24u32) & 0xff) as u8 as int) == n as int)
        by (bit_vector);
}

/// Wraps `payload` in an envelope. Fails with `SizeExceeded` exactly when the total length
/// does not fit the `u32` length field.
pub fn encode_envelope(payload: &[u8]) -> (r: Result<Vec<u8>, FrameError>)
    ensures
        r is Ok <==> payload@.len() + 4 <= u32::MAX,
        r matches Ok(bytes) ==> bytes@ == envelope(payload@),
        r matches Err(e) ==> e == FrameError::SizeExceeded,
{
    if payload.len() > (u32::MAX - 4) as usize {
        return Err(FrameError::SizeExceeded);
    }
    let total: u32 = (payload.len() + 4) as u32;
    let mut bytes: Vec<u8> = Vec::with_capacity(payload.len() + 4);
    bytes.push((total & 0xff) as u8);
    bytes.push(((total >> 8u32) & 0xff) as u8);
    bytes.push(((total >> 16u32) & 0xff) as u8);
    bytes.push(((total >> 24u32) & 0xff) as u8);
    assert(bytes@ == le_bytes(total));
    let mut i: usize = 0;
    while i < payload.len()
        invariant
            0 <= i <= payload@.len(),
            bytes@ == le_bytes(total) + payload@.subrange(0, i as int),
        decreases payload@.len() - i,
    {
        bytes.push(payload[i]);
        assert(payload@.subrange(0, i + 1) == payload@.subrange(0, i as int).push(payload@[i as int]));
        i = i + 1;
    }
    assert(payload@.subrange(0, payload@.len() as int) == payload@);
    Ok(bytes)
}

/// Looks for one envelope at the front of the buffered bytes `stream`.
///
/// A header that announces less than the header itself is `Malformed`; one that announces
/// more than `max_len` is `SizeExceeded`, decided from the header alone, before anything of
/// that size is allocated. Missing bytes are `NotReady` while the peer may still send them,
/// and `Truncated` once it has closed the stream.
pub fn decode_envelope(stream: &[u8], max_len: u32, closed: bool) -> (r: Decoded)
    ensures
        r.status() == decode_status(stream@, max_len as int, closed),
        r matches Decoded::Complete { payload, consumed } ==> {
            &&& consumed as int == declared_len(stream@)
            &&& payload@ == payload_of(stream@)
        },
{
    if stream.len() < HEADER_LEN {
        if closed {
            return Decoded::Failed { error: FrameError::Truncated };
        }
        return Decoded::NotReady;
    }
    let declared = read_u32_le(stream);
    if declared < 4 {
        return Decoded::Failed { error: FrameError::Malformed };
    }
    if declared > max_len {
        return Decoded::Failed { error: FrameError::SizeExceeded };
    }
    let total = declared as usize;
    if stream.len() < total {
        if closed {
            return Decoded::Failed { error: FrameError::Truncated };
        }
        return Decoded::NotReady;
    }
    let mut payload: Vec<u8> = Vec::with_capacity(total - HEADER_LEN);
    let mut i: usize = HEADER_LEN;
    while i < total
        invariant
            4 <= i <= total,
            total as int == declared_len(stream@),
            total <= stream@.len(),
            payload@ == stream@.subrange(4, i as int),
        decreases total - i,
    {
        payload.push(stream[i]);
        assert(stream@.subrange(4, i + 1) == stream@.subrange(4, i as int).push(stream@[i as int]));
        i = i + 1;
    }
    Decoded::Complete { payload, consumed: total }
}

/// A whole envelope, followed by anything, decodes to the payload it was made from and takes
/// exactly its own bytes, provided its length is within the maximum.
pub proof fn lemma_envelope_round_trip(payload: Seq<u8>, rest: Seq<u8>, max_len: int, closed: bool)
    requires
        payload.len() + 4 <= max_len,
        max_len <= u32::MAX,
    ensures
        decode_status(envelope(payload) + rest, max_len, closed) == DecodeStatus::Complete,
        declared_len(envelope(payload) + rest) == payload.len() + 4,
        payload_of(envelope(payload) + rest) == payload,
{
    let n = (payload.len() + 4) as u32;
    let s = envelope(payload) + rest;
    lemma_le_bytes_inverse(n);
    assert(s[0] == le_bytes(n)[0] && s[1] == le_bytes(n)[1] && s[2] == le_bytes(n)[2] && s[3]
        == le_bytes(n)[3]);
    assert(declared_len(s) == n as int);
    assert(s.subrange(4, n as int) =~= payload);
}

/// Every strict prefix of an envelope whose length is within the maximum is `NotReady` while
/// the stream is open and `Truncated` once it is closed: never a payload, never another error.
pub proof fn lemma_truncated_prefix(payload: Seq<u8>, k: int, max_len: int, closed: bool)
    requires
        payload.len() + 4 <= max_len,
        max_len <= u32::MAX,
        0 <= k < payload.len() + 4,
    ensures
        decode_status(envelope(payload).take(k), max_len, closed) == (if closed {
            DecodeStatus::Failed(FrameError::Truncated)
        } else {
            DecodeStatus::NotReady
        }),
{
    let n = (payload.len() + 4) as u32;
    let s = envelope(payload).take(k);
    if k >= 4 {
        lemma_le_bytes_inverse(n);
        assert(s[0] == le_bytes(n)[0] && s[1] == le_bytes(n)[1] && s[2] == le_bytes(n)[2] && s[3]
            == le_bytes(n)[3]);
        assert(declared_len(s) == n as int);
    }
}

/// A header that announces more than the maximum is refused as soon as the header is there,
/// however few of the announced bytes have arrived.
pub proof fn lemma_size_bound(s: Seq<u8>, max_len: int, closed: bool)
    requires
        s.len() >= 4,
        declared_len(s) > max_len,
        max_len >= 4,
    ensures
        decode_status(s, max_len, closed) == DecodeStatus::Failed(FrameError::SizeExceeded),
{
}

} // verus!
