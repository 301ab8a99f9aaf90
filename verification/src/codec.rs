//! The wire protocol: a debug entity as a length-framed, tagged byte
//! message.
//!
//! A message on the wire is a 4-byte big-endian length prefix followed by
//! the payload. A payload is: one tag byte selecting the entity kind
//! (bounding box), one marker byte for the optional identity (`0` absent,
//! `1` present, followed by the 8-byte big-endian id), then the six
//! coordinate components as 4-byte big-endian words. A producer normally
//! sends no identity — the receiving registry assigns one — and an identity
//! that does arrive is advisory only. The visual handle never travels.

use vstd::prelude::*;

use crate::entity::{DebugEntity, ParryDebugEntityType, Vec3Bits};

verus! {

/// The tag byte of a bounding-box payload.
pub const AABB_TAG: u8 = 0;

/// The id marker byte that says "no identity follows".
pub const ID_ABSENT: u8 = 0;

/// The id marker byte that says "an 8-byte identity follows".
pub const ID_PRESENT: u8 = 1;

/// Why a payload was rejected.
#[derive(Clone, Copy, PartialEq, Eq, Debug)]
pub enum DecodeError {
    /// The payload ends before the encoding is complete.
    Truncated,
    /// The tag byte names no known entity kind.
    UnknownTag,
    /// The id marker byte is neither "absent" nor "present".
    BadIdMarker,
    /// Bytes follow a complete encoding.
    TrailingBytes,
}

pub open spec fn u32_be_bytes(v: u32) -> Seq<u8> {
    seq![(v >> 24) as u8, (v >> 16) as u8, (v >> 8) as u8, v as u8]
}

pub open spec fn u64_be_bytes(v: u64) -> Seq<u8> {
    seq![
        (v >> 56) as u8,
        (v >> 48) as u8,
        (v >> 40) as u8,
        (v >> 32) as u8,
        (v >> 24) as u8,
        (v >> 16) as u8,
        (v >> 8) as u8,
        v as u8,
    ]
}

pub open spec fn u32_from_be(b0: u8, b1: u8, b2: u8, b3: u8) -> u32 {
    ((b0 as u32) << 24) | ((b1 as u32) << 16) | ((b2 as u32) << 8) | (b3 as u32)
}

pub open spec fn u64_from_be(
    b0: u8,
    b1: u8,
    b2: u8,
    b3: u8,
    b4: u8,
    b5: u8,
    b6: u8,
    b7: u8,
) -> u64 {
    ((b0 as u64) << 56) | ((b1 as u64) << 48) | ((b2 as u64) << 40) | ((b3 as u64) << 32) | (
    (b4 as u64) << 24) | ((b5 as u64) << 16) | ((b6 as u64) << 8) | (b7 as u64)
}

pub open spec fn id_bytes(id: Option<u64>) -> Seq<u8> {
    match id {
        None => seq![ID_ABSENT],
        Some(v) => seq![ID_PRESENT] + u64_be_bytes(v),
    }
}

pub open spec fn kind_bytes(k: ParryDebugEntityType) -> Seq<u8> {
    match k {
        ParryDebugEntityType::Aabb { mins, maxs } => u32_be_bytes(mins.x) + u32_be_bytes(mins.y)
            + u32_be_bytes(mins.z) + u32_be_bytes(maxs.x) + u32_be_bytes(maxs.y) + u32_be_bytes(
            maxs.z,
        ),
    }
}

/// The payload encoding of an entity: tag, optional id, coordinates.
pub open spec fn encode_spec(e: DebugEntity) -> Seq<u8> {
    seq![AABB_TAG] + id_bytes(e.id) + kind_bytes(e.entity_type)
}

/// The bounding box starting at `off`, which must leave exactly the 24
/// coordinate bytes.
pub open spec fn decode_box_spec(bytes: Seq<u8>, id: Option<u64>, off: int) -> Result<
    DebugEntity,
    DecodeError,
> {
    if bytes.len() < off + 24 {
        Err(DecodeError::Truncated)
    } else if bytes.len() > off + 24 {
        Err(DecodeError::TrailingBytes)
    } else {
        Ok(
            DebugEntity {
                id,
                entity_type: ParryDebugEntityType::Aabb {
                    mins: Vec3Bits {
                        x: u32_from_be(bytes[off], bytes[off + 1], bytes[off + 2], bytes[off + 3]),
                        y: u32_from_be(
                            bytes[off + 4],
                            bytes[off + 5],
                            bytes[off + 6],
                            bytes[off + 7],
                        ),
                        z: u32_from_be(
                            bytes[off + 8],
                            bytes[off + 9],
                            bytes[off + 10],
                            bytes[off + 11],
                        ),
                    },
                    maxs: Vec3Bits {
                        x: u32_from_be(
                            bytes[off + 12],
                            bytes[off + 13],
                            bytes[off + 14],
                            bytes[off + 15],
                        ),
                        y: u32_from_be(
                            bytes[off + 16],
                            bytes[off + 17],
                            bytes[off + 18],
                            bytes[off + 19],
                        ),
                        z: u32_from_be(
                            bytes[off + 20],
                            bytes[off + 21],
                            bytes[off + 22],
                            bytes[off + 23],
                        ),
                    },
                },
                visual_handle: None,
            },
        )
    }
}

/// What decoding a payload yields: the entity, with no visual handle, or
/// the exact error. Decoding is total and deterministic.
pub open spec fn decode_spec(bytes: Seq<u8>) -> Result<DebugEntity, DecodeError> {
    if bytes.len() < 1 {
        Err(DecodeError::Truncated)
    } else if bytes[0] != AABB_TAG {
        Err(DecodeError::UnknownTag)
    } else if bytes.len() < 2 {
        Err(DecodeError::Truncated)
    } else if bytes[1] == ID_ABSENT {
        decode_box_spec(bytes, None, 2)
    } else if bytes[1] == ID_PRESENT {
        if bytes.len() < 10 {
            Err(DecodeError::Truncated)
        } else {
            decode_box_spec(
                bytes,
                Some(
                    u64_from_be(
                        bytes[2],
                        bytes[3],
                        bytes[4],
                        bytes[5],
                        bytes[6],
                        bytes[7],
                        bytes[8],
                        bytes[9],
                    ),
                ),
                10,
            )
        }
    } else {
        Err(DecodeError::BadIdMarker)
    }
}

/// A framed message: 4-byte big-endian payload length, then the payload.
pub open spec fn frame_spec(payload: Seq<u8>) -> Seq<u8> {
    u32_be_bytes(payload.len() as u32) + payload
}

/// What taking one frame off the front of `buf` yields: the payload and the
/// number of bytes consumed, or nothing if the buffer is still incomplete.
pub open spec fn deframe_spec(buf: Seq<u8>) -> Option<(Seq<u8>, int)> {
    if buf.len() < 4 {
        None
    } else {
        let n = u32_from_be(buf[0], buf[1], buf[2], buf[3]) as int;
        if buf.len() < 4 + n {
            None
        } else {
            Some((buf.subrange(4, 4 + n), 4 + n))
        }
    }
}

fn push_u32_be(out: &mut Vec<u8>, v: u32)
    ensures
        final(out)@ == old(out)@ + u32_be_bytes(v),
{
    out.push((v >> 24) as u8);
    out.push((v >> 16) as u8);
    out.push((v >> 8) as u8);
    out.push(v as u8);
    proof {
        assert(out@ =~= old(out)@ + u32_be_bytes(v));
    }
}

fn push_u64_be(out: &mut Vec<u8>, v: u64)
    ensures
        final(out)@ == old(out)@ + u64_be_bytes(v),
{
    out.push((v >> 56) as u8);
    out.push((v >> 48) as u8);
    out.push((v >> 40) as u8);
    out.push((v >> 32) as u8);
    out.push((v >> 24) as u8);
    out.push((v >> 16) as u8);
    out.push((v >> 8) as u8);
    out.push(v as u8);
    proof {
        assert(out@ =~= old(out)@ + u64_be_bytes(v));
    }
}

fn read_u32_be(bytes: &Vec<u8>, off: usize) -> (r: u32)
    requires
        off + 4 <= bytes@.len(),
    ensures
        r == u32_from_be(
            bytes@[off as int],
            bytes@[off as int + 1],
            bytes@[off as int + 2],
            bytes@[off as int + 3],
        ),
{
    let n: usize = bytes.len();
    proof {
        assert(off + 4 <= n);
    }
    ((bytes[off] as u32) << 24) | ((bytes[off + 1] as u32) << 16) | ((bytes[off + 2] as u32) << 8)
        | (bytes[off + 3] as u32)
}

fn read_u64_be(bytes: &Vec<u8>, off: usize) -> (r: u64)
    requires
        off + 8 <= bytes@.len(),
    ensures
        r == u64_from_be(
            bytes@[off as int],
            bytes@[off as int + 1],
            bytes@[off as int + 2],
            bytes@[off as int + 3],
            bytes@[off as int + 4],
            bytes@[off as int + 5],
            bytes@[off as int + 6],
            bytes@[off as int + 7],
        ),
{
    let n: usize = bytes.len();
    proof {
        assert(off + 8 <= n);
    }
    ((bytes[off] as u64) << 56) | ((bytes[off + 1] as u64) << 48) | ((bytes[off + 2] as u64) << 40)
        | ((bytes[off + 3] as u64) << 32) | ((bytes[off + 4] as u64) << 24) | ((bytes[off + 5]
        as u64) << 16) | ((bytes[off + 6] as u64) << 8) | (bytes[off + 7] as u64)
}

/// Encode an entity into a payload (unframed).
pub fn encode_entity(e: &DebugEntity) -> (out: Vec<u8>)
    ensures
        out@ == encode_spec(*e),
{
    let mut out: Vec<u8> = Vec::new();
    out.push(AABB_TAG);
    match e.id {
        None => out.push(ID_ABSENT),
        Some(v) => {
            out.push(ID_PRESENT);
            push_u64_be(&mut out, v);
        },
    }
    match e.entity_type {
        ParryDebugEntityType::Aabb { mins, maxs } => {
            push_u32_be(&mut out, mins.x);
            push_u32_be(&mut out, mins.y);
            push_u32_be(&mut out, mins.z);
            push_u32_be(&mut out, maxs.x);
            push_u32_be(&mut out, maxs.y);
            push_u32_be(&mut out, maxs.z);
        },
    }
    proof {
        assert(out@ =~= encode_spec(*e));
    }
    out
}

/// Decode a payload (unframed) into an entity.
pub fn decode_entity(bytes: &Vec<u8>) -> (r: Result<DebugEntity, DecodeError>)
    ensures
        r == decode_spec(bytes@),
{
    let n = bytes.len();
    if n < 1 {
        return Err(DecodeError::Truncated);
    }
    if bytes[0] != AABB_TAG {
        return Err(DecodeError::UnknownTag);
    }
    if n < 2 {
        return Err(DecodeError::Truncated);
    }
    let marker = bytes[1];
    if marker == ID_ABSENT {
        decode_box(bytes, None, 2)
    } else if marker == ID_PRESENT {
        if n < 10 {
            return Err(DecodeError::Truncated);
        }
        let id = read_u64_be(bytes, 2);
        decode_box(bytes, Some(id), 10)
    } else {
        Err(DecodeError::BadIdMarker)
    }
}

fn decode_box(bytes: &Vec<u8>, id: Option<u64>, off: usize) -> (r: Result<DebugEntity, DecodeError>)
    requires
        off <= bytes@.len(),
        off <= 10,
    ensures
        r == decode_box_spec(bytes@, id, off as int),
{
    let n = bytes.len();
    if n - off < 24 {
        return Err(DecodeError::Truncated);
    }
    if n - off > 24 {
        return Err(DecodeError::TrailingBytes);
    }
    let mins = Vec3Bits {
        x: read_u32_be(bytes, off),
        y: read_u32_be(bytes, off + 4),
        z: read_u32_be(bytes, off + 8),
    };
    let maxs = Vec3Bits {
        x: read_u32_be(bytes, off + 12),
        y: read_u32_be(bytes, off + 16),
        z: read_u32_be(bytes, off + 20),
    };
    Ok(
        DebugEntity {
            id,
            entity_type: ParryDebugEntityType::Aabb { mins, maxs },
            visual_handle: None,
        },
    )
}

/// Frame a payload: 4-byte big-endian length prefix, then the payload.
pub fn frame_message(payload: &Vec<u8>) -> (out: Vec<u8>)
    requires
        payload@.len() <= u32::MAX,
    ensures
        out@ == frame_spec(payload@),
{
    let mut out: Vec<u8> = Vec::new();
    let n = payload.len();
    push_u32_be(&mut out, n as u32);
    let mut i: usize = 0;
    while i < n
        invariant
            i <= n,
            n == payload@.len(),
            out@ == u32_be_bytes(n as u32) + payload@.take(i as int),
        decreases n - i,
    {
        out.push(payload[i]);
        proof {
            assert(out@ =~= u32_be_bytes(n as u32) + payload@.take(i + 1));
        }
        i = i + 1;
    }
    proof {
        assert(payload@.take(n as int) =~= payload@);
    }
    out
}

/// Take one frame off the front of `buf`: the payload and the number of
/// bytes consumed, or absent while the buffer holds no complete frame yet.
pub fn deframe_message(buf: &Vec<u8>) -> (r: Option<(Vec<u8>, usize)>)
    ensures
        match r {
            Some(pair) => ({
                let inner = deframe_spec(buf@)->0;
                &&& deframe_spec(buf@) is Some
                &&& pair.0@ == inner.0
                &&& pair.1 as int == inner.1
            }),
            None => deframe_spec(buf@) is None,
        },
{
    let total = buf.len();
    if total < 4 {
        return None;
    }
    let n32 = read_u32_be(buf, 0);
    if (n32 as u64) > (total as u64) - 4 {
        return None;
    }
    let n = n32 as usize;
    let mut payload: Vec<u8> = Vec::new();
    let mut i: usize = 0;
    while i < n
        invariant
            i <= n,
            n + 4 <= buf@.len(),
            buf@.len() <= usize::MAX,
            payload@ == buf@.subrange(4, 4 + i as int),
        decreases n - i,
    {
        payload.push(buf[4 + i]);
        proof {
            assert(payload@ =~= buf@.subrange(4, 4 + (i + 1)));
        }
        i = i + 1;
    }
    Some((payload, 4 + n))
}

proof fn lemma_u32_be_rebuild(b0: u8, b1: u8, b2: u8, b3: u8)
    ensures
        (u32_from_be(b0, b1, b2, b3) >> 24) as u8 == b0,
        (u32_from_be(b0, b1, b2, b3) >> 16) as u8 == b1,
        (u32_from_be(b0, b1, b2, b3) >> 8) as u8 == b2,
        u32_from_be(b0, b1, b2, b3) as u8 == b3,
{
    assert(((((b0 as u32) << 24) | ((b1 as u32) << 16) | ((b2 as u32) << 8) | (b3 as u32)) >> 24)
        as u8 == b0 && ((((b0 as u32) << 24) | ((b1 as u32) << 16) | ((b2 as u32) << 8) | (
    b3 as u32)) >> 16) as u8 == b1 && ((((b0 as u32) << 24) | ((b1 as u32) << 16) | ((b2 as u32)
        << 8) | (b3 as u32)) >> 8) as u8 == b2 && (((b0 as u32) << 24) | ((b1 as u32) << 16) | ((
    b2 as u32) << 8) | (b3 as u32)) as u8 == b3) by (bit_vector);
}

proof fn lemma_u64_be_rebuild(b0: u8, b1: u8, b2: u8, b3: u8, b4: u8, b5: u8, b6: u8, b7: u8)
    ensures
        (u64_from_be(b0, b1, b2, b3, b4, b5, b6, b7) >> 56) as u8 == b0,
        (u64_from_be(b0, b1, b2, b3, b4, b5, b6, b7) >> 48) as u8 == b1,
        (u64_from_be(b0, b1, b2, b3, b4, b5, b6, b7) >> 40) as u8 == b2,
        (u64_from_be(b0, b1, b2, b3, b4, b5, b6, b7) >> 32) as u8 == b3,
        (u64_from_be(b0, b1, b2, b3, b4, b5, b6, b7) >> 24) as u8 == b4,
        (u64_from_be(b0, b1, b2, b3, b4, b5, b6, b7) >> 16) as u8 == b5,
        (u64_from_be(b0, b1, b2, b3, b4, b5, b6, b7) >> 8) as u8 == b6,
        u64_from_be(b0, b1, b2, b3, b4, b5, b6, b7) as u8 == b7,
{
    assert(((((b0 as u64) << 56) | ((b1 as u64) << 48) | ((b2 as u64) << 40) | ((b3 as u64) << 32) | ((b4 as u64) << 24) | ((b5 as u64) << 16) | ((b6 as u64) << 8) | (b7 as u64)) >> 56) as u8 == b0 && ((((b0 as u64) << 56) | ((b1 as u64) << 48) | ((b2 as u64) << 40) | ((b3 as u64) << 32) | ((b4 as u64) << 24) | ((b5 as u64) << 16) | ((b6 as u64) << 8) | (b7 as u64)) >> 48) as u8 == b1 && ((((b0 as u64) << 56) | ((b1 as u64) << 48) | ((b2 as u64) << 40) | ((b3 as u64) << 32) | ((b4 as u64) << 24) | ((b5 as u64) << 16) | ((b6 as u64) << 8) | (b7 as u64)) >> 40) as u8 == b2 && ((((b0 as u64) << 56) | ((b1 as u64) << 48) | ((b2 as u64) << 40) | ((b3 as u64) << 32) | ((b4 as u64) << 24) | ((b5 as u64) << 16) | ((b6 as u64) << 8) | (b7 as u64)) >> 32) as u8 == b3 && ((((b0 as u64) << 56) | ((b1 as u64) << 48) | ((b2 as u64) << 40) | ((b3 as u64) << 32) | ((b4 as u64) << 24) | ((b5 as u64) << 16) | ((b6 as u64) << 8) | (b7 as u64)) >> 24) as u8 == b4 && ((((b0 as u64) << 56) | ((b1 as u64) << 48) | ((b2 as u64) << 40) | ((b3 as u64) << 32) | ((b4 as u64) << 24) | ((b5 as u64) << 16) | ((b6 as u64) << 8) | (b7 as u64)) >> 16) as u8 == b5 && ((((b0 as u64) << 56) | ((b1 as u64) << 48) | ((b2 as u64) << 40) | ((b3 as u64) << 32) | ((b4 as u64) << 24) | ((b5 as u64) << 16) | ((b6 as u64) << 8) | (b7 as u64)) >> 8) as u8 == b6 && (((b0 as u64) << 56) | ((b1 as u64) << 48) | ((b2 as u64) << 40) | ((b3 as u64) << 32) | ((b4 as u64) << 24) | ((b5 as u64) << 16) | ((b6 as u64) << 8) | (b7 as u64)) as u8 == b7) by (bit_vector);
}

/// Decoding is unambiguous: a payload that decodes is exactly the encoding
/// of what it decodes to — there is one wire form per entity, and no other
/// bytes parse to it.
#[verifier::rlimit(100)]
pub proof fn lemma_decode_is_unambiguous(bytes: Seq<u8>, e: DebugEntity)
    requires
        decode_spec(bytes) == Ok::<DebugEntity, DecodeError>(e),
    ensures
        bytes == encode_spec(e),
{
    if bytes[1] == ID_ABSENT {
        lemma_u32_be_rebuild(bytes[2], bytes[3], bytes[4], bytes[5]);
        lemma_u32_be_rebuild(bytes[6], bytes[7], bytes[8], bytes[9]);
        lemma_u32_be_rebuild(bytes[10], bytes[11], bytes[12], bytes[13]);
        lemma_u32_be_rebuild(bytes[14], bytes[15], bytes[16], bytes[17]);
        lemma_u32_be_rebuild(bytes[18], bytes[19], bytes[20], bytes[21]);
        lemma_u32_be_rebuild(bytes[22], bytes[23], bytes[24], bytes[25]);
        assert(bytes =~= encode_spec(e));
    } else {
        lemma_u64_be_rebuild(
            bytes[2],
            bytes[3],
            bytes[4],
            bytes[5],
            bytes[6],
            bytes[7],
            bytes[8],
            bytes[9],
        );
        lemma_u32_be_rebuild(bytes[10], bytes[11], bytes[12], bytes[13]);
        lemma_u32_be_rebuild(bytes[14], bytes[15], bytes[16], bytes[17]);
        lemma_u32_be_rebuild(bytes[18], bytes[19], bytes[20], bytes[21]);
        lemma_u32_be_rebuild(bytes[22], bytes[23], bytes[24], bytes[25]);
        lemma_u32_be_rebuild(bytes[26], bytes[27], bytes[28], bytes[29]);
        lemma_u32_be_rebuild(bytes[30], bytes[31], bytes[32], bytes[33]);
        assert(bytes =~= encode_spec(e));
    }
}

proof fn lemma_u32_be_roundtrip(v: u32)
    ensures
        u32_from_be((v >> 24) as u8, (v >> 16) as u8, (v >> 8) as u8, v as u8) == v,
{
    assert((((((v >> 24) as u8) as u32) << 24) | ((((v >> 16) as u8) as u32) << 16) | ((((v >> 8)
        as u8) as u32) << 8) | ((v as u8) as u32)) == v) by (bit_vector);
}

proof fn lemma_u64_be_roundtrip(v: u64)
    ensures
        u64_from_be(
            (v >> 56) as u8,
            (v >> 48) as u8,
            (v >> 40) as u8,
            (v >> 32) as u8,
            (v >> 24) as u8,
            (v >> 16) as u8,
            (v >> 8) as u8,
            v as u8,
        ) == v,
{
    assert((((((v >> 56) as u8) as u64) << 56) | ((((v >> 48) as u8) as u64) << 48) | ((((v >> 40)
        as u8) as u64) << 40) | ((((v >> 32) as u8) as u64) << 32) | ((((v >> 24) as u8) as u64)
        << 24) | ((((v >> 16) as u8) as u64) << 16) | ((((v >> 8) as u8) as u64) << 8) | ((
    v as u8) as u64)) == v) by (bit_vector);
}

/// Round trip: decoding an encoded entity succeeds and yields the entity,
/// with the never-serialized visual handle cleared.
/// Decoding the coordinate block of an encoding recovers the corners.
#[verifier::rlimit(60)]
proof fn lemma_decode_box_of_encoding(
    bytes: Seq<u8>,
    id: Option<u64>,
    off: int,
    mins: Vec3Bits,
    maxs: Vec3Bits,
)
    requires
        0 <= off,
        bytes.len() == off + 24,
        bytes.subrange(off, off + 24) == kind_bytes(ParryDebugEntityType::Aabb { mins, maxs }),
    ensures
        decode_box_spec(bytes, id, off) == Ok::<DebugEntity, DecodeError>(
            DebugEntity {
                id,
                entity_type: ParryDebugEntityType::Aabb { mins, maxs },
                visual_handle: None,
            },
        ),
{
    let kb = kind_bytes(ParryDebugEntityType::Aabb { mins, maxs });
    assert forall|k: int| 0 <= k < 24 implies bytes[off + k] == kb[k] by {
        assert(bytes.subrange(off, off + 24)[k] == bytes[off + k]);
    }
    lemma_u32_be_roundtrip(mins.x);
    lemma_u32_be_roundtrip(mins.y);
    lemma_u32_be_roundtrip(mins.z);
    lemma_u32_be_roundtrip(maxs.x);
    lemma_u32_be_roundtrip(maxs.y);
    lemma_u32_be_roundtrip(maxs.z);
    assert(u32_from_be(kb[0], kb[1], kb[2], kb[3]) == mins.x);
    assert(u32_from_be(kb[4], kb[5], kb[6], kb[7]) == mins.y);
    assert(u32_from_be(kb[8], kb[9], kb[10], kb[11]) == mins.z);
    assert(u32_from_be(kb[12], kb[13], kb[14], kb[15]) == maxs.x);
    assert(u32_from_be(kb[16], kb[17], kb[18], kb[19]) == maxs.y);
    assert(u32_from_be(kb[20], kb[21], kb[22], kb[23]) == maxs.z);
}

/// Round trip: decoding an encoded entity succeeds and yields the entity,
/// with the never-serialized visual handle cleared.
#[verifier::rlimit(60)]
pub proof fn lemma_decode_encode_roundtrip(e: DebugEntity)
    ensures
        decode_spec(encode_spec(e)) == Ok::<DebugEntity, DecodeError>(
            DebugEntity { visual_handle: None, ..e },
        ),
{
    let b = encode_spec(e);
    match e.entity_type {
        ParryDebugEntityType::Aabb { mins, maxs } => {
            let kb = kind_bytes(e.entity_type);
            match e.id {
                None => {
                    assert(b.len() == 26);
                    assert(b.subrange(2, 26) =~= kb);
                    lemma_decode_box_of_encoding(b, None, 2, mins, maxs);
                },
                Some(v) => {
                    lemma_u64_be_roundtrip(v);
                    assert(b.len() == 34);
                    assert(u64_from_be(b[2], b[3], b[4], b[5], b[6], b[7], b[8], b[9]) == v);
                    assert(b.subrange(10, 34) =~= kb);
                    lemma_decode_box_of_encoding(b, Some(v), 10, mins, maxs);
                },
            }
        },
    }
}

/// Round trip through framing: a framed payload at the front of any buffer
/// deframes to exactly that payload, consuming the frame and nothing more.
pub proof fn lemma_deframe_frame_roundtrip(payload: Seq<u8>, rest: Seq<u8>)
    requires
        payload.len() <= u32::MAX,
    ensures
        deframe_spec(frame_spec(payload) + rest) == Some(
            (payload, 4 + payload.len() as int),
        ),
{
    let b = frame_spec(payload) + rest;
    let n = payload.len() as u32;
    lemma_u32_be_roundtrip(n);
    assert(b[0] == (n >> 24) as u8);
    assert(b[1] == (n >> 16) as u8);
    assert(b[2] == (n >> 8) as u8);
    assert(b[3] == n as u8);
    assert(u32_from_be(b[0], b[1], b[2], b[3]) == n);
    assert(b.subrange(4, 4 + n as int) =~= payload);
}

} // verus!
