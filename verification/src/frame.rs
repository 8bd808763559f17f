//! Binary packet framing for the data plane.
//!
//! Every packet is 312 bytes: the magic `MRD1`, the blend shape frame's
//! size and the kinematic frame's size as little-endian `u16`s, then the two
//! frames' bytes. The encoder and decoder here are the single place that
//! knows this layout.
use vstd::prelude::*;
use bytes::{Bytes, BytesMut};
use crate::bus::BLENDSHAPE_FRAME_BYTES;
use crate::bytes_buf::{buffer_limit, bytes_contents, bytes_mut_contents, bytes_mut_freeze, bytes_mut_put_slice, bytes_mut_put_u16_le, bytes_mut_with_capacity};

verus! {

/// Magic bytes `MRD1` (Miranda Data protocol version 1).
pub const PACKET_MAGIC: [u8; 4] = [77, 82, 68, 49];

/// Byte size of one kinematic transform frame.
pub const KINEMATIC_FRAME_BYTES: usize = 88;

/// Total packet size: 4 + 2 + 2 + 216 + 88.
pub const PACKET_SIZE: usize = 4 + 2 + 2 + BLENDSHAPE_FRAME_BYTES + KINEMATIC_FRAME_BYTES;

/// Why a packet was rejected.
#[derive(Debug, Clone, PartialEq, Eq)]
pub enum DecodeError {
    /// The packet is not `PACKET_SIZE` bytes long.
    WrongLength { got: usize, expected: usize },
    /// The first four bytes are not `MRD1`.
    BadMagic,
    /// A size field disagrees with the frame size this build uses.
    SizeMismatch { field: &'static str, got: usize, expected: usize },
}

/// The magic as a sequence.
pub open spec fn magic_seq() -> Seq<u8> {
    seq![77u8, 82u8, 68u8, 49u8]
}

/// `n` as two little-endian bytes.
pub open spec fn le_u16_bytes(n: u16) -> Seq<u8> {
    seq![(n % 256) as u8, (n / 256) as u8]
}

/// The little-endian `u16` held in `lo`, `hi`.
pub open spec fn le_u16_value(lo: u8, hi: u8) -> int {
    lo as int + 256 * (hi as int)
}

/// The packet carrying the blend shape frame bytes `blend` and the
/// kinematic frame bytes `kin`.
pub open spec fn packet_bytes(blend: Seq<u8>, kin: Seq<u8>) -> Seq<u8> {
    magic_seq() + le_u16_bytes(BLENDSHAPE_FRAME_BYTES as u16) + le_u16_bytes(KINEMATIC_FRAME_BYTES as u16)
        + blend + kin
}

/// What decoding `s` yields: the frames' bytes, or the first check that fails
/// (length, then magic, then the blend size field, then the kinematic one).
pub open spec fn spec_decode(s: Seq<u8>) -> Result<(Seq<u8>, Seq<u8>), DecodeError> {
    if s.len() != PACKET_SIZE {
        Err(DecodeError::WrongLength { got: s.len() as usize, expected: PACKET_SIZE })
    } else if s.subrange(0, 4) != magic_seq() {
        Err(DecodeError::BadMagic)
    } else if le_u16_value(s[4], s[5]) != BLENDSHAPE_FRAME_BYTES {
        Err(DecodeError::SizeMismatch {
            field: "BlendshapeFrame",
            got: le_u16_value(s[4], s[5]) as usize,
            expected: BLENDSHAPE_FRAME_BYTES,
        })
    } else if le_u16_value(s[6], s[7]) != KINEMATIC_FRAME_BYTES {
        Err(DecodeError::SizeMismatch {
            field: "KinematicTransformFrame",
            got: le_u16_value(s[6], s[7]) as usize,
            expected: KINEMATIC_FRAME_BYTES,
        })
    } else {
        Ok((s.subrange(8, 8 + BLENDSHAPE_FRAME_BYTES), s.subrange(8 + BLENDSHAPE_FRAME_BYTES, PACKET_SIZE as int)))
    }
}

/// Appends one packet carrying `blend` and `kin` to `dst`, which grows by
/// exactly `PACKET_SIZE` bytes.
pub fn encode(blend: &[u8], kin: &[u8], dst: &mut BytesMut)
    requires
        blend@.len() == BLENDSHAPE_FRAME_BYTES,
        kin@.len() == KINEMATIC_FRAME_BYTES,
        bytes_mut_contents(*old(dst)).len() % (PACKET_SIZE as nat) == 0,
        bytes_mut_contents(*old(dst)).len() + PACKET_SIZE <= buffer_limit(),
    ensures
        bytes_mut_contents(*final(dst)) == bytes_mut_contents(*old(dst)) + packet_bytes(blend@, kin@),
{
    let magic: [u8; 4] = PACKET_MAGIC;
    bytes_mut_put_slice(dst, magic.as_slice());
    bytes_mut_put_u16_le(dst, BLENDSHAPE_FRAME_BYTES as u16);
    bytes_mut_put_u16_le(dst, KINEMATIC_FRAME_BYTES as u16);
    bytes_mut_put_slice(dst, blend);
    bytes_mut_put_slice(dst, kin);
    assert(magic@ == magic_seq());
    assert(bytes_mut_contents(*dst) =~= bytes_mut_contents(*old(dst)) + packet_bytes(blend@, kin@));
}

/// An empty buffer with room for one packet: the scratch buffer that
/// [`encode`] appends to and the broadcast hub reuses.
pub fn packet_scratch() -> (b: BytesMut)
    ensures
        bytes_mut_contents(b) == Seq::<u8>::empty(),
{
    bytes_mut_with_capacity(PACKET_SIZE)
}

/// Encodes one packet into a fresh buffer of exactly `PACKET_SIZE` bytes.
pub fn encode_to_bytes(blend: &[u8], kin: &[u8]) -> (r: Bytes)
    requires
        blend@.len() == BLENDSHAPE_FRAME_BYTES,
        kin@.len() == KINEMATIC_FRAME_BYTES,
    ensures
        bytes_contents(r) == packet_bytes(blend@, kin@),
{
    let mut buf = bytes_mut_with_capacity(PACKET_SIZE);
    assert(0nat % (PACKET_SIZE as nat) == 0);
    encode(blend, kin, &mut buf);
    assert(Seq::<u8>::empty() + packet_bytes(blend@, kin@) =~= packet_bytes(blend@, kin@));
    bytes_mut_freeze(buf)
}

/// Decodes a packet into the blend shape frame's bytes and the kinematic
/// frame's bytes. Never panics: a malformed packet is a typed error.
pub fn decode(src: &[u8]) -> (r: Result<(Vec<u8>, Vec<u8>), DecodeError>)
    ensures
        match (r, spec_decode(src@)) {
            (Ok((b, k)), Ok((sb, sk))) => b@ == sb && k@ == sk,
            (Err(e), Err(se)) => e == se,
            _ => false,
        },
{
    if src.len() != PACKET_SIZE {
        return Err(DecodeError::WrongLength { got: src.len(), expected: PACKET_SIZE });
    }
    if src[0] != 77 || src[1] != 82 || src[2] != 68 || src[3] != 49 {
        assert(src@.subrange(0, 4) != magic_seq()) by {
            if src@.subrange(0, 4) == magic_seq() {
                assert(src@.subrange(0, 4)[0] == src@[0]);
                assert(src@.subrange(0, 4)[1] == src@[1]);
                assert(src@.subrange(0, 4)[2] == src@[2]);
                assert(src@.subrange(0, 4)[3] == src@[3]);
            }
        }
        return Err(DecodeError::BadMagic);
    }
    assert(src@.subrange(0, 4) =~= magic_seq());
    let blend_sz: usize = src[4] as usize + 256 * (src[5] as usize);
    let kin_sz: usize = src[6] as usize + 256 * (src[7] as usize);
    if blend_sz != BLENDSHAPE_FRAME_BYTES {
        return Err(DecodeError::SizeMismatch {
            field: "BlendshapeFrame",
            got: blend_sz,
            expected: BLENDSHAPE_FRAME_BYTES,
        });
    }
    if kin_sz != KINEMATIC_FRAME_BYTES {
        return Err(DecodeError::SizeMismatch {
            field: "KinematicTransformFrame",
            got: kin_sz,
            expected: KINEMATIC_FRAME_BYTES,
        });
    }
    let blend_start: usize = 8;
    let kin_start: usize = blend_start + blend_sz;
    let blend = vstd::slice::slice_to_vec(vstd::slice::slice_subrange(src, blend_start, kin_start));
    let kin = vstd::slice::slice_to_vec(vstd::slice::slice_subrange(src, kin_start, kin_start + kin_sz));
    Ok((blend, kin))
}

/// Decoding an encoded packet gives back exactly the two frames' bytes.
pub proof fn law_decode_inverts_encode(blend: Seq<u8>, kin: Seq<u8>)
    requires
        blend.len() == BLENDSHAPE_FRAME_BYTES,
        kin.len() == KINEMATIC_FRAME_BYTES,
    ensures
        spec_decode(packet_bytes(blend, kin)) == Ok::<(Seq<u8>, Seq<u8>), DecodeError>((blend, kin)),
{
    let p = packet_bytes(blend, kin);
    assert(p.subrange(0, 4) =~= magic_seq());
    assert(p[4] == 216u8 && p[5] == 0u8 && p[6] == 88u8 && p[7] == 0u8);
    assert(p.subrange(8, 224) =~= blend);
    assert(p.subrange(224, 312) =~= kin);
}

/// A packet that decodes is exactly the encoding of what it decodes to, so
/// decoding accepts nothing but well-formed packets.
pub proof fn law_encode_inverts_decode(s: Seq<u8>)
    ensures
        spec_decode(s) matches Ok((blend, kin)) ==> {
            &&& blend.len() == BLENDSHAPE_FRAME_BYTES
            &&& kin.len() == KINEMATIC_FRAME_BYTES
            &&& packet_bytes(blend, kin) == s
        },
{
    if let Ok((blend, kin)) = spec_decode(s) {
        let p = packet_bytes(blend, kin);
        assert(s[0] == s.subrange(0, 4)[0] && s[1] == s.subrange(0, 4)[1]);
        assert(s[2] == s.subrange(0, 4)[2] && s[3] == s.subrange(0, 4)[3]);
        assert(s[5] == 0u8 && s[4] == 216u8);
        assert(s[7] == 0u8 && s[6] == 88u8);
        assert(p =~= s);
    }
}

} // verus!
