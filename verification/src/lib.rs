//! Zero-copy sharing of video frames between a publishing host and
//! subscribing clients, together with a frame-transform encoder.
//!
//! A [`frame::Frame`] is a handle to a pixel buffer plus timing and format
//! metadata.  A [`host::Host`] owns a pool of buffer slots, publishes
//! frame-ready notifications, and reclaims slots when the last reference is
//! released or a lease expires.  A [`client::Client`] subscribes to a host,
//! resolves notifications into frame references, and must observe staleness
//! (never the new occupant's data) when a slot was force-reclaimed.  An
//! [`encoder::Encoder`] turns a source frame into a destination frame and
//! takes no part in the sharing protocol.

use vstd::prelude::*;
use vstd::string::StringSliceAdditionalSpecFns;

pub mod client;
pub mod encoder;
pub mod error;
pub mod frame;
pub mod host;

verus! {

/// The little-endian packing of four bytes into a 32-bit format code:
/// `b[0] | b[1]<<8 | b[2]<<16 | b[3]<<24`.
pub open spec fn fourcc_of(b: Seq<u8>) -> u32
    recommends
        b.len() == 4,
{
    (b[0] as u32) | ((b[1] as u32) << 8) | ((b[2] as u32) << 16) | ((b[3] as u32) << 24)
}

/// The four bytes packed into a 32-bit format code, lowest byte first.
pub open spec fn fourcc_bytes(code: u32) -> Seq<u8> {
    seq![
        (code & 0xff) as u8,
        ((code >> 8) & 0xff) as u8,
        ((code >> 16) & 0xff) as u8,
        ((code >> 24) & 0xff) as u8,
    ]
}

/// Packs a 4-character ASCII code into its 32-bit little-endian form.
pub fn fourcc(code: &str) -> (r: u32)
    requires
        code.spec_bytes().len() == 4,
    ensures
        r == fourcc_of(code.spec_bytes()),
{
    let bytes: &[u8] = code.as_bytes();
    (bytes[0] as u32) | ((bytes[1] as u32) << 8) | ((bytes[2] as u32) << 16) | ((bytes[3] as u32)
        << 24)
}

/// Packs four bytes into a 32-bit format code, lowest byte first.
pub fn fourcc_encode(b: &[u8; 4]) -> (r: u32)
    ensures
        r == fourcc_of(b@),
{
    (b[0] as u32) | ((b[1] as u32) << 8) | ((b[2] as u32) << 16) | ((b[3] as u32) << 24)
}

/// Unpacks a 32-bit format code into its four bytes, lowest byte first.
pub fn fourcc_decode(code: u32) -> (r: [u8; 4])
    ensures
        r@ == fourcc_bytes(code),
{
    proof {
        assert(code & 0xff < 256 && (code >> 8) & 0xff < 256 && (code >> 16) & 0xff < 256 && (code
            >> 24) & 0xff < 256) by (bit_vector);
    }
    let r: [u8; 4] = [
        (code & 0xff) as u8,
        ((code >> 8) & 0xff) as u8,
        ((code >> 16) & 0xff) as u8,
        ((code >> 24) & 0xff) as u8,
    ];
    proof {
        assert(r@ =~= fourcc_bytes(code));
    }
    r
}

/// Unpacking a format code and packing the bytes again yields the same code.
pub proof fn lemma_fourcc_round_trip(code: u32)
    ensures
        fourcc_of(fourcc_bytes(code)) == code,
{
    assert(((code & 0xff) as u8 as u32) | (((code >> 8) & 0xff) as u8 as u32) << 8 | (((code >> 16)
        & 0xff) as u8 as u32) << 16 | (((code >> 24) & 0xff) as u8 as u32) << 24 == code)
        by (bit_vector);
}

/// Packing four bytes and unpacking the code again yields the same bytes.
pub proof fn lemma_fourcc_bytes_round_trip(b: Seq<u8>)
    requires
        b.len() == 4,
    ensures
        fourcc_bytes(fourcc_of(b)) == b,
{
    let b0 = b[0];
    let b1 = b[1];
    let b2 = b[2];
    let b3 = b[3];
    let code = fourcc_of(b);
    assert(((((b0 as u32) | ((b1 as u32) << 8) | ((b2 as u32) << 16) | ((b3 as u32) << 24)) & 0xff)
        as u8) == b0) by (bit_vector);
    assert(((((b0 as u32) | ((b1 as u32) << 8) | ((b2 as u32) << 16) | ((b3 as u32) << 24)) >> 8)
        & 0xff) as u8 == b1) by (bit_vector);
    assert(((((b0 as u32) | ((b1 as u32) << 8) | ((b2 as u32) << 16) | ((b3 as u32) << 24)) >> 16)
        & 0xff) as u8 == b2) by (bit_vector);
    assert(((((b0 as u32) | ((b1 as u32) << 8) | ((b2 as u32) << 16) | ((b3 as u32) << 24)) >> 24)
        & 0xff) as u8 == b3) by (bit_vector);
    assert(fourcc_bytes(code) =~= b);
}

} // verus!
