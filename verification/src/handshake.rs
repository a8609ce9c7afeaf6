//! The one-shot password handshake that gates admission to the session
//! registry: a client must answer the prompt with exactly 4 bytes holding
//! the configured password as a little-endian unsigned 32-bit integer.
use vstd::prelude::*;

verus! {

/// Authentication state of one client connection.
#[derive(Clone, Copy, PartialEq, Eq, Structural, Debug)]
pub enum AuthState {
    Pending,
    Authenticated,
    Rejected,
}

/// The little-endian unsigned 32-bit value held by the first four bytes.
pub open spec fn le_u32_of(b: Seq<u8>) -> int
    recommends
        b.len() >= 4,
{
    b[0] + b[1] * 0x100 + b[2] * 0x1_0000 + b[3] * 0x100_0000
}

/// A response passes the handshake exactly when it is 4 bytes long and
/// decodes, little-endian, to the configured password.
pub open spec fn response_accepted(resp: Seq<u8>, password: u32) -> bool {
    resp.len() == 4 && le_u32_of(resp) == password as int
}

/// Decode a little-endian unsigned 32-bit integer from four bytes.
pub fn decode_le_u32(b: &[u8]) -> (r: u32)
    requires
        b@.len() >= 4,
    ensures
        r == le_u32_of(b@),
{
    (b[0] as u32) + (b[1] as u32) * 0x100 + (b[2] as u32) * 0x1_0000 + (b[3] as u32) * 0x100_0000
}

/// Judge one handshake response. The outcome is never `Pending`: one
/// attempt decides, with no retry.
pub fn check_response(resp: &[u8], password: u32) -> (r: AuthState)
    ensures
        r == (if response_accepted(resp@, password) {
            AuthState::Authenticated
        } else {
            AuthState::Rejected
        }),
{
    if resp.len() == 4 && decode_le_u32(resp) == password {
        AuthState::Authenticated
    } else {
        AuthState::Rejected
    }
}

/// The four little-endian bytes of a 32-bit value.
pub open spec fn le_bytes_of(v: u32) -> Seq<u8> {
    seq![
        (v & 0xff) as u8,
        ((v >> 8) & 0xff) as u8,
        ((v >> 16) & 0xff) as u8,
        ((v >> 24) & 0xff) as u8,
    ]
}

/// Encode a 32-bit value as its four little-endian bytes: what a client
/// sends as its handshake response.
pub fn encode_le_u32(v: u32) -> (r: Vec<u8>)
    ensures
        r@ == le_bytes_of(v),
        r@.len() == 4,
        le_u32_of(r@) == v as int,
        response_accepted(r@, v),
{
    proof {
        assert(v & 0xff < 0x100 && (v >> 8) & 0xff < 0x100 && (v >> 16) & 0xff < 0x100
            && (v >> 24) & 0xff < 0x100) by (bit_vector);
        assert((v & 0xff) + ((v >> 8) & 0xff) * 0x100 + ((v >> 16) & 0xff) * 0x1_0000
            + ((v >> 24) & 0xff) * 0x100_0000 == v) by (bit_vector);
    }
    let b0: u8 = (v & 0xff) as u8;
    let b1: u8 = ((v >> 8) & 0xff) as u8;
    let b2: u8 = ((v >> 16) & 0xff) as u8;
    let b3: u8 = ((v >> 24) & 0xff) as u8;
    let mut r: Vec<u8> = Vec::new();
    r.push(b0);
    r.push(b1);
    r.push(b2);
    r.push(b3);
    proof {
        assert(r@ =~= le_bytes_of(v));
    }
    r
}

} // verus!
