//! The 64-bit correlation token attached to every queue-ring submission and
//! echoed back on its completion.
use vstd::prelude::*;

verus! {

/// Bit that marks a submission made by a backend on the queue's ring, as
/// opposed to a driver-protocol command.
pub const TARGET_IO_FLAG: u64 = 0x8000_0000_0000_0000;

/// The fields a token carries.
#[derive(Clone, Copy, Debug, PartialEq, Eq, Structural)]
pub struct TokenFields {
    pub tag: u16,
    pub op: u8,
    pub target_data: u8,
    pub is_target_io: bool,
}

/// The token's numeric value: tag in bits 0..16, opcode in bits 16..24,
/// backend byte in bits 24..32, and the backend flag in bit 63.
pub open spec fn token_value(f: TokenFields) -> int {
    f.tag as int + f.op as int * 0x1_0000 + f.target_data as int * 0x100_0000 + if f.is_target_io {
        0x8000_0000_0000_0000int
    } else {
        0int
    }
}

/// The fields read back from a token value.
pub open spec fn token_fields(t: u64) -> TokenFields {
    TokenFields {
        tag: (t & 0xffff) as u16,
        op: ((t >> 16u64) & 0xff) as u8,
        target_data: ((t >> 24u64) & 0xff) as u8,
        is_target_io: (t >> 63u64) == 1,
    }
}

/// Packs the fields into a token.
pub fn encode_token(f: TokenFields) -> (r: u64)
    ensures
        r as int == token_value(f),
{
    let tag = f.tag as u64;
    let op = f.op as u64;
    let data = f.target_data as u64;
    let base: u64 = tag | (op << 16u64) | (data << 24u64);
    assert(tag < 0x1_0000 && op < 0x100 && data < 0x100 ==> (tag | (op << 16u64) | (data
        << 24u64)) == tag + op * 0x1_0000 + data * 0x100_0000) by (bit_vector);
    if f.is_target_io {
        assert(base < 0x1_0000_0000 ==> (base | 0x8000_0000_0000_0000u64) == base
            + 0x8000_0000_0000_0000u64) by (bit_vector);
        base | TARGET_IO_FLAG
    } else {
        base
    }
}

/// Unpacks a token into its fields.
pub fn decode_token(t: u64) -> (r: TokenFields)
    ensures
        r == token_fields(t),
{
    TokenFields {
        tag: (t & 0xffff) as u16,
        op: ((t >> 16u64) & 0xff) as u8,
        target_data: ((t >> 24u64) & 0xff) as u8,
        is_target_io: (t >> 63u64) == 1,
    }
}

/// Decoding an encoded token gives back exactly the fields that were encoded.
pub proof fn lemma_token_round_trip(f: TokenFields)
    ensures
        0 <= token_value(f) <= u64::MAX,
        token_fields(token_value(f) as u64) == f,
{
    let tag = f.tag as u64;
    let op = f.op as u64;
    let data = f.target_data as u64;
    let t: u64 = (tag + op * 0x1_0000 + data * 0x100_0000) as u64;
    assert(tag < 0x1_0000 && op < 0x100 && data < 0x100 && t == tag + op * 0x1_0000 + data
        * 0x100_0000 ==> (t & 0xffff) == tag && ((t >> 16u64) & 0xff) == op && ((t >> 24u64)
        & 0xff) == data && (t >> 63u64) == 0) by (bit_vector);
    let u: u64 = (t + 0x8000_0000_0000_0000u64) as u64;
    assert(t < 0x1_0000_0000 && u == t + 0x8000_0000_0000_0000u64 ==> (u & 0xffff) == (t
        & 0xffff) && ((u >> 16u64) & 0xff) == ((t >> 16u64) & 0xff) && ((u >> 24u64) & 0xff)
        == ((t >> 24u64) & 0xff) && (u >> 63u64) == 1) by (bit_vector);
    if f.is_target_io {
        assert(token_value(f) as u64 == u);
    } else {
        assert(token_value(f) as u64 == t);
    }
}

} // verus!
