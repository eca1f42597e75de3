//! The datagram of a message: its address, a type tag and the argument, each
//! padded to a multiple of four bytes.

use vstd::prelude::*;
use vstd::string::StringSliceAdditionalSpecFns;

verus! {

/// `rosc::OscError`, the error type in the signature of
/// `rosc::encoder::encode`. Declared so that the result of the call can be
/// held; nothing is known of its values.
#[verifier::external_type_specification]
#[verifier::external_body]
pub struct ExOscError(rosc::OscError);

/// The zero bytes that end a string of `len` bytes: at least one, and as
/// many as bring the length to a multiple of four.
pub open spec fn padding(len: nat) -> Seq<u8> {
    Seq::new((4 - len % 4) as nat, |i: int| 0u8)
}

/// The four bytes of a 32-bit integer in two's complement, most significant
/// byte first.
pub open spec fn be_bytes(value: i32) -> Seq<u8> {
    let unsigned: int = if value < 0 {
        value + 0x1_0000_0000
    } else {
        value as int
    };
    seq![
        (unsigned / 0x100_0000) as u8,
        (unsigned / 0x1_0000 % 0x100) as u8,
        (unsigned / 0x100 % 0x100) as u8,
        (unsigned % 0x100) as u8,
    ]
}

/// The datagram of a message with the address bytes `addr` and the single
/// integer argument `value`: the padded address, the padded type tag `,i`
/// and the argument.
pub open spec fn int_message(addr: Seq<u8>, value: i32) -> Seq<u8> {
    addr + padding(addr.len()) + seq![0x2cu8, 0x69u8, 0u8, 0u8] + be_bytes(value)
}

/// Calls `rosc::encoder::encode` on a message packet with the address `addr`
/// and the one argument `OscType::Int(value)`.
///
/// Trusted: that the call succeeds, and that the bytes are the UTF-8 bytes of
/// the address, one to four zero bytes up to a multiple of four, the type tag
/// `,i` with two zero bytes, and the argument in big-endian order. rosc
/// writes into a `Vec`, which cannot fail, and returns the bytes in `Ok`.
#[verifier::external_body]
pub(crate) fn encode_int_message(addr: &str, value: i32) -> (encoded: Result<Vec<u8>, rosc::OscError>)
    ensures
        encoded is Ok,
        encoded->Ok_0@ == int_message(addr.spec_bytes(), value),
{
    rosc::encoder::encode(
        &rosc::OscPacket::Message(
            rosc::OscMessage { addr: addr.to_string(), args: vec![rosc::OscType::Int(value)] },
        ),
    )
}

/// A datagram is a whole number of four-byte words.
pub proof fn lemma_int_message_aligned(addr: Seq<u8>, value: i32)
    ensures
        int_message(addr, value).len() == addr.len() + (4 - addr.len() % 4) + 8,
        int_message(addr, value).len() % 4 == 0,
{
}

} // verus!
