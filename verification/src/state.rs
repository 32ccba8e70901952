use crate::error::HandlerError;
use vstd::prelude::*;

verus! {

/// Little-endian reading of four bytes as a 32-bit unsigned integer.
pub open spec fn u32_of_le(bytes: Seq<u8>) -> u32
    recommends
        bytes.len() == 4,
{
    ((bytes[0] as int) + (bytes[1] as int) * 0x100 + (bytes[2] as int) * 0x1_0000
        + (bytes[3] as int) * 0x100_0000) as u32
}

/// The four-byte little-endian encoding of a 32-bit unsigned integer.
pub open spec fn le_bytes_of(v: u32) -> Seq<u8> {
    seq![
        (v as int % 0x100) as u8,
        (v as int / 0x100 % 0x100) as u8,
        (v as int / 0x1_0000 % 0x100) as u8,
        (v as int / 0x100_0000 % 0x100) as u8,
    ]
}

/// Law: encoding a counter value and decoding it gives the value back.
pub proof fn lemma_le_round_trip(v: u32)
    ensures
        u32_of_le(le_bytes_of(v)) == v,
{
}

/// Relies on borsh::from_slice::<u32>: it reads exactly four bytes as a
/// little-endian integer and errors on any other slice length (including
/// trailing bytes, which it refuses as not fully read).
#[verifier::external_body]
fn borsh_read_u32(bytes: &[u8]) -> (r: Option<u32>)
    ensures
        r is Some <==> bytes@.len() == 4,
        bytes@.len() == 4 ==> r == Some(u32_of_le(bytes@)),
{
    borsh::from_slice::<u32>(bytes).ok()
}

/// Relies on borsh::to_vec::<u32>: it writes the four little-endian bytes
/// of the value; writing into a fresh Vec cannot fail.
#[verifier::external_body]
fn borsh_write_u32(v: u32) -> (r: Vec<u8>)
    ensures
        r@ == le_bytes_of(v),
{
    borsh::to_vec(&v).unwrap()
}

/// The one persisted entity: a 32-bit counter, stored as the whole byte
/// contents of one account.
#[derive(Clone, Copy, Debug, PartialEq, Eq, Structural)]
pub struct CounterState {
    pub count: u32,
}

impl CounterState {
    /// Decodes account bytes as the counter state. Exactly four bytes
    /// decode; any other length is a malformed state.
    pub fn try_from_slice(bytes: &[u8]) -> (r: Result<CounterState, HandlerError>)
        ensures
            bytes@.len() == 4 ==> r == Ok::<CounterState, HandlerError>(
                CounterState { count: u32_of_le(bytes@) },
            ),
            bytes@.len() != 4 ==> r == Err::<CounterState, HandlerError>(
                HandlerError::MalformedStateError,
            ),
    {
        match borsh_read_u32(bytes) {
            Some(count) => Ok(CounterState { count }),
            None => Err(HandlerError::MalformedStateError),
        }
    }

    /// Encodes the counter state as its four little-endian bytes.
    pub fn serialize(&self) -> (r: Vec<u8>)
        ensures
            r@ == le_bytes_of(self.count),
    {
        borsh_write_u32(self.count)
    }
}

} // verus!
