//! Fixed-width binary layout of the persisted counter record.

use vstd::prelude::*;
use borsh::BorshDeserialize;

verus! {

/// Number of bytes that one encoded `TransferState` occupies.
pub const STATE_LEN: usize = 8;

/// The unsigned value of `b` read as little-endian bytes.
pub open spec fn le_value(b: Seq<u8>) -> nat
    decreases b.len(),
{
    if b.len() == 0 {
        0
    } else {
        b[0] as nat + 256 * le_value(b.subrange(1, b.len() as int))
    }
}

/// The `n` low bytes of `x`, least significant first.
pub open spec fn le_bytes(x: nat, n: nat) -> Seq<u8>
    decreases n,
{
    if n == 0 {
        Seq::empty()
    } else {
        seq![(x % 256) as u8] + le_bytes(x / 256, (n - 1) as nat)
    }
}

pub open spec fn pow256(n: nat) -> nat
    decreases n,
{
    if n == 0 {
        1
    } else {
        256 * pow256((n - 1) as nat)
    }
}

/// Reading back the `n` low bytes of a value that fits in them gives the value.
pub proof fn lemma_le_round_trip(x: nat, n: nat)
    requires
        x < pow256(n),
    ensures
        le_bytes(x, n).len() == n,
        le_value(le_bytes(x, n)) == x,
    decreases n,
{
    if n > 0 {
        let q = x / 256;
        vstd::arithmetic::div_mod::lemma_fundamental_div_mod(x as int, 256);
        assert(q < pow256((n - 1) as nat)) by (nonlinear_arith)
            requires
                x < 256 * pow256((n - 1) as nat),
                x == 256 * q + x % 256,
                0 <= x % 256 < 256,
        ;
        lemma_le_round_trip(q, (n - 1) as nat);
        let b = le_bytes(x, n);
        assert(b.subrange(1, b.len() as int) =~= le_bytes(q, (n - 1) as nat));
    }
}

pub proof fn lemma_pow256_8()
    ensures
        pow256(8) == 0x1_0000_0000_0000_0000,
{
    reveal_with_fuel(pow256, 9);
}

/// Relies on borsh's `BorshSerialize` for `u64`: the value's eight little-endian
/// bytes, written into a `Vec`, which cannot fail.
#[verifier::external_body]
fn u64_to_borsh(x: u64) -> (r: Vec<u8>)
    ensures
        r@ == le_bytes(x as nat, 8),
{
    borsh::to_vec(&x).unwrap()
}

/// Relies on borsh's `try_from_slice` for `u64`: it accepts exactly eight bytes
/// and reads them little-endian.
#[verifier::external_body]
fn u64_from_borsh(b: &[u8]) -> (r: Option<u64>)
    ensures
        r.is_some() <==> b@.len() == 8,
        r matches Some(v) ==> v as nat == le_value(b@),
{
    <u64 as BorshDeserialize>::try_from_slice(b).ok()
}

/// Encodes `x` as eight little-endian bytes.
pub fn encode_u64(x: u64) -> (r: Vec<u8>)
    ensures
        r@ == le_bytes(x as nat, 8),
        r@.len() == 8,
{
    proof {
        lemma_pow256_8();
        lemma_le_round_trip(x as nat, 8);
    }
    u64_to_borsh(x)
}

/// Decodes eight little-endian bytes; any other length is refused.
pub fn decode_u64(b: &[u8]) -> (r: Option<u64>)
    ensures
        r == (if b@.len() == 8 { Some(le_value(b@) as u64) } else { None::<u64> }),
{
    u64_from_borsh(b)
}

/// The persisted counter record.
#[derive(Clone, Copy, Debug, PartialEq, Eq, Structural)]
pub struct TransferState {
    pub total_transferred: u64,
}

/// The bytes that hold `s`.
pub open spec fn state_bytes(s: TransferState) -> Seq<u8> {
    le_bytes(s.total_transferred as nat, 8)
}

/// The record that `b` holds, if it holds one.
pub open spec fn parse_state(b: Seq<u8>) -> Option<TransferState> {
    if b.len() == STATE_LEN {
        Some(TransferState { total_transferred: le_value(b) as u64 })
    } else {
        None
    }
}

/// Decoding what was encoded gives the record back.
pub proof fn lemma_state_round_trip(s: TransferState)
    ensures
        state_bytes(s).len() == STATE_LEN,
        parse_state(state_bytes(s)) == Some(s),
{
    lemma_pow256_8();
    lemma_le_round_trip(s.total_transferred as nat, 8);
}

impl TransferState {
    pub fn encode(&self) -> (r: Vec<u8>)
        ensures
            r@ == state_bytes(*self),
            r@.len() == STATE_LEN,
    {
        encode_u64(self.total_transferred)
    }

    pub fn decode(b: &[u8]) -> (r: Option<TransferState>)
        ensures
            r == parse_state(b@),
    {
        match decode_u64(b) {
            Some(v) => Some(TransferState { total_transferred: v }),
            None => None,
        }
    }
}

} // verus!
