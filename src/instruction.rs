//! The instruction set and its wire format: a one-byte tag, then the payload.

use vstd::prelude::*;
use crate::codec::{decode_u64, encode_u64, le_bytes, le_value, lemma_le_round_trip, lemma_pow256_8};
use crate::error::ProcessError;

verus! {

#[derive(Clone, Copy, Debug, PartialEq, Eq, Structural)]
pub enum SolanaExampleInstruction {
    /// Move `amount` lamports from the payer to the recipient.
    Transfer { amount: u64 },
    /// Set the running total back to zero.
    Reset,
}

/// Tag 0, then the amount as eight little-endian bytes; or tag 1 alone.
pub open spec fn instruction_bytes(ix: SolanaExampleInstruction) -> Seq<u8> {
    match ix {
        SolanaExampleInstruction::Transfer { amount } => seq![0u8] + le_bytes(amount as nat, 8),
        SolanaExampleInstruction::Reset => seq![1u8],
    }
}

/// The instruction that `b` encodes, if any.
pub open spec fn parse_instruction(b: Seq<u8>) -> Option<SolanaExampleInstruction> {
    if b.len() == 9 && b[0] == 0 {
        Some(SolanaExampleInstruction::Transfer { amount: le_value(b.subrange(1, 9)) as u64 })
    } else if b.len() == 1 && b[0] == 1 {
        Some(SolanaExampleInstruction::Reset)
    } else {
        None
    }
}

/// Every instruction decodes back from its own encoding.
pub proof fn lemma_instruction_round_trip(ix: SolanaExampleInstruction)
    ensures
        parse_instruction(instruction_bytes(ix)) == Some(ix),
{
    if let SolanaExampleInstruction::Transfer { amount } = ix {
        lemma_pow256_8();
        lemma_le_round_trip(amount as nat, 8);
        let b = instruction_bytes(ix);
        assert(b.subrange(1, 9) =~= le_bytes(amount as nat, 8));
    }
}

impl SolanaExampleInstruction {
    /// Decodes an instruction; trailing or missing bytes and unknown tags are refused.
    pub fn unpack(data: &[u8]) -> (r: Result<SolanaExampleInstruction, ProcessError>)
        ensures
            r == (match parse_instruction(data@) {
                Some(ix) => Ok(ix),
                None => Err(ProcessError::MalformedInstruction),
            }),
    {
        if data.len() == 0 {
            return Err(ProcessError::MalformedInstruction);
        }
        if data[0] == 0 {
            let payload = vstd::slice::slice_subrange(data, 1, data.len());
            match decode_u64(payload) {
                Some(amount) => Ok(SolanaExampleInstruction::Transfer { amount }),
                None => Err(ProcessError::MalformedInstruction),
            }
        } else if data[0] == 1 && data.len() == 1 {
            Ok(SolanaExampleInstruction::Reset)
        } else {
            Err(ProcessError::MalformedInstruction)
        }
    }

    /// The wire bytes of this instruction.
    pub fn pack(&self) -> (r: Vec<u8>)
        ensures
            r@ == instruction_bytes(*self),
    {
        match self {
            SolanaExampleInstruction::Transfer { amount } => {
                let mut out: Vec<u8> = vec![0u8];
                let mut tail = encode_u64(*amount);
                out.append(&mut tail);
                out
            },
            SolanaExampleInstruction::Reset => vec![1u8],
        }
    }
}

} // verus!
