//! The two instructions and their tagged byte encoding: a tag byte, then the
//! variant's fields, and nothing after them.
use vstd::prelude::*;
use crate::codec::{decode_u64, le_bytes, lemma_le_round_trip, read_u64, write_u64};
use crate::error::CounterError;

verus! {

/// The tag byte of `InitializeCounter`.
pub const INITIALIZE_TAG: u8 = 0;

/// The tag byte of `IncrementCounter`.
pub const INCREMENT_TAG: u8 = 1;

/// An instruction to the counter program.
#[derive(Clone, Copy, Debug, PartialEq, Eq, Structural)]
pub enum CounterInstruction {
    /// Create the counter account and store `initial_value` in it.
    InitializeCounter { initial_value: u64 },
    /// Add one to the stored count.
    IncrementCounter,
}

/// The bytes that encode an instruction.
pub open spec fn encode_instruction(i: CounterInstruction) -> Seq<u8> {
    match i {
        CounterInstruction::InitializeCounter { initial_value } => seq![INITIALIZE_TAG].add(
            le_bytes(initial_value),
        ),
        CounterInstruction::IncrementCounter => seq![INCREMENT_TAG],
    }
}

/// The instruction that bytes encode, if they encode one exactly.
pub open spec fn decode_instruction(s: Seq<u8>) -> Option<CounterInstruction> {
    if s.len() == 0 {
        None
    } else if s[0] == INITIALIZE_TAG {
        match decode_u64(s.subrange(1, s.len() as int)) {
            Some(v) => Some(CounterInstruction::InitializeCounter { initial_value: v }),
            None => None,
        }
    } else if s[0] == INCREMENT_TAG && s.len() == 1 {
        Some(CounterInstruction::IncrementCounter)
    } else {
        None
    }
}

/// Decoding the encoding of an instruction gives the instruction back.
pub proof fn lemma_instruction_round_trip(i: CounterInstruction)
    ensures
        decode_instruction(encode_instruction(i)) == Some(i),
{
    if let CounterInstruction::InitializeCounter { initial_value } = i {
        lemma_le_round_trip(initial_value);
        let s = encode_instruction(i);
        assert(s.subrange(1, s.len() as int) =~= le_bytes(initial_value));
    }
}

impl CounterInstruction {
    /// Decodes an instruction from the whole of `data`.
    pub fn try_from_slice(data: &[u8]) -> (r: Result<CounterInstruction, CounterError>)
        ensures
            r == (match decode_instruction(data@) {
                Some(i) => Ok(i),
                None => Err(CounterError::InvalidInstructionData),
            }),
    {
        if data.len() == 0 {
            Err(CounterError::InvalidInstructionData)
        } else if data[0] == INITIALIZE_TAG {
            let rest = vstd::slice::slice_subrange(data, 1, data.len());
            match read_u64(rest) {
                Some(v) => Ok(CounterInstruction::InitializeCounter { initial_value: v }),
                None => Err(CounterError::InvalidInstructionData),
            }
        } else if data[0] == INCREMENT_TAG && data.len() == 1 {
            Ok(CounterInstruction::IncrementCounter)
        } else {
            Err(CounterError::InvalidInstructionData)
        }
    }

    /// The bytes that encode this instruction.
    pub fn to_bytes(&self) -> (r: Vec<u8>)
        ensures
            r@ == encode_instruction(*self),
            decode_instruction(r@) == Some(*self),
    {
        proof {
            lemma_instruction_round_trip(*self);
        }
        match self {
            CounterInstruction::InitializeCounter { initial_value } => {
                let mut r: Vec<u8> = Vec::new();
                r.push(INITIALIZE_TAG);
                let mut value = write_u64(*initial_value);
                r.append(&mut value);
                r
            },
            CounterInstruction::IncrementCounter => {
                let mut r: Vec<u8> = Vec::new();
                r.push(INCREMENT_TAG);
                r
            },
        }
    }
}

} // verus!
