//! Addresses and the counter record stored in an account.
use vstd::prelude::*;
use crate::codec::{decode_u64, le_bytes, read_u64, write_u64};
use crate::error::CounterError;

verus! {

/// A 32-byte account or program address.
#[derive(Clone, Copy, Debug, PartialEq, Eq)]
pub struct Address {
    pub bytes: [u8; 32],
}

impl View for Address {
    type V = Seq<u8>;

    open spec fn view(&self) -> Seq<u8> {
        self.bytes@
    }
}

impl Address {
    /// Whether the two addresses hold the same bytes.
    pub fn same_as(&self, other: &Address) -> (r: bool)
        ensures
            r == (self@ == other@),
    {
        let mut i: usize = 0;
        while i < 32
            invariant
                0 <= i <= 32,
                self@.len() == 32,
                other@.len() == 32,
                forall|j: int| 0 <= j < i ==> self@[j] == other@[j],
            decreases 32 - i,
        {
            if self.bytes[i] != other.bytes[i] {
                return false;
            }
            i = i + 1;
        }
        assert(self@ =~= other@);
        true
    }
}

/// The record a counter account holds: one count, stored as its eight
/// little-endian bytes.
#[derive(Clone, Copy, Debug, PartialEq, Eq, Structural)]
pub struct CounterAccount {
    pub count: u64,
}

/// The count that account data holds, if it holds exactly one record.
pub open spec fn read_count(data: Seq<u8>) -> Option<u64> {
    decode_u64(data)
}

impl CounterAccount {
    /// Reads the record from the whole of `data`.
    pub fn try_from_slice(data: &[u8]) -> (r: Result<CounterAccount, CounterError>)
        ensures
            r == (match read_count(data@) {
                Some(c) => Ok(CounterAccount { count: c }),
                None => Err(CounterError::MalformedAccountData),
            }),
    {
        match read_u64(data) {
            Some(c) => Ok(CounterAccount { count: c }),
            None => Err(CounterError::MalformedAccountData),
        }
    }

    /// The bytes that store this record.
    pub fn to_bytes(&self) -> (r: Vec<u8>)
        ensures
            r@ == le_bytes(self.count),
            read_count(r@) == Some(self.count),
    {
        proof {
            crate::codec::lemma_le_round_trip(self.count);
        }
        write_u64(self.count)
    }
}

} // verus!
