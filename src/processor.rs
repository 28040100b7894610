//! The instruction handlers. They read the accounts passed in and return what
//! the host must do: create the counter account, if the instruction asks for
//! it, and store new data in it. No account changes when a handler fails.
use vstd::prelude::*;
use crate::codec::{le_bytes, lemma_le_round_trip};
use crate::error::CounterError;
use crate::instruction::{
    decode_instruction, encode_instruction, lemma_instruction_round_trip, CounterInstruction,
};
use crate::state::{read_count, Address, CounterAccount};

verus! {

/// The size in bytes of a counter account's data.
pub const COUNTER_SPACE: u64 = 8;

/// What a handler sees of an account: its address, its owner and its data.
#[derive(Clone, Debug)]
pub struct AccountSlot {
    pub key: Address,
    pub owner: Address,
    pub data: Vec<u8>,
}

/// A request to the host to create an account of `space` bytes owned by
/// `owner`, funded by `payer` with the rent-exempt balance for that size.
#[derive(Clone, Copy, Debug, PartialEq, Eq)]
pub struct CreateAccountRequest {
    pub payer: Address,
    pub new_account: Address,
    pub space: u64,
    pub owner: Address,
}

/// What the host must do once a handler succeeds: create the counter account
/// first where `create` asks for it, then store `counter_data` in the counter
/// account, which is the first account passed.
#[derive(Clone, Debug)]
pub struct Outcome {
    pub create: Option<CreateAccountRequest>,
    pub counter_data: Vec<u8>,
}

impl View for Outcome {
    type V = (Option<CreateAccountRequest>, Seq<u8>);

    open spec fn view(&self) -> (Option<CreateAccountRequest>, Seq<u8>) {
        (self.create, self.counter_data@)
    }
}

/// The effect of initializing with `initial_value`: the first account is the
/// counter, the second the payer, the third the system program.
pub open spec fn initialize_spec(program_id: Address, accounts: Seq<AccountSlot>, initial_value: u64)
    -> Result<(Option<CreateAccountRequest>, Seq<u8>), CounterError> {
    if accounts.len() < 3 {
        Err(CounterError::NotEnoughAccountKeys)
    } else {
        Ok(
            (
                Some(
                    CreateAccountRequest {
                        payer: accounts[1].key,
                        new_account: accounts[0].key,
                        space: COUNTER_SPACE,
                        owner: program_id,
                    },
                ),
                le_bytes(initial_value),
            ),
        )
    }
}

/// The data that incrementing stores in a counter account with the given
/// owner and data.
pub open spec fn increment_data(program_id: Address, owner: Address, data: Seq<u8>) -> Result<
    Seq<u8>,
    CounterError,
> {
    if owner@ != program_id@ {
        Err(CounterError::IncorrectProgramId)
    } else {
        match read_count(data) {
            None => Err(CounterError::MalformedAccountData),
            Some(c) => if c == u64::MAX {
                Err(CounterError::CountOverflow)
            } else {
                Ok(le_bytes((c + 1) as u64))
            },
        }
    }
}

/// The effect of incrementing: the first account is the counter.
pub open spec fn increment_spec(program_id: Address, accounts: Seq<AccountSlot>) -> Result<
    (Option<CreateAccountRequest>, Seq<u8>),
    CounterError,
> {
    if accounts.len() < 1 {
        Err(CounterError::NotEnoughAccountKeys)
    } else {
        match increment_data(program_id, accounts[0].owner, accounts[0].data@) {
            Ok(d) => Ok((None, d)),
            Err(e) => Err(e),
        }
    }
}

/// The effect of an instruction given as bytes.
pub open spec fn process_spec(program_id: Address, accounts: Seq<AccountSlot>, data: Seq<u8>)
    -> Result<(Option<CreateAccountRequest>, Seq<u8>), CounterError> {
    match decode_instruction(data) {
        None => Err(CounterError::InvalidInstructionData),
        Some(CounterInstruction::InitializeCounter { initial_value }) => initialize_spec(
            program_id,
            accounts,
            initial_value,
        ),
        Some(CounterInstruction::IncrementCounter) => increment_spec(program_id, accounts),
    }
}

/// Whether a handler's result is the given effect.
pub open spec fn outcome_is(
    r: Result<Outcome, CounterError>,
    effect: Result<(Option<CreateAccountRequest>, Seq<u8>), CounterError>,
) -> bool {
    match r {
        Ok(o) => effect == Ok::<(Option<CreateAccountRequest>, Seq<u8>), CounterError>(o@),
        Err(e) => effect == Err::<(Option<CreateAccountRequest>, Seq<u8>), CounterError>(e),
    }
}

/// Decodes `instruction_data` and runs the handler it names.
pub fn process_instruction(program_id: &Address, accounts: &[AccountSlot], instruction_data: &[u8])
    -> (r: Result<Outcome, CounterError>)
    ensures
        outcome_is(r, process_spec(*program_id, accounts@, instruction_data@)),
        decode_instruction(instruction_data@) is None ==> r == Err::<Outcome, CounterError>(
            CounterError::InvalidInstructionData,
        ),
{
    let instruction = CounterInstruction::try_from_slice(instruction_data)?;
    match instruction {
        CounterInstruction::InitializeCounter { initial_value } => process_initialize_counter(
            program_id,
            accounts,
            initial_value,
        ),
        CounterInstruction::IncrementCounter => process_increment_counter(program_id, accounts),
    }
}

/// Asks for an account of `COUNTER_SPACE` bytes owned by this program at the
/// first account's address, paid for by the second, holding `initial_value`.
pub fn process_initialize_counter(
    program_id: &Address,
    accounts: &[AccountSlot],
    initial_value: u64,
) -> (r: Result<Outcome, CounterError>)
    ensures
        outcome_is(r, initialize_spec(*program_id, accounts@, initial_value)),
        accounts@.len() >= 3 ==> (r matches Ok(o) && read_count(o.counter_data@) == Some(
            initial_value,
        )),
{
    if accounts.len() < 3 {
        return Err(CounterError::NotEnoughAccountKeys);
    }
    let counter_account = &accounts[0];
    let payer_account = &accounts[1];
    let create = CreateAccountRequest {
        payer: payer_account.key,
        new_account: counter_account.key,
        space: COUNTER_SPACE,
        owner: *program_id,
    };
    let counter = CounterAccount { count: initial_value };
    Ok(Outcome { create: Some(create), counter_data: counter.to_bytes() })
}

/// Checks that the first account is owned by this program and holds a count,
/// and gives the data that stores the count plus one.
pub fn process_increment_counter(program_id: &Address, accounts: &[AccountSlot]) -> (r: Result<
    Outcome,
    CounterError,
>)
    ensures
        outcome_is(r, increment_spec(*program_id, accounts@)),
        accounts@.len() > 0 && accounts@[0].owner@ != program_id@ ==> r == Err::<
            Outcome,
            CounterError,
        >(CounterError::IncorrectProgramId),
        accounts@.len() > 0 && accounts@[0].owner@ == program_id@ && read_count(
            accounts@[0].data@,
        ) == Some(u64::MAX) ==> r == Err::<Outcome, CounterError>(CounterError::CountOverflow),
{
    if accounts.len() < 1 {
        return Err(CounterError::NotEnoughAccountKeys);
    }
    let counter_account = &accounts[0];
    if !counter_account.owner.same_as(program_id) {
        return Err(CounterError::IncorrectProgramId);
    }
    let counter = CounterAccount::try_from_slice(counter_account.data.as_slice())?;
    let count = match counter.count.checked_add(1) {
        Some(c) => c,
        None => return Err(CounterError::CountOverflow),
    };
    let updated = CounterAccount { count };
    Ok(Outcome { create: None, counter_data: updated.to_bytes() })
}

/// The counter data after `n` increments of an account with the given owner
/// and data, each increment reading what the one before it stored.
pub open spec fn increment_times(program_id: Address, owner: Address, data: Seq<u8>, n: nat)
    -> Result<Seq<u8>, CounterError>
    decreases n,
{
    if n == 0 {
        Ok(data)
    } else {
        match increment_times(program_id, owner, data, (n - 1) as nat) {
            Ok(d) => increment_data(program_id, owner, d),
            Err(e) => Err(e),
        }
    }
}

/// Initializing with a value and reading the stored data gives that value
/// back.
pub proof fn lemma_initialize_then_read(
    program_id: Address,
    accounts: Seq<AccountSlot>,
    initial_value: u64,
)
    requires
        accounts.len() >= 3,
    ensures
        ({
            let instruction = CounterInstruction::InitializeCounter { initial_value };
            process_spec(program_id, accounts, encode_instruction(instruction)) matches Ok(
                (Some(_), data),
            ) && read_count(data) == Some(initial_value)
        }),
{
    lemma_instruction_round_trip(CounterInstruction::InitializeCounter { initial_value });
    lemma_le_round_trip(initial_value);
}

/// Incrementing `n` times an account of this program that holds `v` stores
/// `v + n`, as long as `v + n` fits in a `u64`.
pub proof fn lemma_increment_n_times(program_id: Address, owner: Address, v: u64, n: nat)
    requires
        owner@ == program_id@,
        v + n <= u64::MAX,
    ensures
        increment_times(program_id, owner, le_bytes(v), n) == Ok::<Seq<u8>, CounterError>(
            le_bytes((v + n) as u64),
        ),
        read_count(le_bytes((v + n) as u64)) == Some((v + n) as u64),
    decreases n,
{
    lemma_le_round_trip((v + n) as u64);
    if n > 0 {
        lemma_increment_n_times(program_id, owner, v, (n - 1) as nat);
        lemma_le_round_trip((v + n - 1) as u64);
    }
}

} // verus!
