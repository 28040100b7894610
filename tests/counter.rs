use counter_program::processor::{process_increment_counter, process_initialize_counter, COUNTER_SPACE};
use counter_program::{
    process_instruction, AccountSlot, Address, CounterAccount, CounterError, CounterInstruction,
    CreateAccountRequest,
};

fn addr(b: u8) -> Address {
    Address { bytes: [b; 32] }
}

fn slot(key: u8, owner: u8, data: Vec<u8>) -> AccountSlot {
    AccountSlot { key: addr(key), owner: addr(owner), data }
}

fn counter_slot(program: u8, count: u64) -> AccountSlot {
    slot(7, program, CounterAccount { count }.to_bytes())
}

fn init_accounts() -> Vec<AccountSlot> {
    vec![slot(7, 0, vec![]), slot(8, 0, vec![]), slot(0, 0, vec![])]
}

fn increment(program: &Address, account: AccountSlot) -> Result<AccountSlot, CounterError> {
    let bytes = CounterInstruction::IncrementCounter.to_bytes();
    let outcome = process_instruction(program, &[account.clone()], &bytes)?;
    assert!(outcome.create.is_none());
    Ok(AccountSlot { data: outcome.counter_data, ..account })
}

fn count_of(account: &AccountSlot) -> u64 {
    CounterAccount::try_from_slice(&account.data).unwrap().count
}

#[test]
fn test_counter_program() {
    let program_id = addr(1);
    let initial_value: u64 = 42;
    let init_instruction_data =
        CounterInstruction::InitializeCounter { initial_value }.to_bytes();
    let accounts = init_accounts();
    let result = process_instruction(&program_id, &accounts, &init_instruction_data);
    assert!(result.is_ok(), "Initialize transaction should succeed");
    let outcome = result.unwrap();
    let counter = CounterAccount::try_from_slice(&outcome.counter_data).unwrap();
    assert_eq!(counter.count, 42);

    let account = AccountSlot { key: addr(7), owner: program_id, data: outcome.counter_data };
    let result = increment(&program_id, account);
    assert!(result.is_ok(), "Increment transaction should succeed");
    assert_eq!(count_of(&result.unwrap()), 43);
}

#[test]
fn initialize_requests_account_creation() {
    let program_id = addr(1);
    let outcome = process_initialize_counter(&program_id, &init_accounts(), 5).unwrap();
    assert_eq!(
        outcome.create,
        Some(CreateAccountRequest {
            payer: addr(8),
            new_account: addr(7),
            space: 8,
            owner: program_id,
        })
    );
    assert_eq!(COUNTER_SPACE, 8);
    assert_eq!(outcome.counter_data, vec![5, 0, 0, 0, 0, 0, 0, 0]);
}

#[test]
fn initialize_then_read_gives_value() {
    for v in [0u64, 1, 42, 1 << 40, u64::MAX] {
        let bytes = CounterInstruction::InitializeCounter { initial_value: v }.to_bytes();
        let outcome = process_instruction(&addr(1), &init_accounts(), &bytes).unwrap();
        assert_eq!(CounterAccount::try_from_slice(&outcome.counter_data), Ok(CounterAccount { count: v }));
    }
}

#[test]
fn initialize_needs_three_accounts() {
    let two = vec![slot(7, 0, vec![]), slot(8, 0, vec![])];
    assert_eq!(process_initialize_counter(&addr(1), &two, 3).err(), Some(CounterError::NotEnoughAccountKeys));
}

#[test]
fn increment_n_times_adds_n() {
    let program_id = addr(1);
    let mut account = counter_slot(1, 100);
    for _ in 0..25 {
        account = increment(&program_id, account).unwrap();
    }
    assert_eq!(count_of(&account), 125);
}

#[test]
fn increment_up_to_max_then_overflow() {
    let program_id = addr(1);
    let account = increment(&program_id, counter_slot(1, u64::MAX - 1)).unwrap();
    assert_eq!(count_of(&account), u64::MAX);
    assert_eq!(account.data, vec![0xff; 8]);
    assert_eq!(increment(&program_id, account).err(), Some(CounterError::CountOverflow));
}

#[test]
fn increment_at_max_fails() {
    let r = process_increment_counter(&addr(1), &[counter_slot(1, u64::MAX)]);
    assert_eq!(r.err(), Some(CounterError::CountOverflow));
}

#[test]
fn increment_foreign_account_fails() {
    let mut other = [1u8; 32];
    other[31] = 2;
    let account = AccountSlot { key: addr(7), owner: Address { bytes: other }, data: vec![0; 8] };
    let r = process_increment_counter(&addr(1), &[account]);
    assert_eq!(r.err(), Some(CounterError::IncorrectProgramId));
}

#[test]
fn increment_needs_an_account() {
    let r = process_increment_counter(&addr(1), &[]);
    assert_eq!(r.err(), Some(CounterError::NotEnoughAccountKeys));
}

#[test]
fn increment_malformed_data_fails() {
    for data in [vec![], vec![0u8; 7], vec![0u8; 9]] {
        let r = process_increment_counter(&addr(1), &[slot(7, 1, data)]);
        assert_eq!(r.err(), Some(CounterError::MalformedAccountData));
    }
}

#[test]
fn instruction_bytes() {
    assert_eq!(
        CounterInstruction::InitializeCounter { initial_value: 42 }.to_bytes(),
        vec![0, 42, 0, 0, 0, 0, 0, 0, 0]
    );
    assert_eq!(CounterInstruction::IncrementCounter.to_bytes(), vec![1]);
    assert_eq!(
        CounterInstruction::try_from_slice(&[0, 1, 2, 0, 0, 0, 0, 0, 0]),
        Ok(CounterInstruction::InitializeCounter { initial_value: 0x0201 })
    );
    assert_eq!(CounterInstruction::try_from_slice(&[1]), Ok(CounterInstruction::IncrementCounter));
}

#[test]
fn malformed_instruction_rejected() {
    let bad: Vec<Vec<u8>> = vec![vec![], vec![2], vec![1, 0], vec![0, 1, 2], vec![0; 10]];
    for data in bad {
        assert_eq!(CounterInstruction::try_from_slice(&data), Err(CounterError::InvalidInstructionData));
        assert_eq!(
            process_instruction(&addr(1), &init_accounts(), &data).err(),
            Some(CounterError::InvalidInstructionData)
        );
    }
}

#[test]
fn counter_record_bytes() {
    let data = [1u8, 2, 3, 4, 5, 6, 7, 8];
    assert_eq!(CounterAccount::try_from_slice(&data).unwrap().count, 0x0807060504030201);
    assert_eq!(CounterAccount { count: 0x0807060504030201 }.to_bytes(), data.to_vec());
    assert_eq!(CounterAccount { count: 258 }.to_bytes(), borsh::to_vec(&258u64).unwrap());
}

#[test]
fn addresses_compare_by_bytes() {
    let mut b = [9u8; 32];
    assert!(Address { bytes: b }.same_as(&addr(9)));
    b[0] = 8;
    assert!(!Address { bytes: b }.same_as(&addr(9)));
}
