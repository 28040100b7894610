//! A two-instruction counter program: decode a tagged instruction, check the
//! counter account, and compute the account data to store.
pub mod codec;
pub mod error;
pub mod instruction;
pub mod processor;
pub mod state;

pub use error::CounterError;
pub use instruction::CounterInstruction;
pub use processor::{process_instruction, AccountSlot, CreateAccountRequest, Outcome};
pub use state::{Address, CounterAccount};
