//! A pooled-wager race game: participants lock a fixed token stake into a
//! shared escrow, a winner is selected once enough participants have joined,
//! and the pooled stake is paid to the winner, after which the race resets
//! for reuse.
//!
//! The library holds the race lifecycle state machine, the persisted state's
//! byte codec, and the escrow-custody helpers; the surrounding program glue
//! (account plumbing, cross-program invocations) lives outside it.

pub mod codec;
pub mod escrow;
pub mod instruction;
pub mod lifecycle;
pub mod state;

pub use instruction::process_instruction;
pub use instruction::HorseRaceInstruction;
pub use state::GameState;
pub use state::HorseRace;
pub use state::Player;
pub use state::RaceError;
pub use state::Wallet;
