//! A multi-instance lottery core: lottery lifecycle and phase transitions, a
//! participant/ticket ledger, a write-once commitment registry, and a
//! deterministic, auditable winner-selection engine (a seeded pseudo-random
//! draw plus a verification hash binding the winner to the draw inputs).

pub mod draw;
pub mod errors;
pub mod state;
pub mod strfmt;
pub mod types;

pub use errors::LotteryError;
pub use state::State;
pub use types::{Commit, DrawResult, Lottery, LotteryPublicInfo, LotteryPurpose, ParticipantEntry};
