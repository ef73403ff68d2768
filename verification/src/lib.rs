//! Stealth market-making scheduler: a verified core for a bot that spreads
//! randomized buy/sell activity over a pool of wallets.
//!
//! The library holds the decision logic: wallet rotation, weighted action
//! choice, ratio-bounded amounts, randomized delays, the replay-protection
//! handle cache and the token-account existence cache. All randomness and
//! clock readings are taken as plain arguments, so every decision is a pure,
//! verified function; the surrounding process performs the network calls and
//! feeds the outcomes back.

pub mod account_cache;
pub mod bytes;
pub mod chain;
pub mod config;
pub mod decide;
pub mod executor;
pub mod handle_cache;
pub mod ledger;
pub mod ops;
pub mod pool;
pub mod scheduler;
pub mod wallet;

pub use config::SchedulerConfig;
pub use decide::{TradeAction, TradeDecision};
pub use pool::WalletPool;
pub use scheduler::{plan_cycle, CyclePlan};
pub use wallet::WalletHandle;
