//! A usage-rights licensing ledger for voice assets.
//!
//! A creator registers a voice with a price per use and a cap on uses, buyers
//! pay the creator for blocks of uses, and holders spend their uses one at a
//! time. Every operation is a pure transition on the records that the caller
//! loaded: it either rejects the request and leaves the records as they were,
//! or moves them to their next state and says what the caller has to carry out
//! (a mint, a payment) and which event to publish.

pub mod audit;
pub mod chain;
pub mod consume;
pub mod error;
pub mod events;
pub mod holders;
pub mod ledger;
pub mod purchase;
pub mod register;
pub mod state;

pub use chain::system_transfer;
pub use consume::{use_voice, UseVoice};
pub use error::EchoError;
pub use events::{UsagePurchased, VoiceInitialized, VoiceUsed};
pub use ledger::{Ledger, Request};
pub use purchase::{buy_usage, BuyUsage, Purchase};
pub use register::{initialize_voice, InitializeVoice, MintOrder, Registration, TOKENS_PER_VOICE};
pub use state::{UsageRecord, VoiceLicense, LICENSE_COMMERCIAL, LICENSE_PERSONAL, MAX_ROYALTY_BPS};
