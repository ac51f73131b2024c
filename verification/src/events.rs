//! The events that the ledger asks its caller to publish, one per accepted
//! request. Together they let an observer keep the running totals without
//! reading the records.

use vstd::prelude::*;
use anchor_lang::prelude::Pubkey;

verus! {

/// A voice was registered.
#[derive(Debug, PartialEq, Eq)]
pub struct VoiceInitialized {
    /// The mint of the voice's token.
    pub mint: Pubkey,
    /// The creator of the voice.
    pub creator: Pubkey,
    /// The price of one use, in lamports.
    pub price_per_use: u64,
    /// The number of uses that may ever be sold.
    pub max_uses: u32,
    /// The license type.
    pub license_type: u8,
    /// Where the description of the voice is found.
    pub metadata_uri: String,
}

/// A buyer bought uses of a voice.
#[derive(Clone, Copy, Debug, PartialEq, Eq)]
pub struct UsagePurchased {
    /// The mint of the voice's token.
    pub mint: Pubkey,
    /// The buyer.
    pub buyer: Pubkey,
    /// The number of uses bought.
    pub uses_purchased: u32,
    /// What the buyer paid the creator, in lamports.
    pub amount_paid: u64,
    /// The number of uses that the license has left to sell after the purchase.
    pub remaining_available: u32,
}

/// A holder spent one use of a voice. This is the proof of use.
#[derive(Clone, Copy, Debug, PartialEq, Eq)]
pub struct VoiceUsed {
    /// The mint of the voice's token.
    pub mint: Pubkey,
    /// The holder who spent the use.
    pub user: Pubkey,
    /// The number of uses that the holder has left after this one.
    pub remaining_uses: u32,
    /// The number of uses of the voice spent so far, this one included.
    pub total_uses: u32,
}

} // verus!
