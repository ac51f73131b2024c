//! The two kinds of record that the ledger keeps: one license per voice, and
//! one usage record per voice and holder.

use vstd::prelude::*;
use anchor_lang::prelude::Pubkey;

verus! {

/// The license type of a voice licensed for personal use.
pub const LICENSE_PERSONAL: u8 = 0;

/// The license type of a voice licensed for commercial use.
pub const LICENSE_COMMERCIAL: u8 = 1;

/// The largest royalty share, one whole, in basis points.
pub const MAX_ROYALTY_BPS: u16 = 10000;

/// The terms under which one voice is licensed, and its running totals.
/// There is one such record per voice, kept under the key of the voice's mint.
#[derive(Clone, Copy, Debug, PartialEq, Eq)]
pub struct VoiceLicense {
    /// The mint of the voice's token: the identity of the voice.
    pub nft_mint: Pubkey,
    /// The creator, who registered the voice and is paid for its uses.
    pub creator: Pubkey,
    /// The price of one use, in lamports.
    pub price_per_use: u64,
    /// The number of uses that may ever be sold. Fixed at registration.
    pub max_uses: u32,
    /// The number of uses still for sale.
    pub remaining_uses: u32,
    /// `LICENSE_PERSONAL` or `LICENSE_COMMERCIAL`.
    pub license_type: u8,
    /// Whether a holder may resell the license.
    pub resale_allowed: bool,
    /// The creator's share of a resale, in basis points. Recorded only.
    pub royalty_bps: u16,
    /// Set at registration: the creator consents by signing the request.
    pub consent_confirmed: bool,
    /// All that buyers have paid the creator so far, in lamports.
    pub total_earnings: u64,
    /// The number of uses that holders have spent so far.
    pub total_uses: u32,
    /// The bump seed of the address under which the record is kept.
    pub bump: u8,
}

/// What one holder may still spend of one voice. There is one such record per
/// voice and holder, kept under the pair of their keys.
#[derive(Clone, Copy, Debug, PartialEq, Eq)]
pub struct UsageRecord {
    /// The mint of the voice that the uses are for.
    pub voice_mint: Pubkey,
    /// The holder, who bought the uses and alone may spend them.
    pub buyer: Pubkey,
    /// The number of uses bought and not yet spent.
    pub remaining_uses: u32,
    /// The bump seed of the address under which the record is kept.
    pub bump: u8,
}

impl VoiceLicense {
    /// The number of uses sold so far.
    pub open spec fn sold(self) -> int {
        self.max_uses - self.remaining_uses
    }

    /// The terms are valid and no more uses are for sale than the cap allows.
    pub open spec fn well_formed(self) -> bool {
        &&& self.max_uses > 0
        &&& self.remaining_uses <= self.max_uses
        &&& self.license_type <= LICENSE_COMMERCIAL
        &&& self.royalty_bps <= MAX_ROYALTY_BPS
        &&& self.consent_confirmed
    }

    /// The earnings are the price of every use sold.
    pub open spec fn books_balance(self) -> bool {
        self.total_earnings == self.price_per_use * self.sold()
    }

    /// The terms of the license, which no operation after registration changes:
    /// `other` differs from this record in its running totals at most.
    pub open spec fn same_terms(self, other: VoiceLicense) -> bool {
        &&& other.nft_mint == self.nft_mint
        &&& other.creator == self.creator
        &&& other.price_per_use == self.price_per_use
        &&& other.max_uses == self.max_uses
        &&& other.license_type == self.license_type
        &&& other.resale_allowed == self.resale_allowed
        &&& other.royalty_bps == self.royalty_bps
        &&& other.consent_confirmed == self.consent_confirmed
        &&& other.bump == self.bump
    }
}

impl UsageRecord {
    /// The record is the one kept for the voice `mint` and the holder `holder`.
    pub open spec fn belongs_to(self, mint: Pubkey, holder: Pubkey) -> bool {
        self.voice_mint == mint && self.buyer == holder
    }
}

} // verus!
