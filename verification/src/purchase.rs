//! Purchase: a buyer pays the creator for a block of uses, which moves from
//! the license's pool to the buyer's usage record.

use vstd::prelude::*;
use anchor_lang::prelude::Pubkey;
use anchor_lang::solana_program::instruction::Instruction;
use crate::chain::{same_key, system_transfer, transfer_instruction};
use crate::error::EchoError;
use crate::events::UsagePurchased;
use crate::state::{UsageRecord, VoiceLicense};

verus! {

/// The records and identities that a purchase works on.
#[derive(Clone, Copy, Debug, PartialEq, Eq)]
pub struct BuyUsage {
    /// The buyer, who signed the request and pays.
    pub buyer: Pubkey,
    /// The payee that the request names. It must be the creator of the voice.
    pub creator: Pubkey,
    /// The license of the voice.
    pub voice_license: VoiceLicense,
    /// The record kept for this voice and this buyer. Before the buyer's first
    /// purchase it is a new record, which holds no uses.
    pub usage_record: UsageRecord,
    /// The bump seed of the address under which the usage record is kept.
    pub usage_record_bump: u8,
}

/// What the caller carries out after an accepted purchase.
#[derive(Debug, PartialEq, Eq)]
pub struct Purchase {
    /// The payment: the instruction that moves the price from the buyer to the
    /// creator. A purchase counts only if this payment goes through.
    pub transfer: Instruction,
    /// The event to publish once the records are stored.
    pub event: UsagePurchased,
}

/// The price of `uses` uses at `price_per_use` each.
pub open spec fn purchase_cost(price_per_use: u64, uses: u32) -> int {
    price_per_use * uses
}

/// Why the purchase of `uses` uses is rejected, or `None` if it is accepted.
/// The payee is checked first, then the amount asked for, then the pool, and
/// last that the price and the three counters stay in range.
pub open spec fn purchase_error(ctx: BuyUsage, uses: u32) -> Option<EchoError> {
    let license = ctx.voice_license;
    let cost = purchase_cost(license.price_per_use, uses);
    if ctx.creator != license.creator {
        Some(EchoError::InvalidCreator)
    } else if uses == 0 {
        Some(EchoError::InvalidUsesAmount)
    } else if license.remaining_uses < uses {
        Some(EchoError::InsufficientUsesAvailable)
    } else if cost > u64::MAX || ctx.usage_record.remaining_uses + uses > u32::MAX
        || license.total_earnings + cost > u64::MAX {
        Some(EchoError::Overflow)
    } else {
        None
    }
}

/// The records after the accepted purchase of `uses` uses: the uses have moved
/// from the license's pool to the buyer's record, which now names the voice
/// and the buyer, and the price has been added to the creator's earnings.
pub open spec fn after_purchase(ctx: BuyUsage, uses: u32) -> BuyUsage {
    let license = ctx.voice_license;
    BuyUsage {
        voice_license: VoiceLicense {
            remaining_uses: (license.remaining_uses - uses) as u32,
            total_earnings: (license.total_earnings + purchase_cost(license.price_per_use, uses)) as u64,
            ..license
        },
        usage_record: UsageRecord {
            voice_mint: license.nft_mint,
            buyer: ctx.buyer,
            remaining_uses: (ctx.usage_record.remaining_uses + uses) as u32,
            bump: ctx.usage_record_bump,
        },
        ..ctx
    }
}

/// What the caller carries out after the accepted purchase of `uses` uses: the
/// payment of the price by the buyer to the payee, and the event.
pub open spec fn purchase_order(ctx: BuyUsage, uses: u32) -> Purchase {
    let license = ctx.voice_license;
    let cost = purchase_cost(license.price_per_use, uses) as u64;
    Purchase {
        transfer: system_transfer(ctx.buyer, ctx.creator, cost),
        event: UsagePurchased {
            mint: license.nft_mint,
            buyer: ctx.buyer,
            uses_purchased: uses,
            amount_paid: cost,
            remaining_available: (license.remaining_uses - uses) as u32,
        },
    }
}

/// Multiplication by the price distributes over the uses sold.
pub(crate) proof fn lemma_cost_adds_up(price: int, sold: int, uses: int)
    ensures
        price * (sold + uses) == price * sold + price * uses,
{
    assert(price * (sold + uses) == price * sold + price * uses) by (nonlinear_arith);
}

/// A purchase reads nothing of the usage record that it is handed but the
/// number of uses in it: whatever voice and holder the record named before, the
/// request is accepted or rejected alike and leaves the same records. So the
/// record of a first purchase may be any record that holds no uses.
pub proof fn theorem_purchase_reads_only_the_balance(ctx: BuyUsage, other: UsageRecord, uses: u32)
    requires
        other.remaining_uses == ctx.usage_record.remaining_uses,
    ensures
        purchase_error(BuyUsage { usage_record: other, ..ctx }, uses) == purchase_error(ctx, uses),
        after_purchase(BuyUsage { usage_record: other, ..ctx }, uses) == after_purchase(ctx, uses),
        purchase_order(BuyUsage { usage_record: other, ..ctx }, uses) == purchase_order(ctx, uses),
{
}

/// Buys `uses_to_buy` uses of the voice for the buyer.
///
/// The request is rejected, and the records are left as they were, if the
/// payee is not the creator, if no uses are asked for, if the license has fewer
/// uses left than are asked for, or if the price or a counter would overflow.
/// Otherwise the records move to their state after the purchase, and the
/// result holds the payment and the event. The caller makes the payment before
/// it stores the records, and drops the records if the payment fails.
pub fn buy_usage(ctx: &mut BuyUsage, uses_to_buy: u32) -> (res: Result<Purchase, EchoError>)
    ensures
        match res {
            Ok(purchase) => {
                &&& purchase_error(*old(ctx), uses_to_buy) is None
                &&& *final(ctx) == after_purchase(*old(ctx), uses_to_buy)
                &&& purchase == purchase_order(*old(ctx), uses_to_buy)
            },
            Err(e) => {
                &&& purchase_error(*old(ctx), uses_to_buy) == Some(e)
                &&& *final(ctx) == *old(ctx)
            },
        },
        uses_to_buy > old(ctx).voice_license.remaining_uses ==> res is Err && *final(ctx) == *old(ctx),
        res is Ok ==> {
            &&& final(ctx).voice_license.remaining_uses + uses_to_buy == old(ctx).voice_license.remaining_uses
            &&& final(ctx).usage_record.remaining_uses == old(ctx).usage_record.remaining_uses + uses_to_buy
            &&& final(ctx).voice_license.total_earnings == old(ctx).voice_license.total_earnings
                + old(ctx).voice_license.price_per_use * uses_to_buy
            &&& final(ctx).voice_license.total_uses == old(ctx).voice_license.total_uses
            &&& old(ctx).voice_license.same_terms(final(ctx).voice_license)
        },
        old(ctx).voice_license.well_formed() ==> final(ctx).voice_license.well_formed(),
        old(ctx).voice_license.well_formed() && old(ctx).voice_license.books_balance()
            ==> final(ctx).voice_license.books_balance(),
{
    if !same_key(&ctx.creator, &ctx.voice_license.creator) {
        return Err(EchoError::InvalidCreator);
    }
    if uses_to_buy == 0 {
        return Err(EchoError::InvalidUsesAmount);
    }
    if ctx.voice_license.remaining_uses < uses_to_buy {
        return Err(EchoError::InsufficientUsesAvailable);
    }
    let total_cost: u64 = match ctx.voice_license.price_per_use.checked_mul(uses_to_buy as u64) {
        Some(cost) => cost,
        None => {
            return Err(EchoError::Overflow);
        },
    };
    let held: u32 = match ctx.usage_record.remaining_uses.checked_add(uses_to_buy) {
        Some(held) => held,
        None => {
            return Err(EchoError::Overflow);
        },
    };
    let earnings: u64 = match ctx.voice_license.total_earnings.checked_add(total_cost) {
        Some(earnings) => earnings,
        None => {
            return Err(EchoError::Overflow);
        },
    };
    let remaining: u32 = ctx.voice_license.remaining_uses - uses_to_buy;
    proof {
        let license = old(ctx).voice_license;
        lemma_cost_adds_up(license.price_per_use as int, license.sold(), uses_to_buy as int);
    }

    let transfer = transfer_instruction(&ctx.buyer, &ctx.creator, total_cost);
    ctx.usage_record = UsageRecord {
        voice_mint: ctx.voice_license.nft_mint,
        buyer: ctx.buyer,
        remaining_uses: held,
        bump: ctx.usage_record_bump,
    };
    ctx.voice_license.remaining_uses = remaining;
    ctx.voice_license.total_earnings = earnings;
    Ok(
        Purchase {
            transfer,
            event: UsagePurchased {
                mint: ctx.voice_license.nft_mint,
                buyer: ctx.buyer,
                uses_purchased: uses_to_buy,
                amount_paid: total_cost,
                remaining_available: remaining,
            },
        },
    )
}

} // verus!
