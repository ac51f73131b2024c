//! Consumption: a holder spends one of the uses they bought.

use vstd::prelude::*;
use anchor_lang::prelude::Pubkey;
use crate::chain::same_key;
use crate::error::EchoError;
use crate::events::VoiceUsed;
use crate::state::{UsageRecord, VoiceLicense};

verus! {

/// The records and identities that a consumption works on.
#[derive(Clone, Copy, Debug, PartialEq, Eq)]
pub struct UseVoice {
    /// The caller, who signed the request.
    pub user: Pubkey,
    /// The license of the voice.
    pub voice_license: VoiceLicense,
    /// The usage record presented. It must be the caller's own for this voice.
    pub usage_record: UsageRecord,
}

/// Why the consumption is rejected, or `None` if it is accepted. The record
/// presented must be the one kept for this voice and this caller; then it must
/// hold a use; and last the count of uses must stay in range.
pub open spec fn consume_error(ctx: UseVoice) -> Option<EchoError> {
    if !ctx.usage_record.belongs_to(ctx.voice_license.nft_mint, ctx.user) {
        Some(EchoError::UnauthorizedUser)
    } else if ctx.usage_record.remaining_uses == 0 {
        Some(EchoError::NoUsesRemaining)
    } else if ctx.voice_license.total_uses == u32::MAX {
        Some(EchoError::Overflow)
    } else {
        None
    }
}

/// The records after an accepted consumption: the holder has one use fewer,
/// and the voice has been used once more.
pub open spec fn after_use(ctx: UseVoice) -> UseVoice {
    UseVoice {
        voice_license: VoiceLicense {
            total_uses: (ctx.voice_license.total_uses + 1) as u32,
            ..ctx.voice_license
        },
        usage_record: UsageRecord {
            remaining_uses: (ctx.usage_record.remaining_uses - 1) as u32,
            ..ctx.usage_record
        },
        ..ctx
    }
}

/// The event that proves an accepted consumption: who used which voice, what
/// the holder has left and how often the voice has been used, this use
/// included.
pub open spec fn use_proof(ctx: UseVoice) -> VoiceUsed {
    VoiceUsed {
        mint: ctx.voice_license.nft_mint,
        user: ctx.user,
        remaining_uses: after_use(ctx).usage_record.remaining_uses,
        total_uses: after_use(ctx).voice_license.total_uses,
    }
}

/// Spends one use of the voice for the caller.
///
/// The request is rejected, and the records are left as they were, if the
/// usage record presented is not the caller's own for this voice, if it holds
/// no use, or if the count of uses would overflow. Otherwise the holder's
/// record loses one use, the license counts one use more, and the result is
/// the event that proves the use. The caller publishes it once the records are
/// stored.
pub fn use_voice(ctx: &mut UseVoice) -> (res: Result<VoiceUsed, EchoError>)
    ensures
        match res {
            Ok(event) => {
                &&& consume_error(*old(ctx)) is None
                &&& *final(ctx) == after_use(*old(ctx))
                &&& event == use_proof(*old(ctx))
            },
            Err(e) => {
                &&& consume_error(*old(ctx)) == Some(e)
                &&& *final(ctx) == *old(ctx)
            },
        },
        res is Ok ==> {
            &&& old(ctx).usage_record.remaining_uses > 0
            &&& final(ctx).usage_record.remaining_uses == old(ctx).usage_record.remaining_uses - 1
            &&& final(ctx).voice_license.total_uses == old(ctx).voice_license.total_uses + 1
            &&& final(ctx).voice_license.remaining_uses == old(ctx).voice_license.remaining_uses
            &&& final(ctx).voice_license.total_earnings == old(ctx).voice_license.total_earnings
            &&& old(ctx).voice_license.same_terms(final(ctx).voice_license)
            &&& res->Ok_0.remaining_uses == final(ctx).usage_record.remaining_uses
            &&& res->Ok_0.total_uses == final(ctx).voice_license.total_uses
        },
        old(ctx).usage_record.remaining_uses == 0 ==> res is Err && *final(ctx) == *old(ctx),
        old(ctx).voice_license.well_formed() ==> final(ctx).voice_license.well_formed(),
        old(ctx).voice_license.books_balance() ==> final(ctx).voice_license.books_balance(),
{
    if !same_key(&ctx.usage_record.voice_mint, &ctx.voice_license.nft_mint) {
        return Err(EchoError::UnauthorizedUser);
    }
    if !same_key(&ctx.usage_record.buyer, &ctx.user) {
        return Err(EchoError::UnauthorizedUser);
    }
    if ctx.usage_record.remaining_uses == 0 {
        return Err(EchoError::NoUsesRemaining);
    }
    let total_uses: u32 = match ctx.voice_license.total_uses.checked_add(1) {
        Some(total) => total,
        None => {
            return Err(EchoError::Overflow);
        },
    };
    let remaining: u32 = ctx.usage_record.remaining_uses - 1;
    ctx.usage_record.remaining_uses = remaining;
    ctx.voice_license.total_uses = total_uses;
    Ok(
        VoiceUsed {
            mint: ctx.voice_license.nft_mint,
            user: ctx.user,
            remaining_uses: remaining,
            total_uses,
        },
    )
}

} // verus!
