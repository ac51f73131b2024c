//! Registration: a creator registers a voice under the terms of its license
//! and receives the one token that stands for the voice.

use vstd::prelude::*;
use anchor_lang::prelude::Pubkey;
use crate::error::EchoError;
use crate::events::VoiceInitialized;
use crate::state::{VoiceLicense, LICENSE_COMMERCIAL, MAX_ROYALTY_BPS};

verus! {

/// The number of tokens minted for a voice: the token is unique.
pub const TOKENS_PER_VOICE: u64 = 1;

/// The records and identities that a registration works on.
#[derive(Clone, Copy, Debug, PartialEq, Eq)]
pub struct InitializeVoice {
    /// The creator, who signed the request.
    pub creator: Pubkey,
    /// The mint of the voice's token, made for this registration.
    pub mint: Pubkey,
    /// The new record that the registration fills in.
    pub voice_license: VoiceLicense,
    /// The bump seed of the address under which the license is kept.
    pub voice_license_bump: u8,
}

/// An order to mint `amount` tokens of `mint` to `owner`.
#[derive(Clone, Copy, Debug, PartialEq, Eq)]
pub struct MintOrder {
    /// The mint of the token.
    pub mint: Pubkey,
    /// Who receives the tokens, and under whose authority they are minted.
    pub owner: Pubkey,
    /// How many tokens to mint.
    pub amount: u64,
}

/// What the caller carries out after an accepted registration.
#[derive(Debug, PartialEq, Eq)]
pub struct Registration {
    /// The mint of the voice's token to its creator. A registration counts
    /// only if this mint goes through.
    pub mint_to: MintOrder,
    /// The event to publish once the license is stored.
    pub event: VoiceInitialized,
}

/// Why a registration under these terms is rejected, or `None` if it is
/// accepted. The cap is checked first, then the royalty, then the license type.
pub open spec fn registration_error(max_uses: u32, license_type: u8, royalty_bps: u16) -> Option<
    EchoError,
> {
    if max_uses == 0 {
        Some(EchoError::InvalidMaxUses)
    } else if royalty_bps > MAX_ROYALTY_BPS {
        Some(EchoError::InvalidRoyalty)
    } else if license_type > LICENSE_COMMERCIAL {
        Some(EchoError::InvalidLicenseType)
    } else {
        None
    }
}

/// The license of a voice as registered: every use is for sale, nothing has
/// been earned or used, and the creator has consented.
pub open spec fn registered_license(
    ctx: InitializeVoice,
    price_per_use: u64,
    max_uses: u32,
    license_type: u8,
    resale_allowed: bool,
    royalty_bps: u16,
) -> VoiceLicense {
    VoiceLicense {
        nft_mint: ctx.mint,
        creator: ctx.creator,
        price_per_use,
        max_uses,
        remaining_uses: max_uses,
        license_type,
        resale_allowed,
        royalty_bps,
        consent_confirmed: true,
        total_earnings: 0,
        total_uses: 0,
        bump: ctx.voice_license_bump,
    }
}

/// Registers a voice under the given terms.
///
/// The request is rejected, and the record is left as it was, if the cap is
/// zero, if the royalty exceeds 10000 basis points, or if the license type is
/// neither 0 nor 1. Otherwise the record becomes the license as registered,
/// and the result holds the order to mint the voice's one token to the creator
/// and the event. The caller has the token minted before it stores the record,
/// and drops the record if the mint fails.
///
/// The token's `name` and `symbol` are taken with the request; the ledger
/// records neither.
#[allow(unused_variables)]
pub fn initialize_voice(
    ctx: &mut InitializeVoice,
    price_per_use: u64,
    max_uses: u32,
    license_type: u8,
    resale_allowed: bool,
    royalty_bps: u16,
    metadata_uri: String,
    name: String,
    symbol: String,
) -> (res: Result<Registration, EchoError>)
    ensures
        match res {
            Ok(registration) => {
                &&& registration_error(max_uses, license_type, royalty_bps) is None
                &&& *final(ctx) == (InitializeVoice {
                    voice_license: registered_license(
                        *old(ctx),
                        price_per_use,
                        max_uses,
                        license_type,
                        resale_allowed,
                        royalty_bps,
                    ),
                    ..*old(ctx)
                })
                &&& registration.mint_to == (MintOrder {
                    mint: old(ctx).mint,
                    owner: old(ctx).creator,
                    amount: TOKENS_PER_VOICE,
                })
                &&& registration.event == (VoiceInitialized {
                    mint: old(ctx).mint,
                    creator: old(ctx).creator,
                    price_per_use,
                    max_uses,
                    license_type,
                    metadata_uri,
                })
            },
            Err(e) => {
                &&& registration_error(max_uses, license_type, royalty_bps) == Some(e)
                &&& *final(ctx) == *old(ctx)
            },
        },
        res is Ok ==> {
            &&& final(ctx).voice_license.remaining_uses == max_uses
            &&& final(ctx).voice_license.total_earnings == 0
            &&& final(ctx).voice_license.total_uses == 0
            &&& final(ctx).voice_license.consent_confirmed
            &&& final(ctx).voice_license.well_formed()
            &&& final(ctx).voice_license.books_balance()
        },
{
    if max_uses == 0 {
        return Err(EchoError::InvalidMaxUses);
    }
    if royalty_bps > MAX_ROYALTY_BPS {
        return Err(EchoError::InvalidRoyalty);
    }
    if license_type > LICENSE_COMMERCIAL {
        return Err(EchoError::InvalidLicenseType);
    }
    ctx.voice_license = VoiceLicense {
        nft_mint: ctx.mint,
        creator: ctx.creator,
        price_per_use,
        max_uses,
        remaining_uses: max_uses,
        license_type,
        resale_allowed,
        royalty_bps,
        consent_confirmed: true,
        total_earnings: 0,
        total_uses: 0,
        bump: ctx.voice_license_bump,
    };
    assert(ctx.voice_license.books_balance()) by {
        assert(ctx.voice_license.sold() == 0);
        assert(price_per_use * 0 == 0);
    }
    Ok(
        Registration {
            mint_to: MintOrder { mint: ctx.mint, owner: ctx.creator, amount: TOKENS_PER_VOICE },
            event: VoiceInitialized {
                mint: ctx.mint,
                creator: ctx.creator,
                price_per_use,
                max_uses,
                license_type,
                metadata_uri,
            },
        },
    )
}

} // verus!
