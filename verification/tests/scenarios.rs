use anchor_lang::prelude::Pubkey;
use echochain::{
    buy_usage, initialize_voice, use_voice, BuyUsage, EchoError, InitializeVoice, UsageRecord,
    UseVoice, VoiceLicense,
};

fn key(n: u8) -> Pubkey {
    Pubkey::new_from_array([n; 32])
}

fn blank_license() -> VoiceLicense {
    VoiceLicense {
        nft_mint: Pubkey::default(),
        creator: Pubkey::default(),
        price_per_use: 0,
        max_uses: 0,
        remaining_uses: 0,
        license_type: 0,
        resale_allowed: false,
        royalty_bps: 0,
        consent_confirmed: false,
        total_earnings: 0,
        total_uses: 0,
        bump: 0,
    }
}

fn new_record() -> UsageRecord {
    UsageRecord { voice_mint: Pubkey::default(), buyer: Pubkey::default(), remaining_uses: 0, bump: 0 }
}

fn registered(price_per_use: u64, max_uses: u32) -> VoiceLicense {
    let mut ctx = InitializeVoice {
        creator: key(1),
        mint: key(2),
        voice_license: blank_license(),
        voice_license_bump: 254,
    };
    initialize_voice(
        &mut ctx,
        price_per_use,
        max_uses,
        0,
        true,
        500,
        String::from("ipfs://voice"),
        String::from("Voice"),
        String::from("VOX"),
    )
    .unwrap();
    ctx.voice_license
}

#[test]
fn register_buy_use_then_overbuy() {
    let creator = key(1);
    let b = key(3);
    let voice = registered(100, 5);
    assert_eq!(voice.remaining_uses, 5);

    let mut buy = BuyUsage {
        buyer: b,
        creator,
        voice_license: voice,
        usage_record: new_record(),
        usage_record_bump: 253,
    };
    let bought = buy_usage(&mut buy, 3).unwrap();
    assert_eq!(bought.event.amount_paid, 300);
    assert_eq!(buy.voice_license.remaining_uses, 2);
    assert_eq!(buy.usage_record.remaining_uses, 3);

    let mut spend = UseVoice { user: b, voice_license: buy.voice_license, usage_record: buy.usage_record };
    let used = use_voice(&mut spend).unwrap();
    assert_eq!(spend.usage_record.remaining_uses, 2);
    assert_eq!(spend.voice_license.total_uses, 1);
    assert_eq!(used.remaining_uses, 2);
    assert_eq!(used.total_uses, 1);

    let before = BuyUsage {
        buyer: b,
        creator,
        voice_license: spend.voice_license,
        usage_record: spend.usage_record,
        usage_record_bump: 253,
    };
    let mut again = before;
    assert_eq!(buy_usage(&mut again, 3), Err(EchoError::InsufficientUsesAvailable));
    assert_eq!(again, before);
    assert_eq!(again.voice_license.remaining_uses, 2);
    assert_eq!(again.voice_license.total_earnings, 300);
    assert_eq!(again.voice_license.total_uses, 1);
    assert_eq!(again.usage_record.remaining_uses, 2);
}

#[test]
fn register_with_royalty_over_one_whole() {
    let before = InitializeVoice {
        creator: key(1),
        mint: key(2),
        voice_license: blank_license(),
        voice_license_bump: 254,
    };
    let mut ctx = before;
    let res = initialize_voice(
        &mut ctx,
        100,
        5,
        0,
        true,
        10001,
        String::from("ipfs://voice"),
        String::from("Voice"),
        String::from("VOX"),
    );
    assert_eq!(res, Err(EchoError::InvalidRoyalty));
    assert_eq!(ctx, before);
    assert_eq!(ctx.voice_license, blank_license());
}

#[test]
fn non_holder_spends_from_a_holders_record() {
    let b = key(3);
    let stranger = key(4);
    let mut buy = BuyUsage {
        buyer: b,
        creator: key(1),
        voice_license: registered(100, 5),
        usage_record: new_record(),
        usage_record_bump: 253,
    };
    buy_usage(&mut buy, 3).unwrap();

    let before = UseVoice { user: stranger, voice_license: buy.voice_license, usage_record: buy.usage_record };
    let mut ctx = before;
    assert_eq!(use_voice(&mut ctx), Err(EchoError::UnauthorizedUser));
    assert_eq!(ctx, before);
    assert_eq!(ctx.usage_record.remaining_uses, 3);
    assert_eq!(ctx.usage_record.buyer, b);
    assert_eq!(ctx.voice_license.total_uses, 0);
}

#[test]
fn two_holders_buy_and_spend_side_by_side() {
    let creator = key(1);
    let mut voice = registered(25, 10);
    let mut first = new_record();
    let mut second = new_record();

    let mut buy = BuyUsage { buyer: key(3), creator, voice_license: voice, usage_record: first, usage_record_bump: 253 };
    buy_usage(&mut buy, 4).unwrap();
    voice = buy.voice_license;
    first = buy.usage_record;

    let mut buy = BuyUsage { buyer: key(4), creator, voice_license: voice, usage_record: second, usage_record_bump: 252 };
    buy_usage(&mut buy, 6).unwrap();
    voice = buy.voice_license;
    second = buy.usage_record;
    assert_eq!(voice.remaining_uses, 0);
    assert_eq!(voice.total_earnings, 250);

    let mut spend = UseVoice { user: key(4), voice_license: voice, usage_record: second };
    use_voice(&mut spend).unwrap();
    use_voice(&mut spend).unwrap();
    voice = spend.voice_license;
    second = spend.usage_record;

    let mut spend = UseVoice { user: key(3), voice_license: voice, usage_record: first };
    use_voice(&mut spend).unwrap();
    voice = spend.voice_license;
    first = spend.usage_record;

    assert_eq!(voice.total_uses, 3);
    assert_eq!(first.remaining_uses, 3);
    assert_eq!(second.remaining_uses, 4);
    assert_eq!(first.remaining_uses + second.remaining_uses + voice.total_uses, voice.max_uses - voice.remaining_uses);

    let mut buy = BuyUsage { buyer: key(3), creator, voice_license: voice, usage_record: first, usage_record_bump: 253 };
    assert_eq!(buy_usage(&mut buy, 1), Err(EchoError::InsufficientUsesAvailable));
    assert_eq!(buy.usage_record, first);
    assert_eq!(buy.voice_license, voice);
}
