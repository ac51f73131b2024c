use anchor_lang::prelude::Pubkey;
use echochain::{use_voice, EchoError, UsageRecord, UseVoice, VoiceLicense, VoiceUsed};

fn key(n: u8) -> Pubkey {
    Pubkey::new_from_array([n; 32])
}

fn license() -> VoiceLicense {
    VoiceLicense {
        nft_mint: key(2),
        creator: key(1),
        price_per_use: 100,
        max_uses: 5,
        remaining_uses: 2,
        license_type: 1,
        resale_allowed: true,
        royalty_bps: 500,
        consent_confirmed: true,
        total_earnings: 300,
        total_uses: 0,
        bump: 254,
    }
}

fn record_of(buyer: Pubkey, remaining_uses: u32) -> UsageRecord {
    UsageRecord { voice_mint: key(2), buyer, remaining_uses, bump: 253 }
}

#[test]
fn consumption_spends_one_use() {
    let mut ctx = UseVoice { user: key(3), voice_license: license(), usage_record: record_of(key(3), 3) };
    let used = use_voice(&mut ctx).unwrap();
    assert_eq!(ctx.usage_record, record_of(key(3), 2));
    assert_eq!(ctx.voice_license, VoiceLicense { total_uses: 1, ..license() });
    assert_eq!(ctx.user, key(3));
    assert_eq!(used, VoiceUsed { mint: key(2), user: key(3), remaining_uses: 2, total_uses: 1 });
}

#[test]
fn consumption_runs_the_balance_down_to_zero_and_no_further() {
    let mut ctx = UseVoice { user: key(3), voice_license: license(), usage_record: record_of(key(3), 3) };
    for spent in 1u32..=3 {
        let before = ctx.usage_record.remaining_uses;
        let used = use_voice(&mut ctx).unwrap();
        assert_eq!(ctx.usage_record.remaining_uses, before - 1);
        assert_eq!(used.remaining_uses, 3 - spent);
        assert_eq!(used.total_uses, spent);
    }
    let before = ctx;
    assert_eq!(use_voice(&mut ctx), Err(EchoError::NoUsesRemaining));
    assert_eq!(ctx, before);
    assert_eq!(ctx.usage_record.remaining_uses, 0);
    assert_eq!(ctx.voice_license.total_uses, 3);
}

#[test]
fn consumption_with_no_use_left_is_rejected() {
    let before = UseVoice { user: key(3), voice_license: license(), usage_record: record_of(key(3), 0) };
    let mut ctx = before;
    assert_eq!(use_voice(&mut ctx), Err(EchoError::NoUsesRemaining));
    assert_eq!(ctx, before);
}

#[test]
fn consumption_by_another_than_the_holder_is_rejected() {
    let before = UseVoice { user: key(4), voice_license: license(), usage_record: record_of(key(3), 3) };
    let mut ctx = before;
    assert_eq!(use_voice(&mut ctx), Err(EchoError::UnauthorizedUser));
    assert_eq!(ctx, before);
    assert_eq!(ctx.usage_record.remaining_uses, 3);
    assert_eq!(ctx.voice_license.total_uses, 0);
}

#[test]
fn consumption_by_the_creator_without_a_purchase_is_rejected() {
    let before = UseVoice { user: key(1), voice_license: license(), usage_record: record_of(key(3), 3) };
    let mut ctx = before;
    assert_eq!(use_voice(&mut ctx), Err(EchoError::UnauthorizedUser));
    assert_eq!(ctx, before);
}

#[test]
fn consumption_against_a_record_of_another_voice_is_rejected() {
    let mut record = record_of(key(3), 3);
    record.voice_mint = key(8);
    let before = UseVoice { user: key(3), voice_license: license(), usage_record: record };
    let mut ctx = before;
    assert_eq!(use_voice(&mut ctx), Err(EchoError::UnauthorizedUser));
    assert_eq!(ctx, before);
}

#[test]
fn consumption_against_a_new_record_is_rejected() {
    let record = UsageRecord {
        voice_mint: Pubkey::default(),
        buyer: Pubkey::default(),
        remaining_uses: 0,
        bump: 0,
    };
    let before = UseVoice { user: key(3), voice_license: license(), usage_record: record };
    let mut ctx = before;
    assert_eq!(use_voice(&mut ctx), Err(EchoError::UnauthorizedUser));
    assert_eq!(ctx, before);
}

#[test]
fn consumption_checks_the_holder_before_the_balance() {
    let before = UseVoice { user: key(4), voice_license: license(), usage_record: record_of(key(3), 0) };
    let mut ctx = before;
    assert_eq!(use_voice(&mut ctx), Err(EchoError::UnauthorizedUser));
    assert_eq!(ctx, before);
}

#[test]
fn consumption_that_overflows_the_use_count_is_rejected() {
    let mut voice = license();
    voice.total_uses = u32::MAX;
    let before = UseVoice { user: key(3), voice_license: voice, usage_record: record_of(key(3), 3) };
    let mut ctx = before;
    assert_eq!(use_voice(&mut ctx), Err(EchoError::Overflow));
    assert_eq!(ctx, before);
    ctx.voice_license.total_uses = u32::MAX - 1;
    let used = use_voice(&mut ctx).unwrap();
    assert_eq!(used.total_uses, u32::MAX);
    assert_eq!(ctx.usage_record.remaining_uses, 2);
}

#[test]
fn consumption_leaves_the_pool_and_the_earnings_alone() {
    let mut ctx = UseVoice { user: key(3), voice_license: license(), usage_record: record_of(key(3), 1) };
    use_voice(&mut ctx).unwrap();
    assert_eq!(ctx.voice_license.remaining_uses, 2);
    assert_eq!(ctx.voice_license.total_earnings, 300);
    assert_eq!(ctx.voice_license.max_uses, 5);
}

#[test]
fn use_count_is_the_sum_of_what_the_holders_spent() {
    let mut voice = license();
    voice.max_uses = 12;
    voice.remaining_uses = 0;
    let mut records = [record_of(key(10), 5), record_of(key(11), 4), record_of(key(12), 3)];
    let mut spent = [0u32; 3];
    let turns: [usize; 9] = [0, 1, 1, 2, 0, 0, 2, 1, 0];
    for who in turns {
        let mut ctx = UseVoice { user: key(10 + who as u8), voice_license: voice, usage_record: records[who] };
        use_voice(&mut ctx).unwrap();
        voice = ctx.voice_license;
        records[who] = ctx.usage_record;
        spent[who] += 1;
        assert_eq!(voice.total_uses, spent[0] + spent[1] + spent[2]);
    }
    assert_eq!(spent, [4, 3, 2]);
    assert_eq!(voice.total_uses, 9);
    assert_eq!(records[0].remaining_uses, 1);
    assert_eq!(records[1].remaining_uses, 1);
    assert_eq!(records[2].remaining_uses, 1);
}
