use prediction_market::address::Address;
use prediction_market::errors::PredictionMarketError;
use prediction_market::instructions::accept_authority::AcceptAuthority;
use prediction_market::instructions::configure::{
    check_record, frame_record, Configure, ConfigureFunding, DISCRIMINATOR_LEN,
};
use prediction_market::instructions::nominate_authority::NominateAuthority;
use prediction_market::state::config::{decimal_multiplier, AmountConfig, Config};
use prediction_market::{accept_authority, configure, nominate_authority};

fn key(tag: u8) -> Address {
    let mut bytes = [0u8; 32];
    bytes[0] = tag;
    Address::new(bytes)
}

fn sample_config() -> Config {
    Config {
        authority: key(1),
        pending_authority: Address::default(),
        team_wallet: key(9),
        platform_buy_fee: 100,
        platform_sell_fee: 100,
        lp_buy_fee: 100,
        lp_sell_fee: 100,
        token_supply_config: 1_000_000_000_000_000,
        token_decimals_config: 6,
        initial_real_token_reserves_config: 1_000_000_000_000,
        min_sol_liquidity: 30_000_000,
        initialized: true,
    }
}

#[test]
fn decimal_multiplier_is_a_power_of_ten() {
    assert_eq!(decimal_multiplier(0), Some(1));
    assert_eq!(decimal_multiplier(6), Some(1_000_000));
    assert_eq!(decimal_multiplier(19), Some(10_000_000_000_000_000_000));
    assert_eq!(decimal_multiplier(20), None);
    assert_eq!(decimal_multiplier(255), None);
}

#[test]
fn a_sound_configuration_is_valid() {
    assert_eq!(sample_config().validate(), Ok(()));
}

#[test]
fn a_fractional_supply_is_value_invalid() {
    let mut config = sample_config();
    config.token_supply_config = 1_000_000_000_000_001;
    assert_eq!(config.validate(), Err(PredictionMarketError::ValueInvalid));
    config.token_supply_config = 1_000_000_000_999_999;
    assert_eq!(config.validate(), Err(PredictionMarketError::ValueInvalid));
    config.token_supply_config = 1_000_000_001_000_000;
    assert_eq!(config.validate(), Ok(()));
}

#[test]
fn a_supply_below_the_seed_is_invalid_amount() {
    let mut config = sample_config();
    config.token_supply_config = 999_999_000_000;
    assert_eq!(config.validate(), Err(PredictionMarketError::InvalidAmount));
    config.token_supply_config = 1_000_000_000_000;
    assert_eq!(config.validate(), Ok(()));
    config.token_supply_config = 0;
    config.initial_real_token_reserves_config = 1;
    assert_eq!(config.validate(), Err(PredictionMarketError::InvalidAmount));
}

#[test]
fn a_supply_that_covers_the_seed_is_enough() {
    let mut config = sample_config();
    config.token_supply_config = 1_000_000_000;
    config.initial_real_token_reserves_config = 500_000_000;
    assert_eq!(config.validate(), Ok(()));
    config.token_supply_config = u64::MAX - u64::MAX % 1_000_000;
    config.initial_real_token_reserves_config = 1_000_000_000_000_000;
    assert_eq!(config.validate(), Ok(()));
}

#[test]
fn a_small_seed_still_needs_a_supply() {
    let mut config = sample_config();
    config.token_supply_config = 0;
    config.initial_real_token_reserves_config = 999_999;
    assert_eq!(config.validate(), Err(PredictionMarketError::InvalidAmount));
    config.initial_real_token_reserves_config = 0;
    assert_eq!(config.validate(), Ok(()));
}

#[test]
fn a_fee_above_ten_thousand_is_invalid_parameter() {
    let mut config = sample_config();
    config.platform_buy_fee = 10_001;
    assert_eq!(config.validate(), Err(PredictionMarketError::InvalidParameter));
    let mut config = sample_config();
    config.platform_sell_fee = 10_001;
    assert_eq!(config.validate(), Err(PredictionMarketError::InvalidParameter));
    let mut config = sample_config();
    config.lp_buy_fee = u64::MAX;
    assert_eq!(config.validate(), Err(PredictionMarketError::InvalidParameter));
    let mut config = sample_config();
    config.lp_sell_fee = 10_001;
    assert_eq!(config.validate(), Err(PredictionMarketError::InvalidParameter));
    let mut config = sample_config();
    config.lp_sell_fee = 10_000;
    config.platform_buy_fee = 0;
    assert_eq!(config.validate(), Ok(()));
}

#[test]
fn validation_reports_the_supply_before_the_fees() {
    let mut config = sample_config();
    config.token_supply_config = 1;
    config.platform_buy_fee = 20_000;
    assert_eq!(config.validate(), Err(PredictionMarketError::ValueInvalid));
    config.token_supply_config = 1_000_000;
    assert_eq!(config.validate(), Err(PredictionMarketError::InvalidAmount));
    config.token_supply_config = 1_000_000_000_000;
    assert_eq!(config.validate(), Err(PredictionMarketError::InvalidParameter));
}

#[test]
fn decimals_beyond_64_bits_are_refused() {
    let mut config = sample_config();
    config.token_decimals_config = 20;
    assert_eq!(
        config.validate(),
        Err(PredictionMarketError::OverflowOrUnderflowOccurred)
    );
    config.token_supply_config = 0;
    config.initial_real_token_reserves_config = 5;
    config.platform_buy_fee = 0;
    config.platform_sell_fee = 0;
    config.lp_buy_fee = 0;
    config.lp_sell_fee = 0;
    assert_eq!(
        config.validate(),
        Err(PredictionMarketError::OverflowOrUnderflowOccurred)
    );
    config.initial_real_token_reserves_config = 0;
    assert_eq!(
        config.validate(),
        Err(PredictionMarketError::OverflowOrUnderflowOccurred)
    );
    config.token_decimals_config = 255;
    assert_eq!(
        config.validate(),
        Err(PredictionMarketError::OverflowOrUnderflowOccurred)
    );
    config.token_decimals_config = 19;
    assert_eq!(config.validate(), Ok(()));
    config.token_supply_config = 10_000_000_000_000_000_000;
    assert_eq!(config.validate(), Ok(()));
    config.token_supply_config = 10_000_000_000_000_000_001;
    assert_eq!(config.validate(), Err(PredictionMarketError::ValueInvalid));
}

#[test]
fn a_configuration_with_too_many_decimals_is_not_stored() {
    let mut ctx = Configure {
        payer: key(7),
        config: None,
        config_lamports: 0,
        global_vault_lamports: 0,
    };
    let mut bad = sample_config();
    bad.token_decimals_config = 20;
    bad.token_supply_config = 0;
    bad.initial_real_token_reserves_config = 5;
    let before = ctx;
    assert_eq!(
        ctx.handler(bad, 1),
        Err(PredictionMarketError::OverflowOrUnderflowOccurred)
    );
    assert_eq!(ctx, before);
    assert_eq!(ctx.config, None);
}

#[test]
fn a_supply_of_twice_the_seed_is_put_in_force() {
    let mut ctx = Configure {
        payer: key(7),
        config: None,
        config_lamports: 0,
        global_vault_lamports: 0,
    };
    let mut config = sample_config();
    config.token_supply_config = 1_000_000_000;
    config.initial_real_token_reserves_config = 500_000_000;
    assert!(ctx.handler(config, 10).is_ok());
    assert_eq!(ctx.config, Some(config));
}

#[test]
fn the_first_configuration_comes_from_anybody() {
    let mut ctx = Configure {
        payer: key(7),
        config: None,
        config_lamports: 0,
        global_vault_lamports: 0,
    };
    let funding = configure(&mut ctx, sample_config(), 2_000_000);
    assert_eq!(
        funding,
        Ok(ConfigureFunding { config_top_up: 2_000_000, vault_seed: 1_000_000 })
    );
    assert_eq!(ctx.config, Some(sample_config()));
    assert_eq!(ctx.config_lamports, 2_000_000);
    assert_eq!(ctx.global_vault_lamports, 1_000_000);
    assert!(ctx.payer == key(7));
}

#[test]
fn reconfiguring_is_for_the_authority_alone() {
    let mut ctx = Configure {
        payer: key(7),
        config: Some(sample_config()),
        config_lamports: 2_000_000,
        global_vault_lamports: 1_000_000,
    };
    let mut next = sample_config();
    next.min_sol_liquidity = 50_000_000;
    assert_eq!(
        ctx.handler(next, 2_000_000),
        Err(PredictionMarketError::IncorrectAuthority)
    );
    assert_eq!(ctx.config, Some(sample_config()));

    ctx.payer = key(1);
    assert_eq!(
        ctx.handler(next, 2_500_000),
        Ok(ConfigureFunding { config_top_up: 500_000, vault_seed: 0 })
    );
    assert_eq!(ctx.config, Some(next));
    assert_eq!(ctx.config_lamports, 2_500_000);
    assert_eq!(ctx.global_vault_lamports, 1_000_000);
}

#[test]
fn applying_the_same_configuration_again_changes_nothing() {
    let mut ctx = Configure {
        payer: key(1),
        config: None,
        config_lamports: 5_000_000,
        global_vault_lamports: 3,
    };
    assert_eq!(
        ctx.handler(sample_config(), 2_000_000),
        Ok(ConfigureFunding { config_top_up: 0, vault_seed: 0 })
    );
    let once = ctx;
    assert_eq!(
        ctx.handler(sample_config(), 2_000_000),
        Ok(ConfigureFunding { config_top_up: 0, vault_seed: 0 })
    );
    assert_eq!(ctx, once);
}

#[test]
fn an_invalid_configuration_is_refused_before_the_authority_is_looked_at() {
    let mut ctx = Configure {
        payer: key(7),
        config: Some(sample_config()),
        config_lamports: 0,
        global_vault_lamports: 0,
    };
    let mut bad = sample_config();
    bad.token_supply_config = 5;
    let before = ctx;
    assert_eq!(ctx.handler(bad, 1), Err(PredictionMarketError::ValueInvalid));
    assert_eq!(ctx, before);
}

#[test]
fn authority_changes_hands_in_two_steps() {
    let a = key(1);
    let b = key(2);
    let c = key(3);
    let mut nominate = NominateAuthority { admin: a, global_config: sample_config() };
    assert_eq!(nominate_authority(&mut nominate, b), Ok(()));
    assert!(nominate.global_config.pending_authority == b);
    assert!(nominate.global_config.authority == a);

    let mut by_c = AcceptAuthority { new_admin: c, global_config: nominate.global_config };
    assert_eq!(
        accept_authority(&mut by_c),
        Err(PredictionMarketError::IncorrectAuthority)
    );
    assert_eq!(by_c.global_config, nominate.global_config);

    let mut by_b = AcceptAuthority { new_admin: b, global_config: nominate.global_config };
    assert_eq!(accept_authority(&mut by_b), Ok(()));
    assert!(by_b.global_config.authority == b);
    assert!(by_b.global_config.pending_authority.is_zero());
    assert_eq!(by_b.global_config.team_wallet, sample_config().team_wallet);
    assert_eq!(by_b.global_config.min_sol_liquidity, 30_000_000);

    let mut again = NominateAuthority { admin: a, global_config: by_b.global_config };
    assert_eq!(again.process(c), Err(PredictionMarketError::IncorrectAuthority));
    assert_eq!(again.global_config, by_b.global_config);
}

#[test]
fn nobody_accepts_before_a_nomination() {
    let mut by_zero = AcceptAuthority {
        new_admin: Address::default(),
        global_config: sample_config(),
    };
    assert_eq!(by_zero.process(), Err(PredictionMarketError::IncorrectAuthority));
    let mut by_authority = AcceptAuthority { new_admin: key(1), global_config: sample_config() };
    assert_eq!(
        by_authority.process(),
        Err(PredictionMarketError::IncorrectAuthority)
    );
}

#[test]
fn only_the_authority_nominates() {
    let mut ctx = NominateAuthority { admin: key(5), global_config: sample_config() };
    assert_eq!(ctx.process(key(5)), Err(PredictionMarketError::IncorrectAuthority));
    assert!(ctx.global_config.pending_authority.is_zero());
}

#[test]
fn a_range_admits_what_lies_between_its_ends() {
    let range = AmountConfig::Range { min: Some(10u64), max: Some(20u64) };
    assert_eq!(range.validate(&9), Err(PredictionMarketError::ValueTooSmall));
    assert_eq!(range.validate(&10), Ok(()));
    assert_eq!(range.validate(&20), Ok(()));
    assert_eq!(range.validate(&21), Err(PredictionMarketError::ValueTooLarge));
}

#[test]
fn a_range_without_an_end_is_open_there() {
    let no_min = AmountConfig::Range { min: None, max: Some(20u64) };
    assert_eq!(no_min.validate(&0), Ok(()));
    assert_eq!(no_min.validate(&21), Err(PredictionMarketError::ValueTooLarge));
    let no_max = AmountConfig::Range { min: Some(10u64), max: None };
    assert_eq!(no_max.validate(&u64::MAX), Ok(()));
    assert_eq!(no_max.validate(&9), Err(PredictionMarketError::ValueTooSmall));
    let open: AmountConfig<u64> = AmountConfig::Range { min: None, max: None };
    assert_eq!(open.validate(&5), Ok(()));
}

#[test]
fn a_list_admits_its_members_only() {
    let list = AmountConfig::Enum(vec![6u8, 9u8]);
    assert_eq!(list.validate(&6), Ok(()));
    assert_eq!(list.validate(&9), Ok(()));
    assert_eq!(list.validate(&7), Err(PredictionMarketError::ValueInvalid));
    let empty: AmountConfig<u8> = AmountConfig::Enum(vec![]);
    assert_eq!(empty.validate(&6), Err(PredictionMarketError::ValueInvalid));
    assert!(AmountConfig::is_listed(&vec![1u8, 2, 3], &3));
    assert!(!AmountConfig::is_listed(&vec![1u8, 2, 3], &4));
}

#[test]
fn a_stored_record_begins_with_its_discriminator() {
    let tag = [1u8, 2, 3, 4, 5, 6, 7, 8];
    assert_eq!(DISCRIMINATOR_LEN, 8);
    assert_eq!(check_record(&[1, 2, 3, 4, 5, 6, 7, 8], &tag), Ok(()));
    assert_eq!(check_record(&[1, 2, 3, 4, 5, 6, 7, 8, 9, 10], &tag), Ok(()));
    assert_eq!(
        check_record(&[1, 2, 3, 4, 5, 6, 7], &tag),
        Err(PredictionMarketError::IncorrectConfigAccount)
    );
    assert_eq!(
        check_record(&[], &tag),
        Err(PredictionMarketError::IncorrectConfigAccount)
    );
    assert_eq!(
        check_record(&[1, 2, 3, 4, 5, 6, 7, 9, 8], &tag),
        Err(PredictionMarketError::IncorrectConfigAccount)
    );
    assert_eq!(
        check_record(&[0, 2, 3, 4, 5, 6, 7, 8], &tag),
        Err(PredictionMarketError::IncorrectConfigAccount)
    );
}

#[test]
fn framing_puts_the_discriminator_in_front() {
    let tag = [1u8, 2, 3, 4, 5, 6, 7, 8];
    assert_eq!(frame_record(&tag, &[9, 10]), vec![1, 2, 3, 4, 5, 6, 7, 8, 9, 10]);
    assert_eq!(frame_record(&tag, &[]), vec![1, 2, 3, 4, 5, 6, 7, 8]);
    assert_eq!(check_record(&frame_record(&tag, &[0, 0, 0]), &tag), Ok(()));
}
