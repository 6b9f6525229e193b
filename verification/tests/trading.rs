use prediction_market::address::Address;
use prediction_market::constants::{DIRECTION_BUY, DIRECTION_SELL, TOKEN_TYPE_NO, TOKEN_TYPE_YES};
use prediction_market::errors::PredictionMarketError;
use prediction_market::instructions::create_market::CreateMarket;
use prediction_market::instructions::swap::Swap;
use prediction_market::state::config::Config;
use prediction_market::state::market::{
    BuyResult, CreateMarketParams, Market, MarketAccount, SellResult, TradeAmounts, UserInfo,
};
use prediction_market::{create_market, swap};

fn key(tag: u8) -> Address {
    let mut bytes = [0u8; 32];
    bytes[0] = tag;
    Address::new(bytes)
}

fn config_with_fees(platform: u64, lp: u64) -> Config {
    Config {
        authority: key(1),
        pending_authority: Address::default(),
        team_wallet: key(9),
        platform_buy_fee: platform,
        platform_sell_fee: platform,
        lp_buy_fee: lp,
        lp_sell_fee: lp,
        token_supply_config: 1_000_000_000_000_000,
        token_decimals_config: 6,
        initial_real_token_reserves_config: 1_000_000_000_000,
        min_sol_liquidity: 30_000_000,
        initialized: true,
    }
}

fn new_market(config: Config, start_slot: Option<u64>, ending_slot: Option<u64>) -> Market {
    let ctx = CreateMarket {
        global_config: config,
        team_wallet: config.team_wallet,
        creator: key(2),
        yes_token: key(20),
        no_token: key(21),
        market: key(22),
        yes_token_metadata_account: key(23),
        no_token_metadata_account: key(24),
    };
    let params = CreateMarketParams {
        yes_symbol: String::from("YES"),
        yes_uri: String::from("https://example.org/yes"),
        start_slot,
        ending_slot,
    };
    ctx.handler(&params, 100).unwrap().0
}

fn blank_user() -> UserInfo {
    UserInfo {
        user: Address::default(),
        yes_balance: 0,
        no_balance: 0,
        is_lp: false,
        is_initialized: false,
    }
}

fn trader(config: Config, market: Market) -> Swap {
    Swap {
        global_config: config,
        team_wallet: config.team_wallet,
        market,
        market_info: key(22),
        user_info: blank_user(),
        user: key(5),
    }
}

fn tiny_market(min_sol: u64, tokens: u64) -> (Config, Market) {
    let mut config = config_with_fees(0, 0);
    config.min_sol_liquidity = min_sol;
    config.initial_real_token_reserves_config = tokens;
    let market = new_market(config, None, None);
    (config, market)
}

#[test]
fn a_new_market_starts_seeded_and_open() {
    let config = config_with_fees(100, 100);
    let ctx = CreateMarket {
        global_config: config,
        team_wallet: config.team_wallet,
        creator: key(2),
        yes_token: key(20),
        no_token: key(21),
        market: key(22),
        yes_token_metadata_account: key(23),
        no_token_metadata_account: key(24),
    };
    let params = CreateMarketParams {
        yes_symbol: String::from("YES"),
        yes_uri: String::from("uri"),
        start_slot: Some(150),
        ending_slot: Some(1_000),
    };
    let (market, event) = create_market(&ctx, &params, 100).unwrap();
    assert_eq!(
        market,
        Market {
            yes_token_mint: key(20),
            no_token_mint: key(21),
            creator: key(2),
            initial_yes_token_reserves: 1_000_000_000_000,
            real_yes_token_reserves: 1_000_000_000_000,
            real_yes_sol_reserves: 0,
            token_yes_total_supply: 1_000_000_000_000_000,
            initial_no_token_reserves: 1_000_000_000_000,
            real_no_token_reserves: 1_000_000_000_000,
            real_no_sol_reserves: 0,
            token_no_total_supply: 1_000_000_000_000_000,
            is_completed: false,
            start_slot: Some(150),
            ending_slot: Some(1_000),
            lps: vec![],
            total_lp_amount: 0,
        }
    );
    assert!(event.creator == key(2));
    assert!(event.market == key(22));
    assert!(event.token_yes == key(20));
    assert!(event.token_no == key(21));
    assert!(event.metadata_yes == key(23));
    assert!(event.metadata_no == key(24));
    assert_eq!(event.token_yes_total_supply, 1_000_000_000_000_000);
    assert_eq!(event.token_no_total_supply, 1_000_000_000_000_000);
    assert_eq!(event.real_yes_sol_reserves, 0);
    assert_eq!(event.real_no_sol_reserves, 0);
    assert_eq!(event.start_slot, 150);
    assert_eq!(event.ending_slot, 1_000);
}

#[test]
fn a_market_without_a_window_reports_zero_slots() {
    let config = config_with_fees(0, 0);
    let ctx = CreateMarket {
        global_config: config,
        team_wallet: config.team_wallet,
        creator: key(2),
        yes_token: key(20),
        no_token: key(21),
        market: key(22),
        yes_token_metadata_account: key(23),
        no_token_metadata_account: key(24),
    };
    let params = CreateMarketParams {
        yes_symbol: String::new(),
        yes_uri: String::new(),
        start_slot: None,
        ending_slot: None,
    };
    let (market, event) = ctx.handler(&params, 0).unwrap();
    assert_eq!(market.start_slot, None);
    assert_eq!(market.ending_slot, None);
    assert_eq!(event.start_slot, 0);
    assert_eq!(event.ending_slot, 0);
}

#[test]
fn the_end_of_a_market_must_be_ahead_and_within_the_delay() {
    let config = config_with_fees(0, 0);
    let ctx = CreateMarket {
        global_config: config,
        team_wallet: config.team_wallet,
        creator: key(2),
        yes_token: key(20),
        no_token: key(21),
        market: key(22),
        yes_token_metadata_account: key(23),
        no_token_metadata_account: key(24),
    };
    let mut params = CreateMarketParams {
        yes_symbol: String::new(),
        yes_uri: String::new(),
        start_slot: None,
        ending_slot: Some(100),
    };
    assert_eq!(
        ctx.handler(&params, 100).map(|_| ()),
        Err(PredictionMarketError::InvalidEndTime)
    );
    params.ending_slot = Some(99);
    assert_eq!(
        ctx.handler(&params, 100).map(|_| ()),
        Err(PredictionMarketError::InvalidEndTime)
    );
    params.ending_slot = Some(101);
    assert!(ctx.handler(&params, 100).is_ok());
    params.ending_slot = Some(100 + 1_512_000);
    assert!(ctx.handler(&params, 100).is_ok());
    params.ending_slot = Some(100 + 1_512_001);
    assert_eq!(
        ctx.handler(&params, 100).map(|_| ()),
        Err(PredictionMarketError::InvalidEndTime)
    );
    params.ending_slot = Some(u64::MAX);
    assert_eq!(
        ctx.handler(&params, u64::MAX - 1).map(|_| ()),
        Ok(())
    );
}

#[test]
fn a_market_is_created_for_the_configured_team_wallet_only() {
    let config = config_with_fees(0, 0);
    let ctx = CreateMarket {
        global_config: config,
        team_wallet: key(8),
        creator: key(2),
        yes_token: key(20),
        no_token: key(21),
        market: key(22),
        yes_token_metadata_account: key(23),
        no_token_metadata_account: key(24),
    };
    let params = CreateMarketParams {
        yes_symbol: String::new(),
        yes_uri: String::new(),
        start_slot: None,
        ending_slot: None,
    };
    assert_eq!(
        ctx.handler(&params, 100).map(|_| ()),
        Err(PredictionMarketError::IncorrectAuthority)
    );
}

#[test]
fn the_first_buy_on_a_fresh_market() {
    let config = config_with_fees(100, 100);
    let mut ctx = trader(config, new_market(config, None, None));
    let receipt = swap(&mut ctx, 1_000_000, DIRECTION_BUY, TOKEN_TYPE_YES, 0, 100, 1_700_000_000)
        .unwrap();
    // The fee is 2 % of 1_000_000, so 980_000 go into the curve and the
    // effective base currency becomes 30_980_000.
    assert_eq!(
        receipt.amounts,
        TradeAmounts {
            sol_amount: 1_000_000,
            token_amount: 31_633_311_815,
            platform_fee: 10_000,
            lp_fee: 10_000,
        }
    );
    assert_eq!(
        receipt.amounts.token_amount,
        1_000_000_000_000 - (30_000_000u128 * 1_000_000_000_000u128 / 30_980_000u128) as u64
    );
    assert_eq!(ctx.market.real_yes_token_reserves, 968_366_688_185);
    // 980_000 from the trade and 10_000 of fee for the liquidity providers.
    assert_eq!(ctx.market.real_yes_sol_reserves, 990_000);
    assert_eq!(ctx.market.real_no_token_reserves, 1_000_000_000_000);
    assert_eq!(ctx.market.real_no_sol_reserves, 0);
    assert_eq!(
        ctx.user_info,
        UserInfo {
            user: key(5),
            yes_balance: 31_633_311_815,
            no_balance: 0,
            is_lp: false,
            is_initialized: true,
        }
    );
    let event = receipt.event;
    assert!(event.user == key(5));
    assert!(event.token_yes == key(20));
    assert!(event.token_no == key(21));
    assert!(event.market_info == key(22));
    assert_eq!(event.sol_amount, 1_000_000);
    assert_eq!(event.token_amount, 31_633_311_815);
    assert_eq!(event.fee_lamports, 20_000);
    assert!(event.is_buy);
    assert!(event.is_yes_no);
    assert_eq!(event.real_sol_reserves, 990_000);
    assert_eq!(event.real_token_yes_reserves, 968_366_688_185);
    assert_eq!(event.real_token_no_reserves, 1_000_000_000_000);
    assert_eq!(event.timestamp, 1_700_000_000);
}

#[test]
fn the_quote_for_the_first_buy_on_a_fresh_market() {
    let config = config_with_fees(100, 100);
    let market = new_market(config, None, None);
    let quoted = market.get_tokens_for_buy_sol(&config, 980_000, TOKEN_TYPE_YES);
    assert_eq!(
        quoted,
        Some(BuyResult {
            token_amount: 31_633_311_815,
            change_amount: 980_000,
            current_yes_reserves: 1_000_000_000_000,
            current_no_reserves: 1_000_000_000_000,
            new_yes_reserves: 968_366_688_185,
            new_no_reserves: 1_000_000_000_000,
        })
    );
}

#[test]
fn a_second_identical_buy_yields_fewer_tokens() {
    let config = config_with_fees(100, 100);
    let mut ctx = trader(config, new_market(config, None, None));
    let first = ctx.handler(1_000_000, DIRECTION_BUY, TOKEN_TYPE_YES, 0, 100, 0).unwrap();
    let second = ctx.handler(1_000_000, DIRECTION_BUY, TOKEN_TYPE_YES, 0, 101, 0).unwrap();
    assert_eq!(first.amounts.token_amount, 31_633_311_815);
    assert_eq!(second.amounts.token_amount, 29_684_058_631);
    assert!(second.amounts.token_amount < first.amounts.token_amount);
    assert_eq!(ctx.market.real_yes_token_reserves, 938_682_629_554);
    assert_eq!(ctx.market.real_yes_sol_reserves, 1_980_000);
    assert_eq!(ctx.user_info.yes_balance, 31_633_311_815 + 29_684_058_631);
}

#[test]
fn selling_back_what_was_bought() {
    let config = config_with_fees(100, 100);
    let mut ctx = trader(config, new_market(config, None, None));
    let bought = ctx.handler(1_000_000, DIRECTION_BUY, TOKEN_TYPE_YES, 0, 100, 0).unwrap();
    let sold = ctx
        .handler(bought.amounts.token_amount, DIRECTION_SELL, TOKEN_TYPE_YES, 0, 100, 7)
        .unwrap();
    // The curve gives 980_317 for the tokens; 2 % of it is the fee.
    assert_eq!(
        sold.amounts,
        TradeAmounts {
            sol_amount: 980_317,
            token_amount: 31_633_311_815,
            platform_fee: 9_803,
            lp_fee: 9_803,
        }
    );
    // What the seller receives is less than what the buyer paid.
    let received = sold.amounts.sol_amount - sold.amounts.platform_fee - sold.amounts.lp_fee;
    assert_eq!(received, 960_711);
    assert!(received < 1_000_000);
    assert_eq!(ctx.market.real_yes_token_reserves, 1_000_000_000_000);
    assert_eq!(ctx.market.real_yes_sol_reserves, 19_486);
    assert_eq!(ctx.user_info.yes_balance, 0);
    assert!(!sold.event.is_buy);
    assert!(sold.event.is_yes_no);
    assert_eq!(sold.event.sol_amount, 980_317);
    assert_eq!(sold.event.fee_lamports, 19_606);
    assert_eq!(sold.event.real_sol_reserves, 19_486);
    assert_eq!(sold.event.timestamp, 7);
}

#[test]
fn the_product_of_the_reserves_is_accounted_for() {
    let config = config_with_fees(100, 100);
    let mut ctx = trader(config, new_market(config, None, None));
    let before: u128 = 30_000_000u128 * 1_000_000_000_000u128;
    let receipt = ctx.handler(1_000_000, DIRECTION_BUY, TOKEN_TYPE_YES, 0, 100, 0).unwrap();
    let after: u128 = (30_000_000u128 + ctx.market.real_yes_sol_reserves as u128)
        * ctx.market.real_yes_token_reserves as u128;
    let loss: u128 = before % 30_980_000u128;
    let stayed: u128 = receipt.amounts.lp_fee as u128 * ctx.market.real_yes_token_reserves as u128;
    assert_eq!(loss, 28_700_000);
    assert_eq!(after, 30_009_683_666_853_150_000);
    assert_eq!(after + loss, before + stayed);
    assert!(after >= before);
}

#[test]
fn without_fees_rounding_lets_the_product_slip_by_less_than_one_unit() {
    let (config, market) = tiny_market(3, 10);
    let mut ctx = trader(config, market);
    let receipt = ctx.handler(1, DIRECTION_BUY, TOKEN_TYPE_YES, 0, 100, 0).unwrap();
    assert_eq!(receipt.amounts.token_amount, 3);
    assert_eq!(ctx.market.real_yes_token_reserves, 7);
    assert_eq!(ctx.market.real_yes_sol_reserves, 1);
    // 4 * 7 = 28 is below 3 * 10 = 30, and one more token would exceed it.
    assert!(4 * 7 < 3 * 10);
    assert!(4 * (7 + 1) > 3 * 10);
}

#[test]
fn a_round_trip_without_remainder_returns_what_was_paid() {
    let (config, market) = tiny_market(10, 100);
    let mut ctx = trader(config, market);
    let bought = ctx.handler(10, DIRECTION_BUY, TOKEN_TYPE_NO, 0, 100, 0).unwrap();
    assert_eq!(bought.amounts.token_amount, 50);
    assert_eq!(ctx.user_info.no_balance, 50);
    assert_eq!(ctx.user_info.yes_balance, 0);
    let sold = ctx.handler(50, DIRECTION_SELL, TOKEN_TYPE_NO, 0, 100, 0).unwrap();
    assert_eq!(sold.amounts.sol_amount, 10);
    assert_eq!(ctx.market.real_no_sol_reserves, 0);
    assert_eq!(ctx.market.real_no_token_reserves, 100);
    assert_eq!(ctx.market.real_yes_token_reserves, 100);
    assert!(!sold.event.is_yes_no);
}

#[test]
fn a_round_trip_with_remainder_is_quoted_above_what_was_paid() {
    let (config, market) = tiny_market(3, 10);
    let mut market = market;
    let bought = market.apply_buy(&config, 1, TOKEN_TYPE_YES).unwrap();
    assert_eq!(bought.token_amount, 3);
    let back = market.get_tokens_for_sell_sol(&config, 3, TOKEN_TYPE_YES).unwrap();
    assert_eq!(
        back,
        SellResult {
            token_amount: 3,
            change_amount: 2,
            current_yes_reserves: 7,
            current_no_reserves: 10,
            new_yes_reserves: 10,
            new_no_reserves: 10,
        }
    );
    // The side holds 1, so the quote of 2 cannot be paid.
    assert_eq!(market.apply_sell(&config, 3, TOKEN_TYPE_YES), None);
    assert_eq!(market.real_yes_token_reserves, 7);
    assert_eq!(market.real_yes_sol_reserves, 1);
}

#[test]
fn applying_a_buy_and_a_sell_moves_one_side_only() {
    let config = config_with_fees(100, 100);
    let mut market = new_market(config, None, None);
    let bought = market.apply_buy(&config, 980_000, TOKEN_TYPE_NO).unwrap();
    assert_eq!(bought.token_amount, 31_633_311_815);
    assert_eq!(bought.new_no_reserves, 968_366_688_185);
    assert_eq!(bought.new_yes_reserves, 1_000_000_000_000);
    assert_eq!(market.real_no_sol_reserves, 980_000);
    assert_eq!(market.real_no_token_reserves, 968_366_688_185);
    assert_eq!(market.real_yes_sol_reserves, 0);
    assert_eq!(market.real_yes_token_reserves, 1_000_000_000_000);
    let sold = market.apply_sell(&config, 1_000_000_000, TOKEN_TYPE_NO).unwrap();
    // 30_980_000 * 968_366_688_185 / 969_366_688_185 = 30_948_040 and a fraction.
    assert_eq!(sold.change_amount, 31_960);
    assert_eq!(sold.token_amount, 1_000_000_000);
    assert_eq!(market.real_no_sol_reserves, 980_000 - 31_960);
    assert_eq!(market.real_no_token_reserves, 969_366_688_185);
    assert_eq!(market.real_yes_sol_reserves, 0);
}

#[test]
fn quotes_are_refused_for_a_side_that_does_not_exist() {
    let config = config_with_fees(0, 0);
    let mut market = new_market(config, None, None);
    assert_eq!(market.get_tokens_for_buy_sol(&config, 5, 2), None);
    assert_eq!(market.get_tokens_for_sell_sol(&config, 5, 2), None);
    assert_eq!(market.apply_buy(&config, 5, 200), None);
    assert_eq!(market.apply_sell(&config, 5, 200), None);
    assert_eq!(market, new_market(config, None, None));
}

#[test]
fn quotes_are_refused_beyond_64_bits() {
    let mut config = config_with_fees(0, 0);
    config.min_sol_liquidity = u64::MAX;
    let market = new_market(config, None, None);
    assert_eq!(market.get_tokens_for_buy_sol(&config, 1, TOKEN_TYPE_YES), None);
    assert!(market.get_tokens_for_buy_sol(&config, 0, TOKEN_TYPE_YES).is_some());
    let mut deep = new_market(config, None, None);
    deep.real_yes_sol_reserves = 1;
    assert_eq!(deep.get_tokens_for_sell_sol(&config, 1, TOKEN_TYPE_YES), None);
    assert_eq!(deep.get_tokens_for_buy_sol(&config, 0, TOKEN_TYPE_YES), None);
    assert!(deep.get_tokens_for_sell_sol(&config, 1, TOKEN_TYPE_NO).is_some());
}

#[test]
fn a_buy_never_takes_more_than_the_side_holds() {
    let (config, market) = tiny_market(0, 500);
    let mut ctx = trader(config, market);
    // Without any depth the first unit paid buys the whole reserve.
    let receipt = ctx.handler(1, DIRECTION_BUY, TOKEN_TYPE_YES, 0, 100, 0).unwrap();
    assert_eq!(receipt.amounts.token_amount, 500);
    assert_eq!(ctx.market.real_yes_token_reserves, 0);
    // The side is sold out: no further buy on it, while the other side trades.
    assert_eq!(
        ctx.handler(1, DIRECTION_BUY, TOKEN_TYPE_YES, 0, 100, 0).map(|_| ()),
        Err(PredictionMarketError::CurveAlreadyCompleted)
    );
    assert!(ctx.handler(1, DIRECTION_BUY, TOKEN_TYPE_NO, 0, 100, 0).is_ok());
    // Tokens can still be sold back into the side that is sold out.
    assert!(ctx.handler(100, DIRECTION_SELL, TOKEN_TYPE_YES, 0, 100, 0).is_ok());
}

#[test]
fn trades_are_refused_outside_the_window() {
    let config = config_with_fees(100, 100);
    let mut ctx = trader(config, new_market(config, Some(150), Some(1_000)));
    let before = ctx.clone();
    assert_eq!(
        ctx.handler(1_000, DIRECTION_BUY, TOKEN_TYPE_YES, 0, 149, 0).map(|_| ()),
        Err(PredictionMarketError::IncorrectLaunchPhase)
    );
    assert_eq!(
        ctx.handler(1_000, DIRECTION_BUY, TOKEN_TYPE_YES, 0, 1_000, 0).map(|_| ()),
        Err(PredictionMarketError::InvalidEndTime)
    );
    assert_eq!(
        ctx.handler(1_000, DIRECTION_BUY, TOKEN_TYPE_YES, 0, 1_001, 0).map(|_| ()),
        Err(PredictionMarketError::InvalidEndTime)
    );
    assert_eq!(ctx, before);
    assert!(ctx.handler(1_000, DIRECTION_BUY, TOKEN_TYPE_YES, 0, 150, 0).is_ok());
    assert!(ctx.handler(1_000, DIRECTION_BUY, TOKEN_TYPE_YES, 0, 999, 0).is_ok());
}

#[test]
fn a_completed_market_takes_no_trade() {
    let config = config_with_fees(100, 100);
    let mut market = new_market(config, None, Some(1_000));
    market.is_completed = true;
    let mut ctx = trader(config, market);
    assert_eq!(
        ctx.handler(1_000, DIRECTION_BUY, TOKEN_TYPE_YES, 0, 500, 0).map(|_| ()),
        Err(PredictionMarketError::CurveAlreadyCompleted)
    );
    assert_eq!(
        ctx.handler(1_000, DIRECTION_SELL, TOKEN_TYPE_YES, 0, 500, 0).map(|_| ()),
        Err(PredictionMarketError::CurveAlreadyCompleted)
    );
    // The end of the window is looked at first.
    assert_eq!(
        ctx.handler(1_000, DIRECTION_BUY, TOKEN_TYPE_YES, 0, 1_000, 0).map(|_| ()),
        Err(PredictionMarketError::InvalidEndTime)
    );
}

#[test]
fn malformed_requests_are_refused() {
    let config = config_with_fees(100, 100);
    let mut ctx = trader(config, new_market(config, None, None));
    let before = ctx.clone();
    assert_eq!(
        ctx.handler(0, DIRECTION_BUY, TOKEN_TYPE_YES, 0, 100, 0).map(|_| ()),
        Err(PredictionMarketError::InvalidAmount)
    );
    assert_eq!(
        ctx.handler(0, DIRECTION_SELL, TOKEN_TYPE_YES, 0, 100, 0).map(|_| ()),
        Err(PredictionMarketError::InvalidAmount)
    );
    assert_eq!(
        ctx.handler(10, 2, TOKEN_TYPE_YES, 0, 100, 0).map(|_| ()),
        Err(PredictionMarketError::InvalidParameter)
    );
    assert_eq!(
        ctx.handler(10, DIRECTION_BUY, 2, 0, 100, 0).map(|_| ()),
        Err(PredictionMarketError::InvalidParameter)
    );
    assert_eq!(ctx, before);
}

#[test]
fn a_fee_for_another_wallet_is_refused() {
    let config = config_with_fees(100, 100);
    let mut ctx = trader(config, new_market(config, None, None));
    ctx.team_wallet = key(8);
    let before = ctx.clone();
    assert_eq!(
        ctx.handler(1_000_000, DIRECTION_BUY, TOKEN_TYPE_YES, 0, 100, 0).map(|_| ()),
        Err(PredictionMarketError::IncorrectAuthority)
    );
    assert_eq!(ctx, before);
}

#[test]
fn a_buy_below_the_minimum_is_return_amount_too_small() {
    let config = config_with_fees(100, 100);
    let mut ctx = trader(config, new_market(config, None, None));
    let before = ctx.clone();
    assert_eq!(
        ctx.handler(1_000_000, DIRECTION_BUY, TOKEN_TYPE_YES, 31_633_311_816, 100, 0).map(|_| ()),
        Err(PredictionMarketError::ReturnAmountTooSmall)
    );
    assert_eq!(ctx, before);
    assert!(ctx
        .handler(1_000_000, DIRECTION_BUY, TOKEN_TYPE_YES, 31_633_311_815, 100, 0)
        .is_ok());
}

#[test]
fn a_sell_below_the_minimum_is_insufficient_sol() {
    let config = config_with_fees(100, 100);
    let mut ctx = trader(config, new_market(config, None, None));
    ctx.handler(1_000_000, DIRECTION_BUY, TOKEN_TYPE_YES, 0, 100, 0).unwrap();
    let before = ctx.clone();
    assert_eq!(
        ctx.handler(31_633_311_815, DIRECTION_SELL, TOKEN_TYPE_YES, 960_712, 100, 0).map(|_| ()),
        Err(PredictionMarketError::InsufficientSol)
    );
    assert_eq!(ctx, before);
    assert!(ctx
        .handler(31_633_311_815, DIRECTION_SELL, TOKEN_TYPE_YES, 960_711, 100, 0)
        .is_ok());
}

#[test]
fn a_sell_that_the_side_cannot_pay_is_insufficient_sol() {
    let (config, market) = tiny_market(3, 10);
    let mut ctx = trader(config, market);
    ctx.handler(1, DIRECTION_BUY, TOKEN_TYPE_YES, 0, 100, 0).unwrap();
    let before = ctx.clone();
    // The curve gives 2 for the 3 tokens, the side holds 1.
    assert_eq!(
        ctx.handler(3, DIRECTION_SELL, TOKEN_TYPE_YES, 0, 100, 0).map(|_| ()),
        Err(PredictionMarketError::InsufficientSol)
    );
    assert_eq!(ctx, before);
}

#[test]
fn selling_more_than_was_recorded_is_insufficient_tokens() {
    let config = config_with_fees(100, 100);
    let mut ctx = trader(config, new_market(config, None, None));
    ctx.handler(1_000_000, DIRECTION_BUY, TOKEN_TYPE_YES, 0, 100, 0).unwrap();
    let before = ctx.clone();
    assert_eq!(
        ctx.handler(31_633_311_816, DIRECTION_SELL, TOKEN_TYPE_YES, 0, 100, 0).map(|_| ()),
        Err(PredictionMarketError::InsufficientTokens)
    );
    assert_eq!(
        ctx.handler(1, DIRECTION_SELL, TOKEN_TYPE_NO, 0, 100, 0).map(|_| ()),
        Err(PredictionMarketError::InsufficientTokens)
    );
    assert_eq!(ctx, before);
}

#[test]
fn arithmetic_that_does_not_fit_is_overflow() {
    // Fee rates that add up to more than 64 bits.
    let mut config = config_with_fees(u64::MAX, 1);
    let mut ctx = trader(config, new_market(config, None, None));
    assert_eq!(
        ctx.handler(10, DIRECTION_BUY, TOKEN_TYPE_YES, 0, 100, 0).map(|_| ()),
        Err(PredictionMarketError::OverflowOrUnderflowOccurred)
    );
    // A fee above the amount paid.
    config = config_with_fees(10_000, 10_000);
    ctx = trader(config, new_market(config, None, None));
    assert_eq!(
        ctx.handler(10, DIRECTION_BUY, TOKEN_TYPE_YES, 0, 100, 0).map(|_| ()),
        Err(PredictionMarketError::OverflowOrUnderflowOccurred)
    );
    // Base currency beyond 64 bits.
    config = config_with_fees(0, 0);
    let mut market = new_market(config, None, None);
    market.real_yes_sol_reserves = u64::MAX - 30_000_000;
    ctx = trader(config, market);
    let before = ctx.clone();
    assert_eq!(
        ctx.handler(1, DIRECTION_BUY, TOKEN_TYPE_YES, 0, 100, 0).map(|_| ()),
        Err(PredictionMarketError::OverflowOrUnderflowOccurred)
    );
    assert_eq!(ctx, before);
    // A recorded holding beyond 64 bits.
    ctx = trader(config, new_market(config, None, None));
    ctx.user_info = UserInfo {
        user: key(5),
        yes_balance: u64::MAX,
        no_balance: 0,
        is_lp: false,
        is_initialized: true,
    };
    assert_eq!(
        ctx.handler(1_000, DIRECTION_BUY, TOKEN_TYPE_YES, 0, 100, 0).map(|_| ()),
        Err(PredictionMarketError::OverflowOrUnderflowOccurred)
    );
    // Tokens beyond 64 bits on a sell.
    let mut market = new_market(config, None, None);
    market.real_yes_token_reserves = u64::MAX;
    ctx = trader(config, market);
    ctx.user_info = UserInfo {
        user: key(5),
        yes_balance: 5,
        no_balance: 0,
        is_lp: false,
        is_initialized: true,
    };
    assert_eq!(
        ctx.handler(1, DIRECTION_SELL, TOKEN_TYPE_YES, 0, 100, 0).map(|_| ()),
        Err(PredictionMarketError::OverflowOrUnderflowOccurred)
    );
}

#[test]
fn the_record_of_a_known_trader_is_kept() {
    let config = config_with_fees(0, 0);
    let mut ctx = trader(config, new_market(config, None, None));
    ctx.user_info = UserInfo {
        user: key(6),
        yes_balance: 10,
        no_balance: 20,
        is_lp: true,
        is_initialized: true,
    };
    let receipt = ctx.handler(1_000_000, DIRECTION_BUY, TOKEN_TYPE_NO, 0, 100, 0).unwrap();
    assert_eq!(
        ctx.user_info,
        UserInfo {
            user: key(6),
            yes_balance: 10,
            no_balance: 20 + receipt.amounts.token_amount,
            is_lp: true,
            is_initialized: true,
        }
    );
    assert_eq!(receipt.amounts.platform_fee, 0);
    assert_eq!(receipt.amounts.lp_fee, 0);
    // 30_000_000 * 10^12 / 31_000_000 = 967_741_935_483 and a fraction.
    assert_eq!(receipt.amounts.token_amount, 32_258_064_517);
}

#[test]
fn the_market_trades_without_its_request_records() {
    let config = config_with_fees(100, 50);
    let mut market = new_market(config, None, None);
    let mut info = blank_user();
    info.open(key(5));
    assert_eq!(
        info,
        UserInfo {
            user: key(5),
            yes_balance: 0,
            no_balance: 0,
            is_lp: false,
            is_initialized: true,
        }
    );
    let amounts = market
        .swap(&config, 2_000_000, DIRECTION_BUY, TOKEN_TYPE_YES, 0, 5, &mut info)
        .unwrap();
    // 1.5 % of 2_000_000 is 30_000, of which 20_000 for the platform.
    assert_eq!(amounts.platform_fee, 20_000);
    assert_eq!(amounts.lp_fee, 10_000);
    assert_eq!(amounts.sol_amount, 2_000_000);
    // 30_000_000 * 10^12 / 31_970_000 = 938_379_730_997 and a fraction.
    assert_eq!(amounts.token_amount, 61_620_269_003);
    assert_eq!(market.real_yes_sol_reserves, 1_980_000);
    assert_eq!(info.balance_of(TOKEN_TYPE_YES), 61_620_269_003);
    assert_eq!(info.balance_of(TOKEN_TYPE_NO), 0);
    assert_eq!(market.token_reserves(TOKEN_TYPE_YES), 938_379_730_997);
    assert_eq!(market.sol_reserves(TOKEN_TYPE_YES), 1_980_000);
    assert_eq!(market.token_reserves(TOKEN_TYPE_NO), 1_000_000_000_000);
    assert_eq!(market.sol_reserves(TOKEN_TYPE_NO), 0);
    info.set_balance(TOKEN_TYPE_NO, 4);
    assert_eq!(info.no_balance, 4);
    market.set_reserves(TOKEN_TYPE_NO, 7, 8);
    assert_eq!(market.real_no_token_reserves, 7);
    assert_eq!(market.real_no_sol_reserves, 8);
    assert_eq!(market.real_yes_sol_reserves, 1_980_000);
}
