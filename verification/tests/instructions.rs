use solana_perp_dex_smart_contract::error::PerpDexError;
use solana_perp_dex_smart_contract::events::{OrderSide, OrderType, PositionSide};
use solana_perp_dex_smart_contract::instructions::initialize::{
    DEFAULT_FUNDING_INTERVAL, DEFAULT_FUNDING_RATE_SENSITIVITY, DEFAULT_LIQUIDATION_BONUS_RATE,
    DEFAULT_LIQUIDATION_THRESHOLD, DEFAULT_MAKER_FEE_RATE, DEFAULT_MAX_FUNDING_RATE, DEFAULT_MAX_ORACLE_DEVIATION,
    DEFAULT_MAX_ORACLE_STALENESS, DEFAULT_TAKER_FEE_RATE,
};
use solana_perp_dex_smart_contract::instructions::{
    CancelOrder, ClosePosition, CreatePerpMarket, DepositCollateral, DepositInsuranceFund, FillOrder,
    InitializeProtocol, InitializeUser, LiquidatePosition, OpenPosition, PlaceOrder, SettleFundingPayment,
    UpdateFundingRate, UpdateMarketConfig, UpdatePositionPnL, WithdrawCollateral,
};
use solana_perp_dex_smart_contract::state::{Address, InsuranceFund, Order, PerpMarket, Position, ProtocolState, User};

const NOW: i64 = 1_700_000_000;

fn addr(n: u8) -> Address {
    Address([n; 32])
}

fn protocol() -> ProtocolState {
    InitializeProtocol { admin: addr(1), insurance_fund: addr(9) }.execute(NOW, 254, 253).0
}

fn market(base: u64, quote: u64) -> PerpMarket {
    let (mut m, _) = CreatePerpMarket { admin: addr(1), protocol_state: protocol(), oracle: addr(7), market_key: addr(3) }
        .execute(1, "SOL".to_string(), "USDC".to_string(), 20, base, quote, NOW, 250)
        .unwrap();
    m.vamm_base_reserve = base;
    m.vamm_quote_reserve = quote;
    m
}

fn user_with(collateral: u64) -> User {
    let mut u = InitializeUser { user: addr(2) }.execute(NOW, 251);
    u.collateral = collateral;
    u
}

fn long_position() -> Position {
    Position {
        user: addr(2),
        market: addr(3),
        side: 0,
        size: 1_000_000,
        entry_price: 50_000_000,
        leverage: 10,
        collateral: 5_000_000,
        unrealized_pnl: 0,
        cumulative_funding_payment: 0,
        last_funding_settlement: NOW,
        last_update: NOW,
        closed: false,
        bump: 249,
    }
}

fn order(side: u8, order_type: u8, size: u64, price: u64) -> Order {
    Order {
        user: addr(2),
        market: addr(3),
        order_id: 42,
        side,
        order_type,
        size,
        filled_size: 0,
        filled_quote: 0,
        price,
        status: 0,
        created_at: NOW,
        updated_at: NOW,
        bump: 248,
    }
}

#[test]
fn protocol_defaults() {
    let (ps, fund) = InitializeProtocol { admin: addr(1), insurance_fund: addr(9) }.execute(NOW, 254, 253);
    assert_eq!(ps.admin, addr(1));
    assert_eq!(ps.insurance_fund, addr(9));
    assert_eq!(ps.default_maker_fee_rate, 1_000);
    assert_eq!(ps.default_taker_fee_rate, 2_000);
    assert_eq!(ps.default_liquidation_threshold, 800_000);
    assert_eq!(ps.default_liquidation_bonus_rate, 50_000);
    assert_eq!(ps.default_funding_interval, 3600);
    assert_eq!(ps.default_max_funding_rate, 10_000);
    assert_eq!(ps.default_funding_rate_sensitivity, 100_000);
    assert_eq!(ps.max_oracle_staleness, 60);
    assert_eq!(ps.max_oracle_deviation, 50_000);
    assert!(!ps.paused);
    assert_eq!(ps.bump, 254);
    assert_eq!(fund, InsuranceFund { balance: 0, total_fees_collected: 0, total_bad_debt_covered: 0, last_update: NOW, bump: 253 });
    assert_eq!(DEFAULT_MAKER_FEE_RATE, 1_000);
    assert_eq!(DEFAULT_TAKER_FEE_RATE, 2_000);
    assert_eq!(DEFAULT_LIQUIDATION_THRESHOLD, 800_000);
    assert_eq!(DEFAULT_LIQUIDATION_BONUS_RATE, 50_000);
    assert_eq!(DEFAULT_FUNDING_INTERVAL, 3600);
    assert_eq!(DEFAULT_MAX_FUNDING_RATE, 10_000);
    assert_eq!(DEFAULT_FUNDING_RATE_SENSITIVITY, 100_000);
    assert_eq!(DEFAULT_MAX_ORACLE_STALENESS, 60);
    assert_eq!(DEFAULT_MAX_ORACLE_DEVIATION, 50_000);
}

#[test]
fn account_sizes() {
    assert_eq!(ProtocolState::LEN, 146);
    assert_eq!(PerpMarket::LEN, 235);
    assert_eq!(User::LEN, 73);
    assert_eq!(Position::LEN, 132);
    assert_eq!(Order::LEN, 132);
    assert_eq!(InsuranceFund::LEN, 41);
}

#[test]
fn create_market_takes_protocol_defaults() {
    let ix = CreatePerpMarket { admin: addr(1), protocol_state: protocol(), oracle: addr(7), market_key: addr(3) };
    let (m, created) = ix
        .execute(1, "SOL".to_string(), "USDC".to_string(), 20, 1_000_000_000, 5_000_000_000, NOW, 250)
        .unwrap();
    assert_eq!(m.market_id, 1);
    assert_eq!(m.base_asset, "SOL");
    assert_eq!(m.quote_asset, "USDC");
    assert_eq!(m.oracle, addr(7));
    assert_eq!(m.max_leverage, 20);
    assert_eq!(m.maker_fee_rate, 1_000);
    assert_eq!(m.taker_fee_rate, 2_000);
    assert_eq!(m.liquidation_threshold, 800_000);
    assert_eq!(m.liquidation_bonus_rate, 50_000);
    assert_eq!(m.funding_interval, 3600);
    assert_eq!(m.max_funding_rate, 10_000);
    assert_eq!(m.funding_rate_sensitivity, 100_000);
    assert_eq!(m.current_funding_rate, 0);
    assert_eq!(m.premium_index, 0);
    assert_eq!(m.last_funding_update, NOW);
    assert_eq!(m.next_funding_time, NOW + 3600);
    assert_eq!(m.vamm_base_reserve, 1_000_000_000);
    assert_eq!(m.vamm_quote_reserve, 5_000_000_000);
    assert_eq!(m.vamm_k, 5_000_000_000_000_000_000u128);
    assert!(!m.paused);
    assert_eq!(m.bump, 250);
    assert_eq!(created.market, addr(3));
    assert_eq!(created.base_asset, "SOL");
    assert_eq!(created.quote_asset, "USDC");
    assert_eq!(created.oracle, addr(7));
    assert_eq!(created.max_leverage, 20);
    assert_eq!(created.timestamp, NOW);
}

#[test]
fn create_market_refusals() {
    let ok = CreatePerpMarket { admin: addr(1), protocol_state: protocol(), oracle: addr(7), market_key: addr(3) };
    let run = |ix: &CreatePerpMarket, lev: u8, b: u64, q: u64| {
        ix.execute(1, "SOL".to_string(), "USDC".to_string(), lev, b, q, NOW, 250).map(|_| ())
    };
    let stranger = CreatePerpMarket { admin: addr(5), ..CreatePerpMarket { admin: addr(1), protocol_state: protocol(), oracle: addr(7), market_key: addr(3) } };
    assert_eq!(run(&stranger, 20, 10, 10), Err(PerpDexError::Unauthorized));
    let mut paused_state = protocol();
    paused_state.paused = true;
    let paused = CreatePerpMarket { admin: addr(1), protocol_state: paused_state, oracle: addr(7), market_key: addr(3) };
    assert_eq!(run(&paused, 20, 10, 10), Err(PerpDexError::MarketPaused));
    assert_eq!(run(&ok, 0, 10, 10), Err(PerpDexError::InvalidMarketConfig));
    assert_eq!(run(&ok, 51, 10, 10), Err(PerpDexError::InvalidMarketConfig));
    assert_eq!(run(&ok, 50, 10, 10), Ok(()));
    assert_eq!(run(&ok, 20, 0, 10), Err(PerpDexError::InvalidAMMParameters));
    let late = ok.execute(1, "SOL".to_string(), "USDC".to_string(), 20, 10, 10, i64::MAX, 0).map(|_| ());
    assert_eq!(late, Err(PerpDexError::MathOverflow));
    assert_eq!(run(&ok, 20, 10, 0), Err(PerpDexError::InvalidAMMParameters));
    // The README's market of 1000 SOL against 50000 USDC: k = 5e19 is held in u128.
    assert_eq!(run(&ok, 20, 1_000_000_000, 50_000_000_000), Ok(()));
}

#[test]
fn update_market_config_sets_given_values() {
    let mut ix = UpdateMarketConfig { admin: addr(1), protocol_state: protocol(), market: market(1_000_000, 50_000_000) };
    let before = ix.market.clone();
    assert_eq!(ix.execute(Some(10), None, Some(5_000), Some(true)), Ok(()));
    assert_eq!(ix.market.max_leverage, 10);
    assert_eq!(ix.market.maker_fee_rate, before.maker_fee_rate);
    assert_eq!(ix.market.taker_fee_rate, 5_000);
    assert!(ix.market.paused);
    assert_eq!(ix.execute(None, Some(10_000), None, None), Ok(()));
    assert_eq!(ix.market.maker_fee_rate, 10_000);
    assert!(ix.market.paused);
}

#[test]
fn update_market_config_refusals_change_nothing() {
    let mut ix = UpdateMarketConfig { admin: addr(1), protocol_state: protocol(), market: market(1_000_000, 50_000_000) };
    let before = ix.market.clone();
    assert_eq!(ix.execute(Some(0), None, None, None), Err(PerpDexError::InvalidMarketConfig));
    assert_eq!(ix.execute(Some(51), None, None, None), Err(PerpDexError::InvalidMarketConfig));
    assert_eq!(ix.execute(Some(10), Some(10_001), None, None), Err(PerpDexError::InvalidMarketConfig));
    assert_eq!(ix.execute(Some(10), None, Some(10_001), Some(true)), Err(PerpDexError::InvalidMarketConfig));
    assert_eq!(ix.market, before);
    let mut stranger = UpdateMarketConfig { admin: addr(5), protocol_state: protocol(), market: market(1_000_000, 50_000_000) };
    assert_eq!(stranger.execute(None, None, None, Some(true)), Err(PerpDexError::Unauthorized));
}

#[test]
fn initialize_user_is_empty() {
    let u = InitializeUser { user: addr(2) }.execute(NOW, 251);
    assert_eq!(u, User { owner: addr(2), collateral: 0, position_count: 0, order_count: 0, last_interaction: NOW, bump: 251 });
}

#[test]
fn deposit_and_withdraw_collateral() {
    let mut d = DepositCollateral { user: addr(2), user_account: user_with(0) };
    let ev = d.execute(10_000_000, NOW + 1).unwrap();
    assert_eq!(d.user_account.collateral, 10_000_000);
    assert_eq!(d.user_account.last_interaction, NOW + 1);
    assert_eq!((ev.user, ev.amount, ev.new_balance, ev.timestamp), (addr(2), 10_000_000, 10_000_000, NOW + 1));
    let mut w = WithdrawCollateral { user: addr(2), user_account: d.user_account, protocol_state: protocol() };
    let ev = w.execute(4_000_000, NOW + 2).unwrap();
    assert_eq!(w.user_account.collateral, 6_000_000);
    assert_eq!((ev.amount, ev.new_balance), (4_000_000, 6_000_000));
}

#[test]
fn deposit_refusals() {
    let mut stranger = DepositCollateral { user: addr(5), user_account: user_with(5) };
    assert_eq!(stranger.execute(1, NOW), Err(PerpDexError::Unauthorized));
    let mut d = DepositCollateral { user: addr(2), user_account: user_with(5) };
    assert_eq!(d.execute(0, NOW), Err(PerpDexError::InvalidOrderSize));
    assert_eq!(d.execute(u64::MAX, NOW), Err(PerpDexError::MathOverflow));
    assert_eq!(d.user_account.collateral, 5);
}

#[test]
fn withdraw_refusals() {
    let mut w = WithdrawCollateral { user: addr(5), user_account: user_with(5), protocol_state: protocol() };
    assert_eq!(w.execute(1, NOW), Err(PerpDexError::Unauthorized));
    let mut paused_state = protocol();
    paused_state.paused = true;
    let mut paused = WithdrawCollateral { user: addr(2), user_account: user_with(5), protocol_state: paused_state };
    assert_eq!(paused.execute(1, NOW), Err(PerpDexError::OperationNotAllowed));
    assert_eq!(paused.user_account.collateral, 5);
    let mut w = WithdrawCollateral { user: addr(2), user_account: user_with(5), protocol_state: protocol() };
    assert_eq!(w.execute(0, NOW), Err(PerpDexError::InvalidOrderSize));
    assert_eq!(w.execute(6, NOW), Err(PerpDexError::InsufficientCollateral));
    assert_eq!(w.user_account.collateral, 5);
}

fn place_ix() -> PlaceOrder {
    PlaceOrder { user: addr(2), user_account: user_with(0), market_key: addr(3), market: market(1_000_000, 50_000_000) }
}

#[test]
fn place_limit_order() {
    let mut ix = place_ix();
    let (o, ev) = ix.execute(42, 0, 1, 1_000_000, 50_000_000, NOW, 248).unwrap();
    assert_eq!(o, order(0, 1, 1_000_000, 50_000_000));
    assert_eq!(ix.user_account.order_count, 1);
    assert_eq!(ev.side, OrderSide::Long);
    assert_eq!(ev.order_type, OrderType::Limit);
    assert_eq!((ev.user, ev.market, ev.order_id, ev.size, ev.price, ev.timestamp), (addr(2), addr(3), 42, 1_000_000, 50_000_000, NOW));
}

#[test]
fn place_market_order_without_price() {
    let mut ix = place_ix();
    let (o, ev) = ix.execute(7, 1, 0, 5, 0, NOW, 1).unwrap();
    assert_eq!((o.side, o.order_type, o.price, o.status, o.filled_size), (1, 0, 0, 0, 0));
    assert_eq!(ev.side, OrderSide::Short);
    assert_eq!(ev.order_type, OrderType::Market);
}

#[test]
fn place_order_refusals() {
    let mut stranger = PlaceOrder { user: addr(5), ..place_ix() };
    assert_eq!(stranger.execute(1, 0, 0, 1, 0, NOW, 0).map(|_| ()), Err(PerpDexError::Unauthorized));
    let mut paused = place_ix();
    paused.market.paused = true;
    assert_eq!(paused.execute(1, 0, 0, 1, 0, NOW, 0).map(|_| ()), Err(PerpDexError::MarketPaused));
    let mut ix = place_ix();
    assert_eq!(ix.execute(1, 2, 0, 1, 0, NOW, 0).map(|_| ()), Err(PerpDexError::InvalidOrderSide));
    assert_eq!(ix.execute(1, 0, 2, 1, 0, NOW, 0).map(|_| ()), Err(PerpDexError::InvalidOrderType));
    assert_eq!(ix.execute(1, 0, 0, 0, 0, NOW, 0).map(|_| ()), Err(PerpDexError::InvalidOrderSize));
    assert_eq!(ix.execute(1, 0, 1, 1, 0, NOW, 0).map(|_| ()), Err(PerpDexError::InvalidOrderPrice));
    ix.user_account.order_count = u64::MAX;
    assert_eq!(ix.execute(1, 0, 0, 1, 0, NOW, 0).map(|_| ()), Err(PerpDexError::MathOverflow));
    assert_eq!(ix.user_account.order_count, u64::MAX);
}

#[test]
fn cancel_order_reports_unfilled_size() {
    let mut o = order(0, 1, 1_000_000, 50_000_000);
    o.filled_size = 300_000;
    let mut account = user_with(0);
    account.order_count = 3;
    let mut ix = CancelOrder { user: addr(2), user_account: account, order: o, market: market(1_000_000, 50_000_000) };
    let ev = ix.execute(NOW + 5).unwrap();
    assert_eq!(ix.user_account.order_count, 2);
    assert_eq!(ev.cancelled_size, 700_000);
    assert_eq!((ev.user, ev.market, ev.order_id, ev.timestamp), (addr(2), addr(3), 42, NOW + 5));
    assert_eq!(ix.order.status, 2);
    assert!(ix.order.is_cancelled());
    assert_eq!(ix.order.updated_at, NOW + 5);
    assert_eq!(ix.execute(NOW + 6), Err(PerpDexError::OrderAlreadyCancelled));
}

#[test]
fn cancel_order_refusals() {
    let mut ix = CancelOrder { user: addr(5), user_account: user_with(0), order: order(0, 1, 1, 1), market: market(1, 1) };
    assert_eq!(ix.execute(NOW), Err(PerpDexError::Unauthorized));
    let mut foreign = order(0, 1, 1, 1);
    foreign.user = addr(5);
    let mut ix = CancelOrder { user: addr(2), user_account: user_with(0), order: foreign, market: market(1, 1) };
    assert_eq!(ix.execute(NOW), Err(PerpDexError::Unauthorized));
}

fn fill_ix(o: Order) -> FillOrder {
    let mut account = user_with(0);
    account.order_count = 1;
    FillOrder { filler: addr(8), user_account: account, market_key: addr(3), market: market(1_000_000, 50_000_000), order: o }
}

#[test]
fn fill_market_buy_takes_base_units() {
    let mut ix = fill_ix(order(0, 0, 20_000, 0));
    let (ev, fee) = ix.execute(10_000, NOW + 9).unwrap();
    assert_eq!(ix.market.vamm_base_reserve, 990_000);
    assert_eq!(ix.market.vamm_quote_reserve, 50_505_050);
    assert_eq!(ix.market.vamm_k, 49_999_999_500_000u128);
    assert_eq!(ev.filled_price, 50_505_000);
    assert_eq!(ev.filled_size, 10_000);
    assert_eq!(ev.remaining_size, 10_000);
    assert_eq!(fee, 1_010);
    assert_eq!(ix.order.filled_size, 10_000);
    assert_eq!(ix.order.filled_quote, 505_050);
    assert_eq!(ix.order.status, 0);
    assert_eq!(ix.order.updated_at, NOW + 9);
    assert_eq!(ix.user_account.order_count, 1);
}

#[test]
fn fill_one_sol_on_large_pool() {
    let mut ix = fill_ix(order(0, 0, 1_000_000, 0));
    ix.market.vamm_base_reserve = 1_000_000_000;
    ix.market.vamm_quote_reserve = 10_000_000_000;
    ix.execute(1_000_000, NOW).unwrap();
    assert_eq!(ix.market.vamm_base_reserve, 999_000_000);
    assert_eq!(ix.order.filled_size, 1_000_000);
    assert_eq!(ix.order.status, 1);
    assert_eq!(ix.user_account.order_count, 0);
}

#[test]
fn fill_limit_sell_order_completely() {
    let mut ix = fill_ix(order(1, 1, 10_000, 49_000_000));
    let (ev, fee) = ix.execute(10_000, NOW).unwrap();
    assert_eq!(ix.market.vamm_base_reserve, 1_010_000);
    assert_eq!(ix.market.vamm_quote_reserve, 49_504_950);
    assert_eq!(ev.filled_price, 49_505_000);
    assert_eq!(ev.remaining_size, 0);
    assert_eq!(fee, 495);
    assert_eq!(ix.order.status, 1);
    assert_eq!(ix.order.filled_quote, 495_050);
    assert!(ix.order.is_filled());
    assert_eq!(ix.user_account.order_count, 0);
    assert_eq!(ix.execute(1, NOW), Err(PerpDexError::OrderAlreadyFilled));
}

#[test]
fn fill_refusals() {
    let mut foreign = fill_ix(order(0, 0, 10, 0));
    foreign.user_account.owner = addr(5);
    assert_eq!(foreign.execute(1, NOW).map(|_| ()), Err(PerpDexError::Unauthorized));
    let mut ix = fill_ix(order(0, 0, 10, 0));
    ix.market.paused = true;
    assert_eq!(ix.execute(1, NOW).map(|_| ()), Err(PerpDexError::MarketPaused));
    let mut ix = fill_ix(order(0, 0, 10, 0));
    assert_eq!(ix.execute(0, NOW).map(|_| ()), Err(PerpDexError::InvalidOrderSize));
    assert_eq!(ix.execute(11, NOW).map(|_| ()), Err(PerpDexError::InvalidOrderSize));
    // A buy limit below the mark price of 50.0 does not fill.
    let mut ix = fill_ix(order(0, 1, 10, 49_000_000));
    assert_eq!(ix.execute(1, NOW).map(|_| ()), Err(PerpDexError::InvalidOrderPrice));
    // A sell limit above the mark price does not fill.
    let mut ix = fill_ix(order(1, 1, 10, 51_000_000));
    assert_eq!(ix.execute(1, NOW).map(|_| ()), Err(PerpDexError::InvalidOrderPrice));
    let mut ix = fill_ix(order(0, 1, 10, 49_000_000));
    ix.market.vamm_base_reserve = 0;
    assert_eq!(ix.execute(1, NOW).map(|_| ()), Err(PerpDexError::InsufficientAMMLiquidity));
    let mut ix = fill_ix(order(0, 0, 10, 0));
    ix.market.vamm_quote_reserve = 0;
    assert_eq!(ix.execute(1, NOW).map(|_| ()), Err(PerpDexError::InsufficientAMMLiquidity));
    // Buying the whole base reserve is refused.
    let mut ix = fill_ix(order(0, 0, 2_000_000, 0));
    assert_eq!(ix.execute(1_000_000, NOW).map(|_| ()), Err(PerpDexError::InsufficientAMMLiquidity));
    // Buying all but one unit of base would put the quote reserve beyond u64.
    let mut ix = fill_ix(order(0, 0, u64::MAX, 0));
    ix.market.vamm_base_reserve = 1_000_000_000_000;
    ix.market.vamm_quote_reserve = 1_000_000_000_000;
    assert_eq!(ix.execute(999_999_999_999, NOW).map(|_| ()), Err(PerpDexError::MathOverflow));
    // A quote amount whose product with PRECISION leaves u64 is reported as a division by zero.
    let mut ix = fill_ix(order(0, 0, u64::MAX, 0));
    ix.market.vamm_base_reserve = 1_000_000_000_000;
    ix.market.vamm_quote_reserve = 10_000_000_000_000;
    assert_eq!(ix.execute(900_000_000_000, NOW).map(|_| ()), Err(PerpDexError::DivisionByZero));
    let mut ix = fill_ix(order(1, 0, u64::MAX, 0));
    assert_eq!(ix.execute(u64::MAX, NOW).map(|_| ()), Err(PerpDexError::MathOverflow));
    assert_eq!(ix.market.vamm_base_reserve, 1_000_000);
    assert_eq!(ix.order.filled_size, 0);
}

#[test]
fn vamm_trade_reserves() {
    assert_eq!(FillOrder::execute_vamm_trade(1_000_000, 50_000_000, 10_000, true), Ok((505_050, 990_000, 50_505_050)));
    assert_eq!(FillOrder::execute_vamm_trade(1_000_000, 50_000_000, 10_000, false), Ok((495_050, 1_010_000, 49_504_950)));
    assert_eq!(FillOrder::execute_vamm_trade(0, 50_000_000, 10_000, false), Err(PerpDexError::InsufficientAMMLiquidity));
    assert_eq!(FillOrder::execute_vamm_trade(1_000, 50_000_000, 1_000, true), Err(PerpDexError::InsufficientAMMLiquidity));
}

fn filled_order(side: u8, size: u64, quote: u64) -> Order {
    Order { filled_size: size, filled_quote: quote, status: 1, ..order(side, 0, size, 0) }
}

fn open_ix(collateral: u64) -> OpenPosition {
    OpenPosition {
        user: addr(2),
        user_account: user_with(collateral),
        market_key: addr(3),
        market: market(1_000_000, 50_000_000),
        order: filled_order(0, 1_000_000, 50_000_000),
    }
}

#[test]
fn open_position_moves_margin() {
    let mut ix = open_ix(10_000_000);
    let (p, ev) = ix.execute(1_000_000, 50_000_000, 10, 0, NOW, 249).unwrap();
    assert_eq!(p, long_position());
    assert_eq!(ix.user_account.collateral, 5_000_000);
    assert_eq!(ix.user_account.position_count, 1);
    assert_eq!(ev.side, PositionSide::Long);
    assert_eq!((ev.size, ev.entry_price, ev.leverage, ev.collateral), (1_000_000, 50_000_000, 10, 5_000_000));
    assert!(p.is_long());
    assert!(!p.is_short());
}

#[test]
fn open_position_refusals() {
    let mut stranger = OpenPosition { user: addr(5), ..open_ix(10_000_000) };
    assert_eq!(stranger.execute(1, 1, 1, 0, NOW, 0).map(|_| ()), Err(PerpDexError::Unauthorized));
    let mut ix = open_ix(10_000_000);
    assert_eq!(ix.execute(1, 1, 1, 2, NOW, 0).map(|_| ()), Err(PerpDexError::InvalidOrderSide));
    assert_eq!(ix.execute(0, 1, 1, 0, NOW, 0).map(|_| ()), Err(PerpDexError::InvalidOrderSize));
    assert_eq!(ix.execute(1, 0, 1, 0, NOW, 0).map(|_| ()), Err(PerpDexError::InvalidOrderPrice));
    assert_eq!(ix.execute(1, 1, 0, 0, NOW, 0).map(|_| ()), Err(PerpDexError::PositionSizeExceedsMaxLeverage));
    assert_eq!(ix.execute(1, 1, 21, 0, NOW, 0).map(|_| ()), Err(PerpDexError::PositionSizeExceedsMaxLeverage));
    // No filled order of this side, size and fill price.
    assert_eq!(ix.execute(1_000_000, 50_000_000, 10, 1, NOW, 0).map(|_| ()), Err(PerpDexError::OrderNotFound));
    assert_eq!(ix.execute(999_999, 50_000_000, 10, 0, NOW, 0).map(|_| ()), Err(PerpDexError::OrderNotFound));
    assert_eq!(ix.execute(1_000_000, 49_000_000, 10, 0, NOW, 0).map(|_| ()), Err(PerpDexError::OrderNotFound));
    let mut open_order = open_ix(10_000_000);
    open_order.order.status = 0;
    assert_eq!(open_order.execute(1_000_000, 50_000_000, 10, 0, NOW, 0).map(|_| ()), Err(PerpDexError::OrderNotFound));
    let mut other_market = open_ix(10_000_000);
    other_market.order.market = addr(6);
    assert_eq!(other_market.execute(1_000_000, 50_000_000, 10, 0, NOW, 0).map(|_| ()), Err(PerpDexError::OrderNotFound));
    let mut huge = open_ix(10_000_000);
    huge.order = filled_order(0, u64::MAX, u64::MAX);
    assert_eq!(huge.execute(u64::MAX, 1_000_000, 1, 0, NOW, 0).map(|_| ()), Err(PerpDexError::MathOverflow));
    assert_eq!(ix.execute(1_000_000, 50_000_000, 2, 0, NOW, 0).map(|_| ()), Err(PerpDexError::InsufficientMargin));
    ix.user_account.position_count = u64::MAX;
    assert_eq!(ix.execute(1_000_000, 50_000_000, 10, 0, NOW, 0).map(|_| ()), Err(PerpDexError::MathOverflow));
    assert_eq!(ix.user_account.collateral, 10_000_000);
}

#[test]
fn update_position_pnl() {
    let mut ix = UpdatePositionPnL { user: addr(2), user_account: user_with(0), market: market(1, 1), position: long_position() };
    assert_eq!(ix.execute(46_000_000, NOW + 3), Ok(()));
    assert_eq!(ix.position.unrealized_pnl, -4_000_000);
    assert_eq!(ix.position.last_update, NOW + 3);
    assert_eq!(ix.execute(0, NOW), Err(PerpDexError::InvalidOrderPrice));
    let mut stranger = UpdatePositionPnL { user: addr(5), user_account: user_with(0), market: market(1, 1), position: long_position() };
    assert_eq!(stranger.execute(1, NOW), Err(PerpDexError::Unauthorized));
    let mut closed = UpdatePositionPnL { user: addr(2), user_account: user_with(0), market: market(1, 1), position: Position { closed: true, ..long_position() } };
    assert_eq!(closed.execute(1, NOW), Err(PerpDexError::PositionNotFound));
}

fn close_ix(user_collateral: u64, position: Position, base: u64, quote: u64) -> ClosePosition {
    ClosePosition { user: addr(2), user_account: user_with(user_collateral), market: market(base, quote), position }
}

#[test]
fn close_whole_position_in_profit() {
    let mut ix = close_ix(5_000_000, long_position(), 1_000_000, 55_000_000);
    let (closed, settled) = ix.execute(1_000_000, NOW + 4).unwrap();
    assert_eq!(ix.user_account.collateral, 15_000_000);
    assert_eq!(ix.position.size, 0);
    assert_eq!(ix.position.collateral, 0);
    assert!(ix.position.closed);
    assert_eq!((closed.size, closed.exit_price, closed.pnl), (1_000_000, 55_000_000, 5_000_000));
    assert_eq!(settled.realized_pnl, 5_000_000);
    assert_eq!(ix.execute(1, NOW), Err(PerpDexError::PositionNotFound));
}

#[test]
fn close_part_of_position() {
    let mut ix = close_ix(5_000_000, long_position(), 1_000_000, 55_000_000);
    ix.execute(400_000, NOW).unwrap();
    assert_eq!(ix.user_account.collateral, 9_000_000);
    assert_eq!(ix.position.size, 600_000);
    assert_eq!(ix.position.collateral, 3_000_000);
    assert!(!ix.position.closed);
}

#[test]
fn close_short_in_loss() {
    let short = Position { side: 1, ..long_position() };
    let mut ix = close_ix(0, short, 1_000_000, 55_000_000);
    let (closed, _) = ix.execute(1_000_000, NOW).unwrap();
    assert_eq!(closed.pnl, -5_000_000);
    assert_eq!(ix.user_account.collateral, 0);
    // A loss beyond the position's own collateral does not reach the user's free collateral.
    let mut ix = close_ix(7_000_000, short, 1_000_000, 56_000_000);
    let (closed, _) = ix.execute(1_000_000, NOW).unwrap();
    assert_eq!(closed.pnl, -6_000_000);
    assert_eq!(ix.user_account.collateral, 7_000_000);
    assert_eq!(ix.position.collateral, 0);
    assert!(ix.position.closed);
}

#[test]
fn close_refusals() {
    let mut stranger = ClosePosition { user: addr(5), ..close_ix(0, long_position(), 1, 1) };
    assert_eq!(stranger.execute(1, NOW).map(|_| ()), Err(PerpDexError::Unauthorized));
    let mut ix = close_ix(0, long_position(), 1_000_000, 55_000_000);
    assert_eq!(ix.execute(0, NOW).map(|_| ()), Err(PerpDexError::InvalidOrderSize));
    assert_eq!(ix.execute(1_000_001, NOW).map(|_| ()), Err(PerpDexError::InvalidPositionSize));
    let mut empty = close_ix(0, long_position(), 1_000_000, 55_000_000);
    empty.market.vamm_base_reserve = 0;
    assert_eq!(empty.execute(1, NOW).map(|_| ()), Err(PerpDexError::InsufficientAMMLiquidity));
    let mut huge = close_ix(0, long_position(), 1, 1);
    huge.market.vamm_quote_reserve = u64::MAX;
    assert_eq!(huge.execute(1, NOW).map(|_| ()), Err(PerpDexError::DivisionByZero));
    let mut rich = close_ix(u64::MAX, long_position(), 1_000_000, 55_000_000);
    assert_eq!(rich.execute(1_000_000, NOW).map(|_| ()), Err(PerpDexError::MathOverflow));
}

#[test]
fn update_funding_rate_from_mark_and_oracle() {
    let mut ix = UpdateFundingRate { updater: addr(8), market_key: addr(3), market: market(1_000_000, 52_500_000) };
    let ev = ix.execute(50_000_000, NOW + 3600).unwrap();
    assert_eq!(ix.market.premium_index, 50_000);
    assert_eq!(ix.market.current_funding_rate, 5_000);
    assert_eq!(ix.market.last_funding_update, NOW + 3600);
    assert_eq!(ix.market.next_funding_time, NOW + 7200);
    assert_eq!((ev.market, ev.funding_rate, ev.premium_index, ev.next_funding_time), (addr(3), 5_000, 50_000, NOW + 7200));
    assert_eq!(ix.execute(50_000_000, NOW + 7199).map(|_| ()), Err(PerpDexError::FundingRateUpdateTooFrequent));
}

#[test]
fn update_funding_rate_refusals() {
    let mut ix = UpdateFundingRate { updater: addr(8), market_key: addr(3), market: market(1_000_000, 52_500_000) };
    assert_eq!(ix.execute(0, NOW + 3600).map(|_| ()), Err(PerpDexError::InvalidOrderPrice));
    assert_eq!(ix.execute(1, NOW).map(|_| ()), Err(PerpDexError::FundingRateUpdateTooFrequent));
    let mut long_interval = UpdateFundingRate { updater: addr(8), market_key: addr(3), market: market(1_000_000, 52_500_000) };
    long_interval.market.funding_interval = u64::MAX;
    assert_eq!(long_interval.execute(50_000_000, NOW + 3600).map(|_| ()), Err(PerpDexError::MathOverflow));
    assert_eq!(long_interval.market.current_funding_rate, 0);
    ix.market.vamm_quote_reserve = 0;
    assert_eq!(ix.execute(1, NOW + 3600).map(|_| ()), Err(PerpDexError::InsufficientAMMLiquidity));
    ix.market.paused = true;
    assert_eq!(ix.execute(1, NOW + 3600).map(|_| ()), Err(PerpDexError::MarketPaused));
}

fn settle_ix(collateral: u64, position: Position) -> SettleFundingPayment {
    let mut m = market(1_000_000, 50_000_000);
    m.current_funding_rate = 10_000;
    m.last_funding_update = NOW;
    SettleFundingPayment { user: addr(2), user_account: user_with(collateral), market_key: addr(3), market: m, position }
}

#[test]
fn settle_funding_long_pays() {
    let mut ix = settle_ix(1_000_000, long_position());
    let ev = ix.execute(NOW + 3600).unwrap().unwrap();
    assert_eq!(ev.payment, 10_000);
    assert_eq!(ix.user_account.collateral, 990_000);
    assert_eq!(ix.position.cumulative_funding_payment, 10_000);
    assert_eq!(ix.position.last_update, NOW + 3600);
}

#[test]
fn settle_funding_short_receives() {
    let mut ix = settle_ix(1_000_000, Position { side: 1, ..long_position() });
    let ev = ix.execute(NOW + 3600).unwrap().unwrap();
    assert_eq!(ev.payment, -10_000);
    assert_eq!(ix.user_account.collateral, 1_010_000);
    assert_eq!(ix.position.cumulative_funding_payment, -10_000);
}

#[test]
fn settle_funding_twice_at_same_time_pays_once() {
    let mut ix = settle_ix(1_000_000, Position { side: 1, ..long_position() });
    ix.execute(NOW + 3600).unwrap().unwrap();
    assert_eq!(ix.position.last_funding_settlement, NOW + 3600);
    assert_eq!(ix.execute(NOW + 3600), Ok(None));
    assert_eq!(ix.user_account.collateral, 1_010_000);
    // Half an hour later only the new half hour is settled.
    let ev = ix.execute(NOW + 5400).unwrap().unwrap();
    assert_eq!(ev.payment, -5_000);
    assert_eq!(ix.user_account.collateral, 1_015_000);
}

#[test]
fn settle_funding_from_position_opening() {
    // The position was opened half an hour after the market's last funding update.
    let mut ix = settle_ix(1_000_000, Position { last_funding_settlement: NOW + 1800, ..long_position() });
    let ev = ix.execute(NOW + 3600).unwrap().unwrap();
    assert_eq!(ev.payment, 5_000);
}

#[test]
fn settle_funding_nothing_elapsed() {
    let mut ix = settle_ix(1_000_000, long_position());
    assert_eq!(ix.execute(NOW), Ok(None));
    assert_eq!(ix.execute(NOW - 10), Ok(None));
    assert_eq!(ix.user_account.collateral, 1_000_000);
}

#[test]
fn settle_funding_refusals() {
    let mut ix = settle_ix(9_999, long_position());
    assert_eq!(ix.execute(NOW + 3600), Err(PerpDexError::InsufficientCollateral));
    let mut stranger = SettleFundingPayment { user: addr(5), ..settle_ix(0, long_position()) };
    assert_eq!(stranger.execute(NOW + 1), Err(PerpDexError::Unauthorized));
    let mut closed = settle_ix(0, Position { closed: true, ..long_position() });
    assert_eq!(closed.execute(NOW + 1), Err(PerpDexError::PositionNotFound));
    let mut no_interval = settle_ix(0, long_position());
    no_interval.market.funding_interval = 0;
    assert_eq!(no_interval.execute(NOW + 1), Err(PerpDexError::MathOverflow));
}

fn liquidate_ix(fund_balance: u64) -> LiquidatePosition {
    LiquidatePosition {
        liquidator: addr(8),
        user_account: user_with(0),
        market: market(1_000_000, 46_000_000),
        position: long_position(),
        insurance_fund: InsuranceFund { balance: fund_balance, total_fees_collected: 0, total_bad_debt_covered: 0, last_update: NOW, bump: 253 },
        protocol_state: protocol(),
    }
}

#[test]
fn liquidate_weak_long() {
    let mut ix = liquidate_ix(100_000_000);
    let (liquidated, used) = ix.execute(1_000_000, 46_000_000, NOW + 7).unwrap();
    assert_eq!(liquidated.bad_debt, 45_000_000);
    assert_eq!(liquidated.liquidator_reward, 2_300_000);
    assert_eq!(liquidated.liquidator, addr(8));
    assert_eq!((liquidated.user, liquidated.market, liquidated.liquidated_size, liquidated.liquidation_price), (addr(2), addr(3), 1_000_000, 46_000_000));
    assert_eq!(used.amount, 47_300_000);
    assert_eq!(used.remaining_balance, 52_700_000);
    assert_eq!(ix.insurance_fund.balance, 52_700_000);
    assert_eq!(ix.insurance_fund.total_bad_debt_covered, 45_000_000);
    assert_eq!(ix.insurance_fund.last_update, NOW + 7);
    assert_eq!(ix.position.size, 0);
    assert_eq!(ix.position.collateral, 0);
    assert!(ix.position.closed);
    assert_eq!(ix.user_account, user_with(0));
}

#[test]
fn liquidate_position_underwater() {
    let mut ix = liquidate_ix(1_000_000_000);
    ix.position = Position { entry_price: 100_000_000, collateral: 10_000_000, ..long_position() };
    ix.market.vamm_quote_reserve = 85_000_000;
    let (liquidated, used) = ix.execute(1_000_000, 85_000_000, NOW).unwrap();
    // The liquidated notional 85.0 minus the signed value 10.0 - 15.0.
    assert_eq!(liquidated.bad_debt, 90_000_000);
    assert_eq!(liquidated.liquidator_reward, 4_250_000);
    assert_eq!(used.amount, 94_250_000);
    assert_eq!(ix.insurance_fund.balance, 905_750_000);
    assert_eq!(ix.insurance_fund.total_bad_debt_covered, 90_000_000);
    assert_eq!(ix.position.size, 0);
    assert!(ix.position.closed);
}

#[test]
fn liquidate_half() {
    let mut ix = liquidate_ix(100_000_000);
    ix.execute(500_000, 46_000_000, NOW).unwrap();
    assert_eq!(ix.position.size, 500_000);
    assert_eq!(ix.position.collateral, 2_500_000);
    assert!(!ix.position.closed);
}

#[test]
fn liquidate_refusals() {
    let mut healthy = liquidate_ix(100_000_000);
    healthy.market.vamm_quote_reserve = 50_000_000;
    assert_eq!(healthy.execute(1_000_000, 50_000_000, NOW).map(|_| ()), Err(PerpDexError::PositionNotLiquidatable));
    // 46.0 is 8.7% away from the mark of 50.0, beyond the 5% allowed.
    let mut off_mark = liquidate_ix(100_000_000);
    off_mark.market.vamm_quote_reserve = 50_000_000;
    assert_eq!(off_mark.execute(1_000_000, 46_000_000, NOW).map(|_| ()), Err(PerpDexError::OraclePriceDeviationTooLarge));
    assert_eq!(off_mark.position, long_position());
    let mut no_mark = liquidate_ix(100_000_000);
    no_mark.market.vamm_base_reserve = 0;
    assert_eq!(no_mark.execute(1_000_000, 46_000_000, NOW).map(|_| ()), Err(PerpDexError::InsufficientAMMLiquidity));
    let mut poor = liquidate_ix(47_299_999);
    assert_eq!(poor.execute(1_000_000, 46_000_000, NOW).map(|_| ()), Err(PerpDexError::InsufficientInsuranceFund));
    assert_eq!(poor.insurance_fund.balance, 47_299_999);
    assert_eq!(poor.position, long_position());
    let mut ix = liquidate_ix(100_000_000);
    assert_eq!(ix.execute(0, 46_000_000, NOW).map(|_| ()), Err(PerpDexError::InvalidOrderSize));
    assert_eq!(ix.execute(1, 0, NOW).map(|_| ()), Err(PerpDexError::InvalidOrderPrice));
    assert_eq!(ix.execute(1_000_001, 46_000_000, NOW).map(|_| ()), Err(PerpDexError::LiquidationSizeExceedsMax));
    ix.position.closed = true;
    assert_eq!(ix.execute(1, 46_000_000, NOW).map(|_| ()), Err(PerpDexError::PositionNotFound));
    let mut no_leverage = liquidate_ix(100_000_000);
    no_leverage.position.leverage = 0;
    assert_eq!(no_leverage.execute(1, 46_000_000, NOW).map(|_| ()), Err(PerpDexError::DivisionByZero));
}

#[test]
fn deposit_insurance_fund() {
    let mut ix = DepositInsuranceFund { payer: addr(2), insurance_fund: InsuranceFund { balance: 10, total_fees_collected: 3, total_bad_debt_covered: 0, last_update: 0, bump: 1 } };
    let ev = ix.execute(90, NOW).unwrap();
    assert_eq!(ix.insurance_fund.balance, 100);
    assert_eq!(ix.insurance_fund.total_fees_collected, 93);
    assert_eq!(ix.insurance_fund.last_update, NOW);
    assert_eq!((ev.amount, ev.new_balance, ev.timestamp), (90, 100, NOW));
    assert_eq!(ix.execute(0, NOW).map(|_| ()), Err(PerpDexError::InvalidOrderSize));
    assert_eq!(ix.execute(u64::MAX, NOW).map(|_| ()), Err(PerpDexError::MathOverflow));
    ix.insurance_fund.total_fees_collected = u64::MAX;
    assert_eq!(ix.execute(1, NOW).map(|_| ()), Err(PerpDexError::MathOverflow));
    assert_eq!(ix.insurance_fund.balance, 100);
}

#[test]
fn order_state_queries() {
    let mut o = order(0, 1, 10, 5);
    assert!(o.is_long() && !o.is_short() && o.is_limit() && !o.is_market() && o.is_open());
    o.filled_size = 12;
    assert_eq!(o.remaining_size(), 0);
    o.filled_size = 4;
    assert_eq!(o.remaining_size(), 6);
    o.side = 1;
    o.order_type = 0;
    assert!(o.is_short() && o.is_market());
}

#[test]
fn address_comparison() {
    assert!(addr(3).same_as(&addr(3)));
    let mut a = addr(3);
    a.0[31] = 4;
    assert!(!a.same_as(&addr(3)));
}
