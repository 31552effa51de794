use vaults::errors::FundError;
use vaults::lifecycle::{
    create_fund, end_trading, execute_trade, finalize_close, initialize_protocol,
    initialize_share_mint, initialize_vault_accounts, start_trading, TradeParams,
};
use vaults::state::{FundStage, ProtocolConfig};

fn protocol() -> ProtocolConfig {
    initialize_protocol(1, 2, 3)
}

fn name() -> Vec<u8> {
    vec![b'F', b'u', b'n', b'd']
}

fn symbol() -> Vec<u8> {
    vec![b'F', b'N', b'D']
}

fn trade(amount: u64) -> TradeParams {
    TradeParams {
        market_id: String::from("market-1"),
        side: String::from("YES"),
        direction: String::from("BUY"),
        amount,
        slippage_bps: 50,
    }
}

#[test]
fn protocol_defaults() {
    let config = protocol();
    assert_eq!(config.admin, 1);
    assert_eq!(config.max_deposit_fee_bps, 300);
    assert_eq!(config.max_perf_fee_bps, 3000);
    assert_eq!(config.allowed_trade_venue, 2);
    assert_eq!(config.usdc_mint, 3);
    assert_eq!(config.protocol_fee_recipient, 1);
}

#[test]
fn create_fund_happy_path() {
    let config = protocol();
    let fund = create_fund(&config, 7, 11, name(), symbol(), 100, 2000, 1_000, 2_000, 500)
        .unwrap();
    assert_eq!(fund.fund_id, 7);
    assert_eq!(fund.manager, 11);
    assert_eq!(fund.deposit_fee_bps, 100);
    assert_eq!(fund.perf_fee_bps, 2000);
    assert_eq!(fund.early_exit_fee_bps, 500);
    assert_eq!(fund.liquidity_buffer_bps, 1000);
    assert_eq!(fund.stage, FundStage::Open);
    assert_eq!(fund.total_shares, 0);
    assert_eq!(fund.epoch_interval_secs, 86_400);
    assert_eq!(fund.share_mint, 0);
    assert_eq!(fund.vault_usdc_ata, 0);
    assert_eq!(fund.usdc_mint, 3);
}

#[test]
fn create_fund_rejects_deposit_fee_above_cap() {
    let config = protocol();
    let r = create_fund(&config, 7, 11, name(), symbol(), 301, 0, 1_000, 2_000, 500);
    assert_eq!(r.unwrap_err(), FundError::DepositFeeExceedsMax);
}

#[test]
fn create_fund_rejects_perf_fee_above_cap() {
    let config = protocol();
    let r = create_fund(&config, 7, 11, name(), symbol(), 0, 3_001, 1_000, 2_000, 500);
    assert_eq!(r.unwrap_err(), FundError::PerfFeeExceedsMax);
}

#[test]
fn create_fund_accepts_fees_at_cap() {
    let config = protocol();
    let fund = create_fund(&config, 7, 11, name(), symbol(), 300, 3_000, 1_000, 2_000, 500)
        .unwrap();
    assert_eq!(fund.deposit_fee_bps, 300);
    assert_eq!(fund.perf_fee_bps, 3_000);
}

#[test]
fn create_fund_validates_name_and_symbol() {
    let config = protocol();
    let r = create_fund(&config, 7, 11, vec![], symbol(), 0, 0, 1_000, 2_000, 500);
    assert_eq!(r.unwrap_err(), FundError::NameEmpty);
    let r = create_fund(&config, 7, 11, vec![b'x'; 33], symbol(), 0, 0, 1_000, 2_000, 500);
    assert_eq!(r.unwrap_err(), FundError::NameTooLong);
    let r = create_fund(&config, 7, 11, name(), vec![], 0, 0, 1_000, 2_000, 500);
    assert_eq!(r.unwrap_err(), FundError::SymbolEmpty);
    let r = create_fund(&config, 7, 11, name(), vec![b'x'; 9], 0, 0, 1_000, 2_000, 500);
    assert_eq!(r.unwrap_err(), FundError::SymbolTooLong);
    // The bounds themselves are accepted.
    let r = create_fund(&config, 7, 11, vec![b'x'; 32], vec![b'x'; 8], 0, 0, 1_000, 2_000, 500);
    assert!(r.is_ok());
}

#[test]
fn create_fund_validates_trading_window() {
    let config = protocol();
    let r = create_fund(&config, 7, 11, name(), symbol(), 0, 0, 500, 2_000, 500);
    assert_eq!(r.unwrap_err(), FundError::TradingStartInPast);
    let r = create_fund(&config, 7, 11, name(), symbol(), 0, 0, 1_000, 1_000, 500);
    assert_eq!(r.unwrap_err(), FundError::InvalidTradingPeriod);
}

#[test]
fn build_phases_in_order() {
    let config = protocol();
    let mut fund = create_fund(&config, 7, 11, name(), symbol(), 0, 0, 1_000, 2_000, 500)
        .unwrap();
    // The vault accounts cannot come before the share asset.
    assert_eq!(
        initialize_vault_accounts(&mut fund, 11, 70, 80),
        Err(FundError::InvalidStage)
    );
    // Only the manager may build.
    assert_eq!(initialize_share_mint(&mut fund, 12, 50, 60), Err(FundError::UnauthorizedManager));
    assert_eq!(initialize_share_mint(&mut fund, 11, 50, 60), Ok(()));
    assert_eq!(fund.share_mint, 50);
    assert_eq!(fund.vault_authority, 60);
    // The share asset cannot be initialized twice.
    assert_eq!(initialize_share_mint(&mut fund, 11, 51, 61), Err(FundError::InvalidStage));
    assert_eq!(initialize_vault_accounts(&mut fund, 11, 70, 80), Ok(()));
    assert_eq!(fund.vault_usdc_ata, 70);
    assert_eq!(fund.manager_fee_ata, 80);
    // The vault accounts cannot be initialized twice either.
    assert_eq!(initialize_vault_accounts(&mut fund, 11, 71, 81), Err(FundError::InvalidStage));
}

#[test]
fn stage_machine_happy_path() {
    let config = protocol();
    let mut fund = create_fund(&config, 7, 11, name(), symbol(), 0, 0, 1_000, 2_000, 500)
        .unwrap();
    assert_eq!(start_trading(&mut fund, 123_456, 1_000), Ok(()));
    assert_eq!(fund.stage, FundStage::Trading);
    assert_eq!(fund.initial_aum_usdc, 123_456);
    assert_eq!(end_trading(&mut fund, 2_000), Ok(()));
    assert_eq!(fund.stage, FundStage::Settlement);
    assert_eq!(finalize_close(&mut fund, 123_456), Ok(()));
    assert_eq!(fund.stage, FundStage::Closed);
    assert_eq!(fund.perf_fee_due_usdc, 0);
    assert!(!fund.perf_fee_paid);
}

#[test]
fn start_trading_waits_for_window() {
    let config = protocol();
    let mut fund = create_fund(&config, 7, 11, name(), symbol(), 0, 0, 1_000, 2_000, 500)
        .unwrap();
    assert_eq!(start_trading(&mut fund, 0, 999), Err(FundError::TradingNotStarted));
    assert_eq!(fund.stage, FundStage::Open);
}

#[test]
fn end_trading_waits_for_window() {
    let config = protocol();
    let mut fund = create_fund(&config, 7, 11, name(), symbol(), 0, 0, 1_000, 2_000, 500)
        .unwrap();
    start_trading(&mut fund, 0, 1_000).unwrap();
    assert_eq!(end_trading(&mut fund, 1_999), Err(FundError::TradingNotEnded));
    assert_eq!(fund.stage, FundStage::Trading);
}

#[test]
fn transitions_refuse_wrong_stage() {
    let config = protocol();
    let mut fund = create_fund(&config, 7, 11, name(), symbol(), 0, 0, 1_000, 2_000, 500)
        .unwrap();
    // Forward jumps are refused from Open.
    assert_eq!(end_trading(&mut fund, 10_000), Err(FundError::InvalidStage));
    assert_eq!(finalize_close(&mut fund, 0), Err(FundError::InvalidStage));
    start_trading(&mut fund, 0, 1_000).unwrap();
    // No regression and no skipping from Trading.
    assert_eq!(start_trading(&mut fund, 0, 9_000), Err(FundError::InvalidStage));
    assert_eq!(finalize_close(&mut fund, 0), Err(FundError::InvalidStage));
    end_trading(&mut fund, 2_000).unwrap();
    assert_eq!(start_trading(&mut fund, 0, 9_000), Err(FundError::InvalidStage));
    assert_eq!(end_trading(&mut fund, 9_000), Err(FundError::InvalidStage));
    finalize_close(&mut fund, 0).unwrap();
    // Closed is terminal.
    assert_eq!(start_trading(&mut fund, 0, 9_000), Err(FundError::InvalidStage));
    assert_eq!(end_trading(&mut fund, 9_000), Err(FundError::InvalidStage));
    assert_eq!(finalize_close(&mut fund, 0), Err(FundError::InvalidStage));
}

#[test]
fn finalize_computes_perf_fee_on_profit_only() {
    let config = protocol();
    let mut fund = create_fund(&config, 7, 11, name(), symbol(), 0, 2_000, 1_000, 2_000, 500)
        .unwrap();
    start_trading(&mut fund, 1_000_000, 1_000).unwrap();
    end_trading(&mut fund, 2_000).unwrap();
    // The vault grew from 1_000_000 to 1_500_000: twenty percent of the
    // 500_000 profit is due.
    finalize_close(&mut fund, 1_500_000).unwrap();
    assert_eq!(fund.perf_fee_due_usdc, 100_000);
    assert!(!fund.perf_fee_paid);
}

#[test]
fn finalize_charges_nothing_on_a_loss() {
    let config = protocol();
    let mut fund = create_fund(&config, 7, 11, name(), symbol(), 0, 2_000, 1_000, 2_000, 500)
        .unwrap();
    start_trading(&mut fund, 1_000_000, 1_000).unwrap();
    end_trading(&mut fund, 2_000).unwrap();
    finalize_close(&mut fund, 800_000).unwrap();
    assert_eq!(fund.perf_fee_due_usdc, 0);
}

#[test]
fn execute_trade_guards() {
    let config = protocol();
    let mut fund = create_fund(&config, 7, 11, name(), symbol(), 0, 0, 1_000, 2_000, 500)
        .unwrap();
    assert_eq!(
        execute_trade(&fund, &config, 12, &trade(100)),
        Err(FundError::UnauthorizedManager)
    );
    assert_eq!(execute_trade(&fund, &config, 11, &trade(100)), Err(FundError::TradingNotAllowed));
    start_trading(&mut fund, 0, 1_000).unwrap();
    assert_eq!(execute_trade(&fund, &config, 11, &trade(0)), Err(FundError::ZeroDeposit));
    assert_eq!(execute_trade(&fund, &config, 11, &trade(100)), Ok(()));
}

#[test]
fn default_stage_and_status() {
    assert_eq!(FundStage::default(), FundStage::Open);
    assert_eq!(
        vaults::state::RequestStatus::default(),
        vaults::state::RequestStatus::Pending
    );
}
