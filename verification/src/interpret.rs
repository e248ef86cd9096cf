//! Decoding an incoming message by its id. The ids are those of the TWS protocol's incoming
//! messages; each kind of message that the library decodes is read as `incoming` reads it, and
//! the others are handed back by id for the caller to decode.
use vstd::prelude::*;

use crate::common::{DepthMktDataDescription, FaDataType, FamilyCode, NewsProvider, SmartComponent, TickType};
use crate::decimal::{parse_i32, parse_i32_text};
use crate::decoder::field_i32;
use crate::contract_data::{
    cd_end, contract_details_complete, contract_details_decoded, process_contract_details,
    ContractDetailsFields,
};
use crate::errors::IBKRApiLibError;
use crate::order_decoding::{
    completed_order_tried, open_order_tried, try_process_completed_order, try_process_open_order,
    OrderMessage,
};
use crate::market_data::{
    option_computation_complete, option_computation_decoded, option_computation_enough,
    process_tick_option_computation, OptionComputationFields,
    market_depth_l2_decoded, market_depth_l2_len, pnl_decoded, pnl_len, pnl_single_decoded,
    process_market_depth_l2, process_pnl, process_pnl_single, process_tick_price, tick_price_decoded,
    tick_price_enough, TickPriceFields,
};
use crate::server_versions::{
    MIN_SERVER_VER_REALIZED_PNL, MIN_SERVER_VER_SERVICE_DATA_TYPE, MIN_SERVER_VER_SMART_DEPTH,
    MIN_SERVER_VER_SYNT_REALTIME_BARS, MIN_SERVER_VER_UNREALIZED_PNL,
};
use crate::execution_data::{
    ed_end, execution_data_complete, execution_data_decoded, process_execution_data,
    ExecutionFields,
};
use crate::incoming::{
    HistogramPointFields, HistoricalTickBidAskFields, HistoricalTickFields,
    HistoricalTickLastFields, PriceIncrementFields, TickByTick, market_rule_decoded, market_rule_enough,
    process_market_rule, process_tick_efp, tick_efp_decoded, tick_efp_enough,
    mkt_depth_exchanges_decoded, mkt_depth_exchanges_enough,
    process_mkt_depth_exchanges, HistoricalBarFields, historical_data_decoded, historical_data_enough,
    process_historical_data, OptionChainFields, option_chain_decoded, option_chain_enough,
    process_security_definition_option_parameter, ScanElementFields, scanner_data_decoded,
    scanner_data_enough, process_scanner_data, account_download_end_decoded,
    account_download_end_enough, account_summary_decoded, account_summary_end_decoded,
    account_summary_end_enough, account_summary_enough, account_update_multi_decoded,
    account_update_multi_end_decoded, account_update_multi_end_enough, account_update_multi_enough,
    account_update_time_decoded, account_update_time_enough, account_value_decoded,
    account_value_enough, contract_details_end_decoded, contract_details_end_enough,
    current_time_decoded, current_time_enough, delta_neutral_validation_decoded,
    delta_neutral_validation_enough, display_group_list_decoded, display_group_list_enough,
    display_group_updated_decoded, display_group_updated_enough, entry_count,
    error_message_decoded, error_message_enough, execution_data_end_decoded,
    execution_data_end_enough, family_codes_decoded, family_codes_enough, fundamental_data_decoded,
    fundamental_data_enough, head_timestamp_decoded, head_timestamp_enough, histogram_data_decoded,
    histogram_data_enough, historical_data_update_decoded, historical_data_update_enough,
    historical_news_decoded, historical_news_end_decoded, historical_news_end_enough,
    historical_news_enough, historical_ticks_bid_ask_decoded, historical_ticks_bid_ask_enough,
    historical_ticks_decoded, historical_ticks_enough, historical_ticks_last_decoded,
    historical_ticks_last_enough, managed_accounts_decoded, managed_accounts_enough,
    market_data_type_decoded, market_data_type_enough, market_depth_decoded, market_depth_enough,
    news_article_decoded, news_article_enough, news_bulletins_decoded, news_bulletins_enough,
    news_providers_decoded, news_providers_enough, next_valid_id_decoded, next_valid_id_enough,
    order_bound_decoded, order_bound_enough, position_multi_end_decoded, position_multi_end_enough,
    process_account_download_end, process_account_summary, process_account_summary_end,
    process_account_update_multi, process_account_update_multi_end, process_account_update_time,
    process_account_value, process_contract_details_end, process_current_time,
    process_delta_neutral_validation, process_display_group_list, process_display_group_updated,
    process_error_message, process_execution_data_end, process_family_codes,
    process_fundamental_data, process_head_timestamp, process_histogram_data,
    process_historical_data_update, process_historical_news, process_historical_news_end,
    process_historical_ticks, process_historical_ticks_bid_ask, process_historical_ticks_last,
    process_managed_accounts, process_market_data_type, process_market_depth, process_news_article,
    process_news_bulletins, process_news_providers, process_next_valid_id, process_order_bound,
    process_position_multi_end, process_real_time_bars, process_receive_fa,
    process_reroute_mkt_data_req, process_reroute_mkt_depth_req, process_scanner_parameters,
    process_security_definition_option_parameter_end, process_smart_components,
    process_soft_dollar_tiers, process_tick_by_tick, process_tick_generic, process_tick_news,
    process_tick_req_params, process_tick_size, process_tick_snapshot_end, process_tick_string,
    process_verify_and_auth_completed, process_verify_and_auth_message_api,
    process_verify_completed, real_time_bars_decoded, real_time_bars_enough, receive_fa_decoded,
    receive_fa_enough, reroute_mkt_data_req_decoded, reroute_mkt_data_req_enough,
    reroute_mkt_depth_req_decoded, reroute_mkt_depth_req_enough, scanner_parameters_decoded,
    scanner_parameters_enough, security_definition_option_parameter_end_decoded,
    security_definition_option_parameter_end_enough, smart_components_decoded,
    smart_components_enough, soft_dollar_tiers_decoded, soft_dollar_tiers_enough,
    tick_by_tick_decoded, tick_by_tick_enough, tick_generic_decoded, tick_generic_enough,
    tick_news_decoded, tick_news_enough, tick_req_params_decoded, tick_req_params_enough,
    tick_size_decoded, tick_size_enough, tick_snapshot_end_decoded, tick_snapshot_end_enough,
    tick_string_decoded, tick_string_enough, verify_and_auth_completed_decoded,
    verify_and_auth_completed_enough, verify_and_auth_message_api_decoded,
    verify_and_auth_message_api_enough, verify_completed_decoded, verify_completed_enough,
};
use crate::order::SoftDollarTier;
use crate::symbol_samples::{
    process_symbol_samples, symbol_samples_complete, symbol_samples_decoded, symbol_samples_enough,
    ContractDescriptionFields,
};
use crate::bond_data::{
    bd_end, bd_flags_parse, bond_contract_data_complete, bond_contract_data_decoded,
    process_bond_contract_data, BondContractDetailsFields,
};
use crate::portfolio::{
    commission_report_decoded, order_status_decoded, order_status_len, portfolio_value_complete,
    portfolio_value_decoded, position_data_complete, position_decoded, position_end,
    position_multi_decoded, process_commission_report, process_order_status,
    process_portfolio_value, process_position_data, process_position_multi, pv_end,
    CommissionReportFields, OrderStatusFields, PortfolioValueFields, PositionFields,
    PositionMultiFields,
};

verus! {

/// `<i32 as FromStr>::from_str`: an optional `+` or `-`, then at least one decimal digit, the
/// value in range; any other text is an error.
#[verifier::external_body]
pub(crate) fn parse_i32_field(s: &str) -> (r: Result<i32, std::num::ParseIntError>)
    ensures
        r matches Ok(v) ==> parse_i32_text(s@) == Some(v as int),
        r is Err ==> parse_i32_text(s@) is None,
{
    s.parse::<i32>()
}

/// The `i32` that the field at `i` holds.
pub(crate) fn field_i32_at(fields: &[String], i: usize) -> (r: i32)
    requires
        i < fields.len(),
    ensures
        r == field_i32(fields@[i as int]@),
{
    match parse_i32(fields[i].as_str()) {
        Some(v) => v,
        None => 0,
    }
}

/// How many entries the count field at `i` announces.
fn count_at(fields: &[String], i: usize) -> (r: i128)
    requires
        i < fields.len(),
    ensures
        r == entry_count(field_i32(fields@[i as int]@)),
{
    let n = field_i32_at(fields, i);
    if n < 0 { 0 } else { n as i128 }
}

/// Whether an option chain message holds its expirations and strikes.
fn option_chain_complete(fields: &[String]) -> (r: bool)
    ensures
        r == option_chain_enough(fields@),
{
    if fields.len() < 8 {
        return false;
    }
    let e = count_at(fields, 6);
    if (fields.len() as i128) < 8 + e {
        return false;
    }
    let s = count_at(fields, (7 + e) as usize);
    fields.len() as i128 >= 8 + e + s
}

/// An incoming message, decoded into the values that the wrapper's callback for it receives.
#[derive(Debug)]
pub enum Incoming {
    /// A message without fields, which is passed over.
    Empty,
    /// A message of an id that the library does not decode.
    NotDecoded(i32),
    /// `open_order`: the decoded message, or nothing where the message does not hold what its
    /// decoding reads.
    OpenOrder(Option<OrderMessage>),
    /// `completed_order`: the decoded message, or nothing where the message does not hold what
    /// its decoding reads.
    CompletedOrder(Option<OrderMessage>),
    /// `open_order_end`, which carries no values.
    OpenOrderEnd,
    /// `position_end`, which carries no values.
    PositionEnd,
    /// `completed_orders_end`, which carries no values.
    CompletedOrdersEnd,
    TickSize((i32, TickType, i32)),
    ErrorMessage((i32, i32, String)),
    AccountValue((String, String, String, String)),
    AccountUpdateTime(String),
    NextValidId(i32),
    MarketDepth((i32, i32, i32, i32, String, i32)),
    NewsBulletins((i32, i32, String, String)),
    ManagedAccounts(String),
    ReceiveFa((FaDataType, String)),
    ScannerParameters(String),
    ScannerData((i32, Vec<ScanElementFields>)),
    TickGeneric((i32, TickType, String)),
    TickString((i32, TickType, String)),
    TickEfp((i32, TickType, String, String, String, i32, String, String, String)),
    CurrentTime(i64),
    RealTimeBars((i32, String, String, String, String, String, i64, String, i32)),
    FundamentalData((i32, String)),
    ContractDetailsEnd(i32),
    AccountDownloadEnd(String),
    ExecutionDataEnd(i32),
    DeltaNeutralValidation((i32, i32, String, String)),
    TickSnapshotEnd(i32),
    MarketDataType((i32, i32)),
    AccountSummary((i32, String, String, String, String)),
    AccountSummaryEnd(i32),
    VerifyCompleted((bool, String)),
    DisplayGroupList((i32, String)),
    DisplayGroupUpdated((i32, String)),
    VerifyAndAuthMessageApi((String, String)),
    VerifyAndAuthCompleted((bool, String)),
    PositionMultiEnd(i32),
    AccountUpdateMulti((i32, String, String, String, String, String)),
    AccountUpdateMultiEnd(i32),
    SecurityDefinitionOptionParameterEnd(i32),
    SoftDollarTiers((i32, Vec<SoftDollarTier>)),
    FamilyCodes(Vec<FamilyCode>),
    TickReqParams((i32, String, String, i32)),
    SmartComponents((i32, Vec<SmartComponent>)),
    NewsArticle((i32, i32, String)),
    TickNews((i32, i32, String, String, String, String)),
    NewsProviders(Vec<NewsProvider>),
    HistoricalNews((i32, String, String, String, String)),
    HistoricalNewsEnd((i32, bool)),
    HeadTimestamp((i32, String)),
    HistogramData((i32, Vec<HistogramPointFields>)),
    HistoricalDataUpdate((i32, i32, String, String, String, String, String, String, i64)),
    RerouteMktDataReq((i32, i32, String)),
    RerouteMktDepthReq((i32, i32, String)),
    MarketRule((i32, Vec<PriceIncrementFields>)),
    HistoricalTicks((i32, Vec<HistoricalTickFields>, bool)),
    HistoricalTicksBidAsk((i32, Vec<HistoricalTickBidAskFields>, bool)),
    HistoricalTicksLast((i32, Vec<HistoricalTickLastFields>, bool)),
    TickByTick(TickByTick),
    OrderBound((i32, i32, i32)),
    ExecutionData(ExecutionFields),
    ContractDetails(ContractDetailsFields),
    TickPrice(TickPriceFields),
    MarketDepthL2((i32, i32, String, i32, i32, String, i32, bool)),
    Pnl((i32, String, String, String)),
    OrderStatus(OrderStatusFields),
    PortfolioValue(PortfolioValueFields),
    PositionData(PositionFields),
    CommissionReport(CommissionReportFields),
    PositionMulti(PositionMultiFields),
    MktDepthExchanges(Vec<DepthMktDataDescription>),
    HistoricalData((i32, String, String, Vec<HistoricalBarFields>)),
    OptionChain(OptionChainFields),
    BondContractData(BondContractDetailsFields),
    OptionComputation(OptionComputationFields),
    SymbolSamples((i32, Vec<ContractDescriptionFields>)),
    PnlSingle((i32, i32, String, String, String, String)),
}

/// Whether `id` is the id of a message that TWS sends.
pub open spec fn known_message_id(id: int) -> bool {
    id == 1 || id == 2 || id == 3 || id == 4 || id == 5 || id == 6 || id == 7 || id == 8 ||
    id == 9 || id == 10 || id == 11 || id == 12 || id == 13 || id == 14 || id == 15 ||
    id == 16 || id == 17 || id == 18 || id == 19 || id == 20 || id == 21 || id == 45 ||
    id == 46 || id == 47 || id == 49 || id == 50 || id == 51 || id == 52 || id == 53 ||
    id == 54 || id == 55 || id == 56 || id == 57 || id == 58 || id == 59 || id == 61 ||
    id == 62 || id == 63 || id == 64 || id == 65 || id == 66 || id == 67 || id == 68 ||
    id == 69 || id == 70 || id == 71 || id == 72 || id == 73 || id == 74 || id == 75 ||
    id == 76 || id == 77 || id == 78 || id == 79 || id == 80 || id == 81 || id == 82 ||
    id == 83 || id == 84 || id == 85 || id == 86 || id == 87 || id == 88 || id == 89 ||
    id == 90 || id == 91 || id == 92 || id == 93 || id == 94 || id == 95 || id == 96 ||
    id == 97 || id == 98 || id == 99 || id == 100 || id == 101 || id == 102
}

/// Whether a message of id `id` holds the fields that its decoding reads.
pub open spec fn message_enough(server_version: i32, id: int, fields: Seq<String>) -> bool {
    if id == 1 {
        tick_price_enough(fields)
    } else if id == 2 {
        tick_size_enough(fields)
    } else if id == 3 {
        fields.len() >= order_status_len(server_version)
    } else if id == 4 {
        error_message_enough(fields)
    } else if id == 6 {
        account_value_enough(fields)
    } else if id == 7 {
        fields.len() >= 2 && fields.len() >= pv_end(server_version, fields)
    } else if id == 8 {
        account_update_time_enough(fields)
    } else if id == 9 {
        next_valid_id_enough(fields)
    } else if id == 10 {
        fields.len() >= cd_end(server_version, fields)
    } else if id == 11 {
        fields.len() >= ed_end(server_version, fields)
    } else if id == 12 {
        market_depth_enough(fields)
    } else if id == 13 {
        fields.len() >= market_depth_l2_len(server_version)
    } else if id == 14 {
        news_bulletins_enough(fields)
    } else if id == 15 {
        managed_accounts_enough(fields)
    } else if id == 16 {
        receive_fa_enough(fields)
    } else if id == 17 {
        historical_data_enough(server_version, fields)
    } else if id == 18 {
        fields.len() >= 2 && fields.len() >= bd_end(server_version, fields)
    } else if id == 19 {
        scanner_parameters_enough(fields)
    } else if id == 20 {
        scanner_data_enough(fields)
    } else if id == 21 {
        option_computation_enough(fields)
    } else if id == 45 {
        tick_generic_enough(fields)
    } else if id == 46 {
        tick_string_enough(fields)
    } else if id == 47 {
        tick_efp_enough(fields)
    } else if id == 49 {
        current_time_enough(fields)
    } else if id == 50 {
        real_time_bars_enough(fields)
    } else if id == 51 {
        fundamental_data_enough(fields)
    } else if id == 52 {
        contract_details_end_enough(fields)
    } else if id == 54 {
        account_download_end_enough(fields)
    } else if id == 55 {
        execution_data_end_enough(fields)
    } else if id == 56 {
        delta_neutral_validation_enough(fields)
    } else if id == 57 {
        tick_snapshot_end_enough(fields)
    } else if id == 58 {
        market_data_type_enough(fields)
    } else if id == 59 {
        fields.len() >= 8
    } else if id == 61 {
        fields.len() >= 2 && fields.len() >= position_end(fields)
    } else if id == 63 {
        account_summary_enough(fields)
    } else if id == 64 {
        account_summary_end_enough(fields)
    } else if id == 65 {
        verify_completed_enough(fields)
    } else if id == 66 {
        verify_completed_enough(fields)
    } else if id == 67 {
        display_group_list_enough(fields)
    } else if id == 68 {
        display_group_updated_enough(fields)
    } else if id == 69 {
        verify_and_auth_message_api_enough(fields)
    } else if id == 70 {
        verify_and_auth_completed_enough(fields)
    } else if id == 71 {
        fields.len() >= 18
    } else if id == 72 {
        position_multi_end_enough(fields)
    } else if id == 73 {
        account_update_multi_enough(fields)
    } else if id == 74 {
        account_update_multi_end_enough(fields)
    } else if id == 75 {
        option_chain_enough(fields)
    } else if id == 76 {
        security_definition_option_parameter_end_enough(fields)
    } else if id == 77 {
        soft_dollar_tiers_enough(fields)
    } else if id == 78 {
        family_codes_enough(fields)
    } else if id == 79 {
        symbol_samples_enough(fields)
    } else if id == 80 {
        mkt_depth_exchanges_enough(server_version, fields)
    } else if id == 81 {
        tick_req_params_enough(fields)
    } else if id == 82 {
        smart_components_enough(fields)
    } else if id == 83 {
        news_article_enough(fields)
    } else if id == 84 {
        tick_news_enough(fields)
    } else if id == 85 {
        news_providers_enough(fields)
    } else if id == 86 {
        historical_news_enough(fields)
    } else if id == 87 {
        historical_news_end_enough(fields)
    } else if id == 88 {
        head_timestamp_enough(fields)
    } else if id == 89 {
        histogram_data_enough(fields)
    } else if id == 90 {
        historical_data_update_enough(fields)
    } else if id == 91 {
        reroute_mkt_data_req_enough(fields)
    } else if id == 92 {
        reroute_mkt_depth_req_enough(fields)
    } else if id == 93 {
        market_rule_enough(fields)
    } else if id == 94 {
        fields.len() >= pnl_len(server_version, false)
    } else if id == 95 {
        fields.len() >= pnl_len(server_version, true)
    } else if id == 96 {
        historical_ticks_enough(fields)
    } else if id == 97 {
        historical_ticks_bid_ask_enough(fields)
    } else if id == 98 {
        historical_ticks_last_enough(fields)
    } else if id == 99 {
        tick_by_tick_enough(fields)
    } else if id == 100 {
        order_bound_enough(fields)
    } else {
        true
    }
}

/// What the message of id `id` decodes to.
pub open spec fn message_decoded<F: Fn(&str) -> bool>(
    server_version: i32,
    id: int,
    fields: Seq<String>,
    scale_positive: F,
    m: Incoming,
) -> bool {
    if id == 1 {
        m matches Incoming::TickPrice(v) && tick_price_decoded(server_version, fields, v)
    } else if id == 2 {
        m matches Incoming::TickSize(v) && tick_size_decoded(fields, v)
    } else if id == 3 {
        m matches Incoming::OrderStatus(v) && order_status_decoded(server_version, fields, v)
    } else if id == 4 {
        m matches Incoming::ErrorMessage(v) && error_message_decoded(fields, v)
    } else if id == 5 {
        m matches Incoming::OpenOrder(o) && open_order_tried(server_version, fields, scale_positive, o)
    } else if id == 6 {
        m matches Incoming::AccountValue(v) && account_value_decoded(fields, v)
    } else if id == 7 {
        m matches Incoming::PortfolioValue(v) && portfolio_value_decoded(server_version, fields, v)
    } else if id == 8 {
        m matches Incoming::AccountUpdateTime(v) && account_update_time_decoded(fields, v)
    } else if id == 9 {
        m matches Incoming::NextValidId(v) && next_valid_id_decoded(fields, v)
    } else if id == 10 {
        m matches Incoming::ContractDetails(v) && contract_details_decoded(server_version, fields, v)
    } else if id == 11 {
        m matches Incoming::ExecutionData(v) && execution_data_decoded(server_version, fields, v)
    } else if id == 12 {
        m matches Incoming::MarketDepth(v) && market_depth_decoded(fields, v)
    } else if id == 13 {
        m matches Incoming::MarketDepthL2(v) && market_depth_l2_decoded(server_version, fields, v)
    } else if id == 14 {
        m matches Incoming::NewsBulletins(v) && news_bulletins_decoded(fields, v)
    } else if id == 15 {
        m matches Incoming::ManagedAccounts(v) && managed_accounts_decoded(fields, v)
    } else if id == 16 {
        m matches Incoming::ReceiveFa(v) && receive_fa_decoded(fields, v)
    } else if id == 17 {
        m matches Incoming::HistoricalData(v) && historical_data_decoded(server_version, fields, v)
    } else if id == 18 {
        m matches Incoming::BondContractData(v) && bond_contract_data_decoded(server_version, fields, v)
    } else if id == 19 {
        m matches Incoming::ScannerParameters(v) && scanner_parameters_decoded(fields, v)
    } else if id == 20 {
        m matches Incoming::ScannerData(v) && scanner_data_decoded(fields, v)
    } else if id == 21 {
        m matches Incoming::OptionComputation(v) && option_computation_decoded(fields, v)
    } else if id == 45 {
        m matches Incoming::TickGeneric(v) && tick_generic_decoded(fields, v)
    } else if id == 46 {
        m matches Incoming::TickString(v) && tick_string_decoded(fields, v)
    } else if id == 47 {
        m matches Incoming::TickEfp(v) && tick_efp_decoded(fields, v)
    } else if id == 49 {
        m matches Incoming::CurrentTime(v) && current_time_decoded(fields, v)
    } else if id == 50 {
        m matches Incoming::RealTimeBars(v) && real_time_bars_decoded(fields, v)
    } else if id == 51 {
        m matches Incoming::FundamentalData(v) && fundamental_data_decoded(fields, v)
    } else if id == 52 {
        m matches Incoming::ContractDetailsEnd(v) && contract_details_end_decoded(fields, v)
    } else if id == 53 {
        m matches Incoming::OpenOrderEnd
    } else if id == 54 {
        m matches Incoming::AccountDownloadEnd(v) && account_download_end_decoded(fields, v)
    } else if id == 55 {
        m matches Incoming::ExecutionDataEnd(v) && execution_data_end_decoded(fields, v)
    } else if id == 56 {
        m matches Incoming::DeltaNeutralValidation(v) && delta_neutral_validation_decoded(fields, v)
    } else if id == 57 {
        m matches Incoming::TickSnapshotEnd(v) && tick_snapshot_end_decoded(fields, v)
    } else if id == 58 {
        m matches Incoming::MarketDataType(v) && market_data_type_decoded(fields, v)
    } else if id == 59 {
        m matches Incoming::CommissionReport(v) && commission_report_decoded(fields, v)
    } else if id == 61 {
        m matches Incoming::PositionData(v) && position_decoded(fields, v)
    } else if id == 62 {
        m matches Incoming::PositionEnd
    } else if id == 63 {
        m matches Incoming::AccountSummary(v) && account_summary_decoded(fields, v)
    } else if id == 64 {
        m matches Incoming::AccountSummaryEnd(v) && account_summary_end_decoded(fields, v)
    } else if id == 65 {
        m matches Incoming::VerifyCompleted(v) && verify_completed_decoded(fields, v)
    } else if id == 66 {
        m matches Incoming::VerifyCompleted(v) && verify_completed_decoded(fields, v)
    } else if id == 67 {
        m matches Incoming::DisplayGroupList(v) && display_group_list_decoded(fields, v)
    } else if id == 68 {
        m matches Incoming::DisplayGroupUpdated(v) && display_group_updated_decoded(fields, v)
    } else if id == 69 {
        m matches Incoming::VerifyAndAuthMessageApi(v) && verify_and_auth_message_api_decoded(fields, v)
    } else if id == 70 {
        m matches Incoming::VerifyAndAuthCompleted(v) && verify_and_auth_completed_decoded(fields, v)
    } else if id == 71 {
        m matches Incoming::PositionMulti(v) && position_multi_decoded(fields, v)
    } else if id == 72 {
        m matches Incoming::PositionMultiEnd(v) && position_multi_end_decoded(fields, v)
    } else if id == 73 {
        m matches Incoming::AccountUpdateMulti(v) && account_update_multi_decoded(fields, v)
    } else if id == 74 {
        m matches Incoming::AccountUpdateMultiEnd(v) && account_update_multi_end_decoded(fields, v)
    } else if id == 75 {
        m matches Incoming::OptionChain(v) && option_chain_decoded(fields, v)
    } else if id == 76 {
        m matches Incoming::SecurityDefinitionOptionParameterEnd(v) && security_definition_option_parameter_end_decoded(fields, v)
    } else if id == 77 {
        m matches Incoming::SoftDollarTiers(v) && soft_dollar_tiers_decoded(fields, v)
    } else if id == 78 {
        m matches Incoming::FamilyCodes(v) && family_codes_decoded(fields, v)
    } else if id == 79 {
        m matches Incoming::SymbolSamples(v) && symbol_samples_decoded(fields, v)
    } else if id == 80 {
        m matches Incoming::MktDepthExchanges(v) && mkt_depth_exchanges_decoded(server_version, fields, v)
    } else if id == 81 {
        m matches Incoming::TickReqParams(v) && tick_req_params_decoded(fields, v)
    } else if id == 82 {
        m matches Incoming::SmartComponents(v) && smart_components_decoded(fields, v)
    } else if id == 83 {
        m matches Incoming::NewsArticle(v) && news_article_decoded(fields, v)
    } else if id == 84 {
        m matches Incoming::TickNews(v) && tick_news_decoded(fields, v)
    } else if id == 85 {
        m matches Incoming::NewsProviders(v) && news_providers_decoded(fields, v)
    } else if id == 86 {
        m matches Incoming::HistoricalNews(v) && historical_news_decoded(fields, v)
    } else if id == 87 {
        m matches Incoming::HistoricalNewsEnd(v) && historical_news_end_decoded(fields, v)
    } else if id == 88 {
        m matches Incoming::HeadTimestamp(v) && head_timestamp_decoded(fields, v)
    } else if id == 89 {
        m matches Incoming::HistogramData(v) && histogram_data_decoded(fields, v)
    } else if id == 90 {
        m matches Incoming::HistoricalDataUpdate(v) && historical_data_update_decoded(fields, v)
    } else if id == 91 {
        m matches Incoming::RerouteMktDataReq(v) && reroute_mkt_data_req_decoded(fields, v)
    } else if id == 92 {
        m matches Incoming::RerouteMktDepthReq(v) && reroute_mkt_depth_req_decoded(fields, v)
    } else if id == 93 {
        m matches Incoming::MarketRule(v) && market_rule_decoded(fields, v)
    } else if id == 94 {
        m matches Incoming::Pnl(v) && pnl_decoded(server_version, fields, v)
    } else if id == 95 {
        m matches Incoming::PnlSingle(v) && pnl_single_decoded(server_version, fields, v)
    } else if id == 96 {
        m matches Incoming::HistoricalTicks(v) && historical_ticks_decoded(fields, v)
    } else if id == 97 {
        m matches Incoming::HistoricalTicksBidAsk(v) && historical_ticks_bid_ask_decoded(fields, v)
    } else if id == 98 {
        m matches Incoming::HistoricalTicksLast(v) && historical_ticks_last_decoded(fields, v)
    } else if id == 99 {
        m matches Incoming::TickByTick(v) && tick_by_tick_decoded(fields, v)
    } else if id == 100 {
        m matches Incoming::OrderBound(v) && order_bound_decoded(fields, v)
    } else if id == 101 {
        m matches Incoming::CompletedOrder(o) && completed_order_tried(
            server_version,
            fields,
            scale_positive,
            o,
        )
    } else if id == 102 {
        m matches Incoming::CompletedOrdersEnd
    } else {
        false
    }
}

/// Whether decoding the message of id `id` fails: a bond's flags that are not integers.
pub open spec fn message_fails(id: int, fields: Seq<String>) -> bool {
    id == 18 && !bd_flags_parse(fields)
}

/// Whether a message can be decoded: it is empty, its id is not a number, or its id is known
/// and it holds the fields that its decoding reads.
pub open spec fn interpret_enough(server_version: i32, fields: Seq<String>) -> bool {
    fields.len() == 0 || match parse_i32_text(fields[0]@) {
        None => true,
        Some(id) => known_message_id(id) && message_enough(server_version, id, fields),
    }
}

/// What decoding a message gives: an empty message is passed over, an id that is not a number
/// is a parse error, a bond whose flags are not integers is a parse error, and a known id
/// decodes as its kind of message does; `scale_positive` answers on the scale price increment
/// of an open or completed order.
pub open spec fn interpreted<F: Fn(&str) -> bool>(
    server_version: i32,
    fields: Seq<String>,
    scale_positive: F,
    r: Result<Incoming, IBKRApiLibError>,
) -> bool {
    if fields.len() == 0 {
        r matches Ok(Incoming::Empty)
    } else {
        match parse_i32_text(fields[0]@) {
            None => r matches Err(IBKRApiLibError::ParseInt(_)),
            Some(id) => if message_fails(id, fields) {
                r matches Err(IBKRApiLibError::ParseInt(_))
            } else {
                r matches Ok(m) && message_decoded(server_version, id, fields, scale_positive, m)
            },
        }
    }
}

/// Decodes a message by its id, the first field.
pub fn interpret<F: Fn(&str) -> bool>(
    server_version: i32,
    fields: &[String],
    scale_positive: F,
) -> (r: Result<Incoming, IBKRApiLibError>)
    requires
        interpret_enough(server_version, fields@),
        forall|s: &str| #[trigger] scale_positive.requires((s,)),
    ensures
        interpreted(server_version, fields@, scale_positive, r),
{
    if fields.len() == 0 {
        return Ok(Incoming::Empty);
    }
    let msg_id = match parse_i32_field(fields[0].as_str()) {
        Ok(id) => id,
        Err(e) => return Err(IBKRApiLibError::ParseInt(e)),
    };
    match msg_id {
        1 => Ok(Incoming::TickPrice(process_tick_price(server_version, fields))),
        2 => Ok(Incoming::TickSize(process_tick_size(fields)?)),
        3 => Ok(Incoming::OrderStatus(process_order_status(server_version, fields))),
        4 => Ok(Incoming::ErrorMessage(process_error_message(fields)?)),
        5 => Ok(Incoming::OpenOrder(try_process_open_order(server_version, fields, scale_positive))),
        6 => Ok(Incoming::AccountValue(process_account_value(fields)?)),
        7 => Ok(Incoming::PortfolioValue(process_portfolio_value(server_version, fields))),
        8 => Ok(Incoming::AccountUpdateTime(process_account_update_time(fields)?)),
        9 => Ok(Incoming::NextValidId(process_next_valid_id(fields)?)),
        10 => Ok(Incoming::ContractDetails(process_contract_details(server_version, fields))),
        11 => Ok(Incoming::ExecutionData(process_execution_data(server_version, fields))),
        12 => Ok(Incoming::MarketDepth(process_market_depth(fields)?)),
        13 => Ok(Incoming::MarketDepthL2(process_market_depth_l2(server_version, fields))),
        14 => Ok(Incoming::NewsBulletins(process_news_bulletins(fields)?)),
        15 => Ok(Incoming::ManagedAccounts(process_managed_accounts(fields)?)),
        16 => Ok(Incoming::ReceiveFa(process_receive_fa(fields)?)),
        17 => Ok(Incoming::HistoricalData(process_historical_data(server_version, fields)?)),
        18 => Ok(Incoming::BondContractData(process_bond_contract_data(server_version, fields)?)),
        19 => Ok(Incoming::ScannerParameters(process_scanner_parameters(fields)?)),
        20 => Ok(Incoming::ScannerData(process_scanner_data(fields)?)),
        21 => Ok(Incoming::OptionComputation(process_tick_option_computation(fields))),
        45 => Ok(Incoming::TickGeneric(process_tick_generic(fields)?)),
        46 => Ok(Incoming::TickString(process_tick_string(fields)?)),
        47 => Ok(Incoming::TickEfp(process_tick_efp(fields)?)),
        49 => Ok(Incoming::CurrentTime(process_current_time(fields)?)),
        50 => Ok(Incoming::RealTimeBars(process_real_time_bars(fields)?)),
        51 => Ok(Incoming::FundamentalData(process_fundamental_data(fields)?)),
        52 => Ok(Incoming::ContractDetailsEnd(process_contract_details_end(fields)?)),
        53 => Ok(Incoming::OpenOrderEnd),
        54 => Ok(Incoming::AccountDownloadEnd(process_account_download_end(fields)?)),
        55 => Ok(Incoming::ExecutionDataEnd(process_execution_data_end(fields)?)),
        56 => Ok(Incoming::DeltaNeutralValidation(process_delta_neutral_validation(fields)?)),
        57 => Ok(Incoming::TickSnapshotEnd(process_tick_snapshot_end(fields)?)),
        58 => Ok(Incoming::MarketDataType(process_market_data_type(fields)?)),
        59 => Ok(Incoming::CommissionReport(process_commission_report(fields))),
        61 => Ok(Incoming::PositionData(process_position_data(fields))),
        62 => Ok(Incoming::PositionEnd),
        63 => Ok(Incoming::AccountSummary(process_account_summary(fields)?)),
        64 => Ok(Incoming::AccountSummaryEnd(process_account_summary_end(fields)?)),
        65 => Ok(Incoming::VerifyCompleted(process_verify_completed(fields)?)),
        66 => Ok(Incoming::VerifyCompleted(process_verify_completed(fields)?)),
        67 => Ok(Incoming::DisplayGroupList(process_display_group_list(fields)?)),
        68 => Ok(Incoming::DisplayGroupUpdated(process_display_group_updated(fields)?)),
        69 => Ok(Incoming::VerifyAndAuthMessageApi(process_verify_and_auth_message_api(fields)?)),
        70 => Ok(Incoming::VerifyAndAuthCompleted(process_verify_and_auth_completed(fields)?)),
        71 => Ok(Incoming::PositionMulti(process_position_multi(fields))),
        72 => Ok(Incoming::PositionMultiEnd(process_position_multi_end(fields)?)),
        73 => Ok(Incoming::AccountUpdateMulti(process_account_update_multi(fields)?)),
        74 => Ok(Incoming::AccountUpdateMultiEnd(process_account_update_multi_end(fields)?)),
        75 => Ok(Incoming::OptionChain(process_security_definition_option_parameter(fields)?)),
        76 => Ok(Incoming::SecurityDefinitionOptionParameterEnd(process_security_definition_option_parameter_end(fields)?)),
        77 => Ok(Incoming::SoftDollarTiers(process_soft_dollar_tiers(fields)?)),
        78 => Ok(Incoming::FamilyCodes(process_family_codes(fields)?)),
        79 => Ok(Incoming::SymbolSamples(process_symbol_samples(fields))),
        80 => Ok(Incoming::MktDepthExchanges(process_mkt_depth_exchanges(server_version, fields)?)),
        81 => Ok(Incoming::TickReqParams(process_tick_req_params(fields)?)),
        82 => Ok(Incoming::SmartComponents(process_smart_components(fields)?)),
        83 => Ok(Incoming::NewsArticle(process_news_article(fields)?)),
        84 => Ok(Incoming::TickNews(process_tick_news(fields)?)),
        85 => Ok(Incoming::NewsProviders(process_news_providers(fields)?)),
        86 => Ok(Incoming::HistoricalNews(process_historical_news(fields)?)),
        87 => Ok(Incoming::HistoricalNewsEnd(process_historical_news_end(fields)?)),
        88 => Ok(Incoming::HeadTimestamp(process_head_timestamp(fields)?)),
        89 => Ok(Incoming::HistogramData(process_histogram_data(fields)?)),
        90 => Ok(Incoming::HistoricalDataUpdate(process_historical_data_update(fields)?)),
        91 => Ok(Incoming::RerouteMktDataReq(process_reroute_mkt_data_req(fields)?)),
        92 => Ok(Incoming::RerouteMktDepthReq(process_reroute_mkt_depth_req(fields)?)),
        93 => Ok(Incoming::MarketRule(process_market_rule(fields)?)),
        94 => Ok(Incoming::Pnl(process_pnl(server_version, fields))),
        95 => Ok(Incoming::PnlSingle(process_pnl_single(server_version, fields))),
        96 => Ok(Incoming::HistoricalTicks(process_historical_ticks(fields)?)),
        97 => Ok(Incoming::HistoricalTicksBidAsk(process_historical_ticks_bid_ask(fields)?)),
        98 => Ok(Incoming::HistoricalTicksLast(process_historical_ticks_last(fields)?)),
        99 => Ok(Incoming::TickByTick(process_tick_by_tick(fields)?)),
        100 => Ok(Incoming::OrderBound(process_order_bound(fields)?)),
        101 => Ok(Incoming::CompletedOrder(try_process_completed_order(server_version, fields, scale_positive))),
        102 => Ok(Incoming::CompletedOrdersEnd),
        _ => Ok(Incoming::NotDecoded(msg_id)),
    }
}

/// Whether `interpret` can decode the message: see `interpret_enough`.
pub fn message_is_complete(server_version: i32, fields: &[String]) -> (r: bool)
    ensures
        r == interpret_enough(server_version, fields@),
{
    if fields.len() == 0 {
        return true;
    }
    let msg_id = match parse_i32(fields[0].as_str()) {
        Some(id) => id,
        None => return true,
    };
    match msg_id {
        1 => fields.len() >= 7 && TickType::from_i32(field_i32_at(fields, 3)).is_some(),
        2 => fields.len() >= 5 && TickType::from_i32(field_i32_at(fields, 3)).is_some(),
        3 => fields.len() >= 12,
        4 => fields.len() >= 5,
        5 => true,
        6 => fields.len() >= 6,
        7 => portfolio_value_complete(server_version, fields),
        8 => fields.len() >= 3,
        9 => fields.len() >= 3,
        10 => contract_details_complete(server_version, fields),
        11 => execution_data_complete(server_version, fields),
        12 => fields.len() >= 8,
        13 => fields.len() >= 9 + if server_version >= MIN_SERVER_VER_SMART_DEPTH { 1 } else { 0 },
        14 => fields.len() >= 6,
        15 => fields.len() >= 3,
        16 => fields.len() >= 4 && FaDataType::from_i32(field_i32_at(fields, 2)).is_some(),
        17 => if server_version >= MIN_SERVER_VER_SYNT_REALTIME_BARS { fields.len() >= 5 && fields.len() as i128 >= 5 + 8 * count_at(fields, 4) } else { fields.len() >= 6 && fields.len() as i128 >= 6 + 9 * count_at(fields, 5) },
        18 => bond_contract_data_complete(server_version, fields),
        19 => fields.len() >= 3,
        20 => fields.len() >= 4 && fields.len() as i128 >= 4 + 16 * count_at(fields, 3),
        21 => option_computation_complete(fields),
        45 => fields.len() >= 5 && TickType::from_i32(field_i32_at(fields, 3)).is_some(),
        46 => fields.len() >= 5 && TickType::from_i32(field_i32_at(fields, 3)).is_some(),
        47 => fields.len() >= 11 && TickType::from_i32(field_i32_at(fields, 3)).is_some(),
        49 => fields.len() >= 3,
        50 => fields.len() >= 11,
        51 => fields.len() >= 4,
        52 => fields.len() >= 3,
        53 => true,
        54 => fields.len() >= 3,
        55 => fields.len() >= 3,
        56 => fields.len() >= 6,
        57 => fields.len() >= 3,
        58 => fields.len() >= 4,
        59 => fields.len() >= 8,
        61 => position_data_complete(fields),
        62 => true,
        63 => fields.len() >= 7,
        64 => fields.len() >= 3,
        65 => fields.len() >= 5,
        66 => fields.len() >= 5,
        67 => fields.len() >= 4,
        68 => fields.len() >= 4,
        69 => fields.len() >= 4,
        70 => fields.len() >= 5,
        71 => fields.len() >= 18,
        72 => fields.len() >= 3,
        73 => fields.len() >= 8,
        74 => fields.len() >= 3,
        75 => option_chain_complete(fields),
        76 => fields.len() >= 2,
        77 => fields.len() >= 3 && fields.len() as i128 >= 3 + 3 * count_at(fields, 2),
        78 => fields.len() >= 2 && fields.len() as i128 >= 2 + 2 * count_at(fields, 1),
        79 => symbol_samples_complete(fields),
        80 => fields.len() >= 2 && (if server_version >= MIN_SERVER_VER_SERVICE_DATA_TYPE { fields.len() as i128 >= 2 + 5 * count_at(fields, 1) } else { fields.len() as i128 >= 2 + 3 * count_at(fields, 1) }),
        81 => fields.len() >= 5,
        82 => fields.len() >= 3 && fields.len() as i128 >= 3 + 3 * count_at(fields, 2),
        83 => fields.len() >= 4,
        84 => fields.len() >= 7,
        85 => fields.len() >= 2 && fields.len() as i128 >= 2 + 2 * count_at(fields, 1),
        86 => fields.len() >= 6,
        87 => fields.len() >= 2,
        88 => fields.len() >= 3,
        89 => fields.len() >= 3 && fields.len() as i128 >= 3 + 2 * count_at(fields, 2),
        90 => fields.len() >= 10,
        91 => fields.len() >= 4,
        92 => fields.len() >= 4,
        93 => fields.len() >= 3 && fields.len() as i128 >= 3 + 2 * count_at(fields, 2),
        94 => fields.len() >= 3 + (if server_version >= MIN_SERVER_VER_UNREALIZED_PNL { 1 } else { 0 }) + (if server_version >= MIN_SERVER_VER_REALIZED_PNL { 1 } else { 0 }),
        95 => fields.len() >= 5 + (if server_version >= MIN_SERVER_VER_UNREALIZED_PNL { 1 } else { 0 }) + (if server_version >= MIN_SERVER_VER_REALIZED_PNL { 1 } else { 0 }),
        96 => fields.len() >= 3 && fields.len() as i128 >= 3 + 4 * count_at(fields, 2),
        97 => fields.len() >= 3 && fields.len() as i128 >= 3 + 6 * count_at(fields, 2),
        98 => fields.len() >= 3 && fields.len() as i128 >= 3 + 6 * count_at(fields, 2),
        99 => fields.len() >= 4 && {
                let tick_type = field_i32_at(fields, 2);
                (!(1 <= tick_type && tick_type <= 3) || fields.len() >= 9) && (tick_type != 4 || fields.len() >= 5)
            },
        100 => fields.len() >= 4,
        101 => true,
        102 => true,
        _ => false,
    }
}
} // verus!
