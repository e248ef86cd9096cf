//! The messages that the client sends for its requests. Each function decides, from the
//! connection state and the server version, whether the request may be sent: a client that is
//! not connected gets `NotConnected`, a server too old for the request gets `UpdateTws`.
//! Otherwise it lays out the request's fields, each NUL-terminated, for the socket.
use vstd::prelude::*;

use crate::client::ConnStatus;
use crate::common::{FaDataType, NO_VALID_ID};
use crate::decimal::int_text;
use crate::errors::{
    api_error, api_error_with, is_api_error, is_api_error_with, IBKRApiLibError, TwsError,
};
use crate::messages::{
    bool_field_text, field_spec, join_fields, make_field_bool, make_field_i32, make_field_str,
};
use crate::wire_layout::lemma_join_push;
use crate::server_versions::{
    MIN_SERVER_VER_CANCEL_HEADTIMESTAMP, MIN_SERVER_VER_FUNDAMENTAL_DATA, MIN_SERVER_VER_LINKING,
    MIN_SERVER_VER_OPTIONAL_CAPABILITIES,
    MIN_SERVER_VER_MARKET_RULES, MIN_SERVER_VER_MODELS_SUPPORT, MIN_SERVER_VER_PNL,
    MIN_SERVER_VER_POSITIONS, MIN_SERVER_VER_REQ_CALC_IMPLIED_VOLAT,
    MIN_SERVER_VER_REQ_FAMILY_CODES, MIN_SERVER_VER_REQ_HISTOGRAM,
    MIN_SERVER_VER_REQ_MARKET_DATA_TYPE, MIN_SERVER_VER_REQ_MATCHING_SYMBOLS,
    MIN_SERVER_VER_REQ_MKT_DEPTH_EXCHANGES, MIN_SERVER_VER_REQ_NEWS_PROVIDERS,
    MIN_SERVER_VER_REQ_SMART_COMPONENTS, MIN_SERVER_VER_SEC_DEF_OPT_PARAMS_REQ,
    MIN_SERVER_VER_SMART_DEPTH, MIN_SERVER_VER_TICK_BY_TICK, MIN_SERVER_VER_WSHE_CALENDAR,
};

verus! {

// Ids of the messages that the client sends.
pub const REQ_MKT_DATA: i32 = 1;
pub const CANCEL_MKT_DATA: i32 = 2;
pub const CANCEL_ORDER: i32 = 4;
pub const REQ_OPEN_ORDERS: i32 = 5;
pub const REQ_ACCT_DATA: i32 = 6;
pub const REQ_IDS: i32 = 8;
pub const REQ_CONTRACT_DATA: i32 = 9;
pub const REQ_MKT_DEPTH: i32 = 10;
pub const CANCEL_MKT_DEPTH: i32 = 11;
pub const REQ_NEWS_BULLETINS: i32 = 12;
pub const CANCEL_NEWS_BULLETINS: i32 = 13;
pub const SET_SERVER_LOGLEVEL: i32 = 14;
pub const REQ_AUTO_OPEN_ORDERS: i32 = 15;
pub const REQ_ALL_OPEN_ORDERS: i32 = 16;
pub const REQ_MANAGED_ACCTS: i32 = 17;
pub const REQ_FA: i32 = 18;
pub const CANCEL_SCANNER_SUBSCRIPTION: i32 = 23;
pub const REQ_SCANNER_PARAMETERS: i32 = 24;
pub const CANCEL_HISTORICAL_DATA: i32 = 25;
pub const REQ_CURRENT_TIME: i32 = 49;
pub const CANCEL_REAL_TIME_BARS: i32 = 51;
pub const CANCEL_FUNDAMENTAL_DATA: i32 = 53;
pub const CANCEL_CALC_IMPLIED_VOLAT: i32 = 56;
pub const CANCEL_CALC_OPTION_PRICE: i32 = 57;
pub const REQ_GLOBAL_CANCEL: i32 = 58;
pub const REQ_MARKET_DATA_TYPE: i32 = 59;
pub const REQ_POSITIONS: i32 = 61;
pub const REQ_ACCOUNT_SUMMARY: i32 = 62;
pub const CANCEL_ACCOUNT_SUMMARY: i32 = 63;
pub const CANCEL_POSITIONS: i32 = 64;
pub const VERIFY_REQUEST: i32 = 65;
pub const VERIFY_MESSAGE: i32 = 66;
pub const QUERY_DISPLAY_GROUPS: i32 = 67;
pub const SUBSCRIBE_TO_GROUP_EVENTS: i32 = 68;
pub const UPDATE_DISPLAY_GROUP: i32 = 69;
pub const UNSUBSCRIBE_FROM_GROUP_EVENTS: i32 = 70;
pub const START_API: i32 = 71;
pub const VERIFY_AND_AUTH_REQUEST: i32 = 72;
pub const VERIFY_AND_AUTH_MESSAGE: i32 = 73;
pub const REQ_POSITIONS_MULTI: i32 = 74;
pub const CANCEL_POSITIONS_MULTI: i32 = 75;
pub const REQ_ACCOUNT_UPDATES_MULTI: i32 = 76;
pub const CANCEL_ACCOUNT_UPDATES_MULTI: i32 = 77;
pub const REQ_SEC_DEF_OPT_PARAMS: i32 = 78;
pub const REQ_SOFT_DOLLAR_TIERS: i32 = 79;
pub const REQ_FAMILY_CODES: i32 = 80;
pub const REQ_MATCHING_SYMBOLS: i32 = 81;
pub const REQ_MKT_DEPTH_EXCHANGES: i32 = 82;
pub const REQ_SMART_COMPONENTS: i32 = 83;
pub const REQ_NEWS_PROVIDERS: i32 = 85;
pub const CANCEL_HISTOGRAM_DATA: i32 = 89;
pub const CANCEL_HEAD_TIMESTAMP: i32 = 90;
pub const REQ_MARKET_RULE: i32 = 91;
pub const REQ_PNL: i32 = 92;
pub const CANCEL_PNL: i32 = 93;
pub const REQ_PNL_SINGLE: i32 = 94;
pub const CANCEL_PNL_SINGLE: i32 = 95;
pub const CANCEL_TICK_BY_TICK_DATA: i32 = 98;
pub const REQ_COMPLETED_ORDERS: i32 = 99;
pub const REQ_WSH_METADATA: i32 = 100;
pub const CANCEL_WSH_METADATA: i32 = 101;
pub const CANCEL_WSH_EVENT_DATA: i32 = 103;

/// The message that `EClient::set_server_log_level` sends.
pub fn set_server_log_level_message(
    status: ConnStatus,
    log_level: i32,
) -> (r: Result<String, IBKRApiLibError>)
    ensures
        status != ConnStatus::CONNECTED ==> (r matches Err(e) &&
            is_api_error(e, NO_VALID_ID as int, TwsError::NotConnected)),
        status == ConnStatus::CONNECTED ==> (r matches Ok(m) &&
            m@ == set_server_log_level_text(log_level)),
{
    if !status.is_connected() {
        return Err(api_error(NO_VALID_ID, TwsError::NotConnected));
    }
    let mut msg = String::new();
    msg.append(make_field_i32(SET_SERVER_LOGLEVEL).as_str());
    msg.append(make_field_i32(1).as_str());
    msg.append(make_field_i32(log_level).as_str());
    assert(msg@ =~= field_spec(int_text(SET_SERVER_LOGLEVEL as int)) + field_spec(int_text(1)) +
        field_spec(int_text(log_level as int)));
    Ok(msg)
}

/// The message that `EClient::req_current_time` sends.
pub fn req_current_time_message() -> (r: Result<String, IBKRApiLibError>)
    ensures
        r matches Ok(m) && m@ == field_spec(int_text(REQ_CURRENT_TIME as int)) +
            field_spec(int_text(2)),
{
    let mut msg = String::new();
    msg.append(make_field_i32(REQ_CURRENT_TIME).as_str());
    msg.append(make_field_i32(2).as_str());
    assert(msg@ =~= field_spec(int_text(REQ_CURRENT_TIME as int)) + field_spec(int_text(2)));
    Ok(msg)
}

/// The message that `EClient::req_managed_accts` sends.
pub fn req_managed_accts_message(status: ConnStatus) -> (r: Result<String, IBKRApiLibError>)
    ensures
        status != ConnStatus::CONNECTED ==> (r matches Err(e) &&
            is_api_error(e, NO_VALID_ID as int, TwsError::NotConnected)),
        status == ConnStatus::CONNECTED ==> (r matches Ok(m) &&
            m@ == req_managed_accts_text()),
{
    if !status.is_connected() {
        return Err(api_error(NO_VALID_ID, TwsError::NotConnected));
    }
    let mut msg = String::new();
    msg.append(make_field_i32(REQ_MANAGED_ACCTS).as_str());
    msg.append(make_field_i32(1).as_str());
    assert(msg@ =~= field_spec(int_text(REQ_MANAGED_ACCTS as int)) + field_spec(int_text(1)));
    Ok(msg)
}

/// The message that `EClient::request_fa` sends: the kind of Financial Advisor data, by its
/// number.
pub fn request_fa_message(status: ConnStatus, fa_data: FaDataType) -> (r: Result<String, IBKRApiLibError>)
    ensures
        status != ConnStatus::CONNECTED ==> (r matches Err(e) &&
            is_api_error(e, NO_VALID_ID as int, TwsError::NotConnected)),
        status == ConnStatus::CONNECTED ==> (r matches Ok(m) &&
            m@ == request_fa_text(fa_data)),
{
    if !status.is_connected() {
        return Err(api_error(NO_VALID_ID, TwsError::NotConnected));
    }
    let mut msg = String::new();
    msg.append(make_field_i32(REQ_FA).as_str());
    msg.append(make_field_i32(1).as_str());
    msg.append(make_field_i32(fa_data.to_i32()).as_str());
    assert(msg@ =~= field_spec(int_text(REQ_FA as int)) + field_spec(int_text(1)) +
        field_spec(int_text(fa_data.code_of())));
    Ok(msg)
}

/// The message that `EClient::cancel_scanner_subscription` sends.
pub fn cancel_scanner_subscription_message(
    status: ConnStatus,
    req_id: i32,
) -> (r: Result<String, IBKRApiLibError>)
    ensures
        status != ConnStatus::CONNECTED ==> (r matches Err(e) &&
            is_api_error(e, NO_VALID_ID as int, TwsError::NotConnected)),
        status == ConnStatus::CONNECTED ==> (r matches Ok(m) &&
            m@ == cancel_scanner_subscription_text(req_id)),
{
    if !status.is_connected() {
        return Err(api_error(NO_VALID_ID, TwsError::NotConnected));
    }
    let mut msg = String::new();
    msg.append(make_field_i32(CANCEL_SCANNER_SUBSCRIPTION).as_str());
    msg.append(make_field_i32(1).as_str());
    msg.append(make_field_i32(req_id).as_str());
    assert(msg@ =~= field_spec(int_text(CANCEL_SCANNER_SUBSCRIPTION as int)) + field_spec(int_text(1)) +
        field_spec(int_text(req_id as int)));
    Ok(msg)
}

/// The message that `EClient::cancel_mkt_data` sends.
pub fn cancel_mkt_data_message(
    status: ConnStatus,
    req_id: i32,
) -> (r: Result<String, IBKRApiLibError>)
    ensures
        status != ConnStatus::CONNECTED ==> (r matches Err(e) &&
            is_api_error(e, req_id as int, TwsError::NotConnected)),
        status == ConnStatus::CONNECTED ==> (r matches Ok(m) &&
            m@ == cancel_mkt_data_text(req_id)),
{
    if !status.is_connected() {
        return Err(api_error(req_id, TwsError::NotConnected));
    }
    let mut msg = String::new();
    msg.append(make_field_i32(CANCEL_MKT_DATA).as_str());
    msg.append(make_field_i32(2).as_str());
    msg.append(make_field_i32(req_id).as_str());
    assert(msg@ =~= field_spec(int_text(CANCEL_MKT_DATA as int)) + field_spec(int_text(2)) +
        field_spec(int_text(req_id as int)));
    Ok(msg)
}

/// The message that `EClient::req_market_data_type` sends.
pub fn req_market_data_type_message(
    status: ConnStatus,
    server_version: i32,
    market_data_type: i32,
) -> (r: Result<String, IBKRApiLibError>)
    ensures
        status != ConnStatus::CONNECTED ==> (r matches Err(e) &&
            is_api_error(e, NO_VALID_ID as int, TwsError::NotConnected)),
        status == ConnStatus::CONNECTED && server_version < MIN_SERVER_VER_REQ_MARKET_DATA_TYPE
            ==> (r matches Err(e) &&
            is_api_error_with(e, NO_VALID_ID as int, TwsError::UpdateTws, " It does not support market data type requests."@)),
        status == ConnStatus::CONNECTED && !(server_version < MIN_SERVER_VER_REQ_MARKET_DATA_TYPE)
            ==> (r matches Ok(m) && m@ == req_market_data_type_text(market_data_type)),
{
    if !status.is_connected() {
        return Err(api_error(NO_VALID_ID, TwsError::NotConnected));
    }
    if server_version < MIN_SERVER_VER_REQ_MARKET_DATA_TYPE {
        return Err(api_error_with(NO_VALID_ID, TwsError::UpdateTws, " It does not support market data type requests."));
    }
    let mut msg = String::new();
    msg.append(make_field_i32(REQ_MARKET_DATA_TYPE).as_str());
    msg.append(make_field_i32(1).as_str());
    msg.append(make_field_i32(market_data_type).as_str());
    assert(msg@ =~= field_spec(int_text(REQ_MARKET_DATA_TYPE as int)) + field_spec(int_text(1)) +
        field_spec(int_text(market_data_type as int)));
    Ok(msg)
}

/// The message that `EClient::req_smart_components` sends.
pub fn req_smart_components_message(
    status: ConnStatus,
    server_version: i32,
    req_id: i32,
    bbo_exchange: &str,
) -> (r: Result<String, IBKRApiLibError>)
    ensures
        status != ConnStatus::CONNECTED ==> (r matches Err(e) &&
            is_api_error(e, req_id as int, TwsError::NotConnected)),
        status == ConnStatus::CONNECTED && server_version < MIN_SERVER_VER_REQ_SMART_COMPONENTS
            ==> (r matches Err(e) &&
            is_api_error_with(e, req_id as int, TwsError::UpdateTws, " It does not support smart components request."@)),
        status == ConnStatus::CONNECTED && !(server_version < MIN_SERVER_VER_REQ_SMART_COMPONENTS)
            ==> (r matches Ok(m) && m@ == req_smart_components_text(req_id, bbo_exchange)),
{
    if !status.is_connected() {
        return Err(api_error(req_id, TwsError::NotConnected));
    }
    if server_version < MIN_SERVER_VER_REQ_SMART_COMPONENTS {
        return Err(api_error_with(req_id, TwsError::UpdateTws, " It does not support smart components request."));
    }
    let mut msg = String::new();
    msg.append(make_field_i32(REQ_SMART_COMPONENTS).as_str());
    msg.append(make_field_i32(req_id).as_str());
    msg.append(make_field_str(bbo_exchange).as_str());
    assert(msg@ =~= field_spec(int_text(REQ_SMART_COMPONENTS as int)) +
        field_spec(int_text(req_id as int)) + field_spec(bbo_exchange@));
    Ok(msg)
}

/// The message that `EClient::req_market_rule` sends.
pub fn req_market_rule_message(
    status: ConnStatus,
    server_version: i32,
    market_rule_id: i32,
) -> (r: Result<String, IBKRApiLibError>)
    ensures
        status != ConnStatus::CONNECTED ==> (r matches Err(e) &&
            is_api_error(e, NO_VALID_ID as int, TwsError::NotConnected)),
        status == ConnStatus::CONNECTED && server_version < MIN_SERVER_VER_MARKET_RULES ==>
            (r matches Err(e) &&
            is_api_error_with(e, NO_VALID_ID as int, TwsError::UpdateTws, " It does not support market rule requests."@)),
        status == ConnStatus::CONNECTED && !(server_version < MIN_SERVER_VER_MARKET_RULES) ==>
            (r matches Ok(m) && m@ == req_market_rule_text(market_rule_id)),
{
    if !status.is_connected() {
        return Err(api_error(NO_VALID_ID, TwsError::NotConnected));
    }
    if server_version < MIN_SERVER_VER_MARKET_RULES {
        return Err(api_error_with(NO_VALID_ID, TwsError::UpdateTws, " It does not support market rule requests."));
    }
    let mut msg = String::new();
    msg.append(make_field_i32(REQ_MARKET_RULE).as_str());
    msg.append(make_field_i32(market_rule_id).as_str());
    assert(msg@ =~= field_spec(int_text(REQ_MARKET_RULE as int)) +
        field_spec(int_text(market_rule_id as int)));
    Ok(msg)
}

/// The message that `EClient::cancel_tick_by_tick_data` sends.
pub fn cancel_tick_by_tick_data_message(
    status: ConnStatus,
    server_version: i32,
    req_id: i32,
) -> (r: Result<String, IBKRApiLibError>)
    ensures
        status != ConnStatus::CONNECTED ==> (r matches Err(e) &&
            is_api_error(e, req_id as int, TwsError::NotConnected)),
        status == ConnStatus::CONNECTED && server_version < MIN_SERVER_VER_TICK_BY_TICK ==>
            (r matches Err(e) &&
            is_api_error_with(e, req_id as int, TwsError::UpdateTws, " It does not support tick-by-tick data requests."@)),
        status == ConnStatus::CONNECTED && !(server_version < MIN_SERVER_VER_TICK_BY_TICK) ==>
            (r matches Ok(m) && m@ == cancel_tick_by_tick_data_text(req_id)),
{
    if !status.is_connected() {
        return Err(api_error(req_id, TwsError::NotConnected));
    }
    if server_version < MIN_SERVER_VER_TICK_BY_TICK {
        return Err(api_error_with(req_id, TwsError::UpdateTws, " It does not support tick-by-tick data requests."));
    }
    let mut msg = String::new();
    msg.append(make_field_i32(CANCEL_TICK_BY_TICK_DATA).as_str());
    msg.append(make_field_i32(req_id).as_str());
    assert(msg@ =~= field_spec(int_text(CANCEL_TICK_BY_TICK_DATA as int)) +
        field_spec(int_text(req_id as int)));
    Ok(msg)
}

/// The message that `EClient::cancel_calculate_option_price` sends.
pub fn cancel_calculate_option_price_message(
    status: ConnStatus,
    server_version: i32,
    req_id: i32,
) -> (r: Result<String, IBKRApiLibError>)
    ensures
        status != ConnStatus::CONNECTED ==> (r matches Err(e) &&
            is_api_error(e, req_id as int, TwsError::NotConnected)),
        status == ConnStatus::CONNECTED && server_version < MIN_SERVER_VER_REQ_CALC_IMPLIED_VOLAT
            ==> (r matches Err(e) &&
            is_api_error_with(e, req_id as int, TwsError::UpdateTws, " It does not support calculateImpliedVolatility req."@)),
        status == ConnStatus::CONNECTED &&
            !(server_version < MIN_SERVER_VER_REQ_CALC_IMPLIED_VOLAT) ==> (r matches Ok(m) &&
            m@ == cancel_calculate_option_price_text(req_id)),
{
    if !status.is_connected() {
        return Err(api_error(req_id, TwsError::NotConnected));
    }
    if server_version < MIN_SERVER_VER_REQ_CALC_IMPLIED_VOLAT {
        return Err(api_error_with(req_id, TwsError::UpdateTws, " It does not support calculateImpliedVolatility req."));
    }
    let mut msg = String::new();
    msg.append(make_field_i32(CANCEL_CALC_OPTION_PRICE).as_str());
    msg.append(make_field_i32(1).as_str());
    msg.append(make_field_i32(req_id).as_str());
    assert(msg@ =~= field_spec(int_text(CANCEL_CALC_OPTION_PRICE as int)) + field_spec(int_text(1))
        + field_spec(int_text(req_id as int)));
    Ok(msg)
}

/// The message that `EClient::cancel_calculate_implied_volatility` sends.
pub fn cancel_calculate_implied_volatility_message(
    status: ConnStatus,
    server_version: i32,
    req_id: i32,
) -> (r: Result<String, IBKRApiLibError>)
    ensures
        status != ConnStatus::CONNECTED ==> (r matches Err(e) &&
            is_api_error(e, req_id as int, TwsError::NotConnected)),
        status == ConnStatus::CONNECTED && server_version < MIN_SERVER_VER_REQ_CALC_IMPLIED_VOLAT
            ==> (r matches Err(e) &&
            is_api_error_with(e, req_id as int, TwsError::UpdateTws, " It does not support calculateImpliedVolatility req."@)),
        status == ConnStatus::CONNECTED &&
            !(server_version < MIN_SERVER_VER_REQ_CALC_IMPLIED_VOLAT) ==> (r matches Ok(m) &&
            m@ == cancel_calculate_implied_volatility_text(req_id)),
{
    if !status.is_connected() {
        return Err(api_error(req_id, TwsError::NotConnected));
    }
    if server_version < MIN_SERVER_VER_REQ_CALC_IMPLIED_VOLAT {
        return Err(api_error_with(req_id, TwsError::UpdateTws, " It does not support calculateImpliedVolatility req."));
    }
    let mut msg = String::new();
    msg.append(make_field_i32(CANCEL_CALC_IMPLIED_VOLAT).as_str());
    msg.append(make_field_i32(1).as_str());
    msg.append(make_field_i32(req_id).as_str());
    assert(msg@ =~= field_spec(int_text(CANCEL_CALC_IMPLIED_VOLAT as int)) +
        field_spec(int_text(1)) + field_spec(int_text(req_id as int)));
    Ok(msg)
}

/// The message that `EClient::cancel_order` sends.
pub fn cancel_order_message(
    status: ConnStatus,
    order_id: i32,
) -> (r: Result<String, IBKRApiLibError>)
    ensures
        status != ConnStatus::CONNECTED ==> (r matches Err(e) &&
            is_api_error(e, NO_VALID_ID as int, TwsError::NotConnected)),
        status == ConnStatus::CONNECTED ==> (r matches Ok(m) &&
            m@ == cancel_order_text(order_id)),
{
    if !status.is_connected() {
        return Err(api_error(NO_VALID_ID, TwsError::NotConnected));
    }
    let mut msg = String::new();
    msg.append(make_field_i32(CANCEL_ORDER).as_str());
    msg.append(make_field_i32(2).as_str());
    msg.append(make_field_i32(order_id).as_str());
    assert(msg@ =~= field_spec(int_text(CANCEL_ORDER as int)) + field_spec(int_text(2)) +
        field_spec(int_text(order_id as int)));
    Ok(msg)
}

/// The message that `EClient::req_open_orders` sends.
pub fn req_open_orders_message(status: ConnStatus) -> (r: Result<String, IBKRApiLibError>)
    ensures
        status != ConnStatus::CONNECTED ==> (r matches Err(e) &&
            is_api_error(e, NO_VALID_ID as int, TwsError::NotConnected)),
        status == ConnStatus::CONNECTED ==> (r matches Ok(m) &&
            m@ == req_open_orders_text()),
{
    if !status.is_connected() {
        return Err(api_error(NO_VALID_ID, TwsError::NotConnected));
    }
    let mut msg = String::new();
    msg.append(make_field_i32(REQ_OPEN_ORDERS).as_str());
    msg.append(make_field_i32(1).as_str());
    assert(msg@ =~= field_spec(int_text(REQ_OPEN_ORDERS as int)) + field_spec(int_text(1)));
    Ok(msg)
}

/// The message that `EClient::req_auto_open_orders` sends.
pub fn req_auto_open_orders_message(
    status: ConnStatus,
    b_auto_bind: bool,
) -> (r: Result<String, IBKRApiLibError>)
    ensures
        status != ConnStatus::CONNECTED ==> (r matches Err(e) &&
            is_api_error(e, NO_VALID_ID as int, TwsError::NotConnected)),
        status == ConnStatus::CONNECTED ==> (r matches Ok(m) &&
            m@ == req_auto_open_orders_text(b_auto_bind)),
{
    if !status.is_connected() {
        return Err(api_error(NO_VALID_ID, TwsError::NotConnected));
    }
    let mut msg = String::new();
    msg.append(make_field_i32(REQ_AUTO_OPEN_ORDERS).as_str());
    msg.append(make_field_i32(1).as_str());
    msg.append(make_field_bool(b_auto_bind).as_str());
    assert(msg@ =~= field_spec(int_text(REQ_AUTO_OPEN_ORDERS as int)) + field_spec(int_text(1)) +
        field_spec(bool_field_text(b_auto_bind)));
    Ok(msg)
}

/// The message that `EClient::req_all_open_orders` sends.
pub fn req_all_open_orders_message(status: ConnStatus) -> (r: Result<String, IBKRApiLibError>)
    ensures
        status != ConnStatus::CONNECTED ==> (r matches Err(e) &&
            is_api_error(e, NO_VALID_ID as int, TwsError::NotConnected)),
        status == ConnStatus::CONNECTED ==> (r matches Ok(m) &&
            m@ == req_all_open_orders_text()),
{
    if !status.is_connected() {
        return Err(api_error(NO_VALID_ID, TwsError::NotConnected));
    }
    let mut msg = String::new();
    msg.append(make_field_i32(REQ_ALL_OPEN_ORDERS).as_str());
    msg.append(make_field_i32(1).as_str());
    assert(msg@ =~= field_spec(int_text(REQ_ALL_OPEN_ORDERS as int)) + field_spec(int_text(1)));
    Ok(msg)
}

/// The message that `EClient::req_global_cancel` sends.
pub fn req_global_cancel_message(status: ConnStatus) -> (r: Result<String, IBKRApiLibError>)
    ensures
        status != ConnStatus::CONNECTED ==> (r matches Err(e) &&
            is_api_error(e, NO_VALID_ID as int, TwsError::NotConnected)),
        status == ConnStatus::CONNECTED ==> (r matches Ok(m) &&
            m@ == req_global_cancel_text()),
{
    if !status.is_connected() {
        return Err(api_error(NO_VALID_ID, TwsError::NotConnected));
    }
    let mut msg = String::new();
    msg.append(make_field_i32(REQ_GLOBAL_CANCEL).as_str());
    msg.append(make_field_i32(1).as_str());
    assert(msg@ =~= field_spec(int_text(REQ_GLOBAL_CANCEL as int)) + field_spec(int_text(1)));
    Ok(msg)
}

/// The message that `EClient::req_ids` sends.
pub fn req_ids_message(status: ConnStatus, num_ids: i32) -> (r: Result<String, IBKRApiLibError>)
    ensures
        status != ConnStatus::CONNECTED ==> (r matches Err(e) &&
            is_api_error(e, NO_VALID_ID as int, TwsError::NotConnected)),
        status == ConnStatus::CONNECTED ==> (r matches Ok(m) &&
            m@ == req_ids_text(num_ids)),
{
    if !status.is_connected() {
        return Err(api_error(NO_VALID_ID, TwsError::NotConnected));
    }
    let mut msg = String::new();
    msg.append(make_field_i32(REQ_IDS).as_str());
    msg.append(make_field_i32(1).as_str());
    msg.append(make_field_i32(num_ids).as_str());
    assert(msg@ =~= field_spec(int_text(REQ_IDS as int)) + field_spec(int_text(1)) +
        field_spec(int_text(num_ids as int)));
    Ok(msg)
}

/// The message that `EClient::req_account_updates` sends.
pub fn req_account_updates_message(
    status: ConnStatus,
    subscribe: bool,
    acct_code: &str,
) -> (r: Result<String, IBKRApiLibError>)
    ensures
        status != ConnStatus::CONNECTED ==> (r matches Err(e) &&
            is_api_error(e, NO_VALID_ID as int, TwsError::NotConnected)),
        status == ConnStatus::CONNECTED ==> (r matches Ok(m) &&
            m@ == req_account_updates_text(subscribe, acct_code)),
{
    if !status.is_connected() {
        return Err(api_error(NO_VALID_ID, TwsError::NotConnected));
    }
    let mut msg = String::new();
    msg.append(make_field_i32(REQ_ACCT_DATA).as_str());
    msg.append(make_field_i32(2).as_str());
    msg.append(make_field_bool(subscribe).as_str());
    msg.append(make_field_str(acct_code).as_str());
    assert(msg@ =~= field_spec(int_text(REQ_ACCT_DATA as int)) + field_spec(int_text(2)) +
        field_spec(bool_field_text(subscribe)) + field_spec(acct_code@));
    Ok(msg)
}

/// The message that `EClient::req_account_summary` sends.
pub fn req_account_summary_message(
    status: ConnStatus,
    req_id: i32,
    group_name: &str,
    tags: &str,
) -> (r: Result<String, IBKRApiLibError>)
    ensures
        status != ConnStatus::CONNECTED ==> (r matches Err(e) &&
            is_api_error(e, NO_VALID_ID as int, TwsError::NotConnected)),
        status == ConnStatus::CONNECTED ==> (r matches Ok(m) &&
            m@ == req_account_summary_text(req_id, group_name, tags)),
{
    if !status.is_connected() {
        return Err(api_error(NO_VALID_ID, TwsError::NotConnected));
    }
    let mut msg = String::new();
    msg.append(make_field_i32(REQ_ACCOUNT_SUMMARY).as_str());
    msg.append(make_field_i32(2).as_str());
    msg.append(make_field_i32(req_id).as_str());
    msg.append(make_field_str(group_name).as_str());
    msg.append(make_field_str(tags).as_str());
    assert(msg@ =~= field_spec(int_text(REQ_ACCOUNT_SUMMARY as int)) + field_spec(int_text(2)) +
        field_spec(int_text(req_id as int)) + field_spec(group_name@) + field_spec(tags@));
    Ok(msg)
}

/// The message that `EClient::cancel_account_summary` sends.
pub fn cancel_account_summary_message(
    status: ConnStatus,
    req_id: i32,
) -> (r: Result<String, IBKRApiLibError>)
    ensures
        status != ConnStatus::CONNECTED ==> (r matches Err(e) &&
            is_api_error(e, req_id as int, TwsError::NotConnected)),
        status == ConnStatus::CONNECTED ==> (r matches Ok(m) &&
            m@ == cancel_account_summary_text(req_id)),
{
    if !status.is_connected() {
        return Err(api_error(req_id, TwsError::NotConnected));
    }
    let mut msg = String::new();
    msg.append(make_field_i32(CANCEL_ACCOUNT_SUMMARY).as_str());
    msg.append(make_field_i32(1).as_str());
    msg.append(make_field_i32(req_id).as_str());
    assert(msg@ =~= field_spec(int_text(CANCEL_ACCOUNT_SUMMARY as int)) + field_spec(int_text(1))
        + field_spec(int_text(req_id as int)));
    Ok(msg)
}

/// The message that `EClient::req_positions` sends.
pub fn req_positions_message(
    status: ConnStatus,
    server_version: i32,
) -> (r: Result<String, IBKRApiLibError>)
    ensures
        status != ConnStatus::CONNECTED ==> (r matches Err(e) &&
            is_api_error(e, NO_VALID_ID as int, TwsError::NotConnected)),
        status == ConnStatus::CONNECTED && server_version < MIN_SERVER_VER_POSITIONS ==>
            (r matches Err(e) &&
            is_api_error_with(e, NO_VALID_ID as int, TwsError::UpdateTws, " It does not support positions request."@)),
        status == ConnStatus::CONNECTED && !(server_version < MIN_SERVER_VER_POSITIONS) ==>
            (r matches Ok(m) && m@ == req_positions_text()),
{
    if !status.is_connected() {
        return Err(api_error(NO_VALID_ID, TwsError::NotConnected));
    }
    if server_version < MIN_SERVER_VER_POSITIONS {
        return Err(api_error_with(NO_VALID_ID, TwsError::UpdateTws, " It does not support positions request."));
    }
    let mut msg = String::new();
    msg.append(make_field_i32(REQ_POSITIONS).as_str());
    msg.append(make_field_i32(1).as_str());
    assert(msg@ =~= field_spec(int_text(REQ_POSITIONS as int)) + field_spec(int_text(1)));
    Ok(msg)
}

/// The message that `EClient::cancel_positions` sends.
pub fn cancel_positions_message(
    status: ConnStatus,
    server_version: i32,
) -> (r: Result<String, IBKRApiLibError>)
    ensures
        status != ConnStatus::CONNECTED ==> (r matches Err(e) &&
            is_api_error(e, NO_VALID_ID as int, TwsError::NotConnected)),
        status == ConnStatus::CONNECTED && server_version < MIN_SERVER_VER_POSITIONS ==>
            (r matches Err(e) &&
            is_api_error_with(e, NO_VALID_ID as int, TwsError::UpdateTws, " It does not support positions request."@)),
        status == ConnStatus::CONNECTED && !(server_version < MIN_SERVER_VER_POSITIONS) ==>
            (r matches Ok(m) && m@ == cancel_positions_text()),
{
    if !status.is_connected() {
        return Err(api_error(NO_VALID_ID, TwsError::NotConnected));
    }
    if server_version < MIN_SERVER_VER_POSITIONS {
        return Err(api_error_with(NO_VALID_ID, TwsError::UpdateTws, " It does not support positions request."));
    }
    let mut msg = String::new();
    msg.append(make_field_i32(CANCEL_POSITIONS).as_str());
    msg.append(make_field_i32(1).as_str());
    assert(msg@ =~= field_spec(int_text(CANCEL_POSITIONS as int)) + field_spec(int_text(1)));
    Ok(msg)
}

/// The message that `EClient::req_positions_multi` sends.
pub fn req_positions_multi_message(
    status: ConnStatus,
    server_version: i32,
    req_id: i32,
    account: &str,
    model_code: &str,
) -> (r: Result<String, IBKRApiLibError>)
    ensures
        status != ConnStatus::CONNECTED ==> (r matches Err(e) &&
            is_api_error(e, req_id as int, TwsError::NotConnected)),
        status == ConnStatus::CONNECTED && server_version < MIN_SERVER_VER_POSITIONS ==>
            (r matches Err(e) &&
            is_api_error_with(e, req_id as int, TwsError::UpdateTws, " It does not support positions multi request."@)),
        status == ConnStatus::CONNECTED && !(server_version < MIN_SERVER_VER_POSITIONS) ==>
            (r matches Ok(m) && m@ == req_positions_multi_text(req_id, account, model_code)),
{
    if !status.is_connected() {
        return Err(api_error(req_id, TwsError::NotConnected));
    }
    if server_version < MIN_SERVER_VER_POSITIONS {
        return Err(api_error_with(req_id, TwsError::UpdateTws, " It does not support positions multi request."));
    }
    let mut msg = String::new();
    msg.append(make_field_i32(REQ_POSITIONS_MULTI).as_str());
    msg.append(make_field_i32(1).as_str());
    msg.append(make_field_i32(req_id).as_str());
    msg.append(make_field_str(account).as_str());
    msg.append(make_field_str(model_code).as_str());
    assert(msg@ =~= field_spec(int_text(REQ_POSITIONS_MULTI as int)) + field_spec(int_text(1)) +
        field_spec(int_text(req_id as int)) + field_spec(account@) + field_spec(model_code@));
    Ok(msg)
}

/// The message that `EClient::cancel_positions_multi` sends.
pub fn cancel_positions_multi_message(
    status: ConnStatus,
    server_version: i32,
    req_id: i32,
) -> (r: Result<String, IBKRApiLibError>)
    ensures
        status != ConnStatus::CONNECTED ==> (r matches Err(e) &&
            is_api_error(e, req_id as int, TwsError::NotConnected)),
        status == ConnStatus::CONNECTED && server_version < MIN_SERVER_VER_POSITIONS ==>
            (r matches Err(e) &&
            is_api_error_with(e, req_id as int, TwsError::UpdateTws, " It does not support positions multi request."@)),
        status == ConnStatus::CONNECTED && !(server_version < MIN_SERVER_VER_POSITIONS) ==>
            (r matches Ok(m) && m@ == cancel_positions_multi_text(req_id)),
{
    if !status.is_connected() {
        return Err(api_error(req_id, TwsError::NotConnected));
    }
    if server_version < MIN_SERVER_VER_POSITIONS {
        return Err(api_error_with(req_id, TwsError::UpdateTws, " It does not support positions multi request."));
    }
    let mut msg = String::new();
    msg.append(make_field_i32(CANCEL_POSITIONS_MULTI).as_str());
    msg.append(make_field_i32(1).as_str());
    msg.append(make_field_i32(req_id).as_str());
    assert(msg@ =~= field_spec(int_text(CANCEL_POSITIONS_MULTI as int)) + field_spec(int_text(1))
        + field_spec(int_text(req_id as int)));
    Ok(msg)
}

/// The message that `EClient::req_account_updates_multi` sends.
pub fn req_account_updates_multi_message(
    status: ConnStatus,
    server_version: i32,
    req_id: i32,
    account: &str,
    model_code: &str,
    ledger_and_nlv: bool,
) -> (r: Result<String, IBKRApiLibError>)
    ensures
        status != ConnStatus::CONNECTED ==> (r matches Err(e) &&
            is_api_error(e, req_id as int, TwsError::NotConnected)),
        status == ConnStatus::CONNECTED && server_version < MIN_SERVER_VER_MODELS_SUPPORT ==>
            (r matches Err(e) &&
            is_api_error_with(e, req_id as int, TwsError::UpdateTws, " It does not support account updates multi request."@)),
        status == ConnStatus::CONNECTED && !(server_version < MIN_SERVER_VER_MODELS_SUPPORT) ==>
            (r matches Ok(m) && m@ == req_account_updates_multi_text(req_id, account, model_code, ledger_and_nlv)),
{
    if !status.is_connected() {
        return Err(api_error(req_id, TwsError::NotConnected));
    }
    if server_version < MIN_SERVER_VER_MODELS_SUPPORT {
        return Err(api_error_with(req_id, TwsError::UpdateTws, " It does not support account updates multi request."));
    }
    let mut msg = String::new();
    msg.append(make_field_i32(REQ_ACCOUNT_UPDATES_MULTI).as_str());
    msg.append(make_field_i32(1).as_str());
    msg.append(make_field_i32(req_id).as_str());
    msg.append(make_field_str(account).as_str());
    msg.append(make_field_str(model_code).as_str());
    msg.append(make_field_bool(ledger_and_nlv).as_str());
    assert(msg@ =~= field_spec(int_text(REQ_ACCOUNT_UPDATES_MULTI as int)) +
        field_spec(int_text(1)) + field_spec(int_text(req_id as int)) + field_spec(account@) +
        field_spec(model_code@) + field_spec(bool_field_text(ledger_and_nlv)));
    Ok(msg)
}

/// The message that `EClient::cancel_account_updates_multi` sends.
pub fn cancel_account_updates_multi_message(
    status: ConnStatus,
    server_version: i32,
    req_id: i32,
) -> (r: Result<String, IBKRApiLibError>)
    ensures
        status != ConnStatus::CONNECTED ==> (r matches Err(e) &&
            is_api_error(e, req_id as int, TwsError::NotConnected)),
        status == ConnStatus::CONNECTED && server_version < MIN_SERVER_VER_MODELS_SUPPORT ==>
            (r matches Err(e) &&
            is_api_error_with(e, req_id as int, TwsError::UpdateTws, " It does not support account updates multi request."@)),
        status == ConnStatus::CONNECTED && !(server_version < MIN_SERVER_VER_MODELS_SUPPORT) ==>
            (r matches Ok(m) && m@ == cancel_account_updates_multi_text(req_id)),
{
    if !status.is_connected() {
        return Err(api_error(req_id, TwsError::NotConnected));
    }
    if server_version < MIN_SERVER_VER_MODELS_SUPPORT {
        return Err(api_error_with(req_id, TwsError::UpdateTws, " It does not support account updates multi request."));
    }
    let mut msg = String::new();
    msg.append(make_field_i32(CANCEL_ACCOUNT_UPDATES_MULTI).as_str());
    msg.append(make_field_i32(1).as_str());
    msg.append(make_field_i32(req_id).as_str());
    assert(msg@ =~= field_spec(int_text(CANCEL_ACCOUNT_UPDATES_MULTI as int)) +
        field_spec(int_text(1)) + field_spec(int_text(req_id as int)));
    Ok(msg)
}

/// The message that `EClient::req_pnl` sends.
pub fn req_pnl_message(
    status: ConnStatus,
    server_version: i32,
    req_id: i32,
    account: &str,
    model_code: &str,
) -> (r: Result<String, IBKRApiLibError>)
    ensures
        status != ConnStatus::CONNECTED ==> (r matches Err(e) &&
            is_api_error(e, req_id as int, TwsError::NotConnected)),
        status == ConnStatus::CONNECTED && server_version < MIN_SERVER_VER_PNL ==>
            (r matches Err(e) &&
            is_api_error_with(e, req_id as int, TwsError::UpdateTws, " It does not support PnL request."@)),
        status == ConnStatus::CONNECTED && !(server_version < MIN_SERVER_VER_PNL) ==>
            (r matches Ok(m) && m@ == req_pnl_text(req_id, account, model_code)),
{
    if !status.is_connected() {
        return Err(api_error(req_id, TwsError::NotConnected));
    }
    if server_version < MIN_SERVER_VER_PNL {
        return Err(api_error_with(req_id, TwsError::UpdateTws, " It does not support PnL request."));
    }
    let mut msg = String::new();
    msg.append(make_field_i32(REQ_PNL).as_str());
    msg.append(make_field_i32(req_id).as_str());
    msg.append(make_field_str(account).as_str());
    msg.append(make_field_str(model_code).as_str());
    assert(msg@ =~= field_spec(int_text(REQ_PNL as int)) + field_spec(int_text(req_id as int)) +
        field_spec(account@) + field_spec(model_code@));
    Ok(msg)
}

/// The message that `EClient::cancel_pnl` sends.
pub fn cancel_pnl_message(
    status: ConnStatus,
    server_version: i32,
    req_id: i32,
) -> (r: Result<String, IBKRApiLibError>)
    ensures
        status != ConnStatus::CONNECTED ==> (r matches Err(e) &&
            is_api_error(e, req_id as int, TwsError::NotConnected)),
        status == ConnStatus::CONNECTED && server_version < MIN_SERVER_VER_PNL ==>
            (r matches Err(e) &&
            is_api_error_with(e, req_id as int, TwsError::UpdateTws, " It does not support PnL request."@)),
        status == ConnStatus::CONNECTED && !(server_version < MIN_SERVER_VER_PNL) ==>
            (r matches Ok(m) && m@ == cancel_pnl_text(req_id)),
{
    if !status.is_connected() {
        return Err(api_error(req_id, TwsError::NotConnected));
    }
    if server_version < MIN_SERVER_VER_PNL {
        return Err(api_error_with(req_id, TwsError::UpdateTws, " It does not support PnL request."));
    }
    let mut msg = String::new();
    msg.append(make_field_i32(CANCEL_PNL).as_str());
    msg.append(make_field_i32(req_id).as_str());
    assert(msg@ =~= field_spec(int_text(CANCEL_PNL as int)) + field_spec(int_text(req_id as int)));
    Ok(msg)
}

/// The message that `EClient::req_pnl_single` sends.
pub fn req_pnl_single_message(
    status: ConnStatus,
    server_version: i32,
    req_id: i32,
    account: &str,
    model_code: &str,
    con_id: i32,
) -> (r: Result<String, IBKRApiLibError>)
    ensures
        status != ConnStatus::CONNECTED ==> (r matches Err(e) &&
            is_api_error(e, req_id as int, TwsError::NotConnected)),
        status == ConnStatus::CONNECTED && server_version < MIN_SERVER_VER_PNL ==>
            (r matches Err(e) &&
            is_api_error_with(e, req_id as int, TwsError::UpdateTws, " It does not support PnL request."@)),
        status == ConnStatus::CONNECTED && !(server_version < MIN_SERVER_VER_PNL) ==>
            (r matches Ok(m) && m@ == req_pnl_single_text(req_id, account, model_code, con_id)),
{
    if !status.is_connected() {
        return Err(api_error(req_id, TwsError::NotConnected));
    }
    if server_version < MIN_SERVER_VER_PNL {
        return Err(api_error_with(req_id, TwsError::UpdateTws, " It does not support PnL request."));
    }
    let mut msg = String::new();
    msg.append(make_field_i32(REQ_PNL_SINGLE).as_str());
    msg.append(make_field_i32(req_id).as_str());
    msg.append(make_field_str(account).as_str());
    msg.append(make_field_str(model_code).as_str());
    msg.append(make_field_i32(con_id).as_str());
    assert(msg@ =~= field_spec(int_text(REQ_PNL_SINGLE as int)) +
        field_spec(int_text(req_id as int)) + field_spec(account@) + field_spec(model_code@) +
        field_spec(int_text(con_id as int)));
    Ok(msg)
}

/// The message that `EClient::cancel_pnl_single` sends.
pub fn cancel_pnl_single_message(
    status: ConnStatus,
    server_version: i32,
    req_id: i32,
) -> (r: Result<String, IBKRApiLibError>)
    ensures
        status != ConnStatus::CONNECTED ==> (r matches Err(e) &&
            is_api_error(e, req_id as int, TwsError::NotConnected)),
        status == ConnStatus::CONNECTED && server_version < MIN_SERVER_VER_PNL ==>
            (r matches Err(e) &&
            is_api_error_with(e, req_id as int, TwsError::UpdateTws, " It does not support PnL request."@)),
        status == ConnStatus::CONNECTED && !(server_version < MIN_SERVER_VER_PNL) ==>
            (r matches Ok(m) && m@ == cancel_pnl_single_text(req_id)),
{
    if !status.is_connected() {
        return Err(api_error(req_id, TwsError::NotConnected));
    }
    if server_version < MIN_SERVER_VER_PNL {
        return Err(api_error_with(req_id, TwsError::UpdateTws, " It does not support PnL request."));
    }
    let mut msg = String::new();
    msg.append(make_field_i32(CANCEL_PNL_SINGLE).as_str());
    msg.append(make_field_i32(req_id).as_str());
    assert(msg@ =~= field_spec(int_text(CANCEL_PNL_SINGLE as int)) +
        field_spec(int_text(req_id as int)));
    Ok(msg)
}

/// The message that `EClient::req_mkt_depth_exchanges` sends.
pub fn req_mkt_depth_exchanges_message(
    status: ConnStatus,
    server_version: i32,
) -> (r: Result<String, IBKRApiLibError>)
    ensures
        status != ConnStatus::CONNECTED ==> (r matches Err(e) &&
            is_api_error(e, NO_VALID_ID as int, TwsError::NotConnected)),
        status == ConnStatus::CONNECTED && server_version < MIN_SERVER_VER_REQ_MKT_DEPTH_EXCHANGES
            ==> (r matches Err(e) &&
            is_api_error_with(e, NO_VALID_ID as int, TwsError::UpdateTws, " It does not support market depth exchanges request."@)),
        status == ConnStatus::CONNECTED &&
            !(server_version < MIN_SERVER_VER_REQ_MKT_DEPTH_EXCHANGES) ==> (r matches Ok(m) &&
            m@ == req_mkt_depth_exchanges_text()),
{
    if !status.is_connected() {
        return Err(api_error(NO_VALID_ID, TwsError::NotConnected));
    }
    if server_version < MIN_SERVER_VER_REQ_MKT_DEPTH_EXCHANGES {
        return Err(api_error_with(NO_VALID_ID, TwsError::UpdateTws, " It does not support market depth exchanges request."));
    }
    let mut msg = String::new();
    msg.append(make_field_i32(REQ_MKT_DEPTH_EXCHANGES).as_str());
    assert(msg@ =~= field_spec(int_text(REQ_MKT_DEPTH_EXCHANGES as int)));
    Ok(msg)
}

/// The message that `EClient::cancel_mkt_depth` sends.
pub fn cancel_mkt_depth_message(
    status: ConnStatus,
    server_version: i32,
    req_id: i32,
    is_smart_depth: bool,
) -> (r: Result<String, IBKRApiLibError>)
    ensures
        status != ConnStatus::CONNECTED ==> (r matches Err(e) &&
            is_api_error(e, NO_VALID_ID as int, TwsError::NotConnected)),
        status == ConnStatus::CONNECTED && server_version < MIN_SERVER_VER_SMART_DEPTH &&
            is_smart_depth ==> (r matches Err(e) &&
            is_api_error_with(e, req_id as int, TwsError::UpdateTws, " It does not support SMART depth cancel."@)),
        status == ConnStatus::CONNECTED && !(server_version < MIN_SERVER_VER_SMART_DEPTH &&
            is_smart_depth) ==> (r matches Ok(m) &&
            m@ == field_spec(int_text(CANCEL_MKT_DEPTH as int)) + field_spec(int_text(1)) +
            field_spec(int_text(req_id as int)) +
            (if server_version >= MIN_SERVER_VER_SMART_DEPTH { field_spec(bool_field_text(is_smart_depth)) } else { Seq::<char>::empty() })),
{
    if !status.is_connected() {
        return Err(api_error(NO_VALID_ID, TwsError::NotConnected));
    }
    if server_version < MIN_SERVER_VER_SMART_DEPTH && is_smart_depth {
        return Err(api_error_with(req_id, TwsError::UpdateTws, " It does not support SMART depth cancel."));
    }
    let mut msg = String::new();
    msg.append(make_field_i32(CANCEL_MKT_DEPTH).as_str());
    msg.append(make_field_i32(1).as_str());
    msg.append(make_field_i32(req_id).as_str());
    if server_version >= MIN_SERVER_VER_SMART_DEPTH {
        msg.append(make_field_bool(is_smart_depth).as_str());
    }
    assert(msg@ =~= field_spec(int_text(CANCEL_MKT_DEPTH as int)) + field_spec(int_text(1)) +
        field_spec(int_text(req_id as int)) +
        (if server_version >= MIN_SERVER_VER_SMART_DEPTH { field_spec(bool_field_text(is_smart_depth)) } else { Seq::<char>::empty() }));
    Ok(msg)
}

/// The message that `EClient::req_news_bulletins` sends.
pub fn req_news_bulletins_message(
    status: ConnStatus,
    all_msgs: bool,
) -> (r: Result<String, IBKRApiLibError>)
    ensures
        status != ConnStatus::CONNECTED ==> (r matches Err(e) &&
            is_api_error(e, NO_VALID_ID as int, TwsError::NotConnected)),
        status == ConnStatus::CONNECTED ==> (r matches Ok(m) &&
            m@ == req_news_bulletins_text(all_msgs)),
{
    if !status.is_connected() {
        return Err(api_error(NO_VALID_ID, TwsError::NotConnected));
    }
    let mut msg = String::new();
    msg.append(make_field_i32(REQ_NEWS_BULLETINS).as_str());
    msg.append(make_field_i32(1).as_str());
    msg.append(make_field_bool(all_msgs).as_str());
    assert(msg@ =~= field_spec(int_text(REQ_NEWS_BULLETINS as int)) + field_spec(int_text(1)) +
        field_spec(bool_field_text(all_msgs)));
    Ok(msg)
}

/// The message that `EClient::cancel_news_bulletins` sends.
pub fn cancel_news_bulletins_message(status: ConnStatus) -> (r: Result<String, IBKRApiLibError>)
    ensures
        status != ConnStatus::CONNECTED ==> (r matches Err(e) &&
            is_api_error(e, NO_VALID_ID as int, TwsError::NotConnected)),
        status == ConnStatus::CONNECTED ==> (r matches Ok(m) &&
            m@ == cancel_news_bulletins_text()),
{
    if !status.is_connected() {
        return Err(api_error(NO_VALID_ID, TwsError::NotConnected));
    }
    let mut msg = String::new();
    msg.append(make_field_i32(CANCEL_NEWS_BULLETINS).as_str());
    msg.append(make_field_i32(1).as_str());
    assert(msg@ =~= field_spec(int_text(CANCEL_NEWS_BULLETINS as int)) + field_spec(int_text(1)));
    Ok(msg)
}

/// The message that `EClient::cancel_historical_data` sends.
pub fn cancel_historical_data_message(
    status: ConnStatus,
    req_id: i32,
) -> (r: Result<String, IBKRApiLibError>)
    ensures
        status != ConnStatus::CONNECTED ==> (r matches Err(e) &&
            is_api_error(e, NO_VALID_ID as int, TwsError::NotConnected)),
        status == ConnStatus::CONNECTED ==> (r matches Ok(m) &&
            m@ == cancel_historical_data_text(req_id)),
{
    if !status.is_connected() {
        return Err(api_error(NO_VALID_ID, TwsError::NotConnected));
    }
    let mut msg = String::new();
    msg.append(make_field_i32(CANCEL_HISTORICAL_DATA).as_str());
    msg.append(make_field_i32(1).as_str());
    msg.append(make_field_i32(req_id).as_str());
    assert(msg@ =~= field_spec(int_text(CANCEL_HISTORICAL_DATA as int)) + field_spec(int_text(1))
        + field_spec(int_text(req_id as int)));
    Ok(msg)
}

/// The message that `EClient::cancel_head_time_stamp` sends.
pub fn cancel_head_time_stamp_message(
    status: ConnStatus,
    server_version: i32,
    req_id: i32,
) -> (r: Result<String, IBKRApiLibError>)
    ensures
        status != ConnStatus::CONNECTED ==> (r matches Err(e) &&
            is_api_error(e, NO_VALID_ID as int, TwsError::NotConnected)),
        status == ConnStatus::CONNECTED && server_version < MIN_SERVER_VER_CANCEL_HEADTIMESTAMP
            ==> (r matches Err(e) &&
            is_api_error_with(e, req_id as int, TwsError::UpdateTws, " It does not support head time stamp requests."@)),
        status == ConnStatus::CONNECTED && !(server_version < MIN_SERVER_VER_CANCEL_HEADTIMESTAMP)
            ==> (r matches Ok(m) && m@ == cancel_head_time_stamp_text(req_id)),
{
    if !status.is_connected() {
        return Err(api_error(NO_VALID_ID, TwsError::NotConnected));
    }
    if server_version < MIN_SERVER_VER_CANCEL_HEADTIMESTAMP {
        return Err(api_error_with(req_id, TwsError::UpdateTws, " It does not support head time stamp requests."));
    }
    let mut msg = String::new();
    msg.append(make_field_i32(CANCEL_HEAD_TIMESTAMP).as_str());
    msg.append(make_field_i32(req_id).as_str());
    assert(msg@ =~= field_spec(int_text(CANCEL_HEAD_TIMESTAMP as int)) +
        field_spec(int_text(req_id as int)));
    Ok(msg)
}

/// The message that `EClient::cancel_histogram_data` sends.
pub fn cancel_histogram_data_message(
    status: ConnStatus,
    server_version: i32,
    ticker_id: i32,
) -> (r: Result<String, IBKRApiLibError>)
    ensures
        status != ConnStatus::CONNECTED ==> (r matches Err(e) &&
            is_api_error(e, NO_VALID_ID as int, TwsError::NotConnected)),
        status == ConnStatus::CONNECTED && server_version < MIN_SERVER_VER_REQ_HISTOGRAM ==>
            (r matches Err(e) &&
            is_api_error_with(e, NO_VALID_ID as int, TwsError::UpdateTws, " It does not support histogram requests."@)),
        status == ConnStatus::CONNECTED && !(server_version < MIN_SERVER_VER_REQ_HISTOGRAM) ==>
            (r matches Ok(m) && m@ == cancel_histogram_data_text(ticker_id)),
{
    if !status.is_connected() {
        return Err(api_error(NO_VALID_ID, TwsError::NotConnected));
    }
    if server_version < MIN_SERVER_VER_REQ_HISTOGRAM {
        return Err(api_error_with(NO_VALID_ID, TwsError::UpdateTws, " It does not support histogram requests."));
    }
    let mut msg = String::new();
    msg.append(make_field_i32(CANCEL_HISTOGRAM_DATA).as_str());
    msg.append(make_field_i32(ticker_id).as_str());
    assert(msg@ =~= field_spec(int_text(CANCEL_HISTOGRAM_DATA as int)) +
        field_spec(int_text(ticker_id as int)));
    Ok(msg)
}

/// The message that `EClient::req_scanner_parameters` sends.
pub fn req_scanner_parameters_message(status: ConnStatus) -> (r: Result<String, IBKRApiLibError>)
    ensures
        status != ConnStatus::CONNECTED ==> (r matches Err(e) &&
            is_api_error(e, NO_VALID_ID as int, TwsError::NotConnected)),
        status == ConnStatus::CONNECTED ==> (r matches Ok(m) &&
            m@ == req_scanner_parameters_text()),
{
    if !status.is_connected() {
        return Err(api_error(NO_VALID_ID, TwsError::NotConnected));
    }
    let mut msg = String::new();
    msg.append(make_field_i32(REQ_SCANNER_PARAMETERS).as_str());
    msg.append(make_field_i32(1).as_str());
    assert(msg@ =~= field_spec(int_text(REQ_SCANNER_PARAMETERS as int)) + field_spec(int_text(1)));
    Ok(msg)
}

/// The message that `EClient::cancel_real_time_bars` sends.
pub fn cancel_real_time_bars_message(
    status: ConnStatus,
    req_id: i32,
) -> (r: Result<String, IBKRApiLibError>)
    ensures
        status != ConnStatus::CONNECTED ==> (r matches Err(e) &&
            is_api_error(e, NO_VALID_ID as int, TwsError::NotConnected)),
        status == ConnStatus::CONNECTED ==> (r matches Ok(m) &&
            m@ == cancel_real_time_bars_text(req_id)),
{
    if !status.is_connected() {
        return Err(api_error(NO_VALID_ID, TwsError::NotConnected));
    }
    let mut msg = String::new();
    msg.append(make_field_i32(CANCEL_REAL_TIME_BARS).as_str());
    msg.append(make_field_i32(1).as_str());
    msg.append(make_field_i32(req_id).as_str());
    assert(msg@ =~= field_spec(int_text(CANCEL_REAL_TIME_BARS as int)) + field_spec(int_text(1)) +
        field_spec(int_text(req_id as int)));
    Ok(msg)
}

/// The message that `EClient::cancel_fundamental_data` sends.
pub fn cancel_fundamental_data_message(
    status: ConnStatus,
    server_version: i32,
    req_id: i32,
) -> (r: Result<String, IBKRApiLibError>)
    ensures
        status != ConnStatus::CONNECTED ==> (r matches Err(e) &&
            is_api_error(e, NO_VALID_ID as int, TwsError::NotConnected)),
        status == ConnStatus::CONNECTED && server_version < MIN_SERVER_VER_FUNDAMENTAL_DATA ==>
            (r matches Err(e) &&
            is_api_error_with(e, req_id as int, TwsError::UpdateTws, " It does not support fundamental data request."@)),
        status == ConnStatus::CONNECTED && !(server_version < MIN_SERVER_VER_FUNDAMENTAL_DATA) ==>
            (r matches Ok(m) && m@ == cancel_fundamental_data_text(req_id)),
{
    if !status.is_connected() {
        return Err(api_error(NO_VALID_ID, TwsError::NotConnected));
    }
    if server_version < MIN_SERVER_VER_FUNDAMENTAL_DATA {
        return Err(api_error_with(req_id, TwsError::UpdateTws, " It does not support fundamental data request."));
    }
    let mut msg = String::new();
    msg.append(make_field_i32(CANCEL_FUNDAMENTAL_DATA).as_str());
    msg.append(make_field_i32(1).as_str());
    msg.append(make_field_i32(req_id).as_str());
    assert(msg@ =~= field_spec(int_text(CANCEL_FUNDAMENTAL_DATA as int)) + field_spec(int_text(1))
        + field_spec(int_text(req_id as int)));
    Ok(msg)
}

/// The message that `EClient::req_news_providers` sends.
pub fn req_news_providers_message(
    status: ConnStatus,
    server_version: i32,
) -> (r: Result<String, IBKRApiLibError>)
    ensures
        status != ConnStatus::CONNECTED ==> (r matches Err(e) &&
            is_api_error(e, NO_VALID_ID as int, TwsError::NotConnected)),
        status == ConnStatus::CONNECTED && server_version < MIN_SERVER_VER_REQ_NEWS_PROVIDERS ==>
            (r matches Err(e) &&
            is_api_error_with(e, NO_VALID_ID as int, TwsError::UpdateTws, " It does not support news providers request."@)),
        status == ConnStatus::CONNECTED && !(server_version < MIN_SERVER_VER_REQ_NEWS_PROVIDERS)
            ==> (r matches Ok(m) && m@ == req_news_providers_text()),
{
    if !status.is_connected() {
        return Err(api_error(NO_VALID_ID, TwsError::NotConnected));
    }
    if server_version < MIN_SERVER_VER_REQ_NEWS_PROVIDERS {
        return Err(api_error_with(NO_VALID_ID, TwsError::UpdateTws, " It does not support news providers request."));
    }
    let mut msg = String::new();
    msg.append(make_field_i32(REQ_NEWS_PROVIDERS).as_str());
    assert(msg@ =~= field_spec(int_text(REQ_NEWS_PROVIDERS as int)));
    Ok(msg)
}

/// The message that `EClient::query_display_groups` sends.
pub fn query_display_groups_message(
    status: ConnStatus,
    server_version: i32,
    req_id: i32,
) -> (r: Result<String, IBKRApiLibError>)
    ensures
        status != ConnStatus::CONNECTED ==> (r matches Err(e) &&
            is_api_error(e, NO_VALID_ID as int, TwsError::NotConnected)),
        status == ConnStatus::CONNECTED && server_version < MIN_SERVER_VER_LINKING ==>
            (r matches Err(e) &&
            is_api_error_with(e, req_id as int, TwsError::UpdateTws, " It does not support query_display_groups request."@)),
        status == ConnStatus::CONNECTED && !(server_version < MIN_SERVER_VER_LINKING) ==>
            (r matches Ok(m) && m@ == query_display_groups_text(req_id)),
{
    if !status.is_connected() {
        return Err(api_error(NO_VALID_ID, TwsError::NotConnected));
    }
    if server_version < MIN_SERVER_VER_LINKING {
        return Err(api_error_with(req_id, TwsError::UpdateTws, " It does not support query_display_groups request."));
    }
    let mut msg = String::new();
    msg.append(make_field_i32(QUERY_DISPLAY_GROUPS).as_str());
    msg.append(make_field_i32(1).as_str());
    msg.append(make_field_i32(req_id).as_str());
    assert(msg@ =~= field_spec(int_text(QUERY_DISPLAY_GROUPS as int)) + field_spec(int_text(1)) +
        field_spec(int_text(req_id as int)));
    Ok(msg)
}

/// The message that `EClient::subscribe_to_group_events` sends.
pub fn subscribe_to_group_events_message(
    status: ConnStatus,
    server_version: i32,
    req_id: i32,
    group_id: i32,
) -> (r: Result<String, IBKRApiLibError>)
    ensures
        status != ConnStatus::CONNECTED ==> (r matches Err(e) &&
            is_api_error(e, NO_VALID_ID as int, TwsError::NotConnected)),
        status == ConnStatus::CONNECTED && server_version < MIN_SERVER_VER_LINKING ==>
            (r matches Err(e) &&
            is_api_error_with(e, req_id as int, TwsError::UpdateTws, " It does not support subscribe_to_group_events request."@)),
        status == ConnStatus::CONNECTED && !(server_version < MIN_SERVER_VER_LINKING) ==>
            (r matches Ok(m) && m@ == subscribe_to_group_events_text(req_id, group_id)),
{
    if !status.is_connected() {
        return Err(api_error(NO_VALID_ID, TwsError::NotConnected));
    }
    if server_version < MIN_SERVER_VER_LINKING {
        return Err(api_error_with(req_id, TwsError::UpdateTws, " It does not support subscribe_to_group_events request."));
    }
    let mut msg = String::new();
    msg.append(make_field_i32(SUBSCRIBE_TO_GROUP_EVENTS).as_str());
    msg.append(make_field_i32(1).as_str());
    msg.append(make_field_i32(req_id).as_str());
    msg.append(make_field_i32(group_id).as_str());
    assert(msg@ =~= field_spec(int_text(SUBSCRIBE_TO_GROUP_EVENTS as int)) +
        field_spec(int_text(1)) + field_spec(int_text(req_id as int)) +
        field_spec(int_text(group_id as int)));
    Ok(msg)
}

/// The message that `EClient::update_display_group` sends.
pub fn update_display_group_message(
    status: ConnStatus,
    server_version: i32,
    req_id: i32,
    contract_info: &str,
) -> (r: Result<String, IBKRApiLibError>)
    ensures
        status != ConnStatus::CONNECTED ==> (r matches Err(e) &&
            is_api_error(e, NO_VALID_ID as int, TwsError::NotConnected)),
        status == ConnStatus::CONNECTED && server_version < MIN_SERVER_VER_LINKING ==>
            (r matches Err(e) &&
            is_api_error_with(e, req_id as int, TwsError::UpdateTws, " It does not support update_display_group request."@)),
        status == ConnStatus::CONNECTED && !(server_version < MIN_SERVER_VER_LINKING) ==>
            (r matches Ok(m) && m@ == update_display_group_text(req_id, contract_info)),
{
    if !status.is_connected() {
        return Err(api_error(NO_VALID_ID, TwsError::NotConnected));
    }
    if server_version < MIN_SERVER_VER_LINKING {
        return Err(api_error_with(req_id, TwsError::UpdateTws, " It does not support update_display_group request."));
    }
    let mut msg = String::new();
    msg.append(make_field_i32(UPDATE_DISPLAY_GROUP).as_str());
    msg.append(make_field_i32(1).as_str());
    msg.append(make_field_i32(req_id).as_str());
    msg.append(make_field_str(contract_info).as_str());
    assert(msg@ =~= field_spec(int_text(UPDATE_DISPLAY_GROUP as int)) + field_spec(int_text(1)) +
        field_spec(int_text(req_id as int)) + field_spec(contract_info@));
    Ok(msg)
}

/// The message that `EClient::unsubscribe_from_group_events` sends.
pub fn unsubscribe_from_group_events_message(
    status: ConnStatus,
    server_version: i32,
    req_id: i32,
) -> (r: Result<String, IBKRApiLibError>)
    ensures
        status != ConnStatus::CONNECTED ==> (r matches Err(e) &&
            is_api_error(e, NO_VALID_ID as int, TwsError::NotConnected)),
        status == ConnStatus::CONNECTED && server_version < MIN_SERVER_VER_LINKING ==>
            (r matches Err(e) &&
            is_api_error_with(e, req_id as int, TwsError::UpdateTws, " It does not support unsubscribe_from_group_events request."@)),
        status == ConnStatus::CONNECTED && !(server_version < MIN_SERVER_VER_LINKING) ==>
            (r matches Ok(m) && m@ == unsubscribe_from_group_events_text(req_id)),
{
    if !status.is_connected() {
        return Err(api_error(NO_VALID_ID, TwsError::NotConnected));
    }
    if server_version < MIN_SERVER_VER_LINKING {
        return Err(api_error_with(req_id, TwsError::UpdateTws, " It does not support unsubscribe_from_group_events request."));
    }
    let mut msg = String::new();
    msg.append(make_field_i32(UNSUBSCRIBE_FROM_GROUP_EVENTS).as_str());
    msg.append(make_field_i32(1).as_str());
    msg.append(make_field_i32(req_id).as_str());
    assert(msg@ =~= field_spec(int_text(UNSUBSCRIBE_FROM_GROUP_EVENTS as int)) +
        field_spec(int_text(1)) + field_spec(int_text(req_id as int)));
    Ok(msg)
}

/// The message that `EClient::verify_request` sends.
pub fn verify_request_message(
    status: ConnStatus,
    server_version: i32,
    extra_auth: bool,
    api_name: &str,
    api_version: &str,
) -> (r: Result<String, IBKRApiLibError>)
    ensures
        status != ConnStatus::CONNECTED ==> (r matches Err(e) &&
            is_api_error(e, NO_VALID_ID as int, TwsError::NotConnected)),
        status == ConnStatus::CONNECTED && server_version < MIN_SERVER_VER_LINKING ==>
            (r matches Err(e) &&
            is_api_error_with(e, NO_VALID_ID as int, TwsError::UpdateTws, " It does not support verification request."@)),
        status == ConnStatus::CONNECTED && !(server_version < MIN_SERVER_VER_LINKING) &&
            !extra_auth ==> (r matches Err(e) &&
            is_api_error_with(e, NO_VALID_ID as int, TwsError::BadMessage, " Intent to authenticate needs to be expressed during initial connect request."@)),
        status == ConnStatus::CONNECTED && !(server_version < MIN_SERVER_VER_LINKING) &&
            !(!extra_auth) ==> (r matches Ok(m) &&
            m@ == verify_request_text(api_name, api_version)),
{
    if !status.is_connected() {
        return Err(api_error(NO_VALID_ID, TwsError::NotConnected));
    }
    if server_version < MIN_SERVER_VER_LINKING {
        return Err(api_error_with(NO_VALID_ID, TwsError::UpdateTws, " It does not support verification request."));
    }
    if !extra_auth {
        return Err(api_error_with(NO_VALID_ID, TwsError::BadMessage, " Intent to authenticate needs to be expressed during initial connect request."));
    }
    let mut msg = String::new();
    msg.append(make_field_i32(VERIFY_REQUEST).as_str());
    msg.append(make_field_i32(1).as_str());
    msg.append(make_field_str(api_name).as_str());
    msg.append(make_field_str(api_version).as_str());
    assert(msg@ =~= field_spec(int_text(VERIFY_REQUEST as int)) + field_spec(int_text(1)) +
        field_spec(api_name@) + field_spec(api_version@));
    Ok(msg)
}

/// The message that `EClient::verify_message` sends.
pub fn verify_message_message(
    status: ConnStatus,
    server_version: i32,
    api_data: &str,
) -> (r: Result<String, IBKRApiLibError>)
    ensures
        status != ConnStatus::CONNECTED ==> (r matches Err(e) &&
            is_api_error(e, NO_VALID_ID as int, TwsError::NotConnected)),
        status == ConnStatus::CONNECTED && server_version < MIN_SERVER_VER_LINKING ==>
            (r matches Err(e) &&
            is_api_error_with(e, NO_VALID_ID as int, TwsError::UpdateTws, " It does not support verification request."@)),
        status == ConnStatus::CONNECTED && !(server_version < MIN_SERVER_VER_LINKING) ==>
            (r matches Ok(m) && m@ == verify_message_text(api_data)),
{
    if !status.is_connected() {
        return Err(api_error(NO_VALID_ID, TwsError::NotConnected));
    }
    if server_version < MIN_SERVER_VER_LINKING {
        return Err(api_error_with(NO_VALID_ID, TwsError::UpdateTws, " It does not support verification request."));
    }
    let mut msg = String::new();
    msg.append(make_field_i32(VERIFY_MESSAGE).as_str());
    msg.append(make_field_i32(1).as_str());
    msg.append(make_field_str(api_data).as_str());
    assert(msg@ =~= field_spec(int_text(VERIFY_MESSAGE as int)) + field_spec(int_text(1)) +
        field_spec(api_data@));
    Ok(msg)
}

/// The message that `EClient::verify_and_auth_request` sends.
pub fn verify_and_auth_request_message(
    status: ConnStatus,
    server_version: i32,
    extra_auth: bool,
    api_name: &str,
    api_version: &str,
    opaque_isv_key: &str,
) -> (r: Result<String, IBKRApiLibError>)
    ensures
        status != ConnStatus::CONNECTED ==> (r matches Err(e) &&
            is_api_error(e, NO_VALID_ID as int, TwsError::NotConnected)),
        status == ConnStatus::CONNECTED && server_version < MIN_SERVER_VER_LINKING ==>
            (r matches Err(e) &&
            is_api_error_with(e, NO_VALID_ID as int, TwsError::UpdateTws, " It does not support verification request."@)),
        status == ConnStatus::CONNECTED && !(server_version < MIN_SERVER_VER_LINKING) &&
            !extra_auth ==> (r matches Err(e) &&
            is_api_error_with(e, NO_VALID_ID as int, TwsError::BadMessage, " Intent to authenticate needs to be expressed during initial connect request."@)),
        status == ConnStatus::CONNECTED && !(server_version < MIN_SERVER_VER_LINKING) &&
            !(!extra_auth) ==> (r matches Ok(m) &&
            m@ == verify_and_auth_request_text(api_name, api_version, opaque_isv_key)),
{
    if !status.is_connected() {
        return Err(api_error(NO_VALID_ID, TwsError::NotConnected));
    }
    if server_version < MIN_SERVER_VER_LINKING {
        return Err(api_error_with(NO_VALID_ID, TwsError::UpdateTws, " It does not support verification request."));
    }
    if !extra_auth {
        return Err(api_error_with(NO_VALID_ID, TwsError::BadMessage, " Intent to authenticate needs to be expressed during initial connect request."));
    }
    let mut msg = String::new();
    msg.append(make_field_i32(VERIFY_AND_AUTH_REQUEST).as_str());
    msg.append(make_field_i32(1).as_str());
    msg.append(make_field_str(api_name).as_str());
    msg.append(make_field_str(api_version).as_str());
    msg.append(make_field_str(opaque_isv_key).as_str());
    assert(msg@ =~= field_spec(int_text(VERIFY_AND_AUTH_REQUEST as int)) + field_spec(int_text(1))
        + field_spec(api_name@) + field_spec(api_version@) + field_spec(opaque_isv_key@));
    Ok(msg)
}

/// The message that `EClient::verify_and_auth_message` sends.
pub fn verify_and_auth_message_message(
    status: ConnStatus,
    server_version: i32,
    api_data: &str,
    xyz_response: &str,
) -> (r: Result<String, IBKRApiLibError>)
    ensures
        status != ConnStatus::CONNECTED ==> (r matches Err(e) &&
            is_api_error(e, NO_VALID_ID as int, TwsError::NotConnected)),
        status == ConnStatus::CONNECTED && server_version < MIN_SERVER_VER_LINKING ==>
            (r matches Err(e) &&
            is_api_error_with(e, NO_VALID_ID as int, TwsError::UpdateTws, " It does not support verification request."@)),
        status == ConnStatus::CONNECTED && !(server_version < MIN_SERVER_VER_LINKING) ==>
            (r matches Ok(m) && m@ == verify_and_auth_message_text(api_data, xyz_response)),
{
    if !status.is_connected() {
        return Err(api_error(NO_VALID_ID, TwsError::NotConnected));
    }
    if server_version < MIN_SERVER_VER_LINKING {
        return Err(api_error_with(NO_VALID_ID, TwsError::UpdateTws, " It does not support verification request."));
    }
    let mut msg = String::new();
    msg.append(make_field_i32(VERIFY_AND_AUTH_MESSAGE).as_str());
    msg.append(make_field_i32(1).as_str());
    msg.append(make_field_str(api_data).as_str());
    msg.append(make_field_str(xyz_response).as_str());
    assert(msg@ =~= field_spec(int_text(VERIFY_AND_AUTH_MESSAGE as int)) + field_spec(int_text(1))
        + field_spec(api_data@) + field_spec(xyz_response@));
    Ok(msg)
}

/// The message that `EClient::req_sec_def_opt_params` sends.
pub fn req_sec_def_opt_params_message(
    status: ConnStatus,
    server_version: i32,
    req_id: i32,
    underlying_symbol: &str,
    fut_fop_exchange: &str,
    underlying_sec_type: &str,
    underlying_con_id: i32,
) -> (r: Result<String, IBKRApiLibError>)
    ensures
        status != ConnStatus::CONNECTED ==> (r matches Err(e) &&
            is_api_error(e, NO_VALID_ID as int, TwsError::NotConnected)),
        status == ConnStatus::CONNECTED && server_version < MIN_SERVER_VER_SEC_DEF_OPT_PARAMS_REQ
            ==> (r matches Err(e) &&
            is_api_error_with(e, NO_VALID_ID as int, TwsError::UpdateTws, " It does not support security pub fninition option request."@)),
        status == ConnStatus::CONNECTED &&
            !(server_version < MIN_SERVER_VER_SEC_DEF_OPT_PARAMS_REQ) ==> (r matches Ok(m) &&
            m@ == req_sec_def_opt_params_text(req_id, underlying_symbol, fut_fop_exchange, underlying_sec_type, underlying_con_id)),
{
    if !status.is_connected() {
        return Err(api_error(NO_VALID_ID, TwsError::NotConnected));
    }
    if server_version < MIN_SERVER_VER_SEC_DEF_OPT_PARAMS_REQ {
        return Err(api_error_with(NO_VALID_ID, TwsError::UpdateTws, " It does not support security pub fninition option request."));
    }
    let mut msg = String::new();
    msg.append(make_field_i32(REQ_SEC_DEF_OPT_PARAMS).as_str());
    msg.append(make_field_i32(req_id).as_str());
    msg.append(make_field_str(underlying_symbol).as_str());
    msg.append(make_field_str(fut_fop_exchange).as_str());
    msg.append(make_field_str(underlying_sec_type).as_str());
    msg.append(make_field_i32(underlying_con_id).as_str());
    assert(msg@ =~= field_spec(int_text(REQ_SEC_DEF_OPT_PARAMS as int)) +
        field_spec(int_text(req_id as int)) + field_spec(underlying_symbol@) +
        field_spec(fut_fop_exchange@) + field_spec(underlying_sec_type@) +
        field_spec(int_text(underlying_con_id as int)));
    Ok(msg)
}

/// The message that `EClient::req_soft_dollar_tiers` sends.
pub fn req_soft_dollar_tiers_message(
    status: ConnStatus,
    req_id: i32,
) -> (r: Result<String, IBKRApiLibError>)
    ensures
        status != ConnStatus::CONNECTED ==> (r matches Err(e) &&
            is_api_error(e, NO_VALID_ID as int, TwsError::NotConnected)),
        status == ConnStatus::CONNECTED ==> (r matches Ok(m) &&
            m@ == req_soft_dollar_tiers_text(req_id)),
{
    if !status.is_connected() {
        return Err(api_error(NO_VALID_ID, TwsError::NotConnected));
    }
    let mut msg = String::new();
    msg.append(make_field_i32(REQ_SOFT_DOLLAR_TIERS).as_str());
    msg.append(make_field_i32(req_id).as_str());
    assert(msg@ =~= field_spec(int_text(REQ_SOFT_DOLLAR_TIERS as int)) +
        field_spec(int_text(req_id as int)));
    Ok(msg)
}

/// The message that `EClient::req_family_codes` sends.
pub fn req_family_codes_message(
    status: ConnStatus,
    server_version: i32,
) -> (r: Result<String, IBKRApiLibError>)
    ensures
        status != ConnStatus::CONNECTED ==> (r matches Err(e) &&
            is_api_error(e, NO_VALID_ID as int, TwsError::NotConnected)),
        status == ConnStatus::CONNECTED && server_version < MIN_SERVER_VER_REQ_FAMILY_CODES ==>
            (r matches Err(e) &&
            is_api_error_with(e, NO_VALID_ID as int, TwsError::UpdateTws, " It does not support family codes request."@)),
        status == ConnStatus::CONNECTED && !(server_version < MIN_SERVER_VER_REQ_FAMILY_CODES) ==>
            (r matches Ok(m) && m@ == req_family_codes_text()),
{
    if !status.is_connected() {
        return Err(api_error(NO_VALID_ID, TwsError::NotConnected));
    }
    if server_version < MIN_SERVER_VER_REQ_FAMILY_CODES {
        return Err(api_error_with(NO_VALID_ID, TwsError::UpdateTws, " It does not support family codes request."));
    }
    let mut msg = String::new();
    msg.append(make_field_i32(REQ_FAMILY_CODES).as_str());
    assert(msg@ =~= field_spec(int_text(REQ_FAMILY_CODES as int)));
    Ok(msg)
}

/// The message that `EClient::req_matching_symbols` sends.
pub fn req_matching_symbols_message(
    status: ConnStatus,
    server_version: i32,
    req_id: i32,
    pattern: &str,
) -> (r: Result<String, IBKRApiLibError>)
    ensures
        status != ConnStatus::CONNECTED ==> (r matches Err(e) &&
            is_api_error(e, NO_VALID_ID as int, TwsError::NotConnected)),
        status == ConnStatus::CONNECTED && server_version < MIN_SERVER_VER_REQ_MATCHING_SYMBOLS
            ==> (r matches Err(e) &&
            is_api_error_with(e, NO_VALID_ID as int, TwsError::UpdateTws, " It does not support matching symbols request."@)),
        status == ConnStatus::CONNECTED && !(server_version < MIN_SERVER_VER_REQ_MATCHING_SYMBOLS)
            ==> (r matches Ok(m) && m@ == req_matching_symbols_text(req_id, pattern)),
{
    if !status.is_connected() {
        return Err(api_error(NO_VALID_ID, TwsError::NotConnected));
    }
    if server_version < MIN_SERVER_VER_REQ_MATCHING_SYMBOLS {
        return Err(api_error_with(NO_VALID_ID, TwsError::UpdateTws, " It does not support matching symbols request."));
    }
    let mut msg = String::new();
    msg.append(make_field_i32(REQ_MATCHING_SYMBOLS).as_str());
    msg.append(make_field_i32(req_id).as_str());
    msg.append(make_field_str(pattern).as_str());
    assert(msg@ =~= field_spec(int_text(REQ_MATCHING_SYMBOLS as int)) +
        field_spec(int_text(req_id as int)) + field_spec(pattern@));
    Ok(msg)
}

/// The message that `EClient::req_completed_orders` sends.
pub fn req_completed_orders_message(
    status: ConnStatus,
    api_only: bool,
) -> (r: Result<String, IBKRApiLibError>)
    ensures
        status != ConnStatus::CONNECTED ==> (r matches Err(e) &&
            is_api_error(e, NO_VALID_ID as int, TwsError::NotConnected)),
        status == ConnStatus::CONNECTED ==> (r matches Ok(m) &&
            m@ == req_completed_orders_text(api_only)),
{
    if !status.is_connected() {
        return Err(api_error(NO_VALID_ID, TwsError::NotConnected));
    }
    let mut msg = String::new();
    msg.append(make_field_i32(REQ_COMPLETED_ORDERS).as_str());
    msg.append(make_field_bool(api_only).as_str());
    assert(msg@ =~= field_spec(int_text(REQ_COMPLETED_ORDERS as int)) +
        field_spec(bool_field_text(api_only)));
    Ok(msg)
}

/// The message that `EClient::req_wsh_metadata` sends.
pub fn req_wsh_metadata_message(
    status: ConnStatus,
    server_version: i32,
    req_id: i32,
) -> (r: Result<String, IBKRApiLibError>)
    ensures
        status != ConnStatus::CONNECTED ==> (r matches Err(e) &&
            is_api_error(e, NO_VALID_ID as int, TwsError::NotConnected)),
        status == ConnStatus::CONNECTED && server_version < MIN_SERVER_VER_WSHE_CALENDAR ==>
            (r matches Err(e) &&
            is_api_error_with(e, NO_VALID_ID as int, TwsError::UpdateTws, " It does not support WSHE Calendar API."@)),
        status == ConnStatus::CONNECTED && !(server_version < MIN_SERVER_VER_WSHE_CALENDAR) ==>
            (r matches Ok(m) && m@ == req_wsh_metadata_text(req_id)),
{
    if !status.is_connected() {
        return Err(api_error(NO_VALID_ID, TwsError::NotConnected));
    }
    if server_version < MIN_SERVER_VER_WSHE_CALENDAR {
        return Err(api_error_with(NO_VALID_ID, TwsError::UpdateTws, " It does not support WSHE Calendar API."));
    }
    let mut msg = String::new();
    msg.append(make_field_i32(REQ_WSH_METADATA).as_str());
    msg.append(make_field_i32(req_id).as_str());
    assert(msg@ =~= field_spec(int_text(REQ_WSH_METADATA as int)) +
        field_spec(int_text(req_id as int)));
    Ok(msg)
}

/// The message that `EClient::cancel_wsh_metadata` sends.
pub fn cancel_wsh_metadata_message(
    status: ConnStatus,
    server_version: i32,
    req_id: i32,
) -> (r: Result<String, IBKRApiLibError>)
    ensures
        status != ConnStatus::CONNECTED ==> (r matches Err(e) &&
            is_api_error(e, NO_VALID_ID as int, TwsError::NotConnected)),
        status == ConnStatus::CONNECTED && server_version < MIN_SERVER_VER_WSHE_CALENDAR ==>
            (r matches Err(e) &&
            is_api_error_with(e, NO_VALID_ID as int, TwsError::UpdateTws, "  It does not support WSHE Calendar API."@)),
        status == ConnStatus::CONNECTED && !(server_version < MIN_SERVER_VER_WSHE_CALENDAR) ==>
            (r matches Ok(m) && m@ == cancel_wsh_metadata_text(req_id)),
{
    if !status.is_connected() {
        return Err(api_error(NO_VALID_ID, TwsError::NotConnected));
    }
    if server_version < MIN_SERVER_VER_WSHE_CALENDAR {
        return Err(api_error_with(NO_VALID_ID, TwsError::UpdateTws, "  It does not support WSHE Calendar API."));
    }
    let mut msg = String::new();
    msg.append(make_field_i32(CANCEL_WSH_METADATA).as_str());
    msg.append(make_field_i32(req_id).as_str());
    assert(msg@ =~= field_spec(int_text(CANCEL_WSH_METADATA as int)) +
        field_spec(int_text(req_id as int)));
    Ok(msg)
}

/// The message that `EClient::cancel_wsh_event_data` builds; the client checks the
/// connection and the server version with it and does not send it.
pub fn cancel_wsh_event_data_message(
    status: ConnStatus,
    server_version: i32,
    req_id: i32,
) -> (r: Result<String, IBKRApiLibError>)
    ensures
        status != ConnStatus::CONNECTED ==> (r matches Err(e) &&
            is_api_error(e, NO_VALID_ID as int, TwsError::NotConnected)),
        status == ConnStatus::CONNECTED && server_version < MIN_SERVER_VER_WSHE_CALENDAR ==>
            (r matches Err(e) &&
            is_api_error_with(e, NO_VALID_ID as int, TwsError::UpdateTws, " It does not support WSHE Calendar API."@)),
        status == ConnStatus::CONNECTED && !(server_version < MIN_SERVER_VER_WSHE_CALENDAR) ==>
            (r matches Ok(m) && m@ == cancel_wsh_event_data_text(req_id)),
{
    if !status.is_connected() {
        return Err(api_error(NO_VALID_ID, TwsError::NotConnected));
    }
    if server_version < MIN_SERVER_VER_WSHE_CALENDAR {
        return Err(api_error_with(NO_VALID_ID, TwsError::UpdateTws, " It does not support WSHE Calendar API."));
    }
    let mut msg = String::new();
    msg.append(make_field_i32(CANCEL_WSH_EVENT_DATA).as_str());
    msg.append(make_field_i32(req_id).as_str());
    assert(msg@ =~= field_spec(int_text(CANCEL_WSH_EVENT_DATA as int)) +
        field_spec(int_text(req_id as int)));
    Ok(msg)
}

/// The message that `EClient::start_api` sends once the handshake is done: the client id, and
/// the optional capabilities for servers that take them.
pub fn start_api_message(
    status: ConnStatus,
    server_version: i32,
    client_id: i32,
    opt_capab: &str,
) -> (r: Result<String, IBKRApiLibError>)
    ensures
        status != ConnStatus::CONNECTED ==> (r matches Err(e) &&
            is_api_error(e, NO_VALID_ID as int, TwsError::NotConnected)),
        status == ConnStatus::CONNECTED ==> (r matches Ok(m) &&
            m@ == field_spec(int_text(START_API as int)) + field_spec(int_text(2)) +
            field_spec(int_text(client_id as int)) + (if server_version
            >= MIN_SERVER_VER_OPTIONAL_CAPABILITIES { field_spec(opt_capab@) } else { Seq::<char>::empty() })),
{
    if !status.is_connected() {
        return Err(api_error(NO_VALID_ID, TwsError::NotConnected));
    }
    let mut msg = String::new();
    msg.append(make_field_i32(START_API).as_str());
    msg.append(make_field_i32(2).as_str());
    msg.append(make_field_i32(client_id).as_str());
    if server_version >= MIN_SERVER_VER_OPTIONAL_CAPABILITIES {
        msg.append(make_field_str(opt_capab).as_str());
    }
    assert(msg@ =~= field_spec(int_text(START_API as int)) + field_spec(int_text(2)) + field_spec(
        int_text(client_id as int),
    ) + (if server_version >= MIN_SERVER_VER_OPTIONAL_CAPABILITIES { field_spec(opt_capab@) } else { Seq::<char>::empty() }));
    Ok(msg)
}

/// The text of the message that `set_server_log_level_message` sends.
pub open spec fn set_server_log_level_text(log_level: i32) -> Seq<char> {
    field_spec(int_text(SET_SERVER_LOGLEVEL as int)) +
        field_spec(int_text(1)) +
        field_spec(int_text(log_level as int))
}

/// The fields of the message that `set_server_log_level_message` sends, in the order they are sent.
pub open spec fn set_server_log_level_fields(log_level: i32) -> Seq<Seq<char>> {
    Seq::<Seq<char>>::empty()
        .push(int_text(SET_SERVER_LOGLEVEL as int))
        .push(int_text(1))
        .push(int_text(log_level as int))
}

/// `set_server_log_level_message` sends `set_server_log_level_fields`, each followed by NUL, in that order.
pub proof fn law_set_server_log_level_fields(log_level: i32)
    ensures
        set_server_log_level_text(log_level) == join_fields(set_server_log_level_fields(log_level)),
{
    let g0 = Seq::<Seq<char>>::empty();
    lemma_join_push(g0, int_text(SET_SERVER_LOGLEVEL as int));
    let g1 = g0.push(int_text(SET_SERVER_LOGLEVEL as int));
    lemma_join_push(g1, int_text(1));
    let g2 = g1.push(int_text(1));
    lemma_join_push(g2, int_text(log_level as int));
    let g3 = g2.push(int_text(log_level as int));
    assert(join_fields(Seq::<Seq<char>>::empty()) == Seq::<char>::empty());
    assert(set_server_log_level_text(log_level) =~= join_fields(set_server_log_level_fields(log_level)));
}

/// The text of the message that `req_managed_accts_message` sends.
pub open spec fn req_managed_accts_text() -> Seq<char> {
    field_spec(int_text(REQ_MANAGED_ACCTS as int)) +
        field_spec(int_text(1))
}

/// The fields of the message that `req_managed_accts_message` sends, in the order they are sent.
pub open spec fn req_managed_accts_fields() -> Seq<Seq<char>> {
    Seq::<Seq<char>>::empty()
        .push(int_text(REQ_MANAGED_ACCTS as int))
        .push(int_text(1))
}

/// `req_managed_accts_message` sends `req_managed_accts_fields`, each followed by NUL, in that order.
pub proof fn law_req_managed_accts_fields()
    ensures
        req_managed_accts_text() == join_fields(req_managed_accts_fields()),
{
    let g0 = Seq::<Seq<char>>::empty();
    lemma_join_push(g0, int_text(REQ_MANAGED_ACCTS as int));
    let g1 = g0.push(int_text(REQ_MANAGED_ACCTS as int));
    lemma_join_push(g1, int_text(1));
    let g2 = g1.push(int_text(1));
    assert(join_fields(Seq::<Seq<char>>::empty()) == Seq::<char>::empty());
    assert(req_managed_accts_text() =~= join_fields(req_managed_accts_fields()));
}

/// The text of the message that `request_fa_message` sends.
pub open spec fn request_fa_text(fa_data: FaDataType) -> Seq<char> {
    field_spec(int_text(REQ_FA as int)) +
        field_spec(int_text(1)) +
        field_spec(int_text(fa_data.code_of()))
}

/// The fields of the message that `request_fa_message` sends, in the order they are sent.
pub open spec fn request_fa_fields(fa_data: FaDataType) -> Seq<Seq<char>> {
    Seq::<Seq<char>>::empty()
        .push(int_text(REQ_FA as int))
        .push(int_text(1))
        .push(int_text(fa_data.code_of()))
}

/// `request_fa_message` sends `request_fa_fields`, each followed by NUL, in that order.
pub proof fn law_request_fa_fields(fa_data: FaDataType)
    ensures
        request_fa_text(fa_data) == join_fields(request_fa_fields(fa_data)),
{
    let g0 = Seq::<Seq<char>>::empty();
    lemma_join_push(g0, int_text(REQ_FA as int));
    let g1 = g0.push(int_text(REQ_FA as int));
    lemma_join_push(g1, int_text(1));
    let g2 = g1.push(int_text(1));
    lemma_join_push(g2, int_text(fa_data.code_of()));
    let g3 = g2.push(int_text(fa_data.code_of()));
    assert(join_fields(Seq::<Seq<char>>::empty()) == Seq::<char>::empty());
    assert(request_fa_text(fa_data) =~= join_fields(request_fa_fields(fa_data)));
}

/// The text of the message that `cancel_scanner_subscription_message` sends.
pub open spec fn cancel_scanner_subscription_text(req_id: i32) -> Seq<char> {
    field_spec(int_text(CANCEL_SCANNER_SUBSCRIPTION as int)) +
        field_spec(int_text(1)) +
        field_spec(int_text(req_id as int))
}

/// The fields of the message that `cancel_scanner_subscription_message` sends, in the order they are sent.
pub open spec fn cancel_scanner_subscription_fields(req_id: i32) -> Seq<Seq<char>> {
    Seq::<Seq<char>>::empty()
        .push(int_text(CANCEL_SCANNER_SUBSCRIPTION as int))
        .push(int_text(1))
        .push(int_text(req_id as int))
}

/// `cancel_scanner_subscription_message` sends `cancel_scanner_subscription_fields`, each followed by NUL, in that order.
pub proof fn law_cancel_scanner_subscription_fields(req_id: i32)
    ensures
        cancel_scanner_subscription_text(req_id) == join_fields(cancel_scanner_subscription_fields(req_id)),
{
    let g0 = Seq::<Seq<char>>::empty();
    lemma_join_push(g0, int_text(CANCEL_SCANNER_SUBSCRIPTION as int));
    let g1 = g0.push(int_text(CANCEL_SCANNER_SUBSCRIPTION as int));
    lemma_join_push(g1, int_text(1));
    let g2 = g1.push(int_text(1));
    lemma_join_push(g2, int_text(req_id as int));
    let g3 = g2.push(int_text(req_id as int));
    assert(join_fields(Seq::<Seq<char>>::empty()) == Seq::<char>::empty());
    assert(cancel_scanner_subscription_text(req_id) =~= join_fields(cancel_scanner_subscription_fields(req_id)));
}

/// The text of the message that `cancel_mkt_data_message` sends.
pub open spec fn cancel_mkt_data_text(req_id: i32) -> Seq<char> {
    field_spec(int_text(CANCEL_MKT_DATA as int)) +
        field_spec(int_text(2)) +
        field_spec(int_text(req_id as int))
}

/// The fields of the message that `cancel_mkt_data_message` sends, in the order they are sent.
pub open spec fn cancel_mkt_data_fields(req_id: i32) -> Seq<Seq<char>> {
    Seq::<Seq<char>>::empty()
        .push(int_text(CANCEL_MKT_DATA as int))
        .push(int_text(2))
        .push(int_text(req_id as int))
}

/// `cancel_mkt_data_message` sends `cancel_mkt_data_fields`, each followed by NUL, in that order.
pub proof fn law_cancel_mkt_data_fields(req_id: i32)
    ensures
        cancel_mkt_data_text(req_id) == join_fields(cancel_mkt_data_fields(req_id)),
{
    let g0 = Seq::<Seq<char>>::empty();
    lemma_join_push(g0, int_text(CANCEL_MKT_DATA as int));
    let g1 = g0.push(int_text(CANCEL_MKT_DATA as int));
    lemma_join_push(g1, int_text(2));
    let g2 = g1.push(int_text(2));
    lemma_join_push(g2, int_text(req_id as int));
    let g3 = g2.push(int_text(req_id as int));
    assert(join_fields(Seq::<Seq<char>>::empty()) == Seq::<char>::empty());
    assert(cancel_mkt_data_text(req_id) =~= join_fields(cancel_mkt_data_fields(req_id)));
}

/// The text of the message that `req_market_data_type_message` sends.
pub open spec fn req_market_data_type_text(market_data_type: i32) -> Seq<char> {
    field_spec(int_text(REQ_MARKET_DATA_TYPE as int)) +
        field_spec(int_text(1)) +
        field_spec(int_text(market_data_type as int))
}

/// The fields of the message that `req_market_data_type_message` sends, in the order they are sent.
pub open spec fn req_market_data_type_fields(market_data_type: i32) -> Seq<Seq<char>> {
    Seq::<Seq<char>>::empty()
        .push(int_text(REQ_MARKET_DATA_TYPE as int))
        .push(int_text(1))
        .push(int_text(market_data_type as int))
}

/// `req_market_data_type_message` sends `req_market_data_type_fields`, each followed by NUL, in that order.
pub proof fn law_req_market_data_type_fields(market_data_type: i32)
    ensures
        req_market_data_type_text(market_data_type) == join_fields(req_market_data_type_fields(market_data_type)),
{
    let g0 = Seq::<Seq<char>>::empty();
    lemma_join_push(g0, int_text(REQ_MARKET_DATA_TYPE as int));
    let g1 = g0.push(int_text(REQ_MARKET_DATA_TYPE as int));
    lemma_join_push(g1, int_text(1));
    let g2 = g1.push(int_text(1));
    lemma_join_push(g2, int_text(market_data_type as int));
    let g3 = g2.push(int_text(market_data_type as int));
    assert(join_fields(Seq::<Seq<char>>::empty()) == Seq::<char>::empty());
    assert(req_market_data_type_text(market_data_type) =~= join_fields(req_market_data_type_fields(market_data_type)));
}

/// The text of the message that `req_smart_components_message` sends.
pub open spec fn req_smart_components_text(req_id: i32, bbo_exchange: &str) -> Seq<char> {
    field_spec(int_text(REQ_SMART_COMPONENTS as int)) +
        field_spec(int_text(req_id as int)) +
        field_spec(bbo_exchange@)
}

/// The fields of the message that `req_smart_components_message` sends, in the order they are sent.
pub open spec fn req_smart_components_fields(req_id: i32, bbo_exchange: &str) -> Seq<Seq<char>> {
    Seq::<Seq<char>>::empty()
        .push(int_text(REQ_SMART_COMPONENTS as int))
        .push(int_text(req_id as int))
        .push(bbo_exchange@)
}

/// `req_smart_components_message` sends `req_smart_components_fields`, each followed by NUL, in that order.
pub proof fn law_req_smart_components_fields(req_id: i32, bbo_exchange: &str)
    ensures
        req_smart_components_text(req_id, bbo_exchange) == join_fields(req_smart_components_fields(req_id, bbo_exchange)),
{
    let g0 = Seq::<Seq<char>>::empty();
    lemma_join_push(g0, int_text(REQ_SMART_COMPONENTS as int));
    let g1 = g0.push(int_text(REQ_SMART_COMPONENTS as int));
    lemma_join_push(g1, int_text(req_id as int));
    let g2 = g1.push(int_text(req_id as int));
    lemma_join_push(g2, bbo_exchange@);
    let g3 = g2.push(bbo_exchange@);
    assert(join_fields(Seq::<Seq<char>>::empty()) == Seq::<char>::empty());
    assert(req_smart_components_text(req_id, bbo_exchange) =~= join_fields(req_smart_components_fields(req_id, bbo_exchange)));
}

/// The text of the message that `req_market_rule_message` sends.
pub open spec fn req_market_rule_text(market_rule_id: i32) -> Seq<char> {
    field_spec(int_text(REQ_MARKET_RULE as int)) +
        field_spec(int_text(market_rule_id as int))
}

/// The fields of the message that `req_market_rule_message` sends, in the order they are sent.
pub open spec fn req_market_rule_fields(market_rule_id: i32) -> Seq<Seq<char>> {
    Seq::<Seq<char>>::empty()
        .push(int_text(REQ_MARKET_RULE as int))
        .push(int_text(market_rule_id as int))
}

/// `req_market_rule_message` sends `req_market_rule_fields`, each followed by NUL, in that order.
pub proof fn law_req_market_rule_fields(market_rule_id: i32)
    ensures
        req_market_rule_text(market_rule_id) == join_fields(req_market_rule_fields(market_rule_id)),
{
    let g0 = Seq::<Seq<char>>::empty();
    lemma_join_push(g0, int_text(REQ_MARKET_RULE as int));
    let g1 = g0.push(int_text(REQ_MARKET_RULE as int));
    lemma_join_push(g1, int_text(market_rule_id as int));
    let g2 = g1.push(int_text(market_rule_id as int));
    assert(join_fields(Seq::<Seq<char>>::empty()) == Seq::<char>::empty());
    assert(req_market_rule_text(market_rule_id) =~= join_fields(req_market_rule_fields(market_rule_id)));
}

/// The text of the message that `cancel_tick_by_tick_data_message` sends.
pub open spec fn cancel_tick_by_tick_data_text(req_id: i32) -> Seq<char> {
    field_spec(int_text(CANCEL_TICK_BY_TICK_DATA as int)) +
        field_spec(int_text(req_id as int))
}

/// The fields of the message that `cancel_tick_by_tick_data_message` sends, in the order they are sent.
pub open spec fn cancel_tick_by_tick_data_fields(req_id: i32) -> Seq<Seq<char>> {
    Seq::<Seq<char>>::empty()
        .push(int_text(CANCEL_TICK_BY_TICK_DATA as int))
        .push(int_text(req_id as int))
}

/// `cancel_tick_by_tick_data_message` sends `cancel_tick_by_tick_data_fields`, each followed by NUL, in that order.
pub proof fn law_cancel_tick_by_tick_data_fields(req_id: i32)
    ensures
        cancel_tick_by_tick_data_text(req_id) == join_fields(cancel_tick_by_tick_data_fields(req_id)),
{
    let g0 = Seq::<Seq<char>>::empty();
    lemma_join_push(g0, int_text(CANCEL_TICK_BY_TICK_DATA as int));
    let g1 = g0.push(int_text(CANCEL_TICK_BY_TICK_DATA as int));
    lemma_join_push(g1, int_text(req_id as int));
    let g2 = g1.push(int_text(req_id as int));
    assert(join_fields(Seq::<Seq<char>>::empty()) == Seq::<char>::empty());
    assert(cancel_tick_by_tick_data_text(req_id) =~= join_fields(cancel_tick_by_tick_data_fields(req_id)));
}

/// The text of the message that `cancel_calculate_option_price_message` sends.
pub open spec fn cancel_calculate_option_price_text(req_id: i32) -> Seq<char> {
    field_spec(int_text(CANCEL_CALC_OPTION_PRICE as int)) +
        field_spec(int_text(1)) +
        field_spec(int_text(req_id as int))
}

/// The fields of the message that `cancel_calculate_option_price_message` sends, in the order they are sent.
pub open spec fn cancel_calculate_option_price_fields(req_id: i32) -> Seq<Seq<char>> {
    Seq::<Seq<char>>::empty()
        .push(int_text(CANCEL_CALC_OPTION_PRICE as int))
        .push(int_text(1))
        .push(int_text(req_id as int))
}

/// `cancel_calculate_option_price_message` sends `cancel_calculate_option_price_fields`, each followed by NUL, in that order.
pub proof fn law_cancel_calculate_option_price_fields(req_id: i32)
    ensures
        cancel_calculate_option_price_text(req_id) == join_fields(cancel_calculate_option_price_fields(req_id)),
{
    let g0 = Seq::<Seq<char>>::empty();
    lemma_join_push(g0, int_text(CANCEL_CALC_OPTION_PRICE as int));
    let g1 = g0.push(int_text(CANCEL_CALC_OPTION_PRICE as int));
    lemma_join_push(g1, int_text(1));
    let g2 = g1.push(int_text(1));
    lemma_join_push(g2, int_text(req_id as int));
    let g3 = g2.push(int_text(req_id as int));
    assert(join_fields(Seq::<Seq<char>>::empty()) == Seq::<char>::empty());
    assert(cancel_calculate_option_price_text(req_id) =~= join_fields(cancel_calculate_option_price_fields(req_id)));
}

/// The text of the message that `cancel_calculate_implied_volatility_message` sends.
pub open spec fn cancel_calculate_implied_volatility_text(req_id: i32) -> Seq<char> {
    field_spec(int_text(CANCEL_CALC_IMPLIED_VOLAT as int)) +
        field_spec(int_text(1)) +
        field_spec(int_text(req_id as int))
}

/// The fields of the message that `cancel_calculate_implied_volatility_message` sends, in the order they are sent.
pub open spec fn cancel_calculate_implied_volatility_fields(req_id: i32) -> Seq<Seq<char>> {
    Seq::<Seq<char>>::empty()
        .push(int_text(CANCEL_CALC_IMPLIED_VOLAT as int))
        .push(int_text(1))
        .push(int_text(req_id as int))
}

/// `cancel_calculate_implied_volatility_message` sends `cancel_calculate_implied_volatility_fields`, each followed by NUL, in that order.
pub proof fn law_cancel_calculate_implied_volatility_fields(req_id: i32)
    ensures
        cancel_calculate_implied_volatility_text(req_id) == join_fields(cancel_calculate_implied_volatility_fields(req_id)),
{
    let g0 = Seq::<Seq<char>>::empty();
    lemma_join_push(g0, int_text(CANCEL_CALC_IMPLIED_VOLAT as int));
    let g1 = g0.push(int_text(CANCEL_CALC_IMPLIED_VOLAT as int));
    lemma_join_push(g1, int_text(1));
    let g2 = g1.push(int_text(1));
    lemma_join_push(g2, int_text(req_id as int));
    let g3 = g2.push(int_text(req_id as int));
    assert(join_fields(Seq::<Seq<char>>::empty()) == Seq::<char>::empty());
    assert(cancel_calculate_implied_volatility_text(req_id) =~= join_fields(cancel_calculate_implied_volatility_fields(req_id)));
}

/// The text of the message that `cancel_order_message` sends.
pub open spec fn cancel_order_text(order_id: i32) -> Seq<char> {
    field_spec(int_text(CANCEL_ORDER as int)) +
        field_spec(int_text(2)) +
        field_spec(int_text(order_id as int))
}

/// The fields of the message that `cancel_order_message` sends, in the order they are sent.
pub open spec fn cancel_order_fields(order_id: i32) -> Seq<Seq<char>> {
    Seq::<Seq<char>>::empty()
        .push(int_text(CANCEL_ORDER as int))
        .push(int_text(2))
        .push(int_text(order_id as int))
}

/// `cancel_order_message` sends `cancel_order_fields`, each followed by NUL, in that order.
pub proof fn law_cancel_order_fields(order_id: i32)
    ensures
        cancel_order_text(order_id) == join_fields(cancel_order_fields(order_id)),
{
    let g0 = Seq::<Seq<char>>::empty();
    lemma_join_push(g0, int_text(CANCEL_ORDER as int));
    let g1 = g0.push(int_text(CANCEL_ORDER as int));
    lemma_join_push(g1, int_text(2));
    let g2 = g1.push(int_text(2));
    lemma_join_push(g2, int_text(order_id as int));
    let g3 = g2.push(int_text(order_id as int));
    assert(join_fields(Seq::<Seq<char>>::empty()) == Seq::<char>::empty());
    assert(cancel_order_text(order_id) =~= join_fields(cancel_order_fields(order_id)));
}

/// The text of the message that `req_open_orders_message` sends.
pub open spec fn req_open_orders_text() -> Seq<char> {
    field_spec(int_text(REQ_OPEN_ORDERS as int)) +
        field_spec(int_text(1))
}

/// The fields of the message that `req_open_orders_message` sends, in the order they are sent.
pub open spec fn req_open_orders_fields() -> Seq<Seq<char>> {
    Seq::<Seq<char>>::empty()
        .push(int_text(REQ_OPEN_ORDERS as int))
        .push(int_text(1))
}

/// `req_open_orders_message` sends `req_open_orders_fields`, each followed by NUL, in that order.
pub proof fn law_req_open_orders_fields()
    ensures
        req_open_orders_text() == join_fields(req_open_orders_fields()),
{
    let g0 = Seq::<Seq<char>>::empty();
    lemma_join_push(g0, int_text(REQ_OPEN_ORDERS as int));
    let g1 = g0.push(int_text(REQ_OPEN_ORDERS as int));
    lemma_join_push(g1, int_text(1));
    let g2 = g1.push(int_text(1));
    assert(join_fields(Seq::<Seq<char>>::empty()) == Seq::<char>::empty());
    assert(req_open_orders_text() =~= join_fields(req_open_orders_fields()));
}

/// The text of the message that `req_auto_open_orders_message` sends.
pub open spec fn req_auto_open_orders_text(b_auto_bind: bool) -> Seq<char> {
    field_spec(int_text(REQ_AUTO_OPEN_ORDERS as int)) +
        field_spec(int_text(1)) +
        field_spec(bool_field_text(b_auto_bind))
}

/// The fields of the message that `req_auto_open_orders_message` sends, in the order they are sent.
pub open spec fn req_auto_open_orders_fields(b_auto_bind: bool) -> Seq<Seq<char>> {
    Seq::<Seq<char>>::empty()
        .push(int_text(REQ_AUTO_OPEN_ORDERS as int))
        .push(int_text(1))
        .push(bool_field_text(b_auto_bind))
}

/// `req_auto_open_orders_message` sends `req_auto_open_orders_fields`, each followed by NUL, in that order.
pub proof fn law_req_auto_open_orders_fields(b_auto_bind: bool)
    ensures
        req_auto_open_orders_text(b_auto_bind) == join_fields(req_auto_open_orders_fields(b_auto_bind)),
{
    let g0 = Seq::<Seq<char>>::empty();
    lemma_join_push(g0, int_text(REQ_AUTO_OPEN_ORDERS as int));
    let g1 = g0.push(int_text(REQ_AUTO_OPEN_ORDERS as int));
    lemma_join_push(g1, int_text(1));
    let g2 = g1.push(int_text(1));
    lemma_join_push(g2, bool_field_text(b_auto_bind));
    let g3 = g2.push(bool_field_text(b_auto_bind));
    assert(join_fields(Seq::<Seq<char>>::empty()) == Seq::<char>::empty());
    assert(req_auto_open_orders_text(b_auto_bind) =~= join_fields(req_auto_open_orders_fields(b_auto_bind)));
}

/// The text of the message that `req_all_open_orders_message` sends.
pub open spec fn req_all_open_orders_text() -> Seq<char> {
    field_spec(int_text(REQ_ALL_OPEN_ORDERS as int)) +
        field_spec(int_text(1))
}

/// The fields of the message that `req_all_open_orders_message` sends, in the order they are sent.
pub open spec fn req_all_open_orders_fields() -> Seq<Seq<char>> {
    Seq::<Seq<char>>::empty()
        .push(int_text(REQ_ALL_OPEN_ORDERS as int))
        .push(int_text(1))
}

/// `req_all_open_orders_message` sends `req_all_open_orders_fields`, each followed by NUL, in that order.
pub proof fn law_req_all_open_orders_fields()
    ensures
        req_all_open_orders_text() == join_fields(req_all_open_orders_fields()),
{
    let g0 = Seq::<Seq<char>>::empty();
    lemma_join_push(g0, int_text(REQ_ALL_OPEN_ORDERS as int));
    let g1 = g0.push(int_text(REQ_ALL_OPEN_ORDERS as int));
    lemma_join_push(g1, int_text(1));
    let g2 = g1.push(int_text(1));
    assert(join_fields(Seq::<Seq<char>>::empty()) == Seq::<char>::empty());
    assert(req_all_open_orders_text() =~= join_fields(req_all_open_orders_fields()));
}

/// The text of the message that `req_global_cancel_message` sends.
pub open spec fn req_global_cancel_text() -> Seq<char> {
    field_spec(int_text(REQ_GLOBAL_CANCEL as int)) +
        field_spec(int_text(1))
}

/// The fields of the message that `req_global_cancel_message` sends, in the order they are sent.
pub open spec fn req_global_cancel_fields() -> Seq<Seq<char>> {
    Seq::<Seq<char>>::empty()
        .push(int_text(REQ_GLOBAL_CANCEL as int))
        .push(int_text(1))
}

/// `req_global_cancel_message` sends `req_global_cancel_fields`, each followed by NUL, in that order.
pub proof fn law_req_global_cancel_fields()
    ensures
        req_global_cancel_text() == join_fields(req_global_cancel_fields()),
{
    let g0 = Seq::<Seq<char>>::empty();
    lemma_join_push(g0, int_text(REQ_GLOBAL_CANCEL as int));
    let g1 = g0.push(int_text(REQ_GLOBAL_CANCEL as int));
    lemma_join_push(g1, int_text(1));
    let g2 = g1.push(int_text(1));
    assert(join_fields(Seq::<Seq<char>>::empty()) == Seq::<char>::empty());
    assert(req_global_cancel_text() =~= join_fields(req_global_cancel_fields()));
}

/// The text of the message that `req_ids_message` sends.
pub open spec fn req_ids_text(num_ids: i32) -> Seq<char> {
    field_spec(int_text(REQ_IDS as int)) +
        field_spec(int_text(1)) +
        field_spec(int_text(num_ids as int))
}

/// The fields of the message that `req_ids_message` sends, in the order they are sent.
pub open spec fn req_ids_fields(num_ids: i32) -> Seq<Seq<char>> {
    Seq::<Seq<char>>::empty()
        .push(int_text(REQ_IDS as int))
        .push(int_text(1))
        .push(int_text(num_ids as int))
}

/// `req_ids_message` sends `req_ids_fields`, each followed by NUL, in that order.
pub proof fn law_req_ids_fields(num_ids: i32)
    ensures
        req_ids_text(num_ids) == join_fields(req_ids_fields(num_ids)),
{
    let g0 = Seq::<Seq<char>>::empty();
    lemma_join_push(g0, int_text(REQ_IDS as int));
    let g1 = g0.push(int_text(REQ_IDS as int));
    lemma_join_push(g1, int_text(1));
    let g2 = g1.push(int_text(1));
    lemma_join_push(g2, int_text(num_ids as int));
    let g3 = g2.push(int_text(num_ids as int));
    assert(join_fields(Seq::<Seq<char>>::empty()) == Seq::<char>::empty());
    assert(req_ids_text(num_ids) =~= join_fields(req_ids_fields(num_ids)));
}

/// The text of the message that `req_account_updates_message` sends.
pub open spec fn req_account_updates_text(subscribe: bool, acct_code: &str) -> Seq<char> {
    field_spec(int_text(REQ_ACCT_DATA as int)) +
        field_spec(int_text(2)) +
        field_spec(bool_field_text(subscribe)) +
        field_spec(acct_code@)
}

/// The fields of the message that `req_account_updates_message` sends, in the order they are sent.
pub open spec fn req_account_updates_fields(subscribe: bool, acct_code: &str) -> Seq<Seq<char>> {
    Seq::<Seq<char>>::empty()
        .push(int_text(REQ_ACCT_DATA as int))
        .push(int_text(2))
        .push(bool_field_text(subscribe))
        .push(acct_code@)
}

/// `req_account_updates_message` sends `req_account_updates_fields`, each followed by NUL, in that order.
pub proof fn law_req_account_updates_fields(subscribe: bool, acct_code: &str)
    ensures
        req_account_updates_text(subscribe, acct_code) == join_fields(req_account_updates_fields(subscribe, acct_code)),
{
    let g0 = Seq::<Seq<char>>::empty();
    lemma_join_push(g0, int_text(REQ_ACCT_DATA as int));
    let g1 = g0.push(int_text(REQ_ACCT_DATA as int));
    lemma_join_push(g1, int_text(2));
    let g2 = g1.push(int_text(2));
    lemma_join_push(g2, bool_field_text(subscribe));
    let g3 = g2.push(bool_field_text(subscribe));
    lemma_join_push(g3, acct_code@);
    let g4 = g3.push(acct_code@);
    assert(join_fields(Seq::<Seq<char>>::empty()) == Seq::<char>::empty());
    assert(req_account_updates_text(subscribe, acct_code) =~= join_fields(req_account_updates_fields(subscribe, acct_code)));
}

/// The text of the message that `req_account_summary_message` sends.
pub open spec fn req_account_summary_text(req_id: i32, group_name: &str, tags: &str) -> Seq<char> {
    field_spec(int_text(REQ_ACCOUNT_SUMMARY as int)) +
        field_spec(int_text(2)) +
        field_spec(int_text(req_id as int)) +
        field_spec(group_name@) +
        field_spec(tags@)
}

/// The fields of the message that `req_account_summary_message` sends, in the order they are sent.
pub open spec fn req_account_summary_fields(req_id: i32, group_name: &str, tags: &str) -> Seq<Seq<char>> {
    Seq::<Seq<char>>::empty()
        .push(int_text(REQ_ACCOUNT_SUMMARY as int))
        .push(int_text(2))
        .push(int_text(req_id as int))
        .push(group_name@)
        .push(tags@)
}

/// `req_account_summary_message` sends `req_account_summary_fields`, each followed by NUL, in that order.
pub proof fn law_req_account_summary_fields(req_id: i32, group_name: &str, tags: &str)
    ensures
        req_account_summary_text(req_id, group_name, tags) == join_fields(req_account_summary_fields(req_id, group_name, tags)),
{
    let g0 = Seq::<Seq<char>>::empty();
    lemma_join_push(g0, int_text(REQ_ACCOUNT_SUMMARY as int));
    let g1 = g0.push(int_text(REQ_ACCOUNT_SUMMARY as int));
    lemma_join_push(g1, int_text(2));
    let g2 = g1.push(int_text(2));
    lemma_join_push(g2, int_text(req_id as int));
    let g3 = g2.push(int_text(req_id as int));
    lemma_join_push(g3, group_name@);
    let g4 = g3.push(group_name@);
    lemma_join_push(g4, tags@);
    let g5 = g4.push(tags@);
    assert(join_fields(Seq::<Seq<char>>::empty()) == Seq::<char>::empty());
    assert(req_account_summary_text(req_id, group_name, tags) =~= join_fields(req_account_summary_fields(req_id, group_name, tags)));
}

/// The text of the message that `cancel_account_summary_message` sends.
pub open spec fn cancel_account_summary_text(req_id: i32) -> Seq<char> {
    field_spec(int_text(CANCEL_ACCOUNT_SUMMARY as int)) +
        field_spec(int_text(1)) +
        field_spec(int_text(req_id as int))
}

/// The fields of the message that `cancel_account_summary_message` sends, in the order they are sent.
pub open spec fn cancel_account_summary_fields(req_id: i32) -> Seq<Seq<char>> {
    Seq::<Seq<char>>::empty()
        .push(int_text(CANCEL_ACCOUNT_SUMMARY as int))
        .push(int_text(1))
        .push(int_text(req_id as int))
}

/// `cancel_account_summary_message` sends `cancel_account_summary_fields`, each followed by NUL, in that order.
pub proof fn law_cancel_account_summary_fields(req_id: i32)
    ensures
        cancel_account_summary_text(req_id) == join_fields(cancel_account_summary_fields(req_id)),
{
    let g0 = Seq::<Seq<char>>::empty();
    lemma_join_push(g0, int_text(CANCEL_ACCOUNT_SUMMARY as int));
    let g1 = g0.push(int_text(CANCEL_ACCOUNT_SUMMARY as int));
    lemma_join_push(g1, int_text(1));
    let g2 = g1.push(int_text(1));
    lemma_join_push(g2, int_text(req_id as int));
    let g3 = g2.push(int_text(req_id as int));
    assert(join_fields(Seq::<Seq<char>>::empty()) == Seq::<char>::empty());
    assert(cancel_account_summary_text(req_id) =~= join_fields(cancel_account_summary_fields(req_id)));
}

/// The text of the message that `req_positions_message` sends.
pub open spec fn req_positions_text() -> Seq<char> {
    field_spec(int_text(REQ_POSITIONS as int)) +
        field_spec(int_text(1))
}

/// The fields of the message that `req_positions_message` sends, in the order they are sent.
pub open spec fn req_positions_fields() -> Seq<Seq<char>> {
    Seq::<Seq<char>>::empty()
        .push(int_text(REQ_POSITIONS as int))
        .push(int_text(1))
}

/// `req_positions_message` sends `req_positions_fields`, each followed by NUL, in that order.
pub proof fn law_req_positions_fields()
    ensures
        req_positions_text() == join_fields(req_positions_fields()),
{
    let g0 = Seq::<Seq<char>>::empty();
    lemma_join_push(g0, int_text(REQ_POSITIONS as int));
    let g1 = g0.push(int_text(REQ_POSITIONS as int));
    lemma_join_push(g1, int_text(1));
    let g2 = g1.push(int_text(1));
    assert(join_fields(Seq::<Seq<char>>::empty()) == Seq::<char>::empty());
    assert(req_positions_text() =~= join_fields(req_positions_fields()));
}

/// The text of the message that `cancel_positions_message` sends.
pub open spec fn cancel_positions_text() -> Seq<char> {
    field_spec(int_text(CANCEL_POSITIONS as int)) +
        field_spec(int_text(1))
}

/// The fields of the message that `cancel_positions_message` sends, in the order they are sent.
pub open spec fn cancel_positions_fields() -> Seq<Seq<char>> {
    Seq::<Seq<char>>::empty()
        .push(int_text(CANCEL_POSITIONS as int))
        .push(int_text(1))
}

/// `cancel_positions_message` sends `cancel_positions_fields`, each followed by NUL, in that order.
pub proof fn law_cancel_positions_fields()
    ensures
        cancel_positions_text() == join_fields(cancel_positions_fields()),
{
    let g0 = Seq::<Seq<char>>::empty();
    lemma_join_push(g0, int_text(CANCEL_POSITIONS as int));
    let g1 = g0.push(int_text(CANCEL_POSITIONS as int));
    lemma_join_push(g1, int_text(1));
    let g2 = g1.push(int_text(1));
    assert(join_fields(Seq::<Seq<char>>::empty()) == Seq::<char>::empty());
    assert(cancel_positions_text() =~= join_fields(cancel_positions_fields()));
}

/// The text of the message that `req_positions_multi_message` sends.
pub open spec fn req_positions_multi_text(req_id: i32, account: &str, model_code: &str) -> Seq<char> {
    field_spec(int_text(REQ_POSITIONS_MULTI as int)) +
        field_spec(int_text(1)) +
        field_spec(int_text(req_id as int)) +
        field_spec(account@) +
        field_spec(model_code@)
}

/// The fields of the message that `req_positions_multi_message` sends, in the order they are sent.
pub open spec fn req_positions_multi_fields(req_id: i32, account: &str, model_code: &str) -> Seq<Seq<char>> {
    Seq::<Seq<char>>::empty()
        .push(int_text(REQ_POSITIONS_MULTI as int))
        .push(int_text(1))
        .push(int_text(req_id as int))
        .push(account@)
        .push(model_code@)
}

/// `req_positions_multi_message` sends `req_positions_multi_fields`, each followed by NUL, in that order.
pub proof fn law_req_positions_multi_fields(req_id: i32, account: &str, model_code: &str)
    ensures
        req_positions_multi_text(req_id, account, model_code) == join_fields(req_positions_multi_fields(req_id, account, model_code)),
{
    let g0 = Seq::<Seq<char>>::empty();
    lemma_join_push(g0, int_text(REQ_POSITIONS_MULTI as int));
    let g1 = g0.push(int_text(REQ_POSITIONS_MULTI as int));
    lemma_join_push(g1, int_text(1));
    let g2 = g1.push(int_text(1));
    lemma_join_push(g2, int_text(req_id as int));
    let g3 = g2.push(int_text(req_id as int));
    lemma_join_push(g3, account@);
    let g4 = g3.push(account@);
    lemma_join_push(g4, model_code@);
    let g5 = g4.push(model_code@);
    assert(join_fields(Seq::<Seq<char>>::empty()) == Seq::<char>::empty());
    assert(req_positions_multi_text(req_id, account, model_code) =~= join_fields(req_positions_multi_fields(req_id, account, model_code)));
}

/// The text of the message that `cancel_positions_multi_message` sends.
pub open spec fn cancel_positions_multi_text(req_id: i32) -> Seq<char> {
    field_spec(int_text(CANCEL_POSITIONS_MULTI as int)) +
        field_spec(int_text(1)) +
        field_spec(int_text(req_id as int))
}

/// The fields of the message that `cancel_positions_multi_message` sends, in the order they are sent.
pub open spec fn cancel_positions_multi_fields(req_id: i32) -> Seq<Seq<char>> {
    Seq::<Seq<char>>::empty()
        .push(int_text(CANCEL_POSITIONS_MULTI as int))
        .push(int_text(1))
        .push(int_text(req_id as int))
}

/// `cancel_positions_multi_message` sends `cancel_positions_multi_fields`, each followed by NUL, in that order.
pub proof fn law_cancel_positions_multi_fields(req_id: i32)
    ensures
        cancel_positions_multi_text(req_id) == join_fields(cancel_positions_multi_fields(req_id)),
{
    let g0 = Seq::<Seq<char>>::empty();
    lemma_join_push(g0, int_text(CANCEL_POSITIONS_MULTI as int));
    let g1 = g0.push(int_text(CANCEL_POSITIONS_MULTI as int));
    lemma_join_push(g1, int_text(1));
    let g2 = g1.push(int_text(1));
    lemma_join_push(g2, int_text(req_id as int));
    let g3 = g2.push(int_text(req_id as int));
    assert(join_fields(Seq::<Seq<char>>::empty()) == Seq::<char>::empty());
    assert(cancel_positions_multi_text(req_id) =~= join_fields(cancel_positions_multi_fields(req_id)));
}

/// The text of the message that `req_account_updates_multi_message` sends.
pub open spec fn req_account_updates_multi_text(req_id: i32, account: &str, model_code: &str, ledger_and_nlv: bool) -> Seq<char> {
    field_spec(int_text(REQ_ACCOUNT_UPDATES_MULTI as int)) +
        field_spec(int_text(1)) +
        field_spec(int_text(req_id as int)) +
        field_spec(account@) +
        field_spec(model_code@) +
        field_spec(bool_field_text(ledger_and_nlv))
}

/// The fields of the message that `req_account_updates_multi_message` sends, in the order they are sent.
pub open spec fn req_account_updates_multi_fields(req_id: i32, account: &str, model_code: &str, ledger_and_nlv: bool) -> Seq<Seq<char>> {
    Seq::<Seq<char>>::empty()
        .push(int_text(REQ_ACCOUNT_UPDATES_MULTI as int))
        .push(int_text(1))
        .push(int_text(req_id as int))
        .push(account@)
        .push(model_code@)
        .push(bool_field_text(ledger_and_nlv))
}

/// `req_account_updates_multi_message` sends `req_account_updates_multi_fields`, each followed by NUL, in that order.
pub proof fn law_req_account_updates_multi_fields(req_id: i32, account: &str, model_code: &str, ledger_and_nlv: bool)
    ensures
        req_account_updates_multi_text(req_id, account, model_code, ledger_and_nlv) == join_fields(req_account_updates_multi_fields(req_id, account, model_code, ledger_and_nlv)),
{
    let g0 = Seq::<Seq<char>>::empty();
    lemma_join_push(g0, int_text(REQ_ACCOUNT_UPDATES_MULTI as int));
    let g1 = g0.push(int_text(REQ_ACCOUNT_UPDATES_MULTI as int));
    lemma_join_push(g1, int_text(1));
    let g2 = g1.push(int_text(1));
    lemma_join_push(g2, int_text(req_id as int));
    let g3 = g2.push(int_text(req_id as int));
    lemma_join_push(g3, account@);
    let g4 = g3.push(account@);
    lemma_join_push(g4, model_code@);
    let g5 = g4.push(model_code@);
    lemma_join_push(g5, bool_field_text(ledger_and_nlv));
    let g6 = g5.push(bool_field_text(ledger_and_nlv));
    assert(join_fields(Seq::<Seq<char>>::empty()) == Seq::<char>::empty());
    assert(req_account_updates_multi_text(req_id, account, model_code, ledger_and_nlv) =~= join_fields(req_account_updates_multi_fields(req_id, account, model_code, ledger_and_nlv)));
}

/// The text of the message that `cancel_account_updates_multi_message` sends.
pub open spec fn cancel_account_updates_multi_text(req_id: i32) -> Seq<char> {
    field_spec(int_text(CANCEL_ACCOUNT_UPDATES_MULTI as int)) +
        field_spec(int_text(1)) +
        field_spec(int_text(req_id as int))
}

/// The fields of the message that `cancel_account_updates_multi_message` sends, in the order they are sent.
pub open spec fn cancel_account_updates_multi_fields(req_id: i32) -> Seq<Seq<char>> {
    Seq::<Seq<char>>::empty()
        .push(int_text(CANCEL_ACCOUNT_UPDATES_MULTI as int))
        .push(int_text(1))
        .push(int_text(req_id as int))
}

/// `cancel_account_updates_multi_message` sends `cancel_account_updates_multi_fields`, each followed by NUL, in that order.
pub proof fn law_cancel_account_updates_multi_fields(req_id: i32)
    ensures
        cancel_account_updates_multi_text(req_id) == join_fields(cancel_account_updates_multi_fields(req_id)),
{
    let g0 = Seq::<Seq<char>>::empty();
    lemma_join_push(g0, int_text(CANCEL_ACCOUNT_UPDATES_MULTI as int));
    let g1 = g0.push(int_text(CANCEL_ACCOUNT_UPDATES_MULTI as int));
    lemma_join_push(g1, int_text(1));
    let g2 = g1.push(int_text(1));
    lemma_join_push(g2, int_text(req_id as int));
    let g3 = g2.push(int_text(req_id as int));
    assert(join_fields(Seq::<Seq<char>>::empty()) == Seq::<char>::empty());
    assert(cancel_account_updates_multi_text(req_id) =~= join_fields(cancel_account_updates_multi_fields(req_id)));
}

/// The text of the message that `req_pnl_message` sends.
pub open spec fn req_pnl_text(req_id: i32, account: &str, model_code: &str) -> Seq<char> {
    field_spec(int_text(REQ_PNL as int)) +
        field_spec(int_text(req_id as int)) +
        field_spec(account@) +
        field_spec(model_code@)
}

/// The fields of the message that `req_pnl_message` sends, in the order they are sent.
pub open spec fn req_pnl_fields(req_id: i32, account: &str, model_code: &str) -> Seq<Seq<char>> {
    Seq::<Seq<char>>::empty()
        .push(int_text(REQ_PNL as int))
        .push(int_text(req_id as int))
        .push(account@)
        .push(model_code@)
}

/// `req_pnl_message` sends `req_pnl_fields`, each followed by NUL, in that order.
pub proof fn law_req_pnl_fields(req_id: i32, account: &str, model_code: &str)
    ensures
        req_pnl_text(req_id, account, model_code) == join_fields(req_pnl_fields(req_id, account, model_code)),
{
    let g0 = Seq::<Seq<char>>::empty();
    lemma_join_push(g0, int_text(REQ_PNL as int));
    let g1 = g0.push(int_text(REQ_PNL as int));
    lemma_join_push(g1, int_text(req_id as int));
    let g2 = g1.push(int_text(req_id as int));
    lemma_join_push(g2, account@);
    let g3 = g2.push(account@);
    lemma_join_push(g3, model_code@);
    let g4 = g3.push(model_code@);
    assert(join_fields(Seq::<Seq<char>>::empty()) == Seq::<char>::empty());
    assert(req_pnl_text(req_id, account, model_code) =~= join_fields(req_pnl_fields(req_id, account, model_code)));
}

/// The text of the message that `cancel_pnl_message` sends.
pub open spec fn cancel_pnl_text(req_id: i32) -> Seq<char> {
    field_spec(int_text(CANCEL_PNL as int)) +
        field_spec(int_text(req_id as int))
}

/// The fields of the message that `cancel_pnl_message` sends, in the order they are sent.
pub open spec fn cancel_pnl_fields(req_id: i32) -> Seq<Seq<char>> {
    Seq::<Seq<char>>::empty()
        .push(int_text(CANCEL_PNL as int))
        .push(int_text(req_id as int))
}

/// `cancel_pnl_message` sends `cancel_pnl_fields`, each followed by NUL, in that order.
pub proof fn law_cancel_pnl_fields(req_id: i32)
    ensures
        cancel_pnl_text(req_id) == join_fields(cancel_pnl_fields(req_id)),
{
    let g0 = Seq::<Seq<char>>::empty();
    lemma_join_push(g0, int_text(CANCEL_PNL as int));
    let g1 = g0.push(int_text(CANCEL_PNL as int));
    lemma_join_push(g1, int_text(req_id as int));
    let g2 = g1.push(int_text(req_id as int));
    assert(join_fields(Seq::<Seq<char>>::empty()) == Seq::<char>::empty());
    assert(cancel_pnl_text(req_id) =~= join_fields(cancel_pnl_fields(req_id)));
}

/// The text of the message that `req_pnl_single_message` sends.
pub open spec fn req_pnl_single_text(req_id: i32, account: &str, model_code: &str, con_id: i32) -> Seq<char> {
    field_spec(int_text(REQ_PNL_SINGLE as int)) +
        field_spec(int_text(req_id as int)) +
        field_spec(account@) +
        field_spec(model_code@) +
        field_spec(int_text(con_id as int))
}

/// The fields of the message that `req_pnl_single_message` sends, in the order they are sent.
pub open spec fn req_pnl_single_fields(req_id: i32, account: &str, model_code: &str, con_id: i32) -> Seq<Seq<char>> {
    Seq::<Seq<char>>::empty()
        .push(int_text(REQ_PNL_SINGLE as int))
        .push(int_text(req_id as int))
        .push(account@)
        .push(model_code@)
        .push(int_text(con_id as int))
}

/// `req_pnl_single_message` sends `req_pnl_single_fields`, each followed by NUL, in that order.
pub proof fn law_req_pnl_single_fields(req_id: i32, account: &str, model_code: &str, con_id: i32)
    ensures
        req_pnl_single_text(req_id, account, model_code, con_id) == join_fields(req_pnl_single_fields(req_id, account, model_code, con_id)),
{
    let g0 = Seq::<Seq<char>>::empty();
    lemma_join_push(g0, int_text(REQ_PNL_SINGLE as int));
    let g1 = g0.push(int_text(REQ_PNL_SINGLE as int));
    lemma_join_push(g1, int_text(req_id as int));
    let g2 = g1.push(int_text(req_id as int));
    lemma_join_push(g2, account@);
    let g3 = g2.push(account@);
    lemma_join_push(g3, model_code@);
    let g4 = g3.push(model_code@);
    lemma_join_push(g4, int_text(con_id as int));
    let g5 = g4.push(int_text(con_id as int));
    assert(join_fields(Seq::<Seq<char>>::empty()) == Seq::<char>::empty());
    assert(req_pnl_single_text(req_id, account, model_code, con_id) =~= join_fields(req_pnl_single_fields(req_id, account, model_code, con_id)));
}

/// The text of the message that `cancel_pnl_single_message` sends.
pub open spec fn cancel_pnl_single_text(req_id: i32) -> Seq<char> {
    field_spec(int_text(CANCEL_PNL_SINGLE as int)) +
        field_spec(int_text(req_id as int))
}

/// The fields of the message that `cancel_pnl_single_message` sends, in the order they are sent.
pub open spec fn cancel_pnl_single_fields(req_id: i32) -> Seq<Seq<char>> {
    Seq::<Seq<char>>::empty()
        .push(int_text(CANCEL_PNL_SINGLE as int))
        .push(int_text(req_id as int))
}

/// `cancel_pnl_single_message` sends `cancel_pnl_single_fields`, each followed by NUL, in that order.
pub proof fn law_cancel_pnl_single_fields(req_id: i32)
    ensures
        cancel_pnl_single_text(req_id) == join_fields(cancel_pnl_single_fields(req_id)),
{
    let g0 = Seq::<Seq<char>>::empty();
    lemma_join_push(g0, int_text(CANCEL_PNL_SINGLE as int));
    let g1 = g0.push(int_text(CANCEL_PNL_SINGLE as int));
    lemma_join_push(g1, int_text(req_id as int));
    let g2 = g1.push(int_text(req_id as int));
    assert(join_fields(Seq::<Seq<char>>::empty()) == Seq::<char>::empty());
    assert(cancel_pnl_single_text(req_id) =~= join_fields(cancel_pnl_single_fields(req_id)));
}

/// The text of the message that `req_mkt_depth_exchanges_message` sends.
pub open spec fn req_mkt_depth_exchanges_text() -> Seq<char> {
    field_spec(int_text(REQ_MKT_DEPTH_EXCHANGES as int))
}

/// The fields of the message that `req_mkt_depth_exchanges_message` sends, in the order they are sent.
pub open spec fn req_mkt_depth_exchanges_fields() -> Seq<Seq<char>> {
    Seq::<Seq<char>>::empty()
        .push(int_text(REQ_MKT_DEPTH_EXCHANGES as int))
}

/// `req_mkt_depth_exchanges_message` sends `req_mkt_depth_exchanges_fields`, each followed by NUL, in that order.
pub proof fn law_req_mkt_depth_exchanges_fields()
    ensures
        req_mkt_depth_exchanges_text() == join_fields(req_mkt_depth_exchanges_fields()),
{
    let g0 = Seq::<Seq<char>>::empty();
    lemma_join_push(g0, int_text(REQ_MKT_DEPTH_EXCHANGES as int));
    let g1 = g0.push(int_text(REQ_MKT_DEPTH_EXCHANGES as int));
    assert(join_fields(Seq::<Seq<char>>::empty()) == Seq::<char>::empty());
    assert(req_mkt_depth_exchanges_text() =~= join_fields(req_mkt_depth_exchanges_fields()));
}

/// The text of the message that `req_news_bulletins_message` sends.
pub open spec fn req_news_bulletins_text(all_msgs: bool) -> Seq<char> {
    field_spec(int_text(REQ_NEWS_BULLETINS as int)) +
        field_spec(int_text(1)) +
        field_spec(bool_field_text(all_msgs))
}

/// The fields of the message that `req_news_bulletins_message` sends, in the order they are sent.
pub open spec fn req_news_bulletins_fields(all_msgs: bool) -> Seq<Seq<char>> {
    Seq::<Seq<char>>::empty()
        .push(int_text(REQ_NEWS_BULLETINS as int))
        .push(int_text(1))
        .push(bool_field_text(all_msgs))
}

/// `req_news_bulletins_message` sends `req_news_bulletins_fields`, each followed by NUL, in that order.
pub proof fn law_req_news_bulletins_fields(all_msgs: bool)
    ensures
        req_news_bulletins_text(all_msgs) == join_fields(req_news_bulletins_fields(all_msgs)),
{
    let g0 = Seq::<Seq<char>>::empty();
    lemma_join_push(g0, int_text(REQ_NEWS_BULLETINS as int));
    let g1 = g0.push(int_text(REQ_NEWS_BULLETINS as int));
    lemma_join_push(g1, int_text(1));
    let g2 = g1.push(int_text(1));
    lemma_join_push(g2, bool_field_text(all_msgs));
    let g3 = g2.push(bool_field_text(all_msgs));
    assert(join_fields(Seq::<Seq<char>>::empty()) == Seq::<char>::empty());
    assert(req_news_bulletins_text(all_msgs) =~= join_fields(req_news_bulletins_fields(all_msgs)));
}

/// The text of the message that `cancel_news_bulletins_message` sends.
pub open spec fn cancel_news_bulletins_text() -> Seq<char> {
    field_spec(int_text(CANCEL_NEWS_BULLETINS as int)) +
        field_spec(int_text(1))
}

/// The fields of the message that `cancel_news_bulletins_message` sends, in the order they are sent.
pub open spec fn cancel_news_bulletins_fields() -> Seq<Seq<char>> {
    Seq::<Seq<char>>::empty()
        .push(int_text(CANCEL_NEWS_BULLETINS as int))
        .push(int_text(1))
}

/// `cancel_news_bulletins_message` sends `cancel_news_bulletins_fields`, each followed by NUL, in that order.
pub proof fn law_cancel_news_bulletins_fields()
    ensures
        cancel_news_bulletins_text() == join_fields(cancel_news_bulletins_fields()),
{
    let g0 = Seq::<Seq<char>>::empty();
    lemma_join_push(g0, int_text(CANCEL_NEWS_BULLETINS as int));
    let g1 = g0.push(int_text(CANCEL_NEWS_BULLETINS as int));
    lemma_join_push(g1, int_text(1));
    let g2 = g1.push(int_text(1));
    assert(join_fields(Seq::<Seq<char>>::empty()) == Seq::<char>::empty());
    assert(cancel_news_bulletins_text() =~= join_fields(cancel_news_bulletins_fields()));
}

/// The text of the message that `cancel_historical_data_message` sends.
pub open spec fn cancel_historical_data_text(req_id: i32) -> Seq<char> {
    field_spec(int_text(CANCEL_HISTORICAL_DATA as int)) +
        field_spec(int_text(1)) +
        field_spec(int_text(req_id as int))
}

/// The fields of the message that `cancel_historical_data_message` sends, in the order they are sent.
pub open spec fn cancel_historical_data_fields(req_id: i32) -> Seq<Seq<char>> {
    Seq::<Seq<char>>::empty()
        .push(int_text(CANCEL_HISTORICAL_DATA as int))
        .push(int_text(1))
        .push(int_text(req_id as int))
}

/// `cancel_historical_data_message` sends `cancel_historical_data_fields`, each followed by NUL, in that order.
pub proof fn law_cancel_historical_data_fields(req_id: i32)
    ensures
        cancel_historical_data_text(req_id) == join_fields(cancel_historical_data_fields(req_id)),
{
    let g0 = Seq::<Seq<char>>::empty();
    lemma_join_push(g0, int_text(CANCEL_HISTORICAL_DATA as int));
    let g1 = g0.push(int_text(CANCEL_HISTORICAL_DATA as int));
    lemma_join_push(g1, int_text(1));
    let g2 = g1.push(int_text(1));
    lemma_join_push(g2, int_text(req_id as int));
    let g3 = g2.push(int_text(req_id as int));
    assert(join_fields(Seq::<Seq<char>>::empty()) == Seq::<char>::empty());
    assert(cancel_historical_data_text(req_id) =~= join_fields(cancel_historical_data_fields(req_id)));
}

/// The text of the message that `cancel_head_time_stamp_message` sends.
pub open spec fn cancel_head_time_stamp_text(req_id: i32) -> Seq<char> {
    field_spec(int_text(CANCEL_HEAD_TIMESTAMP as int)) +
        field_spec(int_text(req_id as int))
}

/// The fields of the message that `cancel_head_time_stamp_message` sends, in the order they are sent.
pub open spec fn cancel_head_time_stamp_fields(req_id: i32) -> Seq<Seq<char>> {
    Seq::<Seq<char>>::empty()
        .push(int_text(CANCEL_HEAD_TIMESTAMP as int))
        .push(int_text(req_id as int))
}

/// `cancel_head_time_stamp_message` sends `cancel_head_time_stamp_fields`, each followed by NUL, in that order.
pub proof fn law_cancel_head_time_stamp_fields(req_id: i32)
    ensures
        cancel_head_time_stamp_text(req_id) == join_fields(cancel_head_time_stamp_fields(req_id)),
{
    let g0 = Seq::<Seq<char>>::empty();
    lemma_join_push(g0, int_text(CANCEL_HEAD_TIMESTAMP as int));
    let g1 = g0.push(int_text(CANCEL_HEAD_TIMESTAMP as int));
    lemma_join_push(g1, int_text(req_id as int));
    let g2 = g1.push(int_text(req_id as int));
    assert(join_fields(Seq::<Seq<char>>::empty()) == Seq::<char>::empty());
    assert(cancel_head_time_stamp_text(req_id) =~= join_fields(cancel_head_time_stamp_fields(req_id)));
}

/// The text of the message that `cancel_histogram_data_message` sends.
pub open spec fn cancel_histogram_data_text(ticker_id: i32) -> Seq<char> {
    field_spec(int_text(CANCEL_HISTOGRAM_DATA as int)) +
        field_spec(int_text(ticker_id as int))
}

/// The fields of the message that `cancel_histogram_data_message` sends, in the order they are sent.
pub open spec fn cancel_histogram_data_fields(ticker_id: i32) -> Seq<Seq<char>> {
    Seq::<Seq<char>>::empty()
        .push(int_text(CANCEL_HISTOGRAM_DATA as int))
        .push(int_text(ticker_id as int))
}

/// `cancel_histogram_data_message` sends `cancel_histogram_data_fields`, each followed by NUL, in that order.
pub proof fn law_cancel_histogram_data_fields(ticker_id: i32)
    ensures
        cancel_histogram_data_text(ticker_id) == join_fields(cancel_histogram_data_fields(ticker_id)),
{
    let g0 = Seq::<Seq<char>>::empty();
    lemma_join_push(g0, int_text(CANCEL_HISTOGRAM_DATA as int));
    let g1 = g0.push(int_text(CANCEL_HISTOGRAM_DATA as int));
    lemma_join_push(g1, int_text(ticker_id as int));
    let g2 = g1.push(int_text(ticker_id as int));
    assert(join_fields(Seq::<Seq<char>>::empty()) == Seq::<char>::empty());
    assert(cancel_histogram_data_text(ticker_id) =~= join_fields(cancel_histogram_data_fields(ticker_id)));
}

/// The text of the message that `req_scanner_parameters_message` sends.
pub open spec fn req_scanner_parameters_text() -> Seq<char> {
    field_spec(int_text(REQ_SCANNER_PARAMETERS as int)) +
        field_spec(int_text(1))
}

/// The fields of the message that `req_scanner_parameters_message` sends, in the order they are sent.
pub open spec fn req_scanner_parameters_fields() -> Seq<Seq<char>> {
    Seq::<Seq<char>>::empty()
        .push(int_text(REQ_SCANNER_PARAMETERS as int))
        .push(int_text(1))
}

/// `req_scanner_parameters_message` sends `req_scanner_parameters_fields`, each followed by NUL, in that order.
pub proof fn law_req_scanner_parameters_fields()
    ensures
        req_scanner_parameters_text() == join_fields(req_scanner_parameters_fields()),
{
    let g0 = Seq::<Seq<char>>::empty();
    lemma_join_push(g0, int_text(REQ_SCANNER_PARAMETERS as int));
    let g1 = g0.push(int_text(REQ_SCANNER_PARAMETERS as int));
    lemma_join_push(g1, int_text(1));
    let g2 = g1.push(int_text(1));
    assert(join_fields(Seq::<Seq<char>>::empty()) == Seq::<char>::empty());
    assert(req_scanner_parameters_text() =~= join_fields(req_scanner_parameters_fields()));
}

/// The text of the message that `cancel_real_time_bars_message` sends.
pub open spec fn cancel_real_time_bars_text(req_id: i32) -> Seq<char> {
    field_spec(int_text(CANCEL_REAL_TIME_BARS as int)) +
        field_spec(int_text(1)) +
        field_spec(int_text(req_id as int))
}

/// The fields of the message that `cancel_real_time_bars_message` sends, in the order they are sent.
pub open spec fn cancel_real_time_bars_fields(req_id: i32) -> Seq<Seq<char>> {
    Seq::<Seq<char>>::empty()
        .push(int_text(CANCEL_REAL_TIME_BARS as int))
        .push(int_text(1))
        .push(int_text(req_id as int))
}

/// `cancel_real_time_bars_message` sends `cancel_real_time_bars_fields`, each followed by NUL, in that order.
pub proof fn law_cancel_real_time_bars_fields(req_id: i32)
    ensures
        cancel_real_time_bars_text(req_id) == join_fields(cancel_real_time_bars_fields(req_id)),
{
    let g0 = Seq::<Seq<char>>::empty();
    lemma_join_push(g0, int_text(CANCEL_REAL_TIME_BARS as int));
    let g1 = g0.push(int_text(CANCEL_REAL_TIME_BARS as int));
    lemma_join_push(g1, int_text(1));
    let g2 = g1.push(int_text(1));
    lemma_join_push(g2, int_text(req_id as int));
    let g3 = g2.push(int_text(req_id as int));
    assert(join_fields(Seq::<Seq<char>>::empty()) == Seq::<char>::empty());
    assert(cancel_real_time_bars_text(req_id) =~= join_fields(cancel_real_time_bars_fields(req_id)));
}

/// The text of the message that `cancel_fundamental_data_message` sends.
pub open spec fn cancel_fundamental_data_text(req_id: i32) -> Seq<char> {
    field_spec(int_text(CANCEL_FUNDAMENTAL_DATA as int)) +
        field_spec(int_text(1)) +
        field_spec(int_text(req_id as int))
}

/// The fields of the message that `cancel_fundamental_data_message` sends, in the order they are sent.
pub open spec fn cancel_fundamental_data_fields(req_id: i32) -> Seq<Seq<char>> {
    Seq::<Seq<char>>::empty()
        .push(int_text(CANCEL_FUNDAMENTAL_DATA as int))
        .push(int_text(1))
        .push(int_text(req_id as int))
}

/// `cancel_fundamental_data_message` sends `cancel_fundamental_data_fields`, each followed by NUL, in that order.
pub proof fn law_cancel_fundamental_data_fields(req_id: i32)
    ensures
        cancel_fundamental_data_text(req_id) == join_fields(cancel_fundamental_data_fields(req_id)),
{
    let g0 = Seq::<Seq<char>>::empty();
    lemma_join_push(g0, int_text(CANCEL_FUNDAMENTAL_DATA as int));
    let g1 = g0.push(int_text(CANCEL_FUNDAMENTAL_DATA as int));
    lemma_join_push(g1, int_text(1));
    let g2 = g1.push(int_text(1));
    lemma_join_push(g2, int_text(req_id as int));
    let g3 = g2.push(int_text(req_id as int));
    assert(join_fields(Seq::<Seq<char>>::empty()) == Seq::<char>::empty());
    assert(cancel_fundamental_data_text(req_id) =~= join_fields(cancel_fundamental_data_fields(req_id)));
}

/// The text of the message that `req_news_providers_message` sends.
pub open spec fn req_news_providers_text() -> Seq<char> {
    field_spec(int_text(REQ_NEWS_PROVIDERS as int))
}

/// The fields of the message that `req_news_providers_message` sends, in the order they are sent.
pub open spec fn req_news_providers_fields() -> Seq<Seq<char>> {
    Seq::<Seq<char>>::empty()
        .push(int_text(REQ_NEWS_PROVIDERS as int))
}

/// `req_news_providers_message` sends `req_news_providers_fields`, each followed by NUL, in that order.
pub proof fn law_req_news_providers_fields()
    ensures
        req_news_providers_text() == join_fields(req_news_providers_fields()),
{
    let g0 = Seq::<Seq<char>>::empty();
    lemma_join_push(g0, int_text(REQ_NEWS_PROVIDERS as int));
    let g1 = g0.push(int_text(REQ_NEWS_PROVIDERS as int));
    assert(join_fields(Seq::<Seq<char>>::empty()) == Seq::<char>::empty());
    assert(req_news_providers_text() =~= join_fields(req_news_providers_fields()));
}

/// The text of the message that `query_display_groups_message` sends.
pub open spec fn query_display_groups_text(req_id: i32) -> Seq<char> {
    field_spec(int_text(QUERY_DISPLAY_GROUPS as int)) +
        field_spec(int_text(1)) +
        field_spec(int_text(req_id as int))
}

/// The fields of the message that `query_display_groups_message` sends, in the order they are sent.
pub open spec fn query_display_groups_fields(req_id: i32) -> Seq<Seq<char>> {
    Seq::<Seq<char>>::empty()
        .push(int_text(QUERY_DISPLAY_GROUPS as int))
        .push(int_text(1))
        .push(int_text(req_id as int))
}

/// `query_display_groups_message` sends `query_display_groups_fields`, each followed by NUL, in that order.
pub proof fn law_query_display_groups_fields(req_id: i32)
    ensures
        query_display_groups_text(req_id) == join_fields(query_display_groups_fields(req_id)),
{
    let g0 = Seq::<Seq<char>>::empty();
    lemma_join_push(g0, int_text(QUERY_DISPLAY_GROUPS as int));
    let g1 = g0.push(int_text(QUERY_DISPLAY_GROUPS as int));
    lemma_join_push(g1, int_text(1));
    let g2 = g1.push(int_text(1));
    lemma_join_push(g2, int_text(req_id as int));
    let g3 = g2.push(int_text(req_id as int));
    assert(join_fields(Seq::<Seq<char>>::empty()) == Seq::<char>::empty());
    assert(query_display_groups_text(req_id) =~= join_fields(query_display_groups_fields(req_id)));
}

/// The text of the message that `subscribe_to_group_events_message` sends.
pub open spec fn subscribe_to_group_events_text(req_id: i32, group_id: i32) -> Seq<char> {
    field_spec(int_text(SUBSCRIBE_TO_GROUP_EVENTS as int)) +
        field_spec(int_text(1)) +
        field_spec(int_text(req_id as int)) +
        field_spec(int_text(group_id as int))
}

/// The fields of the message that `subscribe_to_group_events_message` sends, in the order they are sent.
pub open spec fn subscribe_to_group_events_fields(req_id: i32, group_id: i32) -> Seq<Seq<char>> {
    Seq::<Seq<char>>::empty()
        .push(int_text(SUBSCRIBE_TO_GROUP_EVENTS as int))
        .push(int_text(1))
        .push(int_text(req_id as int))
        .push(int_text(group_id as int))
}

/// `subscribe_to_group_events_message` sends `subscribe_to_group_events_fields`, each followed by NUL, in that order.
pub proof fn law_subscribe_to_group_events_fields(req_id: i32, group_id: i32)
    ensures
        subscribe_to_group_events_text(req_id, group_id) == join_fields(subscribe_to_group_events_fields(req_id, group_id)),
{
    let g0 = Seq::<Seq<char>>::empty();
    lemma_join_push(g0, int_text(SUBSCRIBE_TO_GROUP_EVENTS as int));
    let g1 = g0.push(int_text(SUBSCRIBE_TO_GROUP_EVENTS as int));
    lemma_join_push(g1, int_text(1));
    let g2 = g1.push(int_text(1));
    lemma_join_push(g2, int_text(req_id as int));
    let g3 = g2.push(int_text(req_id as int));
    lemma_join_push(g3, int_text(group_id as int));
    let g4 = g3.push(int_text(group_id as int));
    assert(join_fields(Seq::<Seq<char>>::empty()) == Seq::<char>::empty());
    assert(subscribe_to_group_events_text(req_id, group_id) =~= join_fields(subscribe_to_group_events_fields(req_id, group_id)));
}

/// The text of the message that `update_display_group_message` sends.
pub open spec fn update_display_group_text(req_id: i32, contract_info: &str) -> Seq<char> {
    field_spec(int_text(UPDATE_DISPLAY_GROUP as int)) +
        field_spec(int_text(1)) +
        field_spec(int_text(req_id as int)) +
        field_spec(contract_info@)
}

/// The fields of the message that `update_display_group_message` sends, in the order they are sent.
pub open spec fn update_display_group_fields(req_id: i32, contract_info: &str) -> Seq<Seq<char>> {
    Seq::<Seq<char>>::empty()
        .push(int_text(UPDATE_DISPLAY_GROUP as int))
        .push(int_text(1))
        .push(int_text(req_id as int))
        .push(contract_info@)
}

/// `update_display_group_message` sends `update_display_group_fields`, each followed by NUL, in that order.
pub proof fn law_update_display_group_fields(req_id: i32, contract_info: &str)
    ensures
        update_display_group_text(req_id, contract_info) == join_fields(update_display_group_fields(req_id, contract_info)),
{
    let g0 = Seq::<Seq<char>>::empty();
    lemma_join_push(g0, int_text(UPDATE_DISPLAY_GROUP as int));
    let g1 = g0.push(int_text(UPDATE_DISPLAY_GROUP as int));
    lemma_join_push(g1, int_text(1));
    let g2 = g1.push(int_text(1));
    lemma_join_push(g2, int_text(req_id as int));
    let g3 = g2.push(int_text(req_id as int));
    lemma_join_push(g3, contract_info@);
    let g4 = g3.push(contract_info@);
    assert(join_fields(Seq::<Seq<char>>::empty()) == Seq::<char>::empty());
    assert(update_display_group_text(req_id, contract_info) =~= join_fields(update_display_group_fields(req_id, contract_info)));
}

/// The text of the message that `unsubscribe_from_group_events_message` sends.
pub open spec fn unsubscribe_from_group_events_text(req_id: i32) -> Seq<char> {
    field_spec(int_text(UNSUBSCRIBE_FROM_GROUP_EVENTS as int)) +
        field_spec(int_text(1)) +
        field_spec(int_text(req_id as int))
}

/// The fields of the message that `unsubscribe_from_group_events_message` sends, in the order they are sent.
pub open spec fn unsubscribe_from_group_events_fields(req_id: i32) -> Seq<Seq<char>> {
    Seq::<Seq<char>>::empty()
        .push(int_text(UNSUBSCRIBE_FROM_GROUP_EVENTS as int))
        .push(int_text(1))
        .push(int_text(req_id as int))
}

/// `unsubscribe_from_group_events_message` sends `unsubscribe_from_group_events_fields`, each followed by NUL, in that order.
pub proof fn law_unsubscribe_from_group_events_fields(req_id: i32)
    ensures
        unsubscribe_from_group_events_text(req_id) == join_fields(unsubscribe_from_group_events_fields(req_id)),
{
    let g0 = Seq::<Seq<char>>::empty();
    lemma_join_push(g0, int_text(UNSUBSCRIBE_FROM_GROUP_EVENTS as int));
    let g1 = g0.push(int_text(UNSUBSCRIBE_FROM_GROUP_EVENTS as int));
    lemma_join_push(g1, int_text(1));
    let g2 = g1.push(int_text(1));
    lemma_join_push(g2, int_text(req_id as int));
    let g3 = g2.push(int_text(req_id as int));
    assert(join_fields(Seq::<Seq<char>>::empty()) == Seq::<char>::empty());
    assert(unsubscribe_from_group_events_text(req_id) =~= join_fields(unsubscribe_from_group_events_fields(req_id)));
}

/// The text of the message that `verify_request_message` sends.
pub open spec fn verify_request_text(api_name: &str, api_version: &str) -> Seq<char> {
    field_spec(int_text(VERIFY_REQUEST as int)) +
        field_spec(int_text(1)) +
        field_spec(api_name@) +
        field_spec(api_version@)
}

/// The fields of the message that `verify_request_message` sends, in the order they are sent.
pub open spec fn verify_request_fields(api_name: &str, api_version: &str) -> Seq<Seq<char>> {
    Seq::<Seq<char>>::empty()
        .push(int_text(VERIFY_REQUEST as int))
        .push(int_text(1))
        .push(api_name@)
        .push(api_version@)
}

/// `verify_request_message` sends `verify_request_fields`, each followed by NUL, in that order.
pub proof fn law_verify_request_fields(api_name: &str, api_version: &str)
    ensures
        verify_request_text(api_name, api_version) == join_fields(verify_request_fields(api_name, api_version)),
{
    let g0 = Seq::<Seq<char>>::empty();
    lemma_join_push(g0, int_text(VERIFY_REQUEST as int));
    let g1 = g0.push(int_text(VERIFY_REQUEST as int));
    lemma_join_push(g1, int_text(1));
    let g2 = g1.push(int_text(1));
    lemma_join_push(g2, api_name@);
    let g3 = g2.push(api_name@);
    lemma_join_push(g3, api_version@);
    let g4 = g3.push(api_version@);
    assert(join_fields(Seq::<Seq<char>>::empty()) == Seq::<char>::empty());
    assert(verify_request_text(api_name, api_version) =~= join_fields(verify_request_fields(api_name, api_version)));
}

/// The text of the message that `verify_message_message` sends.
pub open spec fn verify_message_text(api_data: &str) -> Seq<char> {
    field_spec(int_text(VERIFY_MESSAGE as int)) +
        field_spec(int_text(1)) +
        field_spec(api_data@)
}

/// The fields of the message that `verify_message_message` sends, in the order they are sent.
pub open spec fn verify_message_fields(api_data: &str) -> Seq<Seq<char>> {
    Seq::<Seq<char>>::empty()
        .push(int_text(VERIFY_MESSAGE as int))
        .push(int_text(1))
        .push(api_data@)
}

/// `verify_message_message` sends `verify_message_fields`, each followed by NUL, in that order.
pub proof fn law_verify_message_fields(api_data: &str)
    ensures
        verify_message_text(api_data) == join_fields(verify_message_fields(api_data)),
{
    let g0 = Seq::<Seq<char>>::empty();
    lemma_join_push(g0, int_text(VERIFY_MESSAGE as int));
    let g1 = g0.push(int_text(VERIFY_MESSAGE as int));
    lemma_join_push(g1, int_text(1));
    let g2 = g1.push(int_text(1));
    lemma_join_push(g2, api_data@);
    let g3 = g2.push(api_data@);
    assert(join_fields(Seq::<Seq<char>>::empty()) == Seq::<char>::empty());
    assert(verify_message_text(api_data) =~= join_fields(verify_message_fields(api_data)));
}

/// The text of the message that `verify_and_auth_request_message` sends.
pub open spec fn verify_and_auth_request_text(api_name: &str, api_version: &str, opaque_isv_key: &str) -> Seq<char> {
    field_spec(int_text(VERIFY_AND_AUTH_REQUEST as int)) +
        field_spec(int_text(1)) +
        field_spec(api_name@) +
        field_spec(api_version@) +
        field_spec(opaque_isv_key@)
}

/// The fields of the message that `verify_and_auth_request_message` sends, in the order they are sent.
pub open spec fn verify_and_auth_request_fields(api_name: &str, api_version: &str, opaque_isv_key: &str) -> Seq<Seq<char>> {
    Seq::<Seq<char>>::empty()
        .push(int_text(VERIFY_AND_AUTH_REQUEST as int))
        .push(int_text(1))
        .push(api_name@)
        .push(api_version@)
        .push(opaque_isv_key@)
}

/// `verify_and_auth_request_message` sends `verify_and_auth_request_fields`, each followed by NUL, in that order.
pub proof fn law_verify_and_auth_request_fields(api_name: &str, api_version: &str, opaque_isv_key: &str)
    ensures
        verify_and_auth_request_text(api_name, api_version, opaque_isv_key) == join_fields(verify_and_auth_request_fields(api_name, api_version, opaque_isv_key)),
{
    let g0 = Seq::<Seq<char>>::empty();
    lemma_join_push(g0, int_text(VERIFY_AND_AUTH_REQUEST as int));
    let g1 = g0.push(int_text(VERIFY_AND_AUTH_REQUEST as int));
    lemma_join_push(g1, int_text(1));
    let g2 = g1.push(int_text(1));
    lemma_join_push(g2, api_name@);
    let g3 = g2.push(api_name@);
    lemma_join_push(g3, api_version@);
    let g4 = g3.push(api_version@);
    lemma_join_push(g4, opaque_isv_key@);
    let g5 = g4.push(opaque_isv_key@);
    assert(join_fields(Seq::<Seq<char>>::empty()) == Seq::<char>::empty());
    assert(verify_and_auth_request_text(api_name, api_version, opaque_isv_key) =~= join_fields(verify_and_auth_request_fields(api_name, api_version, opaque_isv_key)));
}

/// The text of the message that `verify_and_auth_message_message` sends.
pub open spec fn verify_and_auth_message_text(api_data: &str, xyz_response: &str) -> Seq<char> {
    field_spec(int_text(VERIFY_AND_AUTH_MESSAGE as int)) +
        field_spec(int_text(1)) +
        field_spec(api_data@) +
        field_spec(xyz_response@)
}

/// The fields of the message that `verify_and_auth_message_message` sends, in the order they are sent.
pub open spec fn verify_and_auth_message_fields(api_data: &str, xyz_response: &str) -> Seq<Seq<char>> {
    Seq::<Seq<char>>::empty()
        .push(int_text(VERIFY_AND_AUTH_MESSAGE as int))
        .push(int_text(1))
        .push(api_data@)
        .push(xyz_response@)
}

/// `verify_and_auth_message_message` sends `verify_and_auth_message_fields`, each followed by NUL, in that order.
pub proof fn law_verify_and_auth_message_fields(api_data: &str, xyz_response: &str)
    ensures
        verify_and_auth_message_text(api_data, xyz_response) == join_fields(verify_and_auth_message_fields(api_data, xyz_response)),
{
    let g0 = Seq::<Seq<char>>::empty();
    lemma_join_push(g0, int_text(VERIFY_AND_AUTH_MESSAGE as int));
    let g1 = g0.push(int_text(VERIFY_AND_AUTH_MESSAGE as int));
    lemma_join_push(g1, int_text(1));
    let g2 = g1.push(int_text(1));
    lemma_join_push(g2, api_data@);
    let g3 = g2.push(api_data@);
    lemma_join_push(g3, xyz_response@);
    let g4 = g3.push(xyz_response@);
    assert(join_fields(Seq::<Seq<char>>::empty()) == Seq::<char>::empty());
    assert(verify_and_auth_message_text(api_data, xyz_response) =~= join_fields(verify_and_auth_message_fields(api_data, xyz_response)));
}

/// The text of the message that `req_sec_def_opt_params_message` sends.
pub open spec fn req_sec_def_opt_params_text(req_id: i32, underlying_symbol: &str, fut_fop_exchange: &str, underlying_sec_type: &str, underlying_con_id: i32) -> Seq<char> {
    field_spec(int_text(REQ_SEC_DEF_OPT_PARAMS as int)) +
        field_spec(int_text(req_id as int)) +
        field_spec(underlying_symbol@) +
        field_spec(fut_fop_exchange@) +
        field_spec(underlying_sec_type@) +
        field_spec(int_text(underlying_con_id as int))
}

/// The fields of the message that `req_sec_def_opt_params_message` sends, in the order they are sent.
pub open spec fn req_sec_def_opt_params_fields(req_id: i32, underlying_symbol: &str, fut_fop_exchange: &str, underlying_sec_type: &str, underlying_con_id: i32) -> Seq<Seq<char>> {
    Seq::<Seq<char>>::empty()
        .push(int_text(REQ_SEC_DEF_OPT_PARAMS as int))
        .push(int_text(req_id as int))
        .push(underlying_symbol@)
        .push(fut_fop_exchange@)
        .push(underlying_sec_type@)
        .push(int_text(underlying_con_id as int))
}

/// `req_sec_def_opt_params_message` sends `req_sec_def_opt_params_fields`, each followed by NUL, in that order.
pub proof fn law_req_sec_def_opt_params_fields(req_id: i32, underlying_symbol: &str, fut_fop_exchange: &str, underlying_sec_type: &str, underlying_con_id: i32)
    ensures
        req_sec_def_opt_params_text(req_id, underlying_symbol, fut_fop_exchange, underlying_sec_type, underlying_con_id) == join_fields(req_sec_def_opt_params_fields(req_id, underlying_symbol, fut_fop_exchange, underlying_sec_type, underlying_con_id)),
{
    let g0 = Seq::<Seq<char>>::empty();
    lemma_join_push(g0, int_text(REQ_SEC_DEF_OPT_PARAMS as int));
    let g1 = g0.push(int_text(REQ_SEC_DEF_OPT_PARAMS as int));
    lemma_join_push(g1, int_text(req_id as int));
    let g2 = g1.push(int_text(req_id as int));
    lemma_join_push(g2, underlying_symbol@);
    let g3 = g2.push(underlying_symbol@);
    lemma_join_push(g3, fut_fop_exchange@);
    let g4 = g3.push(fut_fop_exchange@);
    lemma_join_push(g4, underlying_sec_type@);
    let g5 = g4.push(underlying_sec_type@);
    lemma_join_push(g5, int_text(underlying_con_id as int));
    let g6 = g5.push(int_text(underlying_con_id as int));
    assert(join_fields(Seq::<Seq<char>>::empty()) == Seq::<char>::empty());
    assert(req_sec_def_opt_params_text(req_id, underlying_symbol, fut_fop_exchange, underlying_sec_type, underlying_con_id) =~= join_fields(req_sec_def_opt_params_fields(req_id, underlying_symbol, fut_fop_exchange, underlying_sec_type, underlying_con_id)));
}

/// The text of the message that `req_soft_dollar_tiers_message` sends.
pub open spec fn req_soft_dollar_tiers_text(req_id: i32) -> Seq<char> {
    field_spec(int_text(REQ_SOFT_DOLLAR_TIERS as int)) +
        field_spec(int_text(req_id as int))
}

/// The fields of the message that `req_soft_dollar_tiers_message` sends, in the order they are sent.
pub open spec fn req_soft_dollar_tiers_fields(req_id: i32) -> Seq<Seq<char>> {
    Seq::<Seq<char>>::empty()
        .push(int_text(REQ_SOFT_DOLLAR_TIERS as int))
        .push(int_text(req_id as int))
}

/// `req_soft_dollar_tiers_message` sends `req_soft_dollar_tiers_fields`, each followed by NUL, in that order.
pub proof fn law_req_soft_dollar_tiers_fields(req_id: i32)
    ensures
        req_soft_dollar_tiers_text(req_id) == join_fields(req_soft_dollar_tiers_fields(req_id)),
{
    let g0 = Seq::<Seq<char>>::empty();
    lemma_join_push(g0, int_text(REQ_SOFT_DOLLAR_TIERS as int));
    let g1 = g0.push(int_text(REQ_SOFT_DOLLAR_TIERS as int));
    lemma_join_push(g1, int_text(req_id as int));
    let g2 = g1.push(int_text(req_id as int));
    assert(join_fields(Seq::<Seq<char>>::empty()) == Seq::<char>::empty());
    assert(req_soft_dollar_tiers_text(req_id) =~= join_fields(req_soft_dollar_tiers_fields(req_id)));
}

/// The text of the message that `req_family_codes_message` sends.
pub open spec fn req_family_codes_text() -> Seq<char> {
    field_spec(int_text(REQ_FAMILY_CODES as int))
}

/// The fields of the message that `req_family_codes_message` sends, in the order they are sent.
pub open spec fn req_family_codes_fields() -> Seq<Seq<char>> {
    Seq::<Seq<char>>::empty()
        .push(int_text(REQ_FAMILY_CODES as int))
}

/// `req_family_codes_message` sends `req_family_codes_fields`, each followed by NUL, in that order.
pub proof fn law_req_family_codes_fields()
    ensures
        req_family_codes_text() == join_fields(req_family_codes_fields()),
{
    let g0 = Seq::<Seq<char>>::empty();
    lemma_join_push(g0, int_text(REQ_FAMILY_CODES as int));
    let g1 = g0.push(int_text(REQ_FAMILY_CODES as int));
    assert(join_fields(Seq::<Seq<char>>::empty()) == Seq::<char>::empty());
    assert(req_family_codes_text() =~= join_fields(req_family_codes_fields()));
}

/// The text of the message that `req_matching_symbols_message` sends.
pub open spec fn req_matching_symbols_text(req_id: i32, pattern: &str) -> Seq<char> {
    field_spec(int_text(REQ_MATCHING_SYMBOLS as int)) +
        field_spec(int_text(req_id as int)) +
        field_spec(pattern@)
}

/// The fields of the message that `req_matching_symbols_message` sends, in the order they are sent.
pub open spec fn req_matching_symbols_fields(req_id: i32, pattern: &str) -> Seq<Seq<char>> {
    Seq::<Seq<char>>::empty()
        .push(int_text(REQ_MATCHING_SYMBOLS as int))
        .push(int_text(req_id as int))
        .push(pattern@)
}

/// `req_matching_symbols_message` sends `req_matching_symbols_fields`, each followed by NUL, in that order.
pub proof fn law_req_matching_symbols_fields(req_id: i32, pattern: &str)
    ensures
        req_matching_symbols_text(req_id, pattern) == join_fields(req_matching_symbols_fields(req_id, pattern)),
{
    let g0 = Seq::<Seq<char>>::empty();
    lemma_join_push(g0, int_text(REQ_MATCHING_SYMBOLS as int));
    let g1 = g0.push(int_text(REQ_MATCHING_SYMBOLS as int));
    lemma_join_push(g1, int_text(req_id as int));
    let g2 = g1.push(int_text(req_id as int));
    lemma_join_push(g2, pattern@);
    let g3 = g2.push(pattern@);
    assert(join_fields(Seq::<Seq<char>>::empty()) == Seq::<char>::empty());
    assert(req_matching_symbols_text(req_id, pattern) =~= join_fields(req_matching_symbols_fields(req_id, pattern)));
}

/// The text of the message that `req_completed_orders_message` sends.
pub open spec fn req_completed_orders_text(api_only: bool) -> Seq<char> {
    field_spec(int_text(REQ_COMPLETED_ORDERS as int)) +
        field_spec(bool_field_text(api_only))
}

/// The fields of the message that `req_completed_orders_message` sends, in the order they are sent.
pub open spec fn req_completed_orders_fields(api_only: bool) -> Seq<Seq<char>> {
    Seq::<Seq<char>>::empty()
        .push(int_text(REQ_COMPLETED_ORDERS as int))
        .push(bool_field_text(api_only))
}

/// `req_completed_orders_message` sends `req_completed_orders_fields`, each followed by NUL, in that order.
pub proof fn law_req_completed_orders_fields(api_only: bool)
    ensures
        req_completed_orders_text(api_only) == join_fields(req_completed_orders_fields(api_only)),
{
    let g0 = Seq::<Seq<char>>::empty();
    lemma_join_push(g0, int_text(REQ_COMPLETED_ORDERS as int));
    let g1 = g0.push(int_text(REQ_COMPLETED_ORDERS as int));
    lemma_join_push(g1, bool_field_text(api_only));
    let g2 = g1.push(bool_field_text(api_only));
    assert(join_fields(Seq::<Seq<char>>::empty()) == Seq::<char>::empty());
    assert(req_completed_orders_text(api_only) =~= join_fields(req_completed_orders_fields(api_only)));
}

/// The text of the message that `req_wsh_metadata_message` sends.
pub open spec fn req_wsh_metadata_text(req_id: i32) -> Seq<char> {
    field_spec(int_text(REQ_WSH_METADATA as int)) +
        field_spec(int_text(req_id as int))
}

/// The fields of the message that `req_wsh_metadata_message` sends, in the order they are sent.
pub open spec fn req_wsh_metadata_fields(req_id: i32) -> Seq<Seq<char>> {
    Seq::<Seq<char>>::empty()
        .push(int_text(REQ_WSH_METADATA as int))
        .push(int_text(req_id as int))
}

/// `req_wsh_metadata_message` sends `req_wsh_metadata_fields`, each followed by NUL, in that order.
pub proof fn law_req_wsh_metadata_fields(req_id: i32)
    ensures
        req_wsh_metadata_text(req_id) == join_fields(req_wsh_metadata_fields(req_id)),
{
    let g0 = Seq::<Seq<char>>::empty();
    lemma_join_push(g0, int_text(REQ_WSH_METADATA as int));
    let g1 = g0.push(int_text(REQ_WSH_METADATA as int));
    lemma_join_push(g1, int_text(req_id as int));
    let g2 = g1.push(int_text(req_id as int));
    assert(join_fields(Seq::<Seq<char>>::empty()) == Seq::<char>::empty());
    assert(req_wsh_metadata_text(req_id) =~= join_fields(req_wsh_metadata_fields(req_id)));
}

/// The text of the message that `cancel_wsh_metadata_message` sends.
pub open spec fn cancel_wsh_metadata_text(req_id: i32) -> Seq<char> {
    field_spec(int_text(CANCEL_WSH_METADATA as int)) +
        field_spec(int_text(req_id as int))
}

/// The fields of the message that `cancel_wsh_metadata_message` sends, in the order they are sent.
pub open spec fn cancel_wsh_metadata_fields(req_id: i32) -> Seq<Seq<char>> {
    Seq::<Seq<char>>::empty()
        .push(int_text(CANCEL_WSH_METADATA as int))
        .push(int_text(req_id as int))
}

/// `cancel_wsh_metadata_message` sends `cancel_wsh_metadata_fields`, each followed by NUL, in that order.
pub proof fn law_cancel_wsh_metadata_fields(req_id: i32)
    ensures
        cancel_wsh_metadata_text(req_id) == join_fields(cancel_wsh_metadata_fields(req_id)),
{
    let g0 = Seq::<Seq<char>>::empty();
    lemma_join_push(g0, int_text(CANCEL_WSH_METADATA as int));
    let g1 = g0.push(int_text(CANCEL_WSH_METADATA as int));
    lemma_join_push(g1, int_text(req_id as int));
    let g2 = g1.push(int_text(req_id as int));
    assert(join_fields(Seq::<Seq<char>>::empty()) == Seq::<char>::empty());
    assert(cancel_wsh_metadata_text(req_id) =~= join_fields(cancel_wsh_metadata_fields(req_id)));
}

/// The text of the message that `cancel_wsh_event_data_message` sends.
pub open spec fn cancel_wsh_event_data_text(req_id: i32) -> Seq<char> {
    field_spec(int_text(CANCEL_WSH_EVENT_DATA as int)) +
        field_spec(int_text(req_id as int))
}

/// The fields of the message that `cancel_wsh_event_data_message` sends, in the order they are sent.
pub open spec fn cancel_wsh_event_data_fields(req_id: i32) -> Seq<Seq<char>> {
    Seq::<Seq<char>>::empty()
        .push(int_text(CANCEL_WSH_EVENT_DATA as int))
        .push(int_text(req_id as int))
}

/// `cancel_wsh_event_data_message` sends `cancel_wsh_event_data_fields`, each followed by NUL, in that order.
pub proof fn law_cancel_wsh_event_data_fields(req_id: i32)
    ensures
        cancel_wsh_event_data_text(req_id) == join_fields(cancel_wsh_event_data_fields(req_id)),
{
    let g0 = Seq::<Seq<char>>::empty();
    lemma_join_push(g0, int_text(CANCEL_WSH_EVENT_DATA as int));
    let g1 = g0.push(int_text(CANCEL_WSH_EVENT_DATA as int));
    lemma_join_push(g1, int_text(req_id as int));
    let g2 = g1.push(int_text(req_id as int));
    assert(join_fields(Seq::<Seq<char>>::empty()) == Seq::<char>::empty());
    assert(cancel_wsh_event_data_text(req_id) =~= join_fields(cancel_wsh_event_data_fields(req_id)));
}

} // verus!
