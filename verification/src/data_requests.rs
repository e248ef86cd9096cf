//! The requests for historical and real-time data, option calculations, exercises, executions,
//! news, market scanners, Wall Street Horizon events and Financial Advisor configuration. Each decides from the connection state, the server version and its arguments
//! whether the request may be sent, and lays out its fields as the server version asks.
//! Floating-point arguments are taken as the texts of their fields.
use vstd::prelude::*;

use crate::client::ConnStatus;
use crate::common::{FaDataType, TagValue, TickByTickType, NO_VALID_ID};
use crate::contract::ContractFields;
use crate::contract_requests::{
    combo_legs_text, int_field, push_bool_field, push_combo_legs, push_i32_field, push_str_field,
};
use crate::errors::{
    api_error, api_error_with, is_api_error, is_api_error_with, IBKRApiLibError, TwsError,
};
use crate::execution::ExecutionFilter;
use crate::messages::{bool_field_text, field_spec, join_fields};
use crate::wire_layout::{lemma_join_append, lemma_join_push};
use crate::decimal::int_text;
use crate::place_order::{
    float_or_empty, given, int_or_empty, lemma_grow, misc_options, misc_options_text, push_count,
    push_float_or_empty, push_int_or_empty, set_int_text, set_text, FloatField,
};
use crate::server_versions::{
    MIN_SERVER_VER_EXECUTION_DATA_CHAIN, MIN_SERVER_VER_FUNDAMENTAL_DATA,
    MIN_SERVER_VER_HISTORICAL_TICKS, MIN_SERVER_VER_LINKING, MIN_SERVER_VER_NEWS_QUERY_ORIGINS,
    MIN_SERVER_VER_REQ_CALC_IMPLIED_VOLAT, MIN_SERVER_VER_REQ_HEAD_TIMESTAMP,
    MIN_SERVER_VER_REQ_HISTOGRAM, MIN_SERVER_VER_REQ_HISTORICAL_NEWS,
    MIN_SERVER_VER_REQ_NEWS_ARTICLE, MIN_SERVER_VER_REPLACE_FA_END,
    MIN_SERVER_VER_SCANNER_GENERIC_OPTS,
    MIN_SERVER_VER_SYNT_REALTIME_BARS, MIN_SERVER_VER_WSHE_CALENDAR,
    MIN_SERVER_VER_TICK_BY_TICK, MIN_SERVER_VER_TICK_BY_TICK_IGNORE_SIZE,
    MIN_SERVER_VER_TRADING_CLASS,
};

verus! {

// Ids of the messages that these requests send.
pub const REQ_EXECUTIONS: i32 = 7;
pub const REQ_HISTORICAL_DATA: i32 = 20;
pub const EXERCISE_OPTIONS: i32 = 21;
pub const REQ_REAL_TIME_BARS: i32 = 50;
pub const REQ_FUNDAMENTAL_DATA: i32 = 52;
pub const REQ_CALC_IMPLIED_VOLAT: i32 = 54;
pub const REQ_CALC_OPTION_PRICE: i32 = 55;
pub const REQ_NEWS_ARTICLE: i32 = 84;
pub const REQ_HISTORICAL_NEWS: i32 = 86;
pub const REQ_HEAD_TIMESTAMP: i32 = 87;
pub const REQ_HISTOGRAM_DATA: i32 = 88;
pub const REQ_HISTORICAL_TICKS: i32 = 96;
pub const REQ_TICK_BY_TICK_DATA: i32 = 97;
pub const REQ_SCANNER_SUBSCRIPTION: i32 = 22;
pub const REQ_WSH_EVENT_DATA: i32 = 102;
pub const REPLACE_FA: i32 = 19;

/// A market scanner subscription as its request lays it out: its floating-point limits as
/// `FloatField`s, its integer limits unset when they hold `UNSET_INTEGER`.
#[derive(Clone, Debug, Default)]
pub struct ScannerSubscriptionFields {
    pub number_of_rows: i32,
    pub instrument: String,
    pub location_code: String,
    pub scan_code: String,
    pub above_price: FloatField,
    pub below_price: FloatField,
    pub above_volume: i32,
    pub market_cap_above: FloatField,
    pub market_cap_below: FloatField,
    pub moody_rating_above: String,
    pub moody_rating_below: String,
    pub sp_rating_above: String,
    pub sp_rating_below: String,
    pub maturity_date_above: String,
    pub maturity_date_below: String,
    pub coupon_rate_above: FloatField,
    pub coupon_rate_below: FloatField,
    pub exclude_convertible: bool,
    pub average_option_volume_above: i32,
    pub scanner_setting_pairs: String,
    pub stock_type_filter: String,
}

/// Why the server refuses `EClient::req_historical_data`, if it does: the id that the error carries and the text
/// that follows the `UpdateTws` message.
pub open spec fn req_historical_data_refusal(sv: i32, req_id: i32, contract: &ContractFields, end_date_time: &str, duration_str: &str, bar_size_setting: &str, what_to_show: &str, use_rth: i32, format_date: i32, keep_up_to_date: bool, chart_options: &Vec<TagValue>) -> Option<(int, Seq<char>)> {
    if sv < MIN_SERVER_VER_TRADING_CLASS && (contract.trading_class@.len() > 0 || contract.con_id > 0) {
        Some((req_id as int, " It does not support con_id and trading_class parameters in req_historical_data."@))
    } else {
        None
    }
}

/// The text of the message that `EClient::req_historical_data` sends.
pub open spec fn req_historical_data_text(sv: i32, req_id: i32, contract: &ContractFields, end_date_time: &str, duration_str: &str, bar_size_setting: &str, what_to_show: &str, use_rth: i32, format_date: i32, keep_up_to_date: bool, chart_options: &Vec<TagValue>) -> Seq<char> {
    int_field((REQ_HISTORICAL_DATA) as int)
        + given(sv < MIN_SERVER_VER_SYNT_REALTIME_BARS, int_field((6) as int))
        + int_field((req_id) as int)
        + given(sv >= MIN_SERVER_VER_TRADING_CLASS, int_field((contract.con_id) as int) + field_spec(contract.symbol@) + field_spec(contract.sec_type@) + field_spec(contract.last_trade_date_or_contract_month@) + field_spec(contract.strike@) + field_spec(contract.right@) + field_spec(contract.multiplier@) + field_spec(contract.exchange@) + field_spec(contract.primary_exchange@) + field_spec(contract.currency@) + field_spec(contract.local_symbol@))
        + given(sv >= MIN_SERVER_VER_TRADING_CLASS, field_spec(contract.trading_class@))
        + field_spec(bool_field_text(contract.include_expired))
        + field_spec(end_date_time@)
        + field_spec(bar_size_setting@)
        + field_spec(duration_str@)
        + int_field((use_rth) as int)
        + field_spec(what_to_show@)
        + int_field((format_date) as int)
        + crate::contract_requests::when(contract.sec_type@ == "BAG"@, int_field(contract.combo_legs@.len() as int) + combo_legs_text(contract.combo_legs@))
        + given(sv >= MIN_SERVER_VER_SYNT_REALTIME_BARS, field_spec(bool_field_text(keep_up_to_date)))
        + given(sv >= MIN_SERVER_VER_LINKING, field_spec(misc_options_text(chart_options@)))
}

/// The message that `EClient::req_historical_data` sends (see `req_historical_data_refusal` and `req_historical_data_text`).
pub fn req_historical_data_message(status: ConnStatus, sv: i32, req_id: i32, contract: &ContractFields, end_date_time: &str, duration_str: &str, bar_size_setting: &str, what_to_show: &str, use_rth: i32, format_date: i32, keep_up_to_date: bool, chart_options: &Vec<TagValue>) -> (r: Result<String, IBKRApiLibError>)
    requires
        contract.combo_legs@.len() <= i64::MAX,
    ensures
        status != ConnStatus::CONNECTED ==> (r matches Err(e) && is_api_error(e, NO_VALID_ID as int, TwsError::NotConnected)),
        status == ConnStatus::CONNECTED ==> match req_historical_data_refusal(sv, req_id, contract, end_date_time, duration_str, bar_size_setting, what_to_show, use_rth, format_date, keep_up_to_date, chart_options) {
            Some((id, suffix)) => r matches Err(e) && is_api_error_with(e, id, TwsError::UpdateTws, suffix),
            None => r matches Ok(m) && m@ == req_historical_data_text(sv, req_id, contract, end_date_time, duration_str, bar_size_setting, what_to_show, use_rth, format_date, keep_up_to_date, chart_options),
        },
{
    if !status.is_connected() {
        return Err(api_error(NO_VALID_ID, TwsError::NotConnected));
    }
    if sv < MIN_SERVER_VER_TRADING_CLASS && (!contract.trading_class.as_str().is_empty() || contract.con_id > 0) {
        return Err(api_error_with(req_id, TwsError::UpdateTws, " It does not support con_id and trading_class parameters in req_historical_data."));
    }
    proof {
        reveal_strlit("BAG");
    }
    let mut msg = String::new();
    let ghost start = msg@;
    let ghost mut acc: Seq<char> = Seq::empty();
    let ghost b0 = msg@;
    push_i32_field(&mut msg, REQ_HISTORICAL_DATA);
    proof {
        lemma_grow(b0, start, acc, int_field((REQ_HISTORICAL_DATA) as int));
        acc = acc + int_field((REQ_HISTORICAL_DATA) as int);
    }
    let ghost b1 = msg@;
    if sv < MIN_SERVER_VER_SYNT_REALTIME_BARS {
        push_i32_field(&mut msg, 6);
    }
    assert(msg@ =~= b1 + given(sv < MIN_SERVER_VER_SYNT_REALTIME_BARS, int_field((6) as int)));
    proof {
        lemma_grow(b1, start, acc, given(sv < MIN_SERVER_VER_SYNT_REALTIME_BARS, int_field((6) as int)));
        acc = acc + given(sv < MIN_SERVER_VER_SYNT_REALTIME_BARS, int_field((6) as int));
    }
    let ghost b2 = msg@;
    push_i32_field(&mut msg, req_id);
    proof {
        lemma_grow(b2, start, acc, int_field((req_id) as int));
        acc = acc + int_field((req_id) as int);
    }
    let ghost b3 = msg@;
    if sv >= MIN_SERVER_VER_TRADING_CLASS {
        push_i32_field(&mut msg, contract.con_id);
        push_str_field(&mut msg, contract.symbol.as_str());
        push_str_field(&mut msg, contract.sec_type.as_str());
        push_str_field(&mut msg, contract.last_trade_date_or_contract_month.as_str());
        push_str_field(&mut msg, contract.strike.as_str());
        push_str_field(&mut msg, contract.right.as_str());
        push_str_field(&mut msg, contract.multiplier.as_str());
        push_str_field(&mut msg, contract.exchange.as_str());
        push_str_field(&mut msg, contract.primary_exchange.as_str());
        push_str_field(&mut msg, contract.currency.as_str());
        push_str_field(&mut msg, contract.local_symbol.as_str());
    }
    assert(msg@ =~= b3 + given(sv >= MIN_SERVER_VER_TRADING_CLASS, int_field((contract.con_id) as int) + field_spec(contract.symbol@) + field_spec(contract.sec_type@) + field_spec(contract.last_trade_date_or_contract_month@) + field_spec(contract.strike@) + field_spec(contract.right@) + field_spec(contract.multiplier@) + field_spec(contract.exchange@) + field_spec(contract.primary_exchange@) + field_spec(contract.currency@) + field_spec(contract.local_symbol@)));
    proof {
        lemma_grow(b3, start, acc, given(sv >= MIN_SERVER_VER_TRADING_CLASS, int_field((contract.con_id) as int) + field_spec(contract.symbol@) + field_spec(contract.sec_type@) + field_spec(contract.last_trade_date_or_contract_month@) + field_spec(contract.strike@) + field_spec(contract.right@) + field_spec(contract.multiplier@) + field_spec(contract.exchange@) + field_spec(contract.primary_exchange@) + field_spec(contract.currency@) + field_spec(contract.local_symbol@)));
        acc = acc + given(sv >= MIN_SERVER_VER_TRADING_CLASS, int_field((contract.con_id) as int) + field_spec(contract.symbol@) + field_spec(contract.sec_type@) + field_spec(contract.last_trade_date_or_contract_month@) + field_spec(contract.strike@) + field_spec(contract.right@) + field_spec(contract.multiplier@) + field_spec(contract.exchange@) + field_spec(contract.primary_exchange@) + field_spec(contract.currency@) + field_spec(contract.local_symbol@));
    }
    let ghost b4 = msg@;
    if sv >= MIN_SERVER_VER_TRADING_CLASS {
        push_str_field(&mut msg, contract.trading_class.as_str());
    }
    assert(msg@ =~= b4 + given(sv >= MIN_SERVER_VER_TRADING_CLASS, field_spec(contract.trading_class@)));
    proof {
        lemma_grow(b4, start, acc, given(sv >= MIN_SERVER_VER_TRADING_CLASS, field_spec(contract.trading_class@)));
        acc = acc + given(sv >= MIN_SERVER_VER_TRADING_CLASS, field_spec(contract.trading_class@));
    }
    let ghost b5 = msg@;
    push_bool_field(&mut msg, contract.include_expired);
    proof {
        lemma_grow(b5, start, acc, field_spec(bool_field_text(contract.include_expired)));
        acc = acc + field_spec(bool_field_text(contract.include_expired));
    }
    let ghost b6 = msg@;
    push_str_field(&mut msg, end_date_time);
    proof {
        lemma_grow(b6, start, acc, field_spec(end_date_time@));
        acc = acc + field_spec(end_date_time@);
    }
    let ghost b7 = msg@;
    push_str_field(&mut msg, bar_size_setting);
    proof {
        lemma_grow(b7, start, acc, field_spec(bar_size_setting@));
        acc = acc + field_spec(bar_size_setting@);
    }
    let ghost b8 = msg@;
    push_str_field(&mut msg, duration_str);
    proof {
        lemma_grow(b8, start, acc, field_spec(duration_str@));
        acc = acc + field_spec(duration_str@);
    }
    let ghost b9 = msg@;
    push_i32_field(&mut msg, use_rth);
    proof {
        lemma_grow(b9, start, acc, int_field((use_rth) as int));
        acc = acc + int_field((use_rth) as int);
    }
    let ghost b10 = msg@;
    push_str_field(&mut msg, what_to_show);
    proof {
        lemma_grow(b10, start, acc, field_spec(what_to_show@));
        acc = acc + field_spec(what_to_show@);
    }
    let ghost b11 = msg@;
    push_i32_field(&mut msg, format_date);
    proof {
        lemma_grow(b11, start, acc, int_field((format_date) as int));
        acc = acc + int_field((format_date) as int);
    }
    let ghost b12 = msg@;
    push_combo_legs(&mut msg, contract);
    assert(msg@ =~= b12 + crate::contract_requests::when(contract.sec_type@ == "BAG"@, int_field(contract.combo_legs@.len() as int) + combo_legs_text(contract.combo_legs@)));
    proof {
        lemma_grow(b12, start, acc, crate::contract_requests::when(contract.sec_type@ == "BAG"@, int_field(contract.combo_legs@.len() as int) + combo_legs_text(contract.combo_legs@)));
        acc = acc + crate::contract_requests::when(contract.sec_type@ == "BAG"@, int_field(contract.combo_legs@.len() as int) + combo_legs_text(contract.combo_legs@));
    }
    let ghost b13 = msg@;
    if sv >= MIN_SERVER_VER_SYNT_REALTIME_BARS {
        push_bool_field(&mut msg, keep_up_to_date);
    }
    assert(msg@ =~= b13 + given(sv >= MIN_SERVER_VER_SYNT_REALTIME_BARS, field_spec(bool_field_text(keep_up_to_date))));
    proof {
        lemma_grow(b13, start, acc, given(sv >= MIN_SERVER_VER_SYNT_REALTIME_BARS, field_spec(bool_field_text(keep_up_to_date))));
        acc = acc + given(sv >= MIN_SERVER_VER_SYNT_REALTIME_BARS, field_spec(bool_field_text(keep_up_to_date)));
    }
    let ghost b14 = msg@;
    if sv >= MIN_SERVER_VER_LINKING {
        let options_text = misc_options(chart_options);
        push_str_field(&mut msg, options_text.as_str());
    }
    assert(msg@ =~= b14 + given(sv >= MIN_SERVER_VER_LINKING, field_spec(misc_options_text(chart_options@))));
    proof {
        lemma_grow(b14, start, acc, given(sv >= MIN_SERVER_VER_LINKING, field_spec(misc_options_text(chart_options@))));
        acc = acc + given(sv >= MIN_SERVER_VER_LINKING, field_spec(misc_options_text(chart_options@)));
    }
    assert(acc == req_historical_data_text(sv, req_id, contract, end_date_time, duration_str, bar_size_setting, what_to_show, use_rth, format_date, keep_up_to_date, chart_options));
    assert(msg@ =~= acc);
    Ok(msg)
}

/// Why the server refuses `EClient::req_real_time_bars`, if it does: the id that the error carries and the text
/// that follows the `UpdateTws` message.
pub open spec fn req_real_time_bars_refusal(sv: i32, req_id: i32, contract: &ContractFields, bar_size: i32, what_to_show: &str, use_rth: bool, real_time_bars_options: &Vec<TagValue>) -> Option<(int, Seq<char>)> {
    if sv < MIN_SERVER_VER_TRADING_CLASS && contract.trading_class@.len() > 0 {
        Some((NO_VALID_ID as int, " It does not support con_id and trading_class parameter in req_real_time_bars."@))
    } else {
        None
    }
}

/// The text of the message that `EClient::req_real_time_bars` sends.
pub open spec fn req_real_time_bars_text(sv: i32, req_id: i32, contract: &ContractFields, bar_size: i32, what_to_show: &str, use_rth: bool, real_time_bars_options: &Vec<TagValue>) -> Seq<char> {
    int_field((REQ_REAL_TIME_BARS) as int)
        + int_field((3) as int)
        + int_field((req_id) as int)
        + given(sv >= MIN_SERVER_VER_TRADING_CLASS, int_field((contract.con_id) as int))
        + field_spec(contract.symbol@)
        + field_spec(contract.sec_type@)
        + field_spec(contract.last_trade_date_or_contract_month@)
        + field_spec(contract.strike@)
        + field_spec(contract.right@)
        + field_spec(contract.multiplier@)
        + field_spec(contract.exchange@)
        + field_spec(contract.primary_exchange@)
        + field_spec(contract.currency@)
        + field_spec(contract.local_symbol@)
        + given(sv >= MIN_SERVER_VER_TRADING_CLASS, field_spec(contract.trading_class@))
        + int_field((bar_size) as int)
        + field_spec(what_to_show@)
        + field_spec(bool_field_text(use_rth))
        + given(sv >= MIN_SERVER_VER_LINKING, field_spec(misc_options_text(real_time_bars_options@)))
}

/// The message that `EClient::req_real_time_bars` sends (see `req_real_time_bars_refusal` and `req_real_time_bars_text`).
pub fn req_real_time_bars_message(status: ConnStatus, sv: i32, req_id: i32, contract: &ContractFields, bar_size: i32, what_to_show: &str, use_rth: bool, real_time_bars_options: &Vec<TagValue>) -> (r: Result<String, IBKRApiLibError>)
    ensures
        status != ConnStatus::CONNECTED ==> (r matches Err(e) && is_api_error(e, NO_VALID_ID as int, TwsError::NotConnected)),
        status == ConnStatus::CONNECTED ==> match req_real_time_bars_refusal(sv, req_id, contract, bar_size, what_to_show, use_rth, real_time_bars_options) {
            Some((id, suffix)) => r matches Err(e) && is_api_error_with(e, id, TwsError::UpdateTws, suffix),
            None => r matches Ok(m) && m@ == req_real_time_bars_text(sv, req_id, contract, bar_size, what_to_show, use_rth, real_time_bars_options),
        },
{
    if !status.is_connected() {
        return Err(api_error(NO_VALID_ID, TwsError::NotConnected));
    }
    if sv < MIN_SERVER_VER_TRADING_CLASS && !contract.trading_class.as_str().is_empty() {
        return Err(api_error_with(NO_VALID_ID, TwsError::UpdateTws, " It does not support con_id and trading_class parameter in req_real_time_bars."));
    }
    let mut msg = String::new();
    let ghost start = msg@;
    let ghost mut acc: Seq<char> = Seq::empty();
    let ghost b0 = msg@;
    push_i32_field(&mut msg, REQ_REAL_TIME_BARS);
    proof {
        lemma_grow(b0, start, acc, int_field((REQ_REAL_TIME_BARS) as int));
        acc = acc + int_field((REQ_REAL_TIME_BARS) as int);
    }
    let ghost b1 = msg@;
    push_i32_field(&mut msg, 3);
    proof {
        lemma_grow(b1, start, acc, int_field((3) as int));
        acc = acc + int_field((3) as int);
    }
    let ghost b2 = msg@;
    push_i32_field(&mut msg, req_id);
    proof {
        lemma_grow(b2, start, acc, int_field((req_id) as int));
        acc = acc + int_field((req_id) as int);
    }
    let ghost b3 = msg@;
    if sv >= MIN_SERVER_VER_TRADING_CLASS {
        push_i32_field(&mut msg, contract.con_id);
    }
    assert(msg@ =~= b3 + given(sv >= MIN_SERVER_VER_TRADING_CLASS, int_field((contract.con_id) as int)));
    proof {
        lemma_grow(b3, start, acc, given(sv >= MIN_SERVER_VER_TRADING_CLASS, int_field((contract.con_id) as int)));
        acc = acc + given(sv >= MIN_SERVER_VER_TRADING_CLASS, int_field((contract.con_id) as int));
    }
    let ghost b4 = msg@;
    push_str_field(&mut msg, contract.symbol.as_str());
    proof {
        lemma_grow(b4, start, acc, field_spec(contract.symbol@));
        acc = acc + field_spec(contract.symbol@);
    }
    let ghost b5 = msg@;
    push_str_field(&mut msg, contract.sec_type.as_str());
    proof {
        lemma_grow(b5, start, acc, field_spec(contract.sec_type@));
        acc = acc + field_spec(contract.sec_type@);
    }
    let ghost b6 = msg@;
    push_str_field(&mut msg, contract.last_trade_date_or_contract_month.as_str());
    proof {
        lemma_grow(b6, start, acc, field_spec(contract.last_trade_date_or_contract_month@));
        acc = acc + field_spec(contract.last_trade_date_or_contract_month@);
    }
    let ghost b7 = msg@;
    push_str_field(&mut msg, contract.strike.as_str());
    proof {
        lemma_grow(b7, start, acc, field_spec(contract.strike@));
        acc = acc + field_spec(contract.strike@);
    }
    let ghost b8 = msg@;
    push_str_field(&mut msg, contract.right.as_str());
    proof {
        lemma_grow(b8, start, acc, field_spec(contract.right@));
        acc = acc + field_spec(contract.right@);
    }
    let ghost b9 = msg@;
    push_str_field(&mut msg, contract.multiplier.as_str());
    proof {
        lemma_grow(b9, start, acc, field_spec(contract.multiplier@));
        acc = acc + field_spec(contract.multiplier@);
    }
    let ghost b10 = msg@;
    push_str_field(&mut msg, contract.exchange.as_str());
    proof {
        lemma_grow(b10, start, acc, field_spec(contract.exchange@));
        acc = acc + field_spec(contract.exchange@);
    }
    let ghost b11 = msg@;
    push_str_field(&mut msg, contract.primary_exchange.as_str());
    proof {
        lemma_grow(b11, start, acc, field_spec(contract.primary_exchange@));
        acc = acc + field_spec(contract.primary_exchange@);
    }
    let ghost b12 = msg@;
    push_str_field(&mut msg, contract.currency.as_str());
    proof {
        lemma_grow(b12, start, acc, field_spec(contract.currency@));
        acc = acc + field_spec(contract.currency@);
    }
    let ghost b13 = msg@;
    push_str_field(&mut msg, contract.local_symbol.as_str());
    proof {
        lemma_grow(b13, start, acc, field_spec(contract.local_symbol@));
        acc = acc + field_spec(contract.local_symbol@);
    }
    let ghost b14 = msg@;
    if sv >= MIN_SERVER_VER_TRADING_CLASS {
        push_str_field(&mut msg, contract.trading_class.as_str());
    }
    assert(msg@ =~= b14 + given(sv >= MIN_SERVER_VER_TRADING_CLASS, field_spec(contract.trading_class@)));
    proof {
        lemma_grow(b14, start, acc, given(sv >= MIN_SERVER_VER_TRADING_CLASS, field_spec(contract.trading_class@)));
        acc = acc + given(sv >= MIN_SERVER_VER_TRADING_CLASS, field_spec(contract.trading_class@));
    }
    let ghost b15 = msg@;
    push_i32_field(&mut msg, bar_size);
    proof {
        lemma_grow(b15, start, acc, int_field((bar_size) as int));
        acc = acc + int_field((bar_size) as int);
    }
    let ghost b16 = msg@;
    push_str_field(&mut msg, what_to_show);
    proof {
        lemma_grow(b16, start, acc, field_spec(what_to_show@));
        acc = acc + field_spec(what_to_show@);
    }
    let ghost b17 = msg@;
    push_bool_field(&mut msg, use_rth);
    proof {
        lemma_grow(b17, start, acc, field_spec(bool_field_text(use_rth)));
        acc = acc + field_spec(bool_field_text(use_rth));
    }
    let ghost b18 = msg@;
    if sv >= MIN_SERVER_VER_LINKING {
        let options_text = misc_options(real_time_bars_options);
        push_str_field(&mut msg, options_text.as_str());
    }
    assert(msg@ =~= b18 + given(sv >= MIN_SERVER_VER_LINKING, field_spec(misc_options_text(real_time_bars_options@))));
    proof {
        lemma_grow(b18, start, acc, given(sv >= MIN_SERVER_VER_LINKING, field_spec(misc_options_text(real_time_bars_options@))));
        acc = acc + given(sv >= MIN_SERVER_VER_LINKING, field_spec(misc_options_text(real_time_bars_options@)));
    }
    assert(acc == req_real_time_bars_text(sv, req_id, contract, bar_size, what_to_show, use_rth, real_time_bars_options));
    assert(msg@ =~= acc);
    Ok(msg)
}

/// Why the server refuses `EClient::req_tick_by_tick_data`, if it does: the id that the error carries and the text
/// that follows the `UpdateTws` message.
pub open spec fn req_tick_by_tick_data_refusal(sv: i32, req_id: i32, contract: &ContractFields, tick_type: TickByTickType, number_of_ticks: i32, ignore_size: bool) -> Option<(int, Seq<char>)> {
    if sv < MIN_SERVER_VER_TICK_BY_TICK {
        Some((req_id as int, " It does not support tick-by-tick data requests."@))
    } else if sv < MIN_SERVER_VER_TICK_BY_TICK_IGNORE_SIZE {
        Some((req_id as int, " It does not support ignore_size and number_of_ticks parameters in tick-by-tick data requests."@))
    } else {
        None
    }
}

/// The text of the message that `EClient::req_tick_by_tick_data` sends.
pub open spec fn req_tick_by_tick_data_text(sv: i32, req_id: i32, contract: &ContractFields, tick_type: TickByTickType, number_of_ticks: i32, ignore_size: bool) -> Seq<char> {
    int_field((REQ_TICK_BY_TICK_DATA) as int)
        + int_field((req_id) as int)
        + int_field((contract.con_id) as int)
        + field_spec(contract.symbol@)
        + field_spec(contract.sec_type@)
        + field_spec(contract.last_trade_date_or_contract_month@)
        + field_spec(contract.strike@)
        + field_spec(contract.right@)
        + field_spec(contract.multiplier@)
        + field_spec(contract.exchange@)
        + field_spec(contract.primary_exchange@)
        + field_spec(contract.currency@)
        + field_spec(contract.local_symbol@)
        + field_spec(contract.trading_class@)
        + field_spec(tick_type.text_of())
        + given(sv >= MIN_SERVER_VER_TICK_BY_TICK_IGNORE_SIZE, int_field((number_of_ticks) as int) + field_spec(bool_field_text(ignore_size)))
}

/// The message that `EClient::req_tick_by_tick_data` sends (see `req_tick_by_tick_data_refusal` and `req_tick_by_tick_data_text`).
pub fn req_tick_by_tick_data_message(status: ConnStatus, sv: i32, req_id: i32, contract: &ContractFields, tick_type: TickByTickType, number_of_ticks: i32, ignore_size: bool) -> (r: Result<String, IBKRApiLibError>)
    ensures
        status != ConnStatus::CONNECTED ==> (r matches Err(e) && is_api_error(e, NO_VALID_ID as int, TwsError::NotConnected)),
        status == ConnStatus::CONNECTED ==> match req_tick_by_tick_data_refusal(sv, req_id, contract, tick_type, number_of_ticks, ignore_size) {
            Some((id, suffix)) => r matches Err(e) && is_api_error_with(e, id, TwsError::UpdateTws, suffix),
            None => r matches Ok(m) && m@ == req_tick_by_tick_data_text(sv, req_id, contract, tick_type, number_of_ticks, ignore_size),
        },
{
    if !status.is_connected() {
        return Err(api_error(NO_VALID_ID, TwsError::NotConnected));
    }
    if sv < MIN_SERVER_VER_TICK_BY_TICK {
        return Err(api_error_with(req_id, TwsError::UpdateTws, " It does not support tick-by-tick data requests."));
    }
    if sv < MIN_SERVER_VER_TICK_BY_TICK_IGNORE_SIZE {
        return Err(api_error_with(req_id, TwsError::UpdateTws, " It does not support ignore_size and number_of_ticks parameters in tick-by-tick data requests."));
    }
    let tick_type_text = tick_type.to_string();
    let mut msg = String::new();
    let ghost start = msg@;
    let ghost mut acc: Seq<char> = Seq::empty();
    let ghost b0 = msg@;
    push_i32_field(&mut msg, REQ_TICK_BY_TICK_DATA);
    proof {
        lemma_grow(b0, start, acc, int_field((REQ_TICK_BY_TICK_DATA) as int));
        acc = acc + int_field((REQ_TICK_BY_TICK_DATA) as int);
    }
    let ghost b1 = msg@;
    push_i32_field(&mut msg, req_id);
    proof {
        lemma_grow(b1, start, acc, int_field((req_id) as int));
        acc = acc + int_field((req_id) as int);
    }
    let ghost b2 = msg@;
    push_i32_field(&mut msg, contract.con_id);
    proof {
        lemma_grow(b2, start, acc, int_field((contract.con_id) as int));
        acc = acc + int_field((contract.con_id) as int);
    }
    let ghost b3 = msg@;
    push_str_field(&mut msg, contract.symbol.as_str());
    proof {
        lemma_grow(b3, start, acc, field_spec(contract.symbol@));
        acc = acc + field_spec(contract.symbol@);
    }
    let ghost b4 = msg@;
    push_str_field(&mut msg, contract.sec_type.as_str());
    proof {
        lemma_grow(b4, start, acc, field_spec(contract.sec_type@));
        acc = acc + field_spec(contract.sec_type@);
    }
    let ghost b5 = msg@;
    push_str_field(&mut msg, contract.last_trade_date_or_contract_month.as_str());
    proof {
        lemma_grow(b5, start, acc, field_spec(contract.last_trade_date_or_contract_month@));
        acc = acc + field_spec(contract.last_trade_date_or_contract_month@);
    }
    let ghost b6 = msg@;
    push_str_field(&mut msg, contract.strike.as_str());
    proof {
        lemma_grow(b6, start, acc, field_spec(contract.strike@));
        acc = acc + field_spec(contract.strike@);
    }
    let ghost b7 = msg@;
    push_str_field(&mut msg, contract.right.as_str());
    proof {
        lemma_grow(b7, start, acc, field_spec(contract.right@));
        acc = acc + field_spec(contract.right@);
    }
    let ghost b8 = msg@;
    push_str_field(&mut msg, contract.multiplier.as_str());
    proof {
        lemma_grow(b8, start, acc, field_spec(contract.multiplier@));
        acc = acc + field_spec(contract.multiplier@);
    }
    let ghost b9 = msg@;
    push_str_field(&mut msg, contract.exchange.as_str());
    proof {
        lemma_grow(b9, start, acc, field_spec(contract.exchange@));
        acc = acc + field_spec(contract.exchange@);
    }
    let ghost b10 = msg@;
    push_str_field(&mut msg, contract.primary_exchange.as_str());
    proof {
        lemma_grow(b10, start, acc, field_spec(contract.primary_exchange@));
        acc = acc + field_spec(contract.primary_exchange@);
    }
    let ghost b11 = msg@;
    push_str_field(&mut msg, contract.currency.as_str());
    proof {
        lemma_grow(b11, start, acc, field_spec(contract.currency@));
        acc = acc + field_spec(contract.currency@);
    }
    let ghost b12 = msg@;
    push_str_field(&mut msg, contract.local_symbol.as_str());
    proof {
        lemma_grow(b12, start, acc, field_spec(contract.local_symbol@));
        acc = acc + field_spec(contract.local_symbol@);
    }
    let ghost b13 = msg@;
    push_str_field(&mut msg, contract.trading_class.as_str());
    proof {
        lemma_grow(b13, start, acc, field_spec(contract.trading_class@));
        acc = acc + field_spec(contract.trading_class@);
    }
    let ghost b14 = msg@;
    push_str_field(&mut msg, tick_type_text.as_str());
    proof {
        lemma_grow(b14, start, acc, field_spec(tick_type.text_of()));
        acc = acc + field_spec(tick_type.text_of());
    }
    let ghost b15 = msg@;
    if sv >= MIN_SERVER_VER_TICK_BY_TICK_IGNORE_SIZE {
        push_i32_field(&mut msg, number_of_ticks);
        push_bool_field(&mut msg, ignore_size);
    }
    assert(msg@ =~= b15 + given(sv >= MIN_SERVER_VER_TICK_BY_TICK_IGNORE_SIZE, int_field((number_of_ticks) as int) + field_spec(bool_field_text(ignore_size))));
    proof {
        lemma_grow(b15, start, acc, given(sv >= MIN_SERVER_VER_TICK_BY_TICK_IGNORE_SIZE, int_field((number_of_ticks) as int) + field_spec(bool_field_text(ignore_size))));
        acc = acc + given(sv >= MIN_SERVER_VER_TICK_BY_TICK_IGNORE_SIZE, int_field((number_of_ticks) as int) + field_spec(bool_field_text(ignore_size)));
    }
    assert(acc == req_tick_by_tick_data_text(sv, req_id, contract, tick_type, number_of_ticks, ignore_size));
    assert(msg@ =~= acc);
    Ok(msg)
}

/// Why the server refuses `EClient::calculate_implied_volatility`, if it does: the id that the error carries and the text
/// that follows the `UpdateTws` message.
pub open spec fn calculate_implied_volatility_refusal(sv: i32, req_id: i32, contract: &ContractFields, option_price: &str, under_price: &str, options: &Vec<TagValue>) -> Option<(int, Seq<char>)> {
    if sv < MIN_SERVER_VER_REQ_CALC_IMPLIED_VOLAT {
        Some((req_id as int, " It does not support calculate_implied_volatility req."@))
    } else if sv < MIN_SERVER_VER_TRADING_CLASS && contract.trading_class@.len() > 0 {
        Some((req_id as int, " It does not support trading_class parameter in calculate_implied_volatility."@))
    } else {
        None
    }
}

/// The text of the message that `EClient::calculate_implied_volatility` sends.
pub open spec fn calculate_implied_volatility_text(sv: i32, req_id: i32, contract: &ContractFields, option_price: &str, under_price: &str, options: &Vec<TagValue>) -> Seq<char> {
    int_field((REQ_CALC_IMPLIED_VOLAT) as int)
        + int_field((3) as int)
        + int_field((req_id) as int)
        + int_field((contract.con_id) as int)
        + field_spec(contract.symbol@)
        + field_spec(contract.sec_type@)
        + field_spec(contract.last_trade_date_or_contract_month@)
        + field_spec(contract.strike@)
        + field_spec(contract.right@)
        + field_spec(contract.multiplier@)
        + field_spec(contract.exchange@)
        + field_spec(contract.primary_exchange@)
        + field_spec(contract.currency@)
        + field_spec(contract.local_symbol@)
        + given(sv >= MIN_SERVER_VER_TRADING_CLASS, field_spec(contract.trading_class@))
        + field_spec(option_price@)
        + field_spec(under_price@)
        + given(sv >= MIN_SERVER_VER_LINKING, int_field(options@.len() as int) + field_spec(misc_options_text(options@)))
}

/// The message that `EClient::calculate_implied_volatility` sends (see `calculate_implied_volatility_refusal` and `calculate_implied_volatility_text`).
pub fn calculate_implied_volatility_message(status: ConnStatus, sv: i32, req_id: i32, contract: &ContractFields, option_price: &str, under_price: &str, options: &Vec<TagValue>) -> (r: Result<String, IBKRApiLibError>)
    requires
        options@.len() <= i64::MAX,
    ensures
        status != ConnStatus::CONNECTED ==> (r matches Err(e) && is_api_error(e, req_id as int, TwsError::NotConnected)),
        status == ConnStatus::CONNECTED ==> match calculate_implied_volatility_refusal(sv, req_id, contract, option_price, under_price, options) {
            Some((id, suffix)) => r matches Err(e) && is_api_error_with(e, id, TwsError::UpdateTws, suffix),
            None => r matches Ok(m) && m@ == calculate_implied_volatility_text(sv, req_id, contract, option_price, under_price, options),
        },
{
    if !status.is_connected() {
        return Err(api_error(req_id, TwsError::NotConnected));
    }
    if sv < MIN_SERVER_VER_REQ_CALC_IMPLIED_VOLAT {
        return Err(api_error_with(req_id, TwsError::UpdateTws, " It does not support calculate_implied_volatility req."));
    }
    if sv < MIN_SERVER_VER_TRADING_CLASS && !contract.trading_class.as_str().is_empty() {
        return Err(api_error_with(req_id, TwsError::UpdateTws, " It does not support trading_class parameter in calculate_implied_volatility."));
    }
    let mut msg = String::new();
    let ghost start = msg@;
    let ghost mut acc: Seq<char> = Seq::empty();
    let ghost b0 = msg@;
    push_i32_field(&mut msg, REQ_CALC_IMPLIED_VOLAT);
    proof {
        lemma_grow(b0, start, acc, int_field((REQ_CALC_IMPLIED_VOLAT) as int));
        acc = acc + int_field((REQ_CALC_IMPLIED_VOLAT) as int);
    }
    let ghost b1 = msg@;
    push_i32_field(&mut msg, 3);
    proof {
        lemma_grow(b1, start, acc, int_field((3) as int));
        acc = acc + int_field((3) as int);
    }
    let ghost b2 = msg@;
    push_i32_field(&mut msg, req_id);
    proof {
        lemma_grow(b2, start, acc, int_field((req_id) as int));
        acc = acc + int_field((req_id) as int);
    }
    let ghost b3 = msg@;
    push_i32_field(&mut msg, contract.con_id);
    proof {
        lemma_grow(b3, start, acc, int_field((contract.con_id) as int));
        acc = acc + int_field((contract.con_id) as int);
    }
    let ghost b4 = msg@;
    push_str_field(&mut msg, contract.symbol.as_str());
    proof {
        lemma_grow(b4, start, acc, field_spec(contract.symbol@));
        acc = acc + field_spec(contract.symbol@);
    }
    let ghost b5 = msg@;
    push_str_field(&mut msg, contract.sec_type.as_str());
    proof {
        lemma_grow(b5, start, acc, field_spec(contract.sec_type@));
        acc = acc + field_spec(contract.sec_type@);
    }
    let ghost b6 = msg@;
    push_str_field(&mut msg, contract.last_trade_date_or_contract_month.as_str());
    proof {
        lemma_grow(b6, start, acc, field_spec(contract.last_trade_date_or_contract_month@));
        acc = acc + field_spec(contract.last_trade_date_or_contract_month@);
    }
    let ghost b7 = msg@;
    push_str_field(&mut msg, contract.strike.as_str());
    proof {
        lemma_grow(b7, start, acc, field_spec(contract.strike@));
        acc = acc + field_spec(contract.strike@);
    }
    let ghost b8 = msg@;
    push_str_field(&mut msg, contract.right.as_str());
    proof {
        lemma_grow(b8, start, acc, field_spec(contract.right@));
        acc = acc + field_spec(contract.right@);
    }
    let ghost b9 = msg@;
    push_str_field(&mut msg, contract.multiplier.as_str());
    proof {
        lemma_grow(b9, start, acc, field_spec(contract.multiplier@));
        acc = acc + field_spec(contract.multiplier@);
    }
    let ghost b10 = msg@;
    push_str_field(&mut msg, contract.exchange.as_str());
    proof {
        lemma_grow(b10, start, acc, field_spec(contract.exchange@));
        acc = acc + field_spec(contract.exchange@);
    }
    let ghost b11 = msg@;
    push_str_field(&mut msg, contract.primary_exchange.as_str());
    proof {
        lemma_grow(b11, start, acc, field_spec(contract.primary_exchange@));
        acc = acc + field_spec(contract.primary_exchange@);
    }
    let ghost b12 = msg@;
    push_str_field(&mut msg, contract.currency.as_str());
    proof {
        lemma_grow(b12, start, acc, field_spec(contract.currency@));
        acc = acc + field_spec(contract.currency@);
    }
    let ghost b13 = msg@;
    push_str_field(&mut msg, contract.local_symbol.as_str());
    proof {
        lemma_grow(b13, start, acc, field_spec(contract.local_symbol@));
        acc = acc + field_spec(contract.local_symbol@);
    }
    let ghost b14 = msg@;
    if sv >= MIN_SERVER_VER_TRADING_CLASS {
        push_str_field(&mut msg, contract.trading_class.as_str());
    }
    assert(msg@ =~= b14 + given(sv >= MIN_SERVER_VER_TRADING_CLASS, field_spec(contract.trading_class@)));
    proof {
        lemma_grow(b14, start, acc, given(sv >= MIN_SERVER_VER_TRADING_CLASS, field_spec(contract.trading_class@)));
        acc = acc + given(sv >= MIN_SERVER_VER_TRADING_CLASS, field_spec(contract.trading_class@));
    }
    let ghost b15 = msg@;
    push_str_field(&mut msg, option_price);
    proof {
        lemma_grow(b15, start, acc, field_spec(option_price@));
        acc = acc + field_spec(option_price@);
    }
    let ghost b16 = msg@;
    push_str_field(&mut msg, under_price);
    proof {
        lemma_grow(b16, start, acc, field_spec(under_price@));
        acc = acc + field_spec(under_price@);
    }
    let ghost b17 = msg@;
    if sv >= MIN_SERVER_VER_LINKING {
        push_count(&mut msg, options.len());
        let options_text = misc_options(options);
        push_str_field(&mut msg, options_text.as_str());
    }
    assert(msg@ =~= b17 + given(sv >= MIN_SERVER_VER_LINKING, int_field(options@.len() as int) + field_spec(misc_options_text(options@))));
    proof {
        lemma_grow(b17, start, acc, given(sv >= MIN_SERVER_VER_LINKING, int_field(options@.len() as int) + field_spec(misc_options_text(options@))));
        acc = acc + given(sv >= MIN_SERVER_VER_LINKING, int_field(options@.len() as int) + field_spec(misc_options_text(options@)));
    }
    assert(acc == calculate_implied_volatility_text(sv, req_id, contract, option_price, under_price, options));
    assert(msg@ =~= acc);
    Ok(msg)
}

/// Why the server refuses `EClient::calculate_option_price`, if it does: the id that the error carries and the text
/// that follows the `UpdateTws` message.
pub open spec fn calculate_option_price_refusal(sv: i32, req_id: i32, contract: &ContractFields, volatility: &str, under_price: &str, options: &Vec<TagValue>) -> Option<(int, Seq<char>)> {
    if sv < MIN_SERVER_VER_REQ_CALC_IMPLIED_VOLAT {
        Some((req_id as int, " It does not support calculateImpliedVolatility req."@))
    } else if sv < MIN_SERVER_VER_TRADING_CLASS && contract.trading_class@.len() > 0 {
        Some((req_id as int, " It does not support trading_class parameter in calculateImpliedVolatility."@))
    } else {
        None
    }
}

/// The text of the message that `EClient::calculate_option_price` sends.
pub open spec fn calculate_option_price_text(sv: i32, req_id: i32, contract: &ContractFields, volatility: &str, under_price: &str, options: &Vec<TagValue>) -> Seq<char> {
    int_field((REQ_CALC_OPTION_PRICE) as int)
        + int_field((3) as int)
        + int_field((req_id) as int)
        + int_field((contract.con_id) as int)
        + field_spec(contract.symbol@)
        + field_spec(contract.sec_type@)
        + field_spec(contract.last_trade_date_or_contract_month@)
        + field_spec(contract.strike@)
        + field_spec(contract.right@)
        + field_spec(contract.multiplier@)
        + field_spec(contract.exchange@)
        + field_spec(contract.primary_exchange@)
        + field_spec(contract.currency@)
        + field_spec(contract.local_symbol@)
        + given(sv >= MIN_SERVER_VER_TRADING_CLASS, field_spec(contract.trading_class@))
        + field_spec(volatility@)
        + field_spec(under_price@)
        + given(sv >= MIN_SERVER_VER_LINKING && options@.len() > 0, int_field(options@.len() as int) + field_spec(misc_options_text(options@)))
}

/// The message that `EClient::calculate_option_price` sends (see `calculate_option_price_refusal` and `calculate_option_price_text`).
pub fn calculate_option_price_message(status: ConnStatus, sv: i32, req_id: i32, contract: &ContractFields, volatility: &str, under_price: &str, options: &Vec<TagValue>) -> (r: Result<String, IBKRApiLibError>)
    requires
        options@.len() <= i64::MAX,
    ensures
        status != ConnStatus::CONNECTED ==> (r matches Err(e) && is_api_error(e, req_id as int, TwsError::NotConnected)),
        status == ConnStatus::CONNECTED ==> match calculate_option_price_refusal(sv, req_id, contract, volatility, under_price, options) {
            Some((id, suffix)) => r matches Err(e) && is_api_error_with(e, id, TwsError::UpdateTws, suffix),
            None => r matches Ok(m) && m@ == calculate_option_price_text(sv, req_id, contract, volatility, under_price, options),
        },
{
    if !status.is_connected() {
        return Err(api_error(req_id, TwsError::NotConnected));
    }
    if sv < MIN_SERVER_VER_REQ_CALC_IMPLIED_VOLAT {
        return Err(api_error_with(req_id, TwsError::UpdateTws, " It does not support calculateImpliedVolatility req."));
    }
    if sv < MIN_SERVER_VER_TRADING_CLASS && !contract.trading_class.as_str().is_empty() {
        return Err(api_error_with(req_id, TwsError::UpdateTws, " It does not support trading_class parameter in calculateImpliedVolatility."));
    }
    let mut msg = String::new();
    let ghost start = msg@;
    let ghost mut acc: Seq<char> = Seq::empty();
    let ghost b0 = msg@;
    push_i32_field(&mut msg, REQ_CALC_OPTION_PRICE);
    proof {
        lemma_grow(b0, start, acc, int_field((REQ_CALC_OPTION_PRICE) as int));
        acc = acc + int_field((REQ_CALC_OPTION_PRICE) as int);
    }
    let ghost b1 = msg@;
    push_i32_field(&mut msg, 3);
    proof {
        lemma_grow(b1, start, acc, int_field((3) as int));
        acc = acc + int_field((3) as int);
    }
    let ghost b2 = msg@;
    push_i32_field(&mut msg, req_id);
    proof {
        lemma_grow(b2, start, acc, int_field((req_id) as int));
        acc = acc + int_field((req_id) as int);
    }
    let ghost b3 = msg@;
    push_i32_field(&mut msg, contract.con_id);
    proof {
        lemma_grow(b3, start, acc, int_field((contract.con_id) as int));
        acc = acc + int_field((contract.con_id) as int);
    }
    let ghost b4 = msg@;
    push_str_field(&mut msg, contract.symbol.as_str());
    proof {
        lemma_grow(b4, start, acc, field_spec(contract.symbol@));
        acc = acc + field_spec(contract.symbol@);
    }
    let ghost b5 = msg@;
    push_str_field(&mut msg, contract.sec_type.as_str());
    proof {
        lemma_grow(b5, start, acc, field_spec(contract.sec_type@));
        acc = acc + field_spec(contract.sec_type@);
    }
    let ghost b6 = msg@;
    push_str_field(&mut msg, contract.last_trade_date_or_contract_month.as_str());
    proof {
        lemma_grow(b6, start, acc, field_spec(contract.last_trade_date_or_contract_month@));
        acc = acc + field_spec(contract.last_trade_date_or_contract_month@);
    }
    let ghost b7 = msg@;
    push_str_field(&mut msg, contract.strike.as_str());
    proof {
        lemma_grow(b7, start, acc, field_spec(contract.strike@));
        acc = acc + field_spec(contract.strike@);
    }
    let ghost b8 = msg@;
    push_str_field(&mut msg, contract.right.as_str());
    proof {
        lemma_grow(b8, start, acc, field_spec(contract.right@));
        acc = acc + field_spec(contract.right@);
    }
    let ghost b9 = msg@;
    push_str_field(&mut msg, contract.multiplier.as_str());
    proof {
        lemma_grow(b9, start, acc, field_spec(contract.multiplier@));
        acc = acc + field_spec(contract.multiplier@);
    }
    let ghost b10 = msg@;
    push_str_field(&mut msg, contract.exchange.as_str());
    proof {
        lemma_grow(b10, start, acc, field_spec(contract.exchange@));
        acc = acc + field_spec(contract.exchange@);
    }
    let ghost b11 = msg@;
    push_str_field(&mut msg, contract.primary_exchange.as_str());
    proof {
        lemma_grow(b11, start, acc, field_spec(contract.primary_exchange@));
        acc = acc + field_spec(contract.primary_exchange@);
    }
    let ghost b12 = msg@;
    push_str_field(&mut msg, contract.currency.as_str());
    proof {
        lemma_grow(b12, start, acc, field_spec(contract.currency@));
        acc = acc + field_spec(contract.currency@);
    }
    let ghost b13 = msg@;
    push_str_field(&mut msg, contract.local_symbol.as_str());
    proof {
        lemma_grow(b13, start, acc, field_spec(contract.local_symbol@));
        acc = acc + field_spec(contract.local_symbol@);
    }
    let ghost b14 = msg@;
    if sv >= MIN_SERVER_VER_TRADING_CLASS {
        push_str_field(&mut msg, contract.trading_class.as_str());
    }
    assert(msg@ =~= b14 + given(sv >= MIN_SERVER_VER_TRADING_CLASS, field_spec(contract.trading_class@)));
    proof {
        lemma_grow(b14, start, acc, given(sv >= MIN_SERVER_VER_TRADING_CLASS, field_spec(contract.trading_class@)));
        acc = acc + given(sv >= MIN_SERVER_VER_TRADING_CLASS, field_spec(contract.trading_class@));
    }
    let ghost b15 = msg@;
    push_str_field(&mut msg, volatility);
    proof {
        lemma_grow(b15, start, acc, field_spec(volatility@));
        acc = acc + field_spec(volatility@);
    }
    let ghost b16 = msg@;
    push_str_field(&mut msg, under_price);
    proof {
        lemma_grow(b16, start, acc, field_spec(under_price@));
        acc = acc + field_spec(under_price@);
    }
    let ghost b17 = msg@;
    if sv >= MIN_SERVER_VER_LINKING && options.len() > 0 {
        push_count(&mut msg, options.len());
        let options_text = misc_options(options);
        push_str_field(&mut msg, options_text.as_str());
    }
    assert(msg@ =~= b17 + given(sv >= MIN_SERVER_VER_LINKING && options@.len() > 0, int_field(options@.len() as int) + field_spec(misc_options_text(options@))));
    proof {
        lemma_grow(b17, start, acc, given(sv >= MIN_SERVER_VER_LINKING && options@.len() > 0, int_field(options@.len() as int) + field_spec(misc_options_text(options@))));
        acc = acc + given(sv >= MIN_SERVER_VER_LINKING && options@.len() > 0, int_field(options@.len() as int) + field_spec(misc_options_text(options@)));
    }
    assert(acc == calculate_option_price_text(sv, req_id, contract, volatility, under_price, options));
    assert(msg@ =~= acc);
    Ok(msg)
}

/// Why the server refuses `EClient::exercise_options`, if it does: the id that the error carries and the text
/// that follows the `UpdateTws` message.
pub open spec fn exercise_options_refusal(sv: i32, req_id: i32, contract: &ContractFields, exercise_action: i32, exercise_quantity: i32, account: &str, over_ride: i32) -> Option<(int, Seq<char>)> {
    if sv < MIN_SERVER_VER_TRADING_CLASS && contract.trading_class@.len() > 0 {
        Some((req_id as int, " It does not support con_id, multiplier, trading_class parameter in exercise_options."@))
    } else {
        None
    }
}

/// The text of the message that `EClient::exercise_options` sends.
pub open spec fn exercise_options_text(sv: i32, req_id: i32, contract: &ContractFields, exercise_action: i32, exercise_quantity: i32, account: &str, over_ride: i32) -> Seq<char> {
    int_field((EXERCISE_OPTIONS) as int)
        + int_field((2) as int)
        + int_field((req_id) as int)
        + given(sv >= MIN_SERVER_VER_TRADING_CLASS, int_field((contract.con_id) as int))
        + field_spec(contract.symbol@)
        + field_spec(contract.sec_type@)
        + field_spec(contract.last_trade_date_or_contract_month@)
        + field_spec(contract.strike@)
        + field_spec(contract.right@)
        + field_spec(contract.multiplier@)
        + field_spec(contract.exchange@)
        + field_spec(contract.currency@)
        + field_spec(contract.local_symbol@)
        + given(sv >= MIN_SERVER_VER_TRADING_CLASS, field_spec(contract.trading_class@))
        + int_field((exercise_action) as int)
        + int_field((exercise_quantity) as int)
        + field_spec(account@)
        + int_field((over_ride) as int)
}

/// The message that `EClient::exercise_options` sends (see `exercise_options_refusal` and `exercise_options_text`).
pub fn exercise_options_message(status: ConnStatus, sv: i32, req_id: i32, contract: &ContractFields, exercise_action: i32, exercise_quantity: i32, account: &str, over_ride: i32) -> (r: Result<String, IBKRApiLibError>)
    ensures
        status != ConnStatus::CONNECTED ==> (r matches Err(e) && is_api_error(e, req_id as int, TwsError::NotConnected)),
        status == ConnStatus::CONNECTED ==> match exercise_options_refusal(sv, req_id, contract, exercise_action, exercise_quantity, account, over_ride) {
            Some((id, suffix)) => r matches Err(e) && is_api_error_with(e, id, TwsError::UpdateTws, suffix),
            None => r matches Ok(m) && m@ == exercise_options_text(sv, req_id, contract, exercise_action, exercise_quantity, account, over_ride),
        },
{
    if !status.is_connected() {
        return Err(api_error(req_id, TwsError::NotConnected));
    }
    if sv < MIN_SERVER_VER_TRADING_CLASS && !contract.trading_class.as_str().is_empty() {
        return Err(api_error_with(req_id, TwsError::UpdateTws, " It does not support con_id, multiplier, trading_class parameter in exercise_options."));
    }
    let mut msg = String::new();
    let ghost start = msg@;
    let ghost mut acc: Seq<char> = Seq::empty();
    let ghost b0 = msg@;
    push_i32_field(&mut msg, EXERCISE_OPTIONS);
    proof {
        lemma_grow(b0, start, acc, int_field((EXERCISE_OPTIONS) as int));
        acc = acc + int_field((EXERCISE_OPTIONS) as int);
    }
    let ghost b1 = msg@;
    push_i32_field(&mut msg, 2);
    proof {
        lemma_grow(b1, start, acc, int_field((2) as int));
        acc = acc + int_field((2) as int);
    }
    let ghost b2 = msg@;
    push_i32_field(&mut msg, req_id);
    proof {
        lemma_grow(b2, start, acc, int_field((req_id) as int));
        acc = acc + int_field((req_id) as int);
    }
    let ghost b3 = msg@;
    if sv >= MIN_SERVER_VER_TRADING_CLASS {
        push_i32_field(&mut msg, contract.con_id);
    }
    assert(msg@ =~= b3 + given(sv >= MIN_SERVER_VER_TRADING_CLASS, int_field((contract.con_id) as int)));
    proof {
        lemma_grow(b3, start, acc, given(sv >= MIN_SERVER_VER_TRADING_CLASS, int_field((contract.con_id) as int)));
        acc = acc + given(sv >= MIN_SERVER_VER_TRADING_CLASS, int_field((contract.con_id) as int));
    }
    let ghost b4 = msg@;
    push_str_field(&mut msg, contract.symbol.as_str());
    proof {
        lemma_grow(b4, start, acc, field_spec(contract.symbol@));
        acc = acc + field_spec(contract.symbol@);
    }
    let ghost b5 = msg@;
    push_str_field(&mut msg, contract.sec_type.as_str());
    proof {
        lemma_grow(b5, start, acc, field_spec(contract.sec_type@));
        acc = acc + field_spec(contract.sec_type@);
    }
    let ghost b6 = msg@;
    push_str_field(&mut msg, contract.last_trade_date_or_contract_month.as_str());
    proof {
        lemma_grow(b6, start, acc, field_spec(contract.last_trade_date_or_contract_month@));
        acc = acc + field_spec(contract.last_trade_date_or_contract_month@);
    }
    let ghost b7 = msg@;
    push_str_field(&mut msg, contract.strike.as_str());
    proof {
        lemma_grow(b7, start, acc, field_spec(contract.strike@));
        acc = acc + field_spec(contract.strike@);
    }
    let ghost b8 = msg@;
    push_str_field(&mut msg, contract.right.as_str());
    proof {
        lemma_grow(b8, start, acc, field_spec(contract.right@));
        acc = acc + field_spec(contract.right@);
    }
    let ghost b9 = msg@;
    push_str_field(&mut msg, contract.multiplier.as_str());
    proof {
        lemma_grow(b9, start, acc, field_spec(contract.multiplier@));
        acc = acc + field_spec(contract.multiplier@);
    }
    let ghost b10 = msg@;
    push_str_field(&mut msg, contract.exchange.as_str());
    proof {
        lemma_grow(b10, start, acc, field_spec(contract.exchange@));
        acc = acc + field_spec(contract.exchange@);
    }
    let ghost b11 = msg@;
    push_str_field(&mut msg, contract.currency.as_str());
    proof {
        lemma_grow(b11, start, acc, field_spec(contract.currency@));
        acc = acc + field_spec(contract.currency@);
    }
    let ghost b12 = msg@;
    push_str_field(&mut msg, contract.local_symbol.as_str());
    proof {
        lemma_grow(b12, start, acc, field_spec(contract.local_symbol@));
        acc = acc + field_spec(contract.local_symbol@);
    }
    let ghost b13 = msg@;
    if sv >= MIN_SERVER_VER_TRADING_CLASS {
        push_str_field(&mut msg, contract.trading_class.as_str());
    }
    assert(msg@ =~= b13 + given(sv >= MIN_SERVER_VER_TRADING_CLASS, field_spec(contract.trading_class@)));
    proof {
        lemma_grow(b13, start, acc, given(sv >= MIN_SERVER_VER_TRADING_CLASS, field_spec(contract.trading_class@)));
        acc = acc + given(sv >= MIN_SERVER_VER_TRADING_CLASS, field_spec(contract.trading_class@));
    }
    let ghost b14 = msg@;
    push_i32_field(&mut msg, exercise_action);
    proof {
        lemma_grow(b14, start, acc, int_field((exercise_action) as int));
        acc = acc + int_field((exercise_action) as int);
    }
    let ghost b15 = msg@;
    push_i32_field(&mut msg, exercise_quantity);
    proof {
        lemma_grow(b15, start, acc, int_field((exercise_quantity) as int));
        acc = acc + int_field((exercise_quantity) as int);
    }
    let ghost b16 = msg@;
    push_str_field(&mut msg, account);
    proof {
        lemma_grow(b16, start, acc, field_spec(account@));
        acc = acc + field_spec(account@);
    }
    let ghost b17 = msg@;
    push_i32_field(&mut msg, over_ride);
    proof {
        lemma_grow(b17, start, acc, int_field((over_ride) as int));
        acc = acc + int_field((over_ride) as int);
    }
    assert(acc == exercise_options_text(sv, req_id, contract, exercise_action, exercise_quantity, account, over_ride));
    assert(msg@ =~= acc);
    Ok(msg)
}

/// Why the server refuses `EClient::req_fundamental_data`, if it does: the id that the error carries and the text
/// that follows the `UpdateTws` message.
pub open spec fn req_fundamental_data_refusal(sv: i32, req_id: i32, contract: &ContractFields, report_type: &str, options: &Vec<TagValue>) -> Option<(int, Seq<char>)> {
    if sv < MIN_SERVER_VER_FUNDAMENTAL_DATA {
        Some((req_id as int, " It does not support fundamental data request."@))
    } else if sv < MIN_SERVER_VER_TRADING_CLASS {
        Some((req_id as int, " It does not support con_id parameter in fundamental data request."@))
    } else {
        None
    }
}

/// The text of the message that `EClient::req_fundamental_data` sends.
pub open spec fn req_fundamental_data_text(sv: i32, req_id: i32, contract: &ContractFields, report_type: &str, options: &Vec<TagValue>) -> Seq<char> {
    int_field((REQ_FUNDAMENTAL_DATA) as int)
        + int_field((2) as int)
        + int_field((req_id) as int)
        + given(sv >= MIN_SERVER_VER_TRADING_CLASS, int_field((contract.con_id) as int))
        + field_spec(contract.symbol@)
        + field_spec(contract.sec_type@)
        + field_spec(contract.exchange@)
        + field_spec(contract.primary_exchange@)
        + field_spec(contract.currency@)
        + field_spec(contract.local_symbol@)
        + field_spec(report_type@)
        + given(sv >= MIN_SERVER_VER_LINKING, int_field(options@.len() as int) + field_spec(misc_options_text(options@)))
}

/// The message that `EClient::req_fundamental_data` sends (see `req_fundamental_data_refusal` and `req_fundamental_data_text`).
pub fn req_fundamental_data_message(status: ConnStatus, sv: i32, req_id: i32, contract: &ContractFields, report_type: &str, options: &Vec<TagValue>) -> (r: Result<String, IBKRApiLibError>)
    requires
        options@.len() <= i64::MAX,
    ensures
        status != ConnStatus::CONNECTED ==> (r matches Err(e) && is_api_error(e, NO_VALID_ID as int, TwsError::NotConnected)),
        status == ConnStatus::CONNECTED ==> match req_fundamental_data_refusal(sv, req_id, contract, report_type, options) {
            Some((id, suffix)) => r matches Err(e) && is_api_error_with(e, id, TwsError::UpdateTws, suffix),
            None => r matches Ok(m) && m@ == req_fundamental_data_text(sv, req_id, contract, report_type, options),
        },
{
    if !status.is_connected() {
        return Err(api_error(NO_VALID_ID, TwsError::NotConnected));
    }
    if sv < MIN_SERVER_VER_FUNDAMENTAL_DATA {
        return Err(api_error_with(req_id, TwsError::UpdateTws, " It does not support fundamental data request."));
    }
    if sv < MIN_SERVER_VER_TRADING_CLASS {
        return Err(api_error_with(req_id, TwsError::UpdateTws, " It does not support con_id parameter in fundamental data request."));
    }
    let mut msg = String::new();
    let ghost start = msg@;
    let ghost mut acc: Seq<char> = Seq::empty();
    let ghost b0 = msg@;
    push_i32_field(&mut msg, REQ_FUNDAMENTAL_DATA);
    proof {
        lemma_grow(b0, start, acc, int_field((REQ_FUNDAMENTAL_DATA) as int));
        acc = acc + int_field((REQ_FUNDAMENTAL_DATA) as int);
    }
    let ghost b1 = msg@;
    push_i32_field(&mut msg, 2);
    proof {
        lemma_grow(b1, start, acc, int_field((2) as int));
        acc = acc + int_field((2) as int);
    }
    let ghost b2 = msg@;
    push_i32_field(&mut msg, req_id);
    proof {
        lemma_grow(b2, start, acc, int_field((req_id) as int));
        acc = acc + int_field((req_id) as int);
    }
    let ghost b3 = msg@;
    if sv >= MIN_SERVER_VER_TRADING_CLASS {
        push_i32_field(&mut msg, contract.con_id);
    }
    assert(msg@ =~= b3 + given(sv >= MIN_SERVER_VER_TRADING_CLASS, int_field((contract.con_id) as int)));
    proof {
        lemma_grow(b3, start, acc, given(sv >= MIN_SERVER_VER_TRADING_CLASS, int_field((contract.con_id) as int)));
        acc = acc + given(sv >= MIN_SERVER_VER_TRADING_CLASS, int_field((contract.con_id) as int));
    }
    let ghost b4 = msg@;
    push_str_field(&mut msg, contract.symbol.as_str());
    proof {
        lemma_grow(b4, start, acc, field_spec(contract.symbol@));
        acc = acc + field_spec(contract.symbol@);
    }
    let ghost b5 = msg@;
    push_str_field(&mut msg, contract.sec_type.as_str());
    proof {
        lemma_grow(b5, start, acc, field_spec(contract.sec_type@));
        acc = acc + field_spec(contract.sec_type@);
    }
    let ghost b6 = msg@;
    push_str_field(&mut msg, contract.exchange.as_str());
    proof {
        lemma_grow(b6, start, acc, field_spec(contract.exchange@));
        acc = acc + field_spec(contract.exchange@);
    }
    let ghost b7 = msg@;
    push_str_field(&mut msg, contract.primary_exchange.as_str());
    proof {
        lemma_grow(b7, start, acc, field_spec(contract.primary_exchange@));
        acc = acc + field_spec(contract.primary_exchange@);
    }
    let ghost b8 = msg@;
    push_str_field(&mut msg, contract.currency.as_str());
    proof {
        lemma_grow(b8, start, acc, field_spec(contract.currency@));
        acc = acc + field_spec(contract.currency@);
    }
    let ghost b9 = msg@;
    push_str_field(&mut msg, contract.local_symbol.as_str());
    proof {
        lemma_grow(b9, start, acc, field_spec(contract.local_symbol@));
        acc = acc + field_spec(contract.local_symbol@);
    }
    let ghost b10 = msg@;
    push_str_field(&mut msg, report_type);
    proof {
        lemma_grow(b10, start, acc, field_spec(report_type@));
        acc = acc + field_spec(report_type@);
    }
    let ghost b11 = msg@;
    if sv >= MIN_SERVER_VER_LINKING {
        push_count(&mut msg, options.len());
        let options_text = misc_options(options);
        push_str_field(&mut msg, options_text.as_str());
    }
    assert(msg@ =~= b11 + given(sv >= MIN_SERVER_VER_LINKING, int_field(options@.len() as int) + field_spec(misc_options_text(options@))));
    proof {
        lemma_grow(b11, start, acc, given(sv >= MIN_SERVER_VER_LINKING, int_field(options@.len() as int) + field_spec(misc_options_text(options@))));
        acc = acc + given(sv >= MIN_SERVER_VER_LINKING, int_field(options@.len() as int) + field_spec(misc_options_text(options@)));
    }
    assert(acc == req_fundamental_data_text(sv, req_id, contract, report_type, options));
    assert(msg@ =~= acc);
    Ok(msg)
}

/// Why the server refuses `EClient::req_head_time_stamp`, if it does: the id that the error carries and the text
/// that follows the `UpdateTws` message.
pub open spec fn req_head_time_stamp_refusal(sv: i32, req_id: i32, contract: &ContractFields, what_to_show: &str, use_rth: i32, format_date: i32) -> Option<(int, Seq<char>)> {
    if sv < MIN_SERVER_VER_REQ_HEAD_TIMESTAMP {
        Some((req_id as int, " It does not support head time stamp requests."@))
    } else {
        None
    }
}

/// The text of the message that `EClient::req_head_time_stamp` sends.
pub open spec fn req_head_time_stamp_text(sv: i32, req_id: i32, contract: &ContractFields, what_to_show: &str, use_rth: i32, format_date: i32) -> Seq<char> {
    int_field((REQ_HEAD_TIMESTAMP) as int)
        + int_field((req_id) as int)
        + int_field((contract.con_id) as int)
        + field_spec(contract.symbol@)
        + field_spec(contract.sec_type@)
        + field_spec(contract.last_trade_date_or_contract_month@)
        + field_spec(contract.strike@)
        + field_spec(contract.right@)
        + field_spec(contract.multiplier@)
        + field_spec(contract.exchange@)
        + field_spec(contract.primary_exchange@)
        + field_spec(contract.currency@)
        + field_spec(contract.local_symbol@)
        + field_spec(contract.trading_class@)
        + field_spec(bool_field_text(contract.include_expired))
        + int_field((use_rth) as int)
        + field_spec(what_to_show@)
        + int_field((format_date) as int)
}

/// The message that `EClient::req_head_time_stamp` sends (see `req_head_time_stamp_refusal` and `req_head_time_stamp_text`).
pub fn req_head_time_stamp_message(status: ConnStatus, sv: i32, req_id: i32, contract: &ContractFields, what_to_show: &str, use_rth: i32, format_date: i32) -> (r: Result<String, IBKRApiLibError>)
    ensures
        status != ConnStatus::CONNECTED ==> (r matches Err(e) && is_api_error(e, NO_VALID_ID as int, TwsError::NotConnected)),
        status == ConnStatus::CONNECTED ==> match req_head_time_stamp_refusal(sv, req_id, contract, what_to_show, use_rth, format_date) {
            Some((id, suffix)) => r matches Err(e) && is_api_error_with(e, id, TwsError::UpdateTws, suffix),
            None => r matches Ok(m) && m@ == req_head_time_stamp_text(sv, req_id, contract, what_to_show, use_rth, format_date),
        },
{
    if !status.is_connected() {
        return Err(api_error(NO_VALID_ID, TwsError::NotConnected));
    }
    if sv < MIN_SERVER_VER_REQ_HEAD_TIMESTAMP {
        return Err(api_error_with(req_id, TwsError::UpdateTws, " It does not support head time stamp requests."));
    }
    let mut msg = String::new();
    let ghost start = msg@;
    let ghost mut acc: Seq<char> = Seq::empty();
    let ghost b0 = msg@;
    push_i32_field(&mut msg, REQ_HEAD_TIMESTAMP);
    proof {
        lemma_grow(b0, start, acc, int_field((REQ_HEAD_TIMESTAMP) as int));
        acc = acc + int_field((REQ_HEAD_TIMESTAMP) as int);
    }
    let ghost b1 = msg@;
    push_i32_field(&mut msg, req_id);
    proof {
        lemma_grow(b1, start, acc, int_field((req_id) as int));
        acc = acc + int_field((req_id) as int);
    }
    let ghost b2 = msg@;
    push_i32_field(&mut msg, contract.con_id);
    proof {
        lemma_grow(b2, start, acc, int_field((contract.con_id) as int));
        acc = acc + int_field((contract.con_id) as int);
    }
    let ghost b3 = msg@;
    push_str_field(&mut msg, contract.symbol.as_str());
    proof {
        lemma_grow(b3, start, acc, field_spec(contract.symbol@));
        acc = acc + field_spec(contract.symbol@);
    }
    let ghost b4 = msg@;
    push_str_field(&mut msg, contract.sec_type.as_str());
    proof {
        lemma_grow(b4, start, acc, field_spec(contract.sec_type@));
        acc = acc + field_spec(contract.sec_type@);
    }
    let ghost b5 = msg@;
    push_str_field(&mut msg, contract.last_trade_date_or_contract_month.as_str());
    proof {
        lemma_grow(b5, start, acc, field_spec(contract.last_trade_date_or_contract_month@));
        acc = acc + field_spec(contract.last_trade_date_or_contract_month@);
    }
    let ghost b6 = msg@;
    push_str_field(&mut msg, contract.strike.as_str());
    proof {
        lemma_grow(b6, start, acc, field_spec(contract.strike@));
        acc = acc + field_spec(contract.strike@);
    }
    let ghost b7 = msg@;
    push_str_field(&mut msg, contract.right.as_str());
    proof {
        lemma_grow(b7, start, acc, field_spec(contract.right@));
        acc = acc + field_spec(contract.right@);
    }
    let ghost b8 = msg@;
    push_str_field(&mut msg, contract.multiplier.as_str());
    proof {
        lemma_grow(b8, start, acc, field_spec(contract.multiplier@));
        acc = acc + field_spec(contract.multiplier@);
    }
    let ghost b9 = msg@;
    push_str_field(&mut msg, contract.exchange.as_str());
    proof {
        lemma_grow(b9, start, acc, field_spec(contract.exchange@));
        acc = acc + field_spec(contract.exchange@);
    }
    let ghost b10 = msg@;
    push_str_field(&mut msg, contract.primary_exchange.as_str());
    proof {
        lemma_grow(b10, start, acc, field_spec(contract.primary_exchange@));
        acc = acc + field_spec(contract.primary_exchange@);
    }
    let ghost b11 = msg@;
    push_str_field(&mut msg, contract.currency.as_str());
    proof {
        lemma_grow(b11, start, acc, field_spec(contract.currency@));
        acc = acc + field_spec(contract.currency@);
    }
    let ghost b12 = msg@;
    push_str_field(&mut msg, contract.local_symbol.as_str());
    proof {
        lemma_grow(b12, start, acc, field_spec(contract.local_symbol@));
        acc = acc + field_spec(contract.local_symbol@);
    }
    let ghost b13 = msg@;
    push_str_field(&mut msg, contract.trading_class.as_str());
    proof {
        lemma_grow(b13, start, acc, field_spec(contract.trading_class@));
        acc = acc + field_spec(contract.trading_class@);
    }
    let ghost b14 = msg@;
    push_bool_field(&mut msg, contract.include_expired);
    proof {
        lemma_grow(b14, start, acc, field_spec(bool_field_text(contract.include_expired)));
        acc = acc + field_spec(bool_field_text(contract.include_expired));
    }
    let ghost b15 = msg@;
    push_i32_field(&mut msg, use_rth);
    proof {
        lemma_grow(b15, start, acc, int_field((use_rth) as int));
        acc = acc + int_field((use_rth) as int);
    }
    let ghost b16 = msg@;
    push_str_field(&mut msg, what_to_show);
    proof {
        lemma_grow(b16, start, acc, field_spec(what_to_show@));
        acc = acc + field_spec(what_to_show@);
    }
    let ghost b17 = msg@;
    push_i32_field(&mut msg, format_date);
    proof {
        lemma_grow(b17, start, acc, int_field((format_date) as int));
        acc = acc + int_field((format_date) as int);
    }
    assert(acc == req_head_time_stamp_text(sv, req_id, contract, what_to_show, use_rth, format_date));
    assert(msg@ =~= acc);
    Ok(msg)
}

/// Why the server refuses `EClient::req_histogram_data`, if it does: the id that the error carries and the text
/// that follows the `UpdateTws` message.
pub open spec fn req_histogram_data_refusal(sv: i32, ticker_id: i32, contract: &ContractFields, use_rth: bool, time_period: &str) -> Option<(int, Seq<char>)> {
    if sv < MIN_SERVER_VER_REQ_HISTOGRAM {
        Some((NO_VALID_ID as int, " It does not support histogram requests."@))
    } else {
        None
    }
}

/// The text of the message that `EClient::req_histogram_data` sends.
pub open spec fn req_histogram_data_text(sv: i32, ticker_id: i32, contract: &ContractFields, use_rth: bool, time_period: &str) -> Seq<char> {
    int_field((REQ_HISTOGRAM_DATA) as int)
        + int_field((ticker_id) as int)
        + int_field((contract.con_id) as int)
        + field_spec(contract.symbol@)
        + field_spec(contract.sec_type@)
        + field_spec(contract.last_trade_date_or_contract_month@)
        + field_spec(contract.strike@)
        + field_spec(contract.right@)
        + field_spec(contract.multiplier@)
        + field_spec(contract.exchange@)
        + field_spec(contract.primary_exchange@)
        + field_spec(contract.currency@)
        + field_spec(contract.local_symbol@)
        + field_spec(contract.trading_class@)
        + field_spec(bool_field_text(contract.include_expired))
        + field_spec(bool_field_text(use_rth))
        + field_spec(time_period@)
}

/// The message that `EClient::req_histogram_data` sends (see `req_histogram_data_refusal` and `req_histogram_data_text`).
pub fn req_histogram_data_message(status: ConnStatus, sv: i32, ticker_id: i32, contract: &ContractFields, use_rth: bool, time_period: &str) -> (r: Result<String, IBKRApiLibError>)
    ensures
        status != ConnStatus::CONNECTED ==> (r matches Err(e) && is_api_error(e, NO_VALID_ID as int, TwsError::NotConnected)),
        status == ConnStatus::CONNECTED ==> match req_histogram_data_refusal(sv, ticker_id, contract, use_rth, time_period) {
            Some((id, suffix)) => r matches Err(e) && is_api_error_with(e, id, TwsError::UpdateTws, suffix),
            None => r matches Ok(m) && m@ == req_histogram_data_text(sv, ticker_id, contract, use_rth, time_period),
        },
{
    if !status.is_connected() {
        return Err(api_error(NO_VALID_ID, TwsError::NotConnected));
    }
    if sv < MIN_SERVER_VER_REQ_HISTOGRAM {
        return Err(api_error_with(NO_VALID_ID, TwsError::UpdateTws, " It does not support histogram requests."));
    }
    let mut msg = String::new();
    let ghost start = msg@;
    let ghost mut acc: Seq<char> = Seq::empty();
    let ghost b0 = msg@;
    push_i32_field(&mut msg, REQ_HISTOGRAM_DATA);
    proof {
        lemma_grow(b0, start, acc, int_field((REQ_HISTOGRAM_DATA) as int));
        acc = acc + int_field((REQ_HISTOGRAM_DATA) as int);
    }
    let ghost b1 = msg@;
    push_i32_field(&mut msg, ticker_id);
    proof {
        lemma_grow(b1, start, acc, int_field((ticker_id) as int));
        acc = acc + int_field((ticker_id) as int);
    }
    let ghost b2 = msg@;
    push_i32_field(&mut msg, contract.con_id);
    proof {
        lemma_grow(b2, start, acc, int_field((contract.con_id) as int));
        acc = acc + int_field((contract.con_id) as int);
    }
    let ghost b3 = msg@;
    push_str_field(&mut msg, contract.symbol.as_str());
    proof {
        lemma_grow(b3, start, acc, field_spec(contract.symbol@));
        acc = acc + field_spec(contract.symbol@);
    }
    let ghost b4 = msg@;
    push_str_field(&mut msg, contract.sec_type.as_str());
    proof {
        lemma_grow(b4, start, acc, field_spec(contract.sec_type@));
        acc = acc + field_spec(contract.sec_type@);
    }
    let ghost b5 = msg@;
    push_str_field(&mut msg, contract.last_trade_date_or_contract_month.as_str());
    proof {
        lemma_grow(b5, start, acc, field_spec(contract.last_trade_date_or_contract_month@));
        acc = acc + field_spec(contract.last_trade_date_or_contract_month@);
    }
    let ghost b6 = msg@;
    push_str_field(&mut msg, contract.strike.as_str());
    proof {
        lemma_grow(b6, start, acc, field_spec(contract.strike@));
        acc = acc + field_spec(contract.strike@);
    }
    let ghost b7 = msg@;
    push_str_field(&mut msg, contract.right.as_str());
    proof {
        lemma_grow(b7, start, acc, field_spec(contract.right@));
        acc = acc + field_spec(contract.right@);
    }
    let ghost b8 = msg@;
    push_str_field(&mut msg, contract.multiplier.as_str());
    proof {
        lemma_grow(b8, start, acc, field_spec(contract.multiplier@));
        acc = acc + field_spec(contract.multiplier@);
    }
    let ghost b9 = msg@;
    push_str_field(&mut msg, contract.exchange.as_str());
    proof {
        lemma_grow(b9, start, acc, field_spec(contract.exchange@));
        acc = acc + field_spec(contract.exchange@);
    }
    let ghost b10 = msg@;
    push_str_field(&mut msg, contract.primary_exchange.as_str());
    proof {
        lemma_grow(b10, start, acc, field_spec(contract.primary_exchange@));
        acc = acc + field_spec(contract.primary_exchange@);
    }
    let ghost b11 = msg@;
    push_str_field(&mut msg, contract.currency.as_str());
    proof {
        lemma_grow(b11, start, acc, field_spec(contract.currency@));
        acc = acc + field_spec(contract.currency@);
    }
    let ghost b12 = msg@;
    push_str_field(&mut msg, contract.local_symbol.as_str());
    proof {
        lemma_grow(b12, start, acc, field_spec(contract.local_symbol@));
        acc = acc + field_spec(contract.local_symbol@);
    }
    let ghost b13 = msg@;
    push_str_field(&mut msg, contract.trading_class.as_str());
    proof {
        lemma_grow(b13, start, acc, field_spec(contract.trading_class@));
        acc = acc + field_spec(contract.trading_class@);
    }
    let ghost b14 = msg@;
    push_bool_field(&mut msg, contract.include_expired);
    proof {
        lemma_grow(b14, start, acc, field_spec(bool_field_text(contract.include_expired)));
        acc = acc + field_spec(bool_field_text(contract.include_expired));
    }
    let ghost b15 = msg@;
    push_bool_field(&mut msg, use_rth);
    proof {
        lemma_grow(b15, start, acc, field_spec(bool_field_text(use_rth)));
        acc = acc + field_spec(bool_field_text(use_rth));
    }
    let ghost b16 = msg@;
    push_str_field(&mut msg, time_period);
    proof {
        lemma_grow(b16, start, acc, field_spec(time_period@));
        acc = acc + field_spec(time_period@);
    }
    assert(acc == req_histogram_data_text(sv, ticker_id, contract, use_rth, time_period));
    assert(msg@ =~= acc);
    Ok(msg)
}

/// Why the server refuses `EClient::req_historical_ticks`, if it does: the id that the error carries and the text
/// that follows the `UpdateTws` message.
pub open spec fn req_historical_ticks_refusal(sv: i32, req_id: i32, contract: &ContractFields, start_date_time: &str, end_date_time: &str, number_of_ticks: i32, what_to_show: &str, use_rth: i32, ignore_size: bool, options: &Vec<TagValue>) -> Option<(int, Seq<char>)> {
    if sv < MIN_SERVER_VER_HISTORICAL_TICKS {
        Some((NO_VALID_ID as int, " It does not support historical ticks requests."@))
    } else {
        None
    }
}

/// The text of the message that `EClient::req_historical_ticks` sends.
pub open spec fn req_historical_ticks_text(sv: i32, req_id: i32, contract: &ContractFields, start_date_time: &str, end_date_time: &str, number_of_ticks: i32, what_to_show: &str, use_rth: i32, ignore_size: bool, options: &Vec<TagValue>) -> Seq<char> {
    int_field((REQ_HISTORICAL_TICKS) as int)
        + int_field((req_id) as int)
        + int_field((contract.con_id) as int)
        + field_spec(contract.symbol@)
        + field_spec(contract.sec_type@)
        + field_spec(contract.last_trade_date_or_contract_month@)
        + field_spec(contract.strike@)
        + field_spec(contract.right@)
        + field_spec(contract.multiplier@)
        + field_spec(contract.exchange@)
        + field_spec(contract.primary_exchange@)
        + field_spec(contract.currency@)
        + field_spec(contract.local_symbol@)
        + field_spec(contract.trading_class@)
        + field_spec(bool_field_text(contract.include_expired))
        + field_spec(start_date_time@)
        + field_spec(end_date_time@)
        + int_field((number_of_ticks) as int)
        + field_spec(what_to_show@)
        + int_field((use_rth) as int)
        + field_spec(bool_field_text(ignore_size))
        + field_spec(misc_options_text(options@))
}

/// The message that `EClient::req_historical_ticks` sends (see `req_historical_ticks_refusal` and `req_historical_ticks_text`).
pub fn req_historical_ticks_message(status: ConnStatus, sv: i32, req_id: i32, contract: &ContractFields, start_date_time: &str, end_date_time: &str, number_of_ticks: i32, what_to_show: &str, use_rth: i32, ignore_size: bool, options: &Vec<TagValue>) -> (r: Result<String, IBKRApiLibError>)
    ensures
        status != ConnStatus::CONNECTED ==> (r matches Err(e) && is_api_error(e, NO_VALID_ID as int, TwsError::NotConnected)),
        status == ConnStatus::CONNECTED ==> match req_historical_ticks_refusal(sv, req_id, contract, start_date_time, end_date_time, number_of_ticks, what_to_show, use_rth, ignore_size, options) {
            Some((id, suffix)) => r matches Err(e) && is_api_error_with(e, id, TwsError::UpdateTws, suffix),
            None => r matches Ok(m) && m@ == req_historical_ticks_text(sv, req_id, contract, start_date_time, end_date_time, number_of_ticks, what_to_show, use_rth, ignore_size, options),
        },
{
    if !status.is_connected() {
        return Err(api_error(NO_VALID_ID, TwsError::NotConnected));
    }
    if sv < MIN_SERVER_VER_HISTORICAL_TICKS {
        return Err(api_error_with(NO_VALID_ID, TwsError::UpdateTws, " It does not support historical ticks requests."));
    }
    let mut msg = String::new();
    let ghost start = msg@;
    let ghost mut acc: Seq<char> = Seq::empty();
    let ghost b0 = msg@;
    push_i32_field(&mut msg, REQ_HISTORICAL_TICKS);
    proof {
        lemma_grow(b0, start, acc, int_field((REQ_HISTORICAL_TICKS) as int));
        acc = acc + int_field((REQ_HISTORICAL_TICKS) as int);
    }
    let ghost b1 = msg@;
    push_i32_field(&mut msg, req_id);
    proof {
        lemma_grow(b1, start, acc, int_field((req_id) as int));
        acc = acc + int_field((req_id) as int);
    }
    let ghost b2 = msg@;
    push_i32_field(&mut msg, contract.con_id);
    proof {
        lemma_grow(b2, start, acc, int_field((contract.con_id) as int));
        acc = acc + int_field((contract.con_id) as int);
    }
    let ghost b3 = msg@;
    push_str_field(&mut msg, contract.symbol.as_str());
    proof {
        lemma_grow(b3, start, acc, field_spec(contract.symbol@));
        acc = acc + field_spec(contract.symbol@);
    }
    let ghost b4 = msg@;
    push_str_field(&mut msg, contract.sec_type.as_str());
    proof {
        lemma_grow(b4, start, acc, field_spec(contract.sec_type@));
        acc = acc + field_spec(contract.sec_type@);
    }
    let ghost b5 = msg@;
    push_str_field(&mut msg, contract.last_trade_date_or_contract_month.as_str());
    proof {
        lemma_grow(b5, start, acc, field_spec(contract.last_trade_date_or_contract_month@));
        acc = acc + field_spec(contract.last_trade_date_or_contract_month@);
    }
    let ghost b6 = msg@;
    push_str_field(&mut msg, contract.strike.as_str());
    proof {
        lemma_grow(b6, start, acc, field_spec(contract.strike@));
        acc = acc + field_spec(contract.strike@);
    }
    let ghost b7 = msg@;
    push_str_field(&mut msg, contract.right.as_str());
    proof {
        lemma_grow(b7, start, acc, field_spec(contract.right@));
        acc = acc + field_spec(contract.right@);
    }
    let ghost b8 = msg@;
    push_str_field(&mut msg, contract.multiplier.as_str());
    proof {
        lemma_grow(b8, start, acc, field_spec(contract.multiplier@));
        acc = acc + field_spec(contract.multiplier@);
    }
    let ghost b9 = msg@;
    push_str_field(&mut msg, contract.exchange.as_str());
    proof {
        lemma_grow(b9, start, acc, field_spec(contract.exchange@));
        acc = acc + field_spec(contract.exchange@);
    }
    let ghost b10 = msg@;
    push_str_field(&mut msg, contract.primary_exchange.as_str());
    proof {
        lemma_grow(b10, start, acc, field_spec(contract.primary_exchange@));
        acc = acc + field_spec(contract.primary_exchange@);
    }
    let ghost b11 = msg@;
    push_str_field(&mut msg, contract.currency.as_str());
    proof {
        lemma_grow(b11, start, acc, field_spec(contract.currency@));
        acc = acc + field_spec(contract.currency@);
    }
    let ghost b12 = msg@;
    push_str_field(&mut msg, contract.local_symbol.as_str());
    proof {
        lemma_grow(b12, start, acc, field_spec(contract.local_symbol@));
        acc = acc + field_spec(contract.local_symbol@);
    }
    let ghost b13 = msg@;
    push_str_field(&mut msg, contract.trading_class.as_str());
    proof {
        lemma_grow(b13, start, acc, field_spec(contract.trading_class@));
        acc = acc + field_spec(contract.trading_class@);
    }
    let ghost b14 = msg@;
    push_bool_field(&mut msg, contract.include_expired);
    proof {
        lemma_grow(b14, start, acc, field_spec(bool_field_text(contract.include_expired)));
        acc = acc + field_spec(bool_field_text(contract.include_expired));
    }
    let ghost b15 = msg@;
    push_str_field(&mut msg, start_date_time);
    proof {
        lemma_grow(b15, start, acc, field_spec(start_date_time@));
        acc = acc + field_spec(start_date_time@);
    }
    let ghost b16 = msg@;
    push_str_field(&mut msg, end_date_time);
    proof {
        lemma_grow(b16, start, acc, field_spec(end_date_time@));
        acc = acc + field_spec(end_date_time@);
    }
    let ghost b17 = msg@;
    push_i32_field(&mut msg, number_of_ticks);
    proof {
        lemma_grow(b17, start, acc, int_field((number_of_ticks) as int));
        acc = acc + int_field((number_of_ticks) as int);
    }
    let ghost b18 = msg@;
    push_str_field(&mut msg, what_to_show);
    proof {
        lemma_grow(b18, start, acc, field_spec(what_to_show@));
        acc = acc + field_spec(what_to_show@);
    }
    let ghost b19 = msg@;
    push_i32_field(&mut msg, use_rth);
    proof {
        lemma_grow(b19, start, acc, int_field((use_rth) as int));
        acc = acc + int_field((use_rth) as int);
    }
    let ghost b20 = msg@;
    push_bool_field(&mut msg, ignore_size);
    proof {
        lemma_grow(b20, start, acc, field_spec(bool_field_text(ignore_size)));
        acc = acc + field_spec(bool_field_text(ignore_size));
    }
    let ghost b21 = msg@;
    let options_text = misc_options(options);
    push_str_field(&mut msg, options_text.as_str());
    assert(msg@ =~= b21 + field_spec(misc_options_text(options@)));
    proof {
        lemma_grow(b21, start, acc, field_spec(misc_options_text(options@)));
        acc = acc + field_spec(misc_options_text(options@));
    }
    assert(acc == req_historical_ticks_text(sv, req_id, contract, start_date_time, end_date_time, number_of_ticks, what_to_show, use_rth, ignore_size, options));
    assert(msg@ =~= acc);
    Ok(msg)
}

/// Why the server refuses `EClient::req_executions`, if it does: the id that the error carries and the text
/// that follows the `UpdateTws` message.
pub open spec fn req_executions_refusal(sv: i32, req_id: i32, exec_filter: &ExecutionFilter) -> Option<(int, Seq<char>)> {
    None
}

/// The text of the message that `EClient::req_executions` sends.
pub open spec fn req_executions_text(sv: i32, req_id: i32, exec_filter: &ExecutionFilter) -> Seq<char> {
    int_field((REQ_EXECUTIONS) as int)
        + int_field((3) as int)
        + given(sv >= MIN_SERVER_VER_EXECUTION_DATA_CHAIN, int_field((req_id) as int))
        + int_field((exec_filter.client_id) as int)
        + field_spec(exec_filter.acct_code@)
        + field_spec(exec_filter.time@)
        + field_spec(exec_filter.symbol@)
        + field_spec(exec_filter.sec_type@)
        + field_spec(exec_filter.exchange@)
        + field_spec(exec_filter.side@)
}

/// The message that `EClient::req_executions` sends (see `req_executions_refusal` and `req_executions_text`).
pub fn req_executions_message(status: ConnStatus, sv: i32, req_id: i32, exec_filter: &ExecutionFilter) -> (r: Result<String, IBKRApiLibError>)
    ensures
        status != ConnStatus::CONNECTED ==> (r matches Err(e) && is_api_error(e, req_id as int, TwsError::NotConnected)),
        status == ConnStatus::CONNECTED ==> match req_executions_refusal(sv, req_id, exec_filter) {
            Some((id, suffix)) => r matches Err(e) && is_api_error_with(e, id, TwsError::UpdateTws, suffix),
            None => r matches Ok(m) && m@ == req_executions_text(sv, req_id, exec_filter),
        },
{
    if !status.is_connected() {
        return Err(api_error(req_id, TwsError::NotConnected));
    }
    let mut msg = String::new();
    let ghost start = msg@;
    let ghost mut acc: Seq<char> = Seq::empty();
    let ghost b0 = msg@;
    push_i32_field(&mut msg, REQ_EXECUTIONS);
    proof {
        lemma_grow(b0, start, acc, int_field((REQ_EXECUTIONS) as int));
        acc = acc + int_field((REQ_EXECUTIONS) as int);
    }
    let ghost b1 = msg@;
    push_i32_field(&mut msg, 3);
    proof {
        lemma_grow(b1, start, acc, int_field((3) as int));
        acc = acc + int_field((3) as int);
    }
    let ghost b2 = msg@;
    if sv >= MIN_SERVER_VER_EXECUTION_DATA_CHAIN {
        push_i32_field(&mut msg, req_id);
    }
    assert(msg@ =~= b2 + given(sv >= MIN_SERVER_VER_EXECUTION_DATA_CHAIN, int_field((req_id) as int)));
    proof {
        lemma_grow(b2, start, acc, given(sv >= MIN_SERVER_VER_EXECUTION_DATA_CHAIN, int_field((req_id) as int)));
        acc = acc + given(sv >= MIN_SERVER_VER_EXECUTION_DATA_CHAIN, int_field((req_id) as int));
    }
    let ghost b3 = msg@;
    push_i32_field(&mut msg, exec_filter.client_id);
    proof {
        lemma_grow(b3, start, acc, int_field((exec_filter.client_id) as int));
        acc = acc + int_field((exec_filter.client_id) as int);
    }
    let ghost b4 = msg@;
    push_str_field(&mut msg, exec_filter.acct_code.as_str());
    proof {
        lemma_grow(b4, start, acc, field_spec(exec_filter.acct_code@));
        acc = acc + field_spec(exec_filter.acct_code@);
    }
    let ghost b5 = msg@;
    push_str_field(&mut msg, exec_filter.time.as_str());
    proof {
        lemma_grow(b5, start, acc, field_spec(exec_filter.time@));
        acc = acc + field_spec(exec_filter.time@);
    }
    let ghost b6 = msg@;
    push_str_field(&mut msg, exec_filter.symbol.as_str());
    proof {
        lemma_grow(b6, start, acc, field_spec(exec_filter.symbol@));
        acc = acc + field_spec(exec_filter.symbol@);
    }
    let ghost b7 = msg@;
    push_str_field(&mut msg, exec_filter.sec_type.as_str());
    proof {
        lemma_grow(b7, start, acc, field_spec(exec_filter.sec_type@));
        acc = acc + field_spec(exec_filter.sec_type@);
    }
    let ghost b8 = msg@;
    push_str_field(&mut msg, exec_filter.exchange.as_str());
    proof {
        lemma_grow(b8, start, acc, field_spec(exec_filter.exchange@));
        acc = acc + field_spec(exec_filter.exchange@);
    }
    let ghost b9 = msg@;
    push_str_field(&mut msg, exec_filter.side.as_str());
    proof {
        lemma_grow(b9, start, acc, field_spec(exec_filter.side@));
        acc = acc + field_spec(exec_filter.side@);
    }
    assert(acc == req_executions_text(sv, req_id, exec_filter));
    assert(msg@ =~= acc);
    Ok(msg)
}

/// Why the server refuses `EClient::req_news_article`, if it does: the id that the error carries and the text
/// that follows the `UpdateTws` message.
pub open spec fn req_news_article_refusal(sv: i32, req_id: i32, provider_code: &str, article_id: &str, options: &Vec<TagValue>) -> Option<(int, Seq<char>)> {
    if sv < MIN_SERVER_VER_REQ_NEWS_ARTICLE {
        Some((req_id as int, " It does not support news article request."@))
    } else {
        None
    }
}

/// The text of the message that `EClient::req_news_article` sends.
pub open spec fn req_news_article_text(sv: i32, req_id: i32, provider_code: &str, article_id: &str, options: &Vec<TagValue>) -> Seq<char> {
    int_field((REQ_NEWS_ARTICLE) as int)
        + int_field((req_id) as int)
        + field_spec(provider_code@)
        + field_spec(article_id@)
        + given(sv >= MIN_SERVER_VER_NEWS_QUERY_ORIGINS, field_spec(misc_options_text(options@)))
}

/// The message that `EClient::req_news_article` sends (see `req_news_article_refusal` and `req_news_article_text`).
pub fn req_news_article_message(status: ConnStatus, sv: i32, req_id: i32, provider_code: &str, article_id: &str, options: &Vec<TagValue>) -> (r: Result<String, IBKRApiLibError>)
    ensures
        status != ConnStatus::CONNECTED ==> (r matches Err(e) && is_api_error(e, NO_VALID_ID as int, TwsError::NotConnected)),
        status == ConnStatus::CONNECTED ==> match req_news_article_refusal(sv, req_id, provider_code, article_id, options) {
            Some((id, suffix)) => r matches Err(e) && is_api_error_with(e, id, TwsError::UpdateTws, suffix),
            None => r matches Ok(m) && m@ == req_news_article_text(sv, req_id, provider_code, article_id, options),
        },
{
    if !status.is_connected() {
        return Err(api_error(NO_VALID_ID, TwsError::NotConnected));
    }
    if sv < MIN_SERVER_VER_REQ_NEWS_ARTICLE {
        return Err(api_error_with(req_id, TwsError::UpdateTws, " It does not support news article request."));
    }
    let mut msg = String::new();
    let ghost start = msg@;
    let ghost mut acc: Seq<char> = Seq::empty();
    let ghost b0 = msg@;
    push_i32_field(&mut msg, REQ_NEWS_ARTICLE);
    proof {
        lemma_grow(b0, start, acc, int_field((REQ_NEWS_ARTICLE) as int));
        acc = acc + int_field((REQ_NEWS_ARTICLE) as int);
    }
    let ghost b1 = msg@;
    push_i32_field(&mut msg, req_id);
    proof {
        lemma_grow(b1, start, acc, int_field((req_id) as int));
        acc = acc + int_field((req_id) as int);
    }
    let ghost b2 = msg@;
    push_str_field(&mut msg, provider_code);
    proof {
        lemma_grow(b2, start, acc, field_spec(provider_code@));
        acc = acc + field_spec(provider_code@);
    }
    let ghost b3 = msg@;
    push_str_field(&mut msg, article_id);
    proof {
        lemma_grow(b3, start, acc, field_spec(article_id@));
        acc = acc + field_spec(article_id@);
    }
    let ghost b4 = msg@;
    if sv >= MIN_SERVER_VER_NEWS_QUERY_ORIGINS {
        let options_text = misc_options(options);
        push_str_field(&mut msg, options_text.as_str());
    }
    assert(msg@ =~= b4 + given(sv >= MIN_SERVER_VER_NEWS_QUERY_ORIGINS, field_spec(misc_options_text(options@))));
    proof {
        lemma_grow(b4, start, acc, given(sv >= MIN_SERVER_VER_NEWS_QUERY_ORIGINS, field_spec(misc_options_text(options@))));
        acc = acc + given(sv >= MIN_SERVER_VER_NEWS_QUERY_ORIGINS, field_spec(misc_options_text(options@)));
    }
    assert(acc == req_news_article_text(sv, req_id, provider_code, article_id, options));
    assert(msg@ =~= acc);
    Ok(msg)
}

/// Why the server refuses `EClient::req_historical_news`, if it does: the id that the error carries and the text
/// that follows the `UpdateTws` message.
pub open spec fn req_historical_news_refusal(sv: i32, req_id: i32, con_id: i32, provider_codes: &str, start_date_time: &str, end_date_time: &str, total_results: i32, options: &Vec<TagValue>) -> Option<(int, Seq<char>)> {
    if sv < MIN_SERVER_VER_REQ_HISTORICAL_NEWS {
        Some((req_id as int, " It does not support historical news request."@))
    } else {
        None
    }
}

/// The text of the message that `EClient::req_historical_news` sends.
pub open spec fn req_historical_news_text(sv: i32, req_id: i32, con_id: i32, provider_codes: &str, start_date_time: &str, end_date_time: &str, total_results: i32, options: &Vec<TagValue>) -> Seq<char> {
    int_field((REQ_HISTORICAL_NEWS) as int)
        + int_field((req_id) as int)
        + int_field((con_id) as int)
        + field_spec(provider_codes@)
        + field_spec(start_date_time@)
        + field_spec(end_date_time@)
        + int_field((total_results) as int)
        + given(sv >= MIN_SERVER_VER_NEWS_QUERY_ORIGINS, field_spec(misc_options_text(options@)))
}

/// The message that `EClient::req_historical_news` sends (see `req_historical_news_refusal` and `req_historical_news_text`).
pub fn req_historical_news_message(status: ConnStatus, sv: i32, req_id: i32, con_id: i32, provider_codes: &str, start_date_time: &str, end_date_time: &str, total_results: i32, options: &Vec<TagValue>) -> (r: Result<String, IBKRApiLibError>)
    ensures
        status != ConnStatus::CONNECTED ==> (r matches Err(e) && is_api_error(e, NO_VALID_ID as int, TwsError::NotConnected)),
        status == ConnStatus::CONNECTED ==> match req_historical_news_refusal(sv, req_id, con_id, provider_codes, start_date_time, end_date_time, total_results, options) {
            Some((id, suffix)) => r matches Err(e) && is_api_error_with(e, id, TwsError::UpdateTws, suffix),
            None => r matches Ok(m) && m@ == req_historical_news_text(sv, req_id, con_id, provider_codes, start_date_time, end_date_time, total_results, options),
        },
{
    if !status.is_connected() {
        return Err(api_error(NO_VALID_ID, TwsError::NotConnected));
    }
    if sv < MIN_SERVER_VER_REQ_HISTORICAL_NEWS {
        return Err(api_error_with(req_id, TwsError::UpdateTws, " It does not support historical news request."));
    }
    let mut msg = String::new();
    let ghost start = msg@;
    let ghost mut acc: Seq<char> = Seq::empty();
    let ghost b0 = msg@;
    push_i32_field(&mut msg, REQ_HISTORICAL_NEWS);
    proof {
        lemma_grow(b0, start, acc, int_field((REQ_HISTORICAL_NEWS) as int));
        acc = acc + int_field((REQ_HISTORICAL_NEWS) as int);
    }
    let ghost b1 = msg@;
    push_i32_field(&mut msg, req_id);
    proof {
        lemma_grow(b1, start, acc, int_field((req_id) as int));
        acc = acc + int_field((req_id) as int);
    }
    let ghost b2 = msg@;
    push_i32_field(&mut msg, con_id);
    proof {
        lemma_grow(b2, start, acc, int_field((con_id) as int));
        acc = acc + int_field((con_id) as int);
    }
    let ghost b3 = msg@;
    push_str_field(&mut msg, provider_codes);
    proof {
        lemma_grow(b3, start, acc, field_spec(provider_codes@));
        acc = acc + field_spec(provider_codes@);
    }
    let ghost b4 = msg@;
    push_str_field(&mut msg, start_date_time);
    proof {
        lemma_grow(b4, start, acc, field_spec(start_date_time@));
        acc = acc + field_spec(start_date_time@);
    }
    let ghost b5 = msg@;
    push_str_field(&mut msg, end_date_time);
    proof {
        lemma_grow(b5, start, acc, field_spec(end_date_time@));
        acc = acc + field_spec(end_date_time@);
    }
    let ghost b6 = msg@;
    push_i32_field(&mut msg, total_results);
    proof {
        lemma_grow(b6, start, acc, int_field((total_results) as int));
        acc = acc + int_field((total_results) as int);
    }
    let ghost b7 = msg@;
    if sv >= MIN_SERVER_VER_NEWS_QUERY_ORIGINS {
        let options_text = misc_options(options);
        push_str_field(&mut msg, options_text.as_str());
    }
    assert(msg@ =~= b7 + given(sv >= MIN_SERVER_VER_NEWS_QUERY_ORIGINS, field_spec(misc_options_text(options@))));
    proof {
        lemma_grow(b7, start, acc, given(sv >= MIN_SERVER_VER_NEWS_QUERY_ORIGINS, field_spec(misc_options_text(options@))));
        acc = acc + given(sv >= MIN_SERVER_VER_NEWS_QUERY_ORIGINS, field_spec(misc_options_text(options@)));
    }
    assert(acc == req_historical_news_text(sv, req_id, con_id, provider_codes, start_date_time, end_date_time, total_results, options));
    assert(msg@ =~= acc);
    Ok(msg)
}

/// Why the server refuses `EClient::req_scanner_subscription`, if it does: the id that the error carries and the text
/// that follows the `UpdateTws` message.
pub open spec fn req_scanner_subscription_refusal(sv: i32, req_id: i32, subscription: &ScannerSubscriptionFields, options: &Vec<TagValue>, filter_options: &Vec<TagValue>) -> Option<(int, Seq<char>)> {
    if sv < MIN_SERVER_VER_SCANNER_GENERIC_OPTS {
        Some((req_id as int, " It does not support API scanner subscription generic filter options"@))
    } else {
        None
    }
}

/// The text of the message that `EClient::req_scanner_subscription` sends.
pub open spec fn req_scanner_subscription_text(sv: i32, req_id: i32, subscription: &ScannerSubscriptionFields, options: &Vec<TagValue>, filter_options: &Vec<TagValue>) -> Seq<char> {
    int_field((REQ_SCANNER_SUBSCRIPTION) as int)
        + given(sv < MIN_SERVER_VER_SCANNER_GENERIC_OPTS, int_field((4) as int))
        + int_field((req_id) as int)
        + int_or_empty(subscription.number_of_rows)
        + field_spec(subscription.instrument@)
        + field_spec(subscription.location_code@)
        + field_spec(subscription.scan_code@)
        + float_or_empty(subscription.above_price)
        + float_or_empty(subscription.below_price)
        + int_or_empty(subscription.above_volume)
        + float_or_empty(subscription.market_cap_above)
        + float_or_empty(subscription.market_cap_below)
        + field_spec(subscription.moody_rating_above@)
        + field_spec(subscription.moody_rating_below@)
        + field_spec(subscription.sp_rating_above@)
        + field_spec(subscription.sp_rating_below@)
        + field_spec(subscription.maturity_date_above@)
        + field_spec(subscription.maturity_date_below@)
        + float_or_empty(subscription.coupon_rate_above)
        + float_or_empty(subscription.coupon_rate_below)
        + field_spec(bool_field_text(subscription.exclude_convertible))
        + int_or_empty(subscription.average_option_volume_above)
        + field_spec(subscription.scanner_setting_pairs@)
        + field_spec(subscription.stock_type_filter@)
        + given(sv >= MIN_SERVER_VER_SCANNER_GENERIC_OPTS, field_spec(misc_options_text(filter_options@)))
        + given(sv >= MIN_SERVER_VER_LINKING, field_spec(misc_options_text(options@)))
}

/// The message that `EClient::req_scanner_subscription` sends (see `req_scanner_subscription_refusal` and `req_scanner_subscription_text`).
pub fn req_scanner_subscription_message(status: ConnStatus, sv: i32, req_id: i32, subscription: &ScannerSubscriptionFields, options: &Vec<TagValue>, filter_options: &Vec<TagValue>) -> (r: Result<String, IBKRApiLibError>)
    ensures
        status != ConnStatus::CONNECTED ==> (r matches Err(e) && is_api_error(e, req_id as int, TwsError::NotConnected)),
        status == ConnStatus::CONNECTED ==> match req_scanner_subscription_refusal(sv, req_id, subscription, options, filter_options) {
            Some((id, suffix)) => r matches Err(e) && is_api_error_with(e, id, TwsError::UpdateTws, suffix),
            None => r matches Ok(m) && m@ == req_scanner_subscription_text(sv, req_id, subscription, options, filter_options),
        },
{
    if !status.is_connected() {
        return Err(api_error(req_id, TwsError::NotConnected));
    }
    if sv < MIN_SERVER_VER_SCANNER_GENERIC_OPTS {
        return Err(api_error_with(req_id, TwsError::UpdateTws, " It does not support API scanner subscription generic filter options"));
    }
    let mut msg = String::new();
    let ghost start = msg@;
    let ghost mut acc: Seq<char> = Seq::empty();
    let ghost b0 = msg@;
    push_i32_field(&mut msg, REQ_SCANNER_SUBSCRIPTION);
    proof {
        lemma_grow(b0, start, acc, int_field((REQ_SCANNER_SUBSCRIPTION) as int));
        acc = acc + int_field((REQ_SCANNER_SUBSCRIPTION) as int);
    }
    let ghost b1 = msg@;
    if sv < MIN_SERVER_VER_SCANNER_GENERIC_OPTS {
        push_i32_field(&mut msg, 4);
    }
    assert(msg@ =~= b1 + given(sv < MIN_SERVER_VER_SCANNER_GENERIC_OPTS, int_field((4) as int)));
    proof {
        lemma_grow(b1, start, acc, given(sv < MIN_SERVER_VER_SCANNER_GENERIC_OPTS, int_field((4) as int)));
        acc = acc + given(sv < MIN_SERVER_VER_SCANNER_GENERIC_OPTS, int_field((4) as int));
    }
    let ghost b2 = msg@;
    push_i32_field(&mut msg, req_id);
    proof {
        lemma_grow(b2, start, acc, int_field((req_id) as int));
        acc = acc + int_field((req_id) as int);
    }
    let ghost b3 = msg@;
    push_int_or_empty(&mut msg, subscription.number_of_rows);
    proof {
        lemma_grow(b3, start, acc, int_or_empty(subscription.number_of_rows));
        acc = acc + int_or_empty(subscription.number_of_rows);
    }
    let ghost b4 = msg@;
    push_str_field(&mut msg, subscription.instrument.as_str());
    proof {
        lemma_grow(b4, start, acc, field_spec(subscription.instrument@));
        acc = acc + field_spec(subscription.instrument@);
    }
    let ghost b5 = msg@;
    push_str_field(&mut msg, subscription.location_code.as_str());
    proof {
        lemma_grow(b5, start, acc, field_spec(subscription.location_code@));
        acc = acc + field_spec(subscription.location_code@);
    }
    let ghost b6 = msg@;
    push_str_field(&mut msg, subscription.scan_code.as_str());
    proof {
        lemma_grow(b6, start, acc, field_spec(subscription.scan_code@));
        acc = acc + field_spec(subscription.scan_code@);
    }
    let ghost b7 = msg@;
    push_float_or_empty(&mut msg, &subscription.above_price);
    proof {
        lemma_grow(b7, start, acc, float_or_empty(subscription.above_price));
        acc = acc + float_or_empty(subscription.above_price);
    }
    let ghost b8 = msg@;
    push_float_or_empty(&mut msg, &subscription.below_price);
    proof {
        lemma_grow(b8, start, acc, float_or_empty(subscription.below_price));
        acc = acc + float_or_empty(subscription.below_price);
    }
    let ghost b9 = msg@;
    push_int_or_empty(&mut msg, subscription.above_volume);
    proof {
        lemma_grow(b9, start, acc, int_or_empty(subscription.above_volume));
        acc = acc + int_or_empty(subscription.above_volume);
    }
    let ghost b10 = msg@;
    push_float_or_empty(&mut msg, &subscription.market_cap_above);
    proof {
        lemma_grow(b10, start, acc, float_or_empty(subscription.market_cap_above));
        acc = acc + float_or_empty(subscription.market_cap_above);
    }
    let ghost b11 = msg@;
    push_float_or_empty(&mut msg, &subscription.market_cap_below);
    proof {
        lemma_grow(b11, start, acc, float_or_empty(subscription.market_cap_below));
        acc = acc + float_or_empty(subscription.market_cap_below);
    }
    let ghost b12 = msg@;
    push_str_field(&mut msg, subscription.moody_rating_above.as_str());
    proof {
        lemma_grow(b12, start, acc, field_spec(subscription.moody_rating_above@));
        acc = acc + field_spec(subscription.moody_rating_above@);
    }
    let ghost b13 = msg@;
    push_str_field(&mut msg, subscription.moody_rating_below.as_str());
    proof {
        lemma_grow(b13, start, acc, field_spec(subscription.moody_rating_below@));
        acc = acc + field_spec(subscription.moody_rating_below@);
    }
    let ghost b14 = msg@;
    push_str_field(&mut msg, subscription.sp_rating_above.as_str());
    proof {
        lemma_grow(b14, start, acc, field_spec(subscription.sp_rating_above@));
        acc = acc + field_spec(subscription.sp_rating_above@);
    }
    let ghost b15 = msg@;
    push_str_field(&mut msg, subscription.sp_rating_below.as_str());
    proof {
        lemma_grow(b15, start, acc, field_spec(subscription.sp_rating_below@));
        acc = acc + field_spec(subscription.sp_rating_below@);
    }
    let ghost b16 = msg@;
    push_str_field(&mut msg, subscription.maturity_date_above.as_str());
    proof {
        lemma_grow(b16, start, acc, field_spec(subscription.maturity_date_above@));
        acc = acc + field_spec(subscription.maturity_date_above@);
    }
    let ghost b17 = msg@;
    push_str_field(&mut msg, subscription.maturity_date_below.as_str());
    proof {
        lemma_grow(b17, start, acc, field_spec(subscription.maturity_date_below@));
        acc = acc + field_spec(subscription.maturity_date_below@);
    }
    let ghost b18 = msg@;
    push_float_or_empty(&mut msg, &subscription.coupon_rate_above);
    proof {
        lemma_grow(b18, start, acc, float_or_empty(subscription.coupon_rate_above));
        acc = acc + float_or_empty(subscription.coupon_rate_above);
    }
    let ghost b19 = msg@;
    push_float_or_empty(&mut msg, &subscription.coupon_rate_below);
    proof {
        lemma_grow(b19, start, acc, float_or_empty(subscription.coupon_rate_below));
        acc = acc + float_or_empty(subscription.coupon_rate_below);
    }
    let ghost b20 = msg@;
    push_bool_field(&mut msg, subscription.exclude_convertible);
    proof {
        lemma_grow(b20, start, acc, field_spec(bool_field_text(subscription.exclude_convertible)));
        acc = acc + field_spec(bool_field_text(subscription.exclude_convertible));
    }
    let ghost b21 = msg@;
    push_int_or_empty(&mut msg, subscription.average_option_volume_above);
    proof {
        lemma_grow(b21, start, acc, int_or_empty(subscription.average_option_volume_above));
        acc = acc + int_or_empty(subscription.average_option_volume_above);
    }
    let ghost b22 = msg@;
    push_str_field(&mut msg, subscription.scanner_setting_pairs.as_str());
    proof {
        lemma_grow(b22, start, acc, field_spec(subscription.scanner_setting_pairs@));
        acc = acc + field_spec(subscription.scanner_setting_pairs@);
    }
    let ghost b23 = msg@;
    push_str_field(&mut msg, subscription.stock_type_filter.as_str());
    proof {
        lemma_grow(b23, start, acc, field_spec(subscription.stock_type_filter@));
        acc = acc + field_spec(subscription.stock_type_filter@);
    }
    let ghost b24 = msg@;
    if sv >= MIN_SERVER_VER_SCANNER_GENERIC_OPTS {
        let options_text = misc_options(filter_options);
        push_str_field(&mut msg, options_text.as_str());
    }
    assert(msg@ =~= b24 + given(sv >= MIN_SERVER_VER_SCANNER_GENERIC_OPTS, field_spec(misc_options_text(filter_options@))));
    proof {
        lemma_grow(b24, start, acc, given(sv >= MIN_SERVER_VER_SCANNER_GENERIC_OPTS, field_spec(misc_options_text(filter_options@))));
        acc = acc + given(sv >= MIN_SERVER_VER_SCANNER_GENERIC_OPTS, field_spec(misc_options_text(filter_options@)));
    }
    let ghost b25 = msg@;
    if sv >= MIN_SERVER_VER_LINKING {
        let options_text = misc_options(options);
        push_str_field(&mut msg, options_text.as_str());
    }
    assert(msg@ =~= b25 + given(sv >= MIN_SERVER_VER_LINKING, field_spec(misc_options_text(options@))));
    proof {
        lemma_grow(b25, start, acc, given(sv >= MIN_SERVER_VER_LINKING, field_spec(misc_options_text(options@))));
        acc = acc + given(sv >= MIN_SERVER_VER_LINKING, field_spec(misc_options_text(options@)));
    }
    assert(acc == req_scanner_subscription_text(sv, req_id, subscription, options, filter_options));
    assert(msg@ =~= acc);
    Ok(msg)
}

/// Why the server refuses `EClient::req_wsh_event_data`, if it does: the id that the error carries and the text
/// that follows the `UpdateTws` message.
pub open spec fn req_wsh_event_data_refusal(sv: i32, req_id: i32, con_id: i32) -> Option<(int, Seq<char>)> {
    if sv < MIN_SERVER_VER_WSHE_CALENDAR {
        Some((NO_VALID_ID as int, " It does not support WSHE Calendar API."@))
    } else {
        None
    }
}

/// The text of the message that `EClient::req_wsh_event_data` sends.
pub open spec fn req_wsh_event_data_text(sv: i32, req_id: i32, con_id: i32) -> Seq<char> {
    int_field((REQ_WSH_EVENT_DATA) as int)
        + int_field((req_id) as int)
        + int_field((con_id) as int)
}

/// The message that `EClient::req_wsh_event_data` sends (see `req_wsh_event_data_refusal` and `req_wsh_event_data_text`).
pub fn req_wsh_event_data_message(status: ConnStatus, sv: i32, req_id: i32, con_id: i32) -> (r: Result<String, IBKRApiLibError>)
    ensures
        status != ConnStatus::CONNECTED ==> (r matches Err(e) && is_api_error(e, NO_VALID_ID as int, TwsError::NotConnected)),
        status == ConnStatus::CONNECTED ==> match req_wsh_event_data_refusal(sv, req_id, con_id) {
            Some((id, suffix)) => r matches Err(e) && is_api_error_with(e, id, TwsError::UpdateTws, suffix),
            None => r matches Ok(m) && m@ == req_wsh_event_data_text(sv, req_id, con_id),
        },
{
    if !status.is_connected() {
        return Err(api_error(NO_VALID_ID, TwsError::NotConnected));
    }
    if sv < MIN_SERVER_VER_WSHE_CALENDAR {
        return Err(api_error_with(NO_VALID_ID, TwsError::UpdateTws, " It does not support WSHE Calendar API."));
    }
    let mut msg = String::new();
    let ghost start = msg@;
    let ghost mut acc: Seq<char> = Seq::empty();
    let ghost b0 = msg@;
    push_i32_field(&mut msg, REQ_WSH_EVENT_DATA);
    proof {
        lemma_grow(b0, start, acc, int_field((REQ_WSH_EVENT_DATA) as int));
        acc = acc + int_field((REQ_WSH_EVENT_DATA) as int);
    }
    let ghost b1 = msg@;
    push_i32_field(&mut msg, req_id);
    proof {
        lemma_grow(b1, start, acc, int_field((req_id) as int));
        acc = acc + int_field((req_id) as int);
    }
    let ghost b2 = msg@;
    push_i32_field(&mut msg, con_id);
    proof {
        lemma_grow(b2, start, acc, int_field((con_id) as int));
        acc = acc + int_field((con_id) as int);
    }
    assert(acc == req_wsh_event_data_text(sv, req_id, con_id));
    assert(msg@ =~= acc);
    Ok(msg)
}

/// Why the server refuses `EClient::replace_fa`, if it does: the id that the error carries and the text
/// that follows the `UpdateTws` message.
pub open spec fn replace_fa_refusal(sv: i32, req_id: i32, fa_data: FaDataType, cxml: &str) -> Option<(int, Seq<char>)> {
    None
}

/// The text of the message that `EClient::replace_fa` sends.
pub open spec fn replace_fa_text(sv: i32, req_id: i32, fa_data: FaDataType, cxml: &str) -> Seq<char> {
    int_field((REPLACE_FA) as int)
        + int_field((1) as int)
        + int_field((fa_data.code_of()) as int)
        + field_spec(cxml@)
        + given(sv >= MIN_SERVER_VER_REPLACE_FA_END, int_field((req_id) as int))
}

/// The message that `EClient::replace_fa` sends (see `replace_fa_refusal` and `replace_fa_text`).
pub fn replace_fa_message(status: ConnStatus, sv: i32, req_id: i32, fa_data: FaDataType, cxml: &str) -> (r: Result<String, IBKRApiLibError>)
    ensures
        status != ConnStatus::CONNECTED ==> (r matches Err(e) && is_api_error(e, NO_VALID_ID as int, TwsError::NotConnected)),
        status == ConnStatus::CONNECTED ==> match replace_fa_refusal(sv, req_id, fa_data, cxml) {
            Some((id, suffix)) => r matches Err(e) && is_api_error_with(e, id, TwsError::UpdateTws, suffix),
            None => r matches Ok(m) && m@ == replace_fa_text(sv, req_id, fa_data, cxml),
        },
{
    if !status.is_connected() {
        return Err(api_error(NO_VALID_ID, TwsError::NotConnected));
    }
    let mut msg = String::new();
    let ghost start = msg@;
    let ghost mut acc: Seq<char> = Seq::empty();
    let ghost b0 = msg@;
    push_i32_field(&mut msg, REPLACE_FA);
    proof {
        lemma_grow(b0, start, acc, int_field((REPLACE_FA) as int));
        acc = acc + int_field((REPLACE_FA) as int);
    }
    let ghost b1 = msg@;
    push_i32_field(&mut msg, 1);
    proof {
        lemma_grow(b1, start, acc, int_field((1) as int));
        acc = acc + int_field((1) as int);
    }
    let ghost b2 = msg@;
    push_i32_field(&mut msg, fa_data.to_i32());
    proof {
        lemma_grow(b2, start, acc, int_field((fa_data.code_of()) as int));
        acc = acc + int_field((fa_data.code_of()) as int);
    }
    let ghost b3 = msg@;
    push_str_field(&mut msg, cxml);
    proof {
        lemma_grow(b3, start, acc, field_spec(cxml@));
        acc = acc + field_spec(cxml@);
    }
    let ghost b4 = msg@;
    if sv >= MIN_SERVER_VER_REPLACE_FA_END {
        push_i32_field(&mut msg, req_id);
    }
    assert(msg@ =~= b4 + given(sv >= MIN_SERVER_VER_REPLACE_FA_END, int_field((req_id) as int)));
    proof {
        lemma_grow(b4, start, acc, given(sv >= MIN_SERVER_VER_REPLACE_FA_END, int_field((req_id) as int)));
        acc = acc + given(sv >= MIN_SERVER_VER_REPLACE_FA_END, int_field((req_id) as int));
    }
    assert(acc == replace_fa_text(sv, req_id, fa_data, cxml));
    assert(msg@ =~= acc);
    Ok(msg)
}

/// The fields of `req_historical_data` for a server that takes all of them, for a contract that is
/// not a combo, in the order they are sent.
pub open spec fn req_historical_data_fields(req_id: i32, contract: &ContractFields, end_date_time: &str, duration_str: &str, bar_size_setting: &str, what_to_show: &str, use_rth: i32, format_date: i32, keep_up_to_date: bool, chart_options: &Vec<TagValue>) -> Seq<Seq<char>> {
    Seq::<Seq<char>>::empty()
        .push(int_text((REQ_HISTORICAL_DATA) as int))
        .push(int_text((req_id) as int))
        .push(int_text((contract.con_id) as int))
        .push(contract.symbol@)
        .push(contract.sec_type@)
        .push(contract.last_trade_date_or_contract_month@)
        .push(contract.strike@)
        .push(contract.right@)
        .push(contract.multiplier@)
        .push(contract.exchange@)
        .push(contract.primary_exchange@)
        .push(contract.currency@)
        .push(contract.local_symbol@)
        .push(contract.trading_class@)
        .push(bool_field_text(contract.include_expired))
        .push(end_date_time@)
        .push(bar_size_setting@)
        .push(duration_str@)
        .push(int_text((use_rth) as int))
        .push(what_to_show@)
        .push(int_text((format_date) as int))
        .push(bool_field_text(keep_up_to_date))
        .push(misc_options_text(chart_options@))
}

/// For a server that takes every field of the request, and a contract that is not a combo,
/// `req_historical_data` sends `req_historical_data_fields`, each followed by NUL, in that order.
#[verifier::rlimit(80)]
pub proof fn law_req_historical_data_fields(sv: i32, req_id: i32, contract: &ContractFields, end_date_time: &str, duration_str: &str, bar_size_setting: &str, what_to_show: &str, use_rth: i32, format_date: i32, keep_up_to_date: bool, chart_options: &Vec<TagValue>)
    requires
        sv >= MIN_SERVER_VER_WSHE_CALENDAR,
        contract.sec_type@ != "BAG"@,
    ensures
        req_historical_data_text(sv, req_id, contract, end_date_time, duration_str, bar_size_setting, what_to_show, use_rth, format_date, keep_up_to_date, chart_options) == join_fields(req_historical_data_fields(req_id, contract, end_date_time, duration_str, bar_size_setting, what_to_show, use_rth, format_date, keep_up_to_date, chart_options)),
{
    let g0_0 = Seq::<Seq<char>>::empty();
    lemma_join_push(g0_0, int_text((REQ_HISTORICAL_DATA) as int));
    let g0_1 = g0_0.push(int_text((REQ_HISTORICAL_DATA) as int));
    lemma_join_push(g0_1, int_text((req_id) as int));
    let g0_2 = g0_1.push(int_text((req_id) as int));
    lemma_join_push(g0_2, int_text((contract.con_id) as int));
    let g0_3 = g0_2.push(int_text((contract.con_id) as int));
    lemma_join_push(g0_3, contract.symbol@);
    let g0_4 = g0_3.push(contract.symbol@);
    lemma_join_push(g0_4, contract.sec_type@);
    let g0_5 = g0_4.push(contract.sec_type@);
    lemma_join_push(g0_5, contract.last_trade_date_or_contract_month@);
    let g0_6 = g0_5.push(contract.last_trade_date_or_contract_month@);
    lemma_join_push(g0_6, contract.strike@);
    let g0_7 = g0_6.push(contract.strike@);
    lemma_join_push(g0_7, contract.right@);
    let g0_8 = g0_7.push(contract.right@);
    lemma_join_push(g0_8, contract.multiplier@);
    let g0_9 = g0_8.push(contract.multiplier@);
    lemma_join_push(g0_9, contract.exchange@);
    let g0_10 = g0_9.push(contract.exchange@);
    lemma_join_push(g0_10, contract.primary_exchange@);
    let g0_11 = g0_10.push(contract.primary_exchange@);
    lemma_join_push(g0_11, contract.currency@);
    let g0_12 = g0_11.push(contract.currency@);
    lemma_join_push(g0_12, contract.local_symbol@);
    let g0_13 = g0_12.push(contract.local_symbol@);
    lemma_join_push(g0_13, contract.trading_class@);
    let g0_14 = g0_13.push(contract.trading_class@);
    lemma_join_push(g0_14, bool_field_text(contract.include_expired));
    let g0_15 = g0_14.push(bool_field_text(contract.include_expired));
    lemma_join_push(g0_15, end_date_time@);
    let g0_16 = g0_15.push(end_date_time@);
    lemma_join_push(g0_16, bar_size_setting@);
    let g0_17 = g0_16.push(bar_size_setting@);
    lemma_join_push(g0_17, duration_str@);
    let g0_18 = g0_17.push(duration_str@);
    lemma_join_push(g0_18, int_text((use_rth) as int));
    let g0_19 = g0_18.push(int_text((use_rth) as int));
    lemma_join_push(g0_19, what_to_show@);
    let g0_20 = g0_19.push(what_to_show@);
    lemma_join_push(g0_20, int_text((format_date) as int));
    let g0_21 = g0_20.push(int_text((format_date) as int));
    lemma_join_push(g0_21, bool_field_text(keep_up_to_date));
    let g0_22 = g0_21.push(bool_field_text(keep_up_to_date));
    lemma_join_push(g0_22, misc_options_text(chart_options@));
    let g0_23 = g0_22.push(misc_options_text(chart_options@));
    assert(join_fields(Seq::<Seq<char>>::empty()) == Seq::<char>::empty());
    assert(req_historical_data_text(sv, req_id, contract, end_date_time, duration_str, bar_size_setting, what_to_show, use_rth, format_date, keep_up_to_date, chart_options) =~= join_fields(g0_23));
}

/// The fields of `req_real_time_bars` for a server that takes all of them, in the order they are
/// sent.
pub open spec fn req_real_time_bars_fields(req_id: i32, contract: &ContractFields, bar_size: i32, what_to_show: &str, use_rth: bool, real_time_bars_options: &Vec<TagValue>) -> Seq<Seq<char>> {
    Seq::<Seq<char>>::empty()
        .push(int_text((REQ_REAL_TIME_BARS) as int))
        .push(int_text((3) as int))
        .push(int_text((req_id) as int))
        .push(int_text((contract.con_id) as int))
        .push(contract.symbol@)
        .push(contract.sec_type@)
        .push(contract.last_trade_date_or_contract_month@)
        .push(contract.strike@)
        .push(contract.right@)
        .push(contract.multiplier@)
        .push(contract.exchange@)
        .push(contract.primary_exchange@)
        .push(contract.currency@)
        .push(contract.local_symbol@)
        .push(contract.trading_class@)
        .push(int_text((bar_size) as int))
        .push(what_to_show@)
        .push(bool_field_text(use_rth))
        .push(misc_options_text(real_time_bars_options@))
}

/// For a server that takes every field of the request,
/// `req_real_time_bars` sends `req_real_time_bars_fields`, each followed by NUL, in that order.
#[verifier::rlimit(80)]
pub proof fn law_req_real_time_bars_fields(sv: i32, req_id: i32, contract: &ContractFields, bar_size: i32, what_to_show: &str, use_rth: bool, real_time_bars_options: &Vec<TagValue>)
    requires
        sv >= MIN_SERVER_VER_WSHE_CALENDAR,
    ensures
        req_real_time_bars_text(sv, req_id, contract, bar_size, what_to_show, use_rth, real_time_bars_options) == join_fields(req_real_time_bars_fields(req_id, contract, bar_size, what_to_show, use_rth, real_time_bars_options)),
{
    let g0_0 = Seq::<Seq<char>>::empty();
    lemma_join_push(g0_0, int_text((REQ_REAL_TIME_BARS) as int));
    let g0_1 = g0_0.push(int_text((REQ_REAL_TIME_BARS) as int));
    lemma_join_push(g0_1, int_text((3) as int));
    let g0_2 = g0_1.push(int_text((3) as int));
    lemma_join_push(g0_2, int_text((req_id) as int));
    let g0_3 = g0_2.push(int_text((req_id) as int));
    lemma_join_push(g0_3, int_text((contract.con_id) as int));
    let g0_4 = g0_3.push(int_text((contract.con_id) as int));
    lemma_join_push(g0_4, contract.symbol@);
    let g0_5 = g0_4.push(contract.symbol@);
    lemma_join_push(g0_5, contract.sec_type@);
    let g0_6 = g0_5.push(contract.sec_type@);
    lemma_join_push(g0_6, contract.last_trade_date_or_contract_month@);
    let g0_7 = g0_6.push(contract.last_trade_date_or_contract_month@);
    lemma_join_push(g0_7, contract.strike@);
    let g0_8 = g0_7.push(contract.strike@);
    lemma_join_push(g0_8, contract.right@);
    let g0_9 = g0_8.push(contract.right@);
    lemma_join_push(g0_9, contract.multiplier@);
    let g0_10 = g0_9.push(contract.multiplier@);
    lemma_join_push(g0_10, contract.exchange@);
    let g0_11 = g0_10.push(contract.exchange@);
    lemma_join_push(g0_11, contract.primary_exchange@);
    let g0_12 = g0_11.push(contract.primary_exchange@);
    lemma_join_push(g0_12, contract.currency@);
    let g0_13 = g0_12.push(contract.currency@);
    lemma_join_push(g0_13, contract.local_symbol@);
    let g0_14 = g0_13.push(contract.local_symbol@);
    lemma_join_push(g0_14, contract.trading_class@);
    let g0_15 = g0_14.push(contract.trading_class@);
    lemma_join_push(g0_15, int_text((bar_size) as int));
    let g0_16 = g0_15.push(int_text((bar_size) as int));
    lemma_join_push(g0_16, what_to_show@);
    let g0_17 = g0_16.push(what_to_show@);
    lemma_join_push(g0_17, bool_field_text(use_rth));
    let g0_18 = g0_17.push(bool_field_text(use_rth));
    lemma_join_push(g0_18, misc_options_text(real_time_bars_options@));
    let g0_19 = g0_18.push(misc_options_text(real_time_bars_options@));
    assert(join_fields(Seq::<Seq<char>>::empty()) == Seq::<char>::empty());
    assert(req_real_time_bars_text(sv, req_id, contract, bar_size, what_to_show, use_rth, real_time_bars_options) =~= join_fields(g0_19));
}

/// The fields of `req_tick_by_tick_data` for a server that takes all of them, in the order they are
/// sent.
pub open spec fn req_tick_by_tick_data_fields(req_id: i32, contract: &ContractFields, tick_type: TickByTickType, number_of_ticks: i32, ignore_size: bool) -> Seq<Seq<char>> {
    Seq::<Seq<char>>::empty()
        .push(int_text((REQ_TICK_BY_TICK_DATA) as int))
        .push(int_text((req_id) as int))
        .push(int_text((contract.con_id) as int))
        .push(contract.symbol@)
        .push(contract.sec_type@)
        .push(contract.last_trade_date_or_contract_month@)
        .push(contract.strike@)
        .push(contract.right@)
        .push(contract.multiplier@)
        .push(contract.exchange@)
        .push(contract.primary_exchange@)
        .push(contract.currency@)
        .push(contract.local_symbol@)
        .push(contract.trading_class@)
        .push(tick_type.text_of())
        .push(int_text((number_of_ticks) as int))
        .push(bool_field_text(ignore_size))
}

/// For a server that takes every field of the request,
/// `req_tick_by_tick_data` sends `req_tick_by_tick_data_fields`, each followed by NUL, in that
/// order.
#[verifier::rlimit(80)]
pub proof fn law_req_tick_by_tick_data_fields(sv: i32, req_id: i32, contract: &ContractFields, tick_type: TickByTickType, number_of_ticks: i32, ignore_size: bool)
    requires
        sv >= MIN_SERVER_VER_WSHE_CALENDAR,
    ensures
        req_tick_by_tick_data_text(sv, req_id, contract, tick_type, number_of_ticks, ignore_size) == join_fields(req_tick_by_tick_data_fields(req_id, contract, tick_type, number_of_ticks, ignore_size)),
{
    let g0_0 = Seq::<Seq<char>>::empty();
    lemma_join_push(g0_0, int_text((REQ_TICK_BY_TICK_DATA) as int));
    let g0_1 = g0_0.push(int_text((REQ_TICK_BY_TICK_DATA) as int));
    lemma_join_push(g0_1, int_text((req_id) as int));
    let g0_2 = g0_1.push(int_text((req_id) as int));
    lemma_join_push(g0_2, int_text((contract.con_id) as int));
    let g0_3 = g0_2.push(int_text((contract.con_id) as int));
    lemma_join_push(g0_3, contract.symbol@);
    let g0_4 = g0_3.push(contract.symbol@);
    lemma_join_push(g0_4, contract.sec_type@);
    let g0_5 = g0_4.push(contract.sec_type@);
    lemma_join_push(g0_5, contract.last_trade_date_or_contract_month@);
    let g0_6 = g0_5.push(contract.last_trade_date_or_contract_month@);
    lemma_join_push(g0_6, contract.strike@);
    let g0_7 = g0_6.push(contract.strike@);
    lemma_join_push(g0_7, contract.right@);
    let g0_8 = g0_7.push(contract.right@);
    lemma_join_push(g0_8, contract.multiplier@);
    let g0_9 = g0_8.push(contract.multiplier@);
    lemma_join_push(g0_9, contract.exchange@);
    let g0_10 = g0_9.push(contract.exchange@);
    lemma_join_push(g0_10, contract.primary_exchange@);
    let g0_11 = g0_10.push(contract.primary_exchange@);
    lemma_join_push(g0_11, contract.currency@);
    let g0_12 = g0_11.push(contract.currency@);
    lemma_join_push(g0_12, contract.local_symbol@);
    let g0_13 = g0_12.push(contract.local_symbol@);
    lemma_join_push(g0_13, contract.trading_class@);
    let g0_14 = g0_13.push(contract.trading_class@);
    lemma_join_push(g0_14, tick_type.text_of());
    let g0_15 = g0_14.push(tick_type.text_of());
    lemma_join_push(g0_15, int_text((number_of_ticks) as int));
    let g0_16 = g0_15.push(int_text((number_of_ticks) as int));
    lemma_join_push(g0_16, bool_field_text(ignore_size));
    let g0_17 = g0_16.push(bool_field_text(ignore_size));
    assert(join_fields(Seq::<Seq<char>>::empty()) == Seq::<char>::empty());
    assert(req_tick_by_tick_data_text(sv, req_id, contract, tick_type, number_of_ticks, ignore_size) =~= join_fields(g0_17));
}

/// The fields of `calculate_implied_volatility` for a server that takes all of them, in the order
/// they are sent.
pub open spec fn calculate_implied_volatility_fields(req_id: i32, contract: &ContractFields, option_price: &str, under_price: &str, options: &Vec<TagValue>) -> Seq<Seq<char>> {
    Seq::<Seq<char>>::empty()
        .push(int_text((REQ_CALC_IMPLIED_VOLAT) as int))
        .push(int_text((3) as int))
        .push(int_text((req_id) as int))
        .push(int_text((contract.con_id) as int))
        .push(contract.symbol@)
        .push(contract.sec_type@)
        .push(contract.last_trade_date_or_contract_month@)
        .push(contract.strike@)
        .push(contract.right@)
        .push(contract.multiplier@)
        .push(contract.exchange@)
        .push(contract.primary_exchange@)
        .push(contract.currency@)
        .push(contract.local_symbol@)
        .push(contract.trading_class@)
        .push(option_price@)
        .push(under_price@)
        .push(int_text(options@.len() as int))
        .push(misc_options_text(options@))
}

/// For a server that takes every field of the request,
/// `calculate_implied_volatility` sends `calculate_implied_volatility_fields`, each followed by
/// NUL, in that order.
#[verifier::rlimit(80)]
pub proof fn law_calculate_implied_volatility_fields(sv: i32, req_id: i32, contract: &ContractFields, option_price: &str, under_price: &str, options: &Vec<TagValue>)
    requires
        sv >= MIN_SERVER_VER_WSHE_CALENDAR,
    ensures
        calculate_implied_volatility_text(sv, req_id, contract, option_price, under_price, options) == join_fields(calculate_implied_volatility_fields(req_id, contract, option_price, under_price, options)),
{
    let g0_0 = Seq::<Seq<char>>::empty();
    lemma_join_push(g0_0, int_text((REQ_CALC_IMPLIED_VOLAT) as int));
    let g0_1 = g0_0.push(int_text((REQ_CALC_IMPLIED_VOLAT) as int));
    lemma_join_push(g0_1, int_text((3) as int));
    let g0_2 = g0_1.push(int_text((3) as int));
    lemma_join_push(g0_2, int_text((req_id) as int));
    let g0_3 = g0_2.push(int_text((req_id) as int));
    lemma_join_push(g0_3, int_text((contract.con_id) as int));
    let g0_4 = g0_3.push(int_text((contract.con_id) as int));
    lemma_join_push(g0_4, contract.symbol@);
    let g0_5 = g0_4.push(contract.symbol@);
    lemma_join_push(g0_5, contract.sec_type@);
    let g0_6 = g0_5.push(contract.sec_type@);
    lemma_join_push(g0_6, contract.last_trade_date_or_contract_month@);
    let g0_7 = g0_6.push(contract.last_trade_date_or_contract_month@);
    lemma_join_push(g0_7, contract.strike@);
    let g0_8 = g0_7.push(contract.strike@);
    lemma_join_push(g0_8, contract.right@);
    let g0_9 = g0_8.push(contract.right@);
    lemma_join_push(g0_9, contract.multiplier@);
    let g0_10 = g0_9.push(contract.multiplier@);
    lemma_join_push(g0_10, contract.exchange@);
    let g0_11 = g0_10.push(contract.exchange@);
    lemma_join_push(g0_11, contract.primary_exchange@);
    let g0_12 = g0_11.push(contract.primary_exchange@);
    lemma_join_push(g0_12, contract.currency@);
    let g0_13 = g0_12.push(contract.currency@);
    lemma_join_push(g0_13, contract.local_symbol@);
    let g0_14 = g0_13.push(contract.local_symbol@);
    lemma_join_push(g0_14, contract.trading_class@);
    let g0_15 = g0_14.push(contract.trading_class@);
    lemma_join_push(g0_15, option_price@);
    let g0_16 = g0_15.push(option_price@);
    lemma_join_push(g0_16, under_price@);
    let g0_17 = g0_16.push(under_price@);
    lemma_join_push(g0_17, int_text(options@.len() as int));
    let g0_18 = g0_17.push(int_text(options@.len() as int));
    lemma_join_push(g0_18, misc_options_text(options@));
    let g0_19 = g0_18.push(misc_options_text(options@));
    assert(join_fields(Seq::<Seq<char>>::empty()) == Seq::<char>::empty());
    assert(calculate_implied_volatility_text(sv, req_id, contract, option_price, under_price, options) =~= join_fields(g0_19));
}

/// The fields of `calculate_option_price` for a server that takes all of them, in the order they
/// are sent.
pub open spec fn calculate_option_price_fields(req_id: i32, contract: &ContractFields, volatility: &str, under_price: &str, options: &Vec<TagValue>) -> Seq<Seq<char>> {
    Seq::<Seq<char>>::empty()
        .push(int_text((REQ_CALC_OPTION_PRICE) as int))
        .push(int_text((3) as int))
        .push(int_text((req_id) as int))
        .push(int_text((contract.con_id) as int))
        .push(contract.symbol@)
        .push(contract.sec_type@)
        .push(contract.last_trade_date_or_contract_month@)
        .push(contract.strike@)
        .push(contract.right@)
        .push(contract.multiplier@)
        .push(contract.exchange@)
        .push(contract.primary_exchange@)
        .push(contract.currency@)
        .push(contract.local_symbol@)
        .push(contract.trading_class@)
        .push(volatility@)
        .push(under_price@)
        + (if options@.len() > 0 {
        Seq::<Seq<char>>::empty()
            .push(int_text(options@.len() as int))
            .push(misc_options_text(options@))
    } else {
        Seq::<Seq<char>>::empty()
    })
}

/// For a server that takes every field of the request,
/// `calculate_option_price` sends `calculate_option_price_fields`, each followed by NUL, in that
/// order.
#[verifier::rlimit(80)]
pub proof fn law_calculate_option_price_fields(sv: i32, req_id: i32, contract: &ContractFields, volatility: &str, under_price: &str, options: &Vec<TagValue>)
    requires
        sv >= MIN_SERVER_VER_WSHE_CALENDAR,
    ensures
        calculate_option_price_text(sv, req_id, contract, volatility, under_price, options) == join_fields(calculate_option_price_fields(req_id, contract, volatility, under_price, options)),
{
    let g0_0 = Seq::<Seq<char>>::empty();
    lemma_join_push(g0_0, int_text((REQ_CALC_OPTION_PRICE) as int));
    let g0_1 = g0_0.push(int_text((REQ_CALC_OPTION_PRICE) as int));
    lemma_join_push(g0_1, int_text((3) as int));
    let g0_2 = g0_1.push(int_text((3) as int));
    lemma_join_push(g0_2, int_text((req_id) as int));
    let g0_3 = g0_2.push(int_text((req_id) as int));
    lemma_join_push(g0_3, int_text((contract.con_id) as int));
    let g0_4 = g0_3.push(int_text((contract.con_id) as int));
    lemma_join_push(g0_4, contract.symbol@);
    let g0_5 = g0_4.push(contract.symbol@);
    lemma_join_push(g0_5, contract.sec_type@);
    let g0_6 = g0_5.push(contract.sec_type@);
    lemma_join_push(g0_6, contract.last_trade_date_or_contract_month@);
    let g0_7 = g0_6.push(contract.last_trade_date_or_contract_month@);
    lemma_join_push(g0_7, contract.strike@);
    let g0_8 = g0_7.push(contract.strike@);
    lemma_join_push(g0_8, contract.right@);
    let g0_9 = g0_8.push(contract.right@);
    lemma_join_push(g0_9, contract.multiplier@);
    let g0_10 = g0_9.push(contract.multiplier@);
    lemma_join_push(g0_10, contract.exchange@);
    let g0_11 = g0_10.push(contract.exchange@);
    lemma_join_push(g0_11, contract.primary_exchange@);
    let g0_12 = g0_11.push(contract.primary_exchange@);
    lemma_join_push(g0_12, contract.currency@);
    let g0_13 = g0_12.push(contract.currency@);
    lemma_join_push(g0_13, contract.local_symbol@);
    let g0_14 = g0_13.push(contract.local_symbol@);
    lemma_join_push(g0_14, contract.trading_class@);
    let g0_15 = g0_14.push(contract.trading_class@);
    lemma_join_push(g0_15, volatility@);
    let g0_16 = g0_15.push(volatility@);
    lemma_join_push(g0_16, under_price@);
    let g0_17 = g0_16.push(under_price@);
    let g1_0 = Seq::<Seq<char>>::empty();
    lemma_join_push(g1_0, int_text(options@.len() as int));
    let g1_1 = g1_0.push(int_text(options@.len() as int));
    lemma_join_push(g1_1, misc_options_text(options@));
    let g1_2 = g1_1.push(misc_options_text(options@));
    let h1 = if options@.len() > 0 { g1_2 } else { Seq::<Seq<char>>::empty() };
    lemma_join_append(g0_17, h1);
    assert(join_fields(Seq::<Seq<char>>::empty()) == Seq::<char>::empty());
    assert(calculate_option_price_text(sv, req_id, contract, volatility, under_price, options) =~= join_fields(g0_17 + h1));
}

/// The fields of `exercise_options` for a server that takes all of them, in the order they are
/// sent.
pub open spec fn exercise_options_fields(req_id: i32, contract: &ContractFields, exercise_action: i32, exercise_quantity: i32, account: &str, over_ride: i32) -> Seq<Seq<char>> {
    Seq::<Seq<char>>::empty()
        .push(int_text((EXERCISE_OPTIONS) as int))
        .push(int_text((2) as int))
        .push(int_text((req_id) as int))
        .push(int_text((contract.con_id) as int))
        .push(contract.symbol@)
        .push(contract.sec_type@)
        .push(contract.last_trade_date_or_contract_month@)
        .push(contract.strike@)
        .push(contract.right@)
        .push(contract.multiplier@)
        .push(contract.exchange@)
        .push(contract.currency@)
        .push(contract.local_symbol@)
        .push(contract.trading_class@)
        .push(int_text((exercise_action) as int))
        .push(int_text((exercise_quantity) as int))
        .push(account@)
        .push(int_text((over_ride) as int))
}

/// For a server that takes every field of the request,
/// `exercise_options` sends `exercise_options_fields`, each followed by NUL, in that order.
#[verifier::rlimit(80)]
pub proof fn law_exercise_options_fields(sv: i32, req_id: i32, contract: &ContractFields, exercise_action: i32, exercise_quantity: i32, account: &str, over_ride: i32)
    requires
        sv >= MIN_SERVER_VER_WSHE_CALENDAR,
    ensures
        exercise_options_text(sv, req_id, contract, exercise_action, exercise_quantity, account, over_ride) == join_fields(exercise_options_fields(req_id, contract, exercise_action, exercise_quantity, account, over_ride)),
{
    let g0_0 = Seq::<Seq<char>>::empty();
    lemma_join_push(g0_0, int_text((EXERCISE_OPTIONS) as int));
    let g0_1 = g0_0.push(int_text((EXERCISE_OPTIONS) as int));
    lemma_join_push(g0_1, int_text((2) as int));
    let g0_2 = g0_1.push(int_text((2) as int));
    lemma_join_push(g0_2, int_text((req_id) as int));
    let g0_3 = g0_2.push(int_text((req_id) as int));
    lemma_join_push(g0_3, int_text((contract.con_id) as int));
    let g0_4 = g0_3.push(int_text((contract.con_id) as int));
    lemma_join_push(g0_4, contract.symbol@);
    let g0_5 = g0_4.push(contract.symbol@);
    lemma_join_push(g0_5, contract.sec_type@);
    let g0_6 = g0_5.push(contract.sec_type@);
    lemma_join_push(g0_6, contract.last_trade_date_or_contract_month@);
    let g0_7 = g0_6.push(contract.last_trade_date_or_contract_month@);
    lemma_join_push(g0_7, contract.strike@);
    let g0_8 = g0_7.push(contract.strike@);
    lemma_join_push(g0_8, contract.right@);
    let g0_9 = g0_8.push(contract.right@);
    lemma_join_push(g0_9, contract.multiplier@);
    let g0_10 = g0_9.push(contract.multiplier@);
    lemma_join_push(g0_10, contract.exchange@);
    let g0_11 = g0_10.push(contract.exchange@);
    lemma_join_push(g0_11, contract.currency@);
    let g0_12 = g0_11.push(contract.currency@);
    lemma_join_push(g0_12, contract.local_symbol@);
    let g0_13 = g0_12.push(contract.local_symbol@);
    lemma_join_push(g0_13, contract.trading_class@);
    let g0_14 = g0_13.push(contract.trading_class@);
    lemma_join_push(g0_14, int_text((exercise_action) as int));
    let g0_15 = g0_14.push(int_text((exercise_action) as int));
    lemma_join_push(g0_15, int_text((exercise_quantity) as int));
    let g0_16 = g0_15.push(int_text((exercise_quantity) as int));
    lemma_join_push(g0_16, account@);
    let g0_17 = g0_16.push(account@);
    lemma_join_push(g0_17, int_text((over_ride) as int));
    let g0_18 = g0_17.push(int_text((over_ride) as int));
    assert(join_fields(Seq::<Seq<char>>::empty()) == Seq::<char>::empty());
    assert(exercise_options_text(sv, req_id, contract, exercise_action, exercise_quantity, account, over_ride) =~= join_fields(g0_18));
}

/// The fields of `req_fundamental_data` for a server that takes all of them, in the order they are
/// sent.
pub open spec fn req_fundamental_data_fields(req_id: i32, contract: &ContractFields, report_type: &str, options: &Vec<TagValue>) -> Seq<Seq<char>> {
    Seq::<Seq<char>>::empty()
        .push(int_text((REQ_FUNDAMENTAL_DATA) as int))
        .push(int_text((2) as int))
        .push(int_text((req_id) as int))
        .push(int_text((contract.con_id) as int))
        .push(contract.symbol@)
        .push(contract.sec_type@)
        .push(contract.exchange@)
        .push(contract.primary_exchange@)
        .push(contract.currency@)
        .push(contract.local_symbol@)
        .push(report_type@)
        .push(int_text(options@.len() as int))
        .push(misc_options_text(options@))
}

/// For a server that takes every field of the request,
/// `req_fundamental_data` sends `req_fundamental_data_fields`, each followed by NUL, in that order.
#[verifier::rlimit(80)]
pub proof fn law_req_fundamental_data_fields(sv: i32, req_id: i32, contract: &ContractFields, report_type: &str, options: &Vec<TagValue>)
    requires
        sv >= MIN_SERVER_VER_WSHE_CALENDAR,
    ensures
        req_fundamental_data_text(sv, req_id, contract, report_type, options) == join_fields(req_fundamental_data_fields(req_id, contract, report_type, options)),
{
    let g0_0 = Seq::<Seq<char>>::empty();
    lemma_join_push(g0_0, int_text((REQ_FUNDAMENTAL_DATA) as int));
    let g0_1 = g0_0.push(int_text((REQ_FUNDAMENTAL_DATA) as int));
    lemma_join_push(g0_1, int_text((2) as int));
    let g0_2 = g0_1.push(int_text((2) as int));
    lemma_join_push(g0_2, int_text((req_id) as int));
    let g0_3 = g0_2.push(int_text((req_id) as int));
    lemma_join_push(g0_3, int_text((contract.con_id) as int));
    let g0_4 = g0_3.push(int_text((contract.con_id) as int));
    lemma_join_push(g0_4, contract.symbol@);
    let g0_5 = g0_4.push(contract.symbol@);
    lemma_join_push(g0_5, contract.sec_type@);
    let g0_6 = g0_5.push(contract.sec_type@);
    lemma_join_push(g0_6, contract.exchange@);
    let g0_7 = g0_6.push(contract.exchange@);
    lemma_join_push(g0_7, contract.primary_exchange@);
    let g0_8 = g0_7.push(contract.primary_exchange@);
    lemma_join_push(g0_8, contract.currency@);
    let g0_9 = g0_8.push(contract.currency@);
    lemma_join_push(g0_9, contract.local_symbol@);
    let g0_10 = g0_9.push(contract.local_symbol@);
    lemma_join_push(g0_10, report_type@);
    let g0_11 = g0_10.push(report_type@);
    lemma_join_push(g0_11, int_text(options@.len() as int));
    let g0_12 = g0_11.push(int_text(options@.len() as int));
    lemma_join_push(g0_12, misc_options_text(options@));
    let g0_13 = g0_12.push(misc_options_text(options@));
    assert(join_fields(Seq::<Seq<char>>::empty()) == Seq::<char>::empty());
    assert(req_fundamental_data_text(sv, req_id, contract, report_type, options) =~= join_fields(g0_13));
}

/// The fields of `req_head_time_stamp` for a server that takes all of them, in the order they are
/// sent.
pub open spec fn req_head_time_stamp_fields(req_id: i32, contract: &ContractFields, what_to_show: &str, use_rth: i32, format_date: i32) -> Seq<Seq<char>> {
    Seq::<Seq<char>>::empty()
        .push(int_text((REQ_HEAD_TIMESTAMP) as int))
        .push(int_text((req_id) as int))
        .push(int_text((contract.con_id) as int))
        .push(contract.symbol@)
        .push(contract.sec_type@)
        .push(contract.last_trade_date_or_contract_month@)
        .push(contract.strike@)
        .push(contract.right@)
        .push(contract.multiplier@)
        .push(contract.exchange@)
        .push(contract.primary_exchange@)
        .push(contract.currency@)
        .push(contract.local_symbol@)
        .push(contract.trading_class@)
        .push(bool_field_text(contract.include_expired))
        .push(int_text((use_rth) as int))
        .push(what_to_show@)
        .push(int_text((format_date) as int))
}

/// For a server that takes every field of the request,
/// `req_head_time_stamp` sends `req_head_time_stamp_fields`, each followed by NUL, in that order.
#[verifier::rlimit(80)]
pub proof fn law_req_head_time_stamp_fields(sv: i32, req_id: i32, contract: &ContractFields, what_to_show: &str, use_rth: i32, format_date: i32)
    requires
        sv >= MIN_SERVER_VER_WSHE_CALENDAR,
    ensures
        req_head_time_stamp_text(sv, req_id, contract, what_to_show, use_rth, format_date) == join_fields(req_head_time_stamp_fields(req_id, contract, what_to_show, use_rth, format_date)),
{
    let g0_0 = Seq::<Seq<char>>::empty();
    lemma_join_push(g0_0, int_text((REQ_HEAD_TIMESTAMP) as int));
    let g0_1 = g0_0.push(int_text((REQ_HEAD_TIMESTAMP) as int));
    lemma_join_push(g0_1, int_text((req_id) as int));
    let g0_2 = g0_1.push(int_text((req_id) as int));
    lemma_join_push(g0_2, int_text((contract.con_id) as int));
    let g0_3 = g0_2.push(int_text((contract.con_id) as int));
    lemma_join_push(g0_3, contract.symbol@);
    let g0_4 = g0_3.push(contract.symbol@);
    lemma_join_push(g0_4, contract.sec_type@);
    let g0_5 = g0_4.push(contract.sec_type@);
    lemma_join_push(g0_5, contract.last_trade_date_or_contract_month@);
    let g0_6 = g0_5.push(contract.last_trade_date_or_contract_month@);
    lemma_join_push(g0_6, contract.strike@);
    let g0_7 = g0_6.push(contract.strike@);
    lemma_join_push(g0_7, contract.right@);
    let g0_8 = g0_7.push(contract.right@);
    lemma_join_push(g0_8, contract.multiplier@);
    let g0_9 = g0_8.push(contract.multiplier@);
    lemma_join_push(g0_9, contract.exchange@);
    let g0_10 = g0_9.push(contract.exchange@);
    lemma_join_push(g0_10, contract.primary_exchange@);
    let g0_11 = g0_10.push(contract.primary_exchange@);
    lemma_join_push(g0_11, contract.currency@);
    let g0_12 = g0_11.push(contract.currency@);
    lemma_join_push(g0_12, contract.local_symbol@);
    let g0_13 = g0_12.push(contract.local_symbol@);
    lemma_join_push(g0_13, contract.trading_class@);
    let g0_14 = g0_13.push(contract.trading_class@);
    lemma_join_push(g0_14, bool_field_text(contract.include_expired));
    let g0_15 = g0_14.push(bool_field_text(contract.include_expired));
    lemma_join_push(g0_15, int_text((use_rth) as int));
    let g0_16 = g0_15.push(int_text((use_rth) as int));
    lemma_join_push(g0_16, what_to_show@);
    let g0_17 = g0_16.push(what_to_show@);
    lemma_join_push(g0_17, int_text((format_date) as int));
    let g0_18 = g0_17.push(int_text((format_date) as int));
    assert(join_fields(Seq::<Seq<char>>::empty()) == Seq::<char>::empty());
    assert(req_head_time_stamp_text(sv, req_id, contract, what_to_show, use_rth, format_date) =~= join_fields(g0_18));
}

/// The fields of `req_histogram_data` for a server that takes all of them, in the order they are
/// sent.
pub open spec fn req_histogram_data_fields(ticker_id: i32, contract: &ContractFields, use_rth: bool, time_period: &str) -> Seq<Seq<char>> {
    Seq::<Seq<char>>::empty()
        .push(int_text((REQ_HISTOGRAM_DATA) as int))
        .push(int_text((ticker_id) as int))
        .push(int_text((contract.con_id) as int))
        .push(contract.symbol@)
        .push(contract.sec_type@)
        .push(contract.last_trade_date_or_contract_month@)
        .push(contract.strike@)
        .push(contract.right@)
        .push(contract.multiplier@)
        .push(contract.exchange@)
        .push(contract.primary_exchange@)
        .push(contract.currency@)
        .push(contract.local_symbol@)
        .push(contract.trading_class@)
        .push(bool_field_text(contract.include_expired))
        .push(bool_field_text(use_rth))
        .push(time_period@)
}

/// For a server that takes every field of the request,
/// `req_histogram_data` sends `req_histogram_data_fields`, each followed by NUL, in that order.
#[verifier::rlimit(80)]
pub proof fn law_req_histogram_data_fields(sv: i32, ticker_id: i32, contract: &ContractFields, use_rth: bool, time_period: &str)
    requires
        sv >= MIN_SERVER_VER_WSHE_CALENDAR,
    ensures
        req_histogram_data_text(sv, ticker_id, contract, use_rth, time_period) == join_fields(req_histogram_data_fields(ticker_id, contract, use_rth, time_period)),
{
    let g0_0 = Seq::<Seq<char>>::empty();
    lemma_join_push(g0_0, int_text((REQ_HISTOGRAM_DATA) as int));
    let g0_1 = g0_0.push(int_text((REQ_HISTOGRAM_DATA) as int));
    lemma_join_push(g0_1, int_text((ticker_id) as int));
    let g0_2 = g0_1.push(int_text((ticker_id) as int));
    lemma_join_push(g0_2, int_text((contract.con_id) as int));
    let g0_3 = g0_2.push(int_text((contract.con_id) as int));
    lemma_join_push(g0_3, contract.symbol@);
    let g0_4 = g0_3.push(contract.symbol@);
    lemma_join_push(g0_4, contract.sec_type@);
    let g0_5 = g0_4.push(contract.sec_type@);
    lemma_join_push(g0_5, contract.last_trade_date_or_contract_month@);
    let g0_6 = g0_5.push(contract.last_trade_date_or_contract_month@);
    lemma_join_push(g0_6, contract.strike@);
    let g0_7 = g0_6.push(contract.strike@);
    lemma_join_push(g0_7, contract.right@);
    let g0_8 = g0_7.push(contract.right@);
    lemma_join_push(g0_8, contract.multiplier@);
    let g0_9 = g0_8.push(contract.multiplier@);
    lemma_join_push(g0_9, contract.exchange@);
    let g0_10 = g0_9.push(contract.exchange@);
    lemma_join_push(g0_10, contract.primary_exchange@);
    let g0_11 = g0_10.push(contract.primary_exchange@);
    lemma_join_push(g0_11, contract.currency@);
    let g0_12 = g0_11.push(contract.currency@);
    lemma_join_push(g0_12, contract.local_symbol@);
    let g0_13 = g0_12.push(contract.local_symbol@);
    lemma_join_push(g0_13, contract.trading_class@);
    let g0_14 = g0_13.push(contract.trading_class@);
    lemma_join_push(g0_14, bool_field_text(contract.include_expired));
    let g0_15 = g0_14.push(bool_field_text(contract.include_expired));
    lemma_join_push(g0_15, bool_field_text(use_rth));
    let g0_16 = g0_15.push(bool_field_text(use_rth));
    lemma_join_push(g0_16, time_period@);
    let g0_17 = g0_16.push(time_period@);
    assert(join_fields(Seq::<Seq<char>>::empty()) == Seq::<char>::empty());
    assert(req_histogram_data_text(sv, ticker_id, contract, use_rth, time_period) =~= join_fields(g0_17));
}

/// The fields of `req_historical_ticks` for a server that takes all of them, in the order they are
/// sent.
pub open spec fn req_historical_ticks_fields(req_id: i32, contract: &ContractFields, start_date_time: &str, end_date_time: &str, number_of_ticks: i32, what_to_show: &str, use_rth: i32, ignore_size: bool, options: &Vec<TagValue>) -> Seq<Seq<char>> {
    Seq::<Seq<char>>::empty()
        .push(int_text((REQ_HISTORICAL_TICKS) as int))
        .push(int_text((req_id) as int))
        .push(int_text((contract.con_id) as int))
        .push(contract.symbol@)
        .push(contract.sec_type@)
        .push(contract.last_trade_date_or_contract_month@)
        .push(contract.strike@)
        .push(contract.right@)
        .push(contract.multiplier@)
        .push(contract.exchange@)
        .push(contract.primary_exchange@)
        .push(contract.currency@)
        .push(contract.local_symbol@)
        .push(contract.trading_class@)
        .push(bool_field_text(contract.include_expired))
        .push(start_date_time@)
        .push(end_date_time@)
        .push(int_text((number_of_ticks) as int))
        .push(what_to_show@)
        .push(int_text((use_rth) as int))
        .push(bool_field_text(ignore_size))
        .push(misc_options_text(options@))
}

/// For a server that takes every field of the request,
/// `req_historical_ticks` sends `req_historical_ticks_fields`, each followed by NUL, in that order.
#[verifier::rlimit(80)]
pub proof fn law_req_historical_ticks_fields(sv: i32, req_id: i32, contract: &ContractFields, start_date_time: &str, end_date_time: &str, number_of_ticks: i32, what_to_show: &str, use_rth: i32, ignore_size: bool, options: &Vec<TagValue>)
    requires
        sv >= MIN_SERVER_VER_WSHE_CALENDAR,
    ensures
        req_historical_ticks_text(sv, req_id, contract, start_date_time, end_date_time, number_of_ticks, what_to_show, use_rth, ignore_size, options) == join_fields(req_historical_ticks_fields(req_id, contract, start_date_time, end_date_time, number_of_ticks, what_to_show, use_rth, ignore_size, options)),
{
    let g0_0 = Seq::<Seq<char>>::empty();
    lemma_join_push(g0_0, int_text((REQ_HISTORICAL_TICKS) as int));
    let g0_1 = g0_0.push(int_text((REQ_HISTORICAL_TICKS) as int));
    lemma_join_push(g0_1, int_text((req_id) as int));
    let g0_2 = g0_1.push(int_text((req_id) as int));
    lemma_join_push(g0_2, int_text((contract.con_id) as int));
    let g0_3 = g0_2.push(int_text((contract.con_id) as int));
    lemma_join_push(g0_3, contract.symbol@);
    let g0_4 = g0_3.push(contract.symbol@);
    lemma_join_push(g0_4, contract.sec_type@);
    let g0_5 = g0_4.push(contract.sec_type@);
    lemma_join_push(g0_5, contract.last_trade_date_or_contract_month@);
    let g0_6 = g0_5.push(contract.last_trade_date_or_contract_month@);
    lemma_join_push(g0_6, contract.strike@);
    let g0_7 = g0_6.push(contract.strike@);
    lemma_join_push(g0_7, contract.right@);
    let g0_8 = g0_7.push(contract.right@);
    lemma_join_push(g0_8, contract.multiplier@);
    let g0_9 = g0_8.push(contract.multiplier@);
    lemma_join_push(g0_9, contract.exchange@);
    let g0_10 = g0_9.push(contract.exchange@);
    lemma_join_push(g0_10, contract.primary_exchange@);
    let g0_11 = g0_10.push(contract.primary_exchange@);
    lemma_join_push(g0_11, contract.currency@);
    let g0_12 = g0_11.push(contract.currency@);
    lemma_join_push(g0_12, contract.local_symbol@);
    let g0_13 = g0_12.push(contract.local_symbol@);
    lemma_join_push(g0_13, contract.trading_class@);
    let g0_14 = g0_13.push(contract.trading_class@);
    lemma_join_push(g0_14, bool_field_text(contract.include_expired));
    let g0_15 = g0_14.push(bool_field_text(contract.include_expired));
    lemma_join_push(g0_15, start_date_time@);
    let g0_16 = g0_15.push(start_date_time@);
    lemma_join_push(g0_16, end_date_time@);
    let g0_17 = g0_16.push(end_date_time@);
    lemma_join_push(g0_17, int_text((number_of_ticks) as int));
    let g0_18 = g0_17.push(int_text((number_of_ticks) as int));
    lemma_join_push(g0_18, what_to_show@);
    let g0_19 = g0_18.push(what_to_show@);
    lemma_join_push(g0_19, int_text((use_rth) as int));
    let g0_20 = g0_19.push(int_text((use_rth) as int));
    lemma_join_push(g0_20, bool_field_text(ignore_size));
    let g0_21 = g0_20.push(bool_field_text(ignore_size));
    lemma_join_push(g0_21, misc_options_text(options@));
    let g0_22 = g0_21.push(misc_options_text(options@));
    assert(join_fields(Seq::<Seq<char>>::empty()) == Seq::<char>::empty());
    assert(req_historical_ticks_text(sv, req_id, contract, start_date_time, end_date_time, number_of_ticks, what_to_show, use_rth, ignore_size, options) =~= join_fields(g0_22));
}

/// The fields of `req_executions` for a server that takes all of them, in the order they are sent.
pub open spec fn req_executions_fields(req_id: i32, exec_filter: &ExecutionFilter) -> Seq<Seq<char>> {
    Seq::<Seq<char>>::empty()
        .push(int_text((REQ_EXECUTIONS) as int))
        .push(int_text((3) as int))
        .push(int_text((req_id) as int))
        .push(int_text((exec_filter.client_id) as int))
        .push(exec_filter.acct_code@)
        .push(exec_filter.time@)
        .push(exec_filter.symbol@)
        .push(exec_filter.sec_type@)
        .push(exec_filter.exchange@)
        .push(exec_filter.side@)
}

/// For a server that takes every field of the request,
/// `req_executions` sends `req_executions_fields`, each followed by NUL, in that order.
#[verifier::rlimit(80)]
pub proof fn law_req_executions_fields(sv: i32, req_id: i32, exec_filter: &ExecutionFilter)
    requires
        sv >= MIN_SERVER_VER_WSHE_CALENDAR,
    ensures
        req_executions_text(sv, req_id, exec_filter) == join_fields(req_executions_fields(req_id, exec_filter)),
{
    let g0_0 = Seq::<Seq<char>>::empty();
    lemma_join_push(g0_0, int_text((REQ_EXECUTIONS) as int));
    let g0_1 = g0_0.push(int_text((REQ_EXECUTIONS) as int));
    lemma_join_push(g0_1, int_text((3) as int));
    let g0_2 = g0_1.push(int_text((3) as int));
    lemma_join_push(g0_2, int_text((req_id) as int));
    let g0_3 = g0_2.push(int_text((req_id) as int));
    lemma_join_push(g0_3, int_text((exec_filter.client_id) as int));
    let g0_4 = g0_3.push(int_text((exec_filter.client_id) as int));
    lemma_join_push(g0_4, exec_filter.acct_code@);
    let g0_5 = g0_4.push(exec_filter.acct_code@);
    lemma_join_push(g0_5, exec_filter.time@);
    let g0_6 = g0_5.push(exec_filter.time@);
    lemma_join_push(g0_6, exec_filter.symbol@);
    let g0_7 = g0_6.push(exec_filter.symbol@);
    lemma_join_push(g0_7, exec_filter.sec_type@);
    let g0_8 = g0_7.push(exec_filter.sec_type@);
    lemma_join_push(g0_8, exec_filter.exchange@);
    let g0_9 = g0_8.push(exec_filter.exchange@);
    lemma_join_push(g0_9, exec_filter.side@);
    let g0_10 = g0_9.push(exec_filter.side@);
    assert(join_fields(Seq::<Seq<char>>::empty()) == Seq::<char>::empty());
    assert(req_executions_text(sv, req_id, exec_filter) =~= join_fields(g0_10));
}

/// The fields of `req_news_article` for a server that takes all of them, in the order they are
/// sent.
pub open spec fn req_news_article_fields(req_id: i32, provider_code: &str, article_id: &str, options: &Vec<TagValue>) -> Seq<Seq<char>> {
    Seq::<Seq<char>>::empty()
        .push(int_text((REQ_NEWS_ARTICLE) as int))
        .push(int_text((req_id) as int))
        .push(provider_code@)
        .push(article_id@)
        .push(misc_options_text(options@))
}

/// For a server that takes every field of the request,
/// `req_news_article` sends `req_news_article_fields`, each followed by NUL, in that order.
#[verifier::rlimit(80)]
pub proof fn law_req_news_article_fields(sv: i32, req_id: i32, provider_code: &str, article_id: &str, options: &Vec<TagValue>)
    requires
        sv >= MIN_SERVER_VER_WSHE_CALENDAR,
    ensures
        req_news_article_text(sv, req_id, provider_code, article_id, options) == join_fields(req_news_article_fields(req_id, provider_code, article_id, options)),
{
    let g0_0 = Seq::<Seq<char>>::empty();
    lemma_join_push(g0_0, int_text((REQ_NEWS_ARTICLE) as int));
    let g0_1 = g0_0.push(int_text((REQ_NEWS_ARTICLE) as int));
    lemma_join_push(g0_1, int_text((req_id) as int));
    let g0_2 = g0_1.push(int_text((req_id) as int));
    lemma_join_push(g0_2, provider_code@);
    let g0_3 = g0_2.push(provider_code@);
    lemma_join_push(g0_3, article_id@);
    let g0_4 = g0_3.push(article_id@);
    lemma_join_push(g0_4, misc_options_text(options@));
    let g0_5 = g0_4.push(misc_options_text(options@));
    assert(join_fields(Seq::<Seq<char>>::empty()) == Seq::<char>::empty());
    assert(req_news_article_text(sv, req_id, provider_code, article_id, options) =~= join_fields(g0_5));
}

/// The fields of `req_historical_news` for a server that takes all of them, in the order they are
/// sent.
pub open spec fn req_historical_news_fields(req_id: i32, con_id: i32, provider_codes: &str, start_date_time: &str, end_date_time: &str, total_results: i32, options: &Vec<TagValue>) -> Seq<Seq<char>> {
    Seq::<Seq<char>>::empty()
        .push(int_text((REQ_HISTORICAL_NEWS) as int))
        .push(int_text((req_id) as int))
        .push(int_text((con_id) as int))
        .push(provider_codes@)
        .push(start_date_time@)
        .push(end_date_time@)
        .push(int_text((total_results) as int))
        .push(misc_options_text(options@))
}

/// For a server that takes every field of the request,
/// `req_historical_news` sends `req_historical_news_fields`, each followed by NUL, in that order.
#[verifier::rlimit(80)]
pub proof fn law_req_historical_news_fields(sv: i32, req_id: i32, con_id: i32, provider_codes: &str, start_date_time: &str, end_date_time: &str, total_results: i32, options: &Vec<TagValue>)
    requires
        sv >= MIN_SERVER_VER_WSHE_CALENDAR,
    ensures
        req_historical_news_text(sv, req_id, con_id, provider_codes, start_date_time, end_date_time, total_results, options) == join_fields(req_historical_news_fields(req_id, con_id, provider_codes, start_date_time, end_date_time, total_results, options)),
{
    let g0_0 = Seq::<Seq<char>>::empty();
    lemma_join_push(g0_0, int_text((REQ_HISTORICAL_NEWS) as int));
    let g0_1 = g0_0.push(int_text((REQ_HISTORICAL_NEWS) as int));
    lemma_join_push(g0_1, int_text((req_id) as int));
    let g0_2 = g0_1.push(int_text((req_id) as int));
    lemma_join_push(g0_2, int_text((con_id) as int));
    let g0_3 = g0_2.push(int_text((con_id) as int));
    lemma_join_push(g0_3, provider_codes@);
    let g0_4 = g0_3.push(provider_codes@);
    lemma_join_push(g0_4, start_date_time@);
    let g0_5 = g0_4.push(start_date_time@);
    lemma_join_push(g0_5, end_date_time@);
    let g0_6 = g0_5.push(end_date_time@);
    lemma_join_push(g0_6, int_text((total_results) as int));
    let g0_7 = g0_6.push(int_text((total_results) as int));
    lemma_join_push(g0_7, misc_options_text(options@));
    let g0_8 = g0_7.push(misc_options_text(options@));
    assert(join_fields(Seq::<Seq<char>>::empty()) == Seq::<char>::empty());
    assert(req_historical_news_text(sv, req_id, con_id, provider_codes, start_date_time, end_date_time, total_results, options) =~= join_fields(g0_8));
}

/// The fields of `req_scanner_subscription` for a server that takes all of them, in the order they
/// are sent.
pub open spec fn req_scanner_subscription_fields(req_id: i32, subscription: &ScannerSubscriptionFields, options: &Vec<TagValue>, filter_options: &Vec<TagValue>) -> Seq<Seq<char>> {
    Seq::<Seq<char>>::empty()
        .push(int_text((REQ_SCANNER_SUBSCRIPTION) as int))
        .push(int_text((req_id) as int))
        .push(set_int_text(subscription.number_of_rows))
        .push(subscription.instrument@)
        .push(subscription.location_code@)
        .push(subscription.scan_code@)
        .push(set_text(subscription.above_price))
        .push(set_text(subscription.below_price))
        .push(set_int_text(subscription.above_volume))
        .push(set_text(subscription.market_cap_above))
        .push(set_text(subscription.market_cap_below))
        .push(subscription.moody_rating_above@)
        .push(subscription.moody_rating_below@)
        .push(subscription.sp_rating_above@)
        .push(subscription.sp_rating_below@)
        .push(subscription.maturity_date_above@)
        .push(subscription.maturity_date_below@)
        .push(set_text(subscription.coupon_rate_above))
        .push(set_text(subscription.coupon_rate_below))
        .push(bool_field_text(subscription.exclude_convertible))
        .push(set_int_text(subscription.average_option_volume_above))
        .push(subscription.scanner_setting_pairs@)
        .push(subscription.stock_type_filter@)
        .push(misc_options_text(filter_options@))
        .push(misc_options_text(options@))
}

/// For a server that takes every field of the request,
/// `req_scanner_subscription` sends `req_scanner_subscription_fields`, each followed by NUL, in
/// that order.
#[verifier::rlimit(80)]
pub proof fn law_req_scanner_subscription_fields(sv: i32, req_id: i32, subscription: &ScannerSubscriptionFields, options: &Vec<TagValue>, filter_options: &Vec<TagValue>)
    requires
        sv >= MIN_SERVER_VER_WSHE_CALENDAR,
    ensures
        req_scanner_subscription_text(sv, req_id, subscription, options, filter_options) == join_fields(req_scanner_subscription_fields(req_id, subscription, options, filter_options)),
{
    let g0_0 = Seq::<Seq<char>>::empty();
    lemma_join_push(g0_0, int_text((REQ_SCANNER_SUBSCRIPTION) as int));
    let g0_1 = g0_0.push(int_text((REQ_SCANNER_SUBSCRIPTION) as int));
    lemma_join_push(g0_1, int_text((req_id) as int));
    let g0_2 = g0_1.push(int_text((req_id) as int));
    lemma_join_push(g0_2, set_int_text(subscription.number_of_rows));
    let g0_3 = g0_2.push(set_int_text(subscription.number_of_rows));
    lemma_join_push(g0_3, subscription.instrument@);
    let g0_4 = g0_3.push(subscription.instrument@);
    lemma_join_push(g0_4, subscription.location_code@);
    let g0_5 = g0_4.push(subscription.location_code@);
    lemma_join_push(g0_5, subscription.scan_code@);
    let g0_6 = g0_5.push(subscription.scan_code@);
    lemma_join_push(g0_6, set_text(subscription.above_price));
    let g0_7 = g0_6.push(set_text(subscription.above_price));
    lemma_join_push(g0_7, set_text(subscription.below_price));
    let g0_8 = g0_7.push(set_text(subscription.below_price));
    lemma_join_push(g0_8, set_int_text(subscription.above_volume));
    let g0_9 = g0_8.push(set_int_text(subscription.above_volume));
    lemma_join_push(g0_9, set_text(subscription.market_cap_above));
    let g0_10 = g0_9.push(set_text(subscription.market_cap_above));
    lemma_join_push(g0_10, set_text(subscription.market_cap_below));
    let g0_11 = g0_10.push(set_text(subscription.market_cap_below));
    lemma_join_push(g0_11, subscription.moody_rating_above@);
    let g0_12 = g0_11.push(subscription.moody_rating_above@);
    lemma_join_push(g0_12, subscription.moody_rating_below@);
    let g0_13 = g0_12.push(subscription.moody_rating_below@);
    lemma_join_push(g0_13, subscription.sp_rating_above@);
    let g0_14 = g0_13.push(subscription.sp_rating_above@);
    lemma_join_push(g0_14, subscription.sp_rating_below@);
    let g0_15 = g0_14.push(subscription.sp_rating_below@);
    lemma_join_push(g0_15, subscription.maturity_date_above@);
    let g0_16 = g0_15.push(subscription.maturity_date_above@);
    lemma_join_push(g0_16, subscription.maturity_date_below@);
    let g0_17 = g0_16.push(subscription.maturity_date_below@);
    lemma_join_push(g0_17, set_text(subscription.coupon_rate_above));
    let g0_18 = g0_17.push(set_text(subscription.coupon_rate_above));
    lemma_join_push(g0_18, set_text(subscription.coupon_rate_below));
    let g0_19 = g0_18.push(set_text(subscription.coupon_rate_below));
    lemma_join_push(g0_19, bool_field_text(subscription.exclude_convertible));
    let g0_20 = g0_19.push(bool_field_text(subscription.exclude_convertible));
    lemma_join_push(g0_20, set_int_text(subscription.average_option_volume_above));
    let g0_21 = g0_20.push(set_int_text(subscription.average_option_volume_above));
    lemma_join_push(g0_21, subscription.scanner_setting_pairs@);
    let g0_22 = g0_21.push(subscription.scanner_setting_pairs@);
    lemma_join_push(g0_22, subscription.stock_type_filter@);
    let g0_23 = g0_22.push(subscription.stock_type_filter@);
    lemma_join_push(g0_23, misc_options_text(filter_options@));
    let g0_24 = g0_23.push(misc_options_text(filter_options@));
    lemma_join_push(g0_24, misc_options_text(options@));
    let g0_25 = g0_24.push(misc_options_text(options@));
    assert(join_fields(Seq::<Seq<char>>::empty()) == Seq::<char>::empty());
    assert(req_scanner_subscription_text(sv, req_id, subscription, options, filter_options) =~= join_fields(g0_25));
}

/// The fields of `req_wsh_event_data` for a server that takes all of them, in the order they are
/// sent.
pub open spec fn req_wsh_event_data_fields(req_id: i32, con_id: i32) -> Seq<Seq<char>> {
    Seq::<Seq<char>>::empty()
        .push(int_text((REQ_WSH_EVENT_DATA) as int))
        .push(int_text((req_id) as int))
        .push(int_text((con_id) as int))
}

/// For a server that takes every field of the request,
/// `req_wsh_event_data` sends `req_wsh_event_data_fields`, each followed by NUL, in that order.
#[verifier::rlimit(80)]
pub proof fn law_req_wsh_event_data_fields(sv: i32, req_id: i32, con_id: i32)
    requires
        sv >= MIN_SERVER_VER_WSHE_CALENDAR,
    ensures
        req_wsh_event_data_text(sv, req_id, con_id) == join_fields(req_wsh_event_data_fields(req_id, con_id)),
{
    let g0_0 = Seq::<Seq<char>>::empty();
    lemma_join_push(g0_0, int_text((REQ_WSH_EVENT_DATA) as int));
    let g0_1 = g0_0.push(int_text((REQ_WSH_EVENT_DATA) as int));
    lemma_join_push(g0_1, int_text((req_id) as int));
    let g0_2 = g0_1.push(int_text((req_id) as int));
    lemma_join_push(g0_2, int_text((con_id) as int));
    let g0_3 = g0_2.push(int_text((con_id) as int));
    assert(join_fields(Seq::<Seq<char>>::empty()) == Seq::<char>::empty());
    assert(req_wsh_event_data_text(sv, req_id, con_id) =~= join_fields(g0_3));
}

/// The fields of `replace_fa` for a server that takes all of them, in the order they are sent.
pub open spec fn replace_fa_fields(req_id: i32, fa_data: FaDataType, cxml: &str) -> Seq<Seq<char>> {
    Seq::<Seq<char>>::empty()
        .push(int_text((REPLACE_FA) as int))
        .push(int_text((1) as int))
        .push(int_text((fa_data.code_of()) as int))
        .push(cxml@)
        .push(int_text((req_id) as int))
}

/// For a server that takes every field of the request,
/// `replace_fa` sends `replace_fa_fields`, each followed by NUL, in that order.
#[verifier::rlimit(80)]
pub proof fn law_replace_fa_fields(sv: i32, req_id: i32, fa_data: FaDataType, cxml: &str)
    requires
        sv >= MIN_SERVER_VER_WSHE_CALENDAR,
    ensures
        replace_fa_text(sv, req_id, fa_data, cxml) == join_fields(replace_fa_fields(req_id, fa_data, cxml)),
{
    let g0_0 = Seq::<Seq<char>>::empty();
    lemma_join_push(g0_0, int_text((REPLACE_FA) as int));
    let g0_1 = g0_0.push(int_text((REPLACE_FA) as int));
    lemma_join_push(g0_1, int_text((1) as int));
    let g0_2 = g0_1.push(int_text((1) as int));
    lemma_join_push(g0_2, int_text((fa_data.code_of()) as int));
    let g0_3 = g0_2.push(int_text((fa_data.code_of()) as int));
    lemma_join_push(g0_3, cxml@);
    let g0_4 = g0_3.push(cxml@);
    lemma_join_push(g0_4, int_text((req_id) as int));
    let g0_5 = g0_4.push(int_text((req_id) as int));
    assert(join_fields(Seq::<Seq<char>>::empty()) == Seq::<char>::empty());
    assert(replace_fa_text(sv, req_id, fa_data, cxml) =~= join_fields(g0_5));
}

} // verus!
