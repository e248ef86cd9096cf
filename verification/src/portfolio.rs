//! Decoding the messages about orders' states and the account's holdings: order status,
//! portfolio values, positions, position updates of a model and commission reports.
//! Floating-point values come as the texts of their fields.
use vstd::prelude::*;

use crate::decoder::field_i32;
use crate::execution_data::{take_i32, take_text};
use crate::interpret::field_i32_at;
use crate::server_versions::MIN_SERVER_VER_MARKET_CAP_PRICE;

verus! {

/// The values of an order status message, for `order_status`. `mkt_cap_price` is `None` where
/// the server does not send it (it then reads as zero).
#[derive(Clone, Debug)]
pub struct OrderStatusFields {
    pub order_id: i32,
    pub status: String,
    pub filled: String,
    pub remaining: String,
    pub avg_fill_price: String,
    pub perm_id: i32,
    pub parent_id: i32,
    pub last_fill_price: String,
    pub client_id: i32,
    pub why_held: String,
    pub mkt_cap_price: Option<String>,
}

/// Where the order id of an order status message stands: servers before the market cap price
/// send a version field first.
pub open spec fn order_status_start(sv: i32) -> int {
    if sv >= MIN_SERVER_VER_MARKET_CAP_PRICE { 1 } else { 2 }
}

/// The number of fields that an order status message holds.
pub open spec fn order_status_len(sv: i32) -> int {
    order_status_start(sv) + 10 + if sv >= MIN_SERVER_VER_MARKET_CAP_PRICE { 1int } else { 0int }
}

/// What an order status message decodes to.
pub open spec fn order_status_decoded(sv: i32, fields: Seq<String>, r: OrderStatusFields) -> bool {
    let s = order_status_start(sv);
    &&& r.order_id == field_i32(fields[s]@)
    &&& r.status@ == fields[s + 1]@
    &&& r.filled@ == fields[s + 2]@
    &&& r.remaining@ == fields[s + 3]@
    &&& r.avg_fill_price@ == fields[s + 4]@
    &&& r.perm_id == field_i32(fields[s + 5]@)
    &&& r.parent_id == field_i32(fields[s + 6]@)
    &&& r.last_fill_price@ == fields[s + 7]@
    &&& r.client_id == field_i32(fields[s + 8]@)
    &&& r.why_held@ == fields[s + 9]@
    &&& if sv >= MIN_SERVER_VER_MARKET_CAP_PRICE {
        r.mkt_cap_price matches Some(p) && p@ == fields[s + 10]@
    } else {
        r.mkt_cap_price is None
    }
}

/// Decodes an order status message.
pub fn process_order_status(server_version: i32, fields: &[String]) -> (r: OrderStatusFields)
    requires
        fields.len() >= order_status_len(server_version),
    ensures
        order_status_decoded(server_version, fields@, r),
{
    let mut p: usize = if server_version >= MIN_SERVER_VER_MARKET_CAP_PRICE { 1 } else { 2 };
    let order_id = take_i32(fields, &mut p);
    let status = take_text(fields, &mut p);
    let filled = take_text(fields, &mut p);
    let remaining = take_text(fields, &mut p);
    let avg_fill_price = take_text(fields, &mut p);
    let perm_id = take_i32(fields, &mut p);
    let parent_id = take_i32(fields, &mut p);
    let last_fill_price = take_text(fields, &mut p);
    let client_id = take_i32(fields, &mut p);
    let why_held = take_text(fields, &mut p);
    let mkt_cap_price = if server_version >= MIN_SERVER_VER_MARKET_CAP_PRICE {
        Some(take_text(fields, &mut p))
    } else {
        None
    };
    OrderStatusFields {
        order_id,
        status,
        filled,
        remaining,
        avg_fill_price,
        perm_id,
        parent_id,
        last_fill_price,
        client_id,
        why_held,
        mkt_cap_price,
    }
}

/// The values of a portfolio value message, for `update_portfolio`: the contract, then the
/// position and its valuation, then the account.
#[derive(Clone, Debug)]
pub struct PortfolioValueFields {
    pub con_id: i32,
    pub symbol: String,
    pub sec_type: String,
    pub last_trade_date_or_contract_month: String,
    pub strike: String,
    pub right: String,
    pub multiplier: String,
    pub primary_exchange: String,
    pub currency: String,
    pub local_symbol: String,
    pub trading_class: String,
    pub position: String,
    pub market_price: String,
    pub market_value: String,
    pub average_cost: String,
    pub unrealized_pnl: String,
    pub realized_pnl: String,
    pub account_name: String,
}

/// The message's own version, its second field.
pub open spec fn message_version(fields: Seq<String>) -> i32 {
    field_i32(fields[1]@)
}

/// Where the currency of a portfolio value message stands: version 7 adds the multiplier and
/// primary exchange before it.
pub open spec fn pv_currency_pos(v: i32) -> int {
    if v >= 7 { 10 } else { 8 }
}

/// Where the position of a portfolio value message stands: version 8 adds the trading class
/// before it.
pub open spec fn pv_position_pos(v: i32) -> int {
    pv_currency_pos(v) + 2 + if v >= 8 { 1int } else { 0int }
}

/// Whether the message carries the primary exchange at its end, as version 6 does from a
/// server of version 39.
pub open spec fn pv_trailing_exchange(sv: i32, v: i32) -> bool {
    v == 6 && sv == 39
}

/// The number of fields that a portfolio value message holds.
pub open spec fn pv_end(sv: i32, fields: Seq<String>) -> int {
    let v = message_version(fields);
    pv_position_pos(v) + 7 + if pv_trailing_exchange(sv, v) { 1int } else { 0int }
}

/// What a portfolio value message decodes to.
pub open spec fn portfolio_value_decoded(sv: i32, fields: Seq<String>, r: PortfolioValueFields) -> bool {
    let v = message_version(fields);
    let c = pv_currency_pos(v);
    let q = pv_position_pos(v);
    &&& r.con_id == field_i32(fields[2]@)
    &&& r.symbol@ == fields[3]@
    &&& r.sec_type@ == fields[4]@
    &&& r.last_trade_date_or_contract_month@ == fields[5]@
    &&& r.strike@ == fields[6]@
    &&& r.right@ == fields[7]@
    &&& r.multiplier@ == (if v >= 7 { fields[8]@ } else { Seq::empty() })
    &&& r.primary_exchange@ == (if pv_trailing_exchange(sv, v) {
        fields[q + 7]@
    } else if v >= 7 {
        fields[9]@
    } else {
        Seq::empty()
    })
    &&& r.currency@ == fields[c]@
    &&& r.local_symbol@ == fields[c + 1]@
    &&& r.trading_class@ == (if v >= 8 { fields[c + 2]@ } else { Seq::empty() })
    &&& r.position@ == fields[q]@
    &&& r.market_price@ == fields[q + 1]@
    &&& r.market_value@ == fields[q + 2]@
    &&& r.average_cost@ == fields[q + 3]@
    &&& r.unrealized_pnl@ == fields[q + 4]@
    &&& r.realized_pnl@ == fields[q + 5]@
    &&& r.account_name@ == fields[q + 6]@
}

/// Decodes a portfolio value message.
pub fn process_portfolio_value(server_version: i32, fields: &[String]) -> (r: PortfolioValueFields)
    requires
        fields.len() >= 2,
        fields.len() >= pv_end(server_version, fields@),
    ensures
        portfolio_value_decoded(server_version, fields@, r),
{
    let version = field_i32_at(fields, 1);
    let mut p: usize = 2;
    let con_id = take_i32(fields, &mut p);
    let symbol = take_text(fields, &mut p);
    let sec_type = take_text(fields, &mut p);
    let last_trade_date_or_contract_month = take_text(fields, &mut p);
    let strike = take_text(fields, &mut p);
    let right = take_text(fields, &mut p);
    let mut multiplier = String::new();
    let mut primary_exchange = String::new();
    if version >= 7 {
        multiplier = take_text(fields, &mut p);
        primary_exchange = take_text(fields, &mut p);
    }
    let currency = take_text(fields, &mut p);
    let local_symbol = take_text(fields, &mut p);
    let mut trading_class = String::new();
    if version >= 8 {
        trading_class = take_text(fields, &mut p);
    }
    let position = take_text(fields, &mut p);
    let market_price = take_text(fields, &mut p);
    let market_value = take_text(fields, &mut p);
    let average_cost = take_text(fields, &mut p);
    let unrealized_pnl = take_text(fields, &mut p);
    let realized_pnl = take_text(fields, &mut p);
    let account_name = take_text(fields, &mut p);
    if version == 6 && server_version == 39 {
        primary_exchange = take_text(fields, &mut p);
    }
    PortfolioValueFields {
        con_id,
        symbol,
        sec_type,
        last_trade_date_or_contract_month,
        strike,
        right,
        multiplier,
        primary_exchange,
        currency,
        local_symbol,
        trading_class,
        position,
        market_price,
        market_value,
        average_cost,
        unrealized_pnl,
        realized_pnl,
        account_name,
    }
}

/// Whether a portfolio value message holds the fields that its decoding reads.
pub fn portfolio_value_complete(server_version: i32, fields: &[String]) -> (r: bool)
    ensures
        r == (fields.len() >= 2 && fields.len() >= pv_end(server_version, fields@)),
{
    if fields.len() < 2 {
        return false;
    }
    let v = field_i32_at(fields, 1);
    let c: usize = if v >= 7 { 10 } else { 8 };
    let q: usize = c + 2 + if v >= 8 { 1 } else { 0 };
    let end: usize = q + 7 + if v == 6 && server_version == 39 { 1 } else { 0 };
    fields.len() >= end
}

/// The values of a position message, for `position`: the account, the contract, the position
/// and, from version 3 of the message, its average cost.
#[derive(Clone, Debug)]
pub struct PositionFields {
    pub account: String,
    pub con_id: i32,
    pub symbol: String,
    pub sec_type: String,
    pub last_trade_date_or_contract_month: String,
    pub strike: String,
    pub right: String,
    pub multiplier: String,
    pub exchange: String,
    pub currency: String,
    pub local_symbol: String,
    pub trading_class: String,
    pub position: String,
    pub avg_cost: Option<String>,
}

/// The number of fields that a position message holds.
pub open spec fn position_end(fields: Seq<String>) -> int {
    let v = message_version(fields);
    14 + (if v >= 2 { 1int } else { 0int }) + (if v >= 3 { 1int } else { 0int })
}

/// What a position message decodes to.
pub open spec fn position_decoded(fields: Seq<String>, r: PositionFields) -> bool {
    let v = message_version(fields);
    let q = if v >= 2 { 14int } else { 13int };
    &&& r.account@ == fields[2]@
    &&& r.con_id == field_i32(fields[3]@)
    &&& r.symbol@ == fields[4]@
    &&& r.sec_type@ == fields[5]@
    &&& r.last_trade_date_or_contract_month@ == fields[6]@
    &&& r.strike@ == fields[7]@
    &&& r.right@ == fields[8]@
    &&& r.multiplier@ == fields[9]@
    &&& r.exchange@ == fields[10]@
    &&& r.currency@ == fields[11]@
    &&& r.local_symbol@ == fields[12]@
    &&& r.trading_class@ == (if v >= 2 { fields[13]@ } else { Seq::empty() })
    &&& r.position@ == fields[q]@
    &&& if v >= 3 { r.avg_cost matches Some(a) && a@ == fields[q + 1]@ } else { r.avg_cost is None }
}

/// Decodes a position message.
pub fn process_position_data(fields: &[String]) -> (r: PositionFields)
    requires
        fields.len() >= 2,
        fields.len() >= position_end(fields@),
    ensures
        position_decoded(fields@, r),
{
    let version = field_i32_at(fields, 1);
    let mut p: usize = 2;
    let account = take_text(fields, &mut p);
    let con_id = take_i32(fields, &mut p);
    let symbol = take_text(fields, &mut p);
    let sec_type = take_text(fields, &mut p);
    let last_trade_date_or_contract_month = take_text(fields, &mut p);
    let strike = take_text(fields, &mut p);
    let right = take_text(fields, &mut p);
    let multiplier = take_text(fields, &mut p);
    let exchange = take_text(fields, &mut p);
    let currency = take_text(fields, &mut p);
    let local_symbol = take_text(fields, &mut p);
    let trading_class = if version >= 2 { take_text(fields, &mut p) } else { String::new() };
    let position = take_text(fields, &mut p);
    let avg_cost = if version >= 3 { Some(take_text(fields, &mut p)) } else { None };
    PositionFields {
        account,
        con_id,
        symbol,
        sec_type,
        last_trade_date_or_contract_month,
        strike,
        right,
        multiplier,
        exchange,
        currency,
        local_symbol,
        trading_class,
        position,
        avg_cost,
    }
}

/// Whether a position message holds the fields that its decoding reads.
pub fn position_data_complete(fields: &[String]) -> (r: bool)
    ensures
        r == (fields.len() >= 2 && fields.len() >= position_end(fields@)),
{
    if fields.len() < 2 {
        return false;
    }
    let v = field_i32_at(fields, 1);
    let end: usize = 14 + (if v >= 2 { 1 } else { 0 }) + (if v >= 3 { 1 } else { 0 });
    fields.len() >= end
}

/// The values of a commission report, for `commission_report`.
#[derive(Clone, Debug)]
pub struct CommissionReportFields {
    pub exec_id: String,
    pub commission: String,
    pub currency: String,
    pub realized_pnl: String,
    pub yield_: String,
    pub yield_redemption_date: String,
}

/// What a commission report decodes to: the six fields after the id and version.
pub open spec fn commission_report_decoded(fields: Seq<String>, r: CommissionReportFields) -> bool {
    &&& r.exec_id@ == fields[2]@
    &&& r.commission@ == fields[3]@
    &&& r.currency@ == fields[4]@
    &&& r.realized_pnl@ == fields[5]@
    &&& r.yield_@ == fields[6]@
    &&& r.yield_redemption_date@ == fields[7]@
}

/// Decodes a commission report.
pub fn process_commission_report(fields: &[String]) -> (r: CommissionReportFields)
    requires
        fields.len() >= 8,
    ensures
        commission_report_decoded(fields@, r),
{
    let mut p: usize = 2;
    let exec_id = take_text(fields, &mut p);
    let commission = take_text(fields, &mut p);
    let currency = take_text(fields, &mut p);
    let realized_pnl = take_text(fields, &mut p);
    let yield_ = take_text(fields, &mut p);
    let yield_redemption_date = take_text(fields, &mut p);
    CommissionReportFields { exec_id, commission, currency, realized_pnl, yield_, yield_redemption_date }
}

/// The values of a position update of an account and model, for `position_multi`.
#[derive(Clone, Debug)]
pub struct PositionMultiFields {
    pub req_id: i32,
    pub account: String,
    pub position: PositionFields,
    pub model_code: String,
}

/// What a position update of a model decodes to: the request, the account, the contract and
/// trading class, the position, its average cost and the model code.
pub open spec fn position_multi_decoded(fields: Seq<String>, r: PositionMultiFields) -> bool {
    &&& r.req_id == field_i32(fields[2]@)
    &&& r.account@ == fields[3]@
    &&& r.position.account@ == fields[3]@
    &&& r.position.con_id == field_i32(fields[4]@)
    &&& r.position.symbol@ == fields[5]@
    &&& r.position.sec_type@ == fields[6]@
    &&& r.position.last_trade_date_or_contract_month@ == fields[7]@
    &&& r.position.strike@ == fields[8]@
    &&& r.position.right@ == fields[9]@
    &&& r.position.multiplier@ == fields[10]@
    &&& r.position.exchange@ == fields[11]@
    &&& r.position.currency@ == fields[12]@
    &&& r.position.local_symbol@ == fields[13]@
    &&& r.position.trading_class@ == fields[14]@
    &&& r.position.position@ == fields[15]@
    &&& r.position.avg_cost matches Some(a) && a@ == fields[16]@
    &&& r.model_code@ == fields[17]@
}

/// Decodes a position update of an account and model.
pub fn process_position_multi(fields: &[String]) -> (r: PositionMultiFields)
    requires
        fields.len() >= 18,
    ensures
        position_multi_decoded(fields@, r),
{
    let mut p: usize = 2;
    let req_id = take_i32(fields, &mut p);
    let account = take_text(fields, &mut p);
    let con_id = take_i32(fields, &mut p);
    let symbol = take_text(fields, &mut p);
    let sec_type = take_text(fields, &mut p);
    let last_trade_date_or_contract_month = take_text(fields, &mut p);
    let strike = take_text(fields, &mut p);
    let right = take_text(fields, &mut p);
    let multiplier = take_text(fields, &mut p);
    let exchange = take_text(fields, &mut p);
    let currency = take_text(fields, &mut p);
    let local_symbol = take_text(fields, &mut p);
    let trading_class = take_text(fields, &mut p);
    let position = take_text(fields, &mut p);
    let avg_cost = take_text(fields, &mut p);
    let model_code = take_text(fields, &mut p);
    let position = PositionFields {
        account: account.clone(),
        con_id,
        symbol,
        sec_type,
        last_trade_date_or_contract_month,
        strike,
        right,
        multiplier,
        exchange,
        currency,
        local_symbol,
        trading_class,
        position,
        avg_cost: Some(avg_cost),
    };
    PositionMultiFields { req_id, account, position, model_code }
}


/// The layout of an order status from a server that sends the market cap price: order id,
/// status, filled, remaining, average fill price, permanent id, parent id, last fill price,
/// client id, why held and market cap price, each value from its own field in that order
/// after the message id.
pub proof fn law_order_status_layout(sv: i32, t: Seq<String>, r: OrderStatusFields)
    requires
        sv >= MIN_SERVER_VER_MARKET_CAP_PRICE,
        order_status_decoded(sv, t, r),
    ensures
        r.order_id == field_i32(t[1]@),
        r.status@ == t[2]@,
        r.filled@ == t[3]@,
        r.remaining@ == t[4]@,
        r.avg_fill_price@ == t[5]@,
        r.perm_id == field_i32(t[6]@),
        r.parent_id == field_i32(t[7]@),
        r.last_fill_price@ == t[8]@,
        r.client_id == field_i32(t[9]@),
        r.why_held@ == t[10]@,
        r.mkt_cap_price matches Some(p) && p@ == t[11]@,
{
}

/// The layout of a portfolio value message of version 8 or later: contract id, symbol,
/// security type, expiry, strike, right, multiplier, primary exchange, currency, local symbol,
/// trading class, position, market price, market value, average cost, unrealized and realized
/// profit and account name, each value from its own field in that order after the message id
/// and version.
pub proof fn law_portfolio_value_layout(sv: i32, t: Seq<String>, r: PortfolioValueFields)
    requires
        message_version(t) >= 8,
        portfolio_value_decoded(sv, t, r),
    ensures
        r.con_id == field_i32(t[2]@),
        r.symbol@ == t[3]@,
        r.sec_type@ == t[4]@,
        r.last_trade_date_or_contract_month@ == t[5]@,
        r.strike@ == t[6]@,
        r.right@ == t[7]@,
        r.multiplier@ == t[8]@,
        r.primary_exchange@ == t[9]@,
        r.currency@ == t[10]@,
        r.local_symbol@ == t[11]@,
        r.trading_class@ == t[12]@,
        r.position@ == t[13]@,
        r.market_price@ == t[14]@,
        r.market_value@ == t[15]@,
        r.average_cost@ == t[16]@,
        r.unrealized_pnl@ == t[17]@,
        r.realized_pnl@ == t[18]@,
        r.account_name@ == t[19]@,
{
}

/// The layout of a position message of version 3 or later: account, contract id, symbol,
/// security type, expiry, strike, right, multiplier, exchange, currency, local symbol, trading
/// class, position and average cost, each value from its own field in that order after the
/// message id and version.
pub proof fn law_position_layout(t: Seq<String>, r: PositionFields)
    requires
        message_version(t) >= 3,
        position_decoded(t, r),
    ensures
        r.account@ == t[2]@,
        r.con_id == field_i32(t[3]@),
        r.symbol@ == t[4]@,
        r.sec_type@ == t[5]@,
        r.last_trade_date_or_contract_month@ == t[6]@,
        r.strike@ == t[7]@,
        r.right@ == t[8]@,
        r.multiplier@ == t[9]@,
        r.exchange@ == t[10]@,
        r.currency@ == t[11]@,
        r.local_symbol@ == t[12]@,
        r.trading_class@ == t[13]@,
        r.position@ == t[14]@,
        r.avg_cost matches Some(a) && a@ == t[15]@,
{
}

/// The layout of a commission report: execution id, commission, currency, realized profit,
/// yield and yield redemption date, each value from its own field in that order after the
/// message id and version.
pub proof fn law_commission_report_layout(t: Seq<String>, r: CommissionReportFields)
    requires
        commission_report_decoded(t, r),
    ensures
        r.exec_id@ == t[2]@,
        r.commission@ == t[3]@,
        r.currency@ == t[4]@,
        r.realized_pnl@ == t[5]@,
        r.yield_@ == t[6]@,
        r.yield_redemption_date@ == t[7]@,
{
}


/// The layout of a position update of an account and model: request id, account, contract
/// id, symbol, security type, expiry, strike, right, multiplier, exchange, currency, local
/// symbol, trading class, position, average cost and model code, each value from its own field
/// in that order after the message id and version.
pub proof fn law_position_multi_layout(t: Seq<String>, r: PositionMultiFields)
    requires
        position_multi_decoded(t, r),
    ensures
        r.req_id == field_i32(t[2]@),
        r.account@ == t[3]@,
        r.position.con_id == field_i32(t[4]@),
        r.position.symbol@ == t[5]@,
        r.position.sec_type@ == t[6]@,
        r.position.last_trade_date_or_contract_month@ == t[7]@,
        r.position.strike@ == t[8]@,
        r.position.right@ == t[9]@,
        r.position.multiplier@ == t[10]@,
        r.position.exchange@ == t[11]@,
        r.position.currency@ == t[12]@,
        r.position.local_symbol@ == t[13]@,
        r.position.trading_class@ == t[14]@,
        r.position.position@ == t[15]@,
        r.position.avg_cost matches Some(a) && a@ == t[16]@,
        r.model_code@ == t[17]@,
{
}

} // verus!
