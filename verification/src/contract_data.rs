//! Decoding contract details (`contract_details`). The layout depends on the message's version
//! field and on the server version; the list of security ids is counted. Floating-point
//! values come as the texts of their fields; a value that the message does not carry is the
//! empty text, which reads as zero.
use vstd::prelude::*;

use crate::common::TagValue;
use crate::decoder::field_i32;
use crate::incoming::{entry_count, read_last_trade_date, LastTradeDate, opt_text, word_at};
use crate::interpret::field_i32_at;
use crate::server_versions::{
    MIN_SERVER_VER_AGG_GROUP, MIN_SERVER_VER_MARKET_RULES, MIN_SERVER_VER_MD_SIZE_MULTIPLIER,
    MIN_SERVER_VER_REAL_EXPIRATION_DATE, MIN_SERVER_VER_UNDERLYING_INFO,
};

verus! {

/// The values of a contract details message.
#[derive(Clone, Debug)]
pub struct ContractDetailsFields {
    pub req_id: i32,
    pub symbol: String,
    pub sec_type: String,
    pub last_trade_date: LastTradeDate,
    pub strike: String,
    pub right: String,
    pub exchange: String,
    pub currency: String,
    pub local_symbol: String,
    pub market_name: String,
    pub trading_class: String,
    pub con_id: i32,
    pub min_tick: String,
    pub md_size_multiplier: i32,
    pub multiplier: String,
    pub order_types: String,
    pub valid_exchanges: String,
    pub price_magnifier: i32,
    pub under_con_id: i32,
    pub long_name: String,
    pub primary_exchange: String,
    pub contract_month: String,
    pub industry: String,
    pub category: String,
    pub subcategory: String,
    pub time_zone_id: String,
    pub trading_hours: String,
    pub liquid_hours: String,
    pub ev_rule: String,
    pub ev_multiplier: String,
    pub sec_id_list: Vec<TagValue>,
    pub agg_group: i32,
    pub under_symbol: String,
    pub under_sec_type: String,
    pub market_rule_ids: String,
    pub real_expiration_date: String,
}

pub open spec fn flag_int(b: bool) -> int {
    if b { 1 } else { 0 }
}

/// The message's version field.
pub open spec fn cd_version(t: Seq<String>) -> int {
    field_i32(t[1]@) as int
}

/// Where the symbol is.
pub open spec fn cd_symbol_pos(t: Seq<String>) -> int {
    2 + flag_int(cd_version(t) >= 3)
}

/// Where the multiplier is.
pub open spec fn cd_multiplier_pos(sv: i32, t: Seq<String>) -> int {
    cd_symbol_pos(t) + 12 + flag_int(sv >= MIN_SERVER_VER_MD_SIZE_MULTIPLIER)
}

/// Where the fields of versions 4 and up begin.
pub open spec fn cd_v4_pos(sv: i32, t: Seq<String>) -> int {
    cd_multiplier_pos(sv, t) + 4
}

/// Where the fields of versions 6 and up begin.
pub open spec fn cd_v6_pos(sv: i32, t: Seq<String>) -> int {
    cd_v4_pos(sv, t) + flag_int(cd_version(t) >= 4) + 2 * flag_int(cd_version(t) >= 5)
}

/// Where the security id count is, for versions 7 and up.
pub open spec fn cd_sec_ids_pos(sv: i32, t: Seq<String>) -> int {
    cd_v6_pos(sv, t) + 7 * flag_int(cd_version(t) >= 6) + 2 * flag_int(cd_version(t) >= 8)
}

/// How many security ids the message lists.
pub open spec fn cd_sec_id_count(sv: i32, t: Seq<String>) -> int {
    if cd_version(t) >= 7 { entry_count(field_i32(t[cd_sec_ids_pos(sv, t)]@)) } else { 0 }
}

/// Where the fields that the server version decides begin.
pub open spec fn cd_server_pos(sv: i32, t: Seq<String>) -> int {
    cd_sec_ids_pos(sv, t) + if cd_version(t) >= 7 { 1 + 2 * cd_sec_id_count(sv, t) } else { 0 }
}

/// How many fields the decoding reads.
pub open spec fn cd_end(sv: i32, t: Seq<String>) -> int {
    cd_server_pos(sv, t) + flag_int(sv >= MIN_SERVER_VER_AGG_GROUP) + 2 * flag_int(
        sv >= MIN_SERVER_VER_UNDERLYING_INFO,
    ) + flag_int(sv >= MIN_SERVER_VER_MARKET_RULES) + flag_int(sv >= MIN_SERVER_VER_REAL_EXPIRATION_DATE)
}

/// The text of the field at `i` when `c` holds, else the empty text.
pub open spec fn text_if(c: bool, t: Seq<String>, i: int) -> Seq<char> {
    if c { t[i]@ } else { Seq::empty() }
}

/// The `i32` of the field at `i` when `c` holds, else 0.
pub open spec fn i32_if(c: bool, t: Seq<String>, i: int) -> i32 {
    if c { field_i32(t[i]@) } else { 0 }
}

/// The values that decoding a contract details message gives.
pub open spec fn contract_details_decoded(sv: i32, t: Seq<String>, v: ContractDetailsFields) -> bool {
    let version = cd_version(t);
    let a = cd_symbol_pos(t);
    let b = cd_multiplier_pos(sv, t);
    let c = cd_v4_pos(sv, t);
    let d = c + flag_int(version >= 4);
    let e = cd_v6_pos(sv, t);
    let f = e + 7 * flag_int(version >= 6);
    let g = cd_sec_ids_pos(sv, t);
    let h = cd_server_pos(sv, t);
    let i = h + flag_int(sv >= MIN_SERVER_VER_AGG_GROUP);
    let j = i + 2 * flag_int(sv >= MIN_SERVER_VER_UNDERLYING_INFO);
    let k = j + flag_int(sv >= MIN_SERVER_VER_MARKET_RULES);
    &&& v.req_id == if version >= 3 { field_i32(t[2]@) } else { -1i32 }
    &&& v.symbol@ == t[a]@
    &&& v.sec_type@ == t[a + 1]@
    &&& opt_text(v.last_trade_date.maturity) == None::<Seq<char>>
    &&& opt_text(v.last_trade_date.last_trade_date_or_contract_month) == word_at(t[a + 2]@, 0)
    &&& opt_text(v.last_trade_date.last_trade_time) == word_at(t[a + 2]@, 1)
    &&& opt_text(v.last_trade_date.time_zone_id) == None::<Seq<char>>
    &&& v.strike@ == t[a + 3]@
    &&& v.right@ == t[a + 4]@
    &&& v.exchange@ == t[a + 5]@
    &&& v.currency@ == t[a + 6]@
    &&& v.local_symbol@ == t[a + 7]@
    &&& v.market_name@ == t[a + 8]@
    &&& v.trading_class@ == t[a + 9]@
    &&& v.con_id == field_i32(t[a + 10]@)
    &&& v.min_tick@ == t[a + 11]@
    &&& v.md_size_multiplier == i32_if(sv >= MIN_SERVER_VER_MD_SIZE_MULTIPLIER, t, a + 12)
    &&& v.multiplier@ == t[b]@
    &&& v.order_types@ == t[b + 1]@
    &&& v.valid_exchanges@ == t[b + 2]@
    &&& v.price_magnifier == field_i32(t[b + 3]@)
    &&& v.under_con_id == i32_if(version >= 4, t, c)
    &&& v.long_name@ == text_if(version >= 5, t, d)
    &&& v.primary_exchange@ == text_if(version >= 5, t, d + 1)
    &&& v.contract_month@ == text_if(version >= 6, t, e)
    &&& v.industry@ == text_if(version >= 6, t, e + 1)
    &&& v.category@ == text_if(version >= 6, t, e + 2)
    &&& v.subcategory@ == text_if(version >= 6, t, e + 3)
    &&& v.time_zone_id@ == text_if(version >= 6, t, e + 4)
    &&& v.trading_hours@ == text_if(version >= 6, t, e + 5)
    &&& v.liquid_hours@ == text_if(version >= 6, t, e + 6)
    &&& v.ev_rule@ == text_if(version >= 8, t, f)
    &&& v.ev_multiplier@ == text_if(version >= 8, t, f + 1)
    &&& v.sec_id_list.len() == cd_sec_id_count(sv, t)
    &&& forall|n: int|
        #![trigger v.sec_id_list[n]]
        0 <= n < v.sec_id_list.len() ==> v.sec_id_list[n].tag@ == t[g + 1 + 2 * n]@
            && v.sec_id_list[n].value@ == t[g + 2 + 2 * n]@
    &&& v.agg_group == i32_if(sv >= MIN_SERVER_VER_AGG_GROUP, t, h)
    &&& v.under_symbol@ == text_if(sv >= MIN_SERVER_VER_UNDERLYING_INFO, t, i)
    &&& v.under_sec_type@ == text_if(sv >= MIN_SERVER_VER_UNDERLYING_INFO, t, i + 1)
    &&& v.market_rule_ids@ == text_if(sv >= MIN_SERVER_VER_MARKET_RULES, t, j)
    &&& v.real_expiration_date@ == text_if(sv >= MIN_SERVER_VER_REAL_EXPIRATION_DATE, t, k)
}

/// Reads the text at `*p` and moves past it.
fn take_text(fields: &[String], p: &mut usize) -> (r: String)
    requires
        *old(p) < fields.len(),
    ensures
        r@ == fields@[*old(p) as int]@,
        *final(p) == *old(p) + 1,
{
    let r = fields[*p].clone();
    *p = *p + 1;
    r
}

/// Reads the `i32` at `*p` and moves past it.
fn take_i32(fields: &[String], p: &mut usize) -> (r: i32)
    requires
        *old(p) < fields.len(),
    ensures
        r == field_i32(fields@[*old(p) as int]@),
        *final(p) == *old(p) + 1,
{
    let r = field_i32_at(fields, *p);
    *p = *p + 1;
    r
}

/// Whether a contract details message holds the fields that its decoding reads.
pub fn contract_details_complete(server_version: i32, fields: &[String]) -> (r: bool)
    ensures
        r == (fields.len() >= cd_end(server_version, fields@)),
{
    let sv = server_version;
    let n = fields.len();
    if n < 2 {
        return false;
    }
    let version = field_i32_at(fields, 1);
    let symbol_pos: usize = 2 + if version >= 3 { 1 } else { 0 };
    let multiplier_pos: usize = symbol_pos + 12 + if sv >= MIN_SERVER_VER_MD_SIZE_MULTIPLIER { 1 } else { 0 };
    let v6_pos: usize = multiplier_pos + 4 + (if version >= 4 { 1 } else { 0 }) + (if version >= 5 { 2 } else { 0 });
    let sec_ids_pos: usize = v6_pos + (if version >= 6 { 7 } else { 0 }) + (if version >= 8 { 2 } else { 0 });
    assert(sec_ids_pos == cd_sec_ids_pos(sv, fields@));
    let server_pos: u64 = if version >= 7 {
        if n <= sec_ids_pos {
            return false;
        }
        let count = field_i32_at(fields, sec_ids_pos);
        let c: u64 = if count < 0 { 0 } else { count as u64 };
        sec_ids_pos as u64 + 1 + 2 * c
    } else {
        sec_ids_pos as u64
    };
    assert(server_pos == cd_server_pos(sv, fields@));
    let end: u64 = server_pos + (if sv >= MIN_SERVER_VER_AGG_GROUP { 1 } else { 0 }) + (if sv
        >= MIN_SERVER_VER_UNDERLYING_INFO { 2 } else { 0 }) + (if sv >= MIN_SERVER_VER_MARKET_RULES { 1 } else { 0 }) + (if sv
        >= MIN_SERVER_VER_REAL_EXPIRATION_DATE { 1 } else { 0 });
    n as u64 >= end
}


/// The values of a contract details message, for `contract_details`.
#[verifier::rlimit(60)]
pub fn process_contract_details(server_version: i32, fields: &[String]) -> (r: ContractDetailsFields)
    requires
        fields.len() >= cd_end(server_version, fields@),
    ensures
        contract_details_decoded(server_version, fields@, r),
{
    let ghost t = fields@;
    let sv = server_version;
    let mut p: usize = 1;
    let version = take_i32(fields, &mut p);
    let req_id = if version >= 3 { take_i32(fields, &mut p) } else { -1 };
    assert(p == cd_symbol_pos(t));
    let symbol = take_text(fields, &mut p);
    let sec_type = take_text(fields, &mut p);
    let date_text = take_text(fields, &mut p);
    let last_trade_date = read_last_trade_date(false, date_text.as_str());
    let strike = take_text(fields, &mut p);
    let right = take_text(fields, &mut p);
    let exchange = take_text(fields, &mut p);
    let currency = take_text(fields, &mut p);
    let local_symbol = take_text(fields, &mut p);
    let market_name = take_text(fields, &mut p);
    let trading_class = take_text(fields, &mut p);
    let con_id = take_i32(fields, &mut p);
    let min_tick = take_text(fields, &mut p);
    let md_size_multiplier = if sv >= MIN_SERVER_VER_MD_SIZE_MULTIPLIER { take_i32(fields, &mut p) } else { 0 };
    assert(p == cd_multiplier_pos(sv, t));
    let multiplier = take_text(fields, &mut p);
    let order_types = take_text(fields, &mut p);
    let valid_exchanges = take_text(fields, &mut p);
    let price_magnifier = take_i32(fields, &mut p);
    let under_con_id = if version >= 4 { take_i32(fields, &mut p) } else { 0 };
    let mut long_name = String::new();
    let mut primary_exchange = String::new();
    if version >= 5 {
        long_name = take_text(fields, &mut p);
        primary_exchange = take_text(fields, &mut p);
    }
    assert(p == cd_v6_pos(sv, t));
    let mut contract_month = String::new();
    let mut industry = String::new();
    let mut category = String::new();
    let mut subcategory = String::new();
    let mut time_zone_id = String::new();
    let mut trading_hours = String::new();
    let mut liquid_hours = String::new();
    if version >= 6 {
        contract_month = take_text(fields, &mut p);
        industry = take_text(fields, &mut p);
        category = take_text(fields, &mut p);
        subcategory = take_text(fields, &mut p);
        time_zone_id = take_text(fields, &mut p);
        trading_hours = take_text(fields, &mut p);
        liquid_hours = take_text(fields, &mut p);
    }
    let mut ev_rule = String::new();
    let mut ev_multiplier = String::new();
    if version >= 8 {
        ev_rule = take_text(fields, &mut p);
        ev_multiplier = take_text(fields, &mut p);
    }
    let g = p;
    assert(g == cd_sec_ids_pos(sv, t));
    let mut sec_id_list: Vec<TagValue> = Vec::new();
    if version >= 7 {
        let count = take_i32(fields, &mut p);
        let mut n: i32 = 0;
        while n < count
            invariant
                g < fields.len(),
                count == field_i32(t[g as int]@),
                t == fields@,
                0 <= n,
                n <= entry_count(count),
                fields.len() >= g + 1 + 2 * entry_count(count),
                p == g + 1 + 2 * n,
                sec_id_list.len() == n,
                forall|m: int|
                    #![trigger sec_id_list[m]]
                    0 <= m < n ==> sec_id_list[m].tag@ == t[g + 1 + 2 * m]@
                        && sec_id_list[m].value@ == t[g + 2 + 2 * m]@,
            decreases count - n,
        {
            let tag = take_text(fields, &mut p);
            let value = take_text(fields, &mut p);
            sec_id_list.push(TagValue::new(tag, value));
            n = n + 1;
        }
    }
    assert(p == cd_server_pos(sv, t));
    let agg_group = if sv >= MIN_SERVER_VER_AGG_GROUP { take_i32(fields, &mut p) } else { 0 };
    let mut under_symbol = String::new();
    let mut under_sec_type = String::new();
    if sv >= MIN_SERVER_VER_UNDERLYING_INFO {
        under_symbol = take_text(fields, &mut p);
        under_sec_type = take_text(fields, &mut p);
    }
    let market_rule_ids = if sv >= MIN_SERVER_VER_MARKET_RULES { take_text(fields, &mut p) } else { String::new() };
    let real_expiration_date = if sv >= MIN_SERVER_VER_REAL_EXPIRATION_DATE {
        take_text(fields, &mut p)
    } else {
        String::new()
    };
    ContractDetailsFields {
        req_id,
        symbol,
        sec_type,
        last_trade_date,
        strike,
        right,
        exchange,
        currency,
        local_symbol,
        market_name,
        trading_class,
        con_id,
        min_tick,
        md_size_multiplier,
        multiplier,
        order_types,
        valid_exchanges,
        price_magnifier,
        under_con_id,
        long_name,
        primary_exchange,
        contract_month,
        industry,
        category,
        subcategory,
        time_zone_id,
        trading_hours,
        liquid_hours,
        ev_rule,
        ev_multiplier,
        sec_id_list,
        agg_group,
        under_symbol,
        under_sec_type,
        market_rule_ids,
        real_expiration_date,
    }
}

/// The layout of a contract details message of version 8 or later from a server that sends
/// the real expiration date: request id, symbol, security type, expiry, strike, right,
/// exchange, currency, local symbol, market name, trading class, contract id, minimum tick,
/// market data size multiplier, multiplier, order types, valid exchanges, price magnifier,
/// underlying contract id, long name, primary exchange, contract month, industry, category,
/// subcategory, time zone, trading hours, liquid hours, evaluation rule and multiplier, the
/// counted security ids, aggregated group, underlying symbol and security type, market rule
/// ids and real expiration date, each value from its own field in that order.
pub proof fn law_contract_details_layout(sv: i32, t: Seq<String>, v: ContractDetailsFields)
    requires
        sv >= MIN_SERVER_VER_REAL_EXPIRATION_DATE,
        field_i32(t[1]@) >= 8,
        contract_details_decoded(sv, t, v),
    ensures
        v.req_id == field_i32(t[2]@),
        v.symbol@ == t[3]@,
        v.sec_type@ == t[4]@,
        opt_text(v.last_trade_date.last_trade_date_or_contract_month) == word_at(t[5]@, 0),
        v.strike@ == t[6]@,
        v.right@ == t[7]@,
        v.exchange@ == t[8]@,
        v.currency@ == t[9]@,
        v.local_symbol@ == t[10]@,
        v.market_name@ == t[11]@,
        v.trading_class@ == t[12]@,
        v.con_id == field_i32(t[13]@),
        v.min_tick@ == t[14]@,
        v.md_size_multiplier == field_i32(t[15]@),
        v.multiplier@ == t[16]@,
        v.order_types@ == t[17]@,
        v.valid_exchanges@ == t[18]@,
        v.price_magnifier == field_i32(t[19]@),
        v.under_con_id == field_i32(t[20]@),
        v.long_name@ == t[21]@,
        v.primary_exchange@ == t[22]@,
        v.contract_month@ == t[23]@,
        v.industry@ == t[24]@,
        v.category@ == t[25]@,
        v.subcategory@ == t[26]@,
        v.time_zone_id@ == t[27]@,
        v.trading_hours@ == t[28]@,
        v.liquid_hours@ == t[29]@,
        v.ev_rule@ == t[30]@,
        v.ev_multiplier@ == t[31]@,
        v.sec_id_list.len() == entry_count(field_i32(t[32]@)),
        forall|n: int|
            #![trigger v.sec_id_list[n]]
            0 <= n < v.sec_id_list.len() ==> v.sec_id_list[n].tag@ == t[33 + 2 * n]@
                && v.sec_id_list[n].value@ == t[34 + 2 * n]@,
        v.agg_group == field_i32(t[33 + 2 * v.sec_id_list.len()]@),
        v.under_symbol@ == t[34 + 2 * v.sec_id_list.len()]@,
        v.under_sec_type@ == t[35 + 2 * v.sec_id_list.len()]@,
        v.market_rule_ids@ == t[36 + 2 * v.sec_id_list.len()]@,
        v.real_expiration_date@ == t[37 + 2 * v.sec_id_list.len()]@,
{
}

} // verus!
