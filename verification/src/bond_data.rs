//! Decoding bond contract details (`bond_contract_details`). The layout depends on the message's
//! version field and on the server version; the list of security ids is counted. The
//! convertible, callable and putable flags must be integers: any other text is a parse error.
//! Floating-point values come as the texts of their fields.
use vstd::prelude::*;

use crate::common::TagValue;
use crate::contract_data::{flag_int, i32_if, text_if};
use crate::decimal::parse_i32_text;
use crate::decoder::{field_bool, field_i32};
use crate::errors::IBKRApiLibError;
use crate::incoming::{entry_count, opt_text, read_last_trade_date, word_at, LastTradeDate};
use crate::interpret::{field_i32_at, parse_i32_field};
use crate::server_versions::{
    MIN_SERVER_VER_AGG_GROUP, MIN_SERVER_VER_MARKET_RULES, MIN_SERVER_VER_MD_SIZE_MULTIPLIER,
};

verus! {

/// The values of a bond contract details message.
#[derive(Clone, Debug)]
pub struct BondContractDetailsFields {
    pub req_id: i32,
    pub symbol: String,
    pub sec_type: String,
    pub cusip: String,
    pub coupon: String,
    pub last_trade_date: LastTradeDate,
    pub issue_date: String,
    pub ratings: String,
    pub bond_type: String,
    pub coupon_type: String,
    pub convertible: bool,
    pub callable: bool,
    pub putable: bool,
    pub desc_append: String,
    pub exchange: String,
    pub currency: String,
    pub market_name: String,
    pub trading_class: String,
    pub con_id: i32,
    pub min_tick: String,
    pub md_size_multiplier: i32,
    pub order_types: String,
    pub valid_exchanges: String,
    pub next_option_date: String,
    pub next_option_type: String,
    pub next_option_partial: bool,
    pub notes: String,
    pub long_name: String,
    pub ev_rule: String,
    pub ev_multiplier: String,
    pub sec_id_list: Vec<TagValue>,
    pub agg_group: i32,
    pub market_rule_ids: String,
}

/// The message's version field.
pub open spec fn bd_version(t: Seq<String>) -> int {
    field_i32(t[1]@) as int
}

/// Where the symbol is.
pub open spec fn bd_symbol_pos(t: Seq<String>) -> int {
    2 + flag_int(bd_version(t) >= 3)
}

/// Where the order types are.
pub open spec fn bd_order_types_pos(sv: i32, t: Seq<String>) -> int {
    bd_symbol_pos(t) + 19 + flag_int(sv >= MIN_SERVER_VER_MD_SIZE_MULTIPLIER)
}

/// Where the long name of versions 4 and up is.
pub open spec fn bd_long_name_pos(sv: i32, t: Seq<String>) -> int {
    bd_order_types_pos(sv, t) + 2 + 4 * flag_int(bd_version(t) >= 2)
}

/// Where the security id count of versions 5 and up is.
pub open spec fn bd_sec_ids_pos(sv: i32, t: Seq<String>) -> int {
    bd_long_name_pos(sv, t) + flag_int(bd_version(t) >= 4) + 2 * flag_int(bd_version(t) >= 6)
}

/// How many security ids the message lists.
pub open spec fn bd_sec_id_count(sv: i32, t: Seq<String>) -> int {
    if bd_version(t) >= 5 { entry_count(field_i32(t[bd_sec_ids_pos(sv, t)]@)) } else { 0 }
}

/// Where the fields that the server version decides begin.
pub open spec fn bd_server_pos(sv: i32, t: Seq<String>) -> int {
    bd_sec_ids_pos(sv, t) + if bd_version(t) >= 5 { 1 + 2 * bd_sec_id_count(sv, t) } else { 0 }
}

/// How many fields the decoding reads.
pub open spec fn bd_end(sv: i32, t: Seq<String>) -> int {
    bd_server_pos(sv, t) + flag_int(sv >= MIN_SERVER_VER_AGG_GROUP) + flag_int(
        sv >= MIN_SERVER_VER_MARKET_RULES,
    )
}

/// Whether the convertible, callable and putable flags are integers.
pub open spec fn bd_flags_parse(t: Seq<String>) -> bool {
    let a = bd_symbol_pos(t);
    &&& parse_i32_text(t[a + 9]@) is Some
    &&& parse_i32_text(t[a + 10]@) is Some
    &&& parse_i32_text(t[a + 11]@) is Some
}

/// Whether the integer text `s` is not zero.
pub open spec fn nonzero_text(s: Seq<char>) -> bool {
    parse_i32_text(s) != Some(0int)
}

/// The values that decoding a bond contract details message gives, where its flags parse.
pub open spec fn bond_contract_data_decoded(sv: i32, t: Seq<String>, v: BondContractDetailsFields) -> bool {
    let version = bd_version(t);
    let a = bd_symbol_pos(t);
    let b = bd_order_types_pos(sv, t);
    let c = bd_long_name_pos(sv, t);
    let d = c + flag_int(version >= 4);
    let g = bd_sec_ids_pos(sv, t);
    let h = bd_server_pos(sv, t);
    &&& v.req_id == if version >= 3 { field_i32(t[2]@) } else { -1i32 }
    &&& v.symbol@ == t[a]@
    &&& v.sec_type@ == t[a + 1]@
    &&& v.cusip@ == t[a + 2]@
    &&& v.coupon@ == t[a + 3]@
    &&& opt_text(v.last_trade_date.maturity) == word_at(t[a + 4]@, 0)
    &&& opt_text(v.last_trade_date.last_trade_date_or_contract_month) == None::<Seq<char>>
    &&& opt_text(v.last_trade_date.last_trade_time) == word_at(t[a + 4]@, 1)
    &&& opt_text(v.last_trade_date.time_zone_id) == word_at(t[a + 4]@, 2)
    &&& v.issue_date@ == t[a + 5]@
    &&& v.ratings@ == t[a + 6]@
    &&& v.bond_type@ == t[a + 7]@
    &&& v.coupon_type@ == t[a + 8]@
    &&& v.convertible == nonzero_text(t[a + 9]@)
    &&& v.callable == nonzero_text(t[a + 10]@)
    &&& v.putable == nonzero_text(t[a + 11]@)
    &&& v.desc_append@ == t[a + 12]@
    &&& v.exchange@ == t[a + 13]@
    &&& v.currency@ == t[a + 14]@
    &&& v.market_name@ == t[a + 15]@
    &&& v.trading_class@ == t[a + 16]@
    &&& v.con_id == field_i32(t[a + 17]@)
    &&& v.min_tick@ == t[a + 18]@
    &&& v.md_size_multiplier == i32_if(sv >= MIN_SERVER_VER_MD_SIZE_MULTIPLIER, t, a + 19)
    &&& v.order_types@ == t[b]@
    &&& v.valid_exchanges@ == t[b + 1]@
    &&& v.next_option_date@ == text_if(version >= 2, t, b + 2)
    &&& v.next_option_type@ == text_if(version >= 2, t, b + 3)
    &&& v.next_option_partial == (version >= 2 && field_bool(t[b + 4]@))
    &&& v.notes@ == text_if(version >= 2, t, b + 5)
    &&& v.long_name@ == text_if(version >= 4, t, c)
    &&& v.ev_rule@ == text_if(version >= 6, t, d)
    &&& v.ev_multiplier@ == text_if(version >= 6, t, d + 1)
    &&& v.sec_id_list.len() == bd_sec_id_count(sv, t)
    &&& forall|n: int|
        #![trigger v.sec_id_list[n]]
        0 <= n < v.sec_id_list.len() ==> v.sec_id_list[n].tag@ == t[g + 1 + 2 * n]@
            && v.sec_id_list[n].value@ == t[g + 2 + 2 * n]@
    &&& v.agg_group == i32_if(sv >= MIN_SERVER_VER_AGG_GROUP, t, h)
    &&& v.market_rule_ids@ == text_if(
        sv >= MIN_SERVER_VER_MARKET_RULES,
        t,
        h + flag_int(sv >= MIN_SERVER_VER_AGG_GROUP),
    )
}

/// Reads the text at `*p` and moves past it.
fn take_text(fields: &[String], p: &mut usize) -> (r: String)
    requires
        *old(p) < fields.len(),
    ensures
        r@ == fields@[*old(p) as int]@,
        *final(p) == *old(p) + 1,
{
    let r = fields[*p].clone();
    *p = *p + 1;
    r
}

/// Reads the `i32` at `*p` and moves past it.
fn take_i32(fields: &[String], p: &mut usize) -> (r: i32)
    requires
        *old(p) < fields.len(),
    ensures
        r == field_i32(fields@[*old(p) as int]@),
        *final(p) == *old(p) + 1,
{
    let r = field_i32_at(fields, *p);
    *p = *p + 1;
    r
}

/// Reads the flag at `*p`, which must be an integer, and moves past it.
fn take_flag(fields: &[String], p: &mut usize) -> (r: Result<bool, IBKRApiLibError>)
    requires
        *old(p) < fields.len(),
    ensures
        match parse_i32_text(fields@[*old(p) as int]@) {
            Some(n) => r == Ok::<bool, IBKRApiLibError>(n != 0),
            None => r matches Err(IBKRApiLibError::ParseInt(_)),
        },
        *final(p) == *old(p) + 1,
{
    let r = match parse_i32_field(fields[*p].as_str()) {
        Ok(n) => Ok(n != 0),
        Err(e) => Err(IBKRApiLibError::ParseInt(e)),
    };
    *p = *p + 1;
    r
}

/// Whether a bond contract details message holds the fields that its decoding reads.
pub fn bond_contract_data_complete(server_version: i32, fields: &[String]) -> (r: bool)
    ensures
        r == (fields.len() >= 2 && fields.len() >= bd_end(server_version, fields@)),
{
    let sv = server_version;
    let n = fields.len();
    if n < 2 {
        return false;
    }
    let version = field_i32_at(fields, 1);
    let symbol_pos: usize = 2 + if version >= 3 { 1 } else { 0 };
    let order_types_pos: usize = symbol_pos + 19 + if sv >= MIN_SERVER_VER_MD_SIZE_MULTIPLIER { 1 } else { 0 };
    let long_name_pos: usize = order_types_pos + 2 + if version >= 2 { 4 } else { 0 };
    let sec_ids_pos: usize = long_name_pos + (if version >= 4 { 1 } else { 0 }) + (if version >= 6 { 2 } else { 0 });
    assert(sec_ids_pos == bd_sec_ids_pos(sv, fields@));
    let server_pos: u64 = if version >= 5 {
        if n <= sec_ids_pos {
            return false;
        }
        let count = field_i32_at(fields, sec_ids_pos);
        let c: u64 = if count < 0 { 0 } else { count as u64 };
        sec_ids_pos as u64 + 1 + 2 * c
    } else {
        sec_ids_pos as u64
    };
    assert(server_pos == bd_server_pos(sv, fields@));
    let end: u64 = server_pos + (if sv >= MIN_SERVER_VER_AGG_GROUP { 1 } else { 0 }) + (if sv
        >= MIN_SERVER_VER_MARKET_RULES { 1 } else { 0 });
    n as u64 >= end
}

/// The values of a bond contract details message, for `bond_contract_details`; a flag that is
/// not an integer is a parse error.
#[verifier::rlimit(60)]
pub fn process_bond_contract_data(
    server_version: i32,
    fields: &[String],
) -> (r: Result<BondContractDetailsFields, IBKRApiLibError>)
    requires
        fields.len() >= 2,
        fields.len() >= bd_end(server_version, fields@),
    ensures
        bd_flags_parse(fields@) ==> (r matches Ok(v) && bond_contract_data_decoded(
            server_version,
            fields@,
            v,
        )),
        !bd_flags_parse(fields@) ==> r matches Err(IBKRApiLibError::ParseInt(_)),
{
    let ghost t = fields@;
    let sv = server_version;
    let mut p: usize = 1;
    let version = take_i32(fields, &mut p);
    let req_id = if version >= 3 { take_i32(fields, &mut p) } else { -1 };
    assert(p == bd_symbol_pos(t));
    let symbol = take_text(fields, &mut p);
    let sec_type = take_text(fields, &mut p);
    let cusip = take_text(fields, &mut p);
    let coupon = take_text(fields, &mut p);
    let date_text = take_text(fields, &mut p);
    let last_trade_date = read_last_trade_date(true, date_text.as_str());
    let issue_date = take_text(fields, &mut p);
    let ratings = take_text(fields, &mut p);
    let bond_type = take_text(fields, &mut p);
    let coupon_type = take_text(fields, &mut p);
    let convertible = take_flag(fields, &mut p)?;
    let callable = take_flag(fields, &mut p)?;
    let putable = take_flag(fields, &mut p)?;
    let desc_append = take_text(fields, &mut p);
    let exchange = take_text(fields, &mut p);
    let currency = take_text(fields, &mut p);
    let market_name = take_text(fields, &mut p);
    let trading_class = take_text(fields, &mut p);
    let con_id = take_i32(fields, &mut p);
    let min_tick = take_text(fields, &mut p);
    let md_size_multiplier = if sv >= MIN_SERVER_VER_MD_SIZE_MULTIPLIER { take_i32(fields, &mut p) } else { 0 };
    assert(p == bd_order_types_pos(sv, t));
    let order_types = take_text(fields, &mut p);
    let valid_exchanges = take_text(fields, &mut p);
    let mut next_option_date = String::new();
    let mut next_option_type = String::new();
    let mut next_option_partial = false;
    let mut notes = String::new();
    if version >= 2 {
        next_option_date = take_text(fields, &mut p);
        next_option_type = take_text(fields, &mut p);
        next_option_partial = take_i32(fields, &mut p) != 0;
        notes = take_text(fields, &mut p);
    }
    assert(p == bd_long_name_pos(sv, t));
    let long_name = if version >= 4 { take_text(fields, &mut p) } else { String::new() };
    let mut ev_rule = String::new();
    let mut ev_multiplier = String::new();
    if version >= 6 {
        ev_rule = take_text(fields, &mut p);
        ev_multiplier = take_text(fields, &mut p);
    }
    let g = p;
    assert(g == bd_sec_ids_pos(sv, t));
    let mut sec_id_list: Vec<TagValue> = Vec::new();
    if version >= 5 {
        let count = take_i32(fields, &mut p);
        let mut n: i32 = 0;
        while n < count
            invariant
                g < fields.len(),
                count == field_i32(t[g as int]@),
                t == fields@,
                0 <= n,
                n <= entry_count(count),
                fields.len() >= g + 1 + 2 * entry_count(count),
                p == g + 1 + 2 * n,
                sec_id_list.len() == n,
                forall|m: int|
                    #![trigger sec_id_list[m]]
                    0 <= m < n ==> sec_id_list[m].tag@ == t[g + 1 + 2 * m]@
                        && sec_id_list[m].value@ == t[g + 2 + 2 * m]@,
            decreases count - n,
        {
            let tag = take_text(fields, &mut p);
            let value = take_text(fields, &mut p);
            sec_id_list.push(TagValue::new(tag, value));
            n = n + 1;
        }
    }
    assert(p == bd_server_pos(sv, t));
    let agg_group = if sv >= MIN_SERVER_VER_AGG_GROUP { take_i32(fields, &mut p) } else { 0 };
    let market_rule_ids = if sv >= MIN_SERVER_VER_MARKET_RULES { take_text(fields, &mut p) } else { String::new() };
    Ok(BondContractDetailsFields {
        req_id,
        symbol,
        sec_type,
        cusip,
        coupon,
        last_trade_date,
        issue_date,
        ratings,
        bond_type,
        coupon_type,
        convertible,
        callable,
        putable,
        desc_append,
        exchange,
        currency,
        market_name,
        trading_class,
        con_id,
        min_tick,
        md_size_multiplier,
        order_types,
        valid_exchanges,
        next_option_date,
        next_option_type,
        next_option_partial,
        notes,
        long_name,
        ev_rule,
        ev_multiplier,
        sec_id_list,
        agg_group,
        market_rule_ids,
    })
}


/// The layout of a bond contract details message of version 6 or later from a server that
/// sends market rules: request id, symbol, security type, CUSIP, coupon, maturity, issue date,
/// ratings, bond type, coupon type, convertible, callable and putable flags, description,
/// exchange, currency, market name, trading class, contract id, minimum tick, market data size
/// multiplier, order types, valid exchanges, next option date, type and partial flag, notes,
/// long name, evaluation rule and multiplier, the counted security ids, aggregated group and
/// market rule ids, each value from its own field in that order.
pub proof fn law_bond_contract_details_layout(sv: i32, t: Seq<String>, v: BondContractDetailsFields)
    requires
        sv >= MIN_SERVER_VER_MARKET_RULES,
        field_i32(t[1]@) >= 6,
        bond_contract_data_decoded(sv, t, v),
    ensures
        v.req_id == field_i32(t[2]@),
        v.symbol@ == t[3]@,
        v.sec_type@ == t[4]@,
        v.cusip@ == t[5]@,
        v.coupon@ == t[6]@,
        opt_text(v.last_trade_date.maturity) == word_at(t[7]@, 0),
        v.issue_date@ == t[8]@,
        v.ratings@ == t[9]@,
        v.bond_type@ == t[10]@,
        v.coupon_type@ == t[11]@,
        v.convertible == nonzero_text(t[12]@),
        v.callable == nonzero_text(t[13]@),
        v.putable == nonzero_text(t[14]@),
        v.desc_append@ == t[15]@,
        v.exchange@ == t[16]@,
        v.currency@ == t[17]@,
        v.market_name@ == t[18]@,
        v.trading_class@ == t[19]@,
        v.con_id == field_i32(t[20]@),
        v.min_tick@ == t[21]@,
        v.md_size_multiplier == field_i32(t[22]@),
        v.order_types@ == t[23]@,
        v.valid_exchanges@ == t[24]@,
        v.next_option_date@ == t[25]@,
        v.next_option_type@ == t[26]@,
        v.next_option_partial == field_bool(t[27]@),
        v.notes@ == t[28]@,
        v.long_name@ == t[29]@,
        v.ev_rule@ == t[30]@,
        v.ev_multiplier@ == t[31]@,
        v.sec_id_list.len() == entry_count(field_i32(t[32]@)),
        forall|n: int|
            #![trigger v.sec_id_list[n]]
            0 <= n < v.sec_id_list.len() ==> v.sec_id_list[n].tag@ == t[33 + 2 * n]@
                && v.sec_id_list[n].value@ == t[34 + 2 * n]@,
        v.agg_group == field_i32(t[33 + 2 * v.sec_id_list.len()]@),
        v.market_rule_ids@ == t[34 + 2 * v.sec_id_list.len()]@,
{
}

} // verus!
