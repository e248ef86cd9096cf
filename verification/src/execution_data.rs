//! Decoding an execution report (`exec_details`). Its layout depends on the server version and,
//! for older servers, on the message's own version field. Floating-point values come as the
//! texts of their fields; a value that the message does not carry is the empty text, which
//! reads as zero.
use vstd::prelude::*;

use crate::decimal::{format_i32, int_text};
use crate::decoder::field_i32;
use crate::interpret::field_i32_at;
use crate::server_versions::{
    MIN_SERVER_VER_FRACTIONAL_POSITIONS, MIN_SERVER_VER_LAST_LIQUIDITY,
    MIN_SERVER_VER_MODELS_SUPPORT,
};

verus! {

/// The values of an execution report: the request and order it answers, the contract, and the
/// execution.
#[derive(Clone, Debug)]
pub struct ExecutionFields {
    pub req_id: i32,
    pub order_id: i32,
    pub con_id: i32,
    pub symbol: String,
    pub sec_type: String,
    pub last_trade_date_or_contract_month: String,
    pub strike: String,
    pub right: String,
    pub multiplier: String,
    pub contract_exchange: String,
    pub currency: String,
    pub local_symbol: String,
    pub trading_class: String,
    pub exec_id: String,
    pub time: String,
    pub acct_number: String,
    pub exchange: String,
    pub side: String,
    pub shares: String,
    pub price: String,
    pub perm_id: i32,
    pub client_id: i32,
    pub liquidation: i32,
    pub cum_qty: String,
    pub avg_price: String,
    pub order_ref: String,
    pub ev_rule: String,
    pub ev_multiplier: String,
    pub model_code: String,
    pub last_liquidity: i32,
}

/// The layout version of an execution report: the message's version field before servers
/// report last liquidity, the server version from then on.
pub open spec fn ed_version(sv: i32, t: Seq<String>) -> int {
    if sv < MIN_SERVER_VER_LAST_LIQUIDITY { field_i32(t[1]@) as int } else { sv as int }
}

pub open spec fn flag_int(b: bool) -> int {
    if b { 1 } else { 0 }
}

/// Where the order id is.
pub open spec fn ed_order_pos(sv: i32, t: Seq<String>) -> int {
    (if sv < MIN_SERVER_VER_LAST_LIQUIDITY { 2int } else { 1 }) + flag_int(ed_version(sv, t) >= 7)
}

/// Where the contract's exchange is.
pub open spec fn ed_exchange_pos(sv: i32, t: Seq<String>) -> int {
    ed_order_pos(sv, t) + 7 + flag_int(ed_version(sv, t) >= 9)
}

/// Where the execution's fields begin.
pub open spec fn ed_exec_pos(sv: i32, t: Seq<String>) -> int {
    ed_exchange_pos(sv, t) + 3 + flag_int(ed_version(sv, t) >= 10)
}

/// Where the evaluation rule is, for layouts that carry one.
pub open spec fn ed_rule_pos(sv: i32, t: Seq<String>) -> int {
    ed_exec_pos(sv, t) + 10 + 2 * flag_int(ed_version(sv, t) >= 6) + flag_int(ed_version(sv, t) >= 8)
}

/// Where the model code is, for servers that send one. After the evaluation rule the decoder
/// passes over one field and, when that field is not empty, reads the multiplier from the next.
pub open spec fn ed_model_pos(sv: i32, t: Seq<String>) -> int {
    let r = ed_rule_pos(sv, t);
    if ed_version(sv, t) >= 9 {
        if t[r + 1]@.len() > 0 { r + 3 } else { r + 2 }
    } else {
        r
    }
}

/// How many fields the decoding reads.
pub open spec fn ed_end(sv: i32, t: Seq<String>) -> int {
    ed_model_pos(sv, t) + flag_int(sv >= MIN_SERVER_VER_MODELS_SUPPORT) + flag_int(
        sv >= MIN_SERVER_VER_LAST_LIQUIDITY,
    )
}

/// The text of the field at `i` when `c` holds, else the empty text.
pub open spec fn text_if(c: bool, t: Seq<String>, i: int) -> Seq<char> {
    if c { t[i]@ } else { Seq::empty() }
}

/// The values that decoding an execution report gives.
pub open spec fn execution_data_decoded(sv: i32, t: Seq<String>, v: ExecutionFields) -> bool {
    let version = ed_version(sv, t);
    let o = ed_order_pos(sv, t);
    let x = ed_exchange_pos(sv, t);
    let e = ed_exec_pos(sv, t);
    let r = ed_rule_pos(sv, t);
    let m = ed_model_pos(sv, t);
    &&& v.req_id == if version >= 7 { field_i32(t[o - 1]@) } else { -1i32 }
    &&& v.order_id == field_i32(t[o]@)
    &&& v.con_id == field_i32(t[o + 1]@)
    &&& v.symbol@ == t[o + 2]@
    &&& v.sec_type@ == t[o + 3]@
    &&& v.last_trade_date_or_contract_month@ == t[o + 4]@
    &&& v.strike@ == t[o + 5]@
    &&& v.right@ == t[o + 6]@
    &&& v.multiplier@ == text_if(version >= 9, t, o + 7)
    &&& v.contract_exchange@ == t[x]@
    &&& v.currency@ == t[x + 1]@
    &&& v.local_symbol@ == t[x + 2]@
    &&& v.trading_class@ == text_if(version >= 10, t, x + 3)
    &&& v.exec_id@ == t[e]@
    &&& v.time@ == t[e + 1]@
    &&& v.acct_number@ == t[e + 2]@
    &&& v.exchange@ == t[e + 3]@
    &&& v.side@ == t[e + 4]@
    &&& v.shares@ == if sv >= MIN_SERVER_VER_FRACTIONAL_POSITIONS {
        t[e + 5]@
    } else {
        int_text(field_i32(t[e + 5]@) as int)
    }
    &&& v.price@ == t[e + 6]@
    &&& v.perm_id == field_i32(t[e + 7]@)
    &&& v.client_id == field_i32(t[e + 8]@)
    &&& v.liquidation == field_i32(t[e + 9]@)
    &&& v.cum_qty@ == text_if(version >= 6, t, e + 10)
    &&& v.avg_price@ == text_if(version >= 6, t, e + 11)
    &&& v.order_ref@ == text_if(version >= 8, t, r - 1)
    &&& v.ev_rule@ == text_if(version >= 9, t, r)
    &&& v.ev_multiplier@ == if version >= 9 {
        if t[r + 1]@.len() > 0 { t[r + 2]@ } else { "1"@ }
    } else {
        Seq::empty()
    }
    &&& v.model_code@ == text_if(sv >= MIN_SERVER_VER_MODELS_SUPPORT, t, m)
    &&& v.last_liquidity == if sv >= MIN_SERVER_VER_LAST_LIQUIDITY {
        field_i32(t[m + flag_int(sv >= MIN_SERVER_VER_MODELS_SUPPORT)]@)
    } else {
        0i32
    }
}

/// Whether an execution report holds the fields that its decoding reads.
pub fn execution_data_complete(server_version: i32, fields: &[String]) -> (r: bool)
    ensures
        r == (fields.len() >= ed_end(server_version, fields@)),
{
    let sv = server_version;
    let n = fields.len();
    let version: i64 = if sv < MIN_SERVER_VER_LAST_LIQUIDITY {
        if n < 2 {
            return false;
        }
        field_i32_at(fields, 1) as i64
    } else {
        sv as i64
    };
    let order_pos: usize = (if sv < MIN_SERVER_VER_LAST_LIQUIDITY { 2 } else { 1 }) + (if version >= 7 { 1 } else { 0 });
    let exchange_pos: usize = order_pos + 7 + (if version >= 9 { 1 } else { 0 });
    let exec_pos: usize = exchange_pos + 3 + (if version >= 10 { 1 } else { 0 });
    let rule_pos: usize = exec_pos + 10 + (if version >= 6 { 2 } else { 0 }) + (if version >= 8 { 1 } else { 0 });
    assert(version == ed_version(sv, fields@));
    assert(rule_pos == ed_rule_pos(sv, fields@));
    let model_pos: usize = if version >= 9 {
        if n <= rule_pos + 1 {
            return false;
        }
        if fields[rule_pos + 1].as_str().is_empty() { rule_pos + 2 } else { rule_pos + 3 }
    } else {
        rule_pos
    };
    assert(model_pos == ed_model_pos(sv, fields@));
    let end: usize = model_pos + (if sv >= MIN_SERVER_VER_MODELS_SUPPORT { 1 } else { 0 }) + (if sv
        >= MIN_SERVER_VER_LAST_LIQUIDITY { 1 } else { 0 });
    n >= end
}

/// Reads the text at `*p` and moves past it.
pub(crate) fn take_text(fields: &[String], p: &mut usize) -> (r: String)
    requires
        *old(p) < fields.len(),
    ensures
        r@ == fields@[*old(p) as int]@,
        *final(p) == *old(p) + 1,
{
    let r = fields[*p].clone();
    *p = *p + 1;
    r
}

/// Reads the `i32` at `*p` and moves past it.
pub(crate) fn take_i32(fields: &[String], p: &mut usize) -> (r: i32)
    requires
        *old(p) < fields.len(),
    ensures
        r == field_i32(fields@[*old(p) as int]@),
        *final(p) == *old(p) + 1,
{
    let r = field_i32_at(fields, *p);
    *p = *p + 1;
    r
}

/// The values of an execution report, for `exec_details`.
#[verifier::rlimit(50)]
pub fn process_execution_data(server_version: i32, fields: &[String]) -> (r: ExecutionFields)
    requires
        fields.len() >= ed_end(server_version, fields@),
    ensures
        execution_data_decoded(server_version, fields@, r),
{
    let ghost t = fields@;
    let sv = server_version;
    let mut v = ExecutionFields {
        req_id: 0,
        order_id: 0,
        con_id: 0,
        symbol: String::new(),
        sec_type: String::new(),
        last_trade_date_or_contract_month: String::new(),
        strike: String::new(),
        right: String::new(),
        multiplier: String::new(),
        contract_exchange: String::new(),
        currency: String::new(),
        local_symbol: String::new(),
        trading_class: String::new(),
        exec_id: String::new(),
        time: String::new(),
        acct_number: String::new(),
        exchange: String::new(),
        side: String::new(),
        shares: String::new(),
        price: String::new(),
        perm_id: 0,
        client_id: 0,
        liquidation: 0,
        cum_qty: String::new(),
        avg_price: String::new(),
        order_ref: String::new(),
        ev_rule: String::new(),
        ev_multiplier: String::new(),
        model_code: String::new(),
        last_liquidity: 0,
    };
    let mut p: usize = 1;
    let mut version = server_version;
    if sv < MIN_SERVER_VER_LAST_LIQUIDITY {
        version = take_i32(fields, &mut p);
    }
    assert(version == ed_version(sv, t));
    v.req_id = -1;
    if version >= 7 {
        v.req_id = take_i32(fields, &mut p);
    }
    assert(p == ed_order_pos(sv, t));
    v.order_id = take_i32(fields, &mut p);
    v.con_id = take_i32(fields, &mut p);
    v.symbol = take_text(fields, &mut p);
    v.sec_type = take_text(fields, &mut p);
    v.last_trade_date_or_contract_month = take_text(fields, &mut p);
    v.strike = take_text(fields, &mut p);
    v.right = take_text(fields, &mut p);
    if version >= 9 {
        v.multiplier = take_text(fields, &mut p);
    }
    assert(p == ed_exchange_pos(sv, t));
    v.contract_exchange = take_text(fields, &mut p);
    v.currency = take_text(fields, &mut p);
    v.local_symbol = take_text(fields, &mut p);
    if version >= 10 {
        v.trading_class = take_text(fields, &mut p);
    }
    assert(p == ed_exec_pos(sv, t));
    v.exec_id = take_text(fields, &mut p);
    v.time = take_text(fields, &mut p);
    v.acct_number = take_text(fields, &mut p);
    v.exchange = take_text(fields, &mut p);
    v.side = take_text(fields, &mut p);
    if sv >= MIN_SERVER_VER_FRACTIONAL_POSITIONS {
        v.shares = take_text(fields, &mut p);
    } else {
        v.shares = format_i32(take_i32(fields, &mut p));
    }
    v.price = take_text(fields, &mut p);
    v.perm_id = take_i32(fields, &mut p);
    v.client_id = take_i32(fields, &mut p);
    v.liquidation = take_i32(fields, &mut p);
    if version >= 6 {
        v.cum_qty = take_text(fields, &mut p);
        v.avg_price = take_text(fields, &mut p);
    }
    if version >= 8 {
        v.order_ref = take_text(fields, &mut p);
    }
    assert(p == ed_rule_pos(sv, t));
    if version >= 9 {
        v.ev_rule = take_text(fields, &mut p);
        // The field after the rule is passed over; when it is not empty, the multiplier is
        // read from the field after it.
        let peeked = take_text(fields, &mut p);
        if !peeked.as_str().is_empty() {
            v.ev_multiplier = take_text(fields, &mut p);
        } else {
            v.ev_multiplier = String::from_str("1");
            proof {
                reveal_strlit("1");
            }
        }
    }
    assert(p == ed_model_pos(sv, t));
    if sv >= MIN_SERVER_VER_MODELS_SUPPORT {
        v.model_code = take_text(fields, &mut p);
    }
    if sv >= MIN_SERVER_VER_LAST_LIQUIDITY {
        v.last_liquidity = take_i32(fields, &mut p);
    }
    v
}

/// The layout of an execution report from servers that report last liquidity: request id,
/// order id, the contract (id, symbol, security type, expiry, strike, right, multiplier,
/// exchange, currency, local symbol, trading class), then the execution (id, time, account,
/// exchange, side, shares, price, permanent id, client id, liquidation, cumulative quantity,
/// average price, order reference, evaluation rule, a field that announces the evaluation
/// multiplier, the multiplier where announced, model code, last liquidity), each value from
/// its own field in that order.
pub proof fn law_execution_report_layout(sv: i32, t: Seq<String>, v: ExecutionFields)
    requires
        sv >= MIN_SERVER_VER_LAST_LIQUIDITY,
        execution_data_decoded(sv, t, v),
    ensures
        v.req_id == field_i32(t[1]@),
        v.order_id == field_i32(t[2]@),
        v.con_id == field_i32(t[3]@),
        v.symbol@ == t[4]@,
        v.sec_type@ == t[5]@,
        v.last_trade_date_or_contract_month@ == t[6]@,
        v.strike@ == t[7]@,
        v.right@ == t[8]@,
        v.multiplier@ == t[9]@,
        v.contract_exchange@ == t[10]@,
        v.currency@ == t[11]@,
        v.local_symbol@ == t[12]@,
        v.trading_class@ == t[13]@,
        v.exec_id@ == t[14]@,
        v.time@ == t[15]@,
        v.acct_number@ == t[16]@,
        v.exchange@ == t[17]@,
        v.side@ == t[18]@,
        v.shares@ == t[19]@,
        v.price@ == t[20]@,
        v.perm_id == field_i32(t[21]@),
        v.client_id == field_i32(t[22]@),
        v.liquidation == field_i32(t[23]@),
        v.cum_qty@ == t[24]@,
        v.avg_price@ == t[25]@,
        v.order_ref@ == t[26]@,
        v.ev_rule@ == t[27]@,
        v.ev_multiplier@ == if t[28]@.len() > 0 { t[29]@ } else { "1"@ },
        v.model_code@ == t[if t[28]@.len() > 0 { 30int } else { 29 }]@,
        v.last_liquidity == field_i32(t[if t[28]@.len() > 0 { 31int } else { 30 }]@),
{
}

} // verus!
