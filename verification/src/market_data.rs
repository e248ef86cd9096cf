//! Decoding the market data messages whose layout depends on the server version: prices with
//! their attributes, profit and loss, and level-two depth. Floating-point values come as the
//! texts of their fields; a value that the message does not carry is the empty text, which
//! reads as zero.
use vstd::prelude::*;

use crate::common::{TickAttrib, TickType};
use crate::decimal::int_text;
use crate::decoder::{field_bool, field_i32, law_field_bool_roundtrip, law_field_i32_roundtrip};
use crate::messages::bool_field_text;
use crate::execution_data::{take_i32, take_text};
use crate::interpret::field_i32_at;
use crate::server_versions::{
    MIN_SERVER_VER_PAST_LIMIT, MIN_SERVER_VER_PRE_OPEN_BID_ASK, MIN_SERVER_VER_REALIZED_PNL,
    MIN_SERVER_VER_SMART_DEPTH, MIN_SERVER_VER_UNREALIZED_PNL,
};

verus! {

/// The size tick that follows a price tick: bid, ask and last prices (live or delayed) are
/// followed by their sizes; other prices by none.
pub open spec fn size_tick_of(t: TickType) -> Option<TickType> {
    match t {
        TickType::Bid => Some(TickType::BidSize),
        TickType::Ask => Some(TickType::AskSize),
        TickType::Last => Some(TickType::LastSize),
        TickType::DelayedBid => Some(TickType::DelayedBidSize),
        TickType::DelayedAsk => Some(TickType::DelayedAskSize),
        TickType::DelayedLast => Some(TickType::DelayedLastSize),
        _ => None,
    }
}

fn size_tick(t: TickType) -> (r: Option<TickType>)
    ensures
        r == size_tick_of(t),
{
    match t {
        TickType::Bid => Some(TickType::BidSize),
        TickType::Ask => Some(TickType::AskSize),
        TickType::Last => Some(TickType::LastSize),
        TickType::DelayedBid => Some(TickType::DelayedBidSize),
        TickType::DelayedAsk => Some(TickType::DelayedAskSize),
        TickType::DelayedLast => Some(TickType::DelayedLastSize),
        _ => None,
    }
}

/// The attributes of a price tick, from its mask: before the server reports past-limit
/// prices, only a mask of exactly 1 means the order can auto-execute; from then on, bit 0 is
/// auto-execute and bit 1 past-limit; bit 2 is pre-open for servers that report it.
pub open spec fn tick_attrib_of(sv: i32, mask: i32) -> TickAttrib {
    TickAttrib {
        can_auto_execute: if sv >= MIN_SERVER_VER_PAST_LIMIT { mask & 1 != 0 } else { mask == 1 },
        past_limit: sv >= MIN_SERVER_VER_PAST_LIMIT && mask & 2 != 0,
        pre_open: sv >= MIN_SERVER_VER_PRE_OPEN_BID_ASK && mask & 4 != 0,
    }
}

/// A price tick: for `tick_price`, then for `tick_size` when the price has a size tick.
#[derive(Clone, Debug)]
pub struct TickPriceFields {
    pub req_id: i32,
    pub tick_type: TickType,
    pub price: String,
    pub attrib: TickAttrib,
    pub size_tick: Option<(TickType, i32)>,
}

/// Whether a price tick message holds what its decoding reads.
pub open spec fn tick_price_enough(fields: Seq<String>) -> bool {
    &&& fields.len() >= 7
    &&& TickType::from_code(field_i32(fields[3]@) as int) is Some
}

/// The values that decoding a price tick gives.
pub open spec fn tick_price_decoded(sv: i32, fields: Seq<String>, v: TickPriceFields) -> bool {
    &&& v.req_id == field_i32(fields[2]@)
    &&& Some(v.tick_type) == TickType::from_code(field_i32(fields[3]@) as int)
    &&& v.price@ == fields[4]@
    &&& v.attrib == tick_attrib_of(sv, field_i32(fields[6]@))
    &&& v.size_tick == match size_tick_of(v.tick_type) {
        Some(s) => Some((s, field_i32(fields[5]@))),
        None => None,
    }
}

/// The values of a price tick message: request id, tick type, price, size, attribute mask.
pub fn process_tick_price(server_version: i32, fields: &[String]) -> (r: TickPriceFields)
    requires
        tick_price_enough(fields@),
    ensures
        tick_price_decoded(server_version, fields@, r),
{
    let sv = server_version;
    let mut p: usize = 2;
    let req_id = take_i32(fields, &mut p);
    let tick_type = TickType::from_i32(take_i32(fields, &mut p)).unwrap();
    let price = take_text(fields, &mut p);
    let size = take_i32(fields, &mut p);
    let attr_mask = take_i32(fields, &mut p);
    let mut attrib = TickAttrib::new(attr_mask == 1, false, false);
    if sv >= MIN_SERVER_VER_PAST_LIMIT {
        attrib.can_auto_execute = attr_mask & 1 != 0;
        attrib.past_limit = attr_mask & 2 != 0;
    }
    if sv >= MIN_SERVER_VER_PRE_OPEN_BID_ASK {
        attrib.pre_open = attr_mask & 4 != 0;
    }
    let size_tick = match size_tick(tick_type) {
        Some(s) => Some((s, size)),
        None => None,
    };
    TickPriceFields { req_id, tick_type, price, attrib, size_tick }
}

/// How many fields a profit and loss message holds for the server version; `single` for one
/// position's, which carries the position before and its value after.
pub open spec fn pnl_len(sv: i32, single: bool) -> int {
    (if single { 4int } else { 3 }) + (if sv >= MIN_SERVER_VER_UNREALIZED_PNL { 1int } else { 0 })
        + (if sv >= MIN_SERVER_VER_REALIZED_PNL { 1int } else { 0 }) + (if single { 1int } else { 0 })
}

/// The values that decoding a profit and loss message gives.
pub open spec fn pnl_decoded(sv: i32, fields: Seq<String>, r: (i32, String, String, String)) -> bool {
    let u = if sv >= MIN_SERVER_VER_UNREALIZED_PNL { 1int } else { 0 };
    &&& r.0 == field_i32(fields[1]@)
    &&& r.1@ == fields[2]@
    &&& r.2@ == if u == 1 { fields[3]@ } else { Seq::empty() }
    &&& r.3@ == if sv >= MIN_SERVER_VER_REALIZED_PNL { fields[3 + u]@ } else { Seq::empty() }
}

/// The values of a profit and loss message, for `pnl`: request id, daily, unrealized and
/// realized profit and loss (each empty where the server does not send it).
pub fn process_pnl(server_version: i32, fields: &[String]) -> (r: (i32, String, String, String))
    requires
        fields.len() >= pnl_len(server_version, false),
    ensures
        pnl_decoded(server_version, fields@, r),
{
    let mut p: usize = 1;
    let req_id = take_i32(fields, &mut p);
    let daily = take_text(fields, &mut p);
    let unrealized = if server_version >= MIN_SERVER_VER_UNREALIZED_PNL { take_text(fields, &mut p) } else { String::new() };
    let realized = if server_version >= MIN_SERVER_VER_REALIZED_PNL { take_text(fields, &mut p) } else { String::new() };
    (req_id, daily, unrealized, realized)
}

/// The values that decoding a single position's profit and loss message gives.
pub open spec fn pnl_single_decoded(
    sv: i32,
    fields: Seq<String>,
    r: (i32, i32, String, String, String, String),
) -> bool {
    let u = if sv >= MIN_SERVER_VER_UNREALIZED_PNL { 1int } else { 0 };
    let z = if sv >= MIN_SERVER_VER_REALIZED_PNL { 1int } else { 0 };
    &&& r.0 == field_i32(fields[1]@)
    &&& r.1 == field_i32(fields[2]@)
    &&& r.2@ == fields[3]@
    &&& r.3@ == if u == 1 { fields[4]@ } else { Seq::empty() }
    &&& r.4@ == if z == 1 { fields[4 + u]@ } else { Seq::empty() }
    &&& r.5@ == fields[4 + u + z]@
}

/// The values of a single position's profit and loss message, for `pnl_single`: request id,
/// position, daily, unrealized and realized profit and loss (each empty where the server does
/// not send it), and value.
pub fn process_pnl_single(
    server_version: i32,
    fields: &[String],
) -> (r: (i32, i32, String, String, String, String))
    requires
        fields.len() >= pnl_len(server_version, true),
    ensures
        pnl_single_decoded(server_version, fields@, r),
{
    let mut p: usize = 1;
    let req_id = take_i32(fields, &mut p);
    let pos = take_i32(fields, &mut p);
    let daily = take_text(fields, &mut p);
    let unrealized = if server_version >= MIN_SERVER_VER_UNREALIZED_PNL { take_text(fields, &mut p) } else { String::new() };
    let realized = if server_version >= MIN_SERVER_VER_REALIZED_PNL { take_text(fields, &mut p) } else { String::new() };
    let value = take_text(fields, &mut p);
    (req_id, pos, daily, unrealized, realized, value)
}

/// How many fields a level-two depth message holds for the server version.
pub open spec fn market_depth_l2_len(sv: i32) -> int {
    9 + if sv >= MIN_SERVER_VER_SMART_DEPTH { 1int } else { 0 }
}

/// The values that decoding a level-two depth message gives.
pub open spec fn market_depth_l2_decoded(
    sv: i32,
    fields: Seq<String>,
    r: (i32, i32, String, i32, i32, String, i32, bool),
) -> bool {
    &&& r.0 == field_i32(fields[2]@)
    &&& r.1 == field_i32(fields[3]@)
    &&& r.2@ == fields[4]@
    &&& r.3 == field_i32(fields[5]@)
    &&& r.4 == field_i32(fields[6]@)
    &&& r.5@ == fields[7]@
    &&& r.6 == field_i32(fields[8]@)
    &&& r.7 == (sv >= MIN_SERVER_VER_SMART_DEPTH && field_bool(fields[9]@))
}

/// The values of a level-two depth message, for `update_mkt_depth_l2`: request id, position,
/// market maker, operation, side, price, size, and whether it is SMART depth (false where the
/// server does not send it).
pub fn process_market_depth_l2(
    server_version: i32,
    fields: &[String],
) -> (r: (i32, i32, String, i32, i32, String, i32, bool))
    requires
        fields.len() >= market_depth_l2_len(server_version),
    ensures
        market_depth_l2_decoded(server_version, fields@, r),
{
    let mut p: usize = 2;
    let req_id = take_i32(fields, &mut p);
    let position = take_i32(fields, &mut p);
    let market_maker = take_text(fields, &mut p);
    let operation = take_i32(fields, &mut p);
    let side = take_i32(fields, &mut p);
    let price = take_text(fields, &mut p);
    let size = take_i32(fields, &mut p);
    let is_smart_depth = if server_version >= MIN_SERVER_VER_SMART_DEPTH {
        take_i32(fields, &mut p) != 0
    } else {
        false
    };
    (req_id, position, market_maker, operation, side, price, size, is_smart_depth)
}


/// The values of an option computation tick, for `tick_option_computation`. Values that the
/// message does not carry are `None`; the sentinels that mean "not computed yet" are left to
/// the caller, who reads the texts as numbers.
#[derive(Clone, Debug)]
pub struct OptionComputationFields {
    pub ticker_id: i32,
    pub tick_type: TickType,
    pub implied_vol: String,
    pub delta: String,
    pub opt_price: Option<String>,
    pub pv_dividend: Option<String>,
    pub gamma: Option<String>,
    pub vega: Option<String>,
    pub theta: Option<String>,
    pub und_price: Option<String>,
}

/// Whether the message carries the option price and dividends: from version 6, or for model
/// option ticks.
pub open spec fn oc_has_price(fields: Seq<String>) -> bool {
    field_i32(fields[1]@) >= 6 || field_i32(fields[3]@) == TickType::ModelOption.code_of()
        || field_i32(fields[3]@) == TickType::DelayedModelOption.code_of()
}

/// Whether an option computation message holds the fields that its decoding reads, with a
/// known tick type.
pub open spec fn option_computation_enough(fields: Seq<String>) -> bool {
    &&& fields.len() >= 6
    &&& TickType::from_code(field_i32(fields[3]@) as int) is Some
    &&& fields.len() >= 6 + (if oc_has_price(fields) { 2int } else { 0int }) + (if field_i32(fields[1]@) >= 6 { 4int } else { 0int })
}

/// The text of the field at `i` when `c` holds.
pub open spec fn opt_field(c: bool, fields: Seq<String>, i: int) -> Option<Seq<char>> {
    if c { Some(fields[i]@) } else { None }
}

/// The view of an optional text.
pub open spec fn opt_view(o: Option<String>) -> Option<Seq<char>> {
    match o {
        Some(s) => Some(s@),
        None => None,
    }
}

/// What an option computation message decodes to.
pub open spec fn option_computation_decoded(fields: Seq<String>, v: OptionComputationFields) -> bool {
    let v6 = field_i32(fields[1]@) >= 6;
    &&& v.ticker_id == field_i32(fields[2]@)
    &&& Some(v.tick_type) == TickType::from_code(field_i32(fields[3]@) as int)
    &&& v.implied_vol@ == fields[4]@
    &&& v.delta@ == fields[5]@
    &&& opt_view(v.opt_price) == opt_field(oc_has_price(fields), fields, 6)
    &&& opt_view(v.pv_dividend) == opt_field(oc_has_price(fields), fields, 7)
    &&& opt_view(v.gamma) == opt_field(v6, fields, 8)
    &&& opt_view(v.vega) == opt_field(v6, fields, 9)
    &&& opt_view(v.theta) == opt_field(v6, fields, 10)
    &&& opt_view(v.und_price) == opt_field(v6, fields, 11)
}

/// Decodes an option computation tick.
pub fn process_tick_option_computation(fields: &[String]) -> (r: OptionComputationFields)
    requires
        option_computation_enough(fields@),
    ensures
        option_computation_decoded(fields@, r),
{
    let mut p: usize = 1;
    let version = take_i32(fields, &mut p);
    let ticker_id = take_i32(fields, &mut p);
    let code = take_i32(fields, &mut p);
    let tick_type = TickType::from_i32(code).unwrap();
    let implied_vol = take_text(fields, &mut p);
    let delta = take_text(fields, &mut p);
    let has_price = version >= 6 || code == TickType::ModelOption.to_i32()
        || code == TickType::DelayedModelOption.to_i32();
    let mut opt_price = None;
    let mut pv_dividend = None;
    if has_price {
        opt_price = Some(take_text(fields, &mut p));
        pv_dividend = Some(take_text(fields, &mut p));
    }
    let mut gamma = None;
    let mut vega = None;
    let mut theta = None;
    let mut und_price = None;
    if version >= 6 {
        gamma = Some(take_text(fields, &mut p));
        vega = Some(take_text(fields, &mut p));
        theta = Some(take_text(fields, &mut p));
        und_price = Some(take_text(fields, &mut p));
    }
    OptionComputationFields {
        ticker_id,
        tick_type,
        implied_vol,
        delta,
        opt_price,
        pv_dividend,
        gamma,
        vega,
        theta,
        und_price,
    }
}

/// Whether an option computation message can be decoded: see `option_computation_enough`.
pub fn option_computation_complete(fields: &[String]) -> (r: bool)
    ensures
        r == option_computation_enough(fields@),
{
    if fields.len() < 6 {
        return false;
    }
    let version = field_i32_at(fields, 1);
    let code = field_i32_at(fields, 3);
    if TickType::from_i32(code).is_none() {
        return false;
    }
    let has_price = version >= 6 || code == TickType::ModelOption.to_i32()
        || code == TickType::DelayedModelOption.to_i32();
    let end: usize = 6 + (if has_price { 2 } else { 0 }) + (if version >= 6 { 4 } else { 0 });
    fields.len() >= end
}

/// A level-two depth message as the server writes it (id, version, request id, position,
/// market maker, operation, side, price, size and, for servers that send it, the SMART-depth
/// flag) decodes back to the values written, each from its own field: the operation from the
/// field after the market maker and the side from the field after the operation.
pub proof fn law_market_depth_l2_reads_back(
    sv: i32,
    t: Seq<String>,
    req_id: i32,
    position: i32,
    market_maker: Seq<char>,
    operation: i32,
    side: i32,
    price: Seq<char>,
    size: i32,
    smart: bool,
    r: (i32, i32, String, i32, i32, String, i32, bool),
)
    requires
        t.len() >= market_depth_l2_len(sv),
        t[2]@ == int_text(req_id as int),
        t[3]@ == int_text(position as int),
        t[4]@ == market_maker,
        t[5]@ == int_text(operation as int),
        t[6]@ == int_text(side as int),
        t[7]@ == price,
        t[8]@ == int_text(size as int),
        sv >= MIN_SERVER_VER_SMART_DEPTH ==> t[9]@ == bool_field_text(smart),
        market_depth_l2_decoded(sv, t, r),
    ensures
        r.0 == req_id,
        r.1 == position,
        r.2@ == market_maker,
        r.3 == operation,
        r.4 == side,
        r.5@ == price,
        r.6 == size,
        r.7 == (sv >= MIN_SERVER_VER_SMART_DEPTH && smart),
{
    law_field_i32_roundtrip(req_id);
    law_field_i32_roundtrip(position);
    law_field_i32_roundtrip(operation);
    law_field_i32_roundtrip(side);
    law_field_i32_roundtrip(size);
    law_field_bool_roundtrip(smart);
}

/// A price tick as the server writes it (id, version, request id, tick type, price, size,
/// attribute mask) decodes back to what was written: the request id, the tick type of the
/// code, the price text, the attributes of the mask, and, for a tick type that has a size
/// tick, the size.
pub proof fn law_tick_price_reads_back(
    sv: i32,
    t: Seq<String>,
    req_id: i32,
    tick_code: i32,
    price: Seq<char>,
    size: i32,
    mask: i32,
    v: TickPriceFields,
)
    requires
        t.len() >= 7,
        t[2]@ == int_text(req_id as int),
        t[3]@ == int_text(tick_code as int),
        t[4]@ == price,
        t[5]@ == int_text(size as int),
        t[6]@ == int_text(mask as int),
        tick_price_decoded(sv, t, v),
    ensures
        v.req_id == req_id,
        Some(v.tick_type) == TickType::from_code(tick_code as int),
        v.price@ == price,
        v.attrib == tick_attrib_of(sv, mask),
        v.size_tick == match size_tick_of(v.tick_type) {
            Some(s) => Some((s, size)),
            None => None,
        },
{
    law_field_i32_roundtrip(req_id);
    law_field_i32_roundtrip(tick_code);
    law_field_i32_roundtrip(size);
    law_field_i32_roundtrip(mask);
}

/// An option computation of version 6 or later as the server writes it (id, version, ticker
/// id, tick type, implied volatility, delta, option price, present value of dividends, gamma,
/// vega, theta, underlying price) decodes back to what was written, each value from its own
/// field in that order.
pub proof fn law_option_computation_reads_back(
    t: Seq<String>,
    version: i32,
    ticker_id: i32,
    tick_code: i32,
    v: OptionComputationFields,
)
    requires
        version >= 6,
        t.len() >= 12,
        t[1]@ == int_text(version as int),
        t[2]@ == int_text(ticker_id as int),
        t[3]@ == int_text(tick_code as int),
        option_computation_decoded(t, v),
    ensures
        v.ticker_id == ticker_id,
        Some(v.tick_type) == TickType::from_code(tick_code as int),
        v.implied_vol@ == t[4]@,
        v.delta@ == t[5]@,
        opt_view(v.opt_price) == Some(t[6]@),
        opt_view(v.pv_dividend) == Some(t[7]@),
        opt_view(v.gamma) == Some(t[8]@),
        opt_view(v.vega) == Some(t[9]@),
        opt_view(v.theta) == Some(t[10]@),
        opt_view(v.und_price) == Some(t[11]@),
{
    law_field_i32_roundtrip(version);
    law_field_i32_roundtrip(ticker_id);
    law_field_i32_roundtrip(tick_code);
}


/// A profit and loss message from a server that sends realized profit: request id, daily,
/// unrealized and realized profit, the request id read back as written.
pub proof fn law_pnl_reads_back(sv: i32, t: Seq<String>, req_id: i32, r: (i32, String, String, String))
    requires
        sv >= MIN_SERVER_VER_REALIZED_PNL,
        t[1]@ == int_text(req_id as int),
        pnl_decoded(sv, t, r),
    ensures
        r.0 == req_id,
        r.1@ == t[2]@,
        r.2@ == t[3]@,
        r.3@ == t[4]@,
{
    law_field_i32_roundtrip(req_id);
}

/// A single-position profit and loss message from a server that sends realized profit:
/// request id, position, daily, unrealized and realized profit and value, the request id and
/// position read back as written.
pub proof fn law_pnl_single_reads_back(
    sv: i32,
    t: Seq<String>,
    req_id: i32,
    pos: i32,
    r: (i32, i32, String, String, String, String),
)
    requires
        sv >= MIN_SERVER_VER_REALIZED_PNL,
        t[1]@ == int_text(req_id as int),
        t[2]@ == int_text(pos as int),
        pnl_single_decoded(sv, t, r),
    ensures
        r.0 == req_id,
        r.1 == pos,
        r.2@ == t[3]@,
        r.3@ == t[4]@,
        r.4@ == t[5]@,
        r.5@ == t[6]@,
{
    law_field_i32_roundtrip(req_id);
    law_field_i32_roundtrip(pos);
}

} // verus!
