//! Decoding open and completed orders. Both messages lay out a contract, an order and its
//! state field after field; which fields are there depends on the message version, on the
//! server version, and on values read before them (a delta-neutral order type, the counts of
//! combo legs, parameters and conditions, a hedge type, an algo strategy, a PEG BENCH order
//! type). The decoding reads them in segments, each with the positions it reads. Any field but
//! a flag must be there; a flag past the end of the message reads as false. Floating-point
//! values come as the texts of their fields; whether the scale price increment is positive,
//! which decides whether the scale values that follow it are read, is asked of the caller.
use vstd::prelude::*;

use crate::common::{TagValue, UNSET_INTEGER};
use crate::contract::PositionType;
use crate::contract_data::flag_int;
use crate::decimal::int_text;
use crate::decoder::{
    field_bool, field_i32, field_i32_show_unset, law_field_bool_roundtrip, law_field_i32_roundtrip,
};
use crate::messages::bool_field_text;
use crate::incoming::{entry_count, opt_text};
use crate::interpret::field_i32_at;
use crate::order::{AuctionStrategy, Origin};
use crate::order_condition::{ConditionType, TriggerMethod};
use crate::server_versions::{
    MIN_SERVER_VER_AUTO_PRICE_FOR_HEDGE, MIN_SERVER_VER_CASH_QTY, MIN_SERVER_VER_D_PEG_ORDERS,
    MIN_SERVER_VER_FRACTIONAL_POSITIONS, MIN_SERVER_VER_MODELS_SUPPORT,
    MIN_SERVER_VER_ORDER_CONTAINER, MIN_SERVER_VER_PEGGED_TO_BENCHMARK,
    MIN_SERVER_VER_PRICE_MGMT_ALGO, MIN_SERVER_VER_SOFT_DOLLAR_TIER, MIN_SERVER_VER_SSHORTX_OLD,
    MIN_SERVER_VER_WHAT_IF_EXT_FIELDS,
};

verus! {

/// A floating-point value as its field carries it; `zero_unset` says whether a value of 0
/// stands for an unset value.
#[derive(Clone, Debug)]
pub struct FloatText {
    pub text: String,
    pub zero_unset: bool,
}

/// The text of a floating-point value and whether 0 stands for unset.
pub open spec fn float_view(f: FloatText) -> (Seq<char>, bool) {
    (f.text@, f.zero_unset)
}

/// `float_view` of a value that may be absent.
pub open spec fn opt_float(o: Option<FloatText>) -> Option<(Seq<char>, bool)> {
    match o {
        Some(f) => Some(float_view(f)),
        None => None,
    }
}

/// What the layout of an order message depends on before any of its values: the message
/// version, the server version, and whether it is an open order or a completed one.
#[derive(Clone, Copy, Debug)]
pub struct OrderCtx {
    pub version: i32,
    pub server_version: i32,
    pub open: bool,
}

/// Where a reading that would end at `q` stops: at the end of the fields at the latest.
pub open spec fn clamp(t: Seq<String>, q: int) -> int {
    if q < t.len() { q } else { t.len() as int }
}

/// The flag at `q`: false where the fields have ended.
pub open spec fn bool_at(t: Seq<String>, q: int) -> bool {
    0 <= q < t.len() && field_bool(t[q]@)
}

/// Reads the text at `*p` and moves past it.
fn take_text(fields: &[String], p: &mut usize) -> (r: String)
    requires
        *old(p) < fields.len(),
    ensures
        r@ == fields@[*old(p) as int]@,
        *final(p) == *old(p) + 1,
{
    let r = fields[*p].clone();
    *p = *p + 1;
    r
}

/// Moves past the field at `*p`.
fn skip_field(fields: &[String], p: &mut usize)
    requires
        *old(p) < fields.len(),
    ensures
        *final(p) == *old(p) + 1,
{
    *p = *p + 1;
}

/// Reads the `i32` at `*p` and moves past it.
fn take_i32(fields: &[String], p: &mut usize) -> (r: i32)
    requires
        *old(p) < fields.len(),
    ensures
        r == field_i32(fields@[*old(p) as int]@),
        *final(p) == *old(p) + 1,
{
    let r = field_i32_at(fields, *p);
    *p = *p + 1;
    r
}

/// Reads the `i32` at `*p`, 0 as unset, and moves past it.
fn take_i32_show_unset(fields: &[String], p: &mut usize) -> (r: i32)
    requires
        *old(p) < fields.len(),
    ensures
        r == field_i32_show_unset(fields@[*old(p) as int]@),
        *final(p) == *old(p) + 1,
{
    let n = take_i32(fields, p);
    if n == 0 { UNSET_INTEGER } else { n }
}

/// Reads the text of the floating-point value at `*p` and moves past it.
fn take_float(fields: &[String], p: &mut usize, zero_unset: bool) -> (r: FloatText)
    requires
        *old(p) < fields.len(),
    ensures
        float_view(r) == (fields@[*old(p) as int]@, zero_unset),
        *final(p) == *old(p) + 1,
{
    let text = take_text(fields, p);
    FloatText { text, zero_unset }
}

/// Reads the flag at `*p` and moves past it; past the end it reads false and stays there.
fn take_bool(fields: &[String], p: &mut usize) -> (r: bool)
    requires
        *old(p) <= fields.len(),
    ensures
        r == bool_at(fields@, *old(p) as int),
        *final(p) == clamp(fields@, *old(p) + 1),
{
    if *p < fields.len() {
        let n = take_i32(fields, p);
        n != 0
    } else {
        false
    }
}

/// Reads the flag at `*p`, which is there, and moves past it.
fn take_flag(fields: &[String], p: &mut usize) -> (r: bool)
    requires
        *old(p) < fields.len(),
    ensures
        r == field_bool(fields@[*old(p) as int]@),
        *final(p) == *old(p) + 1,
{
    let n = take_i32(fields, p);
    n != 0
}

/// Reads the origin at `*p`, which holds one of its codes, and moves past it.
fn take_origin(fields: &[String], p: &mut usize) -> (r: Origin)
    requires
        *old(p) < fields.len(),
        Origin::from_code(field_i32(fields@[*old(p) as int]@) as int) is Some,
    ensures
        Origin::from_code(field_i32(fields@[*old(p) as int]@) as int) == Some(r),
        *final(p) == *old(p) + 1,
{
    let n = take_i32(fields, p);
    match Origin::from_i32(n) {
        Some(o) => o,
        None => Origin::Customer,
    }
}

/// Reads the auction strategy at `*p`, which holds one of its codes, and moves past it.
fn take_auction_strategy(fields: &[String], p: &mut usize) -> (r: AuctionStrategy)
    requires
        *old(p) < fields.len(),
        AuctionStrategy::from_code(field_i32(fields@[*old(p) as int]@) as int) is Some,
    ensures
        AuctionStrategy::from_code(field_i32(fields@[*old(p) as int]@) as int) == Some(r),
        *final(p) == *old(p) + 1,
{
    let n = take_i32(fields, p);
    match AuctionStrategy::from_i32(n) {
        Some(a) => a,
        None => AuctionStrategy::AuctionUnset,
    }
}

/// How many entries a count that may be absent announces.
pub open spec fn count_of(o: Option<i32>) -> int {
    match o {
        Some(n) => entry_count(n),
        None => 0,
    }
}

/// `count_of` as a length.
fn count_len(o: Option<i32>) -> (r: usize)
    ensures
        r == count_of(o),
{
    match o {
        Some(n) => if n > 0 { n as usize } else { 0 },
        None => 0,
    }
}

/// Whether a text that may be absent is there and not empty.
pub open spec fn set_text(o: Option<String>) -> bool {
    match o {
        Some(s) => s@.len() > 0,
        None => false,
    }
}

//==================================================================================================
/// A combo leg of an order message.
#[derive(Clone, Debug)]
pub struct OrderComboLeg {
    pub con_id: i32,
    pub ratio: i32,
    pub action: String,
    pub exchange: String,
    pub open_close: PositionType,
    pub short_sale_slot: i32,
    pub designated_location: String,
    pub exempt_code: i32,
}

/// The combo leg that the eight fields at `q` give.
pub open spec fn combo_leg_read(t: Seq<String>, q: int, l: OrderComboLeg) -> bool {
    &&& l.con_id == field_i32(t[q]@)
    &&& l.ratio == field_i32(t[q + 1]@)
    &&& l.action@ == t[q + 2]@
    &&& l.exchange@ == t[q + 3]@
    &&& PositionType::from_code(field_i32(t[q + 4]@) as int) == Some(l.open_close)
    &&& l.short_sale_slot == field_i32(t[q + 5]@)
    &&& l.designated_location@ == t[q + 6]@
    &&& l.exempt_code == field_i32(t[q + 7]@)
}

/// Whether the open/close field of combo leg `j` of the legs at `p` holds one of its codes.
pub open spec fn leg_open_close_known(t: Seq<String>, p: int, j: int) -> bool {
    PositionType::from_code(field_i32(t[p + 8 * j + 4]@) as int) is Some
}

/// Whether the fields hold `n` combo legs at `p`.
pub open spec fn combo_legs_enough(t: Seq<String>, p: int, n: int) -> bool {
    &&& p + 8 * n <= t.len()
    &&& forall|j: int| 0 <= j < n ==> #[trigger] leg_open_close_known(t, p, j)
}

/// Reads `n` combo legs at `p0`.
fn read_combo_legs(fields: &[String], p0: usize, n: usize) -> (r: (Vec<OrderComboLeg>, usize))
    requires
        combo_legs_enough(fields@, p0 as int, n as int),
    ensures
        r.1 == p0 + 8 * n,
        r.0@.len() == n,
        forall|j: int| 0 <= j < n ==> combo_leg_read(fields@, p0 + 8 * j, #[trigger] r.0@[j]),
{
    let mut v: Vec<OrderComboLeg> = Vec::new();
    let mut p = p0;
    let mut i: usize = 0;
    while i < n
        invariant
            combo_legs_enough(fields@, p0 as int, n as int),
            i <= n,
            p == p0 + 8 * i,
            v@.len() == i,
            forall|j: int| 0 <= j < i ==> combo_leg_read(fields@, p0 + 8 * j, #[trigger] v@[j]),
        decreases n - i,
    {
        assert(leg_open_close_known(fields@, p0 as int, i as int));
        let con_id = take_i32(fields, &mut p);
        let ratio = take_i32(fields, &mut p);
        let action = take_text(fields, &mut p);
        let exchange = take_text(fields, &mut p);
        let code = take_i32(fields, &mut p);
        let open_close = match PositionType::from_i32(code) {
            Some(k) => k,
            None => PositionType::SamePos,
        };
        let short_sale_slot = take_i32(fields, &mut p);
        let designated_location = take_text(fields, &mut p);
        let exempt_code = take_i32(fields, &mut p);
        v.push(OrderComboLeg {
            con_id,
            ratio,
            action,
            exchange,
            open_close,
            short_sale_slot,
            designated_location,
            exempt_code,
        });
        i = i + 1;
    }
    (v, p)
}

/// Reads `n` prices of order combo legs at `p0`, each 0 as unset.
fn read_leg_prices(fields: &[String], p0: usize, n: usize) -> (r: (Vec<FloatText>, usize))
    requires
        p0 + n <= fields.len(),
    ensures
        r.1 == p0 + n,
        r.0@.len() == n,
        forall|j: int| 0 <= j < n ==> float_view(#[trigger] r.0@[j]) == (fields@[p0 + j]@, true),
{
    let mut v: Vec<FloatText> = Vec::new();
    let mut p = p0;
    let mut i: usize = 0;
    while i < n
        invariant
            p0 + n <= fields.len(),
            i <= n,
            p == p0 + i,
            v@.len() == i,
            forall|j: int| 0 <= j < i ==> float_view(#[trigger] v@[j]) == (fields@[p0 + j]@, true),
        decreases n - i,
    {
        v.push(take_float(fields, &mut p, true));
        i = i + 1;
    }
    (v, p)
}

/// The tag-value pairs that the `2 * n` fields at `p` give.
pub open spec fn pairs_read(t: Seq<String>, p: int, n: int, v: Seq<TagValue>) -> bool {
    &&& v.len() == n
    &&& forall|j: int|
        0 <= j < n ==> (#[trigger] v[j]).tag@ == t[p + 2 * j]@ && v[j].value@ == t[p + 2 * j + 1]@
}

/// Reads `n` tag-value pairs at `p0`.
fn read_pairs(fields: &[String], p0: usize, n: usize) -> (r: (Vec<TagValue>, usize))
    requires
        p0 + 2 * n <= fields.len(),
    ensures
        r.1 == p0 + 2 * n,
        pairs_read(fields@, p0 as int, n as int, r.0@),
{
    let mut v: Vec<TagValue> = Vec::new();
    let mut p = p0;
    let mut i: usize = 0;
    while i < n
        invariant
            p0 + 2 * n <= fields.len(),
            i <= n,
            p == p0 + 2 * i,
            pairs_read(fields@, p0 as int, i as int, v@),
        decreases n - i,
    {
        let tag = take_text(fields, &mut p);
        let value = take_text(fields, &mut p);
        v.push(TagValue { tag, value });
        i = i + 1;
    }
    (v, p)
}

//==================================================================================================
/// A condition of an order message: its type, the fields that it reads of itself, and the
/// ignore-RTH and cancel-order flags that follow it.
#[derive(Clone, Debug)]
pub struct ConditionRead {
    pub cond_type: ConditionType,
    pub fields: Vec<String>,
    pub ignore_rth: bool,
    pub cancel_order: bool,
}

/// How many fields a condition of type `k` reads of itself.
pub open spec fn condition_width(k: ConditionType) -> int {
    match k {
        ConditionType::Price => 6,
        ConditionType::Time => 3,
        ConditionType::Margin => 3,
        ConditionType::Execution => 4,
        ConditionType::Volume => 5,
        ConditionType::PercentChange => 5,
    }
}

/// The condition type whose code is at `q`.
pub open spec fn condition_type_at(t: Seq<String>, q: int) -> Option<ConditionType> {
    ConditionType::from_code(field_i32(t[q]@) as int)
}

/// How many fields the condition at `q` takes: its type, its own fields and the two flags.
pub open spec fn condition_span(t: Seq<String>, q: int) -> int {
    match condition_type_at(t, q) {
        Some(k) => condition_width(k) + 3,
        None => 1,
    }
}

/// Where condition `j` of the conditions at `p` starts.
pub open spec fn condition_at(t: Seq<String>, p: int, j: nat) -> int
    decreases j,
{
    if j == 0 {
        p
    } else {
        let q = condition_at(t, p, (j - 1) as nat);
        q + condition_span(t, q)
    }
}

/// Whether the fields hold a condition at `q`: a known type, all its fields, and for a price
/// condition a known trigger method.
pub open spec fn condition_enough(t: Seq<String>, q: int) -> bool {
    &&& 0 <= q < t.len()
    &&& condition_type_at(t, q) is Some
    &&& q + condition_span(t, q) <= t.len()
    &&& condition_type_at(t, q) == Some(ConditionType::Price) ==> TriggerMethod::from_code(
        field_i32(t[q + 6]@) as int,
    ) is Some
}

/// Whether the fields hold `n` conditions at `p`.
pub open spec fn conditions_enough(t: Seq<String>, p: int, n: nat) -> bool {
    forall|j: nat| j < n ==> #[trigger] condition_enough(t, condition_at(t, p, j))
}

/// The condition that the fields at `q` give.
pub open spec fn condition_read(t: Seq<String>, q: int, r: ConditionRead) -> bool {
    let w = condition_width(r.cond_type);
    &&& condition_type_at(t, q) == Some(r.cond_type)
    &&& r.fields@.len() == w
    &&& forall|i: int| 0 <= i < w ==> (#[trigger] r.fields@[i])@ == t[q + 1 + i]@
    &&& r.ignore_rth == field_bool(t[q + w + 1]@)
    &&& r.cancel_order == field_bool(t[q + w + 2]@)
}

/// Reads `n` texts at `p0`.
fn read_texts(fields: &[String], p0: usize, n: usize) -> (r: Vec<String>)
    requires
        p0 + n <= fields.len(),
    ensures
        r@.len() == n,
        forall|i: int| 0 <= i < n ==> (#[trigger] r@[i])@ == fields@[p0 + i]@,
{
    let mut v: Vec<String> = Vec::new();
    let mut i: usize = 0;
    while i < n
        invariant
            p0 + n <= fields.len(),
            i <= n,
            v@.len() == i,
            forall|k: int| 0 <= k < i ==> (#[trigger] v@[k])@ == fields@[p0 + k]@,
        decreases n - i,
    {
        v.push(fields[p0 + i].clone());
        i = i + 1;
    }
    v
}

/// `condition_width` as a length.
fn width_of(k: ConditionType) -> (r: usize)
    ensures
        r == condition_width(k),
{
    match k {
        ConditionType::Price => 6,
        ConditionType::Time => 3,
        ConditionType::Margin => 3,
        ConditionType::Execution => 4,
        ConditionType::Volume => 5,
        ConditionType::PercentChange => 5,
    }
}

/// Reads `n` conditions at `p0`.
fn read_conditions(fields: &[String], p0: usize, n: usize) -> (r: (Vec<ConditionRead>, usize))
    requires
        p0 <= fields.len(),
        conditions_enough(fields@, p0 as int, n as nat),
    ensures
        r.1 == condition_at(fields@, p0 as int, n as nat),
        r.1 <= fields.len(),
        r.0@.len() == n,
        forall|j: int|
            0 <= j < n ==> condition_read(fields@, condition_at(fields@, p0 as int, j as nat), #[trigger] r.0@[j]),
{
    let mut v: Vec<ConditionRead> = Vec::new();
    let mut p = p0;
    let mut i: usize = 0;
    while i < n
        invariant
            conditions_enough(fields@, p0 as int, n as nat),
            i <= n,
            p == condition_at(fields@, p0 as int, i as nat),
            p <= fields.len(),
            v@.len() == i,
            forall|j: int|
                0 <= j < i ==> condition_read(fields@, condition_at(fields@, p0 as int, j as nat), #[trigger] v@[j]),
        decreases n - i,
    {
        assert(condition_enough(fields@, condition_at(fields@, p0 as int, i as nat)));
        let ghost q = p as int;
        let code = take_i32(fields, &mut p);
        let k = match ConditionType::from_i32(code) {
            Some(k) => k,
            None => ConditionType::Price,
        };
        let w = width_of(k);
        assert(condition_type_at(fields@, q) == Some(k));
        assert(p + w + 2 <= fields.len());
        let texts = read_texts(fields, p, w);
        p = p + w;
        let ignore_rth = take_flag(fields, &mut p);
        let cancel_order = take_flag(fields, &mut p);
        v.push(ConditionRead { cond_type: k, fields: texts, ignore_rth, cancel_order });
        assert(condition_at(fields@, p0 as int, (i + 1) as nat) == q + condition_span(fields@, q));
        i = i + 1;
    }
    (v, p)
}

//==================================================================================================
/// The order id, the contract and the first order values.
#[derive(Clone, Debug)]
pub struct OrderHead {
    pub order_id: Option<i32>,
    pub con_id: i32,
    pub symbol: String,
    pub sec_type: String,
    pub last_trade_date_or_contract_month: String,
    pub strike: FloatText,
    pub right: String,
    pub multiplier: Option<String>,
    pub exchange: String,
    pub currency: String,
    pub local_symbol: String,
    pub trading_class: Option<String>,
    pub action: String,
    pub total_quantity: Option<FloatText>,
    pub total_quantity_whole: Option<i32>,
    pub order_type: String,
    pub lmt_price: FloatText,
    pub aux_price: FloatText,
    pub tif: String,
    pub oca_group: String,
    pub account: String,
    pub open_close: String,
    pub origin: Origin,
    pub order_ref: String,
    pub client_id: Option<i32>,
    pub perm_id: i32,
    pub outside_rth: bool,
    pub hidden: bool,
}

/// Where the reading of `OrderHead` that starts at `p` ends.
pub open spec fn head_end(c: OrderCtx, t: Seq<String>, p: int) -> int {
    let q1 = p + flag_int(c.open);
    let q2 = q1 + 6 + flag_int(c.version >= 32);
    let q3 = q2 + 3 + flag_int(c.version >= 32);
    let q4 = q3 + 1 + flag_int(c.server_version >= MIN_SERVER_VER_FRACTIONAL_POSITIONS);
    let q5 = q4 + flag_int(c.server_version < MIN_SERVER_VER_FRACTIONAL_POSITIONS);
    let q6 = q5 + 9 + flag_int(c.open);
    q6 + 3
}

/// Where the `order_type` field of `OrderHead` is.
pub open spec fn head_order_type_at(c: OrderCtx, t: Seq<String>, p: int) -> int {
    let q1 = p + flag_int(c.open);
    let q2 = q1 + 6 + flag_int(c.version >= 32);
    let q3 = q2 + 3 + flag_int(c.version >= 32);
    let q4 = q3 + 1 + flag_int(c.server_version >= MIN_SERVER_VER_FRACTIONAL_POSITIONS);
    let q5 = q4 + flag_int(c.server_version < MIN_SERVER_VER_FRACTIONAL_POSITIONS);
    q5
}

/// Whether the fields hold what reading `OrderHead` at `p` takes: every field but a flag
/// must be there, and an enumeration must hold one of its codes.
pub open spec fn head_enough(c: OrderCtx, t: Seq<String>, p: int) -> bool {
    let q1 = p + flag_int(c.open);
    let q2 = q1 + 6 + flag_int(c.version >= 32);
    let q3 = q2 + 3 + flag_int(c.version >= 32);
    let q4 = q3 + 1 + flag_int(c.server_version >= MIN_SERVER_VER_FRACTIONAL_POSITIONS);
    let q5 = q4 + flag_int(c.server_version < MIN_SERVER_VER_FRACTIONAL_POSITIONS);
    let q6 = q5 + 9 + flag_int(c.open);
    &&& Origin::from_code(field_i32(t[q5 + 7]@) as int) is Some
    &&& q6 < t.len()
}

/// The values that reading `OrderHead` at `p` gives.
pub open spec fn head_read(c: OrderCtx, t: Seq<String>, p: int, v: OrderHead) -> bool {
    let q1 = p + flag_int(c.open);
    let q2 = q1 + 6 + flag_int(c.version >= 32);
    let q3 = q2 + 3 + flag_int(c.version >= 32);
    let q4 = q3 + 1 + flag_int(c.server_version >= MIN_SERVER_VER_FRACTIONAL_POSITIONS);
    let q5 = q4 + flag_int(c.server_version < MIN_SERVER_VER_FRACTIONAL_POSITIONS);
    let q6 = q5 + 9 + flag_int(c.open);
    &&& v.order_id == if c.open { Some(field_i32(t[p]@)) } else { None::<i32> }
    &&& v.con_id == field_i32(t[q1]@)
    &&& v.symbol@ == t[q1 + 1]@
    &&& v.sec_type@ == t[q1 + 2]@
    &&& v.last_trade_date_or_contract_month@ == t[q1 + 3]@
    &&& float_view(v.strike) == (t[q1 + 4]@, false)
    &&& v.right@ == t[q1 + 5]@
    &&& opt_text(v.multiplier) == if c.version >= 32 { Some(t[q1 + 6]@) } else { None::<Seq<char>> }
    &&& v.exchange@ == t[q2]@
    &&& v.currency@ == t[q2 + 1]@
    &&& v.local_symbol@ == t[q2 + 2]@
    &&& opt_text(v.trading_class) == if c.version >= 32 { Some(t[q2 + 3]@) } else { None::<Seq<char>> }
    &&& v.action@ == t[q3]@
    &&& opt_float(v.total_quantity) == if c.server_version >= MIN_SERVER_VER_FRACTIONAL_POSITIONS { Some((t[q3 + 1]@, false)) } else { None::<(Seq<char>, bool)> }
    &&& v.total_quantity_whole == if c.server_version < MIN_SERVER_VER_FRACTIONAL_POSITIONS { Some(field_i32(t[q4]@)) } else { None::<i32> }
    &&& v.order_type@ == t[q5]@
    &&& float_view(v.lmt_price) == (t[q5 + 1]@, c.version >= 29)
    &&& float_view(v.aux_price) == (t[q5 + 2]@, c.version >= 30)
    &&& v.tif@ == t[q5 + 3]@
    &&& v.oca_group@ == t[q5 + 4]@
    &&& v.account@ == t[q5 + 5]@
    &&& v.open_close@ == t[q5 + 6]@
    &&& Origin::from_code(field_i32(t[q5 + 7]@) as int) == Some(v.origin)
    &&& v.order_ref@ == t[q5 + 8]@
    &&& v.client_id == if c.open { Some(field_i32(t[q5 + 9]@)) } else { None::<i32> }
    &&& v.perm_id == field_i32(t[q6]@)
    &&& v.outside_rth == bool_at(t, q6 + 1)
    &&& v.hidden == bool_at(t, q6 + 2)
}

/// Reads `OrderHead` at `p0`; gives it and where the reading ends.
#[verifier::rlimit(40)]
fn read_head(c: OrderCtx, fields: &[String], p0: usize) -> (r: (OrderHead, usize))
    requires
        p0 <= fields.len(),
        head_enough(c, fields@, p0 as int),
    ensures
        r.1 == clamp(fields@, head_end(c, fields@, p0 as int)),
        head_read(c, fields@, p0 as int, r.0),
{
    let mut p = p0;
    let order_id = if c.open { Some(take_i32(fields, &mut p)) } else { None };
    let con_id = take_i32(fields, &mut p);
    let symbol = take_text(fields, &mut p);
    let sec_type = take_text(fields, &mut p);
    let last_trade_date_or_contract_month = take_text(fields, &mut p);
    let strike = take_float(fields, &mut p, false);
    let right = take_text(fields, &mut p);
    let multiplier = if c.version >= 32 { Some(take_text(fields, &mut p)) } else { None };
    let exchange = take_text(fields, &mut p);
    let currency = take_text(fields, &mut p);
    let local_symbol = take_text(fields, &mut p);
    let trading_class = if c.version >= 32 { Some(take_text(fields, &mut p)) } else { None };
    let action = take_text(fields, &mut p);
    let total_quantity = if c.server_version >= MIN_SERVER_VER_FRACTIONAL_POSITIONS { Some(take_float(fields, &mut p, false)) } else { None };
    let total_quantity_whole = if c.server_version < MIN_SERVER_VER_FRACTIONAL_POSITIONS { Some(take_i32(fields, &mut p)) } else { None };
    let order_type = take_text(fields, &mut p);
    let lmt_price = take_float(fields, &mut p, c.version >= 29);
    let aux_price = take_float(fields, &mut p, c.version >= 30);
    let tif = take_text(fields, &mut p);
    let oca_group = take_text(fields, &mut p);
    let account = take_text(fields, &mut p);
    let open_close = take_text(fields, &mut p);
    let origin = take_origin(fields, &mut p);
    let order_ref = take_text(fields, &mut p);
    let client_id = if c.open { Some(take_i32(fields, &mut p)) } else { None };
    let perm_id = take_i32(fields, &mut p);
    let outside_rth = take_bool(fields, &mut p);
    let hidden = take_bool(fields, &mut p);
    (OrderHead { order_id, con_id, symbol, sec_type, last_trade_date_or_contract_month, strike, right, multiplier, exchange, currency, local_symbol, trading_class, action, total_quantity, total_quantity_whole, order_type, lmt_price, aux_price, tif, oca_group, account, open_close, origin, order_ref, client_id, perm_id, outside_rth, hidden }, p)
}

/// The order values from the discretionary amount to the display size.
#[derive(Clone, Debug)]
pub struct OrderTerms {
    pub discretionary_amt: FloatText,
    pub good_after_time: String,
    pub fa_group: String,
    pub fa_method: String,
    pub fa_percentage: String,
    pub fa_profile: String,
    pub model_code: Option<String>,
    pub good_till_date: String,
    pub rule80a: String,
    pub percent_offset: FloatText,
    pub settling_firm: String,
    pub short_sale_slot: i32,
    pub designated_location: String,
    pub exempt_code: Option<i32>,
    pub auction_strategy: Option<AuctionStrategy>,
    pub starting_price: FloatText,
    pub stock_ref_price: FloatText,
    pub delta: FloatText,
    pub stock_range_lower: FloatText,
    pub stock_range_upper: FloatText,
    pub display_size: i32,
}

/// Where the reading of `OrderTerms` that starts at `p` ends.
pub open spec fn terms_end(c: OrderCtx, t: Seq<String>, p: int) -> int {
    let q1 = p + 2 + flag_int(c.open);
    let q2 = q1 + 4 + flag_int(c.server_version >= MIN_SERVER_VER_MODELS_SUPPORT);
    let q3 = q2 + 6 + flag_int(c.server_version == MIN_SERVER_VER_SSHORTX_OLD);
    let q4 = q3 + flag_int(c.server_version != MIN_SERVER_VER_SSHORTX_OLD && c.version >= 23);
    let q5 = q4 + flag_int(c.open);
    q5 + 6
}

/// Whether the fields hold what reading `OrderTerms` at `p` takes: every field but a flag
/// must be there, and an enumeration must hold one of its codes.
pub open spec fn terms_enough(c: OrderCtx, t: Seq<String>, p: int) -> bool {
    let q1 = p + 2 + flag_int(c.open);
    let q2 = q1 + 4 + flag_int(c.server_version >= MIN_SERVER_VER_MODELS_SUPPORT);
    let q3 = q2 + 6 + flag_int(c.server_version == MIN_SERVER_VER_SSHORTX_OLD);
    let q4 = q3 + flag_int(c.server_version != MIN_SERVER_VER_SSHORTX_OLD && c.version >= 23);
    let q5 = q4 + flag_int(c.open);
    &&& c.open ==> AuctionStrategy::from_code(field_i32(t[q4]@) as int) is Some
    &&& q5 + 5 < t.len()
}

/// The values that reading `OrderTerms` at `p` gives.
pub open spec fn terms_read(c: OrderCtx, t: Seq<String>, p: int, v: OrderTerms) -> bool {
    let q1 = p + 2 + flag_int(c.open);
    let q2 = q1 + 4 + flag_int(c.server_version >= MIN_SERVER_VER_MODELS_SUPPORT);
    let q3 = q2 + 6 + flag_int(c.server_version == MIN_SERVER_VER_SSHORTX_OLD);
    let q4 = q3 + flag_int(c.server_version != MIN_SERVER_VER_SSHORTX_OLD && c.version >= 23);
    let q5 = q4 + flag_int(c.open);
    &&& float_view(v.discretionary_amt) == (t[p]@, false)
    &&& v.good_after_time@ == t[p + 1]@
    &&& v.fa_group@ == t[q1]@
    &&& v.fa_method@ == t[q1 + 1]@
    &&& v.fa_percentage@ == t[q1 + 2]@
    &&& v.fa_profile@ == t[q1 + 3]@
    &&& opt_text(v.model_code) == if c.server_version >= MIN_SERVER_VER_MODELS_SUPPORT { Some(t[q1 + 4]@) } else { None::<Seq<char>> }
    &&& v.good_till_date@ == t[q2]@
    &&& v.rule80a@ == t[q2 + 1]@
    &&& float_view(v.percent_offset) == (t[q2 + 2]@, true)
    &&& v.settling_firm@ == t[q2 + 3]@
    &&& v.short_sale_slot == field_i32(t[q2 + 4]@)
    &&& v.designated_location@ == t[q2 + 5]@
    &&& v.exempt_code == if c.server_version != MIN_SERVER_VER_SSHORTX_OLD && c.version >= 23 { Some(field_i32(t[q3]@)) } else { None::<i32> }
    &&& v.auction_strategy == if c.open { AuctionStrategy::from_code(field_i32(t[q4]@) as int) } else { None::<AuctionStrategy> }
    &&& float_view(v.starting_price) == (t[q5]@, true)
    &&& float_view(v.stock_ref_price) == (t[q5 + 1]@, true)
    &&& float_view(v.delta) == (t[q5 + 2]@, true)
    &&& float_view(v.stock_range_lower) == (t[q5 + 3]@, true)
    &&& float_view(v.stock_range_upper) == (t[q5 + 4]@, true)
    &&& v.display_size == field_i32(t[q5 + 5]@)
}

/// Reads `OrderTerms` at `p0`; gives it and where the reading ends.
#[verifier::rlimit(40)]
fn read_terms(c: OrderCtx, fields: &[String], p0: usize) -> (r: (OrderTerms, usize))
    requires
        p0 <= fields.len(),
        terms_enough(c, fields@, p0 as int),
    ensures
        r.1 == clamp(fields@, terms_end(c, fields@, p0 as int)),
        terms_read(c, fields@, p0 as int, r.0),
{
    let mut p = p0;
    let discretionary_amt = take_float(fields, &mut p, false);
    let good_after_time = take_text(fields, &mut p);
    if c.open {
        skip_field(fields, &mut p);
    }
    let fa_group = take_text(fields, &mut p);
    let fa_method = take_text(fields, &mut p);
    let fa_percentage = take_text(fields, &mut p);
    let fa_profile = take_text(fields, &mut p);
    let model_code = if c.server_version >= MIN_SERVER_VER_MODELS_SUPPORT { Some(take_text(fields, &mut p)) } else { None };
    let good_till_date = take_text(fields, &mut p);
    let rule80a = take_text(fields, &mut p);
    let percent_offset = take_float(fields, &mut p, true);
    let settling_firm = take_text(fields, &mut p);
    let short_sale_slot = take_i32(fields, &mut p);
    let designated_location = take_text(fields, &mut p);
    if c.server_version == MIN_SERVER_VER_SSHORTX_OLD {
        skip_field(fields, &mut p);
    }
    let exempt_code = if c.server_version != MIN_SERVER_VER_SSHORTX_OLD && c.version >= 23 { Some(take_i32(fields, &mut p)) } else { None };
    let auction_strategy = if c.open { Some(take_auction_strategy(fields, &mut p)) } else { None };
    let starting_price = take_float(fields, &mut p, true);
    let stock_ref_price = take_float(fields, &mut p, true);
    let delta = take_float(fields, &mut p, true);
    let stock_range_lower = take_float(fields, &mut p, true);
    let stock_range_upper = take_float(fields, &mut p, true);
    let display_size = take_i32(fields, &mut p);
    (OrderTerms { discretionary_amt, good_after_time, fa_group, fa_method, fa_percentage, fa_profile, model_code, good_till_date, rule80a, percent_offset, settling_firm, short_sale_slot, designated_location, exempt_code, auction_strategy, starting_price, stock_ref_price, delta, stock_range_lower, stock_range_upper, display_size }, p)
}

/// The order values from the block-order flag to the delta-neutral aux price.
#[derive(Clone, Debug)]
pub struct OrderFlags {
    pub block_order: Option<bool>,
    pub sweep_to_fill: bool,
    pub all_or_none: bool,
    pub min_qty: i32,
    pub oca_type: i32,
    pub e_trade_only: Option<bool>,
    pub firm_quote_only: Option<bool>,
    pub nbbo_price_cap: Option<FloatText>,
    pub parent_id: Option<i32>,
    pub trigger_method: i32,
    pub volatility: FloatText,
    pub volatility_type: i32,
    pub delta_neutral_order_type: String,
    pub delta_neutral_aux_price: FloatText,
}

/// Where the reading of `OrderFlags` that starts at `p` ends.
pub open spec fn flags_end(c: OrderCtx, t: Seq<String>, p: int) -> int {
    let q1 = p + flag_int(c.open);
    let q2 = q1 + 4 + flag_int(c.open);
    let q3 = q2 + flag_int(c.open);
    let q4 = q3 + flag_int(c.open);
    let q5 = q4 + flag_int(c.open);
    q5 + 5
}

/// Where the `delta_neutral_order_type` field of `OrderFlags` is.
pub open spec fn flags_delta_neutral_order_type_at(c: OrderCtx, t: Seq<String>, p: int) -> int {
    let q1 = p + flag_int(c.open);
    let q2 = q1 + 4 + flag_int(c.open);
    let q3 = q2 + flag_int(c.open);
    let q4 = q3 + flag_int(c.open);
    let q5 = q4 + flag_int(c.open);
    q5 + 3
}

/// Whether the fields hold what reading `OrderFlags` at `p` takes: every field but a flag
/// must be there, and an enumeration must hold one of its codes.
pub open spec fn flags_enough(c: OrderCtx, t: Seq<String>, p: int) -> bool {
    let q1 = p + flag_int(c.open);
    let q2 = q1 + 4 + flag_int(c.open);
    let q3 = q2 + flag_int(c.open);
    let q4 = q3 + flag_int(c.open);
    let q5 = q4 + flag_int(c.open);
    &&& q5 + 4 < t.len()
}

/// The values that reading `OrderFlags` at `p` gives.
pub open spec fn flags_read(c: OrderCtx, t: Seq<String>, p: int, v: OrderFlags) -> bool {
    let q1 = p + flag_int(c.open);
    let q2 = q1 + 4 + flag_int(c.open);
    let q3 = q2 + flag_int(c.open);
    let q4 = q3 + flag_int(c.open);
    let q5 = q4 + flag_int(c.open);
    &&& v.block_order == if c.open { Some(bool_at(t, p)) } else { None::<bool> }
    &&& v.sweep_to_fill == bool_at(t, q1)
    &&& v.all_or_none == bool_at(t, q1 + 1)
    &&& v.min_qty == field_i32_show_unset(t[q1 + 2]@)
    &&& v.oca_type == field_i32(t[q1 + 3]@)
    &&& v.e_trade_only == if c.open { Some(bool_at(t, q1 + 4)) } else { None::<bool> }
    &&& v.firm_quote_only == if c.open { Some(bool_at(t, q2)) } else { None::<bool> }
    &&& opt_float(v.nbbo_price_cap) == if c.open { Some((t[q3]@, true)) } else { None::<(Seq<char>, bool)> }
    &&& v.parent_id == if c.open { Some(field_i32(t[q4]@)) } else { None::<i32> }
    &&& v.trigger_method == field_i32(t[q5]@)
    &&& float_view(v.volatility) == (t[q5 + 1]@, true)
    &&& v.volatility_type == field_i32(t[q5 + 2]@)
    &&& v.delta_neutral_order_type@ == t[q5 + 3]@
    &&& float_view(v.delta_neutral_aux_price) == (t[q5 + 4]@, true)
}

/// Reads `OrderFlags` at `p0`; gives it and where the reading ends.
#[verifier::rlimit(40)]
fn read_flags(c: OrderCtx, fields: &[String], p0: usize) -> (r: (OrderFlags, usize))
    requires
        p0 <= fields.len(),
        flags_enough(c, fields@, p0 as int),
    ensures
        r.1 == clamp(fields@, flags_end(c, fields@, p0 as int)),
        flags_read(c, fields@, p0 as int, r.0),
{
    let mut p = p0;
    let block_order = if c.open { Some(take_bool(fields, &mut p)) } else { None };
    let sweep_to_fill = take_bool(fields, &mut p);
    let all_or_none = take_bool(fields, &mut p);
    let min_qty = take_i32_show_unset(fields, &mut p);
    let oca_type = take_i32(fields, &mut p);
    let e_trade_only = if c.open { Some(take_bool(fields, &mut p)) } else { None };
    let firm_quote_only = if c.open { Some(take_bool(fields, &mut p)) } else { None };
    let nbbo_price_cap = if c.open { Some(take_float(fields, &mut p, true)) } else { None };
    let parent_id = if c.open { Some(take_i32(fields, &mut p)) } else { None };
    let trigger_method = take_i32(fields, &mut p);
    let volatility = take_float(fields, &mut p, true);
    let volatility_type = take_i32(fields, &mut p);
    let delta_neutral_order_type = take_text(fields, &mut p);
    let delta_neutral_aux_price = take_float(fields, &mut p, true);
    (OrderFlags { block_order, sweep_to_fill, all_or_none, min_qty, oca_type, e_trade_only, firm_quote_only, nbbo_price_cap, parent_id, trigger_method, volatility, volatility_type, delta_neutral_order_type, delta_neutral_aux_price }, p)
}

/// The delta-neutral order values, read where its order type is set, then the trail and basis-point values and the combo legs' description and count.
#[derive(Clone, Debug)]
pub struct OrderVolTail {
    pub delta_neutral_con_id: Option<i32>,
    pub delta_neutral_settling_firm: Option<String>,
    pub delta_neutral_clearing_account: Option<String>,
    pub delta_neutral_clearing_intent: Option<String>,
    pub delta_neutral_open_close: Option<String>,
    pub delta_neutral_short_sale: Option<bool>,
    pub delta_neutral_short_sale_slot: Option<i32>,
    pub delta_neutral_designated_location: Option<String>,
    pub continuous_update: bool,
    pub reference_price_type: i32,
    pub trail_stop_price: FloatText,
    pub trailing_percent: Option<FloatText>,
    pub basis_points: Option<FloatText>,
    pub basis_points_type: Option<i32>,
    pub combo_legs_descrip: String,
    pub combo_legs_count: Option<i32>,
}

/// Where the reading of `OrderVolTail` that starts at `p` ends.
pub open spec fn vol_tail_end(c: OrderCtx, dn: bool, t: Seq<String>, p: int) -> int {
    let q1 = p + flag_int(c.version >= 27 && dn);
    let q2 = q1 + flag_int(c.version >= 27 && dn && c.open);
    let q3 = q2 + flag_int(c.version >= 27 && dn && c.open);
    let q4 = q3 + flag_int(c.version >= 27 && dn && c.open);
    let q5 = q4 + flag_int(c.version >= 31 && dn && c.open);
    let q6 = q5 + flag_int(c.version >= 31 && dn);
    let q7 = q6 + flag_int(c.version >= 31 && dn);
    let q8 = q7 + flag_int(c.version >= 31 && dn);
    let q9 = q8 + 3 + flag_int(c.version >= 30);
    let q10 = q9 + flag_int(c.open);
    let q11 = q10 + flag_int(c.open);
    let q12 = q11 + 1 + flag_int(c.version >= 29);
    q12
}

/// Where the `combo_legs_count` field of `OrderVolTail` is.
pub open spec fn vol_tail_combo_legs_count_at(c: OrderCtx, dn: bool, t: Seq<String>, p: int) -> int {
    let q1 = p + flag_int(c.version >= 27 && dn);
    let q2 = q1 + flag_int(c.version >= 27 && dn && c.open);
    let q3 = q2 + flag_int(c.version >= 27 && dn && c.open);
    let q4 = q3 + flag_int(c.version >= 27 && dn && c.open);
    let q5 = q4 + flag_int(c.version >= 31 && dn && c.open);
    let q6 = q5 + flag_int(c.version >= 31 && dn);
    let q7 = q6 + flag_int(c.version >= 31 && dn);
    let q8 = q7 + flag_int(c.version >= 31 && dn);
    let q9 = q8 + 3 + flag_int(c.version >= 30);
    let q10 = q9 + flag_int(c.open);
    let q11 = q10 + flag_int(c.open);
    q11 + 1
}

/// Whether the fields hold what reading `OrderVolTail` at `p` takes: every field but a flag
/// must be there, and an enumeration must hold one of its codes.
pub open spec fn vol_tail_enough(c: OrderCtx, dn: bool, t: Seq<String>, p: int) -> bool {
    let q1 = p + flag_int(c.version >= 27 && dn);
    let q2 = q1 + flag_int(c.version >= 27 && dn && c.open);
    let q3 = q2 + flag_int(c.version >= 27 && dn && c.open);
    let q4 = q3 + flag_int(c.version >= 27 && dn && c.open);
    let q5 = q4 + flag_int(c.version >= 31 && dn && c.open);
    let q6 = q5 + flag_int(c.version >= 31 && dn);
    let q7 = q6 + flag_int(c.version >= 31 && dn);
    let q8 = q7 + flag_int(c.version >= 31 && dn);
    let q9 = q8 + 3 + flag_int(c.version >= 30);
    let q10 = q9 + flag_int(c.open);
    let q11 = q10 + flag_int(c.open);
    let q12 = q11 + 1 + flag_int(c.version >= 29);
    &&& q11 < t.len()
    &&& c.version >= 29 ==> q11 + 1 < t.len()
}

/// The values that reading `OrderVolTail` at `p` gives.
pub open spec fn vol_tail_read(c: OrderCtx, dn: bool, t: Seq<String>, p: int, v: OrderVolTail) -> bool {
    let q1 = p + flag_int(c.version >= 27 && dn);
    let q2 = q1 + flag_int(c.version >= 27 && dn && c.open);
    let q3 = q2 + flag_int(c.version >= 27 && dn && c.open);
    let q4 = q3 + flag_int(c.version >= 27 && dn && c.open);
    let q5 = q4 + flag_int(c.version >= 31 && dn && c.open);
    let q6 = q5 + flag_int(c.version >= 31 && dn);
    let q7 = q6 + flag_int(c.version >= 31 && dn);
    let q8 = q7 + flag_int(c.version >= 31 && dn);
    let q9 = q8 + 3 + flag_int(c.version >= 30);
    let q10 = q9 + flag_int(c.open);
    let q11 = q10 + flag_int(c.open);
    let q12 = q11 + 1 + flag_int(c.version >= 29);
    &&& v.delta_neutral_con_id == if c.version >= 27 && dn { Some(field_i32(t[p]@)) } else { None::<i32> }
    &&& opt_text(v.delta_neutral_settling_firm) == if c.version >= 27 && dn && c.open { Some(t[q1]@) } else { None::<Seq<char>> }
    &&& opt_text(v.delta_neutral_clearing_account) == if c.version >= 27 && dn && c.open { Some(t[q2]@) } else { None::<Seq<char>> }
    &&& opt_text(v.delta_neutral_clearing_intent) == if c.version >= 27 && dn && c.open { Some(t[q3]@) } else { None::<Seq<char>> }
    &&& opt_text(v.delta_neutral_open_close) == if c.version >= 31 && dn && c.open { Some(t[q4]@) } else { None::<Seq<char>> }
    &&& v.delta_neutral_short_sale == if c.version >= 31 && dn { Some(bool_at(t, q5)) } else { None::<bool> }
    &&& v.delta_neutral_short_sale_slot == if c.version >= 31 && dn { Some(field_i32(t[q6]@)) } else { None::<i32> }
    &&& opt_text(v.delta_neutral_designated_location) == if c.version >= 31 && dn { Some(t[q7]@) } else { None::<Seq<char>> }
    &&& v.continuous_update == bool_at(t, q8)
    &&& v.reference_price_type == field_i32(t[q8 + 1]@)
    &&& float_view(v.trail_stop_price) == (t[q8 + 2]@, true)
    &&& opt_float(v.trailing_percent) == if c.version >= 30 { Some((t[q8 + 3]@, true)) } else { None::<(Seq<char>, bool)> }
    &&& opt_float(v.basis_points) == if c.open { Some((t[q9]@, true)) } else { None::<(Seq<char>, bool)> }
    &&& v.basis_points_type == if c.open { Some(field_i32_show_unset(t[q10]@)) } else { None::<i32> }
    &&& v.combo_legs_descrip@ == t[q11]@
    &&& v.combo_legs_count == if c.version >= 29 { Some(field_i32(t[q11 + 1]@)) } else { None::<i32> }
}

/// Reads `OrderVolTail` at `p0`; gives it and where the reading ends.
#[verifier::rlimit(40)]
fn read_vol_tail(c: OrderCtx, dn: bool, fields: &[String], p0: usize) -> (r: (OrderVolTail, usize))
    requires
        p0 <= fields.len(),
        vol_tail_enough(c, dn, fields@, p0 as int),
    ensures
        r.1 == clamp(fields@, vol_tail_end(c, dn, fields@, p0 as int)),
        vol_tail_read(c, dn, fields@, p0 as int, r.0),
{
    let mut p = p0;
    let delta_neutral_con_id = if c.version >= 27 && dn { Some(take_i32(fields, &mut p)) } else { None };
    let delta_neutral_settling_firm = if c.version >= 27 && dn && c.open { Some(take_text(fields, &mut p)) } else { None };
    let delta_neutral_clearing_account = if c.version >= 27 && dn && c.open { Some(take_text(fields, &mut p)) } else { None };
    let delta_neutral_clearing_intent = if c.version >= 27 && dn && c.open { Some(take_text(fields, &mut p)) } else { None };
    let delta_neutral_open_close = if c.version >= 31 && dn && c.open { Some(take_text(fields, &mut p)) } else { None };
    let delta_neutral_short_sale = if c.version >= 31 && dn { Some(take_bool(fields, &mut p)) } else { None };
    let delta_neutral_short_sale_slot = if c.version >= 31 && dn { Some(take_i32(fields, &mut p)) } else { None };
    let delta_neutral_designated_location = if c.version >= 31 && dn { Some(take_text(fields, &mut p)) } else { None };
    let continuous_update = take_bool(fields, &mut p);
    let reference_price_type = take_i32(fields, &mut p);
    let trail_stop_price = take_float(fields, &mut p, true);
    let trailing_percent = if c.version >= 30 { Some(take_float(fields, &mut p, true)) } else { None };
    let basis_points = if c.open { Some(take_float(fields, &mut p, true)) } else { None };
    let basis_points_type = if c.open { Some(take_i32_show_unset(fields, &mut p)) } else { None };
    let combo_legs_descrip = take_text(fields, &mut p);
    let combo_legs_count = if c.version >= 29 { Some(take_i32(fields, &mut p)) } else { None };
    (OrderVolTail { delta_neutral_con_id, delta_neutral_settling_firm, delta_neutral_clearing_account, delta_neutral_clearing_intent, delta_neutral_open_close, delta_neutral_short_sale, delta_neutral_short_sale_slot, delta_neutral_designated_location, continuous_update, reference_price_type, trail_stop_price, trailing_percent, basis_points, basis_points_type, combo_legs_descrip, combo_legs_count }, p)
}

/// The count of the order's combo leg prices.
#[derive(Clone, Debug)]
pub struct OrderComboCount {
    pub order_combo_legs_count: i32,
}

/// Where the reading of `OrderComboCount` that starts at `p` ends.
pub open spec fn combo_count_end(c: OrderCtx, t: Seq<String>, p: int) -> int {
    p + 1
}

/// Where the `order_combo_legs_count` field of `OrderComboCount` is.
pub open spec fn combo_count_order_combo_legs_count_at(c: OrderCtx, t: Seq<String>, p: int) -> int {
    p
}

/// Whether the fields hold what reading `OrderComboCount` at `p` takes: every field but a flag
/// must be there, and an enumeration must hold one of its codes.
pub open spec fn combo_count_enough(c: OrderCtx, t: Seq<String>, p: int) -> bool {
    &&& p < t.len()
}

/// The values that reading `OrderComboCount` at `p` gives.
pub open spec fn combo_count_read(c: OrderCtx, t: Seq<String>, p: int, v: OrderComboCount) -> bool {
    &&& v.order_combo_legs_count == field_i32(t[p]@)
}

/// Reads `OrderComboCount` at `p0`; gives it and where the reading ends.
#[verifier::rlimit(40)]
fn read_combo_count(c: OrderCtx, fields: &[String], p0: usize) -> (r: (OrderComboCount, usize))
    requires
        p0 <= fields.len(),
        combo_count_enough(c, fields@, p0 as int),
    ensures
        r.1 == clamp(fields@, combo_count_end(c, fields@, p0 as int)),
        combo_count_read(c, fields@, p0 as int, r.0),
{
    let mut p = p0;
    let order_combo_legs_count = take_i32(fields, &mut p);
    (OrderComboCount { order_combo_legs_count }, p)
}

/// The count of the smart combo routing parameters.
#[derive(Clone, Debug)]
pub struct SmartComboCount {
    pub smart_combo_routing_params_count: Option<i32>,
}

/// Where the reading of `SmartComboCount` that starts at `p` ends.
pub open spec fn smart_count_end(c: OrderCtx, t: Seq<String>, p: int) -> int {
    let q1 = p + flag_int(c.version >= 26);
    q1
}

/// Where the `smart_combo_routing_params_count` field of `SmartComboCount` is.
pub open spec fn smart_count_smart_combo_routing_params_count_at(c: OrderCtx, t: Seq<String>, p: int) -> int {
    p
}

/// Whether the fields hold what reading `SmartComboCount` at `p` takes: every field but a flag
/// must be there, and an enumeration must hold one of its codes.
pub open spec fn smart_count_enough(c: OrderCtx, t: Seq<String>, p: int) -> bool {
    let q1 = p + flag_int(c.version >= 26);
    &&& c.version >= 26 ==> p < t.len()
}

/// The values that reading `SmartComboCount` at `p` gives.
pub open spec fn smart_count_read(c: OrderCtx, t: Seq<String>, p: int, v: SmartComboCount) -> bool {
    let q1 = p + flag_int(c.version >= 26);
    &&& v.smart_combo_routing_params_count == if c.version >= 26 { Some(field_i32(t[p]@)) } else { None::<i32> }
}

/// Reads `SmartComboCount` at `p0`; gives it and where the reading ends.
#[verifier::rlimit(40)]
fn read_smart_count(c: OrderCtx, fields: &[String], p0: usize) -> (r: (SmartComboCount, usize))
    requires
        p0 <= fields.len(),
        smart_count_enough(c, fields@, p0 as int),
    ensures
        r.1 == clamp(fields@, smart_count_end(c, fields@, p0 as int)),
        smart_count_read(c, fields@, p0 as int, r.0),
{
    let mut p = p0;
    let smart_combo_routing_params_count = if c.version >= 26 { Some(take_i32(fields, &mut p)) } else { None };
    (SmartComboCount { smart_combo_routing_params_count }, p)
}

/// The scale order sizes and price increment.
#[derive(Clone, Debug)]
pub struct OrderScale {
    pub scale_init_level_size: i32,
    pub scale_subs_level_size: Option<i32>,
    pub scale_price_increment: FloatText,
}

/// Where the reading of `OrderScale` that starts at `p` ends.
pub open spec fn scale_end(c: OrderCtx, t: Seq<String>, p: int) -> int {
    let q1 = p + 1 + flag_int(c.version >= 20);
    q1 + 1
}

/// Where the `scale_price_increment` field of `OrderScale` is.
pub open spec fn scale_scale_price_increment_at(c: OrderCtx, t: Seq<String>, p: int) -> int {
    let q1 = p + 1 + flag_int(c.version >= 20);
    q1
}

/// Whether the fields hold what reading `OrderScale` at `p` takes: every field but a flag
/// must be there, and an enumeration must hold one of its codes.
pub open spec fn scale_enough(c: OrderCtx, t: Seq<String>, p: int) -> bool {
    let q1 = p + 1 + flag_int(c.version >= 20);
    &&& q1 < t.len()
}

/// The values that reading `OrderScale` at `p` gives.
pub open spec fn scale_read(c: OrderCtx, t: Seq<String>, p: int, v: OrderScale) -> bool {
    let q1 = p + 1 + flag_int(c.version >= 20);
    &&& v.scale_init_level_size == field_i32_show_unset(t[p]@)
    &&& v.scale_subs_level_size == if c.version >= 20 { Some(field_i32_show_unset(t[p + 1]@)) } else { None::<i32> }
    &&& float_view(v.scale_price_increment) == (t[q1]@, true)
}

/// Reads `OrderScale` at `p0`; gives it and where the reading ends.
#[verifier::rlimit(40)]
fn read_scale(c: OrderCtx, fields: &[String], p0: usize) -> (r: (OrderScale, usize))
    requires
        p0 <= fields.len(),
        scale_enough(c, fields@, p0 as int),
    ensures
        r.1 == clamp(fields@, scale_end(c, fields@, p0 as int)),
        scale_read(c, fields@, p0 as int, r.0),
{
    let mut p = p0;
    let scale_init_level_size = take_i32_show_unset(fields, &mut p);
    let scale_subs_level_size = if c.version >= 20 { Some(take_i32_show_unset(fields, &mut p)) } else { None };
    let scale_price_increment = take_float(fields, &mut p, true);
    (OrderScale { scale_init_level_size, scale_subs_level_size, scale_price_increment }, p)
}

/// The scale values that follow a positive price increment, then the hedge type.
#[derive(Clone, Debug)]
pub struct OrderScaleTail {
    pub scale_price_adjust_value: Option<FloatText>,
    pub scale_price_adjust_interval: Option<i32>,
    pub scale_profit_offset: Option<FloatText>,
    pub scale_auto_reset: Option<bool>,
    pub scale_init_position: Option<i32>,
    pub scale_init_fill_qty: Option<i32>,
    pub scale_random_percent: Option<bool>,
    pub hedge_type: Option<String>,
}

/// Where the reading of `OrderScaleTail` that starts at `p` ends.
pub open spec fn scale_tail_end(c: OrderCtx, positive: bool, t: Seq<String>, p: int) -> int {
    let q1 = p + flag_int(c.version >= 28 && positive);
    let q2 = q1 + flag_int(c.version >= 28 && positive);
    let q3 = q2 + flag_int(c.version >= 28 && positive);
    let q4 = q3 + flag_int(c.version >= 28 && positive);
    let q5 = q4 + flag_int(c.version >= 28 && positive);
    let q6 = q5 + flag_int(c.version >= 28 && positive);
    let q7 = q6 + flag_int(c.version >= 28 && positive);
    let q8 = q7 + flag_int(c.version >= 24);
    q8
}

/// Where the `hedge_type` field of `OrderScaleTail` is.
pub open spec fn scale_tail_hedge_type_at(c: OrderCtx, positive: bool, t: Seq<String>, p: int) -> int {
    let q1 = p + flag_int(c.version >= 28 && positive);
    let q2 = q1 + flag_int(c.version >= 28 && positive);
    let q3 = q2 + flag_int(c.version >= 28 && positive);
    let q4 = q3 + flag_int(c.version >= 28 && positive);
    let q5 = q4 + flag_int(c.version >= 28 && positive);
    let q6 = q5 + flag_int(c.version >= 28 && positive);
    let q7 = q6 + flag_int(c.version >= 28 && positive);
    q7
}

/// Whether the fields hold what reading `OrderScaleTail` at `p` takes: every field but a flag
/// must be there, and an enumeration must hold one of its codes.
pub open spec fn scale_tail_enough(c: OrderCtx, positive: bool, t: Seq<String>, p: int) -> bool {
    let q1 = p + flag_int(c.version >= 28 && positive);
    let q2 = q1 + flag_int(c.version >= 28 && positive);
    let q3 = q2 + flag_int(c.version >= 28 && positive);
    let q4 = q3 + flag_int(c.version >= 28 && positive);
    let q5 = q4 + flag_int(c.version >= 28 && positive);
    let q6 = q5 + flag_int(c.version >= 28 && positive);
    let q7 = q6 + flag_int(c.version >= 28 && positive);
    let q8 = q7 + flag_int(c.version >= 24);
    &&& c.version >= 28 && positive ==> p < t.len()
    &&& c.version >= 28 && positive ==> q1 < t.len()
    &&& c.version >= 28 && positive ==> q2 < t.len()
    &&& c.version >= 28 && positive ==> q4 < t.len()
    &&& c.version >= 28 && positive ==> q5 < t.len()
    &&& c.version >= 24 ==> q7 < t.len()
}

/// The values that reading `OrderScaleTail` at `p` gives.
pub open spec fn scale_tail_read(c: OrderCtx, positive: bool, t: Seq<String>, p: int, v: OrderScaleTail) -> bool {
    let q1 = p + flag_int(c.version >= 28 && positive);
    let q2 = q1 + flag_int(c.version >= 28 && positive);
    let q3 = q2 + flag_int(c.version >= 28 && positive);
    let q4 = q3 + flag_int(c.version >= 28 && positive);
    let q5 = q4 + flag_int(c.version >= 28 && positive);
    let q6 = q5 + flag_int(c.version >= 28 && positive);
    let q7 = q6 + flag_int(c.version >= 28 && positive);
    let q8 = q7 + flag_int(c.version >= 24);
    &&& opt_float(v.scale_price_adjust_value) == if c.version >= 28 && positive { Some((t[p]@, true)) } else { None::<(Seq<char>, bool)> }
    &&& v.scale_price_adjust_interval == if c.version >= 28 && positive { Some(field_i32_show_unset(t[q1]@)) } else { None::<i32> }
    &&& opt_float(v.scale_profit_offset) == if c.version >= 28 && positive { Some((t[q2]@, true)) } else { None::<(Seq<char>, bool)> }
    &&& v.scale_auto_reset == if c.version >= 28 && positive { Some(bool_at(t, q3)) } else { None::<bool> }
    &&& v.scale_init_position == if c.version >= 28 && positive { Some(field_i32_show_unset(t[q4]@)) } else { None::<i32> }
    &&& v.scale_init_fill_qty == if c.version >= 28 && positive { Some(field_i32_show_unset(t[q5]@)) } else { None::<i32> }
    &&& v.scale_random_percent == if c.version >= 28 && positive { Some(bool_at(t, q6)) } else { None::<bool> }
    &&& opt_text(v.hedge_type) == if c.version >= 24 { Some(t[q7]@) } else { None::<Seq<char>> }
}

/// Reads `OrderScaleTail` at `p0`; gives it and where the reading ends.
#[verifier::rlimit(40)]
fn read_scale_tail(c: OrderCtx, positive: bool, fields: &[String], p0: usize) -> (r: (OrderScaleTail, usize))
    requires
        p0 <= fields.len(),
        scale_tail_enough(c, positive, fields@, p0 as int),
    ensures
        r.1 == clamp(fields@, scale_tail_end(c, positive, fields@, p0 as int)),
        scale_tail_read(c, positive, fields@, p0 as int, r.0),
{
    let mut p = p0;
    let scale_price_adjust_value = if c.version >= 28 && positive { Some(take_float(fields, &mut p, true)) } else { None };
    let scale_price_adjust_interval = if c.version >= 28 && positive { Some(take_i32_show_unset(fields, &mut p)) } else { None };
    let scale_profit_offset = if c.version >= 28 && positive { Some(take_float(fields, &mut p, true)) } else { None };
    let scale_auto_reset = if c.version >= 28 && positive { Some(take_bool(fields, &mut p)) } else { None };
    let scale_init_position = if c.version >= 28 && positive { Some(take_i32_show_unset(fields, &mut p)) } else { None };
    let scale_init_fill_qty = if c.version >= 28 && positive { Some(take_i32_show_unset(fields, &mut p)) } else { None };
    let scale_random_percent = if c.version >= 28 && positive { Some(take_bool(fields, &mut p)) } else { None };
    let hedge_type = if c.version >= 24 { Some(take_text(fields, &mut p)) } else { None };
    (OrderScaleTail { scale_price_adjust_value, scale_price_adjust_interval, scale_profit_offset, scale_auto_reset, scale_init_position, scale_init_fill_qty, scale_random_percent, hedge_type }, p)
}

/// The hedge parameter, read where the hedge type is set, then the routing and clearing values.
#[derive(Clone, Debug)]
pub struct OrderClearing {
    pub hedge_param: Option<String>,
    pub opt_out_smart_routing: Option<bool>,
    pub clearing_account: String,
    pub clearing_intent: String,
    pub not_held: Option<bool>,
    pub delta_neutral_contract_present: Option<bool>,
}

/// Where the reading of `OrderClearing` that starts at `p` ends.
pub open spec fn clearing_end(c: OrderCtx, hedge: bool, t: Seq<String>, p: int) -> int {
    let q1 = p + flag_int(hedge);
    let q2 = q1 + flag_int(c.version >= 25 && c.open);
    let q3 = q2 + 2 + flag_int(c.version >= 22);
    let q4 = q3 + flag_int(c.version >= 20);
    q4
}

/// Where the `delta_neutral_contract_present` field of `OrderClearing` is.
pub open spec fn clearing_delta_neutral_contract_present_at(c: OrderCtx, hedge: bool, t: Seq<String>, p: int) -> int {
    let q1 = p + flag_int(hedge);
    let q2 = q1 + flag_int(c.version >= 25 && c.open);
    let q3 = q2 + 2 + flag_int(c.version >= 22);
    q3
}

/// Whether the fields hold what reading `OrderClearing` at `p` takes: every field but a flag
/// must be there, and an enumeration must hold one of its codes.
pub open spec fn clearing_enough(c: OrderCtx, hedge: bool, t: Seq<String>, p: int) -> bool {
    let q1 = p + flag_int(hedge);
    let q2 = q1 + flag_int(c.version >= 25 && c.open);
    let q3 = q2 + 2 + flag_int(c.version >= 22);
    let q4 = q3 + flag_int(c.version >= 20);
    &&& q2 + 1 < t.len()
}

/// The values that reading `OrderClearing` at `p` gives.
pub open spec fn clearing_read(c: OrderCtx, hedge: bool, t: Seq<String>, p: int, v: OrderClearing) -> bool {
    let q1 = p + flag_int(hedge);
    let q2 = q1 + flag_int(c.version >= 25 && c.open);
    let q3 = q2 + 2 + flag_int(c.version >= 22);
    let q4 = q3 + flag_int(c.version >= 20);
    &&& opt_text(v.hedge_param) == if hedge { Some(t[p]@) } else { None::<Seq<char>> }
    &&& v.opt_out_smart_routing == if c.version >= 25 && c.open { Some(bool_at(t, q1)) } else { None::<bool> }
    &&& v.clearing_account@ == t[q2]@
    &&& v.clearing_intent@ == t[q2 + 1]@
    &&& v.not_held == if c.version >= 22 { Some(bool_at(t, q2 + 2)) } else { None::<bool> }
    &&& v.delta_neutral_contract_present == if c.version >= 20 { Some(bool_at(t, q3)) } else { None::<bool> }
}

/// Reads `OrderClearing` at `p0`; gives it and where the reading ends.
#[verifier::rlimit(40)]
fn read_clearing(c: OrderCtx, hedge: bool, fields: &[String], p0: usize) -> (r: (OrderClearing, usize))
    requires
        p0 <= fields.len(),
        clearing_enough(c, hedge, fields@, p0 as int),
    ensures
        r.1 == clamp(fields@, clearing_end(c, hedge, fields@, p0 as int)),
        clearing_read(c, hedge, fields@, p0 as int, r.0),
{
    let mut p = p0;
    let hedge_param = if hedge { Some(take_text(fields, &mut p)) } else { None };
    let opt_out_smart_routing = if c.version >= 25 && c.open { Some(take_bool(fields, &mut p)) } else { None };
    let clearing_account = take_text(fields, &mut p);
    let clearing_intent = take_text(fields, &mut p);
    let not_held = if c.version >= 22 { Some(take_bool(fields, &mut p)) } else { None };
    let delta_neutral_contract_present = if c.version >= 20 { Some(take_bool(fields, &mut p)) } else { None };
    (OrderClearing { hedge_param, opt_out_smart_routing, clearing_account, clearing_intent, not_held, delta_neutral_contract_present }, p)
}

/// The delta-neutral contract, read where it is present, then the algo strategy.
#[derive(Clone, Debug)]
pub struct OrderDeltaNeutral {
    pub delta_neutral_contract_con_id: Option<i32>,
    pub delta_neutral_contract_delta: Option<FloatText>,
    pub delta_neutral_contract_price: Option<FloatText>,
    pub algo_strategy: Option<String>,
}

/// Where the reading of `OrderDeltaNeutral` that starts at `p` ends.
pub open spec fn delta_neutral_end(c: OrderCtx, present: bool, t: Seq<String>, p: int) -> int {
    let q1 = p + flag_int(present);
    let q2 = q1 + flag_int(present);
    let q3 = q2 + flag_int(present);
    let q4 = q3 + flag_int(c.version >= 21);
    q4
}

/// Where the `algo_strategy` field of `OrderDeltaNeutral` is.
pub open spec fn delta_neutral_algo_strategy_at(c: OrderCtx, present: bool, t: Seq<String>, p: int) -> int {
    let q1 = p + flag_int(present);
    let q2 = q1 + flag_int(present);
    let q3 = q2 + flag_int(present);
    q3
}

/// Whether the fields hold what reading `OrderDeltaNeutral` at `p` takes: every field but a flag
/// must be there, and an enumeration must hold one of its codes.
pub open spec fn delta_neutral_enough(c: OrderCtx, present: bool, t: Seq<String>, p: int) -> bool {
    let q1 = p + flag_int(present);
    let q2 = q1 + flag_int(present);
    let q3 = q2 + flag_int(present);
    let q4 = q3 + flag_int(c.version >= 21);
    &&& present ==> p < t.len()
    &&& present ==> q1 < t.len()
    &&& present ==> q2 < t.len()
    &&& c.version >= 21 ==> q3 < t.len()
}

/// The values that reading `OrderDeltaNeutral` at `p` gives.
pub open spec fn delta_neutral_read(c: OrderCtx, present: bool, t: Seq<String>, p: int, v: OrderDeltaNeutral) -> bool {
    let q1 = p + flag_int(present);
    let q2 = q1 + flag_int(present);
    let q3 = q2 + flag_int(present);
    let q4 = q3 + flag_int(c.version >= 21);
    &&& v.delta_neutral_contract_con_id == if present { Some(field_i32(t[p]@)) } else { None::<i32> }
    &&& opt_float(v.delta_neutral_contract_delta) == if present { Some((t[q1]@, false)) } else { None::<(Seq<char>, bool)> }
    &&& opt_float(v.delta_neutral_contract_price) == if present { Some((t[q2]@, false)) } else { None::<(Seq<char>, bool)> }
    &&& opt_text(v.algo_strategy) == if c.version >= 21 { Some(t[q3]@) } else { None::<Seq<char>> }
}

/// Reads `OrderDeltaNeutral` at `p0`; gives it and where the reading ends.
#[verifier::rlimit(40)]
fn read_delta_neutral(c: OrderCtx, present: bool, fields: &[String], p0: usize) -> (r: (OrderDeltaNeutral, usize))
    requires
        p0 <= fields.len(),
        delta_neutral_enough(c, present, fields@, p0 as int),
    ensures
        r.1 == clamp(fields@, delta_neutral_end(c, present, fields@, p0 as int)),
        delta_neutral_read(c, present, fields@, p0 as int, r.0),
{
    let mut p = p0;
    let delta_neutral_contract_con_id = if present { Some(take_i32(fields, &mut p)) } else { None };
    let delta_neutral_contract_delta = if present { Some(take_float(fields, &mut p, false)) } else { None };
    let delta_neutral_contract_price = if present { Some(take_float(fields, &mut p, false)) } else { None };
    let algo_strategy = if c.version >= 21 { Some(take_text(fields, &mut p)) } else { None };
    (OrderDeltaNeutral { delta_neutral_contract_con_id, delta_neutral_contract_delta, delta_neutral_contract_price, algo_strategy }, p)
}

/// The count of the algo parameters, read where the algo strategy is set.
#[derive(Clone, Debug)]
pub struct AlgoCount {
    pub algo_params_count: Option<i32>,
}

/// Where the reading of `AlgoCount` that starts at `p` ends.
pub open spec fn algo_count_end(c: OrderCtx, algo: bool, t: Seq<String>, p: int) -> int {
    let q1 = p + flag_int(algo);
    q1
}

/// Where the `algo_params_count` field of `AlgoCount` is.
pub open spec fn algo_count_algo_params_count_at(c: OrderCtx, algo: bool, t: Seq<String>, p: int) -> int {
    p
}

/// Whether the fields hold what reading `AlgoCount` at `p` takes: every field but a flag
/// must be there, and an enumeration must hold one of its codes.
pub open spec fn algo_count_enough(c: OrderCtx, algo: bool, t: Seq<String>, p: int) -> bool {
    let q1 = p + flag_int(algo);
    &&& algo ==> p < t.len()
}

/// The values that reading `AlgoCount` at `p` gives.
pub open spec fn algo_count_read(c: OrderCtx, algo: bool, t: Seq<String>, p: int, v: AlgoCount) -> bool {
    let q1 = p + flag_int(algo);
    &&& v.algo_params_count == if algo { Some(field_i32(t[p]@)) } else { None::<i32> }
}

/// Reads `AlgoCount` at `p0`; gives it and where the reading ends.
#[verifier::rlimit(40)]
fn read_algo_count(c: OrderCtx, algo: bool, fields: &[String], p0: usize) -> (r: (AlgoCount, usize))
    requires
        p0 <= fields.len(),
        algo_count_enough(c, algo, fields@, p0 as int),
    ensures
        r.1 == clamp(fields@, algo_count_end(c, algo, fields@, p0 as int)),
        algo_count_read(c, algo, fields@, p0 as int, r.0),
{
    let mut p = p0;
    let algo_params_count = if algo { Some(take_i32(fields, &mut p)) } else { None };
    (AlgoCount { algo_params_count }, p)
}

/// The solicited flag, the order state and the randomize flags.
#[derive(Clone, Debug)]
pub struct OrderStateFields {
    pub solicited: Option<bool>,
    pub what_if: Option<bool>,
    pub status: String,
    pub init_margin_before: Option<String>,
    pub maint_margin_before: Option<String>,
    pub equity_with_loan_before: Option<String>,
    pub init_margin_change: Option<String>,
    pub maint_margin_change: Option<String>,
    pub equity_with_loan_change: Option<String>,
    pub init_margin_after: Option<String>,
    pub maint_margin_after: Option<String>,
    pub equity_with_loan_after: Option<String>,
    pub commission: Option<FloatText>,
    pub min_commission: Option<FloatText>,
    pub max_commission: Option<FloatText>,
    pub commission_currency: Option<String>,
    pub warning_text: Option<String>,
    pub randomize_size: Option<bool>,
    pub randomize_price: Option<bool>,
}

/// Where the reading of `OrderStateFields` that starts at `p` ends.
pub open spec fn state_end(c: OrderCtx, t: Seq<String>, p: int) -> int {
    let q1 = p + flag_int(c.version >= 33);
    let q2 = q1 + flag_int(c.open);
    let q3 = q2 + 1 + flag_int(c.open && c.server_version >= MIN_SERVER_VER_WHAT_IF_EXT_FIELDS);
    let q4 = q3 + flag_int(c.open && c.server_version >= MIN_SERVER_VER_WHAT_IF_EXT_FIELDS);
    let q5 = q4 + flag_int(c.open && c.server_version >= MIN_SERVER_VER_WHAT_IF_EXT_FIELDS);
    let q6 = q5 + flag_int(c.open && c.server_version >= MIN_SERVER_VER_WHAT_IF_EXT_FIELDS);
    let q7 = q6 + flag_int(c.open && c.server_version >= MIN_SERVER_VER_WHAT_IF_EXT_FIELDS);
    let q8 = q7 + flag_int(c.open && c.server_version >= MIN_SERVER_VER_WHAT_IF_EXT_FIELDS);
    let q9 = q8 + flag_int(c.open);
    let q10 = q9 + flag_int(c.open);
    let q11 = q10 + flag_int(c.open);
    let q12 = q11 + flag_int(c.open);
    let q13 = q12 + flag_int(c.open);
    let q14 = q13 + flag_int(c.open);
    let q15 = q14 + flag_int(c.open);
    let q16 = q15 + flag_int(c.open);
    let q17 = q16 + flag_int(c.version >= 34);
    let q18 = q17 + flag_int(c.version >= 34);
    q18
}

/// Whether the fields hold what reading `OrderStateFields` at `p` takes: every field but a flag
/// must be there, and an enumeration must hold one of its codes.
pub open spec fn state_enough(c: OrderCtx, t: Seq<String>, p: int) -> bool {
    let q1 = p + flag_int(c.version >= 33);
    let q2 = q1 + flag_int(c.open);
    let q3 = q2 + 1 + flag_int(c.open && c.server_version >= MIN_SERVER_VER_WHAT_IF_EXT_FIELDS);
    let q4 = q3 + flag_int(c.open && c.server_version >= MIN_SERVER_VER_WHAT_IF_EXT_FIELDS);
    let q5 = q4 + flag_int(c.open && c.server_version >= MIN_SERVER_VER_WHAT_IF_EXT_FIELDS);
    let q6 = q5 + flag_int(c.open && c.server_version >= MIN_SERVER_VER_WHAT_IF_EXT_FIELDS);
    let q7 = q6 + flag_int(c.open && c.server_version >= MIN_SERVER_VER_WHAT_IF_EXT_FIELDS);
    let q8 = q7 + flag_int(c.open && c.server_version >= MIN_SERVER_VER_WHAT_IF_EXT_FIELDS);
    let q9 = q8 + flag_int(c.open);
    let q10 = q9 + flag_int(c.open);
    let q11 = q10 + flag_int(c.open);
    let q12 = q11 + flag_int(c.open);
    let q13 = q12 + flag_int(c.open);
    let q14 = q13 + flag_int(c.open);
    let q15 = q14 + flag_int(c.open);
    let q16 = q15 + flag_int(c.open);
    let q17 = q16 + flag_int(c.version >= 34);
    let q18 = q17 + flag_int(c.version >= 34);
    &&& q2 < t.len()
    &&& c.open && c.server_version >= MIN_SERVER_VER_WHAT_IF_EXT_FIELDS ==> q2 + 1 < t.len()
    &&& c.open && c.server_version >= MIN_SERVER_VER_WHAT_IF_EXT_FIELDS ==> q3 < t.len()
    &&& c.open && c.server_version >= MIN_SERVER_VER_WHAT_IF_EXT_FIELDS ==> q4 < t.len()
    &&& c.open && c.server_version >= MIN_SERVER_VER_WHAT_IF_EXT_FIELDS ==> q5 < t.len()
    &&& c.open && c.server_version >= MIN_SERVER_VER_WHAT_IF_EXT_FIELDS ==> q6 < t.len()
    &&& c.open && c.server_version >= MIN_SERVER_VER_WHAT_IF_EXT_FIELDS ==> q7 < t.len()
    &&& c.open ==> q8 < t.len()
    &&& c.open ==> q9 < t.len()
    &&& c.open ==> q10 < t.len()
    &&& c.open ==> q11 < t.len()
    &&& c.open ==> q12 < t.len()
    &&& c.open ==> q13 < t.len()
    &&& c.open ==> q14 < t.len()
    &&& c.open ==> q15 < t.len()
}

/// The values that reading `OrderStateFields` at `p` gives.
pub open spec fn state_read(c: OrderCtx, t: Seq<String>, p: int, v: OrderStateFields) -> bool {
    let q1 = p + flag_int(c.version >= 33);
    let q2 = q1 + flag_int(c.open);
    let q3 = q2 + 1 + flag_int(c.open && c.server_version >= MIN_SERVER_VER_WHAT_IF_EXT_FIELDS);
    let q4 = q3 + flag_int(c.open && c.server_version >= MIN_SERVER_VER_WHAT_IF_EXT_FIELDS);
    let q5 = q4 + flag_int(c.open && c.server_version >= MIN_SERVER_VER_WHAT_IF_EXT_FIELDS);
    let q6 = q5 + flag_int(c.open && c.server_version >= MIN_SERVER_VER_WHAT_IF_EXT_FIELDS);
    let q7 = q6 + flag_int(c.open && c.server_version >= MIN_SERVER_VER_WHAT_IF_EXT_FIELDS);
    let q8 = q7 + flag_int(c.open && c.server_version >= MIN_SERVER_VER_WHAT_IF_EXT_FIELDS);
    let q9 = q8 + flag_int(c.open);
    let q10 = q9 + flag_int(c.open);
    let q11 = q10 + flag_int(c.open);
    let q12 = q11 + flag_int(c.open);
    let q13 = q12 + flag_int(c.open);
    let q14 = q13 + flag_int(c.open);
    let q15 = q14 + flag_int(c.open);
    let q16 = q15 + flag_int(c.open);
    let q17 = q16 + flag_int(c.version >= 34);
    let q18 = q17 + flag_int(c.version >= 34);
    &&& v.solicited == if c.version >= 33 { Some(bool_at(t, p)) } else { None::<bool> }
    &&& v.what_if == if c.open { Some(bool_at(t, q1)) } else { None::<bool> }
    &&& v.status@ == t[q2]@
    &&& opt_text(v.init_margin_before) == if c.open && c.server_version >= MIN_SERVER_VER_WHAT_IF_EXT_FIELDS { Some(t[q2 + 1]@) } else { None::<Seq<char>> }
    &&& opt_text(v.maint_margin_before) == if c.open && c.server_version >= MIN_SERVER_VER_WHAT_IF_EXT_FIELDS { Some(t[q3]@) } else { None::<Seq<char>> }
    &&& opt_text(v.equity_with_loan_before) == if c.open && c.server_version >= MIN_SERVER_VER_WHAT_IF_EXT_FIELDS { Some(t[q4]@) } else { None::<Seq<char>> }
    &&& opt_text(v.init_margin_change) == if c.open && c.server_version >= MIN_SERVER_VER_WHAT_IF_EXT_FIELDS { Some(t[q5]@) } else { None::<Seq<char>> }
    &&& opt_text(v.maint_margin_change) == if c.open && c.server_version >= MIN_SERVER_VER_WHAT_IF_EXT_FIELDS { Some(t[q6]@) } else { None::<Seq<char>> }
    &&& opt_text(v.equity_with_loan_change) == if c.open && c.server_version >= MIN_SERVER_VER_WHAT_IF_EXT_FIELDS { Some(t[q7]@) } else { None::<Seq<char>> }
    &&& opt_text(v.init_margin_after) == if c.open { Some(t[q8]@) } else { None::<Seq<char>> }
    &&& opt_text(v.maint_margin_after) == if c.open { Some(t[q9]@) } else { None::<Seq<char>> }
    &&& opt_text(v.equity_with_loan_after) == if c.open { Some(t[q10]@) } else { None::<Seq<char>> }
    &&& opt_float(v.commission) == if c.open { Some((t[q11]@, true)) } else { None::<(Seq<char>, bool)> }
    &&& opt_float(v.min_commission) == if c.open { Some((t[q12]@, true)) } else { None::<(Seq<char>, bool)> }
    &&& opt_float(v.max_commission) == if c.open { Some((t[q13]@, true)) } else { None::<(Seq<char>, bool)> }
    &&& opt_text(v.commission_currency) == if c.open { Some(t[q14]@) } else { None::<Seq<char>> }
    &&& opt_text(v.warning_text) == if c.open { Some(t[q15]@) } else { None::<Seq<char>> }
    &&& v.randomize_size == if c.version >= 34 { Some(bool_at(t, q16)) } else { None::<bool> }
    &&& v.randomize_price == if c.version >= 34 { Some(bool_at(t, q17)) } else { None::<bool> }
}

/// Reads `OrderStateFields` at `p0`; gives it and where the reading ends.
#[verifier::rlimit(40)]
fn read_state(c: OrderCtx, fields: &[String], p0: usize) -> (r: (OrderStateFields, usize))
    requires
        p0 <= fields.len(),
        state_enough(c, fields@, p0 as int),
    ensures
        r.1 == clamp(fields@, state_end(c, fields@, p0 as int)),
        state_read(c, fields@, p0 as int, r.0),
{
    let mut p = p0;
    let solicited = if c.version >= 33 { Some(take_bool(fields, &mut p)) } else { None };
    let what_if = if c.open { Some(take_bool(fields, &mut p)) } else { None };
    let status = take_text(fields, &mut p);
    let init_margin_before = if c.open && c.server_version >= MIN_SERVER_VER_WHAT_IF_EXT_FIELDS { Some(take_text(fields, &mut p)) } else { None };
    let maint_margin_before = if c.open && c.server_version >= MIN_SERVER_VER_WHAT_IF_EXT_FIELDS { Some(take_text(fields, &mut p)) } else { None };
    let equity_with_loan_before = if c.open && c.server_version >= MIN_SERVER_VER_WHAT_IF_EXT_FIELDS { Some(take_text(fields, &mut p)) } else { None };
    let init_margin_change = if c.open && c.server_version >= MIN_SERVER_VER_WHAT_IF_EXT_FIELDS { Some(take_text(fields, &mut p)) } else { None };
    let maint_margin_change = if c.open && c.server_version >= MIN_SERVER_VER_WHAT_IF_EXT_FIELDS { Some(take_text(fields, &mut p)) } else { None };
    let equity_with_loan_change = if c.open && c.server_version >= MIN_SERVER_VER_WHAT_IF_EXT_FIELDS { Some(take_text(fields, &mut p)) } else { None };
    let init_margin_after = if c.open { Some(take_text(fields, &mut p)) } else { None };
    let maint_margin_after = if c.open { Some(take_text(fields, &mut p)) } else { None };
    let equity_with_loan_after = if c.open { Some(take_text(fields, &mut p)) } else { None };
    let commission = if c.open { Some(take_float(fields, &mut p, true)) } else { None };
    let min_commission = if c.open { Some(take_float(fields, &mut p, true)) } else { None };
    let max_commission = if c.open { Some(take_float(fields, &mut p, true)) } else { None };
    let commission_currency = if c.open { Some(take_text(fields, &mut p)) } else { None };
    let warning_text = if c.open { Some(take_text(fields, &mut p)) } else { None };
    let randomize_size = if c.version >= 34 { Some(take_bool(fields, &mut p)) } else { None };
    let randomize_price = if c.version >= 34 { Some(take_bool(fields, &mut p)) } else { None };
    (OrderStateFields { solicited, what_if, status, init_margin_before, maint_margin_before, equity_with_loan_before, init_margin_change, maint_margin_change, equity_with_loan_change, init_margin_after, maint_margin_after, equity_with_loan_after, commission, min_commission, max_commission, commission_currency, warning_text, randomize_size, randomize_price }, p)
}

/// The pegged-to-benchmark values, read for a PEG BENCH order, then the count of the conditions.
#[derive(Clone, Debug)]
pub struct OrderPegBench {
    pub reference_contract_id: Option<i32>,
    pub is_pegged_change_amount_decrease: Option<bool>,
    pub pegged_change_amount: Option<FloatText>,
    pub reference_change_amount: Option<FloatText>,
    pub reference_exchange_id: Option<String>,
    pub conditions_count: Option<i32>,
}

/// Where the reading of `OrderPegBench` that starts at `p` ends.
pub open spec fn peg_bench_end(c: OrderCtx, peg: bool, t: Seq<String>, p: int) -> int {
    let q1 = p + flag_int(c.server_version >= MIN_SERVER_VER_PEGGED_TO_BENCHMARK && peg);
    let q2 = q1 + flag_int(c.server_version >= MIN_SERVER_VER_PEGGED_TO_BENCHMARK && peg);
    let q3 = q2 + flag_int(c.server_version >= MIN_SERVER_VER_PEGGED_TO_BENCHMARK && peg);
    let q4 = q3 + flag_int(c.server_version >= MIN_SERVER_VER_PEGGED_TO_BENCHMARK && peg);
    let q5 = q4 + flag_int(c.server_version >= MIN_SERVER_VER_PEGGED_TO_BENCHMARK && peg);
    let q6 = q5 + flag_int(c.server_version >= MIN_SERVER_VER_PEGGED_TO_BENCHMARK);
    q6
}

/// Where the `conditions_count` field of `OrderPegBench` is.
pub open spec fn peg_bench_conditions_count_at(c: OrderCtx, peg: bool, t: Seq<String>, p: int) -> int {
    let q1 = p + flag_int(c.server_version >= MIN_SERVER_VER_PEGGED_TO_BENCHMARK && peg);
    let q2 = q1 + flag_int(c.server_version >= MIN_SERVER_VER_PEGGED_TO_BENCHMARK && peg);
    let q3 = q2 + flag_int(c.server_version >= MIN_SERVER_VER_PEGGED_TO_BENCHMARK && peg);
    let q4 = q3 + flag_int(c.server_version >= MIN_SERVER_VER_PEGGED_TO_BENCHMARK && peg);
    let q5 = q4 + flag_int(c.server_version >= MIN_SERVER_VER_PEGGED_TO_BENCHMARK && peg);
    q5
}

/// Whether the fields hold what reading `OrderPegBench` at `p` takes: every field but a flag
/// must be there, and an enumeration must hold one of its codes.
pub open spec fn peg_bench_enough(c: OrderCtx, peg: bool, t: Seq<String>, p: int) -> bool {
    let q1 = p + flag_int(c.server_version >= MIN_SERVER_VER_PEGGED_TO_BENCHMARK && peg);
    let q2 = q1 + flag_int(c.server_version >= MIN_SERVER_VER_PEGGED_TO_BENCHMARK && peg);
    let q3 = q2 + flag_int(c.server_version >= MIN_SERVER_VER_PEGGED_TO_BENCHMARK && peg);
    let q4 = q3 + flag_int(c.server_version >= MIN_SERVER_VER_PEGGED_TO_BENCHMARK && peg);
    let q5 = q4 + flag_int(c.server_version >= MIN_SERVER_VER_PEGGED_TO_BENCHMARK && peg);
    let q6 = q5 + flag_int(c.server_version >= MIN_SERVER_VER_PEGGED_TO_BENCHMARK);
    &&& c.server_version >= MIN_SERVER_VER_PEGGED_TO_BENCHMARK && peg ==> p < t.len()
    &&& c.server_version >= MIN_SERVER_VER_PEGGED_TO_BENCHMARK && peg ==> q2 < t.len()
    &&& c.server_version >= MIN_SERVER_VER_PEGGED_TO_BENCHMARK && peg ==> q3 < t.len()
    &&& c.server_version >= MIN_SERVER_VER_PEGGED_TO_BENCHMARK && peg ==> q4 < t.len()
    &&& c.server_version >= MIN_SERVER_VER_PEGGED_TO_BENCHMARK ==> q5 < t.len()
}

/// The values that reading `OrderPegBench` at `p` gives.
pub open spec fn peg_bench_read(c: OrderCtx, peg: bool, t: Seq<String>, p: int, v: OrderPegBench) -> bool {
    let q1 = p + flag_int(c.server_version >= MIN_SERVER_VER_PEGGED_TO_BENCHMARK && peg);
    let q2 = q1 + flag_int(c.server_version >= MIN_SERVER_VER_PEGGED_TO_BENCHMARK && peg);
    let q3 = q2 + flag_int(c.server_version >= MIN_SERVER_VER_PEGGED_TO_BENCHMARK && peg);
    let q4 = q3 + flag_int(c.server_version >= MIN_SERVER_VER_PEGGED_TO_BENCHMARK && peg);
    let q5 = q4 + flag_int(c.server_version >= MIN_SERVER_VER_PEGGED_TO_BENCHMARK && peg);
    let q6 = q5 + flag_int(c.server_version >= MIN_SERVER_VER_PEGGED_TO_BENCHMARK);
    &&& v.reference_contract_id == if c.server_version >= MIN_SERVER_VER_PEGGED_TO_BENCHMARK && peg { Some(field_i32(t[p]@)) } else { None::<i32> }
    &&& v.is_pegged_change_amount_decrease == if c.server_version >= MIN_SERVER_VER_PEGGED_TO_BENCHMARK && peg { Some(bool_at(t, q1)) } else { None::<bool> }
    &&& opt_float(v.pegged_change_amount) == if c.server_version >= MIN_SERVER_VER_PEGGED_TO_BENCHMARK && peg { Some((t[q2]@, false)) } else { None::<(Seq<char>, bool)> }
    &&& opt_float(v.reference_change_amount) == if c.server_version >= MIN_SERVER_VER_PEGGED_TO_BENCHMARK && peg { Some((t[q3]@, false)) } else { None::<(Seq<char>, bool)> }
    &&& opt_text(v.reference_exchange_id) == if c.server_version >= MIN_SERVER_VER_PEGGED_TO_BENCHMARK && peg { Some(t[q4]@) } else { None::<Seq<char>> }
    &&& v.conditions_count == if c.server_version >= MIN_SERVER_VER_PEGGED_TO_BENCHMARK { Some(field_i32(t[q5]@)) } else { None::<i32> }
}

/// Reads `OrderPegBench` at `p0`; gives it and where the reading ends.
#[verifier::rlimit(40)]
fn read_peg_bench(c: OrderCtx, peg: bool, fields: &[String], p0: usize) -> (r: (OrderPegBench, usize))
    requires
        p0 <= fields.len(),
        peg_bench_enough(c, peg, fields@, p0 as int),
    ensures
        r.1 == clamp(fields@, peg_bench_end(c, peg, fields@, p0 as int)),
        peg_bench_read(c, peg, fields@, p0 as int, r.0),
{
    let mut p = p0;
    let reference_contract_id = if c.server_version >= MIN_SERVER_VER_PEGGED_TO_BENCHMARK && peg { Some(take_i32(fields, &mut p)) } else { None };
    let is_pegged_change_amount_decrease = if c.server_version >= MIN_SERVER_VER_PEGGED_TO_BENCHMARK && peg { Some(take_bool(fields, &mut p)) } else { None };
    let pegged_change_amount = if c.server_version >= MIN_SERVER_VER_PEGGED_TO_BENCHMARK && peg { Some(take_float(fields, &mut p, false)) } else { None };
    let reference_change_amount = if c.server_version >= MIN_SERVER_VER_PEGGED_TO_BENCHMARK && peg { Some(take_float(fields, &mut p, false)) } else { None };
    let reference_exchange_id = if c.server_version >= MIN_SERVER_VER_PEGGED_TO_BENCHMARK && peg { Some(take_text(fields, &mut p)) } else { None };
    let conditions_count = if c.server_version >= MIN_SERVER_VER_PEGGED_TO_BENCHMARK { Some(take_i32(fields, &mut p)) } else { None };
    (OrderPegBench { reference_contract_id, is_pegged_change_amount_decrease, pegged_change_amount, reference_change_amount, reference_exchange_id, conditions_count }, p)
}

/// The values after the conditions: the adjusted order, soft dollar tier, cash quantity and flags of an open order, or the completion values of a completed order.
#[derive(Clone, Debug)]
pub struct OrderTail {
    pub adjusted_order_type: Option<String>,
    pub trigger_price: Option<FloatText>,
    pub trail_stop_price: Option<FloatText>,
    pub lmt_price_offset: Option<FloatText>,
    pub adjusted_stop_price: Option<FloatText>,
    pub adjusted_stop_limit_price: Option<FloatText>,
    pub adjusted_trailing_amount: Option<FloatText>,
    pub adjustable_trailing_unit: Option<i32>,
    pub soft_dollar_tier_name: Option<String>,
    pub soft_dollar_tier_value: Option<String>,
    pub soft_dollar_tier_display_name: Option<String>,
    pub cash_qty: Option<FloatText>,
    pub dont_use_auto_price_for_hedge: Option<bool>,
    pub is_oms_container: Option<bool>,
    pub discretionary_up_to_limit_price: Option<bool>,
    pub use_price_mgmt_algo: Option<bool>,
    pub auto_cancel_date: Option<String>,
    pub filled_quantity: Option<FloatText>,
    pub ref_futures_con_id: Option<i32>,
    pub auto_cancel_parent: Option<bool>,
    pub shareholder: Option<String>,
    pub imbalance_only: Option<bool>,
    pub route_marketable_to_bbo: Option<bool>,
    pub parent_perm_id: Option<i32>,
    pub completed_time: Option<String>,
    pub completed_status: Option<String>,
}

/// Where the reading of `OrderTail` that starts at `p` ends.
pub open spec fn tail_end(c: OrderCtx, t: Seq<String>, p: int) -> int {
    let q1 = p + flag_int(c.open && c.server_version >= MIN_SERVER_VER_PEGGED_TO_BENCHMARK);
    let q2 = q1 + flag_int(c.open && c.server_version >= MIN_SERVER_VER_PEGGED_TO_BENCHMARK);
    let q3 = q2 + flag_int(!c.open || c.server_version >= MIN_SERVER_VER_PEGGED_TO_BENCHMARK);
    let q4 = q3 + flag_int(!c.open || c.server_version >= MIN_SERVER_VER_PEGGED_TO_BENCHMARK);
    let q5 = q4 + flag_int(c.open && c.server_version >= MIN_SERVER_VER_PEGGED_TO_BENCHMARK);
    let q6 = q5 + flag_int(c.open && c.server_version >= MIN_SERVER_VER_PEGGED_TO_BENCHMARK);
    let q7 = q6 + flag_int(c.open && c.server_version >= MIN_SERVER_VER_PEGGED_TO_BENCHMARK);
    let q8 = q7 + flag_int(c.open && c.server_version >= MIN_SERVER_VER_PEGGED_TO_BENCHMARK);
    let q9 = q8 + flag_int(c.open && c.server_version >= MIN_SERVER_VER_SOFT_DOLLAR_TIER);
    let q10 = q9 + flag_int(c.open && c.server_version >= MIN_SERVER_VER_SOFT_DOLLAR_TIER);
    let q11 = q10 + flag_int(c.open && c.server_version >= MIN_SERVER_VER_SOFT_DOLLAR_TIER);
    let q12 = q11 + flag_int(c.server_version >= MIN_SERVER_VER_CASH_QTY);
    let q13 = q12 + flag_int(c.server_version >= MIN_SERVER_VER_AUTO_PRICE_FOR_HEDGE);
    let q14 = q13 + flag_int(c.server_version >= MIN_SERVER_VER_ORDER_CONTAINER);
    let q15 = q14 + flag_int(c.open && c.server_version >= MIN_SERVER_VER_D_PEG_ORDERS);
    let q16 = q15 + flag_int(c.open && c.server_version >= MIN_SERVER_VER_PRICE_MGMT_ALGO);
    let q17 = q16 + flag_int(!c.open);
    let q18 = q17 + flag_int(!c.open);
    let q19 = q18 + flag_int(!c.open);
    let q20 = q19 + flag_int(!c.open);
    let q21 = q20 + flag_int(!c.open);
    let q22 = q21 + flag_int(!c.open);
    let q23 = q22 + flag_int(!c.open);
    let q24 = q23 + flag_int(!c.open);
    let q25 = q24 + flag_int(!c.open);
    let q26 = q25 + flag_int(!c.open);
    q26
}

/// Whether the fields hold what reading `OrderTail` at `p` takes: every field but a flag
/// must be there, and an enumeration must hold one of its codes.
pub open spec fn tail_enough(c: OrderCtx, t: Seq<String>, p: int) -> bool {
    let q1 = p + flag_int(c.open && c.server_version >= MIN_SERVER_VER_PEGGED_TO_BENCHMARK);
    let q2 = q1 + flag_int(c.open && c.server_version >= MIN_SERVER_VER_PEGGED_TO_BENCHMARK);
    let q3 = q2 + flag_int(!c.open || c.server_version >= MIN_SERVER_VER_PEGGED_TO_BENCHMARK);
    let q4 = q3 + flag_int(!c.open || c.server_version >= MIN_SERVER_VER_PEGGED_TO_BENCHMARK);
    let q5 = q4 + flag_int(c.open && c.server_version >= MIN_SERVER_VER_PEGGED_TO_BENCHMARK);
    let q6 = q5 + flag_int(c.open && c.server_version >= MIN_SERVER_VER_PEGGED_TO_BENCHMARK);
    let q7 = q6 + flag_int(c.open && c.server_version >= MIN_SERVER_VER_PEGGED_TO_BENCHMARK);
    let q8 = q7 + flag_int(c.open && c.server_version >= MIN_SERVER_VER_PEGGED_TO_BENCHMARK);
    let q9 = q8 + flag_int(c.open && c.server_version >= MIN_SERVER_VER_SOFT_DOLLAR_TIER);
    let q10 = q9 + flag_int(c.open && c.server_version >= MIN_SERVER_VER_SOFT_DOLLAR_TIER);
    let q11 = q10 + flag_int(c.open && c.server_version >= MIN_SERVER_VER_SOFT_DOLLAR_TIER);
    let q12 = q11 + flag_int(c.server_version >= MIN_SERVER_VER_CASH_QTY);
    let q13 = q12 + flag_int(c.server_version >= MIN_SERVER_VER_AUTO_PRICE_FOR_HEDGE);
    let q14 = q13 + flag_int(c.server_version >= MIN_SERVER_VER_ORDER_CONTAINER);
    let q15 = q14 + flag_int(c.open && c.server_version >= MIN_SERVER_VER_D_PEG_ORDERS);
    let q16 = q15 + flag_int(c.open && c.server_version >= MIN_SERVER_VER_PRICE_MGMT_ALGO);
    let q17 = q16 + flag_int(!c.open);
    let q18 = q17 + flag_int(!c.open);
    let q19 = q18 + flag_int(!c.open);
    let q20 = q19 + flag_int(!c.open);
    let q21 = q20 + flag_int(!c.open);
    let q22 = q21 + flag_int(!c.open);
    let q23 = q22 + flag_int(!c.open);
    let q24 = q23 + flag_int(!c.open);
    let q25 = q24 + flag_int(!c.open);
    let q26 = q25 + flag_int(!c.open);
    &&& c.open && c.server_version >= MIN_SERVER_VER_PEGGED_TO_BENCHMARK ==> p < t.len()
    &&& c.open && c.server_version >= MIN_SERVER_VER_PEGGED_TO_BENCHMARK ==> q1 < t.len()
    &&& !c.open || c.server_version >= MIN_SERVER_VER_PEGGED_TO_BENCHMARK ==> q2 < t.len()
    &&& !c.open || c.server_version >= MIN_SERVER_VER_PEGGED_TO_BENCHMARK ==> q3 < t.len()
    &&& c.open && c.server_version >= MIN_SERVER_VER_PEGGED_TO_BENCHMARK ==> q4 < t.len()
    &&& c.open && c.server_version >= MIN_SERVER_VER_PEGGED_TO_BENCHMARK ==> q5 < t.len()
    &&& c.open && c.server_version >= MIN_SERVER_VER_PEGGED_TO_BENCHMARK ==> q6 < t.len()
    &&& c.open && c.server_version >= MIN_SERVER_VER_PEGGED_TO_BENCHMARK ==> q7 < t.len()
    &&& c.open && c.server_version >= MIN_SERVER_VER_SOFT_DOLLAR_TIER ==> q8 < t.len()
    &&& c.open && c.server_version >= MIN_SERVER_VER_SOFT_DOLLAR_TIER ==> q9 < t.len()
    &&& c.open && c.server_version >= MIN_SERVER_VER_SOFT_DOLLAR_TIER ==> q10 < t.len()
    &&& c.server_version >= MIN_SERVER_VER_CASH_QTY ==> q11 < t.len()
    &&& !c.open ==> q16 < t.len()
    &&& !c.open ==> q17 < t.len()
    &&& !c.open ==> q18 < t.len()
    &&& !c.open ==> q20 < t.len()
    &&& !c.open ==> q23 < t.len()
    &&& !c.open ==> q24 < t.len()
    &&& !c.open ==> q25 < t.len()
}

/// The values that reading `OrderTail` at `p` gives.
pub open spec fn tail_read(c: OrderCtx, t: Seq<String>, p: int, v: OrderTail) -> bool {
    let q1 = p + flag_int(c.open && c.server_version >= MIN_SERVER_VER_PEGGED_TO_BENCHMARK);
    let q2 = q1 + flag_int(c.open && c.server_version >= MIN_SERVER_VER_PEGGED_TO_BENCHMARK);
    let q3 = q2 + flag_int(!c.open || c.server_version >= MIN_SERVER_VER_PEGGED_TO_BENCHMARK);
    let q4 = q3 + flag_int(!c.open || c.server_version >= MIN_SERVER_VER_PEGGED_TO_BENCHMARK);
    let q5 = q4 + flag_int(c.open && c.server_version >= MIN_SERVER_VER_PEGGED_TO_BENCHMARK);
    let q6 = q5 + flag_int(c.open && c.server_version >= MIN_SERVER_VER_PEGGED_TO_BENCHMARK);
    let q7 = q6 + flag_int(c.open && c.server_version >= MIN_SERVER_VER_PEGGED_TO_BENCHMARK);
    let q8 = q7 + flag_int(c.open && c.server_version >= MIN_SERVER_VER_PEGGED_TO_BENCHMARK);
    let q9 = q8 + flag_int(c.open && c.server_version >= MIN_SERVER_VER_SOFT_DOLLAR_TIER);
    let q10 = q9 + flag_int(c.open && c.server_version >= MIN_SERVER_VER_SOFT_DOLLAR_TIER);
    let q11 = q10 + flag_int(c.open && c.server_version >= MIN_SERVER_VER_SOFT_DOLLAR_TIER);
    let q12 = q11 + flag_int(c.server_version >= MIN_SERVER_VER_CASH_QTY);
    let q13 = q12 + flag_int(c.server_version >= MIN_SERVER_VER_AUTO_PRICE_FOR_HEDGE);
    let q14 = q13 + flag_int(c.server_version >= MIN_SERVER_VER_ORDER_CONTAINER);
    let q15 = q14 + flag_int(c.open && c.server_version >= MIN_SERVER_VER_D_PEG_ORDERS);
    let q16 = q15 + flag_int(c.open && c.server_version >= MIN_SERVER_VER_PRICE_MGMT_ALGO);
    let q17 = q16 + flag_int(!c.open);
    let q18 = q17 + flag_int(!c.open);
    let q19 = q18 + flag_int(!c.open);
    let q20 = q19 + flag_int(!c.open);
    let q21 = q20 + flag_int(!c.open);
    let q22 = q21 + flag_int(!c.open);
    let q23 = q22 + flag_int(!c.open);
    let q24 = q23 + flag_int(!c.open);
    let q25 = q24 + flag_int(!c.open);
    let q26 = q25 + flag_int(!c.open);
    &&& opt_text(v.adjusted_order_type) == if c.open && c.server_version >= MIN_SERVER_VER_PEGGED_TO_BENCHMARK { Some(t[p]@) } else { None::<Seq<char>> }
    &&& opt_float(v.trigger_price) == if c.open && c.server_version >= MIN_SERVER_VER_PEGGED_TO_BENCHMARK { Some((t[q1]@, false)) } else { None::<(Seq<char>, bool)> }
    &&& opt_float(v.trail_stop_price) == if !c.open || c.server_version >= MIN_SERVER_VER_PEGGED_TO_BENCHMARK { Some((t[q2]@, false)) } else { None::<(Seq<char>, bool)> }
    &&& opt_float(v.lmt_price_offset) == if !c.open || c.server_version >= MIN_SERVER_VER_PEGGED_TO_BENCHMARK { Some((t[q3]@, false)) } else { None::<(Seq<char>, bool)> }
    &&& opt_float(v.adjusted_stop_price) == if c.open && c.server_version >= MIN_SERVER_VER_PEGGED_TO_BENCHMARK { Some((t[q4]@, false)) } else { None::<(Seq<char>, bool)> }
    &&& opt_float(v.adjusted_stop_limit_price) == if c.open && c.server_version >= MIN_SERVER_VER_PEGGED_TO_BENCHMARK { Some((t[q5]@, false)) } else { None::<(Seq<char>, bool)> }
    &&& opt_float(v.adjusted_trailing_amount) == if c.open && c.server_version >= MIN_SERVER_VER_PEGGED_TO_BENCHMARK { Some((t[q6]@, false)) } else { None::<(Seq<char>, bool)> }
    &&& v.adjustable_trailing_unit == if c.open && c.server_version >= MIN_SERVER_VER_PEGGED_TO_BENCHMARK { Some(field_i32(t[q7]@)) } else { None::<i32> }
    &&& opt_text(v.soft_dollar_tier_name) == if c.open && c.server_version >= MIN_SERVER_VER_SOFT_DOLLAR_TIER { Some(t[q8]@) } else { None::<Seq<char>> }
    &&& opt_text(v.soft_dollar_tier_value) == if c.open && c.server_version >= MIN_SERVER_VER_SOFT_DOLLAR_TIER { Some(t[q9]@) } else { None::<Seq<char>> }
    &&& opt_text(v.soft_dollar_tier_display_name) == if c.open && c.server_version >= MIN_SERVER_VER_SOFT_DOLLAR_TIER { Some(t[q10]@) } else { None::<Seq<char>> }
    &&& opt_float(v.cash_qty) == if c.server_version >= MIN_SERVER_VER_CASH_QTY { Some((t[q11]@, false)) } else { None::<(Seq<char>, bool)> }
    &&& v.dont_use_auto_price_for_hedge == if c.server_version >= MIN_SERVER_VER_AUTO_PRICE_FOR_HEDGE { Some(bool_at(t, q12)) } else { None::<bool> }
    &&& v.is_oms_container == if c.server_version >= MIN_SERVER_VER_ORDER_CONTAINER { Some(bool_at(t, q13)) } else { None::<bool> }
    &&& v.discretionary_up_to_limit_price == if c.open && c.server_version >= MIN_SERVER_VER_D_PEG_ORDERS { Some(bool_at(t, q14)) } else { None::<bool> }
    &&& v.use_price_mgmt_algo == if c.open && c.server_version >= MIN_SERVER_VER_PRICE_MGMT_ALGO { Some(bool_at(t, q15)) } else { None::<bool> }
    &&& opt_text(v.auto_cancel_date) == if !c.open { Some(t[q16]@) } else { None::<Seq<char>> }
    &&& opt_float(v.filled_quantity) == if !c.open { Some((t[q17]@, false)) } else { None::<(Seq<char>, bool)> }
    &&& v.ref_futures_con_id == if !c.open { Some(field_i32(t[q18]@)) } else { None::<i32> }
    &&& v.auto_cancel_parent == if !c.open { Some(bool_at(t, q19)) } else { None::<bool> }
    &&& opt_text(v.shareholder) == if !c.open { Some(t[q20]@) } else { None::<Seq<char>> }
    &&& v.imbalance_only == if !c.open { Some(bool_at(t, q21)) } else { None::<bool> }
    &&& v.route_marketable_to_bbo == if !c.open { Some(bool_at(t, q22)) } else { None::<bool> }
    &&& v.parent_perm_id == if !c.open { Some(field_i32(t[q23]@)) } else { None::<i32> }
    &&& opt_text(v.completed_time) == if !c.open { Some(t[q24]@) } else { None::<Seq<char>> }
    &&& opt_text(v.completed_status) == if !c.open { Some(t[q25]@) } else { None::<Seq<char>> }
}

/// Reads `OrderTail` at `p0`; gives it and where the reading ends.
#[verifier::rlimit(40)]
fn read_tail(c: OrderCtx, fields: &[String], p0: usize) -> (r: (OrderTail, usize))
    requires
        p0 <= fields.len(),
        tail_enough(c, fields@, p0 as int),
    ensures
        r.1 == clamp(fields@, tail_end(c, fields@, p0 as int)),
        tail_read(c, fields@, p0 as int, r.0),
{
    let mut p = p0;
    let adjusted_order_type = if c.open && c.server_version >= MIN_SERVER_VER_PEGGED_TO_BENCHMARK { Some(take_text(fields, &mut p)) } else { None };
    let trigger_price = if c.open && c.server_version >= MIN_SERVER_VER_PEGGED_TO_BENCHMARK { Some(take_float(fields, &mut p, false)) } else { None };
    let trail_stop_price = if !c.open || c.server_version >= MIN_SERVER_VER_PEGGED_TO_BENCHMARK { Some(take_float(fields, &mut p, false)) } else { None };
    let lmt_price_offset = if !c.open || c.server_version >= MIN_SERVER_VER_PEGGED_TO_BENCHMARK { Some(take_float(fields, &mut p, false)) } else { None };
    let adjusted_stop_price = if c.open && c.server_version >= MIN_SERVER_VER_PEGGED_TO_BENCHMARK { Some(take_float(fields, &mut p, false)) } else { None };
    let adjusted_stop_limit_price = if c.open && c.server_version >= MIN_SERVER_VER_PEGGED_TO_BENCHMARK { Some(take_float(fields, &mut p, false)) } else { None };
    let adjusted_trailing_amount = if c.open && c.server_version >= MIN_SERVER_VER_PEGGED_TO_BENCHMARK { Some(take_float(fields, &mut p, false)) } else { None };
    let adjustable_trailing_unit = if c.open && c.server_version >= MIN_SERVER_VER_PEGGED_TO_BENCHMARK { Some(take_i32(fields, &mut p)) } else { None };
    let soft_dollar_tier_name = if c.open && c.server_version >= MIN_SERVER_VER_SOFT_DOLLAR_TIER { Some(take_text(fields, &mut p)) } else { None };
    let soft_dollar_tier_value = if c.open && c.server_version >= MIN_SERVER_VER_SOFT_DOLLAR_TIER { Some(take_text(fields, &mut p)) } else { None };
    let soft_dollar_tier_display_name = if c.open && c.server_version >= MIN_SERVER_VER_SOFT_DOLLAR_TIER { Some(take_text(fields, &mut p)) } else { None };
    let cash_qty = if c.server_version >= MIN_SERVER_VER_CASH_QTY { Some(take_float(fields, &mut p, false)) } else { None };
    let dont_use_auto_price_for_hedge = if c.server_version >= MIN_SERVER_VER_AUTO_PRICE_FOR_HEDGE { Some(take_bool(fields, &mut p)) } else { None };
    let is_oms_container = if c.server_version >= MIN_SERVER_VER_ORDER_CONTAINER { Some(take_bool(fields, &mut p)) } else { None };
    let discretionary_up_to_limit_price = if c.open && c.server_version >= MIN_SERVER_VER_D_PEG_ORDERS { Some(take_bool(fields, &mut p)) } else { None };
    let use_price_mgmt_algo = if c.open && c.server_version >= MIN_SERVER_VER_PRICE_MGMT_ALGO { Some(take_bool(fields, &mut p)) } else { None };
    let auto_cancel_date = if !c.open { Some(take_text(fields, &mut p)) } else { None };
    let filled_quantity = if !c.open { Some(take_float(fields, &mut p, false)) } else { None };
    let ref_futures_con_id = if !c.open { Some(take_i32(fields, &mut p)) } else { None };
    let auto_cancel_parent = if !c.open { Some(take_bool(fields, &mut p)) } else { None };
    let shareholder = if !c.open { Some(take_text(fields, &mut p)) } else { None };
    let imbalance_only = if !c.open { Some(take_bool(fields, &mut p)) } else { None };
    let route_marketable_to_bbo = if !c.open { Some(take_bool(fields, &mut p)) } else { None };
    let parent_perm_id = if !c.open { Some(take_i32(fields, &mut p)) } else { None };
    let completed_time = if !c.open { Some(take_text(fields, &mut p)) } else { None };
    let completed_status = if !c.open { Some(take_text(fields, &mut p)) } else { None };
    (OrderTail { adjusted_order_type, trigger_price, trail_stop_price, lmt_price_offset, adjusted_stop_price, adjusted_stop_limit_price, adjusted_trailing_amount, adjustable_trailing_unit, soft_dollar_tier_name, soft_dollar_tier_value, soft_dollar_tier_display_name, cash_qty, dont_use_auto_price_for_hedge, is_oms_container, discretionary_up_to_limit_price, use_price_mgmt_algo, auto_cancel_date, filled_quantity, ref_futures_con_id, auto_cancel_parent, shareholder, imbalance_only, route_marketable_to_bbo, parent_perm_id, completed_time, completed_status }, p)
}
/// Whether the fields hold what reading `OrderHead` at `p0` takes (`head_enough`).
#[verifier::rlimit(40)]
fn check_head(c: OrderCtx, fields: &[String], p0: usize) -> (r: bool)
    requires
        p0 <= fields.len(),
    ensures
        r == head_enough(c, fields@, p0 as int),
{
    let n: i128 = fields.len() as i128;
    let p: i128 = p0 as i128;
    let q1: i128 = p + if c.open { 1 } else { 0 };
    let q2: i128 = q1 + 6 + if c.version >= 32 { 1 } else { 0 };
    let q3: i128 = q2 + 3 + if c.version >= 32 { 1 } else { 0 };
    let q4: i128 = q3 + 1 + if c.server_version >= MIN_SERVER_VER_FRACTIONAL_POSITIONS { 1 } else { 0 };
    let q5: i128 = q4 + if c.server_version < MIN_SERVER_VER_FRACTIONAL_POSITIONS { 1 } else { 0 };
    let q6: i128 = q5 + 9 + if c.open { 1 } else { 0 };
    if !(q6 < n) {
        return false;
    }
    Origin::from_i32(field_i32_at(fields, (q5 + 7) as usize)).is_some()
}

/// Whether the fields hold what reading `OrderTerms` at `p0` takes (`terms_enough`).
#[verifier::rlimit(40)]
fn check_terms(c: OrderCtx, fields: &[String], p0: usize) -> (r: bool)
    requires
        p0 <= fields.len(),
    ensures
        r == terms_enough(c, fields@, p0 as int),
{
    let n: i128 = fields.len() as i128;
    let p: i128 = p0 as i128;
    let q1: i128 = p + 2 + if c.open { 1 } else { 0 };
    let q2: i128 = q1 + 4 + if c.server_version >= MIN_SERVER_VER_MODELS_SUPPORT { 1 } else { 0 };
    let q3: i128 = q2 + 6 + if c.server_version == MIN_SERVER_VER_SSHORTX_OLD { 1 } else { 0 };
    let q4: i128 = q3 + if c.server_version != MIN_SERVER_VER_SSHORTX_OLD && c.version >= 23 { 1 } else { 0 };
    let q5: i128 = q4 + if c.open { 1 } else { 0 };
    if !(q5 + 5 < n) {
        return false;
    }
    (!(c.open) || AuctionStrategy::from_i32(field_i32_at(fields, (q4) as usize)).is_some())
}

/// Whether the fields hold what reading `OrderFlags` at `p0` takes (`flags_enough`).
#[verifier::rlimit(40)]
fn check_flags(c: OrderCtx, fields: &[String], p0: usize) -> (r: bool)
    requires
        p0 <= fields.len(),
    ensures
        r == flags_enough(c, fields@, p0 as int),
{
    let n: i128 = fields.len() as i128;
    let p: i128 = p0 as i128;
    let q1: i128 = p + if c.open { 1 } else { 0 };
    let q2: i128 = q1 + 4 + if c.open { 1 } else { 0 };
    let q3: i128 = q2 + if c.open { 1 } else { 0 };
    let q4: i128 = q3 + if c.open { 1 } else { 0 };
    let q5: i128 = q4 + if c.open { 1 } else { 0 };
    if !(q5 + 4 < n) {
        return false;
    }
    true
}

/// Whether the fields hold what reading `OrderVolTail` at `p0` takes (`vol_tail_enough`).
#[verifier::rlimit(40)]
fn check_vol_tail(c: OrderCtx, dn: bool, fields: &[String], p0: usize) -> (r: bool)
    requires
        p0 <= fields.len(),
    ensures
        r == vol_tail_enough(c, dn, fields@, p0 as int),
{
    let n: i128 = fields.len() as i128;
    let p: i128 = p0 as i128;
    let q1: i128 = p + if c.version >= 27 && dn { 1 } else { 0 };
    let q2: i128 = q1 + if c.version >= 27 && dn && c.open { 1 } else { 0 };
    let q3: i128 = q2 + if c.version >= 27 && dn && c.open { 1 } else { 0 };
    let q4: i128 = q3 + if c.version >= 27 && dn && c.open { 1 } else { 0 };
    let q5: i128 = q4 + if c.version >= 31 && dn && c.open { 1 } else { 0 };
    let q6: i128 = q5 + if c.version >= 31 && dn { 1 } else { 0 };
    let q7: i128 = q6 + if c.version >= 31 && dn { 1 } else { 0 };
    let q8: i128 = q7 + if c.version >= 31 && dn { 1 } else { 0 };
    let q9: i128 = q8 + 3 + if c.version >= 30 { 1 } else { 0 };
    let q10: i128 = q9 + if c.open { 1 } else { 0 };
    let q11: i128 = q10 + if c.open { 1 } else { 0 };
    let q12: i128 = q11 + 1 + if c.version >= 29 { 1 } else { 0 };
    if !(q11 < n && (!(c.version >= 29) || q11 + 1 < n)) {
        return false;
    }
    true
}

/// Whether the fields hold what reading `OrderComboCount` at `p0` takes (`combo_count_enough`).
#[verifier::rlimit(40)]
fn check_combo_count(c: OrderCtx, fields: &[String], p0: usize) -> (r: bool)
    requires
        p0 <= fields.len(),
    ensures
        r == combo_count_enough(c, fields@, p0 as int),
{
    let n: i128 = fields.len() as i128;
    let p: i128 = p0 as i128;
    if !(p < n) {
        return false;
    }
    true
}

/// Whether the fields hold what reading `SmartComboCount` at `p0` takes (`smart_count_enough`).
#[verifier::rlimit(40)]
fn check_smart_count(c: OrderCtx, fields: &[String], p0: usize) -> (r: bool)
    requires
        p0 <= fields.len(),
    ensures
        r == smart_count_enough(c, fields@, p0 as int),
{
    let n: i128 = fields.len() as i128;
    let p: i128 = p0 as i128;
    let q1: i128 = p + if c.version >= 26 { 1 } else { 0 };
    if !((!(c.version >= 26) || p < n)) {
        return false;
    }
    true
}

/// Whether the fields hold what reading `OrderScale` at `p0` takes (`scale_enough`).
#[verifier::rlimit(40)]
fn check_scale(c: OrderCtx, fields: &[String], p0: usize) -> (r: bool)
    requires
        p0 <= fields.len(),
    ensures
        r == scale_enough(c, fields@, p0 as int),
{
    let n: i128 = fields.len() as i128;
    let p: i128 = p0 as i128;
    let q1: i128 = p + 1 + if c.version >= 20 { 1 } else { 0 };
    if !(q1 < n) {
        return false;
    }
    true
}

/// Whether the fields hold what reading `OrderScaleTail` at `p0` takes (`scale_tail_enough`).
#[verifier::rlimit(40)]
fn check_scale_tail(c: OrderCtx, positive: bool, fields: &[String], p0: usize) -> (r: bool)
    requires
        p0 <= fields.len(),
    ensures
        r == scale_tail_enough(c, positive, fields@, p0 as int),
{
    let n: i128 = fields.len() as i128;
    let p: i128 = p0 as i128;
    let q1: i128 = p + if c.version >= 28 && positive { 1 } else { 0 };
    let q2: i128 = q1 + if c.version >= 28 && positive { 1 } else { 0 };
    let q3: i128 = q2 + if c.version >= 28 && positive { 1 } else { 0 };
    let q4: i128 = q3 + if c.version >= 28 && positive { 1 } else { 0 };
    let q5: i128 = q4 + if c.version >= 28 && positive { 1 } else { 0 };
    let q6: i128 = q5 + if c.version >= 28 && positive { 1 } else { 0 };
    let q7: i128 = q6 + if c.version >= 28 && positive { 1 } else { 0 };
    let q8: i128 = q7 + if c.version >= 24 { 1 } else { 0 };
    if !((!(c.version >= 28 && positive) || p < n) && (!(c.version >= 28 && positive) || q1 < n) && (!(c.version >= 28 && positive) || q2 < n) && (!(c.version >= 28 && positive) || q4 < n) && (!(c.version >= 28 && positive) || q5 < n) && (!(c.version >= 24) || q7 < n)) {
        return false;
    }
    true
}

/// Whether the fields hold what reading `OrderClearing` at `p0` takes (`clearing_enough`).
#[verifier::rlimit(40)]
fn check_clearing(c: OrderCtx, hedge: bool, fields: &[String], p0: usize) -> (r: bool)
    requires
        p0 <= fields.len(),
    ensures
        r == clearing_enough(c, hedge, fields@, p0 as int),
{
    let n: i128 = fields.len() as i128;
    let p: i128 = p0 as i128;
    let q1: i128 = p + if hedge { 1 } else { 0 };
    let q2: i128 = q1 + if c.version >= 25 && c.open { 1 } else { 0 };
    let q3: i128 = q2 + 2 + if c.version >= 22 { 1 } else { 0 };
    let q4: i128 = q3 + if c.version >= 20 { 1 } else { 0 };
    if !(q2 + 1 < n) {
        return false;
    }
    true
}

/// Whether the fields hold what reading `OrderDeltaNeutral` at `p0` takes (`delta_neutral_enough`).
#[verifier::rlimit(40)]
fn check_delta_neutral(c: OrderCtx, present: bool, fields: &[String], p0: usize) -> (r: bool)
    requires
        p0 <= fields.len(),
    ensures
        r == delta_neutral_enough(c, present, fields@, p0 as int),
{
    let n: i128 = fields.len() as i128;
    let p: i128 = p0 as i128;
    let q1: i128 = p + if present { 1 } else { 0 };
    let q2: i128 = q1 + if present { 1 } else { 0 };
    let q3: i128 = q2 + if present { 1 } else { 0 };
    let q4: i128 = q3 + if c.version >= 21 { 1 } else { 0 };
    if !((!(present) || p < n) && (!(present) || q1 < n) && (!(present) || q2 < n) && (!(c.version >= 21) || q3 < n)) {
        return false;
    }
    true
}

/// Whether the fields hold what reading `AlgoCount` at `p0` takes (`algo_count_enough`).
#[verifier::rlimit(40)]
fn check_algo_count(c: OrderCtx, algo: bool, fields: &[String], p0: usize) -> (r: bool)
    requires
        p0 <= fields.len(),
    ensures
        r == algo_count_enough(c, algo, fields@, p0 as int),
{
    let n: i128 = fields.len() as i128;
    let p: i128 = p0 as i128;
    let q1: i128 = p + if algo { 1 } else { 0 };
    if !((!(algo) || p < n)) {
        return false;
    }
    true
}

/// Whether the fields hold what reading `OrderStateFields` at `p0` takes (`state_enough`).
#[verifier::rlimit(40)]
fn check_state(c: OrderCtx, fields: &[String], p0: usize) -> (r: bool)
    requires
        p0 <= fields.len(),
    ensures
        r == state_enough(c, fields@, p0 as int),
{
    let n: i128 = fields.len() as i128;
    let p: i128 = p0 as i128;
    let q1: i128 = p + if c.version >= 33 { 1 } else { 0 };
    let q2: i128 = q1 + if c.open { 1 } else { 0 };
    let q3: i128 = q2 + 1 + if c.open && c.server_version >= MIN_SERVER_VER_WHAT_IF_EXT_FIELDS { 1 } else { 0 };
    let q4: i128 = q3 + if c.open && c.server_version >= MIN_SERVER_VER_WHAT_IF_EXT_FIELDS { 1 } else { 0 };
    let q5: i128 = q4 + if c.open && c.server_version >= MIN_SERVER_VER_WHAT_IF_EXT_FIELDS { 1 } else { 0 };
    let q6: i128 = q5 + if c.open && c.server_version >= MIN_SERVER_VER_WHAT_IF_EXT_FIELDS { 1 } else { 0 };
    let q7: i128 = q6 + if c.open && c.server_version >= MIN_SERVER_VER_WHAT_IF_EXT_FIELDS { 1 } else { 0 };
    let q8: i128 = q7 + if c.open && c.server_version >= MIN_SERVER_VER_WHAT_IF_EXT_FIELDS { 1 } else { 0 };
    let q9: i128 = q8 + if c.open { 1 } else { 0 };
    let q10: i128 = q9 + if c.open { 1 } else { 0 };
    let q11: i128 = q10 + if c.open { 1 } else { 0 };
    let q12: i128 = q11 + if c.open { 1 } else { 0 };
    let q13: i128 = q12 + if c.open { 1 } else { 0 };
    let q14: i128 = q13 + if c.open { 1 } else { 0 };
    let q15: i128 = q14 + if c.open { 1 } else { 0 };
    let q16: i128 = q15 + if c.open { 1 } else { 0 };
    let q17: i128 = q16 + if c.version >= 34 { 1 } else { 0 };
    let q18: i128 = q17 + if c.version >= 34 { 1 } else { 0 };
    if !(q2 < n && (!(c.open && c.server_version >= MIN_SERVER_VER_WHAT_IF_EXT_FIELDS) || q2 + 1 < n) && (!(c.open && c.server_version >= MIN_SERVER_VER_WHAT_IF_EXT_FIELDS) || q3 < n) && (!(c.open && c.server_version >= MIN_SERVER_VER_WHAT_IF_EXT_FIELDS) || q4 < n) && (!(c.open && c.server_version >= MIN_SERVER_VER_WHAT_IF_EXT_FIELDS) || q5 < n) && (!(c.open && c.server_version >= MIN_SERVER_VER_WHAT_IF_EXT_FIELDS) || q6 < n) && (!(c.open && c.server_version >= MIN_SERVER_VER_WHAT_IF_EXT_FIELDS) || q7 < n) && (!(c.open) || q8 < n) && (!(c.open) || q9 < n) && (!(c.open) || q10 < n) && (!(c.open) || q11 < n) && (!(c.open) || q12 < n) && (!(c.open) || q13 < n) && (!(c.open) || q14 < n) && (!(c.open) || q15 < n)) {
        return false;
    }
    true
}

/// Whether the fields hold what reading `OrderPegBench` at `p0` takes (`peg_bench_enough`).
#[verifier::rlimit(40)]
fn check_peg_bench(c: OrderCtx, peg: bool, fields: &[String], p0: usize) -> (r: bool)
    requires
        p0 <= fields.len(),
    ensures
        r == peg_bench_enough(c, peg, fields@, p0 as int),
{
    let n: i128 = fields.len() as i128;
    let p: i128 = p0 as i128;
    let q1: i128 = p + if c.server_version >= MIN_SERVER_VER_PEGGED_TO_BENCHMARK && peg { 1 } else { 0 };
    let q2: i128 = q1 + if c.server_version >= MIN_SERVER_VER_PEGGED_TO_BENCHMARK && peg { 1 } else { 0 };
    let q3: i128 = q2 + if c.server_version >= MIN_SERVER_VER_PEGGED_TO_BENCHMARK && peg { 1 } else { 0 };
    let q4: i128 = q3 + if c.server_version >= MIN_SERVER_VER_PEGGED_TO_BENCHMARK && peg { 1 } else { 0 };
    let q5: i128 = q4 + if c.server_version >= MIN_SERVER_VER_PEGGED_TO_BENCHMARK && peg { 1 } else { 0 };
    let q6: i128 = q5 + if c.server_version >= MIN_SERVER_VER_PEGGED_TO_BENCHMARK { 1 } else { 0 };
    if !((!(c.server_version >= MIN_SERVER_VER_PEGGED_TO_BENCHMARK && peg) || p < n) && (!(c.server_version >= MIN_SERVER_VER_PEGGED_TO_BENCHMARK && peg) || q2 < n) && (!(c.server_version >= MIN_SERVER_VER_PEGGED_TO_BENCHMARK && peg) || q3 < n) && (!(c.server_version >= MIN_SERVER_VER_PEGGED_TO_BENCHMARK && peg) || q4 < n) && (!(c.server_version >= MIN_SERVER_VER_PEGGED_TO_BENCHMARK) || q5 < n)) {
        return false;
    }
    true
}

/// Whether the fields hold what reading `OrderTail` at `p0` takes (`tail_enough`).
#[verifier::rlimit(40)]
fn check_tail(c: OrderCtx, fields: &[String], p0: usize) -> (r: bool)
    requires
        p0 <= fields.len(),
    ensures
        r == tail_enough(c, fields@, p0 as int),
{
    let n: i128 = fields.len() as i128;
    let p: i128 = p0 as i128;
    let q1: i128 = p + if c.open && c.server_version >= MIN_SERVER_VER_PEGGED_TO_BENCHMARK { 1 } else { 0 };
    let q2: i128 = q1 + if c.open && c.server_version >= MIN_SERVER_VER_PEGGED_TO_BENCHMARK { 1 } else { 0 };
    let q3: i128 = q2 + if !c.open || c.server_version >= MIN_SERVER_VER_PEGGED_TO_BENCHMARK { 1 } else { 0 };
    let q4: i128 = q3 + if !c.open || c.server_version >= MIN_SERVER_VER_PEGGED_TO_BENCHMARK { 1 } else { 0 };
    let q5: i128 = q4 + if c.open && c.server_version >= MIN_SERVER_VER_PEGGED_TO_BENCHMARK { 1 } else { 0 };
    let q6: i128 = q5 + if c.open && c.server_version >= MIN_SERVER_VER_PEGGED_TO_BENCHMARK { 1 } else { 0 };
    let q7: i128 = q6 + if c.open && c.server_version >= MIN_SERVER_VER_PEGGED_TO_BENCHMARK { 1 } else { 0 };
    let q8: i128 = q7 + if c.open && c.server_version >= MIN_SERVER_VER_PEGGED_TO_BENCHMARK { 1 } else { 0 };
    let q9: i128 = q8 + if c.open && c.server_version >= MIN_SERVER_VER_SOFT_DOLLAR_TIER { 1 } else { 0 };
    let q10: i128 = q9 + if c.open && c.server_version >= MIN_SERVER_VER_SOFT_DOLLAR_TIER { 1 } else { 0 };
    let q11: i128 = q10 + if c.open && c.server_version >= MIN_SERVER_VER_SOFT_DOLLAR_TIER { 1 } else { 0 };
    let q12: i128 = q11 + if c.server_version >= MIN_SERVER_VER_CASH_QTY { 1 } else { 0 };
    let q13: i128 = q12 + if c.server_version >= MIN_SERVER_VER_AUTO_PRICE_FOR_HEDGE { 1 } else { 0 };
    let q14: i128 = q13 + if c.server_version >= MIN_SERVER_VER_ORDER_CONTAINER { 1 } else { 0 };
    let q15: i128 = q14 + if c.open && c.server_version >= MIN_SERVER_VER_D_PEG_ORDERS { 1 } else { 0 };
    let q16: i128 = q15 + if c.open && c.server_version >= MIN_SERVER_VER_PRICE_MGMT_ALGO { 1 } else { 0 };
    let q17: i128 = q16 + if !c.open { 1 } else { 0 };
    let q18: i128 = q17 + if !c.open { 1 } else { 0 };
    let q19: i128 = q18 + if !c.open { 1 } else { 0 };
    let q20: i128 = q19 + if !c.open { 1 } else { 0 };
    let q21: i128 = q20 + if !c.open { 1 } else { 0 };
    let q22: i128 = q21 + if !c.open { 1 } else { 0 };
    let q23: i128 = q22 + if !c.open { 1 } else { 0 };
    let q24: i128 = q23 + if !c.open { 1 } else { 0 };
    let q25: i128 = q24 + if !c.open { 1 } else { 0 };
    let q26: i128 = q25 + if !c.open { 1 } else { 0 };
    if !((!(c.open && c.server_version >= MIN_SERVER_VER_PEGGED_TO_BENCHMARK) || p < n) && (!(c.open && c.server_version >= MIN_SERVER_VER_PEGGED_TO_BENCHMARK) || q1 < n) && (!(!c.open || c.server_version >= MIN_SERVER_VER_PEGGED_TO_BENCHMARK) || q2 < n) && (!(!c.open || c.server_version >= MIN_SERVER_VER_PEGGED_TO_BENCHMARK) || q3 < n) && (!(c.open && c.server_version >= MIN_SERVER_VER_PEGGED_TO_BENCHMARK) || q4 < n) && (!(c.open && c.server_version >= MIN_SERVER_VER_PEGGED_TO_BENCHMARK) || q5 < n) && (!(c.open && c.server_version >= MIN_SERVER_VER_PEGGED_TO_BENCHMARK) || q6 < n) && (!(c.open && c.server_version >= MIN_SERVER_VER_PEGGED_TO_BENCHMARK) || q7 < n) && (!(c.open && c.server_version >= MIN_SERVER_VER_SOFT_DOLLAR_TIER) || q8 < n) && (!(c.open && c.server_version >= MIN_SERVER_VER_SOFT_DOLLAR_TIER) || q9 < n) && (!(c.open && c.server_version >= MIN_SERVER_VER_SOFT_DOLLAR_TIER) || q10 < n) && (!(c.server_version >= MIN_SERVER_VER_CASH_QTY) || q11 < n) && (!(!c.open) || q16 < n) && (!(!c.open) || q17 < n) && (!(!c.open) || q18 < n) && (!(!c.open) || q20 < n) && (!(!c.open) || q23 < n) && (!(!c.open) || q24 < n) && (!(!c.open) || q25 < n)) {
        return false;
    }
    true
}
//==================================================================================================
/// The values of an order message up to the scale price increment.
#[derive(Clone, Debug)]
pub struct OrderFront {
    pub head: OrderHead,
    pub terms: OrderTerms,
    pub flags: OrderFlags,
    pub vol_tail: OrderVolTail,
    pub combo_legs: Vec<OrderComboLeg>,
    pub combo_count: OrderComboCount,
    pub order_combo_legs: Vec<FloatText>,
    pub smart_count: SmartComboCount,
    pub smart_combo_routing_params: Vec<TagValue>,
    pub scale: OrderScale,
}

/// The values of an order message from the scale values after the price increment to the
/// algo parameters.
#[derive(Clone, Debug)]
pub struct OrderMiddle {
    pub scale_tail: OrderScaleTail,
    pub clearing: OrderClearing,
    pub delta_neutral: OrderDeltaNeutral,
    pub algo_count: AlgoCount,
    pub algo_params: Vec<TagValue>,
}

/// The values of an order message from the order state on.
#[derive(Clone, Debug)]
pub struct OrderBack {
    pub state: OrderStateFields,
    pub peg_bench: OrderPegBench,
    pub conditions: Vec<ConditionRead>,
    pub conditions_ignore_rth: bool,
    pub conditions_cancel_order: bool,
    pub tail: OrderTail,
}

/// The values of an open or completed order message. `scale_increment_positive` is the answer
/// on whether the scale price increment is positive, which decides whether the scale values
/// after it are read.
#[derive(Clone, Debug)]
pub struct OrderMessage {
    pub front: OrderFront,
    pub scale_increment_positive: bool,
    pub middle: OrderMiddle,
    pub back: OrderBack,
}

/// Where the order terms start, for an order message read at `p`.
pub open spec fn at_terms(c: OrderCtx, t: Seq<String>, p: int) -> int {
    clamp(t, head_end(c, t, p))
}

/// Where the order flags start.
pub open spec fn at_flags(c: OrderCtx, t: Seq<String>, p: int) -> int {
    clamp(t, terms_end(c, t, at_terms(c, t, p)))
}

/// Where the volatility tail starts.
pub open spec fn at_vol_tail(c: OrderCtx, t: Seq<String>, p: int) -> int {
    clamp(t, flags_end(c, t, at_flags(c, t, p)))
}

/// Whether the delta-neutral order type is set.
pub open spec fn dn_set(c: OrderCtx, t: Seq<String>, p: int) -> bool {
    t[flags_delta_neutral_order_type_at(c, t, at_flags(c, t, p))]@.len() > 0
}

/// Where the combo legs start.
pub open spec fn at_legs(c: OrderCtx, t: Seq<String>, p: int) -> int {
    clamp(t, vol_tail_end(c, dn_set(c, t, p), t, at_vol_tail(c, t, p)))
}

/// How many combo legs there are.
pub open spec fn legs_count(c: OrderCtx, t: Seq<String>, p: int) -> int {
    if c.version >= 29 {
        entry_count(
            field_i32(t[vol_tail_combo_legs_count_at(c, dn_set(c, t, p), t, at_vol_tail(c, t, p))]@),
        )
    } else {
        0
    }
}

/// Where the count of the order combo leg prices is.
pub open spec fn at_combo_count(c: OrderCtx, t: Seq<String>, p: int) -> int {
    at_legs(c, t, p) + 8 * legs_count(c, t, p)
}

/// Where the order combo leg prices start.
pub open spec fn at_leg_prices(c: OrderCtx, t: Seq<String>, p: int) -> int {
    clamp(t, combo_count_end(c, t, at_combo_count(c, t, p)))
}

/// How many order combo leg prices there are.
pub open spec fn leg_prices_count(c: OrderCtx, t: Seq<String>, p: int) -> int {
    entry_count(field_i32(t[combo_count_order_combo_legs_count_at(c, t, at_combo_count(c, t, p))]@))
}

/// Where the count of the smart combo routing parameters is.
pub open spec fn at_smart_count(c: OrderCtx, t: Seq<String>, p: int) -> int {
    at_leg_prices(c, t, p) + leg_prices_count(c, t, p)
}

/// Where the smart combo routing parameters start.
pub open spec fn at_smart(c: OrderCtx, t: Seq<String>, p: int) -> int {
    clamp(t, smart_count_end(c, t, at_smart_count(c, t, p)))
}

/// How many smart combo routing parameters there are.
pub open spec fn smart_count_n(c: OrderCtx, t: Seq<String>, p: int) -> int {
    if c.version >= 26 {
        entry_count(
            field_i32(t[smart_count_smart_combo_routing_params_count_at(c, t, at_smart_count(c, t, p))]@),
        )
    } else {
        0
    }
}

/// Where the scale values start.
pub open spec fn at_scale(c: OrderCtx, t: Seq<String>, p: int) -> int {
    at_smart(c, t, p) + 2 * smart_count_n(c, t, p)
}

/// The text of the scale price increment.
pub open spec fn order_scale_text(c: OrderCtx, t: Seq<String>, p: int) -> Seq<char> {
    t[scale_scale_price_increment_at(c, t, at_scale(c, t, p))]@
}

/// Where the values after the scale price increment start.
pub open spec fn at_scale_tail(c: OrderCtx, t: Seq<String>, p: int) -> int {
    clamp(t, scale_end(c, t, at_scale(c, t, p)))
}

/// Whether the hedge type is set, for the values after the scale price increment at `q`,
/// given the answer `b` on the increment.
pub open spec fn b_hedge(c: OrderCtx, t: Seq<String>, q: int, b: bool) -> bool {
    c.version >= 24 && t[scale_tail_hedge_type_at(c, b, t, q)]@.len() > 0
}

/// Where the clearing values start.
pub open spec fn b_clearing(c: OrderCtx, t: Seq<String>, q: int, b: bool) -> int {
    clamp(t, scale_tail_end(c, b, t, q))
}

/// Whether a delta-neutral contract is present.
pub open spec fn b_present(c: OrderCtx, t: Seq<String>, q: int, b: bool) -> bool {
    c.version >= 20 && bool_at(
        t,
        clearing_delta_neutral_contract_present_at(c, b_hedge(c, t, q, b), t, b_clearing(c, t, q, b)),
    )
}

/// Where the delta-neutral contract starts.
pub open spec fn b_delta_neutral(c: OrderCtx, t: Seq<String>, q: int, b: bool) -> int {
    clamp(t, clearing_end(c, b_hedge(c, t, q, b), t, b_clearing(c, t, q, b)))
}

/// Whether the algo strategy is set.
pub open spec fn b_algo_set(c: OrderCtx, t: Seq<String>, q: int, b: bool) -> bool {
    c.version >= 21 && t[delta_neutral_algo_strategy_at(
        c,
        b_present(c, t, q, b),
        t,
        b_delta_neutral(c, t, q, b),
    )]@.len() > 0
}

/// Where the count of the algo parameters is.
pub open spec fn b_algo_count(c: OrderCtx, t: Seq<String>, q: int, b: bool) -> int {
    clamp(t, delta_neutral_end(c, b_present(c, t, q, b), t, b_delta_neutral(c, t, q, b)))
}

/// How many algo parameters there are.
pub open spec fn b_algo_n(c: OrderCtx, t: Seq<String>, q: int, b: bool) -> int {
    if b_algo_set(c, t, q, b) {
        entry_count(field_i32(t[algo_count_algo_params_count_at(c, true, t, b_algo_count(c, t, q, b))]@))
    } else {
        0
    }
}

/// Where the algo parameters start.
pub open spec fn b_algo(c: OrderCtx, t: Seq<String>, q: int, b: bool) -> int {
    clamp(t, algo_count_end(c, b_algo_set(c, t, q, b), t, b_algo_count(c, t, q, b)))
}

/// Where the order state starts.
pub open spec fn b_state(c: OrderCtx, t: Seq<String>, q: int, b: bool) -> int {
    b_algo(c, t, q, b) + 2 * b_algo_n(c, t, q, b)
}

/// Where the pegged-to-benchmark values start, for an order state at `s`.
pub open spec fn s_peg(c: OrderCtx, t: Seq<String>, s: int) -> int {
    clamp(t, state_end(c, t, s))
}

/// Where the conditions start; `peg` says whether the order type is PEG BENCH.
pub open spec fn s_conditions(c: OrderCtx, t: Seq<String>, s: int, peg: bool) -> int {
    clamp(t, peg_bench_end(c, peg, t, s_peg(c, t, s)))
}

/// How many conditions there are.
pub open spec fn s_conditions_n(c: OrderCtx, t: Seq<String>, s: int, peg: bool) -> int {
    if c.server_version >= MIN_SERVER_VER_PEGGED_TO_BENCHMARK {
        entry_count(field_i32(t[peg_bench_conditions_count_at(c, peg, t, s_peg(c, t, s))]@))
    } else {
        0
    }
}

/// Where the values after the conditions start.
pub open spec fn s_tail(c: OrderCtx, t: Seq<String>, s: int, peg: bool) -> int {
    condition_at(t, s_conditions(c, t, s, peg), s_conditions_n(c, t, s, peg) as nat)
}

/// Whether the order type is PEG BENCH.
pub open spec fn peg_bench(c: OrderCtx, t: Seq<String>, p: int) -> bool {
    t[head_order_type_at(c, t, p)]@ == "PEG BENCH"@
}

/// Whether the fields hold what reading an order message at `p` takes up to the scale price
/// increment.
pub open spec fn order_prefix_enough(c: OrderCtx, t: Seq<String>, p: int) -> bool {
    &&& 0 <= p <= t.len()
    &&& head_enough(c, t, p)
    &&& terms_enough(c, t, at_terms(c, t, p))
    &&& flags_enough(c, t, at_flags(c, t, p))
    &&& vol_tail_enough(c, dn_set(c, t, p), t, at_vol_tail(c, t, p))
    &&& combo_legs_enough(t, at_legs(c, t, p), legs_count(c, t, p))
    &&& combo_count_enough(c, t, at_combo_count(c, t, p))
    &&& at_leg_prices(c, t, p) + leg_prices_count(c, t, p) <= t.len()
    &&& smart_count_enough(c, t, at_smart_count(c, t, p))
    &&& at_smart(c, t, p) + 2 * smart_count_n(c, t, p) <= t.len()
    &&& scale_enough(c, t, at_scale(c, t, p))
}

/// Whether the fields hold what reading the middle of an order message at `q` takes, given
/// the answer `b` on the scale price increment.
pub open spec fn middle_enough(c: OrderCtx, t: Seq<String>, q: int, b: bool) -> bool {
    &&& 0 <= q <= t.len()
    &&& scale_tail_enough(c, b, t, q)
    &&& clearing_enough(c, b_hedge(c, t, q, b), t, b_clearing(c, t, q, b))
    &&& delta_neutral_enough(c, b_present(c, t, q, b), t, b_delta_neutral(c, t, q, b))
    &&& algo_count_enough(c, b_algo_set(c, t, q, b), t, b_algo_count(c, t, q, b))
    &&& b_algo(c, t, q, b) + 2 * b_algo_n(c, t, q, b) <= t.len()
}

/// Whether the fields hold what reading the back of an order message at `s` takes; `peg` says
/// whether the order type is PEG BENCH.
pub open spec fn back_enough(c: OrderCtx, t: Seq<String>, s: int, peg: bool) -> bool {
    &&& 0 <= s <= t.len()
    &&& state_enough(c, t, s)
    &&& peg_bench_enough(c, peg, t, s_peg(c, t, s))
    &&& conditions_enough(t, s_conditions(c, t, s, peg), s_conditions_n(c, t, s, peg) as nat)
    &&& tail_enough(c, t, s_tail(c, t, s, peg))
}

/// Whether the fields hold what reading an order message at `p` takes after the scale price
/// increment, given the answer `b` on it.
pub open spec fn order_rest_enough(c: OrderCtx, t: Seq<String>, p: int, b: bool) -> bool {
    &&& middle_enough(c, t, at_scale_tail(c, t, p), b)
    &&& back_enough(c, t, b_state(c, t, at_scale_tail(c, t, p), b), peg_bench(c, t, p))
}

/// Whether `b` is an answer of `f` on the text `text`.
pub open spec fn scale_answered<F: Fn(&str) -> bool>(f: F, text: Seq<char>, b: bool) -> bool {
    exists|s: &str| s@ == text && #[trigger] f.ensures((s,), b)
}

/// Whether the fields hold what reading an order message at `p` takes, whatever `f` answers on
/// the scale price increment. Versions before 28 do not ask.
pub open spec fn order_complete<F: Fn(&str) -> bool>(c: OrderCtx, t: Seq<String>, p: int, f: F) -> bool {
    &&& order_prefix_enough(c, t, p)
    &&& if c.version >= 28 {
        forall|s: &str, b: bool|
            s@ == order_scale_text(c, t, p) && #[trigger] f.ensures((s,), b) ==> order_rest_enough(c, t, p, b)
    } else {
        order_rest_enough(c, t, p, false)
    }
}

/// Where the reading of the front of an order message at `p` ends, by the counts it read.
pub open spec fn front_end(c: OrderCtx, t: Seq<String>, p: int, v: OrderFront) -> int {
    let p1 = clamp(t, head_end(c, t, p));
    let p2 = clamp(t, terms_end(c, t, p1));
    let p3 = clamp(t, flags_end(c, t, p2));
    let dn = v.flags.delta_neutral_order_type@.len() > 0;
    let p4 = clamp(t, vol_tail_end(c, dn, t, p3));
    let p5 = p4 + 8 * count_of(v.vol_tail.combo_legs_count);
    let p6 = clamp(t, combo_count_end(c, t, p5));
    let p7 = p6 + entry_count(v.combo_count.order_combo_legs_count);
    let p8 = clamp(t, smart_count_end(c, t, p7));
    let p9 = p8 + 2 * count_of(v.smart_count.smart_combo_routing_params_count);
    clamp(t, scale_end(c, t, p9))
}

/// The values that reading the front of an order message at `p` gives.
pub open spec fn front_read(c: OrderCtx, t: Seq<String>, p: int, v: OrderFront) -> bool {
    let p1 = clamp(t, head_end(c, t, p));
    let p2 = clamp(t, terms_end(c, t, p1));
    let p3 = clamp(t, flags_end(c, t, p2));
    let dn = v.flags.delta_neutral_order_type@.len() > 0;
    let p4 = clamp(t, vol_tail_end(c, dn, t, p3));
    let n1 = count_of(v.vol_tail.combo_legs_count);
    let p5 = p4 + 8 * n1;
    let p6 = clamp(t, combo_count_end(c, t, p5));
    let n2 = entry_count(v.combo_count.order_combo_legs_count);
    let p7 = p6 + n2;
    let p8 = clamp(t, smart_count_end(c, t, p7));
    let n3 = count_of(v.smart_count.smart_combo_routing_params_count);
    let p9 = p8 + 2 * n3;
    &&& head_read(c, t, p, v.head)
    &&& terms_read(c, t, p1, v.terms)
    &&& flags_read(c, t, p2, v.flags)
    &&& vol_tail_read(c, dn, t, p3, v.vol_tail)
    &&& v.combo_legs@.len() == n1
    &&& forall|j: int| 0 <= j < n1 ==> combo_leg_read(t, p4 + 8 * j, #[trigger] v.combo_legs@[j])
    &&& combo_count_read(c, t, p5, v.combo_count)
    &&& v.order_combo_legs@.len() == n2
    &&& forall|j: int|
        0 <= j < n2 ==> float_view(#[trigger] v.order_combo_legs@[j]) == (t[p6 + j]@, true)
    &&& smart_count_read(c, t, p7, v.smart_count)
    &&& pairs_read(t, p8, n3, v.smart_combo_routing_params@)
    &&& scale_read(c, t, p9, v.scale)
}

/// Where the reading of the middle of an order message at `q` ends, by the values it read.
pub open spec fn middle_end(c: OrderCtx, b: bool, t: Seq<String>, q: int, v: OrderMiddle) -> int {
    let hedge = set_text(v.scale_tail.hedge_type);
    let p11 = clamp(t, scale_tail_end(c, b, t, q));
    let present = v.clearing.delta_neutral_contract_present == Some(true);
    let p12 = clamp(t, clearing_end(c, hedge, t, p11));
    let algo = set_text(v.delta_neutral.algo_strategy);
    let p13 = clamp(t, delta_neutral_end(c, present, t, p12));
    let p14 = clamp(t, algo_count_end(c, algo, t, p13));
    p14 + 2 * count_of(v.algo_count.algo_params_count)
}

/// The values that reading the middle of an order message at `q` gives, given the answer `b`
/// on the scale price increment.
pub open spec fn middle_read(c: OrderCtx, b: bool, t: Seq<String>, q: int, v: OrderMiddle) -> bool {
    let hedge = set_text(v.scale_tail.hedge_type);
    let p11 = clamp(t, scale_tail_end(c, b, t, q));
    let present = v.clearing.delta_neutral_contract_present == Some(true);
    let p12 = clamp(t, clearing_end(c, hedge, t, p11));
    let algo = set_text(v.delta_neutral.algo_strategy);
    let p13 = clamp(t, delta_neutral_end(c, present, t, p12));
    let n4 = count_of(v.algo_count.algo_params_count);
    let p14 = clamp(t, algo_count_end(c, algo, t, p13));
    &&& scale_tail_read(c, b, t, q, v.scale_tail)
    &&& clearing_read(c, hedge, t, p11, v.clearing)
    &&& delta_neutral_read(c, present, t, p12, v.delta_neutral)
    &&& algo_count_read(c, algo, t, p13, v.algo_count)
    &&& pairs_read(t, p14, n4, v.algo_params@)
}

/// The values that reading the back of an order message at `s` gives; `peg` says whether the
/// order type is PEG BENCH.
pub open spec fn back_read(c: OrderCtx, peg: bool, t: Seq<String>, s: int, v: OrderBack) -> bool {
    let p16 = clamp(t, state_end(c, t, s));
    let n5 = count_of(v.peg_bench.conditions_count);
    let p17 = clamp(t, peg_bench_end(c, peg, t, p16));
    let p18 = condition_at(t, p17, n5 as nat);
    &&& state_read(c, t, s, v.state)
    &&& peg_bench_read(c, peg, t, p16, v.peg_bench)
    &&& v.conditions@.len() == n5
    &&& forall|j: int|
        0 <= j < n5 ==> condition_read(t, condition_at(t, p17, j as nat), #[trigger] v.conditions@[j])
    &&& v.conditions_ignore_rth == (n5 > 0 && v.conditions@[n5 - 1].ignore_rth)
    &&& v.conditions_cancel_order == (n5 > 0 && v.conditions@[n5 - 1].cancel_order)
    &&& tail_read(c, t, p18, v.tail)
}

/// The values that reading an order message at `p` gives.
pub open spec fn order_read(c: OrderCtx, t: Seq<String>, p: int, v: OrderMessage) -> bool {
    let b = v.scale_increment_positive;
    let q = front_end(c, t, p, v.front);
    &&& front_read(c, t, p, v.front)
    &&& c.version < 28 ==> !b
    &&& middle_read(c, b, t, q, v.middle)
    &&& back_read(
        c,
        v.front.head.order_type@ == "PEG BENCH"@,
        t,
        middle_end(c, b, t, q, v.middle),
        v.back,
    )
}

/// Reads the front of an order message at `p0`; gives it and where it ends.
#[verifier::rlimit(100)]
fn read_front(c: OrderCtx, fields: &[String], p0: usize) -> (r: (OrderFront, usize))
    requires
        order_prefix_enough(c, fields@, p0 as int),
    ensures
        front_read(c, fields@, p0 as int, r.0),
        r.1 == front_end(c, fields@, p0 as int, r.0),
        r.1 == at_scale_tail(c, fields@, p0 as int),
        r.0.scale.scale_price_increment.text@ == order_scale_text(c, fields@, p0 as int),
        r.0.head.order_type@ == fields@[head_order_type_at(c, fields@, p0 as int)]@,
{
    let ghost t = fields@;
    let ghost p = p0 as int;
    let (head, p1) = read_head(c, fields, p0);
    let (terms, p2) = read_terms(c, fields, p1);
    let (flags, p3) = read_flags(c, fields, p2);
    let dn = !flags.delta_neutral_order_type.as_str().is_empty();
    assert(dn == dn_set(c, t, p));
    let (vol_tail, p4) = read_vol_tail(c, dn, fields, p3);
    let n1 = count_len(vol_tail.combo_legs_count);
    assert(n1 == legs_count(c, t, p));
    let (combo_legs, p5) = read_combo_legs(fields, p4, n1);
    let (combo_count, p6) = read_combo_count(c, fields, p5);
    let n2 = count_len(Some(combo_count.order_combo_legs_count));
    assert(n2 == leg_prices_count(c, t, p));
    let (order_combo_legs, p7) = read_leg_prices(fields, p6, n2);
    let (smart_count, p8) = read_smart_count(c, fields, p7);
    let n3 = count_len(smart_count.smart_combo_routing_params_count);
    assert(n3 == smart_count_n(c, t, p));
    let (smart_combo_routing_params, p9) = read_pairs(fields, p8, n3);
    let (scale, p10) = read_scale(c, fields, p9);
    let front = OrderFront {
        head,
        terms,
        flags,
        vol_tail,
        combo_legs,
        combo_count,
        order_combo_legs,
        smart_count,
        smart_combo_routing_params,
        scale,
    };
    (front, p10)
}

/// Reads the middle of an order message at `q0`, given the answer `b` on the scale price
/// increment; gives it and where it ends.
#[verifier::rlimit(100)]
fn read_middle(c: OrderCtx, b: bool, fields: &[String], q0: usize) -> (r: (OrderMiddle, usize))
    requires
        middle_enough(c, fields@, q0 as int, b),
    ensures
        middle_read(c, b, fields@, q0 as int, r.0),
        r.1 == middle_end(c, b, fields@, q0 as int, r.0),
        r.1 == b_state(c, fields@, q0 as int, b),
{
    let ghost t = fields@;
    let ghost q = q0 as int;
    let (scale_tail, p11) = read_scale_tail(c, b, fields, q0);
    let hedge = match &scale_tail.hedge_type {
        Some(h) => !h.as_str().is_empty(),
        None => false,
    };
    assert(hedge == b_hedge(c, t, q, b));
    let (clearing, p12) = read_clearing(c, hedge, fields, p11);
    let present = match clearing.delta_neutral_contract_present {
        Some(x) => x,
        None => false,
    };
    assert(present == b_present(c, t, q, b));
    let (delta_neutral, p13) = read_delta_neutral(c, present, fields, p12);
    let algo = match &delta_neutral.algo_strategy {
        Some(a) => !a.as_str().is_empty(),
        None => false,
    };
    assert(algo == b_algo_set(c, t, q, b));
    let (algo_count, p14) = read_algo_count(c, algo, fields, p13);
    let n4 = count_len(algo_count.algo_params_count);
    assert(n4 == b_algo_n(c, t, q, b));
    let (algo_params, p15) = read_pairs(fields, p14, n4);
    (OrderMiddle { scale_tail, clearing, delta_neutral, algo_count, algo_params }, p15)
}

/// Reads the back of an order message at `s0`; `peg` says whether the order type is PEG BENCH.
#[verifier::rlimit(100)]
fn read_back(c: OrderCtx, peg: bool, fields: &[String], s0: usize) -> (r: OrderBack)
    requires
        back_enough(c, fields@, s0 as int, peg),
    ensures
        back_read(c, peg, fields@, s0 as int, r),
{
    let ghost t = fields@;
    let ghost s = s0 as int;
    let (state, p16) = read_state(c, fields, s0);
    let (peg_bench, p17) = read_peg_bench(c, peg, fields, p16);
    let n5 = count_len(peg_bench.conditions_count);
    assert(n5 == s_conditions_n(c, t, s, peg));
    let (conditions, p18) = read_conditions(fields, p17, n5);
    let (conditions_ignore_rth, conditions_cancel_order) = if n5 > 0 {
        (conditions[n5 - 1].ignore_rth, conditions[n5 - 1].cancel_order)
    } else {
        (false, false)
    };
    let (tail, _end) = read_tail(c, fields, p18);
    OrderBack { state, peg_bench, conditions, conditions_ignore_rth, conditions_cancel_order, tail }
}

/// Reads an order message at `p0`; `scale_positive` answers whether the scale price increment
/// is positive, and is asked only where the version reads the values that depend on it.
fn read_order<F: Fn(&str) -> bool>(
    c: OrderCtx,
    fields: &[String],
    p0: usize,
    scale_positive: F,
) -> (r: OrderMessage)
    requires
        forall|s: &str| #[trigger] scale_positive.requires((s,)),
        order_complete(c, fields@, p0 as int, scale_positive),
    ensures
        order_read(c, fields@, p0 as int, r),
        c.version >= 28 ==> scale_answered(
            scale_positive,
            order_scale_text(c, fields@, p0 as int),
            r.scale_increment_positive,
        ),
{
    let (front, q) = read_front(c, fields, p0);
    let b = if c.version >= 28 {
        scale_positive(front.scale.scale_price_increment.text.as_str())
    } else {
        false
    };
    let peg = front.head.order_type == String::from_str("PEG BENCH");
    assert(peg == peg_bench(c, fields@, p0 as int));
    assert(order_rest_enough(c, fields@, p0 as int, b));
    let (middle, s) = read_middle(c, b, fields, q);
    let back = read_back(c, peg, fields, s);
    OrderMessage { front, scale_increment_positive: b, middle, back }
}

//==================================================================================================
/// The layout of an open order message: its version is the server version from
/// `MIN_SERVER_VER_ORDER_CONTAINER` on, and the field after the message id before it.
pub open spec fn open_order_ctx(server_version: i32, t: Seq<String>) -> OrderCtx {
    OrderCtx {
        version: if server_version < MIN_SERVER_VER_ORDER_CONTAINER {
            field_i32(t[1]@)
        } else {
            server_version
        },
        server_version,
        open: true,
    }
}

/// Where the values of an open order message start: after the message id and, before
/// `MIN_SERVER_VER_ORDER_CONTAINER`, the version.
pub open spec fn open_order_start(server_version: i32) -> int {
    if server_version < MIN_SERVER_VER_ORDER_CONTAINER { 2 } else { 1 }
}

/// Whether an open order message holds what its decoding reads, whatever `f` answers on the
/// scale price increment.
pub open spec fn open_order_enough<F: Fn(&str) -> bool>(server_version: i32, t: Seq<String>, f: F) -> bool {
    &&& open_order_start(server_version) <= t.len()
    &&& order_complete(open_order_ctx(server_version, t), t, open_order_start(server_version), f)
}

/// The values that decoding an open order message gives.
pub open spec fn open_order_decoded(server_version: i32, t: Seq<String>, v: OrderMessage) -> bool {
    order_read(open_order_ctx(server_version, t), t, open_order_start(server_version), v)
}

/// The layout of a completed order message: it has no version field, and reads as the newest
/// version.
pub open spec fn completed_order_ctx(server_version: i32) -> OrderCtx {
    OrderCtx { version: UNSET_INTEGER, server_version, open: false }
}

/// Whether a completed order message holds what its decoding reads, whatever `f` answers on the
/// scale price increment.
pub open spec fn completed_order_enough<F: Fn(&str) -> bool>(server_version: i32, t: Seq<String>, f: F) -> bool {
    &&& 1 <= t.len()
    &&& order_complete(completed_order_ctx(server_version), t, 1, f)
}

/// The values that decoding a completed order message gives.
pub open spec fn completed_order_decoded(server_version: i32, t: Seq<String>, v: OrderMessage) -> bool {
    order_read(completed_order_ctx(server_version), t, 1, v)
}

/// Decodes an open order message (`open_order`). `scale_positive` answers whether the text of
/// the scale price increment is a positive value (that is not the unset value); the message
/// version decides whether it is asked.
pub fn process_open_order<F: Fn(&str) -> bool>(
    server_version: i32,
    fields: &[String],
    scale_positive: F,
) -> (r: OrderMessage)
    requires
        forall|s: &str| #[trigger] scale_positive.requires((s,)),
        open_order_enough(server_version, fields@, scale_positive),
    ensures
        open_order_decoded(server_version, fields@, r),
        open_order_ctx(server_version, fields@).version >= 28 ==> scale_answered(
            scale_positive,
            order_scale_text(open_order_ctx(server_version, fields@), fields@, open_order_start(server_version)),
            r.scale_increment_positive,
        ),
{
    let (version, start): (i32, usize) = if server_version < MIN_SERVER_VER_ORDER_CONTAINER {
        (field_i32_at(fields, 1), 2)
    } else {
        (server_version, 1)
    };
    let c = OrderCtx { version, server_version, open: true };
    read_order(c, fields, start, scale_positive)
}

/// Decodes a completed order message (`completed_order`). `scale_positive` answers whether the
/// text of the scale price increment is a positive value (that is not the unset value).
pub fn process_completed_order<F: Fn(&str) -> bool>(
    server_version: i32,
    fields: &[String],
    scale_positive: F,
) -> (r: OrderMessage)
    requires
        forall|s: &str| #[trigger] scale_positive.requires((s,)),
        completed_order_enough(server_version, fields@, scale_positive),
    ensures
        completed_order_decoded(server_version, fields@, r),
        scale_answered(
            scale_positive,
            order_scale_text(completed_order_ctx(server_version), fields@, 1),
            r.scale_increment_positive,
        ),
{
    let c = OrderCtx { version: UNSET_INTEGER, server_version, open: false };
    read_order(c, fields, 1, scale_positive)
}


//==================================================================================================
/// Whether the fields hold `n` combo legs at `p0` (`combo_legs_enough`).
fn check_combo_legs(fields: &[String], p0: usize, n: usize) -> (r: bool)
    requires
        p0 <= fields.len(),
    ensures
        r == combo_legs_enough(fields@, p0 as int, n as int),
{
    if (p0 as i128) + 8 * (n as i128) > fields.len() as i128 {
        return false;
    }
    let mut j: usize = 0;
    while j < n
        invariant
            p0 + 8 * n <= fields.len(),
            j <= n,
            forall|k: int| 0 <= k < j ==> #[trigger] leg_open_close_known(fields@, p0 as int, k),
        decreases n - j,
    {
        if PositionType::from_i32(field_i32_at(fields, p0 + 8 * j + 4)).is_none() {
            assert(!leg_open_close_known(fields@, p0 as int, j as int));
            return false;
        }
        j = j + 1;
    }
    true
}

/// Whether the fields hold `n` conditions at `p0` (`conditions_enough`).
fn check_conditions(fields: &[String], p0: usize, n: usize) -> (r: bool)
    requires
        p0 <= fields.len(),
    ensures
        r == conditions_enough(fields@, p0 as int, n as nat),
{
    let mut p = p0;
    let mut i: usize = 0;
    while i < n
        invariant
            i <= n,
            p == condition_at(fields@, p0 as int, i as nat),
            p <= fields.len(),
            forall|j: nat| j < i ==> #[trigger] condition_enough(fields@, condition_at(fields@, p0 as int, j)),
        decreases n - i,
    {
        let ghost q = p as int;
        if p >= fields.len() {
            assert(!condition_enough(fields@, condition_at(fields@, p0 as int, i as nat)));
            return false;
        }
        let code = field_i32_at(fields, p);
        let k = match ConditionType::from_i32(code) {
            Some(k) => k,
            None => {
                assert(!condition_enough(fields@, condition_at(fields@, p0 as int, i as nat)));
                return false;
            },
        };
        let w = width_of(k);
        if (p as i128) + (w as i128) + 3 > fields.len() as i128 {
            assert(!condition_enough(fields@, condition_at(fields@, p0 as int, i as nat)));
            return false;
        }
        let is_price = match k {
            ConditionType::Price => true,
            _ => false,
        };
        if is_price && TriggerMethod::from_i32(field_i32_at(fields, p + 6)).is_none() {
            assert(!condition_enough(fields@, condition_at(fields@, p0 as int, i as nat)));
            return false;
        }
        assert(condition_enough(fields@, condition_at(fields@, p0 as int, i as nat)));
        p = p + w + 3;
        assert(condition_at(fields@, p0 as int, (i + 1) as nat) == q + condition_span(fields@, q));
        i = i + 1;
    }
    true
}

/// Reads the front of an order message at `p0` where the fields hold it.
#[verifier::rlimit(100)]
fn try_read_front(c: OrderCtx, fields: &[String], p0: usize) -> (r: Option<(OrderFront, usize)>)
    requires
        p0 <= fields.len(),
    ensures
        r is Some <==> order_prefix_enough(c, fields@, p0 as int),
        r matches Some((v, q)) ==> front_read(c, fields@, p0 as int, v) && q == front_end(
            c,
            fields@,
            p0 as int,
            v,
        ) && q == at_scale_tail(c, fields@, p0 as int) && v.scale.scale_price_increment.text@
            == order_scale_text(c, fields@, p0 as int) && v.head.order_type@ == fields@[head_order_type_at(
            c,
            fields@,
            p0 as int,
        )]@,
{
    let ghost t = fields@;
    let ghost p = p0 as int;
    if !check_head(c, fields, p0) {
        return None;
    }
    let (head, p1) = read_head(c, fields, p0);
    if !check_terms(c, fields, p1) {
        return None;
    }
    let (terms, p2) = read_terms(c, fields, p1);
    if !check_flags(c, fields, p2) {
        return None;
    }
    let (flags, p3) = read_flags(c, fields, p2);
    let dn = !flags.delta_neutral_order_type.as_str().is_empty();
    assert(dn == dn_set(c, t, p));
    if !check_vol_tail(c, dn, fields, p3) {
        return None;
    }
    let (vol_tail, p4) = read_vol_tail(c, dn, fields, p3);
    let n1 = count_len(vol_tail.combo_legs_count);
    assert(n1 == legs_count(c, t, p));
    if !check_combo_legs(fields, p4, n1) {
        return None;
    }
    let (combo_legs, p5) = read_combo_legs(fields, p4, n1);
    if !check_combo_count(c, fields, p5) {
        return None;
    }
    let (combo_count, p6) = read_combo_count(c, fields, p5);
    let n2 = count_len(Some(combo_count.order_combo_legs_count));
    assert(n2 == leg_prices_count(c, t, p));
    if (p6 as i128) + (n2 as i128) > fields.len() as i128 {
        return None;
    }
    let (order_combo_legs, p7) = read_leg_prices(fields, p6, n2);
    if !check_smart_count(c, fields, p7) {
        return None;
    }
    let (smart_count, p8) = read_smart_count(c, fields, p7);
    let n3 = count_len(smart_count.smart_combo_routing_params_count);
    assert(n3 == smart_count_n(c, t, p));
    if (p8 as i128) + 2 * (n3 as i128) > fields.len() as i128 {
        return None;
    }
    let (smart_combo_routing_params, p9) = read_pairs(fields, p8, n3);
    if !check_scale(c, fields, p9) {
        return None;
    }
    let (scale, p10) = read_scale(c, fields, p9);
    let front = OrderFront {
        head,
        terms,
        flags,
        vol_tail,
        combo_legs,
        combo_count,
        order_combo_legs,
        smart_count,
        smart_combo_routing_params,
        scale,
    };
    Some((front, p10))
}

/// Whether the fields hold what reading the middle of an order message at `q0` takes
/// (`middle_enough`).
#[verifier::rlimit(100)]
fn check_middle(c: OrderCtx, b: bool, fields: &[String], q0: usize) -> (r: bool)
    requires
        q0 <= fields.len(),
    ensures
        r == middle_enough(c, fields@, q0 as int, b),
{
    let ghost t = fields@;
    let ghost q = q0 as int;
    if !check_scale_tail(c, b, fields, q0) {
        return false;
    }
    let (scale_tail, p11) = read_scale_tail(c, b, fields, q0);
    let hedge = match &scale_tail.hedge_type {
        Some(h) => !h.as_str().is_empty(),
        None => false,
    };
    assert(hedge == b_hedge(c, t, q, b));
    if !check_clearing(c, hedge, fields, p11) {
        return false;
    }
    let (clearing, p12) = read_clearing(c, hedge, fields, p11);
    let present = match clearing.delta_neutral_contract_present {
        Some(x) => x,
        None => false,
    };
    assert(present == b_present(c, t, q, b));
    if !check_delta_neutral(c, present, fields, p12) {
        return false;
    }
    let (delta_neutral, p13) = read_delta_neutral(c, present, fields, p12);
    let algo = match &delta_neutral.algo_strategy {
        Some(a) => !a.as_str().is_empty(),
        None => false,
    };
    assert(algo == b_algo_set(c, t, q, b));
    if !check_algo_count(c, algo, fields, p13) {
        return false;
    }
    let (algo_count, p14) = read_algo_count(c, algo, fields, p13);
    let n4 = count_len(algo_count.algo_params_count);
    assert(n4 == b_algo_n(c, t, q, b));
    (p14 as i128) + 2 * (n4 as i128) <= fields.len() as i128
}

/// Whether the fields hold what reading the back of an order message at `s0` takes
/// (`back_enough`).
#[verifier::rlimit(100)]
fn check_back(c: OrderCtx, peg: bool, fields: &[String], s0: usize) -> (r: bool)
    requires
        s0 <= fields.len(),
    ensures
        r == back_enough(c, fields@, s0 as int, peg),
{
    let ghost t = fields@;
    let ghost s = s0 as int;
    if !check_state(c, fields, s0) {
        return false;
    }
    let (_state, p16) = read_state(c, fields, s0);
    if !check_peg_bench(c, peg, fields, p16) {
        return false;
    }
    let (peg_bench, p17) = read_peg_bench(c, peg, fields, p16);
    let n5 = count_len(peg_bench.conditions_count);
    assert(n5 == s_conditions_n(c, t, s, peg));
    if !check_conditions(fields, p17, n5) {
        return false;
    }
    let (_conditions, p18) = read_conditions(fields, p17, n5);
    check_tail(c, fields, p18)
}

/// Whether `b` is what the scale price increment's text `text` is asked to give: the answer of
/// `f` from version 28 on, false before.
pub open spec fn scale_asked<F: Fn(&str) -> bool>(c: OrderCtx, f: F, text: Seq<char>, b: bool) -> bool {
    if c.version >= 28 { scale_answered(f, text, b) } else { !b }
}

/// What trying to read an order message at `p` gives: the message where the fields hold it,
/// given the answer on the scale price increment; nothing where they do not.
pub open spec fn order_tried<F: Fn(&str) -> bool>(
    c: OrderCtx,
    t: Seq<String>,
    p: int,
    f: F,
    r: Option<OrderMessage>,
) -> bool {
    match r {
        Some(v) => {
            &&& order_prefix_enough(c, t, p)
            &&& scale_asked(c, f, order_scale_text(c, t, p), v.scale_increment_positive)
            &&& order_rest_enough(c, t, p, v.scale_increment_positive)
            &&& order_read(c, t, p, v)
        },
        None => !order_prefix_enough(c, t, p) || exists|b: bool|
            scale_asked(c, f, order_scale_text(c, t, p), b) && !order_rest_enough(c, t, p, b),
    }
}

/// Reads an order message at `p0` where the fields hold it.
fn try_read_order<F: Fn(&str) -> bool>(
    c: OrderCtx,
    fields: &[String],
    p0: usize,
    scale_positive: F,
) -> (r: Option<OrderMessage>)
    requires
        p0 <= fields.len(),
        forall|s: &str| #[trigger] scale_positive.requires((s,)),
    ensures
        order_tried(c, fields@, p0 as int, scale_positive, r),
{
    let (front, q) = match try_read_front(c, fields, p0) {
        Some(x) => x,
        None => return None,
    };
    let b = if c.version >= 28 {
        scale_positive(front.scale.scale_price_increment.text.as_str())
    } else {
        false
    };
    let peg = front.head.order_type == String::from_str("PEG BENCH");
    assert(peg == peg_bench(c, fields@, p0 as int));
    assert(scale_asked(c, scale_positive, order_scale_text(c, fields@, p0 as int), b));
    if !check_middle(c, b, fields, q) {
        assert(!order_rest_enough(c, fields@, p0 as int, b));
        return None;
    }
    let (middle, s) = read_middle(c, b, fields, q);
    if !check_back(c, peg, fields, s) {
        assert(!order_rest_enough(c, fields@, p0 as int, b));
        return None;
    }
    let back = read_back(c, peg, fields, s);
    Some(OrderMessage { front, scale_increment_positive: b, middle, back })
}

//==================================================================================================
/// Decodes order messages of the given message version and server version, as `decode_open`
/// and `decode_completed` lay them out.
#[derive(Clone, Copy, Debug)]
pub struct OrderDecoder {
    pub version: i32,
    pub server_version: i32,
}

impl OrderDecoder {
    pub fn new(version: i32, server_version: i32) -> (r: OrderDecoder)
        ensures
            r == (OrderDecoder { version, server_version }),
    {
        OrderDecoder { version, server_version }
    }

    /// Reads the values of an open order at `start`, where the fields hold them; `None` where
    /// they do not.
    pub fn decode_open<F: Fn(&str) -> bool>(
        &self,
        fields: &[String],
        start: usize,
        scale_positive: F,
    ) -> (r: Option<OrderMessage>)
        requires
            start <= fields.len(),
            forall|s: &str| #[trigger] scale_positive.requires((s,)),
        ensures
            order_tried(
                OrderCtx { version: self.version, server_version: self.server_version, open: true },
                fields@,
                start as int,
                scale_positive,
                r,
            ),
    {
        let c = OrderCtx { version: self.version, server_version: self.server_version, open: true };
        try_read_order(c, fields, start, scale_positive)
    }

    /// Reads the values of a completed order at `start`, where the fields hold them; `None`
    /// where they do not.
    pub fn decode_completed<F: Fn(&str) -> bool>(
        &self,
        fields: &[String],
        start: usize,
        scale_positive: F,
    ) -> (r: Option<OrderMessage>)
        requires
            start <= fields.len(),
            forall|s: &str| #[trigger] scale_positive.requires((s,)),
        ensures
            order_tried(
                OrderCtx { version: self.version, server_version: self.server_version, open: false },
                fields@,
                start as int,
                scale_positive,
                r,
            ),
    {
        let c = OrderCtx { version: self.version, server_version: self.server_version, open: false };
        try_read_order(c, fields, start, scale_positive)
    }
}

/// What trying to decode an open order message gives: nothing where the version field is
/// missing, else what `order_tried` says.
pub open spec fn open_order_tried<F: Fn(&str) -> bool>(
    server_version: i32,
    t: Seq<String>,
    f: F,
    r: Option<OrderMessage>,
) -> bool {
    if open_order_start(server_version) > t.len() {
        r is None
    } else {
        order_tried(open_order_ctx(server_version, t), t, open_order_start(server_version), f, r)
    }
}

/// What trying to decode a completed order message gives.
pub open spec fn completed_order_tried<F: Fn(&str) -> bool>(
    server_version: i32,
    t: Seq<String>,
    f: F,
    r: Option<OrderMessage>,
) -> bool {
    if t.len() < 1 {
        r is None
    } else {
        order_tried(completed_order_ctx(server_version), t, 1, f, r)
    }
}

/// Decodes an open order message where it holds what its decoding reads; `None` where it does
/// not (the decoding stops there).
pub fn try_process_open_order<F: Fn(&str) -> bool>(
    server_version: i32,
    fields: &[String],
    scale_positive: F,
) -> (r: Option<OrderMessage>)
    requires
        forall|s: &str| #[trigger] scale_positive.requires((s,)),
    ensures
        open_order_tried(server_version, fields@, scale_positive, r),
{
    let start: usize = if server_version < MIN_SERVER_VER_ORDER_CONTAINER { 2 } else { 1 };
    if start > fields.len() {
        return None;
    }
    let version = if server_version < MIN_SERVER_VER_ORDER_CONTAINER {
        field_i32_at(fields, 1)
    } else {
        server_version
    };
    OrderDecoder::new(version, server_version).decode_open(fields, start, scale_positive)
}

/// Decodes a completed order message where it holds what its decoding reads; `None` where it
/// does not.
pub fn try_process_completed_order<F: Fn(&str) -> bool>(
    server_version: i32,
    fields: &[String],
    scale_positive: F,
) -> (r: Option<OrderMessage>)
    requires
        forall|s: &str| #[trigger] scale_positive.requires((s,)),
    ensures
        completed_order_tried(server_version, fields@, scale_positive, r),
{
    if fields.len() < 1 {
        return None;
    }
    OrderDecoder::new(UNSET_INTEGER, server_version).decode_completed(fields, 1, scale_positive)
}

/// An order message that holds what its decoding reads, whatever the answer on the scale price
/// increment, is always decoded: trying to read it never gives nothing.
pub proof fn law_complete_orders_are_decoded<F: Fn(&str) -> bool>(c: OrderCtx, t: Seq<String>, p: int, f: F)
    requires
        order_complete(c, t, p, f),
    ensures
        !order_tried(c, t, p, f, None),
{
    if exists|b: bool| scale_asked(c, f, order_scale_text(c, t, p), b) && !order_rest_enough(c, t, p, b) {
        let b = choose|b: bool| scale_asked(c, f, order_scale_text(c, t, p), b) && !order_rest_enough(c, t, p, b);
        if c.version >= 28 {
            let s = choose|s: &str| s@ == order_scale_text(c, t, p) && #[trigger] f.ensures((s,), b);
            assert(f.ensures((s,), b));
        }
    }
}


/// The layout of the front of an open order message from a server that sends no version field
/// (`MIN_SERVER_VER_ORDER_CONTAINER` on): after the message id come the order id, the contract
/// (id, symbol, security type, expiry, strike, right, multiplier, exchange, currency, local
/// symbol, trading class), then action, quantity, order type, limit and aux prices, time in
/// force, OCA group, account, open/close, origin, order reference, client id, permanent id,
/// outside-RTH and hidden flags, then the discretionary amount, good-after time, a passed-over
/// field, the financial-advisor fields, model code, good-till date and the terms, flags and
/// volatility values up to the delta-neutral aux price, each value from its own field in
/// that order.
pub proof fn law_open_order_front_layout(sv: i32, t: Seq<String>, v: OrderMessage)
    requires
        sv >= MIN_SERVER_VER_ORDER_CONTAINER,
        t.len() > 63,
        open_order_decoded(sv, t, v),
    ensures
        v.front.head.order_id == Some(field_i32(t[1]@)),
        v.front.head.con_id == field_i32(t[2]@),
        v.front.head.symbol@ == t[3]@,
        v.front.head.sec_type@ == t[4]@,
        v.front.head.last_trade_date_or_contract_month@ == t[5]@,
        float_view(v.front.head.strike) == (t[6]@, false),
        v.front.head.right@ == t[7]@,
        opt_text(v.front.head.multiplier) == Some(t[8]@),
        v.front.head.exchange@ == t[9]@,
        v.front.head.currency@ == t[10]@,
        v.front.head.local_symbol@ == t[11]@,
        opt_text(v.front.head.trading_class) == Some(t[12]@),
        v.front.head.action@ == t[13]@,
        opt_float(v.front.head.total_quantity) == Some((t[14]@, false)),
        v.front.head.total_quantity_whole is None,
        v.front.head.order_type@ == t[15]@,
        float_view(v.front.head.lmt_price) == (t[16]@, true),
        float_view(v.front.head.aux_price) == (t[17]@, true),
        v.front.head.tif@ == t[18]@,
        v.front.head.oca_group@ == t[19]@,
        v.front.head.account@ == t[20]@,
        v.front.head.open_close@ == t[21]@,
        Origin::from_code(field_i32(t[22]@) as int) == Some(v.front.head.origin),
        v.front.head.order_ref@ == t[23]@,
        v.front.head.client_id == Some(field_i32(t[24]@)),
        v.front.head.perm_id == field_i32(t[25]@),
        v.front.head.outside_rth == field_bool(t[26]@),
        v.front.head.hidden == field_bool(t[27]@),
        float_view(v.front.terms.discretionary_amt) == (t[28]@, false),
        v.front.terms.good_after_time@ == t[29]@,
        v.front.terms.fa_group@ == t[31]@,
        v.front.terms.fa_method@ == t[32]@,
        v.front.terms.fa_percentage@ == t[33]@,
        v.front.terms.fa_profile@ == t[34]@,
        opt_text(v.front.terms.model_code) == Some(t[35]@),
        v.front.terms.good_till_date@ == t[36]@,
        v.front.terms.rule80a@ == t[37]@,
        float_view(v.front.terms.percent_offset) == (t[38]@, true),
        v.front.terms.settling_firm@ == t[39]@,
        v.front.terms.short_sale_slot == field_i32(t[40]@),
        v.front.terms.designated_location@ == t[41]@,
        v.front.terms.exempt_code == Some(field_i32(t[42]@)),
        v.front.terms.auction_strategy == AuctionStrategy::from_code(field_i32(t[43]@) as int),
        float_view(v.front.terms.starting_price) == (t[44]@, true),
        float_view(v.front.terms.stock_ref_price) == (t[45]@, true),
        float_view(v.front.terms.delta) == (t[46]@, true),
        float_view(v.front.terms.stock_range_lower) == (t[47]@, true),
        float_view(v.front.terms.stock_range_upper) == (t[48]@, true),
        v.front.terms.display_size == field_i32(t[49]@),
        v.front.flags.block_order == Some(field_bool(t[50]@)),
        v.front.flags.sweep_to_fill == field_bool(t[51]@),
        v.front.flags.all_or_none == field_bool(t[52]@),
        v.front.flags.min_qty == field_i32_show_unset(t[53]@),
        v.front.flags.oca_type == field_i32(t[54]@),
        v.front.flags.e_trade_only == Some(field_bool(t[55]@)),
        v.front.flags.firm_quote_only == Some(field_bool(t[56]@)),
        opt_float(v.front.flags.nbbo_price_cap) == Some((t[57]@, true)),
        v.front.flags.parent_id == Some(field_i32(t[58]@)),
        v.front.flags.trigger_method == field_i32(t[59]@),
        float_view(v.front.flags.volatility) == (t[60]@, true),
        v.front.flags.volatility_type == field_i32(t[61]@),
        v.front.flags.delta_neutral_order_type@ == t[62]@,
        float_view(v.front.flags.delta_neutral_aux_price) == (t[63]@, true),
{
}

/// The layout of the front of a completed order message from a server that sends no version
/// field: it has no order id, client id, passed-over field, auction strategy, block-order,
/// e-trade, firm-quote, NBBO cap or parent id, and otherwise lays out the values as an open
/// order does, each from its own field.
pub proof fn law_completed_order_front_layout(sv: i32, t: Seq<String>, v: OrderMessage)
    requires
        sv >= MIN_SERVER_VER_ORDER_CONTAINER,
        t.len() > 54,
        completed_order_decoded(sv, t, v),
    ensures
        v.front.head.order_id is None,
        v.front.head.con_id == field_i32(t[1]@),
        v.front.head.symbol@ == t[2]@,
        v.front.head.sec_type@ == t[3]@,
        v.front.head.last_trade_date_or_contract_month@ == t[4]@,
        float_view(v.front.head.strike) == (t[5]@, false),
        v.front.head.right@ == t[6]@,
        opt_text(v.front.head.multiplier) == Some(t[7]@),
        v.front.head.exchange@ == t[8]@,
        v.front.head.currency@ == t[9]@,
        v.front.head.local_symbol@ == t[10]@,
        opt_text(v.front.head.trading_class) == Some(t[11]@),
        v.front.head.action@ == t[12]@,
        opt_float(v.front.head.total_quantity) == Some((t[13]@, false)),
        v.front.head.order_type@ == t[14]@,
        float_view(v.front.head.lmt_price) == (t[15]@, true),
        float_view(v.front.head.aux_price) == (t[16]@, true),
        v.front.head.tif@ == t[17]@,
        v.front.head.oca_group@ == t[18]@,
        v.front.head.account@ == t[19]@,
        v.front.head.open_close@ == t[20]@,
        Origin::from_code(field_i32(t[21]@) as int) == Some(v.front.head.origin),
        v.front.head.order_ref@ == t[22]@,
        v.front.head.client_id is None,
        v.front.head.perm_id == field_i32(t[23]@),
        v.front.head.outside_rth == field_bool(t[24]@),
        v.front.head.hidden == field_bool(t[25]@),
        float_view(v.front.terms.discretionary_amt) == (t[26]@, false),
        v.front.terms.good_after_time@ == t[27]@,
        v.front.terms.fa_group@ == t[28]@,
        v.front.terms.fa_method@ == t[29]@,
        v.front.terms.fa_percentage@ == t[30]@,
        v.front.terms.fa_profile@ == t[31]@,
        opt_text(v.front.terms.model_code) == Some(t[32]@),
        v.front.terms.good_till_date@ == t[33]@,
        v.front.terms.rule80a@ == t[34]@,
        float_view(v.front.terms.percent_offset) == (t[35]@, true),
        v.front.terms.settling_firm@ == t[36]@,
        v.front.terms.short_sale_slot == field_i32(t[37]@),
        v.front.terms.designated_location@ == t[38]@,
        v.front.terms.exempt_code == Some(field_i32(t[39]@)),
        v.front.terms.auction_strategy is None,
        float_view(v.front.terms.starting_price) == (t[40]@, true),
        float_view(v.front.terms.stock_ref_price) == (t[41]@, true),
        float_view(v.front.terms.delta) == (t[42]@, true),
        float_view(v.front.terms.stock_range_lower) == (t[43]@, true),
        float_view(v.front.terms.stock_range_upper) == (t[44]@, true),
        v.front.terms.display_size == field_i32(t[45]@),
        v.front.flags.block_order is None,
        v.front.flags.sweep_to_fill == field_bool(t[46]@),
        v.front.flags.all_or_none == field_bool(t[47]@),
        v.front.flags.min_qty == field_i32_show_unset(t[48]@),
        v.front.flags.oca_type == field_i32(t[49]@),
        v.front.flags.e_trade_only is None,
        v.front.flags.nbbo_price_cap is None,
        v.front.flags.parent_id is None,
        v.front.flags.trigger_method == field_i32(t[50]@),
        float_view(v.front.flags.volatility) == (t[51]@, true),
        v.front.flags.volatility_type == field_i32(t[52]@),
        v.front.flags.delta_neutral_order_type@ == t[53]@,
        float_view(v.front.flags.delta_neutral_aux_price) == (t[54]@, true),
{
}


/// Reading `OrderHead` at `p` takes each value from its own field, in this order: order_id, con_id,
/// symbol, sec_type, last_trade_date_or_contract_month, strike, right, multiplier, exchange,
/// currency, local_symbol, trading_class, action, total_quantity, total_quantity_whole, order_type,
/// lmt_price, aux_price, tif, oca_group, account, open_close, origin, order_ref, client_id,
/// perm_id, outside_rth, hidden
/// (a value that its condition leaves out takes no field).
pub proof fn law_head_layout(c: OrderCtx, t: Seq<String>, p: int, v: OrderHead)
    requires
        head_read(c, t, p, v),
    ensures
        v.order_id == if c.open { Some(field_i32(t[(p)]@)) } else { None::<i32> },
        v.con_id == field_i32(t[(p + flag_int(c.open))]@),
        v.symbol@ == t[(p + flag_int(c.open) + 1)]@,
        v.sec_type@ == t[(p + flag_int(c.open) + 2)]@,
        v.last_trade_date_or_contract_month@ == t[(p + flag_int(c.open) + 3)]@,
        float_view(v.strike) == (t[(p + flag_int(c.open) + 4)]@, false),
        v.right@ == t[(p + flag_int(c.open) + 5)]@,
        opt_text(v.multiplier) == if c.version >= 32 { Some(t[(p + flag_int(c.open) + 6)]@) } else { None::<Seq<char>> },
        v.exchange@ == t[(p + flag_int(c.open) + flag_int(c.version >= 32) + 6)]@,
        v.currency@ == t[(p + flag_int(c.open) + flag_int(c.version >= 32) + 7)]@,
        v.local_symbol@ == t[(p + flag_int(c.open) + flag_int(c.version >= 32) + 8)]@,
        opt_text(v.trading_class) == if c.version >= 32 { Some(t[(p + flag_int(c.open) + flag_int(c.version >= 32) + 9)]@) } else { None::<Seq<char>> },
        v.action@ == t[(p + flag_int(c.open) + 2 * flag_int(c.version >= 32) + 9)]@,
        opt_float(v.total_quantity) == if c.server_version >= MIN_SERVER_VER_FRACTIONAL_POSITIONS { Some((t[(p + flag_int(c.open) + 2 * flag_int(c.version >= 32) + 10)]@, false)) } else { None::<(Seq<char>, bool)> },
        v.total_quantity_whole == if c.server_version < MIN_SERVER_VER_FRACTIONAL_POSITIONS { Some(field_i32(t[(p + flag_int(c.open) + 2 * flag_int(c.version >= 32) + flag_int(c.server_version >= MIN_SERVER_VER_FRACTIONAL_POSITIONS) + 10)]@)) } else { None::<i32> },
        v.order_type@ == t[(p + flag_int(c.open) + 2 * flag_int(c.version >= 32) + 1 + 10)]@,
        float_view(v.lmt_price) == (t[(p + flag_int(c.open) + 2 * flag_int(c.version >= 32) + 1 + 11)]@, c.version >= 29),
        float_view(v.aux_price) == (t[(p + flag_int(c.open) + 2 * flag_int(c.version >= 32) + 1 + 12)]@, c.version >= 30),
        v.tif@ == t[(p + flag_int(c.open) + 2 * flag_int(c.version >= 32) + 1 + 13)]@,
        v.oca_group@ == t[(p + flag_int(c.open) + 2 * flag_int(c.version >= 32) + 1 + 14)]@,
        v.account@ == t[(p + flag_int(c.open) + 2 * flag_int(c.version >= 32) + 1 + 15)]@,
        v.open_close@ == t[(p + flag_int(c.open) + 2 * flag_int(c.version >= 32) + 1 + 16)]@,
        Origin::from_code(field_i32(t[(p + flag_int(c.open) + 2 * flag_int(c.version >= 32) + 1 + 17)]@) as int) == Some(v.origin),
        v.order_ref@ == t[(p + flag_int(c.open) + 2 * flag_int(c.version >= 32) + 1 + 18)]@,
        v.client_id == if c.open { Some(field_i32(t[(p + flag_int(c.open) + 2 * flag_int(c.version >= 32) + 1 + 19)]@)) } else { None::<i32> },
        v.perm_id == field_i32(t[(p + flag_int(c.open) + 2 * flag_int(c.version >= 32) + 1 + flag_int(c.open) + 19)]@),
        v.outside_rth == bool_at(t, (p + flag_int(c.open) + 2 * flag_int(c.version >= 32) + 1 + flag_int(c.open) + 20)),
        v.hidden == bool_at(t, (p + flag_int(c.open) + 2 * flag_int(c.version >= 32) + 1 + flag_int(c.open) + 21)),
{
}

/// Reading `OrderTerms` at `p` takes each value from its own field, in this order:
/// discretionary_amt, good_after_time, fa_group, fa_method, fa_percentage, fa_profile, model_code,
/// good_till_date, rule80a, percent_offset, settling_firm, short_sale_slot, designated_location,
/// exempt_code, auction_strategy, starting_price, stock_ref_price, delta, stock_range_lower,
/// stock_range_upper, display_size
/// (a value that its condition leaves out takes no field).
pub proof fn law_terms_layout(c: OrderCtx, t: Seq<String>, p: int, v: OrderTerms)
    requires
        terms_read(c, t, p, v),
    ensures
        float_view(v.discretionary_amt) == (t[(p)]@, false),
        v.good_after_time@ == t[(p + 1)]@,
        v.fa_group@ == t[(p + flag_int(c.open) + 2)]@,
        v.fa_method@ == t[(p + flag_int(c.open) + 3)]@,
        v.fa_percentage@ == t[(p + flag_int(c.open) + 4)]@,
        v.fa_profile@ == t[(p + flag_int(c.open) + 5)]@,
        opt_text(v.model_code) == if c.server_version >= MIN_SERVER_VER_MODELS_SUPPORT { Some(t[(p + flag_int(c.open) + 6)]@) } else { None::<Seq<char>> },
        v.good_till_date@ == t[(p + flag_int(c.open) + flag_int(c.server_version >= MIN_SERVER_VER_MODELS_SUPPORT) + 6)]@,
        v.rule80a@ == t[(p + flag_int(c.open) + flag_int(c.server_version >= MIN_SERVER_VER_MODELS_SUPPORT) + 7)]@,
        float_view(v.percent_offset) == (t[(p + flag_int(c.open) + flag_int(c.server_version >= MIN_SERVER_VER_MODELS_SUPPORT) + 8)]@, true),
        v.settling_firm@ == t[(p + flag_int(c.open) + flag_int(c.server_version >= MIN_SERVER_VER_MODELS_SUPPORT) + 9)]@,
        v.short_sale_slot == field_i32(t[(p + flag_int(c.open) + flag_int(c.server_version >= MIN_SERVER_VER_MODELS_SUPPORT) + 10)]@),
        v.designated_location@ == t[(p + flag_int(c.open) + flag_int(c.server_version >= MIN_SERVER_VER_MODELS_SUPPORT) + 11)]@,
        v.exempt_code == if c.server_version != MIN_SERVER_VER_SSHORTX_OLD && c.version >= 23 { Some(field_i32(t[(p + flag_int(c.open) + flag_int(c.server_version >= MIN_SERVER_VER_MODELS_SUPPORT) + flag_int(c.server_version == MIN_SERVER_VER_SSHORTX_OLD) + 12)]@)) } else { None::<i32> },
        v.auction_strategy == if c.open { AuctionStrategy::from_code(field_i32(t[(p + flag_int(c.open) + flag_int(c.server_version >= MIN_SERVER_VER_MODELS_SUPPORT) + flag_int(c.server_version == MIN_SERVER_VER_SSHORTX_OLD) + flag_int(c.server_version != MIN_SERVER_VER_SSHORTX_OLD && c.version >= 23) + 12)]@) as int) } else { None::<AuctionStrategy> },
        float_view(v.starting_price) == (t[(p + flag_int(c.open) + flag_int(c.server_version >= MIN_SERVER_VER_MODELS_SUPPORT) + flag_int(c.server_version == MIN_SERVER_VER_SSHORTX_OLD) + flag_int(c.server_version != MIN_SERVER_VER_SSHORTX_OLD && c.version >= 23) + flag_int(c.open) + 12)]@, true),
        float_view(v.stock_ref_price) == (t[(p + flag_int(c.open) + flag_int(c.server_version >= MIN_SERVER_VER_MODELS_SUPPORT) + flag_int(c.server_version == MIN_SERVER_VER_SSHORTX_OLD) + flag_int(c.server_version != MIN_SERVER_VER_SSHORTX_OLD && c.version >= 23) + flag_int(c.open) + 13)]@, true),
        float_view(v.delta) == (t[(p + flag_int(c.open) + flag_int(c.server_version >= MIN_SERVER_VER_MODELS_SUPPORT) + flag_int(c.server_version == MIN_SERVER_VER_SSHORTX_OLD) + flag_int(c.server_version != MIN_SERVER_VER_SSHORTX_OLD && c.version >= 23) + flag_int(c.open) + 14)]@, true),
        float_view(v.stock_range_lower) == (t[(p + flag_int(c.open) + flag_int(c.server_version >= MIN_SERVER_VER_MODELS_SUPPORT) + flag_int(c.server_version == MIN_SERVER_VER_SSHORTX_OLD) + flag_int(c.server_version != MIN_SERVER_VER_SSHORTX_OLD && c.version >= 23) + flag_int(c.open) + 15)]@, true),
        float_view(v.stock_range_upper) == (t[(p + flag_int(c.open) + flag_int(c.server_version >= MIN_SERVER_VER_MODELS_SUPPORT) + flag_int(c.server_version == MIN_SERVER_VER_SSHORTX_OLD) + flag_int(c.server_version != MIN_SERVER_VER_SSHORTX_OLD && c.version >= 23) + flag_int(c.open) + 16)]@, true),
        v.display_size == field_i32(t[(p + flag_int(c.open) + flag_int(c.server_version >= MIN_SERVER_VER_MODELS_SUPPORT) + flag_int(c.server_version == MIN_SERVER_VER_SSHORTX_OLD) + flag_int(c.server_version != MIN_SERVER_VER_SSHORTX_OLD && c.version >= 23) + flag_int(c.open) + 17)]@),
{
}

/// Reading `OrderFlags` at `p` takes each value from its own field, in this order: block_order,
/// sweep_to_fill, all_or_none, min_qty, oca_type, e_trade_only, firm_quote_only, nbbo_price_cap,
/// parent_id, trigger_method, volatility, volatility_type, delta_neutral_order_type,
/// delta_neutral_aux_price
/// (a value that its condition leaves out takes no field).
pub proof fn law_flags_layout(c: OrderCtx, t: Seq<String>, p: int, v: OrderFlags)
    requires
        flags_read(c, t, p, v),
    ensures
        v.block_order == if c.open { Some(bool_at(t, (p))) } else { None::<bool> },
        v.sweep_to_fill == bool_at(t, (p + flag_int(c.open))),
        v.all_or_none == bool_at(t, (p + flag_int(c.open) + 1)),
        v.min_qty == field_i32_show_unset(t[(p + flag_int(c.open) + 2)]@),
        v.oca_type == field_i32(t[(p + flag_int(c.open) + 3)]@),
        v.e_trade_only == if c.open { Some(bool_at(t, (p + flag_int(c.open) + 4))) } else { None::<bool> },
        v.firm_quote_only == if c.open { Some(bool_at(t, (p + flag_int(c.open) + flag_int(c.open) + 4))) } else { None::<bool> },
        opt_float(v.nbbo_price_cap) == if c.open { Some((t[(p + flag_int(c.open) + flag_int(c.open) + flag_int(c.open) + 4)]@, true)) } else { None::<(Seq<char>, bool)> },
        v.parent_id == if c.open { Some(field_i32(t[(p + flag_int(c.open) + flag_int(c.open) + flag_int(c.open) + flag_int(c.open) + 4)]@)) } else { None::<i32> },
        v.trigger_method == field_i32(t[(p + flag_int(c.open) + flag_int(c.open) + flag_int(c.open) + flag_int(c.open) + flag_int(c.open) + 4)]@),
        float_view(v.volatility) == (t[(p + flag_int(c.open) + flag_int(c.open) + flag_int(c.open) + flag_int(c.open) + flag_int(c.open) + 5)]@, true),
        v.volatility_type == field_i32(t[(p + flag_int(c.open) + flag_int(c.open) + flag_int(c.open) + flag_int(c.open) + flag_int(c.open) + 6)]@),
        v.delta_neutral_order_type@ == t[(p + flag_int(c.open) + flag_int(c.open) + flag_int(c.open) + flag_int(c.open) + flag_int(c.open) + 7)]@,
        float_view(v.delta_neutral_aux_price) == (t[(p + flag_int(c.open) + flag_int(c.open) + flag_int(c.open) + flag_int(c.open) + flag_int(c.open) + 8)]@, true),
{
}

/// Reading `OrderVolTail` at `p` takes each value from its own field, in this order:
/// delta_neutral_con_id, delta_neutral_settling_firm, delta_neutral_clearing_account,
/// delta_neutral_clearing_intent, delta_neutral_open_close, delta_neutral_short_sale,
/// delta_neutral_short_sale_slot, delta_neutral_designated_location, continuous_update,
/// reference_price_type, trail_stop_price, trailing_percent, basis_points, basis_points_type,
/// combo_legs_descrip, combo_legs_count
/// (a value that its condition leaves out takes no field).
pub proof fn law_vol_tail_layout(c: OrderCtx, dn: bool, t: Seq<String>, p: int, v: OrderVolTail)
    requires
        vol_tail_read(c, dn, t, p, v),
    ensures
        v.delta_neutral_con_id == if c.version >= 27 && dn { Some(field_i32(t[(p)]@)) } else { None::<i32> },
        opt_text(v.delta_neutral_settling_firm) == if c.version >= 27 && dn && c.open { Some(t[(p + flag_int(c.version >= 27 && dn))]@) } else { None::<Seq<char>> },
        opt_text(v.delta_neutral_clearing_account) == if c.version >= 27 && dn && c.open { Some(t[(p + flag_int(c.version >= 27 && dn) + flag_int(c.version >= 27 && dn && c.open))]@) } else { None::<Seq<char>> },
        opt_text(v.delta_neutral_clearing_intent) == if c.version >= 27 && dn && c.open { Some(t[(p + flag_int(c.version >= 27 && dn) + flag_int(c.version >= 27 && dn && c.open) + flag_int(c.version >= 27 && dn && c.open))]@) } else { None::<Seq<char>> },
        opt_text(v.delta_neutral_open_close) == if c.version >= 31 && dn && c.open { Some(t[(p + flag_int(c.version >= 27 && dn) + flag_int(c.version >= 27 && dn && c.open) + flag_int(c.version >= 27 && dn && c.open) + flag_int(c.version >= 27 && dn && c.open))]@) } else { None::<Seq<char>> },
        v.delta_neutral_short_sale == if c.version >= 31 && dn { Some(bool_at(t, (p + flag_int(c.version >= 27 && dn) + flag_int(c.version >= 27 && dn && c.open) + flag_int(c.version >= 27 && dn && c.open) + flag_int(c.version >= 27 && dn && c.open) + flag_int(c.version >= 31 && dn && c.open)))) } else { None::<bool> },
        v.delta_neutral_short_sale_slot == if c.version >= 31 && dn { Some(field_i32(t[(p + flag_int(c.version >= 27 && dn) + flag_int(c.version >= 27 && dn && c.open) + flag_int(c.version >= 27 && dn && c.open) + flag_int(c.version >= 27 && dn && c.open) + flag_int(c.version >= 31 && dn && c.open) + flag_int(c.version >= 31 && dn))]@)) } else { None::<i32> },
        opt_text(v.delta_neutral_designated_location) == if c.version >= 31 && dn { Some(t[(p + flag_int(c.version >= 27 && dn) + flag_int(c.version >= 27 && dn && c.open) + flag_int(c.version >= 27 && dn && c.open) + flag_int(c.version >= 27 && dn && c.open) + flag_int(c.version >= 31 && dn && c.open) + flag_int(c.version >= 31 && dn) + flag_int(c.version >= 31 && dn))]@) } else { None::<Seq<char>> },
        v.continuous_update == bool_at(t, (p + flag_int(c.version >= 27 && dn) + flag_int(c.version >= 27 && dn && c.open) + flag_int(c.version >= 27 && dn && c.open) + flag_int(c.version >= 27 && dn && c.open) + flag_int(c.version >= 31 && dn && c.open) + flag_int(c.version >= 31 && dn) + flag_int(c.version >= 31 && dn) + flag_int(c.version >= 31 && dn))),
        v.reference_price_type == field_i32(t[(p + flag_int(c.version >= 27 && dn) + flag_int(c.version >= 27 && dn && c.open) + flag_int(c.version >= 27 && dn && c.open) + flag_int(c.version >= 27 && dn && c.open) + flag_int(c.version >= 31 && dn && c.open) + flag_int(c.version >= 31 && dn) + flag_int(c.version >= 31 && dn) + flag_int(c.version >= 31 && dn) + 1)]@),
        float_view(v.trail_stop_price) == (t[(p + flag_int(c.version >= 27 && dn) + flag_int(c.version >= 27 && dn && c.open) + flag_int(c.version >= 27 && dn && c.open) + flag_int(c.version >= 27 && dn && c.open) + flag_int(c.version >= 31 && dn && c.open) + flag_int(c.version >= 31 && dn) + flag_int(c.version >= 31 && dn) + flag_int(c.version >= 31 && dn) + 2)]@, true),
        opt_float(v.trailing_percent) == if c.version >= 30 { Some((t[(p + flag_int(c.version >= 27 && dn) + flag_int(c.version >= 27 && dn && c.open) + flag_int(c.version >= 27 && dn && c.open) + flag_int(c.version >= 27 && dn && c.open) + flag_int(c.version >= 31 && dn && c.open) + flag_int(c.version >= 31 && dn) + flag_int(c.version >= 31 && dn) + flag_int(c.version >= 31 && dn) + 3)]@, true)) } else { None::<(Seq<char>, bool)> },
        opt_float(v.basis_points) == if c.open { Some((t[(p + flag_int(c.version >= 27 && dn) + flag_int(c.version >= 27 && dn && c.open) + flag_int(c.version >= 27 && dn && c.open) + flag_int(c.version >= 27 && dn && c.open) + flag_int(c.version >= 31 && dn && c.open) + flag_int(c.version >= 31 && dn) + flag_int(c.version >= 31 && dn) + flag_int(c.version >= 31 && dn) + flag_int(c.version >= 30) + 3)]@, true)) } else { None::<(Seq<char>, bool)> },
        v.basis_points_type == if c.open { Some(field_i32_show_unset(t[(p + flag_int(c.version >= 27 && dn) + flag_int(c.version >= 27 && dn && c.open) + flag_int(c.version >= 27 && dn && c.open) + flag_int(c.version >= 27 && dn && c.open) + flag_int(c.version >= 31 && dn && c.open) + flag_int(c.version >= 31 && dn) + flag_int(c.version >= 31 && dn) + flag_int(c.version >= 31 && dn) + flag_int(c.version >= 30) + flag_int(c.open) + 3)]@)) } else { None::<i32> },
        v.combo_legs_descrip@ == t[(p + flag_int(c.version >= 27 && dn) + flag_int(c.version >= 27 && dn && c.open) + flag_int(c.version >= 27 && dn && c.open) + flag_int(c.version >= 27 && dn && c.open) + flag_int(c.version >= 31 && dn && c.open) + flag_int(c.version >= 31 && dn) + flag_int(c.version >= 31 && dn) + flag_int(c.version >= 31 && dn) + flag_int(c.version >= 30) + flag_int(c.open) + flag_int(c.open) + 3)]@,
        v.combo_legs_count == if c.version >= 29 { Some(field_i32(t[(p + flag_int(c.version >= 27 && dn) + flag_int(c.version >= 27 && dn && c.open) + flag_int(c.version >= 27 && dn && c.open) + flag_int(c.version >= 27 && dn && c.open) + flag_int(c.version >= 31 && dn && c.open) + flag_int(c.version >= 31 && dn) + flag_int(c.version >= 31 && dn) + flag_int(c.version >= 31 && dn) + flag_int(c.version >= 30) + flag_int(c.open) + flag_int(c.open) + 4)]@)) } else { None::<i32> },
{
}

/// Reading `OrderComboCount` at `p` takes each value from its own field, in this order:
/// order_combo_legs_count
/// (a value that its condition leaves out takes no field).
pub proof fn law_combo_count_layout(c: OrderCtx, t: Seq<String>, p: int, v: OrderComboCount)
    requires
        combo_count_read(c, t, p, v),
    ensures
        v.order_combo_legs_count == field_i32(t[(p)]@),
{
}

/// Reading `SmartComboCount` at `p` takes each value from its own field, in this order:
/// smart_combo_routing_params_count
/// (a value that its condition leaves out takes no field).
pub proof fn law_smart_count_layout(c: OrderCtx, t: Seq<String>, p: int, v: SmartComboCount)
    requires
        smart_count_read(c, t, p, v),
    ensures
        v.smart_combo_routing_params_count == if c.version >= 26 { Some(field_i32(t[(p)]@)) } else { None::<i32> },
{
}

/// Reading `OrderScale` at `p` takes each value from its own field, in this order:
/// scale_init_level_size, scale_subs_level_size, scale_price_increment
/// (a value that its condition leaves out takes no field).
pub proof fn law_scale_layout(c: OrderCtx, t: Seq<String>, p: int, v: OrderScale)
    requires
        scale_read(c, t, p, v),
    ensures
        v.scale_init_level_size == field_i32_show_unset(t[(p)]@),
        v.scale_subs_level_size == if c.version >= 20 { Some(field_i32_show_unset(t[(p + 1)]@)) } else { None::<i32> },
        float_view(v.scale_price_increment) == (t[(p + flag_int(c.version >= 20) + 1)]@, true),
{
}

/// Reading `OrderScaleTail` at `p` takes each value from its own field, in this order:
/// scale_price_adjust_value, scale_price_adjust_interval, scale_profit_offset, scale_auto_reset,
/// scale_init_position, scale_init_fill_qty, scale_random_percent, hedge_type
/// (a value that its condition leaves out takes no field).
pub proof fn law_scale_tail_layout(c: OrderCtx, positive: bool, t: Seq<String>, p: int, v: OrderScaleTail)
    requires
        scale_tail_read(c, positive, t, p, v),
    ensures
        opt_float(v.scale_price_adjust_value) == if c.version >= 28 && positive { Some((t[(p)]@, true)) } else { None::<(Seq<char>, bool)> },
        v.scale_price_adjust_interval == if c.version >= 28 && positive { Some(field_i32_show_unset(t[(p + flag_int(c.version >= 28 && positive))]@)) } else { None::<i32> },
        opt_float(v.scale_profit_offset) == if c.version >= 28 && positive { Some((t[(p + flag_int(c.version >= 28 && positive) + flag_int(c.version >= 28 && positive))]@, true)) } else { None::<(Seq<char>, bool)> },
        v.scale_auto_reset == if c.version >= 28 && positive { Some(bool_at(t, (p + flag_int(c.version >= 28 && positive) + flag_int(c.version >= 28 && positive) + flag_int(c.version >= 28 && positive)))) } else { None::<bool> },
        v.scale_init_position == if c.version >= 28 && positive { Some(field_i32_show_unset(t[(p + flag_int(c.version >= 28 && positive) + flag_int(c.version >= 28 && positive) + flag_int(c.version >= 28 && positive) + flag_int(c.version >= 28 && positive))]@)) } else { None::<i32> },
        v.scale_init_fill_qty == if c.version >= 28 && positive { Some(field_i32_show_unset(t[(p + flag_int(c.version >= 28 && positive) + flag_int(c.version >= 28 && positive) + flag_int(c.version >= 28 && positive) + flag_int(c.version >= 28 && positive) + flag_int(c.version >= 28 && positive))]@)) } else { None::<i32> },
        v.scale_random_percent == if c.version >= 28 && positive { Some(bool_at(t, (p + flag_int(c.version >= 28 && positive) + flag_int(c.version >= 28 && positive) + flag_int(c.version >= 28 && positive) + flag_int(c.version >= 28 && positive) + flag_int(c.version >= 28 && positive) + flag_int(c.version >= 28 && positive)))) } else { None::<bool> },
        opt_text(v.hedge_type) == if c.version >= 24 { Some(t[(p + flag_int(c.version >= 28 && positive) + flag_int(c.version >= 28 && positive) + flag_int(c.version >= 28 && positive) + flag_int(c.version >= 28 && positive) + flag_int(c.version >= 28 && positive) + flag_int(c.version >= 28 && positive) + flag_int(c.version >= 28 && positive))]@) } else { None::<Seq<char>> },
{
}

/// Reading `OrderClearing` at `p` takes each value from its own field, in this order: hedge_param,
/// opt_out_smart_routing, clearing_account, clearing_intent, not_held,
/// delta_neutral_contract_present
/// (a value that its condition leaves out takes no field).
pub proof fn law_clearing_layout(c: OrderCtx, hedge: bool, t: Seq<String>, p: int, v: OrderClearing)
    requires
        clearing_read(c, hedge, t, p, v),
    ensures
        opt_text(v.hedge_param) == if hedge { Some(t[(p)]@) } else { None::<Seq<char>> },
        v.opt_out_smart_routing == if c.version >= 25 && c.open { Some(bool_at(t, (p + flag_int(hedge)))) } else { None::<bool> },
        v.clearing_account@ == t[(p + flag_int(hedge) + flag_int(c.version >= 25 && c.open))]@,
        v.clearing_intent@ == t[(p + flag_int(hedge) + flag_int(c.version >= 25 && c.open) + 1)]@,
        v.not_held == if c.version >= 22 { Some(bool_at(t, (p + flag_int(hedge) + flag_int(c.version >= 25 && c.open) + 2))) } else { None::<bool> },
        v.delta_neutral_contract_present == if c.version >= 20 { Some(bool_at(t, (p + flag_int(hedge) + flag_int(c.version >= 25 && c.open) + flag_int(c.version >= 22) + 2))) } else { None::<bool> },
{
}

/// Reading `OrderDeltaNeutral` at `p` takes each value from its own field, in this order:
/// delta_neutral_contract_con_id, delta_neutral_contract_delta, delta_neutral_contract_price,
/// algo_strategy
/// (a value that its condition leaves out takes no field).
pub proof fn law_delta_neutral_layout(c: OrderCtx, present: bool, t: Seq<String>, p: int, v: OrderDeltaNeutral)
    requires
        delta_neutral_read(c, present, t, p, v),
    ensures
        v.delta_neutral_contract_con_id == if present { Some(field_i32(t[(p)]@)) } else { None::<i32> },
        opt_float(v.delta_neutral_contract_delta) == if present { Some((t[(p + flag_int(present))]@, false)) } else { None::<(Seq<char>, bool)> },
        opt_float(v.delta_neutral_contract_price) == if present { Some((t[(p + flag_int(present) + flag_int(present))]@, false)) } else { None::<(Seq<char>, bool)> },
        opt_text(v.algo_strategy) == if c.version >= 21 { Some(t[(p + flag_int(present) + flag_int(present) + flag_int(present))]@) } else { None::<Seq<char>> },
{
}

/// Reading `AlgoCount` at `p` takes each value from its own field, in this order: algo_params_count
/// (a value that its condition leaves out takes no field).
pub proof fn law_algo_count_layout(c: OrderCtx, algo: bool, t: Seq<String>, p: int, v: AlgoCount)
    requires
        algo_count_read(c, algo, t, p, v),
    ensures
        v.algo_params_count == if algo { Some(field_i32(t[(p)]@)) } else { None::<i32> },
{
}

/// Reading `OrderStateFields` at `p` takes each value from its own field, in this order: solicited,
/// what_if, status, init_margin_before, maint_margin_before, equity_with_loan_before,
/// init_margin_change, maint_margin_change, equity_with_loan_change, init_margin_after,
/// maint_margin_after, equity_with_loan_after, commission, min_commission, max_commission,
/// commission_currency, warning_text, randomize_size, randomize_price
/// (a value that its condition leaves out takes no field).
pub proof fn law_state_layout(c: OrderCtx, t: Seq<String>, p: int, v: OrderStateFields)
    requires
        state_read(c, t, p, v),
    ensures
        v.solicited == if c.version >= 33 { Some(bool_at(t, (p))) } else { None::<bool> },
        v.what_if == if c.open { Some(bool_at(t, (p + flag_int(c.version >= 33)))) } else { None::<bool> },
        v.status@ == t[(p + flag_int(c.version >= 33) + flag_int(c.open))]@,
        opt_text(v.init_margin_before) == if c.open && c.server_version >= MIN_SERVER_VER_WHAT_IF_EXT_FIELDS { Some(t[(p + flag_int(c.version >= 33) + flag_int(c.open) + 1)]@) } else { None::<Seq<char>> },
        opt_text(v.maint_margin_before) == if c.open && c.server_version >= MIN_SERVER_VER_WHAT_IF_EXT_FIELDS { Some(t[(p + flag_int(c.version >= 33) + flag_int(c.open) + flag_int(c.open && c.server_version >= MIN_SERVER_VER_WHAT_IF_EXT_FIELDS) + 1)]@) } else { None::<Seq<char>> },
        opt_text(v.equity_with_loan_before) == if c.open && c.server_version >= MIN_SERVER_VER_WHAT_IF_EXT_FIELDS { Some(t[(p + flag_int(c.version >= 33) + flag_int(c.open) + flag_int(c.open && c.server_version >= MIN_SERVER_VER_WHAT_IF_EXT_FIELDS) + flag_int(c.open && c.server_version >= MIN_SERVER_VER_WHAT_IF_EXT_FIELDS) + 1)]@) } else { None::<Seq<char>> },
        opt_text(v.init_margin_change) == if c.open && c.server_version >= MIN_SERVER_VER_WHAT_IF_EXT_FIELDS { Some(t[(p + flag_int(c.version >= 33) + flag_int(c.open) + flag_int(c.open && c.server_version >= MIN_SERVER_VER_WHAT_IF_EXT_FIELDS) + flag_int(c.open && c.server_version >= MIN_SERVER_VER_WHAT_IF_EXT_FIELDS) + flag_int(c.open && c.server_version >= MIN_SERVER_VER_WHAT_IF_EXT_FIELDS) + 1)]@) } else { None::<Seq<char>> },
        opt_text(v.maint_margin_change) == if c.open && c.server_version >= MIN_SERVER_VER_WHAT_IF_EXT_FIELDS { Some(t[(p + flag_int(c.version >= 33) + flag_int(c.open) + flag_int(c.open && c.server_version >= MIN_SERVER_VER_WHAT_IF_EXT_FIELDS) + flag_int(c.open && c.server_version >= MIN_SERVER_VER_WHAT_IF_EXT_FIELDS) + flag_int(c.open && c.server_version >= MIN_SERVER_VER_WHAT_IF_EXT_FIELDS) + flag_int(c.open && c.server_version >= MIN_SERVER_VER_WHAT_IF_EXT_FIELDS) + 1)]@) } else { None::<Seq<char>> },
        opt_text(v.equity_with_loan_change) == if c.open && c.server_version >= MIN_SERVER_VER_WHAT_IF_EXT_FIELDS { Some(t[(p + flag_int(c.version >= 33) + flag_int(c.open) + flag_int(c.open && c.server_version >= MIN_SERVER_VER_WHAT_IF_EXT_FIELDS) + flag_int(c.open && c.server_version >= MIN_SERVER_VER_WHAT_IF_EXT_FIELDS) + flag_int(c.open && c.server_version >= MIN_SERVER_VER_WHAT_IF_EXT_FIELDS) + flag_int(c.open && c.server_version >= MIN_SERVER_VER_WHAT_IF_EXT_FIELDS) + flag_int(c.open && c.server_version >= MIN_SERVER_VER_WHAT_IF_EXT_FIELDS) + 1)]@) } else { None::<Seq<char>> },
        opt_text(v.init_margin_after) == if c.open { Some(t[(p + flag_int(c.version >= 33) + flag_int(c.open) + flag_int(c.open && c.server_version >= MIN_SERVER_VER_WHAT_IF_EXT_FIELDS) + flag_int(c.open && c.server_version >= MIN_SERVER_VER_WHAT_IF_EXT_FIELDS) + flag_int(c.open && c.server_version >= MIN_SERVER_VER_WHAT_IF_EXT_FIELDS) + flag_int(c.open && c.server_version >= MIN_SERVER_VER_WHAT_IF_EXT_FIELDS) + flag_int(c.open && c.server_version >= MIN_SERVER_VER_WHAT_IF_EXT_FIELDS) + flag_int(c.open && c.server_version >= MIN_SERVER_VER_WHAT_IF_EXT_FIELDS) + 1)]@) } else { None::<Seq<char>> },
        opt_text(v.maint_margin_after) == if c.open { Some(t[(p + flag_int(c.version >= 33) + flag_int(c.open) + flag_int(c.open && c.server_version >= MIN_SERVER_VER_WHAT_IF_EXT_FIELDS) + flag_int(c.open && c.server_version >= MIN_SERVER_VER_WHAT_IF_EXT_FIELDS) + flag_int(c.open && c.server_version >= MIN_SERVER_VER_WHAT_IF_EXT_FIELDS) + flag_int(c.open && c.server_version >= MIN_SERVER_VER_WHAT_IF_EXT_FIELDS) + flag_int(c.open && c.server_version >= MIN_SERVER_VER_WHAT_IF_EXT_FIELDS) + flag_int(c.open && c.server_version >= MIN_SERVER_VER_WHAT_IF_EXT_FIELDS) + flag_int(c.open) + 1)]@) } else { None::<Seq<char>> },
        opt_text(v.equity_with_loan_after) == if c.open { Some(t[(p + flag_int(c.version >= 33) + flag_int(c.open) + flag_int(c.open && c.server_version >= MIN_SERVER_VER_WHAT_IF_EXT_FIELDS) + flag_int(c.open && c.server_version >= MIN_SERVER_VER_WHAT_IF_EXT_FIELDS) + flag_int(c.open && c.server_version >= MIN_SERVER_VER_WHAT_IF_EXT_FIELDS) + flag_int(c.open && c.server_version >= MIN_SERVER_VER_WHAT_IF_EXT_FIELDS) + flag_int(c.open && c.server_version >= MIN_SERVER_VER_WHAT_IF_EXT_FIELDS) + flag_int(c.open && c.server_version >= MIN_SERVER_VER_WHAT_IF_EXT_FIELDS) + flag_int(c.open) + flag_int(c.open) + 1)]@) } else { None::<Seq<char>> },
        opt_float(v.commission) == if c.open { Some((t[(p + flag_int(c.version >= 33) + flag_int(c.open) + flag_int(c.open && c.server_version >= MIN_SERVER_VER_WHAT_IF_EXT_FIELDS) + flag_int(c.open && c.server_version >= MIN_SERVER_VER_WHAT_IF_EXT_FIELDS) + flag_int(c.open && c.server_version >= MIN_SERVER_VER_WHAT_IF_EXT_FIELDS) + flag_int(c.open && c.server_version >= MIN_SERVER_VER_WHAT_IF_EXT_FIELDS) + flag_int(c.open && c.server_version >= MIN_SERVER_VER_WHAT_IF_EXT_FIELDS) + flag_int(c.open && c.server_version >= MIN_SERVER_VER_WHAT_IF_EXT_FIELDS) + flag_int(c.open) + flag_int(c.open) + flag_int(c.open) + 1)]@, true)) } else { None::<(Seq<char>, bool)> },
        opt_float(v.min_commission) == if c.open { Some((t[(p + flag_int(c.version >= 33) + flag_int(c.open) + flag_int(c.open && c.server_version >= MIN_SERVER_VER_WHAT_IF_EXT_FIELDS) + flag_int(c.open && c.server_version >= MIN_SERVER_VER_WHAT_IF_EXT_FIELDS) + flag_int(c.open && c.server_version >= MIN_SERVER_VER_WHAT_IF_EXT_FIELDS) + flag_int(c.open && c.server_version >= MIN_SERVER_VER_WHAT_IF_EXT_FIELDS) + flag_int(c.open && c.server_version >= MIN_SERVER_VER_WHAT_IF_EXT_FIELDS) + flag_int(c.open && c.server_version >= MIN_SERVER_VER_WHAT_IF_EXT_FIELDS) + flag_int(c.open) + flag_int(c.open) + flag_int(c.open) + flag_int(c.open) + 1)]@, true)) } else { None::<(Seq<char>, bool)> },
        opt_float(v.max_commission) == if c.open { Some((t[(p + flag_int(c.version >= 33) + flag_int(c.open) + flag_int(c.open && c.server_version >= MIN_SERVER_VER_WHAT_IF_EXT_FIELDS) + flag_int(c.open && c.server_version >= MIN_SERVER_VER_WHAT_IF_EXT_FIELDS) + flag_int(c.open && c.server_version >= MIN_SERVER_VER_WHAT_IF_EXT_FIELDS) + flag_int(c.open && c.server_version >= MIN_SERVER_VER_WHAT_IF_EXT_FIELDS) + flag_int(c.open && c.server_version >= MIN_SERVER_VER_WHAT_IF_EXT_FIELDS) + flag_int(c.open && c.server_version >= MIN_SERVER_VER_WHAT_IF_EXT_FIELDS) + flag_int(c.open) + flag_int(c.open) + flag_int(c.open) + flag_int(c.open) + flag_int(c.open) + 1)]@, true)) } else { None::<(Seq<char>, bool)> },
        opt_text(v.commission_currency) == if c.open { Some(t[(p + flag_int(c.version >= 33) + flag_int(c.open) + flag_int(c.open && c.server_version >= MIN_SERVER_VER_WHAT_IF_EXT_FIELDS) + flag_int(c.open && c.server_version >= MIN_SERVER_VER_WHAT_IF_EXT_FIELDS) + flag_int(c.open && c.server_version >= MIN_SERVER_VER_WHAT_IF_EXT_FIELDS) + flag_int(c.open && c.server_version >= MIN_SERVER_VER_WHAT_IF_EXT_FIELDS) + flag_int(c.open && c.server_version >= MIN_SERVER_VER_WHAT_IF_EXT_FIELDS) + flag_int(c.open && c.server_version >= MIN_SERVER_VER_WHAT_IF_EXT_FIELDS) + flag_int(c.open) + flag_int(c.open) + flag_int(c.open) + flag_int(c.open) + flag_int(c.open) + flag_int(c.open) + 1)]@) } else { None::<Seq<char>> },
        opt_text(v.warning_text) == if c.open { Some(t[(p + flag_int(c.version >= 33) + flag_int(c.open) + flag_int(c.open && c.server_version >= MIN_SERVER_VER_WHAT_IF_EXT_FIELDS) + flag_int(c.open && c.server_version >= MIN_SERVER_VER_WHAT_IF_EXT_FIELDS) + flag_int(c.open && c.server_version >= MIN_SERVER_VER_WHAT_IF_EXT_FIELDS) + flag_int(c.open && c.server_version >= MIN_SERVER_VER_WHAT_IF_EXT_FIELDS) + flag_int(c.open && c.server_version >= MIN_SERVER_VER_WHAT_IF_EXT_FIELDS) + flag_int(c.open && c.server_version >= MIN_SERVER_VER_WHAT_IF_EXT_FIELDS) + flag_int(c.open) + flag_int(c.open) + flag_int(c.open) + flag_int(c.open) + flag_int(c.open) + flag_int(c.open) + flag_int(c.open) + 1)]@) } else { None::<Seq<char>> },
        v.randomize_size == if c.version >= 34 { Some(bool_at(t, (p + flag_int(c.version >= 33) + flag_int(c.open) + flag_int(c.open && c.server_version >= MIN_SERVER_VER_WHAT_IF_EXT_FIELDS) + flag_int(c.open && c.server_version >= MIN_SERVER_VER_WHAT_IF_EXT_FIELDS) + flag_int(c.open && c.server_version >= MIN_SERVER_VER_WHAT_IF_EXT_FIELDS) + flag_int(c.open && c.server_version >= MIN_SERVER_VER_WHAT_IF_EXT_FIELDS) + flag_int(c.open && c.server_version >= MIN_SERVER_VER_WHAT_IF_EXT_FIELDS) + flag_int(c.open && c.server_version >= MIN_SERVER_VER_WHAT_IF_EXT_FIELDS) + flag_int(c.open) + flag_int(c.open) + flag_int(c.open) + flag_int(c.open) + flag_int(c.open) + flag_int(c.open) + flag_int(c.open) + flag_int(c.open) + 1))) } else { None::<bool> },
        v.randomize_price == if c.version >= 34 { Some(bool_at(t, (p + flag_int(c.version >= 33) + flag_int(c.open) + flag_int(c.open && c.server_version >= MIN_SERVER_VER_WHAT_IF_EXT_FIELDS) + flag_int(c.open && c.server_version >= MIN_SERVER_VER_WHAT_IF_EXT_FIELDS) + flag_int(c.open && c.server_version >= MIN_SERVER_VER_WHAT_IF_EXT_FIELDS) + flag_int(c.open && c.server_version >= MIN_SERVER_VER_WHAT_IF_EXT_FIELDS) + flag_int(c.open && c.server_version >= MIN_SERVER_VER_WHAT_IF_EXT_FIELDS) + flag_int(c.open && c.server_version >= MIN_SERVER_VER_WHAT_IF_EXT_FIELDS) + flag_int(c.open) + flag_int(c.open) + flag_int(c.open) + flag_int(c.open) + flag_int(c.open) + flag_int(c.open) + flag_int(c.open) + flag_int(c.open) + flag_int(c.version >= 34) + 1))) } else { None::<bool> },
{
}

/// Reading `OrderPegBench` at `p` takes each value from its own field, in this order:
/// reference_contract_id, is_pegged_change_amount_decrease, pegged_change_amount,
/// reference_change_amount, reference_exchange_id, conditions_count
/// (a value that its condition leaves out takes no field).
pub proof fn law_peg_bench_layout(c: OrderCtx, peg: bool, t: Seq<String>, p: int, v: OrderPegBench)
    requires
        peg_bench_read(c, peg, t, p, v),
    ensures
        v.reference_contract_id == if c.server_version >= MIN_SERVER_VER_PEGGED_TO_BENCHMARK && peg { Some(field_i32(t[(p)]@)) } else { None::<i32> },
        v.is_pegged_change_amount_decrease == if c.server_version >= MIN_SERVER_VER_PEGGED_TO_BENCHMARK && peg { Some(bool_at(t, (p + flag_int(c.server_version >= MIN_SERVER_VER_PEGGED_TO_BENCHMARK && peg)))) } else { None::<bool> },
        opt_float(v.pegged_change_amount) == if c.server_version >= MIN_SERVER_VER_PEGGED_TO_BENCHMARK && peg { Some((t[(p + flag_int(c.server_version >= MIN_SERVER_VER_PEGGED_TO_BENCHMARK && peg) + flag_int(c.server_version >= MIN_SERVER_VER_PEGGED_TO_BENCHMARK && peg))]@, false)) } else { None::<(Seq<char>, bool)> },
        opt_float(v.reference_change_amount) == if c.server_version >= MIN_SERVER_VER_PEGGED_TO_BENCHMARK && peg { Some((t[(p + flag_int(c.server_version >= MIN_SERVER_VER_PEGGED_TO_BENCHMARK && peg) + flag_int(c.server_version >= MIN_SERVER_VER_PEGGED_TO_BENCHMARK && peg) + flag_int(c.server_version >= MIN_SERVER_VER_PEGGED_TO_BENCHMARK && peg))]@, false)) } else { None::<(Seq<char>, bool)> },
        opt_text(v.reference_exchange_id) == if c.server_version >= MIN_SERVER_VER_PEGGED_TO_BENCHMARK && peg { Some(t[(p + flag_int(c.server_version >= MIN_SERVER_VER_PEGGED_TO_BENCHMARK && peg) + flag_int(c.server_version >= MIN_SERVER_VER_PEGGED_TO_BENCHMARK && peg) + flag_int(c.server_version >= MIN_SERVER_VER_PEGGED_TO_BENCHMARK && peg) + flag_int(c.server_version >= MIN_SERVER_VER_PEGGED_TO_BENCHMARK && peg))]@) } else { None::<Seq<char>> },
        v.conditions_count == if c.server_version >= MIN_SERVER_VER_PEGGED_TO_BENCHMARK { Some(field_i32(t[(p + flag_int(c.server_version >= MIN_SERVER_VER_PEGGED_TO_BENCHMARK && peg) + flag_int(c.server_version >= MIN_SERVER_VER_PEGGED_TO_BENCHMARK && peg) + flag_int(c.server_version >= MIN_SERVER_VER_PEGGED_TO_BENCHMARK && peg) + flag_int(c.server_version >= MIN_SERVER_VER_PEGGED_TO_BENCHMARK && peg) + flag_int(c.server_version >= MIN_SERVER_VER_PEGGED_TO_BENCHMARK && peg))]@)) } else { None::<i32> },
{
}

/// Reading `OrderTail` at `p` takes each value from its own field, in this order:
/// adjusted_order_type, trigger_price, trail_stop_price, lmt_price_offset, adjusted_stop_price,
/// adjusted_stop_limit_price, adjusted_trailing_amount, adjustable_trailing_unit,
/// soft_dollar_tier_name, soft_dollar_tier_value, soft_dollar_tier_display_name, cash_qty,
/// dont_use_auto_price_for_hedge, is_oms_container, discretionary_up_to_limit_price,
/// use_price_mgmt_algo, auto_cancel_date, filled_quantity, ref_futures_con_id, auto_cancel_parent,
/// shareholder, imbalance_only, route_marketable_to_bbo, parent_perm_id, completed_time,
/// completed_status
/// (a value that its condition leaves out takes no field).
pub proof fn law_tail_layout(c: OrderCtx, t: Seq<String>, p: int, v: OrderTail)
    requires
        tail_read(c, t, p, v),
    ensures
        opt_text(v.adjusted_order_type) == if c.open && c.server_version >= MIN_SERVER_VER_PEGGED_TO_BENCHMARK { Some(t[(p)]@) } else { None::<Seq<char>> },
        opt_float(v.trigger_price) == if c.open && c.server_version >= MIN_SERVER_VER_PEGGED_TO_BENCHMARK { Some((t[(p + flag_int(c.open && c.server_version >= MIN_SERVER_VER_PEGGED_TO_BENCHMARK))]@, false)) } else { None::<(Seq<char>, bool)> },
        opt_float(v.trail_stop_price) == if !c.open || c.server_version >= MIN_SERVER_VER_PEGGED_TO_BENCHMARK { Some((t[(p + flag_int(c.open && c.server_version >= MIN_SERVER_VER_PEGGED_TO_BENCHMARK) + flag_int(c.open && c.server_version >= MIN_SERVER_VER_PEGGED_TO_BENCHMARK))]@, false)) } else { None::<(Seq<char>, bool)> },
        opt_float(v.lmt_price_offset) == if !c.open || c.server_version >= MIN_SERVER_VER_PEGGED_TO_BENCHMARK { Some((t[(p + flag_int(c.open && c.server_version >= MIN_SERVER_VER_PEGGED_TO_BENCHMARK) + flag_int(c.open && c.server_version >= MIN_SERVER_VER_PEGGED_TO_BENCHMARK) + flag_int(!c.open || c.server_version >= MIN_SERVER_VER_PEGGED_TO_BENCHMARK))]@, false)) } else { None::<(Seq<char>, bool)> },
        opt_float(v.adjusted_stop_price) == if c.open && c.server_version >= MIN_SERVER_VER_PEGGED_TO_BENCHMARK { Some((t[(p + flag_int(c.open && c.server_version >= MIN_SERVER_VER_PEGGED_TO_BENCHMARK) + flag_int(c.open && c.server_version >= MIN_SERVER_VER_PEGGED_TO_BENCHMARK) + flag_int(!c.open || c.server_version >= MIN_SERVER_VER_PEGGED_TO_BENCHMARK) + flag_int(!c.open || c.server_version >= MIN_SERVER_VER_PEGGED_TO_BENCHMARK))]@, false)) } else { None::<(Seq<char>, bool)> },
        opt_float(v.adjusted_stop_limit_price) == if c.open && c.server_version >= MIN_SERVER_VER_PEGGED_TO_BENCHMARK { Some((t[(p + flag_int(c.open && c.server_version >= MIN_SERVER_VER_PEGGED_TO_BENCHMARK) + flag_int(c.open && c.server_version >= MIN_SERVER_VER_PEGGED_TO_BENCHMARK) + flag_int(!c.open || c.server_version >= MIN_SERVER_VER_PEGGED_TO_BENCHMARK) + flag_int(!c.open || c.server_version >= MIN_SERVER_VER_PEGGED_TO_BENCHMARK) + flag_int(c.open && c.server_version >= MIN_SERVER_VER_PEGGED_TO_BENCHMARK))]@, false)) } else { None::<(Seq<char>, bool)> },
        opt_float(v.adjusted_trailing_amount) == if c.open && c.server_version >= MIN_SERVER_VER_PEGGED_TO_BENCHMARK { Some((t[(p + flag_int(c.open && c.server_version >= MIN_SERVER_VER_PEGGED_TO_BENCHMARK) + flag_int(c.open && c.server_version >= MIN_SERVER_VER_PEGGED_TO_BENCHMARK) + flag_int(!c.open || c.server_version >= MIN_SERVER_VER_PEGGED_TO_BENCHMARK) + flag_int(!c.open || c.server_version >= MIN_SERVER_VER_PEGGED_TO_BENCHMARK) + flag_int(c.open && c.server_version >= MIN_SERVER_VER_PEGGED_TO_BENCHMARK) + flag_int(c.open && c.server_version >= MIN_SERVER_VER_PEGGED_TO_BENCHMARK))]@, false)) } else { None::<(Seq<char>, bool)> },
        v.adjustable_trailing_unit == if c.open && c.server_version >= MIN_SERVER_VER_PEGGED_TO_BENCHMARK { Some(field_i32(t[(p + flag_int(c.open && c.server_version >= MIN_SERVER_VER_PEGGED_TO_BENCHMARK) + flag_int(c.open && c.server_version >= MIN_SERVER_VER_PEGGED_TO_BENCHMARK) + flag_int(!c.open || c.server_version >= MIN_SERVER_VER_PEGGED_TO_BENCHMARK) + flag_int(!c.open || c.server_version >= MIN_SERVER_VER_PEGGED_TO_BENCHMARK) + flag_int(c.open && c.server_version >= MIN_SERVER_VER_PEGGED_TO_BENCHMARK) + flag_int(c.open && c.server_version >= MIN_SERVER_VER_PEGGED_TO_BENCHMARK) + flag_int(c.open && c.server_version >= MIN_SERVER_VER_PEGGED_TO_BENCHMARK))]@)) } else { None::<i32> },
        opt_text(v.soft_dollar_tier_name) == if c.open && c.server_version >= MIN_SERVER_VER_SOFT_DOLLAR_TIER { Some(t[(p + flag_int(c.open && c.server_version >= MIN_SERVER_VER_PEGGED_TO_BENCHMARK) + flag_int(c.open && c.server_version >= MIN_SERVER_VER_PEGGED_TO_BENCHMARK) + flag_int(!c.open || c.server_version >= MIN_SERVER_VER_PEGGED_TO_BENCHMARK) + flag_int(!c.open || c.server_version >= MIN_SERVER_VER_PEGGED_TO_BENCHMARK) + flag_int(c.open && c.server_version >= MIN_SERVER_VER_PEGGED_TO_BENCHMARK) + flag_int(c.open && c.server_version >= MIN_SERVER_VER_PEGGED_TO_BENCHMARK) + flag_int(c.open && c.server_version >= MIN_SERVER_VER_PEGGED_TO_BENCHMARK) + flag_int(c.open && c.server_version >= MIN_SERVER_VER_PEGGED_TO_BENCHMARK))]@) } else { None::<Seq<char>> },
        opt_text(v.soft_dollar_tier_value) == if c.open && c.server_version >= MIN_SERVER_VER_SOFT_DOLLAR_TIER { Some(t[(p + flag_int(c.open && c.server_version >= MIN_SERVER_VER_PEGGED_TO_BENCHMARK) + flag_int(c.open && c.server_version >= MIN_SERVER_VER_PEGGED_TO_BENCHMARK) + flag_int(!c.open || c.server_version >= MIN_SERVER_VER_PEGGED_TO_BENCHMARK) + flag_int(!c.open || c.server_version >= MIN_SERVER_VER_PEGGED_TO_BENCHMARK) + flag_int(c.open && c.server_version >= MIN_SERVER_VER_PEGGED_TO_BENCHMARK) + flag_int(c.open && c.server_version >= MIN_SERVER_VER_PEGGED_TO_BENCHMARK) + flag_int(c.open && c.server_version >= MIN_SERVER_VER_PEGGED_TO_BENCHMARK) + flag_int(c.open && c.server_version >= MIN_SERVER_VER_PEGGED_TO_BENCHMARK) + flag_int(c.open && c.server_version >= MIN_SERVER_VER_SOFT_DOLLAR_TIER))]@) } else { None::<Seq<char>> },
        opt_text(v.soft_dollar_tier_display_name) == if c.open && c.server_version >= MIN_SERVER_VER_SOFT_DOLLAR_TIER { Some(t[(p + flag_int(c.open && c.server_version >= MIN_SERVER_VER_PEGGED_TO_BENCHMARK) + flag_int(c.open && c.server_version >= MIN_SERVER_VER_PEGGED_TO_BENCHMARK) + flag_int(!c.open || c.server_version >= MIN_SERVER_VER_PEGGED_TO_BENCHMARK) + flag_int(!c.open || c.server_version >= MIN_SERVER_VER_PEGGED_TO_BENCHMARK) + flag_int(c.open && c.server_version >= MIN_SERVER_VER_PEGGED_TO_BENCHMARK) + flag_int(c.open && c.server_version >= MIN_SERVER_VER_PEGGED_TO_BENCHMARK) + flag_int(c.open && c.server_version >= MIN_SERVER_VER_PEGGED_TO_BENCHMARK) + flag_int(c.open && c.server_version >= MIN_SERVER_VER_PEGGED_TO_BENCHMARK) + flag_int(c.open && c.server_version >= MIN_SERVER_VER_SOFT_DOLLAR_TIER) + flag_int(c.open && c.server_version >= MIN_SERVER_VER_SOFT_DOLLAR_TIER))]@) } else { None::<Seq<char>> },
        opt_float(v.cash_qty) == if c.server_version >= MIN_SERVER_VER_CASH_QTY { Some((t[(p + flag_int(c.open && c.server_version >= MIN_SERVER_VER_PEGGED_TO_BENCHMARK) + flag_int(c.open && c.server_version >= MIN_SERVER_VER_PEGGED_TO_BENCHMARK) + flag_int(!c.open || c.server_version >= MIN_SERVER_VER_PEGGED_TO_BENCHMARK) + flag_int(!c.open || c.server_version >= MIN_SERVER_VER_PEGGED_TO_BENCHMARK) + flag_int(c.open && c.server_version >= MIN_SERVER_VER_PEGGED_TO_BENCHMARK) + flag_int(c.open && c.server_version >= MIN_SERVER_VER_PEGGED_TO_BENCHMARK) + flag_int(c.open && c.server_version >= MIN_SERVER_VER_PEGGED_TO_BENCHMARK) + flag_int(c.open && c.server_version >= MIN_SERVER_VER_PEGGED_TO_BENCHMARK) + flag_int(c.open && c.server_version >= MIN_SERVER_VER_SOFT_DOLLAR_TIER) + flag_int(c.open && c.server_version >= MIN_SERVER_VER_SOFT_DOLLAR_TIER) + flag_int(c.open && c.server_version >= MIN_SERVER_VER_SOFT_DOLLAR_TIER))]@, false)) } else { None::<(Seq<char>, bool)> },
        v.dont_use_auto_price_for_hedge == if c.server_version >= MIN_SERVER_VER_AUTO_PRICE_FOR_HEDGE { Some(bool_at(t, (p + flag_int(c.open && c.server_version >= MIN_SERVER_VER_PEGGED_TO_BENCHMARK) + flag_int(c.open && c.server_version >= MIN_SERVER_VER_PEGGED_TO_BENCHMARK) + flag_int(!c.open || c.server_version >= MIN_SERVER_VER_PEGGED_TO_BENCHMARK) + flag_int(!c.open || c.server_version >= MIN_SERVER_VER_PEGGED_TO_BENCHMARK) + flag_int(c.open && c.server_version >= MIN_SERVER_VER_PEGGED_TO_BENCHMARK) + flag_int(c.open && c.server_version >= MIN_SERVER_VER_PEGGED_TO_BENCHMARK) + flag_int(c.open && c.server_version >= MIN_SERVER_VER_PEGGED_TO_BENCHMARK) + flag_int(c.open && c.server_version >= MIN_SERVER_VER_PEGGED_TO_BENCHMARK) + flag_int(c.open && c.server_version >= MIN_SERVER_VER_SOFT_DOLLAR_TIER) + flag_int(c.open && c.server_version >= MIN_SERVER_VER_SOFT_DOLLAR_TIER) + flag_int(c.open && c.server_version >= MIN_SERVER_VER_SOFT_DOLLAR_TIER) + flag_int(c.server_version >= MIN_SERVER_VER_CASH_QTY)))) } else { None::<bool> },
        v.is_oms_container == if c.server_version >= MIN_SERVER_VER_ORDER_CONTAINER { Some(bool_at(t, (p + flag_int(c.open && c.server_version >= MIN_SERVER_VER_PEGGED_TO_BENCHMARK) + flag_int(c.open && c.server_version >= MIN_SERVER_VER_PEGGED_TO_BENCHMARK) + flag_int(!c.open || c.server_version >= MIN_SERVER_VER_PEGGED_TO_BENCHMARK) + flag_int(!c.open || c.server_version >= MIN_SERVER_VER_PEGGED_TO_BENCHMARK) + flag_int(c.open && c.server_version >= MIN_SERVER_VER_PEGGED_TO_BENCHMARK) + flag_int(c.open && c.server_version >= MIN_SERVER_VER_PEGGED_TO_BENCHMARK) + flag_int(c.open && c.server_version >= MIN_SERVER_VER_PEGGED_TO_BENCHMARK) + flag_int(c.open && c.server_version >= MIN_SERVER_VER_PEGGED_TO_BENCHMARK) + flag_int(c.open && c.server_version >= MIN_SERVER_VER_SOFT_DOLLAR_TIER) + flag_int(c.open && c.server_version >= MIN_SERVER_VER_SOFT_DOLLAR_TIER) + flag_int(c.open && c.server_version >= MIN_SERVER_VER_SOFT_DOLLAR_TIER) + flag_int(c.server_version >= MIN_SERVER_VER_CASH_QTY) + flag_int(c.server_version >= MIN_SERVER_VER_AUTO_PRICE_FOR_HEDGE)))) } else { None::<bool> },
        v.discretionary_up_to_limit_price == if c.open && c.server_version >= MIN_SERVER_VER_D_PEG_ORDERS { Some(bool_at(t, (p + flag_int(c.open && c.server_version >= MIN_SERVER_VER_PEGGED_TO_BENCHMARK) + flag_int(c.open && c.server_version >= MIN_SERVER_VER_PEGGED_TO_BENCHMARK) + flag_int(!c.open || c.server_version >= MIN_SERVER_VER_PEGGED_TO_BENCHMARK) + flag_int(!c.open || c.server_version >= MIN_SERVER_VER_PEGGED_TO_BENCHMARK) + flag_int(c.open && c.server_version >= MIN_SERVER_VER_PEGGED_TO_BENCHMARK) + flag_int(c.open && c.server_version >= MIN_SERVER_VER_PEGGED_TO_BENCHMARK) + flag_int(c.open && c.server_version >= MIN_SERVER_VER_PEGGED_TO_BENCHMARK) + flag_int(c.open && c.server_version >= MIN_SERVER_VER_PEGGED_TO_BENCHMARK) + flag_int(c.open && c.server_version >= MIN_SERVER_VER_SOFT_DOLLAR_TIER) + flag_int(c.open && c.server_version >= MIN_SERVER_VER_SOFT_DOLLAR_TIER) + flag_int(c.open && c.server_version >= MIN_SERVER_VER_SOFT_DOLLAR_TIER) + flag_int(c.server_version >= MIN_SERVER_VER_CASH_QTY) + flag_int(c.server_version >= MIN_SERVER_VER_AUTO_PRICE_FOR_HEDGE) + flag_int(c.server_version >= MIN_SERVER_VER_ORDER_CONTAINER)))) } else { None::<bool> },
        v.use_price_mgmt_algo == if c.open && c.server_version >= MIN_SERVER_VER_PRICE_MGMT_ALGO { Some(bool_at(t, (p + flag_int(c.open && c.server_version >= MIN_SERVER_VER_PEGGED_TO_BENCHMARK) + flag_int(c.open && c.server_version >= MIN_SERVER_VER_PEGGED_TO_BENCHMARK) + flag_int(!c.open || c.server_version >= MIN_SERVER_VER_PEGGED_TO_BENCHMARK) + flag_int(!c.open || c.server_version >= MIN_SERVER_VER_PEGGED_TO_BENCHMARK) + flag_int(c.open && c.server_version >= MIN_SERVER_VER_PEGGED_TO_BENCHMARK) + flag_int(c.open && c.server_version >= MIN_SERVER_VER_PEGGED_TO_BENCHMARK) + flag_int(c.open && c.server_version >= MIN_SERVER_VER_PEGGED_TO_BENCHMARK) + flag_int(c.open && c.server_version >= MIN_SERVER_VER_PEGGED_TO_BENCHMARK) + flag_int(c.open && c.server_version >= MIN_SERVER_VER_SOFT_DOLLAR_TIER) + flag_int(c.open && c.server_version >= MIN_SERVER_VER_SOFT_DOLLAR_TIER) + flag_int(c.open && c.server_version >= MIN_SERVER_VER_SOFT_DOLLAR_TIER) + flag_int(c.server_version >= MIN_SERVER_VER_CASH_QTY) + flag_int(c.server_version >= MIN_SERVER_VER_AUTO_PRICE_FOR_HEDGE) + flag_int(c.server_version >= MIN_SERVER_VER_ORDER_CONTAINER) + flag_int(c.open && c.server_version >= MIN_SERVER_VER_D_PEG_ORDERS)))) } else { None::<bool> },
        opt_text(v.auto_cancel_date) == if !c.open { Some(t[(p + flag_int(c.open && c.server_version >= MIN_SERVER_VER_PEGGED_TO_BENCHMARK) + flag_int(c.open && c.server_version >= MIN_SERVER_VER_PEGGED_TO_BENCHMARK) + flag_int(!c.open || c.server_version >= MIN_SERVER_VER_PEGGED_TO_BENCHMARK) + flag_int(!c.open || c.server_version >= MIN_SERVER_VER_PEGGED_TO_BENCHMARK) + flag_int(c.open && c.server_version >= MIN_SERVER_VER_PEGGED_TO_BENCHMARK) + flag_int(c.open && c.server_version >= MIN_SERVER_VER_PEGGED_TO_BENCHMARK) + flag_int(c.open && c.server_version >= MIN_SERVER_VER_PEGGED_TO_BENCHMARK) + flag_int(c.open && c.server_version >= MIN_SERVER_VER_PEGGED_TO_BENCHMARK) + flag_int(c.open && c.server_version >= MIN_SERVER_VER_SOFT_DOLLAR_TIER) + flag_int(c.open && c.server_version >= MIN_SERVER_VER_SOFT_DOLLAR_TIER) + flag_int(c.open && c.server_version >= MIN_SERVER_VER_SOFT_DOLLAR_TIER) + flag_int(c.server_version >= MIN_SERVER_VER_CASH_QTY) + flag_int(c.server_version >= MIN_SERVER_VER_AUTO_PRICE_FOR_HEDGE) + flag_int(c.server_version >= MIN_SERVER_VER_ORDER_CONTAINER) + flag_int(c.open && c.server_version >= MIN_SERVER_VER_D_PEG_ORDERS) + flag_int(c.open && c.server_version >= MIN_SERVER_VER_PRICE_MGMT_ALGO))]@) } else { None::<Seq<char>> },
        opt_float(v.filled_quantity) == if !c.open { Some((t[(p + flag_int(c.open && c.server_version >= MIN_SERVER_VER_PEGGED_TO_BENCHMARK) + flag_int(c.open && c.server_version >= MIN_SERVER_VER_PEGGED_TO_BENCHMARK) + flag_int(!c.open || c.server_version >= MIN_SERVER_VER_PEGGED_TO_BENCHMARK) + flag_int(!c.open || c.server_version >= MIN_SERVER_VER_PEGGED_TO_BENCHMARK) + flag_int(c.open && c.server_version >= MIN_SERVER_VER_PEGGED_TO_BENCHMARK) + flag_int(c.open && c.server_version >= MIN_SERVER_VER_PEGGED_TO_BENCHMARK) + flag_int(c.open && c.server_version >= MIN_SERVER_VER_PEGGED_TO_BENCHMARK) + flag_int(c.open && c.server_version >= MIN_SERVER_VER_PEGGED_TO_BENCHMARK) + flag_int(c.open && c.server_version >= MIN_SERVER_VER_SOFT_DOLLAR_TIER) + flag_int(c.open && c.server_version >= MIN_SERVER_VER_SOFT_DOLLAR_TIER) + flag_int(c.open && c.server_version >= MIN_SERVER_VER_SOFT_DOLLAR_TIER) + flag_int(c.server_version >= MIN_SERVER_VER_CASH_QTY) + flag_int(c.server_version >= MIN_SERVER_VER_AUTO_PRICE_FOR_HEDGE) + flag_int(c.server_version >= MIN_SERVER_VER_ORDER_CONTAINER) + flag_int(c.open && c.server_version >= MIN_SERVER_VER_D_PEG_ORDERS) + flag_int(c.open && c.server_version >= MIN_SERVER_VER_PRICE_MGMT_ALGO) + flag_int(!c.open))]@, false)) } else { None::<(Seq<char>, bool)> },
        v.ref_futures_con_id == if !c.open { Some(field_i32(t[(p + flag_int(c.open && c.server_version >= MIN_SERVER_VER_PEGGED_TO_BENCHMARK) + flag_int(c.open && c.server_version >= MIN_SERVER_VER_PEGGED_TO_BENCHMARK) + flag_int(!c.open || c.server_version >= MIN_SERVER_VER_PEGGED_TO_BENCHMARK) + flag_int(!c.open || c.server_version >= MIN_SERVER_VER_PEGGED_TO_BENCHMARK) + flag_int(c.open && c.server_version >= MIN_SERVER_VER_PEGGED_TO_BENCHMARK) + flag_int(c.open && c.server_version >= MIN_SERVER_VER_PEGGED_TO_BENCHMARK) + flag_int(c.open && c.server_version >= MIN_SERVER_VER_PEGGED_TO_BENCHMARK) + flag_int(c.open && c.server_version >= MIN_SERVER_VER_PEGGED_TO_BENCHMARK) + flag_int(c.open && c.server_version >= MIN_SERVER_VER_SOFT_DOLLAR_TIER) + flag_int(c.open && c.server_version >= MIN_SERVER_VER_SOFT_DOLLAR_TIER) + flag_int(c.open && c.server_version >= MIN_SERVER_VER_SOFT_DOLLAR_TIER) + flag_int(c.server_version >= MIN_SERVER_VER_CASH_QTY) + flag_int(c.server_version >= MIN_SERVER_VER_AUTO_PRICE_FOR_HEDGE) + flag_int(c.server_version >= MIN_SERVER_VER_ORDER_CONTAINER) + flag_int(c.open && c.server_version >= MIN_SERVER_VER_D_PEG_ORDERS) + flag_int(c.open && c.server_version >= MIN_SERVER_VER_PRICE_MGMT_ALGO) + flag_int(!c.open) + flag_int(!c.open))]@)) } else { None::<i32> },
        v.auto_cancel_parent == if !c.open { Some(bool_at(t, (p + flag_int(c.open && c.server_version >= MIN_SERVER_VER_PEGGED_TO_BENCHMARK) + flag_int(c.open && c.server_version >= MIN_SERVER_VER_PEGGED_TO_BENCHMARK) + flag_int(!c.open || c.server_version >= MIN_SERVER_VER_PEGGED_TO_BENCHMARK) + flag_int(!c.open || c.server_version >= MIN_SERVER_VER_PEGGED_TO_BENCHMARK) + flag_int(c.open && c.server_version >= MIN_SERVER_VER_PEGGED_TO_BENCHMARK) + flag_int(c.open && c.server_version >= MIN_SERVER_VER_PEGGED_TO_BENCHMARK) + flag_int(c.open && c.server_version >= MIN_SERVER_VER_PEGGED_TO_BENCHMARK) + flag_int(c.open && c.server_version >= MIN_SERVER_VER_PEGGED_TO_BENCHMARK) + flag_int(c.open && c.server_version >= MIN_SERVER_VER_SOFT_DOLLAR_TIER) + flag_int(c.open && c.server_version >= MIN_SERVER_VER_SOFT_DOLLAR_TIER) + flag_int(c.open && c.server_version >= MIN_SERVER_VER_SOFT_DOLLAR_TIER) + flag_int(c.server_version >= MIN_SERVER_VER_CASH_QTY) + flag_int(c.server_version >= MIN_SERVER_VER_AUTO_PRICE_FOR_HEDGE) + flag_int(c.server_version >= MIN_SERVER_VER_ORDER_CONTAINER) + flag_int(c.open && c.server_version >= MIN_SERVER_VER_D_PEG_ORDERS) + flag_int(c.open && c.server_version >= MIN_SERVER_VER_PRICE_MGMT_ALGO) + flag_int(!c.open) + flag_int(!c.open) + flag_int(!c.open)))) } else { None::<bool> },
        opt_text(v.shareholder) == if !c.open { Some(t[(p + flag_int(c.open && c.server_version >= MIN_SERVER_VER_PEGGED_TO_BENCHMARK) + flag_int(c.open && c.server_version >= MIN_SERVER_VER_PEGGED_TO_BENCHMARK) + flag_int(!c.open || c.server_version >= MIN_SERVER_VER_PEGGED_TO_BENCHMARK) + flag_int(!c.open || c.server_version >= MIN_SERVER_VER_PEGGED_TO_BENCHMARK) + flag_int(c.open && c.server_version >= MIN_SERVER_VER_PEGGED_TO_BENCHMARK) + flag_int(c.open && c.server_version >= MIN_SERVER_VER_PEGGED_TO_BENCHMARK) + flag_int(c.open && c.server_version >= MIN_SERVER_VER_PEGGED_TO_BENCHMARK) + flag_int(c.open && c.server_version >= MIN_SERVER_VER_PEGGED_TO_BENCHMARK) + flag_int(c.open && c.server_version >= MIN_SERVER_VER_SOFT_DOLLAR_TIER) + flag_int(c.open && c.server_version >= MIN_SERVER_VER_SOFT_DOLLAR_TIER) + flag_int(c.open && c.server_version >= MIN_SERVER_VER_SOFT_DOLLAR_TIER) + flag_int(c.server_version >= MIN_SERVER_VER_CASH_QTY) + flag_int(c.server_version >= MIN_SERVER_VER_AUTO_PRICE_FOR_HEDGE) + flag_int(c.server_version >= MIN_SERVER_VER_ORDER_CONTAINER) + flag_int(c.open && c.server_version >= MIN_SERVER_VER_D_PEG_ORDERS) + flag_int(c.open && c.server_version >= MIN_SERVER_VER_PRICE_MGMT_ALGO) + flag_int(!c.open) + flag_int(!c.open) + flag_int(!c.open) + flag_int(!c.open))]@) } else { None::<Seq<char>> },
        v.imbalance_only == if !c.open { Some(bool_at(t, (p + flag_int(c.open && c.server_version >= MIN_SERVER_VER_PEGGED_TO_BENCHMARK) + flag_int(c.open && c.server_version >= MIN_SERVER_VER_PEGGED_TO_BENCHMARK) + flag_int(!c.open || c.server_version >= MIN_SERVER_VER_PEGGED_TO_BENCHMARK) + flag_int(!c.open || c.server_version >= MIN_SERVER_VER_PEGGED_TO_BENCHMARK) + flag_int(c.open && c.server_version >= MIN_SERVER_VER_PEGGED_TO_BENCHMARK) + flag_int(c.open && c.server_version >= MIN_SERVER_VER_PEGGED_TO_BENCHMARK) + flag_int(c.open && c.server_version >= MIN_SERVER_VER_PEGGED_TO_BENCHMARK) + flag_int(c.open && c.server_version >= MIN_SERVER_VER_PEGGED_TO_BENCHMARK) + flag_int(c.open && c.server_version >= MIN_SERVER_VER_SOFT_DOLLAR_TIER) + flag_int(c.open && c.server_version >= MIN_SERVER_VER_SOFT_DOLLAR_TIER) + flag_int(c.open && c.server_version >= MIN_SERVER_VER_SOFT_DOLLAR_TIER) + flag_int(c.server_version >= MIN_SERVER_VER_CASH_QTY) + flag_int(c.server_version >= MIN_SERVER_VER_AUTO_PRICE_FOR_HEDGE) + flag_int(c.server_version >= MIN_SERVER_VER_ORDER_CONTAINER) + flag_int(c.open && c.server_version >= MIN_SERVER_VER_D_PEG_ORDERS) + flag_int(c.open && c.server_version >= MIN_SERVER_VER_PRICE_MGMT_ALGO) + flag_int(!c.open) + flag_int(!c.open) + flag_int(!c.open) + flag_int(!c.open) + flag_int(!c.open)))) } else { None::<bool> },
        v.route_marketable_to_bbo == if !c.open { Some(bool_at(t, (p + flag_int(c.open && c.server_version >= MIN_SERVER_VER_PEGGED_TO_BENCHMARK) + flag_int(c.open && c.server_version >= MIN_SERVER_VER_PEGGED_TO_BENCHMARK) + flag_int(!c.open || c.server_version >= MIN_SERVER_VER_PEGGED_TO_BENCHMARK) + flag_int(!c.open || c.server_version >= MIN_SERVER_VER_PEGGED_TO_BENCHMARK) + flag_int(c.open && c.server_version >= MIN_SERVER_VER_PEGGED_TO_BENCHMARK) + flag_int(c.open && c.server_version >= MIN_SERVER_VER_PEGGED_TO_BENCHMARK) + flag_int(c.open && c.server_version >= MIN_SERVER_VER_PEGGED_TO_BENCHMARK) + flag_int(c.open && c.server_version >= MIN_SERVER_VER_PEGGED_TO_BENCHMARK) + flag_int(c.open && c.server_version >= MIN_SERVER_VER_SOFT_DOLLAR_TIER) + flag_int(c.open && c.server_version >= MIN_SERVER_VER_SOFT_DOLLAR_TIER) + flag_int(c.open && c.server_version >= MIN_SERVER_VER_SOFT_DOLLAR_TIER) + flag_int(c.server_version >= MIN_SERVER_VER_CASH_QTY) + flag_int(c.server_version >= MIN_SERVER_VER_AUTO_PRICE_FOR_HEDGE) + flag_int(c.server_version >= MIN_SERVER_VER_ORDER_CONTAINER) + flag_int(c.open && c.server_version >= MIN_SERVER_VER_D_PEG_ORDERS) + flag_int(c.open && c.server_version >= MIN_SERVER_VER_PRICE_MGMT_ALGO) + flag_int(!c.open) + flag_int(!c.open) + flag_int(!c.open) + flag_int(!c.open) + flag_int(!c.open) + flag_int(!c.open)))) } else { None::<bool> },
        v.parent_perm_id == if !c.open { Some(field_i32(t[(p + flag_int(c.open && c.server_version >= MIN_SERVER_VER_PEGGED_TO_BENCHMARK) + flag_int(c.open && c.server_version >= MIN_SERVER_VER_PEGGED_TO_BENCHMARK) + flag_int(!c.open || c.server_version >= MIN_SERVER_VER_PEGGED_TO_BENCHMARK) + flag_int(!c.open || c.server_version >= MIN_SERVER_VER_PEGGED_TO_BENCHMARK) + flag_int(c.open && c.server_version >= MIN_SERVER_VER_PEGGED_TO_BENCHMARK) + flag_int(c.open && c.server_version >= MIN_SERVER_VER_PEGGED_TO_BENCHMARK) + flag_int(c.open && c.server_version >= MIN_SERVER_VER_PEGGED_TO_BENCHMARK) + flag_int(c.open && c.server_version >= MIN_SERVER_VER_PEGGED_TO_BENCHMARK) + flag_int(c.open && c.server_version >= MIN_SERVER_VER_SOFT_DOLLAR_TIER) + flag_int(c.open && c.server_version >= MIN_SERVER_VER_SOFT_DOLLAR_TIER) + flag_int(c.open && c.server_version >= MIN_SERVER_VER_SOFT_DOLLAR_TIER) + flag_int(c.server_version >= MIN_SERVER_VER_CASH_QTY) + flag_int(c.server_version >= MIN_SERVER_VER_AUTO_PRICE_FOR_HEDGE) + flag_int(c.server_version >= MIN_SERVER_VER_ORDER_CONTAINER) + flag_int(c.open && c.server_version >= MIN_SERVER_VER_D_PEG_ORDERS) + flag_int(c.open && c.server_version >= MIN_SERVER_VER_PRICE_MGMT_ALGO) + flag_int(!c.open) + flag_int(!c.open) + flag_int(!c.open) + flag_int(!c.open) + flag_int(!c.open) + flag_int(!c.open) + flag_int(!c.open))]@)) } else { None::<i32> },
        opt_text(v.completed_time) == if !c.open { Some(t[(p + flag_int(c.open && c.server_version >= MIN_SERVER_VER_PEGGED_TO_BENCHMARK) + flag_int(c.open && c.server_version >= MIN_SERVER_VER_PEGGED_TO_BENCHMARK) + flag_int(!c.open || c.server_version >= MIN_SERVER_VER_PEGGED_TO_BENCHMARK) + flag_int(!c.open || c.server_version >= MIN_SERVER_VER_PEGGED_TO_BENCHMARK) + flag_int(c.open && c.server_version >= MIN_SERVER_VER_PEGGED_TO_BENCHMARK) + flag_int(c.open && c.server_version >= MIN_SERVER_VER_PEGGED_TO_BENCHMARK) + flag_int(c.open && c.server_version >= MIN_SERVER_VER_PEGGED_TO_BENCHMARK) + flag_int(c.open && c.server_version >= MIN_SERVER_VER_PEGGED_TO_BENCHMARK) + flag_int(c.open && c.server_version >= MIN_SERVER_VER_SOFT_DOLLAR_TIER) + flag_int(c.open && c.server_version >= MIN_SERVER_VER_SOFT_DOLLAR_TIER) + flag_int(c.open && c.server_version >= MIN_SERVER_VER_SOFT_DOLLAR_TIER) + flag_int(c.server_version >= MIN_SERVER_VER_CASH_QTY) + flag_int(c.server_version >= MIN_SERVER_VER_AUTO_PRICE_FOR_HEDGE) + flag_int(c.server_version >= MIN_SERVER_VER_ORDER_CONTAINER) + flag_int(c.open && c.server_version >= MIN_SERVER_VER_D_PEG_ORDERS) + flag_int(c.open && c.server_version >= MIN_SERVER_VER_PRICE_MGMT_ALGO) + flag_int(!c.open) + flag_int(!c.open) + flag_int(!c.open) + flag_int(!c.open) + flag_int(!c.open) + flag_int(!c.open) + flag_int(!c.open) + flag_int(!c.open))]@) } else { None::<Seq<char>> },
        opt_text(v.completed_status) == if !c.open { Some(t[(p + flag_int(c.open && c.server_version >= MIN_SERVER_VER_PEGGED_TO_BENCHMARK) + flag_int(c.open && c.server_version >= MIN_SERVER_VER_PEGGED_TO_BENCHMARK) + flag_int(!c.open || c.server_version >= MIN_SERVER_VER_PEGGED_TO_BENCHMARK) + flag_int(!c.open || c.server_version >= MIN_SERVER_VER_PEGGED_TO_BENCHMARK) + flag_int(c.open && c.server_version >= MIN_SERVER_VER_PEGGED_TO_BENCHMARK) + flag_int(c.open && c.server_version >= MIN_SERVER_VER_PEGGED_TO_BENCHMARK) + flag_int(c.open && c.server_version >= MIN_SERVER_VER_PEGGED_TO_BENCHMARK) + flag_int(c.open && c.server_version >= MIN_SERVER_VER_PEGGED_TO_BENCHMARK) + flag_int(c.open && c.server_version >= MIN_SERVER_VER_SOFT_DOLLAR_TIER) + flag_int(c.open && c.server_version >= MIN_SERVER_VER_SOFT_DOLLAR_TIER) + flag_int(c.open && c.server_version >= MIN_SERVER_VER_SOFT_DOLLAR_TIER) + flag_int(c.server_version >= MIN_SERVER_VER_CASH_QTY) + flag_int(c.server_version >= MIN_SERVER_VER_AUTO_PRICE_FOR_HEDGE) + flag_int(c.server_version >= MIN_SERVER_VER_ORDER_CONTAINER) + flag_int(c.open && c.server_version >= MIN_SERVER_VER_D_PEG_ORDERS) + flag_int(c.open && c.server_version >= MIN_SERVER_VER_PRICE_MGMT_ALGO) + flag_int(!c.open) + flag_int(!c.open) + flag_int(!c.open) + flag_int(!c.open) + flag_int(!c.open) + flag_int(!c.open) + flag_int(!c.open) + flag_int(!c.open) + flag_int(!c.open))]@) } else { None::<Seq<char>> },
{
}


/// A combo leg written as contract id, ratio, action, exchange, open/close code, short-sale
/// slot, designated location and exempt code reads back as those values.
pub proof fn law_combo_leg_reads_back(
    t: Seq<String>,
    q: int,
    con_id: i32,
    ratio: i32,
    action: Seq<char>,
    exchange: Seq<char>,
    open_close: i32,
    short_sale_slot: i32,
    designated_location: Seq<char>,
    exempt_code: i32,
    l: OrderComboLeg,
)
    requires
        0 <= q,
        q + 8 <= t.len(),
        t[q]@ == int_text(con_id as int),
        t[q + 1]@ == int_text(ratio as int),
        t[q + 2]@ == action,
        t[q + 3]@ == exchange,
        t[q + 4]@ == int_text(open_close as int),
        t[q + 5]@ == int_text(short_sale_slot as int),
        t[q + 6]@ == designated_location,
        t[q + 7]@ == int_text(exempt_code as int),
        combo_leg_read(t, q, l),
    ensures
        l.con_id == con_id,
        l.ratio == ratio,
        l.action@ == action,
        l.exchange@ == exchange,
        PositionType::from_code(open_close as int) == Some(l.open_close),
        l.short_sale_slot == short_sale_slot,
        l.designated_location@ == designated_location,
        l.exempt_code == exempt_code,
{
    law_field_i32_roundtrip(con_id);
    law_field_i32_roundtrip(ratio);
    law_field_i32_roundtrip(open_close);
    law_field_i32_roundtrip(short_sale_slot);
    law_field_i32_roundtrip(exempt_code);
}

/// Tag-value pairs written tag first, then value, read back as those pairs.
pub proof fn law_pairs_read_back(t: Seq<String>, p: int, tags: Seq<Seq<char>>, values: Seq<Seq<char>>, v: Seq<TagValue>)
    requires
        tags.len() == values.len(),
        forall|j: int| 0 <= j < tags.len() ==> t[p + 2 * j]@ == #[trigger] tags[j] && t[p + 2 * j + 1]@ == values[j],
        pairs_read(t, p, tags.len() as int, v),
    ensures
        v.len() == tags.len(),
        forall|j: int| 0 <= j < v.len() ==> (#[trigger] v[j]).tag@ == tags[j] && v[j].value@ == values[j],
{
    assert forall|j: int| 0 <= j < v.len() implies (#[trigger] v[j]).tag@ == tags[j] && v[j].value@ == values[j] by {
        assert(t[p + 2 * j]@ == tags[j]);
    }
}

/// A condition written as its type code, its own fields, then the ignore-RTH and
/// cancel-order flags reads back as that type, those fields and those flags.
pub proof fn law_condition_reads_back(
    t: Seq<String>,
    q: int,
    code: i32,
    own: Seq<Seq<char>>,
    ignore_rth: bool,
    cancel_order: bool,
    r: ConditionRead,
)
    requires
        0 <= q,
        q + own.len() + 3 <= t.len(),
        t[q]@ == int_text(code as int),
        forall|i: int| 0 <= i < own.len() ==> t[q + 1 + i]@ == #[trigger] own[i],
        t[q + own.len() + 1]@ == bool_field_text(ignore_rth),
        t[q + own.len() + 2]@ == bool_field_text(cancel_order),
        ConditionType::from_code(code as int) matches Some(k) && condition_width(k) == own.len(),
        condition_read(t, q, r),
    ensures
        ConditionType::from_code(code as int) == Some(r.cond_type),
        r.fields@.len() == own.len(),
        forall|i: int| 0 <= i < own.len() ==> (#[trigger] r.fields@[i])@ == own[i],
        r.ignore_rth == ignore_rth,
        r.cancel_order == cancel_order,
{
    law_field_i32_roundtrip(code);
    law_field_bool_roundtrip(ignore_rth);
    law_field_bool_roundtrip(cancel_order);
    assert forall|i: int| 0 <= i < own.len() implies (#[trigger] r.fields@[i])@ == own[i] by {
        assert(t[q + 1 + i]@ == own[i]);
    }
}


/// The ignore-RTH and cancel-order flags of a decoded order are those that follow its last
/// condition, and false where it has none.
pub proof fn law_condition_flags_are_the_last(c: OrderCtx, peg: bool, t: Seq<String>, s: int, v: OrderBack)
    requires
        back_read(c, peg, t, s, v),
    ensures
        v.conditions@.len() > 0 ==> v.conditions_ignore_rth == v.conditions@.last().ignore_rth
            && v.conditions_cancel_order == v.conditions@.last().cancel_order,
        v.conditions@.len() == 0 ==> !v.conditions_ignore_rth && !v.conditions_cancel_order,
{
}

} // verus!
