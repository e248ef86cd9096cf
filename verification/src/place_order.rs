//! Placing an order: which orders a server of a given version refuses, and the fields of the
//! order message, laid out as that version asks.
use vstd::prelude::*;

use crate::client::ConnStatus;
use crate::common::{TagValue, NO_VALID_ID, UNSET_INTEGER};
use crate::contract::{ComboLegFields, ContractFields};
use crate::contract_requests::{
    delta_neutral_text, int_field, push_bool_field, push_delta_neutral, push_i32_field,
    push_str_field,
};
use crate::decimal::push_int_text;
use crate::errors::{
    api_error, api_error_with, is_api_error, is_api_error_with, IBKRApiLibError, TwsError,
};
use crate::messages::{bool_field_text, field_spec, has_no_nul, join_fields, split_fields};
use crate::decimal::int_text;
use crate::wire_layout::{lemma_join_append, lemma_join_push, lemma_prefix_kept, law_split_joined_prefix};
use crate::order::{AuctionStrategy, Origin};
use crate::server_versions::{
    MIN_SERVER_VER_DELTA_NEUTRAL,
    MIN_SERVER_VER_SCALE_ORDERS2,
    MIN_SERVER_VER_ALGO_ORDERS,
    MIN_SERVER_VER_NOT_HELD,
    MIN_SERVER_VER_SEC_ID_TYPE,
    MIN_SERVER_VER_PLACE_ORDER_CONID,
    MIN_SERVER_VER_SSHORTX,
    MIN_SERVER_VER_SSHORTX_OLD,
    MIN_SERVER_VER_HEDGE_ORDERS,
    MIN_SERVER_VER_OPT_OUT_SMART_ROUTING,
    MIN_SERVER_VER_DELTA_NEUTRAL_CONID,
    MIN_SERVER_VER_DELTA_NEUTRAL_OPEN_CLOSE,
    MIN_SERVER_VER_SCALE_ORDERS3,
    MIN_SERVER_VER_ORDER_COMBO_LEGS_PRICE,
    MIN_SERVER_VER_TRAILING_PERCENT,
    MIN_SERVER_VER_TRADING_CLASS,
    MIN_SERVER_VER_SCALE_TABLE,
    MIN_SERVER_VER_ALGO_ID,
    MIN_SERVER_VER_ORDER_SOLICITED,
    MIN_SERVER_VER_MODELS_SUPPORT,
    MIN_SERVER_VER_EXT_OPERATOR,
    MIN_SERVER_VER_SOFT_DOLLAR_TIER,
    MIN_SERVER_VER_CASH_QTY,
    MIN_SERVER_VER_DECISION_MAKER,
    MIN_SERVER_VER_MIFID_EXECUTION,
    MIN_SERVER_VER_AUTO_PRICE_FOR_HEDGE,
    MIN_SERVER_VER_ORDER_CONTAINER,
    MIN_SERVER_VER_PRICE_MGMT_ALGO,
    MIN_SERVER_VER_DURATION,
    MIN_SERVER_VER_POST_TO_ATS,
    MIN_SERVER_VER_FRACTIONAL_POSITIONS,
    MIN_SERVER_VER_SMART_COMBO_ROUTING_PARAMS,
    MIN_SERVER_VER_PTA_ORDERS,
    MIN_SERVER_VER_LINKING,
    MIN_SERVER_VER_RANDOMIZE_SIZE_AND_PRICE,
    MIN_SERVER_VER_PEGGED_TO_BENCHMARK,
    MIN_SERVER_VER_D_PEG_ORDERS,
};

verus! {

/// The id of the place order message.
pub const PLACE_ORDER: i32 = 3;

/// A floating-point value of an order as the message carries it: the text of the value,
/// whether it is set, and its sign (-1, 0 or 1).
#[derive(Clone, Debug, Default)]
pub struct FloatField {
    pub text: String,
    pub is_set: bool,
    pub sign: i32,
}

/// A condition of an order: the number of its type and the fields that it writes of itself.
#[derive(Clone, Debug, Default)]
pub struct ConditionFields {
    pub cond_type: i32,
    pub fields: Vec<String>,
}

/// An order as the place order message lays it out. Its floating-point values are carried as
/// `FloatField`s; `total_quantity_whole` is the quantity as a whole number, for servers that
/// take no fractions.
#[derive(Clone, Debug, Default)]
pub struct OrderFields {
    pub action: String,
    pub total_quantity: FloatField,
    pub total_quantity_whole: i32,
    pub order_type: String,
    pub lmt_price: FloatField,
    pub aux_price: FloatField,
    pub tif: String,
    pub oca_group: String,
    pub account: String,
    pub open_close: String,
    pub origin: Origin,
    pub order_ref: String,
    pub transmit: bool,
    pub parent_id: i32,
    pub block_order: bool,
    pub sweep_to_fill: bool,
    pub display_size: i32,
    pub trigger_method: i32,
    pub outside_rth: bool,
    pub hidden: bool,
    pub order_combo_legs: Vec<FloatField>,
    pub smart_combo_routing_params: Vec<TagValue>,
    pub discretionary_amt: FloatField,
    pub good_after_time: String,
    pub good_till_date: String,
    pub fa_group: String,
    pub fa_method: String,
    pub fa_percentage: String,
    pub fa_profile: String,
    pub model_code: String,
    pub short_sale_slot: i32,
    pub designated_location: String,
    pub exempt_code: i32,
    pub oca_type: i32,
    pub rule80a: String,
    pub settling_firm: String,
    pub all_or_none: bool,
    pub min_qty: i32,
    pub percent_offset: FloatField,
    pub e_trade_only: bool,
    pub firm_quote_only: bool,
    pub nbbo_price_cap: FloatField,
    pub auction_strategy: AuctionStrategy,
    pub starting_price: FloatField,
    pub stock_ref_price: FloatField,
    pub delta: FloatField,
    pub stock_range_lower: FloatField,
    pub stock_range_upper: FloatField,
    pub override_percentage_constraints: bool,
    pub volatility: FloatField,
    pub volatility_type: i32,
    pub delta_neutral_order_type: String,
    pub delta_neutral_aux_price: FloatField,
    pub delta_neutral_con_id: i32,
    pub delta_neutral_settling_firm: String,
    pub delta_neutral_clearing_account: String,
    pub delta_neutral_clearing_intent: String,
    pub delta_neutral_open_close: String,
    pub delta_neutral_short_sale: bool,
    pub delta_neutral_short_sale_slot: i32,
    pub delta_neutral_designated_location: String,
    pub continuous_update: bool,
    pub reference_price_type: i32,
    pub trail_stop_price: FloatField,
    pub trailing_percent: FloatField,
    pub scale_init_level_size: i32,
    pub scale_subs_level_size: i32,
    pub scale_price_increment: FloatField,
    pub scale_price_adjust_value: FloatField,
    pub scale_price_adjust_interval: i32,
    pub scale_profit_offset: FloatField,
    pub scale_auto_reset: bool,
    pub scale_init_position: i32,
    pub scale_init_fill_qty: i32,
    pub scale_random_percent: bool,
    pub scale_table: String,
    pub active_start_time: String,
    pub active_stop_time: String,
    pub hedge_type: String,
    pub hedge_param: String,
    pub opt_out_smart_routing: bool,
    pub clearing_account: String,
    pub clearing_intent: String,
    pub not_held: bool,
    pub algo_strategy: String,
    pub algo_params: Vec<TagValue>,
    pub algo_id: String,
    pub what_if: bool,
    pub order_misc_options: Vec<TagValue>,
    pub solicited: bool,
    pub randomize_size: bool,
    pub randomize_price: bool,
    pub reference_contract_id: i32,
    pub is_pegged_change_amount_decrease: bool,
    pub pegged_change_amount: FloatField,
    pub reference_change_amount: FloatField,
    pub reference_exchange_id: String,
    pub conditions: Vec<ConditionFields>,
    pub conditions_ignore_rth: bool,
    pub conditions_cancel_order: bool,
    pub adjusted_order_type: String,
    pub trigger_price: FloatField,
    pub lmt_price_offset: FloatField,
    pub adjusted_stop_price: FloatField,
    pub adjusted_stop_limit_price: FloatField,
    pub adjusted_trailing_amount: FloatField,
    pub adjustable_trailing_unit: i32,
    pub ext_operator: String,
    pub soft_dollar_tier_name: String,
    pub soft_dollar_tier_val: String,
    pub cash_qty: FloatField,
    pub mifid2decision_maker: String,
    pub mifid2decision_algo: String,
    pub mifid2execution_trader: String,
    pub mifid2execution_algo: String,
    pub dont_use_auto_price_for_hedge: bool,
    pub is_oms_container: bool,
    pub discretionary_up_to_limit_price: bool,
    pub use_price_mgmt_algo: bool,
    pub duration: i32,
    pub post_to_ats: i32,
}

/// `s` when `c` holds, else nothing.
pub open spec fn given(c: bool, s: Seq<char>) -> Seq<char> {
    if c { s } else { Seq::empty() }
}

/// The field of a floating-point value, its text whether or not it is set.
pub open spec fn float_field(f: FloatField) -> Seq<char> {
    field_spec(f.text@)
}

/// The field of a floating-point value that is left empty when the value is unset.
pub open spec fn float_or_empty(f: FloatField) -> Seq<char> {
    if f.is_set { field_spec(f.text@) } else { field_spec(Seq::empty()) }
}

/// The field of a price that older servers take as 0 when it is unset.
pub open spec fn float_or_zero(f: FloatField) -> Seq<char> {
    if f.is_set { field_spec(f.text@) } else { int_field(0) }
}

/// The field of an integer that is left empty when the integer is unset.
pub open spec fn int_or_empty(n: i32) -> Seq<char> {
    if n == UNSET_INTEGER { field_spec(Seq::empty()) } else { int_field(n as int) }
}

/// The field of a flag.
pub open spec fn bool_field(b: bool) -> Seq<char> {
    field_spec(bool_field_text(b))
}

/// The field of a text.
pub open spec fn text_field(s: String) -> Seq<char> {
    field_spec(s@)
}

/// Whether some combo leg has an exempt code.
pub open spec fn some_leg_exempt(legs: Seq<ComboLegFields>) -> bool {
    exists|i: int| 0 <= i < legs.len() && legs[i].exempt_code != -1
}

/// Whether some order combo leg has a price.
pub open spec fn some_leg_priced(legs: Seq<FloatField>) -> bool {
    exists|i: int| 0 <= i < legs.len() && legs[i].is_set
}

/// Whether the order carries scale parameters beyond the price increment.
pub open spec fn has_scale_extras(o: OrderFields) -> bool {
    o.scale_price_adjust_value.is_set || o.scale_price_adjust_interval != UNSET_INTEGER
        || o.scale_profit_offset.is_set || o.scale_auto_reset || o.scale_init_position
        != UNSET_INTEGER || o.scale_init_fill_qty != UNSET_INTEGER || o.scale_random_percent
}

/// Whether the order has a positive scale price increment.
pub open spec fn scales_price(o: OrderFields) -> bool {
    o.scale_price_increment.is_set && o.scale_price_increment.sign > 0
}

/// Why a server of the given version refuses the order, if it does: the id that the error
/// carries and the text that follows the `UpdateTws` message.
pub open spec fn place_order_refusal(
    sv: i32,
    order_id: i32,
    c: ContractFields,
    o: OrderFields,
) -> Option<(int, Seq<char>)> {
    let id = order_id as int;
    if sv < MIN_SERVER_VER_DELTA_NEUTRAL && c.delta_neutral_contract is Some {
        Some((NO_VALID_ID as int, " It does not support delta-neutral orders."@))
    } else if sv < MIN_SERVER_VER_SCALE_ORDERS2 && o.scale_subs_level_size != UNSET_INTEGER {
        Some((id, " It does not support Subsequent Level Size for Scale orders."@))
    } else if sv < MIN_SERVER_VER_ALGO_ORDERS && o.algo_strategy@.len() > 0 {
        Some((id, " It does not support algo orders."@))
    } else if sv < MIN_SERVER_VER_NOT_HELD && o.not_held {
        Some((id, " It does not support notHeld parameter."@))
    } else if sv < MIN_SERVER_VER_SEC_ID_TYPE && (c.sec_id_type@.len() > 0 || c.sec_id@.len() > 0) {
        Some((id, " It does not support sec_id_type && secId parameters."@))
    } else if sv < MIN_SERVER_VER_PLACE_ORDER_CONID && c.con_id > 0 {
        Some((id, " It does not support con_id parameter."@))
    } else if sv < MIN_SERVER_VER_SSHORTX && (o.exempt_code != -1 || some_leg_exempt(c.combo_legs@)) {
        Some((id, " It does not support exempt_code parameter."@))
    } else if sv < MIN_SERVER_VER_HEDGE_ORDERS && o.hedge_type@.len() > 0 {
        Some((id, " It does not support hedge orders."@))
    } else if sv < MIN_SERVER_VER_OPT_OUT_SMART_ROUTING && o.opt_out_smart_routing {
        Some((id, " It does not support optOutSmartRouting parameter."@))
    } else if sv < MIN_SERVER_VER_DELTA_NEUTRAL_CONID && (o.delta_neutral_con_id > 0
        || o.delta_neutral_settling_firm@.len() > 0 || o.delta_neutral_clearing_account@.len() > 0
        || o.delta_neutral_clearing_intent@.len() > 0) {
        Some((id, " It does not support deltaNeutral parameters: con_id, SettlingFirm, ClearingAccount, ClearingIntent."@))
    } else if sv < MIN_SERVER_VER_DELTA_NEUTRAL_OPEN_CLOSE && (o.delta_neutral_open_close@.len() > 0
        || o.delta_neutral_short_sale || o.delta_neutral_short_sale_slot > 0
        || o.delta_neutral_designated_location@.len() > 0) {
        Some((id, " It does not support deltaNeutral parameters: open_close, ShortSale, short_sale_slot, designated_location."@))
    } else if sv < MIN_SERVER_VER_SCALE_ORDERS3 && scales_price(o) && has_scale_extras(o) {
        Some((id, " It does not support Scale order parameters: PriceAdjustValue, PriceAdjustInterval, ProfitOffset, AutoReset, InitPosition, InitFillQty && RandomPercent"@))
    } else if sv < MIN_SERVER_VER_ORDER_COMBO_LEGS_PRICE && c.sec_type@ == "BAG"@
        && some_leg_priced(o.order_combo_legs@) {
        Some((id, " It does not support per-leg prices for order combo legs."@))
    } else if sv < MIN_SERVER_VER_TRAILING_PERCENT && o.trailing_percent.is_set {
        Some((id, " It does not support trailing percent parameter."@))
    } else if sv < MIN_SERVER_VER_TRADING_CLASS && c.trading_class@.len() > 0 {
        Some((id, " It does not support trading_class parameter in placeOrder."@))
    } else if sv < MIN_SERVER_VER_SCALE_TABLE && (o.scale_table@.len() > 0
        || o.active_start_time@.len() > 0 || o.active_stop_time@.len() > 0) {
        Some((id, " It does not support scaleTable, activeStartTime && activeStopTime parameters."@))
    } else if sv < MIN_SERVER_VER_ALGO_ID && o.algo_id@.len() > 0 {
        Some((id, " It does not support algoId parameter."@))
    } else if sv < MIN_SERVER_VER_ORDER_SOLICITED && o.solicited {
        Some((id, " It does not support order solicited parameter."@))
    } else if sv < MIN_SERVER_VER_MODELS_SUPPORT && o.model_code@.len() > 0 {
        Some((id, " It does not support model code parameter."@))
    } else if sv < MIN_SERVER_VER_EXT_OPERATOR && o.ext_operator@.len() > 0 {
        Some((id, " It does not support ext operator parameter."@))
    } else if sv < MIN_SERVER_VER_SOFT_DOLLAR_TIER && (o.soft_dollar_tier_name@.len() > 0
        || o.soft_dollar_tier_val@.len() > 0) {
        Some((id, " It does not support soft dollar tier."@))
    } else if sv < MIN_SERVER_VER_CASH_QTY && o.cash_qty.sign != 0 {
        Some((id, " It does not support cash quantity parameter."@))
    } else if sv < MIN_SERVER_VER_DECISION_MAKER && (o.mifid2decision_maker@.len() > 0
        || o.mifid2decision_algo@.len() > 0) {
        Some((id, " It does not support MIFID II decision maker parameters."@))
    } else if sv < MIN_SERVER_VER_MIFID_EXECUTION && (o.mifid2execution_trader@.len() > 0
        || o.mifid2execution_algo@.len() > 0) {
        Some((id, " It does not support MIFID II execution parameters."@))
    } else if sv < MIN_SERVER_VER_AUTO_PRICE_FOR_HEDGE && o.dont_use_auto_price_for_hedge {
        Some((id, " It does not support dontUseAutoPriceForHedge parameter."@))
    } else if sv < MIN_SERVER_VER_ORDER_CONTAINER && o.is_oms_container {
        Some((id, " It does not support oms container parameter."@))
    } else if sv < MIN_SERVER_VER_PRICE_MGMT_ALGO && o.use_price_mgmt_algo {
        Some((id, " It does not support Use price management algo requests."@))
    } else if sv < MIN_SERVER_VER_DURATION && o.duration != UNSET_INTEGER {
        Some((id, " It does not does not support duration attribute"@))
    } else if sv < MIN_SERVER_VER_POST_TO_ATS && o.post_to_ats != UNSET_INTEGER {
        Some((id, "   It does not support postToAts attribute"@))
    } else {
        None
    }
}

} // verus!

verus! {

/// Whether some combo leg has an exempt code.
fn any_leg_exempt(legs: &Vec<ComboLegFields>) -> (r: bool)
    ensures
        r == some_leg_exempt(legs@),
{
    let mut i: usize = 0;
    while i < legs.len()
        invariant
            i <= legs@.len(),
            forall|j: int| 0 <= j < i ==> legs@[j].exempt_code == -1,
        decreases legs@.len() - i,
    {
        if legs[i].exempt_code != -1 {
            return true;
        }
        i = i + 1;
    }
    false
}

/// Whether some order combo leg has a price.
fn any_leg_priced(legs: &Vec<FloatField>) -> (r: bool)
    ensures
        r == some_leg_priced(legs@),
{
    let mut i: usize = 0;
    while i < legs.len()
        invariant
            i <= legs@.len(),
            forall|j: int| 0 <= j < i ==> !legs@[j].is_set,
        decreases legs@.len() - i,
    {
        if legs[i].is_set {
            return true;
        }
        i = i + 1;
    }
    false
}

/// Refuses the order where the server is too old for something that it asks for.
#[verifier::rlimit(50)]
fn check_order_supported(sv: i32, order_id: i32, c: &ContractFields, o: &OrderFields) -> (r: Result<
    (),
    IBKRApiLibError,
>)
    ensures
        match place_order_refusal(sv, order_id, *c, *o) {
            Some((id, suffix)) => r matches Err(e) && is_api_error_with(e, id, TwsError::UpdateTws, suffix),
            None => r is Ok,
        },
{
    let u = TwsError::UpdateTws;
    if sv < MIN_SERVER_VER_DELTA_NEUTRAL && c.delta_neutral_contract.is_some() {
        return Err(api_error_with(NO_VALID_ID, u, " It does not support delta-neutral orders."));
    }
    if sv < MIN_SERVER_VER_SCALE_ORDERS2 && o.scale_subs_level_size != UNSET_INTEGER {
        return Err(api_error_with(order_id, u, " It does not support Subsequent Level Size for Scale orders."));
    }
    if sv < MIN_SERVER_VER_ALGO_ORDERS && !o.algo_strategy.as_str().is_empty() {
        return Err(api_error_with(order_id, u, " It does not support algo orders."));
    }
    if sv < MIN_SERVER_VER_NOT_HELD && o.not_held {
        return Err(api_error_with(order_id, u, " It does not support notHeld parameter."));
    }
    if sv < MIN_SERVER_VER_SEC_ID_TYPE && (!c.sec_id_type.as_str().is_empty()
        || !c.sec_id.as_str().is_empty()) {
        return Err(api_error_with(order_id, u, " It does not support sec_id_type && secId parameters."));
    }
    if sv < MIN_SERVER_VER_PLACE_ORDER_CONID && c.con_id > 0 {
        return Err(api_error_with(order_id, u, " It does not support con_id parameter."));
    }
    if sv < MIN_SERVER_VER_SSHORTX && (o.exempt_code != -1 || any_leg_exempt(&c.combo_legs)) {
        return Err(api_error_with(order_id, u, " It does not support exempt_code parameter."));
    }
    if sv < MIN_SERVER_VER_HEDGE_ORDERS && !o.hedge_type.as_str().is_empty() {
        return Err(api_error_with(order_id, u, " It does not support hedge orders."));
    }
    if sv < MIN_SERVER_VER_OPT_OUT_SMART_ROUTING && o.opt_out_smart_routing {
        return Err(api_error_with(order_id, u, " It does not support optOutSmartRouting parameter."));
    }
    if sv < MIN_SERVER_VER_DELTA_NEUTRAL_CONID && (o.delta_neutral_con_id > 0
        || !o.delta_neutral_settling_firm.as_str().is_empty()
        || !o.delta_neutral_clearing_account.as_str().is_empty()
        || !o.delta_neutral_clearing_intent.as_str().is_empty()) {
        return Err(api_error_with(order_id, u, " It does not support deltaNeutral parameters: con_id, SettlingFirm, ClearingAccount, ClearingIntent."));
    }
    if sv < MIN_SERVER_VER_DELTA_NEUTRAL_OPEN_CLOSE && (!o.delta_neutral_open_close.as_str().is_empty()
        || o.delta_neutral_short_sale || o.delta_neutral_short_sale_slot > 0
        || !o.delta_neutral_designated_location.as_str().is_empty()) {
        return Err(api_error_with(order_id, u, " It does not support deltaNeutral parameters: open_close, ShortSale, short_sale_slot, designated_location."));
    }
    if sv < MIN_SERVER_VER_SCALE_ORDERS3 && o.scale_price_increment.is_set && o.scale_price_increment.sign > 0
        && (o.scale_price_adjust_value.is_set || o.scale_price_adjust_interval != UNSET_INTEGER
        || o.scale_profit_offset.is_set || o.scale_auto_reset || o.scale_init_position != UNSET_INTEGER
        || o.scale_init_fill_qty != UNSET_INTEGER || o.scale_random_percent) {
        return Err(api_error_with(order_id, u, " It does not support Scale order parameters: PriceAdjustValue, PriceAdjustInterval, ProfitOffset, AutoReset, InitPosition, InitFillQty && RandomPercent"));
    }
    proof {
        reveal_strlit("BAG");
    }
    if sv < MIN_SERVER_VER_ORDER_COMBO_LEGS_PRICE && c.sec_type == String::from_str("BAG")
        && any_leg_priced(&o.order_combo_legs) {
        return Err(api_error_with(order_id, u, " It does not support per-leg prices for order combo legs."));
    }
    if sv < MIN_SERVER_VER_TRAILING_PERCENT && o.trailing_percent.is_set {
        return Err(api_error_with(order_id, u, " It does not support trailing percent parameter."));
    }
    if sv < MIN_SERVER_VER_TRADING_CLASS && !c.trading_class.as_str().is_empty() {
        return Err(api_error_with(order_id, u, " It does not support trading_class parameter in placeOrder."));
    }
    if sv < MIN_SERVER_VER_SCALE_TABLE && (!o.scale_table.as_str().is_empty()
        || !o.active_start_time.as_str().is_empty() || !o.active_stop_time.as_str().is_empty()) {
        return Err(api_error_with(order_id, u, " It does not support scaleTable, activeStartTime && activeStopTime parameters."));
    }
    if sv < MIN_SERVER_VER_ALGO_ID && !o.algo_id.as_str().is_empty() {
        return Err(api_error_with(order_id, u, " It does not support algoId parameter."));
    }
    if sv < MIN_SERVER_VER_ORDER_SOLICITED && o.solicited {
        return Err(api_error_with(order_id, u, " It does not support order solicited parameter."));
    }
    if sv < MIN_SERVER_VER_MODELS_SUPPORT && !o.model_code.as_str().is_empty() {
        return Err(api_error_with(order_id, u, " It does not support model code parameter."));
    }
    if sv < MIN_SERVER_VER_EXT_OPERATOR && !o.ext_operator.as_str().is_empty() {
        return Err(api_error_with(order_id, u, " It does not support ext operator parameter."));
    }
    if sv < MIN_SERVER_VER_SOFT_DOLLAR_TIER && (!o.soft_dollar_tier_name.as_str().is_empty()
        || !o.soft_dollar_tier_val.as_str().is_empty()) {
        return Err(api_error_with(order_id, u, " It does not support soft dollar tier."));
    }
    if sv < MIN_SERVER_VER_CASH_QTY && o.cash_qty.sign != 0 {
        return Err(api_error_with(order_id, u, " It does not support cash quantity parameter."));
    }
    if sv < MIN_SERVER_VER_DECISION_MAKER && (!o.mifid2decision_maker.as_str().is_empty()
        || !o.mifid2decision_algo.as_str().is_empty()) {
        return Err(api_error_with(order_id, u, " It does not support MIFID II decision maker parameters."));
    }
    if sv < MIN_SERVER_VER_MIFID_EXECUTION && (!o.mifid2execution_trader.as_str().is_empty()
        || !o.mifid2execution_algo.as_str().is_empty()) {
        return Err(api_error_with(order_id, u, " It does not support MIFID II execution parameters."));
    }
    if sv < MIN_SERVER_VER_AUTO_PRICE_FOR_HEDGE && o.dont_use_auto_price_for_hedge {
        return Err(api_error_with(order_id, u, " It does not support dontUseAutoPriceForHedge parameter."));
    }
    if sv < MIN_SERVER_VER_ORDER_CONTAINER && o.is_oms_container {
        return Err(api_error_with(order_id, u, " It does not support oms container parameter."));
    }
    if sv < MIN_SERVER_VER_PRICE_MGMT_ALGO && o.use_price_mgmt_algo {
        return Err(api_error_with(order_id, u, " It does not support Use price management algo requests."));
    }
    if sv < MIN_SERVER_VER_DURATION && o.duration != UNSET_INTEGER {
        return Err(api_error_with(order_id, u, " It does not does not support duration attribute"));
    }
    if sv < MIN_SERVER_VER_POST_TO_ATS && o.post_to_ats != UNSET_INTEGER {
        return Err(api_error_with(order_id, u, "   It does not support postToAts attribute"));
    }
    Ok(())
}

} // verus!

verus! {

/// The fields of a combo leg in an order message.
pub open spec fn order_leg_text(sv: i32, leg: ComboLegFields) -> Seq<char> {
    int_field(leg.con_id as int) + text_field(leg.ratio) + text_field(leg.action) + text_field(
        leg.exchange,
    ) + int_field(leg.open_close.code_of()) + int_field(leg.short_sale_slot as int) + text_field(
        leg.designated_location,
    ) + given(sv >= MIN_SERVER_VER_SSHORTX_OLD, int_field(leg.exempt_code as int))
}

/// The fields of combo legs in an order message, one leg after the other.
pub open spec fn order_legs_text(sv: i32, legs: Seq<ComboLegFields>) -> Seq<char>
    decreases legs.len(),
{
    if legs.len() == 0 {
        Seq::empty()
    } else {
        order_legs_text(sv, legs.drop_last()) + order_leg_text(sv, legs.last())
    }
}

/// The price fields of order combo legs, empty for a leg without a price.
pub open spec fn leg_prices_text(legs: Seq<FloatField>) -> Seq<char>
    decreases legs.len(),
{
    if legs.len() == 0 {
        Seq::empty()
    } else {
        leg_prices_text(legs.drop_last()) + float_or_empty(legs.last())
    }
}

/// The fields of tag-value pairs: each tag, then its value.
pub open spec fn tag_values_text(tvs: Seq<TagValue>) -> Seq<char>
    decreases tvs.len(),
{
    if tvs.len() == 0 {
        Seq::empty()
    } else {
        tag_values_text(tvs.drop_last()) + text_field(tvs.last().tag) + text_field(tvs.last().value)
    }
}

/// The options of an order written as one text: `tag=value;` for each.
pub open spec fn misc_options_text(tvs: Seq<TagValue>) -> Seq<char>
    decreases tvs.len(),
{
    if tvs.len() == 0 {
        Seq::empty()
    } else {
        misc_options_text(tvs.drop_last()) + tvs.last().tag@ + "="@ + tvs.last().value@ + ";"@
    }
}

/// Texts written one after the other.
pub open spec fn concat_texts(fs: Seq<String>) -> Seq<char>
    decreases fs.len(),
{
    if fs.len() == 0 {
        Seq::empty()
    } else {
        concat_texts(fs.drop_last()) + fs.last()@
    }
}

/// The conditions of an order: for each, the number of its type and then its own fields.
pub open spec fn conditions_text(cs: Seq<ConditionFields>) -> Seq<char>
    decreases cs.len(),
{
    if cs.len() == 0 {
        Seq::empty()
    } else {
        conditions_text(cs.drop_last()) + int_field(cs.last().cond_type as int) + concat_texts(
            cs.last().fields@,
        )
    }
}

/// The message id, the version for servers that take one, and the order id.
pub open spec fn order_header_text(sv: i32, order_id: i32) -> Seq<char> {
    int_field(PLACE_ORDER as int) + given(
        sv < MIN_SERVER_VER_ORDER_CONTAINER,
        int_field(if sv < MIN_SERVER_VER_NOT_HELD { 27 } else { 45 }),
    ) + int_field(order_id as int)
}

/// The contract's fields of an order message.
pub open spec fn order_contract_text(sv: i32, c: ContractFields) -> Seq<char> {
    given(sv >= MIN_SERVER_VER_PLACE_ORDER_CONID, int_field(c.con_id as int)) + text_field(c.symbol)
        + text_field(c.sec_type) + text_field(c.last_trade_date_or_contract_month) + text_field(
        c.strike,
    ) + text_field(c.right) + text_field(c.multiplier) + text_field(c.exchange) + text_field(
        c.primary_exchange,
    ) + text_field(c.currency) + text_field(c.local_symbol) + given(
        sv >= MIN_SERVER_VER_TRADING_CLASS,
        text_field(c.trading_class),
    ) + given(sv >= MIN_SERVER_VER_SEC_ID_TYPE, text_field(c.sec_id_type) + text_field(c.sec_id))
}

/// The main and extended fields of an order: action, quantity, type, prices and the flags
/// that follow them.
pub open spec fn order_main_text(sv: i32, o: OrderFields) -> Seq<char> {
    text_field(o.action) + (if sv >= MIN_SERVER_VER_FRACTIONAL_POSITIONS {
        float_field(o.total_quantity)
    } else {
        int_field(o.total_quantity_whole as int)
    }) + text_field(o.order_type) + (if sv < MIN_SERVER_VER_ORDER_COMBO_LEGS_PRICE {
        float_or_zero(o.lmt_price)
    } else {
        float_or_empty(o.lmt_price)
    }) + (if sv < MIN_SERVER_VER_TRAILING_PERCENT {
        float_or_zero(o.aux_price)
    } else {
        float_or_empty(o.aux_price)
    }) + text_field(o.tif) + text_field(o.oca_group) + text_field(o.account) + text_field(
        o.open_close,
    ) + int_field(o.origin.code_of()) + text_field(o.order_ref) + bool_field(o.transmit) + int_field(
        o.parent_id as int,
    ) + bool_field(o.block_order) + bool_field(o.sweep_to_fill) + int_field(o.display_size as int)
        + int_field(o.trigger_method as int) + bool_field(o.outside_rth) + bool_field(o.hidden)
}

/// The combo fields of an order on a `BAG` contract: the contract's legs, the order's leg
/// prices and the smart combo routing parameters, each with its count.
pub open spec fn order_combo_text(sv: i32, c: ContractFields, o: OrderFields) -> Seq<char> {
    let bag = c.sec_type@ == "BAG"@;
    given(bag, int_field(c.combo_legs@.len() as int) + order_legs_text(sv, c.combo_legs@)) + given(
        sv >= MIN_SERVER_VER_ORDER_COMBO_LEGS_PRICE && bag,
        int_field(o.order_combo_legs@.len() as int) + leg_prices_text(o.order_combo_legs@),
    ) + given(
        sv >= MIN_SERVER_VER_SMART_COMBO_ROUTING_PARAMS && bag,
        int_field(o.smart_combo_routing_params@.len() as int) + tag_values_text(
            o.smart_combo_routing_params@,
        ),
    )
}

/// The allocation, short sale and auction fields of an order.
pub open spec fn order_alloc_text(sv: i32, o: OrderFields) -> Seq<char> {
    field_spec(Seq::empty()) + float_field(o.discretionary_amt) + text_field(o.good_after_time)
        + text_field(o.good_till_date) + text_field(o.fa_group) + text_field(o.fa_method)
        + text_field(o.fa_percentage) + text_field(o.fa_profile) + given(
        sv >= MIN_SERVER_VER_MODELS_SUPPORT,
        text_field(o.model_code),
    ) + int_field(o.short_sale_slot as int) + text_field(o.designated_location) + given(
        sv >= MIN_SERVER_VER_SSHORTX_OLD,
        int_field(o.exempt_code as int),
    ) + int_field(o.oca_type as int) + text_field(o.rule80a) + text_field(o.settling_firm)
        + bool_field(o.all_or_none) + int_or_empty(o.min_qty) + float_or_empty(o.percent_offset)
        + bool_field(o.e_trade_only) + bool_field(o.firm_quote_only) + float_or_empty(
        o.nbbo_price_cap,
    ) + int_field(o.auction_strategy.code_of()) + float_or_empty(o.starting_price)
        + float_or_empty(o.stock_ref_price) + float_or_empty(o.delta) + float_or_empty(
        o.stock_range_lower,
    ) + float_or_empty(o.stock_range_upper) + bool_field(o.override_percentage_constraints)
}

/// The volatility, delta-neutral and trailing fields of an order.
pub open spec fn order_volatility_text(sv: i32, o: OrderFields) -> Seq<char> {
    let dn = o.delta_neutral_order_type@.len() > 0;
    float_or_empty(o.volatility) + int_or_empty(o.volatility_type) + text_field(
        o.delta_neutral_order_type,
    ) + float_or_empty(o.delta_neutral_aux_price) + given(
        sv >= MIN_SERVER_VER_DELTA_NEUTRAL_CONID && dn,
        int_field(o.delta_neutral_con_id as int) + text_field(o.delta_neutral_settling_firm)
            + text_field(o.delta_neutral_clearing_account) + text_field(
            o.delta_neutral_clearing_intent,
        ),
    ) + given(
        sv >= MIN_SERVER_VER_DELTA_NEUTRAL_OPEN_CLOSE && dn,
        text_field(o.delta_neutral_open_close) + bool_field(o.delta_neutral_short_sale) + int_field(
            o.delta_neutral_short_sale_slot as int,
        ) + text_field(o.delta_neutral_designated_location),
    ) + bool_field(o.continuous_update) + int_or_empty(o.reference_price_type) + float_or_empty(
        o.trail_stop_price,
    ) + given(sv >= MIN_SERVER_VER_TRAILING_PERCENT, float_or_empty(o.trailing_percent))
}

/// The scale fields of an order.
pub open spec fn order_scale_text(sv: i32, o: OrderFields) -> Seq<char> {
    (if sv >= MIN_SERVER_VER_SCALE_ORDERS2 {
        int_or_empty(o.scale_init_level_size) + int_or_empty(o.scale_subs_level_size)
    } else {
        field_spec(Seq::empty()) + int_or_empty(o.scale_init_level_size)
    }) + float_or_empty(o.scale_price_increment) + given(
        sv >= MIN_SERVER_VER_SCALE_ORDERS3 && scales_price(o),
        float_or_empty(o.scale_price_adjust_value) + int_or_empty(o.scale_price_adjust_interval)
            + float_or_empty(o.scale_profit_offset) + bool_field(o.scale_auto_reset)
            + int_or_empty(o.scale_init_position) + int_or_empty(o.scale_init_fill_qty)
            + bool_field(o.scale_random_percent),
    ) + given(
        sv >= MIN_SERVER_VER_SCALE_TABLE,
        text_field(o.scale_table) + text_field(o.active_start_time) + text_field(o.active_stop_time),
    )
}

/// The hedge, routing and delta-neutral contract fields of an order.
pub open spec fn order_hedge_text(sv: i32, c: ContractFields, o: OrderFields) -> Seq<char> {
    given(
        sv >= MIN_SERVER_VER_HEDGE_ORDERS,
        text_field(o.hedge_type) + given(o.hedge_type@.len() > 0, text_field(o.hedge_param)),
    ) + given(sv >= MIN_SERVER_VER_OPT_OUT_SMART_ROUTING, bool_field(o.opt_out_smart_routing))
        + given(
        sv >= MIN_SERVER_VER_PTA_ORDERS,
        text_field(o.clearing_account) + text_field(o.clearing_intent),
    ) + given(sv >= MIN_SERVER_VER_NOT_HELD, bool_field(o.not_held)) + given(
        sv >= MIN_SERVER_VER_DELTA_NEUTRAL,
        delta_neutral_text(c.delta_neutral_contract),
    )
}

/// The algo and option fields of an order.
pub open spec fn order_algo_text(sv: i32, o: OrderFields) -> Seq<char> {
    given(
        sv >= MIN_SERVER_VER_ALGO_ORDERS,
        text_field(o.algo_strategy) + given(
            o.algo_strategy@.len() > 0,
            int_field(o.algo_params@.len() as int) + tag_values_text(o.algo_params@),
        ),
    ) + given(sv >= MIN_SERVER_VER_ALGO_ID, text_field(o.algo_id)) + bool_field(o.what_if) + given(
        sv >= MIN_SERVER_VER_LINKING,
        field_spec(misc_options_text(o.order_misc_options@)),
    ) + given(sv >= MIN_SERVER_VER_ORDER_SOLICITED, bool_field(o.solicited)) + given(
        sv >= MIN_SERVER_VER_RANDOMIZE_SIZE_AND_PRICE,
        bool_field(o.randomize_size) + bool_field(o.randomize_price),
    )
}

/// The pegged-to-benchmark, condition and adjustment fields of an order.
pub open spec fn order_peg_text(sv: i32, o: OrderFields) -> Seq<char> {
    given(
        sv >= MIN_SERVER_VER_PEGGED_TO_BENCHMARK,
        given(
            o.order_type@ == "PEG BENCH"@,
            int_field(o.reference_contract_id as int) + bool_field(
                o.is_pegged_change_amount_decrease,
            ) + float_field(o.pegged_change_amount) + float_field(o.reference_change_amount)
                + text_field(o.reference_exchange_id),
        ) + int_field(o.conditions@.len() as int) + given(
            o.conditions@.len() > 0,
            conditions_text(o.conditions@) + bool_field(o.conditions_ignore_rth) + bool_field(
                o.conditions_cancel_order,
            ),
        ) + text_field(o.adjusted_order_type) + float_field(o.trigger_price) + float_field(
            o.lmt_price_offset,
        ) + float_field(o.adjusted_stop_price) + float_field(o.adjusted_stop_limit_price)
            + float_field(o.adjusted_trailing_amount) + int_field(o.adjustable_trailing_unit as int),
    )
}

/// The last fields of an order, each for the servers that take it.
pub open spec fn order_tail_text(sv: i32, o: OrderFields) -> Seq<char> {
    given(sv >= MIN_SERVER_VER_EXT_OPERATOR, text_field(o.ext_operator)) + given(
        sv >= MIN_SERVER_VER_SOFT_DOLLAR_TIER,
        text_field(o.soft_dollar_tier_name) + text_field(o.soft_dollar_tier_val),
    ) + given(sv >= MIN_SERVER_VER_CASH_QTY, float_field(o.cash_qty)) + given(
        sv >= MIN_SERVER_VER_DECISION_MAKER,
        text_field(o.mifid2decision_maker) + text_field(o.mifid2decision_algo),
    ) + given(
        sv >= MIN_SERVER_VER_MIFID_EXECUTION,
        text_field(o.mifid2execution_trader) + text_field(o.mifid2execution_algo),
    ) + given(
        sv >= MIN_SERVER_VER_AUTO_PRICE_FOR_HEDGE,
        bool_field(o.dont_use_auto_price_for_hedge),
    ) + given(sv >= MIN_SERVER_VER_ORDER_CONTAINER, bool_field(o.is_oms_container)) + given(
        sv >= MIN_SERVER_VER_D_PEG_ORDERS,
        bool_field(o.discretionary_up_to_limit_price),
    ) + given(sv >= MIN_SERVER_VER_PRICE_MGMT_ALGO, bool_field(o.use_price_mgmt_algo)) + given(
        sv >= MIN_SERVER_VER_DURATION,
        int_field(o.duration as int),
    ) + given(sv >= MIN_SERVER_VER_POST_TO_ATS, int_field(o.post_to_ats as int))
}

/// The whole text of a place order message.
pub open spec fn place_order_text(sv: i32, order_id: i32, c: ContractFields, o: OrderFields) -> Seq<
    char,
> {
    order_header_text(sv, order_id) + order_contract_text(sv, c) + order_main_text(sv, o)
        + order_combo_text(sv, c, o) + order_alloc_text(sv, o) + order_volatility_text(sv, o)
        + order_scale_text(sv, o) + order_hedge_text(sv, c, o) + order_algo_text(sv, o)
        + order_peg_text(sv, o)
        + order_tail_text(sv, o)
}

} // verus!

verus! {

fn push_float(msg: &mut String, f: &FloatField)
    ensures
        final(msg)@ == old(msg)@ + float_field(*f),
{
    push_str_field(msg, f.text.as_str());
}

pub(crate) fn push_float_or_empty(msg: &mut String, f: &FloatField)
    ensures
        final(msg)@ == old(msg)@ + float_or_empty(*f),
{
    if f.is_set {
        push_str_field(msg, f.text.as_str());
    } else {
        proof {
            reveal_strlit("");
        }
        push_str_field(msg, "");
    }
}

fn push_float_or_zero(msg: &mut String, f: &FloatField)
    ensures
        final(msg)@ == old(msg)@ + float_or_zero(*f),
{
    if f.is_set {
        push_str_field(msg, f.text.as_str());
    } else {
        push_i32_field(msg, 0);
    }
}

pub(crate) fn push_int_or_empty(msg: &mut String, n: i32)
    ensures
        final(msg)@ == old(msg)@ + int_or_empty(n),
{
    if n == UNSET_INTEGER {
        proof {
            reveal_strlit("");
        }
        push_str_field(msg, "");
    } else {
        push_i32_field(msg, n);
    }
}

pub(crate) fn push_count(msg: &mut String, n: usize)
    requires
        n <= i64::MAX,
    ensures
        final(msg)@ == old(msg)@ + int_field(n as int),
{
    let mut count = String::new();
    push_int_text(&mut count, n as i64);
    push_str_field(msg, count.as_str());
}

fn push_order_legs(msg: &mut String, sv: i32, legs: &Vec<ComboLegFields>)
    ensures
        final(msg)@ == old(msg)@ + order_legs_text(sv, legs@),
{
    let ghost start = msg@;
    let mut i: usize = 0;
    assert(legs@.take(0) =~= Seq::<ComboLegFields>::empty());
    while i < legs.len()
        invariant
            i <= legs@.len(),
            msg@ == start + order_legs_text(sv, legs@.take(i as int)),
        decreases legs@.len() - i,
    {
        let leg = &legs[i];
        let ghost before = msg@;
        push_i32_field(msg, leg.con_id);
        push_str_field(msg, leg.ratio.as_str());
        push_str_field(msg, leg.action.as_str());
        push_str_field(msg, leg.exchange.as_str());
        push_i32_field(msg, leg.open_close.to_i32());
        push_i32_field(msg, leg.short_sale_slot);
        push_str_field(msg, leg.designated_location.as_str());
        if sv >= MIN_SERVER_VER_SSHORTX_OLD {
            push_i32_field(msg, leg.exempt_code);
        }
        assert(msg@ =~= before + order_leg_text(sv, *leg));
        assert(legs@.take(i + 1).drop_last() =~= legs@.take(i as int));
        i = i + 1;
        assert(msg@ =~= start + order_legs_text(sv, legs@.take(i as int)));
    }
    assert(legs@.take(legs@.len() as int) =~= legs@);
}

fn push_leg_prices(msg: &mut String, legs: &Vec<FloatField>)
    ensures
        final(msg)@ == old(msg)@ + leg_prices_text(legs@),
{
    let ghost start = msg@;
    let mut i: usize = 0;
    assert(legs@.take(0) =~= Seq::<FloatField>::empty());
    while i < legs.len()
        invariant
            i <= legs@.len(),
            msg@ == start + leg_prices_text(legs@.take(i as int)),
        decreases legs@.len() - i,
    {
        push_float_or_empty(msg, &legs[i]);
        assert(legs@.take(i + 1).drop_last() =~= legs@.take(i as int));
        i = i + 1;
        assert(msg@ =~= start + leg_prices_text(legs@.take(i as int)));
    }
    assert(legs@.take(legs@.len() as int) =~= legs@);
}

fn push_tag_values(msg: &mut String, tvs: &Vec<TagValue>)
    ensures
        final(msg)@ == old(msg)@ + tag_values_text(tvs@),
{
    let ghost start = msg@;
    let mut i: usize = 0;
    assert(tvs@.take(0) =~= Seq::<TagValue>::empty());
    while i < tvs.len()
        invariant
            i <= tvs@.len(),
            msg@ == start + tag_values_text(tvs@.take(i as int)),
        decreases tvs@.len() - i,
    {
        push_str_field(msg, tvs[i].tag.as_str());
        push_str_field(msg, tvs[i].value.as_str());
        assert(tvs@.take(i + 1).drop_last() =~= tvs@.take(i as int));
        i = i + 1;
        assert(msg@ =~= start + tag_values_text(tvs@.take(i as int)));
    }
    assert(tvs@.take(tvs@.len() as int) =~= tvs@);
}

/// The options of an order as one text: `tag=value;` for each.
pub(crate) fn misc_options(tvs: &Vec<TagValue>) -> (r: String)
    ensures
        r@ == misc_options_text(tvs@),
{
    let mut r = String::new();
    let mut i: usize = 0;
    proof {
        reveal_strlit("=");
        reveal_strlit(";");
    }
    assert(tvs@.take(0) =~= Seq::<TagValue>::empty());
    while i < tvs.len()
        invariant
            i <= tvs@.len(),
            r@ == misc_options_text(tvs@.take(i as int)),
            "="@ == seq!['='],
            ";"@ == seq![';'],
        decreases tvs@.len() - i,
    {
        r.append(tvs[i].tag.as_str());
        r.append("=");
        r.append(tvs[i].value.as_str());
        r.append(";");
        assert(tvs@.take(i + 1).drop_last() =~= tvs@.take(i as int));
        i = i + 1;
        assert(r@ =~= misc_options_text(tvs@.take(i as int)));
    }
    assert(tvs@.take(tvs@.len() as int) =~= tvs@);
    r
}

fn push_texts(msg: &mut String, fs: &Vec<String>)
    ensures
        final(msg)@ == old(msg)@ + concat_texts(fs@),
{
    let ghost start = msg@;
    let mut i: usize = 0;
    assert(fs@.take(0) =~= Seq::<String>::empty());
    while i < fs.len()
        invariant
            i <= fs@.len(),
            msg@ == start + concat_texts(fs@.take(i as int)),
        decreases fs@.len() - i,
    {
        msg.append(fs[i].as_str());
        assert(fs@.take(i + 1).drop_last() =~= fs@.take(i as int));
        i = i + 1;
        assert(msg@ =~= start + concat_texts(fs@.take(i as int)));
    }
    assert(fs@.take(fs@.len() as int) =~= fs@);
}

fn push_conditions(msg: &mut String, cs: &Vec<ConditionFields>)
    ensures
        final(msg)@ == old(msg)@ + conditions_text(cs@),
{
    let ghost start = msg@;
    let mut i: usize = 0;
    assert(cs@.take(0) =~= Seq::<ConditionFields>::empty());
    while i < cs.len()
        invariant
            i <= cs@.len(),
            msg@ == start + conditions_text(cs@.take(i as int)),
        decreases cs@.len() - i,
    {
        push_i32_field(msg, cs[i].cond_type);
        push_texts(msg, &cs[i].fields);
        assert(cs@.take(i + 1).drop_last() =~= cs@.take(i as int));
        i = i + 1;
        assert(msg@ =~= start + conditions_text(cs@.take(i as int)));
    }
    assert(cs@.take(cs@.len() as int) =~= cs@);
}

} // verus!

verus! {

fn push_order_contract(msg: &mut String, sv: i32, c: &ContractFields)
    ensures
        final(msg)@ == old(msg)@ + order_contract_text(sv, *c),
{
    let ghost start = msg@;
    if sv >= MIN_SERVER_VER_PLACE_ORDER_CONID {
        push_i32_field(msg, c.con_id);
    }
    push_str_field(msg, c.symbol.as_str());
    push_str_field(msg, c.sec_type.as_str());
    push_str_field(msg, c.last_trade_date_or_contract_month.as_str());
    push_str_field(msg, c.strike.as_str());
    push_str_field(msg, c.right.as_str());
    push_str_field(msg, c.multiplier.as_str());
    push_str_field(msg, c.exchange.as_str());
    push_str_field(msg, c.primary_exchange.as_str());
    push_str_field(msg, c.currency.as_str());
    push_str_field(msg, c.local_symbol.as_str());
    if sv >= MIN_SERVER_VER_TRADING_CLASS {
        push_str_field(msg, c.trading_class.as_str());
    }
    if sv >= MIN_SERVER_VER_SEC_ID_TYPE {
        push_str_field(msg, c.sec_id_type.as_str());
        push_str_field(msg, c.sec_id.as_str());
    }
    assert(msg@ =~= start + order_contract_text(sv, *c));
}

#[verifier::rlimit(100)]
#[verifier::spinoff_prover]
fn push_order_main(msg: &mut String, sv: i32, o: &OrderFields)
    ensures
        final(msg)@ == old(msg)@ + order_main_text(sv, *o),
{
    let ghost start = msg@;
    let ghost mut acc: Seq<char> = Seq::empty();
    let ghost b1 = msg@;
    push_str_field(msg, o.action.as_str());
    proof {
        acc = text_field(o.action);
        assert(msg@ =~= start + acc);
    }
    let ghost b2 = msg@;
    if sv >= MIN_SERVER_VER_FRACTIONAL_POSITIONS {
        push_float(msg, &o.total_quantity);
    } else {
        push_i32_field(msg, o.total_quantity_whole);
    }
    assert(msg@ =~= b2 + (if sv >= MIN_SERVER_VER_FRACTIONAL_POSITIONS { float_field(o.total_quantity) } else { int_field(o.total_quantity_whole as int) }));
    proof {
        lemma_grow(b2, start, acc, (if sv >= MIN_SERVER_VER_FRACTIONAL_POSITIONS { float_field(o.total_quantity) } else { int_field(o.total_quantity_whole as int) }));
        acc = acc + (if sv >= MIN_SERVER_VER_FRACTIONAL_POSITIONS { float_field(o.total_quantity) } else { int_field(o.total_quantity_whole as int) });
    }
    let ghost b3 = msg@;
    push_str_field(msg, o.order_type.as_str());
    proof {
        lemma_grow(b3, start, acc, text_field(o.order_type));
        acc = acc + text_field(o.order_type);
    }
    let ghost b4 = msg@;
    if sv < MIN_SERVER_VER_ORDER_COMBO_LEGS_PRICE {
        push_float_or_zero(msg, &o.lmt_price);
    } else {
        push_float_or_empty(msg, &o.lmt_price);
    }
    assert(msg@ =~= b4 + (if sv < MIN_SERVER_VER_ORDER_COMBO_LEGS_PRICE { float_or_zero(o.lmt_price) } else { float_or_empty(o.lmt_price) }));
    proof {
        lemma_grow(b4, start, acc, (if sv < MIN_SERVER_VER_ORDER_COMBO_LEGS_PRICE { float_or_zero(o.lmt_price) } else { float_or_empty(o.lmt_price) }));
        acc = acc + (if sv < MIN_SERVER_VER_ORDER_COMBO_LEGS_PRICE { float_or_zero(o.lmt_price) } else { float_or_empty(o.lmt_price) });
    }
    let ghost b5 = msg@;
    if sv < MIN_SERVER_VER_TRAILING_PERCENT {
        push_float_or_zero(msg, &o.aux_price);
    } else {
        push_float_or_empty(msg, &o.aux_price);
    }
    assert(msg@ =~= b5 + (if sv < MIN_SERVER_VER_TRAILING_PERCENT { float_or_zero(o.aux_price) } else { float_or_empty(o.aux_price) }));
    proof {
        lemma_grow(b5, start, acc, (if sv < MIN_SERVER_VER_TRAILING_PERCENT { float_or_zero(o.aux_price) } else { float_or_empty(o.aux_price) }));
        acc = acc + (if sv < MIN_SERVER_VER_TRAILING_PERCENT { float_or_zero(o.aux_price) } else { float_or_empty(o.aux_price) });
    }
    let ghost b6 = msg@;
    push_str_field(msg, o.tif.as_str());
    proof {
        lemma_grow(b6, start, acc, text_field(o.tif));
        acc = acc + text_field(o.tif);
    }
    let ghost b7 = msg@;
    push_str_field(msg, o.oca_group.as_str());
    proof {
        lemma_grow(b7, start, acc, text_field(o.oca_group));
        acc = acc + text_field(o.oca_group);
    }
    let ghost b8 = msg@;
    push_str_field(msg, o.account.as_str());
    proof {
        lemma_grow(b8, start, acc, text_field(o.account));
        acc = acc + text_field(o.account);
    }
    let ghost b9 = msg@;
    push_str_field(msg, o.open_close.as_str());
    proof {
        lemma_grow(b9, start, acc, text_field( o.open_close, ));
        acc = acc + text_field( o.open_close, );
    }
    let ghost b10 = msg@;
    push_i32_field(msg, o.origin.to_i32());
    proof {
        lemma_grow(b10, start, acc, int_field(o.origin.code_of()));
        acc = acc + int_field(o.origin.code_of());
    }
    let ghost b11 = msg@;
    push_str_field(msg, o.order_ref.as_str());
    proof {
        lemma_grow(b11, start, acc, text_field(o.order_ref));
        acc = acc + text_field(o.order_ref);
    }
    let ghost b12 = msg@;
    push_bool_field(msg, o.transmit);
    proof {
        lemma_grow(b12, start, acc, bool_field(o.transmit));
        acc = acc + bool_field(o.transmit);
    }
    let ghost b13 = msg@;
    push_i32_field(msg, o.parent_id);
    proof {
        lemma_grow(b13, start, acc, int_field( o.parent_id as int, ));
        acc = acc + int_field( o.parent_id as int, );
    }
    let ghost b14 = msg@;
    push_bool_field(msg, o.block_order);
    proof {
        lemma_grow(b14, start, acc, bool_field(o.block_order));
        acc = acc + bool_field(o.block_order);
    }
    let ghost b15 = msg@;
    push_bool_field(msg, o.sweep_to_fill);
    proof {
        lemma_grow(b15, start, acc, bool_field(o.sweep_to_fill));
        acc = acc + bool_field(o.sweep_to_fill);
    }
    let ghost b16 = msg@;
    push_i32_field(msg, o.display_size);
    proof {
        lemma_grow(b16, start, acc, int_field(o.display_size as int));
        acc = acc + int_field(o.display_size as int);
    }
    let ghost b17 = msg@;
    push_i32_field(msg, o.trigger_method);
    proof {
        lemma_grow(b17, start, acc, int_field(o.trigger_method as int));
        acc = acc + int_field(o.trigger_method as int);
    }
    let ghost b18 = msg@;
    push_bool_field(msg, o.outside_rth);
    proof {
        lemma_grow(b18, start, acc, bool_field(o.outside_rth));
        acc = acc + bool_field(o.outside_rth);
    }
    let ghost b19 = msg@;
    push_bool_field(msg, o.hidden);
    proof {
        lemma_grow(b19, start, acc, bool_field(o.hidden));
        acc = acc + bool_field(o.hidden);
    }
    assert(acc == order_main_text(sv, *o));

}

fn push_order_combo(msg: &mut String, sv: i32, c: &ContractFields, o: &OrderFields)
    requires
        c.combo_legs@.len() <= i64::MAX,
        o.order_combo_legs@.len() <= i64::MAX,
        o.smart_combo_routing_params@.len() <= i64::MAX,
    ensures
        final(msg)@ == old(msg)@ + order_combo_text(sv, *c, *o),
{
    let ghost start = msg@;
    proof {
        reveal_strlit("BAG");
    }
    let bag = c.sec_type == String::from_str("BAG");
    if bag {
        push_count(msg, c.combo_legs.len());
        push_order_legs(msg, sv, &c.combo_legs);
    }
    let ghost mid1 = msg@;
    if sv >= MIN_SERVER_VER_ORDER_COMBO_LEGS_PRICE && bag {
        push_count(msg, o.order_combo_legs.len());
        push_leg_prices(msg, &o.order_combo_legs);
    }
    let ghost mid2 = msg@;
    if sv >= MIN_SERVER_VER_SMART_COMBO_ROUTING_PARAMS && bag {
        push_count(msg, o.smart_combo_routing_params.len());
        push_tag_values(msg, &o.smart_combo_routing_params);
    }
    assert(msg@ =~= start + order_combo_text(sv, *c, *o));
}

#[verifier::rlimit(100)]
#[verifier::spinoff_prover]
fn push_order_alloc(msg: &mut String, sv: i32, o: &OrderFields)
    ensures
        final(msg)@ == old(msg)@ + order_alloc_text(sv, *o),
{
    let ghost start = msg@;
    let ghost mut acc: Seq<char> = Seq::empty();
    proof {
        reveal_strlit("");
    }
    let ghost b1 = msg@;
    push_str_field(msg, "");
    proof {
        acc = field_spec(Seq::empty());
        assert(msg@ =~= start + acc);
    }
    let ghost b2 = msg@;
    push_float(msg, &o.discretionary_amt);
    proof {
        lemma_grow(b2, start, acc, float_field(o.discretionary_amt));
        acc = acc + float_field(o.discretionary_amt);
    }
    let ghost b3 = msg@;
    push_str_field(msg, o.good_after_time.as_str());
    proof {
        lemma_grow(b3, start, acc, text_field(o.good_after_time));
        acc = acc + text_field(o.good_after_time);
    }
    let ghost b4 = msg@;
    push_str_field(msg, o.good_till_date.as_str());
    proof {
        lemma_grow(b4, start, acc, text_field(o.good_till_date));
        acc = acc + text_field(o.good_till_date);
    }
    let ghost b5 = msg@;
    push_str_field(msg, o.fa_group.as_str());
    proof {
        lemma_grow(b5, start, acc, text_field(o.fa_group));
        acc = acc + text_field(o.fa_group);
    }
    let ghost b6 = msg@;
    push_str_field(msg, o.fa_method.as_str());
    proof {
        lemma_grow(b6, start, acc, text_field(o.fa_method));
        acc = acc + text_field(o.fa_method);
    }
    let ghost b7 = msg@;
    push_str_field(msg, o.fa_percentage.as_str());
    proof {
        lemma_grow(b7, start, acc, text_field(o.fa_percentage));
        acc = acc + text_field(o.fa_percentage);
    }
    let ghost b8 = msg@;
    push_str_field(msg, o.fa_profile.as_str());
    proof {
        lemma_grow(b8, start, acc, text_field(o.fa_profile));
        acc = acc + text_field(o.fa_profile);
    }
    let ghost b9 = msg@;
    if sv >= MIN_SERVER_VER_MODELS_SUPPORT {
        push_str_field(msg, o.model_code.as_str());
    }
    assert(msg@ =~= b9 + given( sv >= MIN_SERVER_VER_MODELS_SUPPORT, text_field(o.model_code), ));
    proof {
        lemma_grow(b9, start, acc, given( sv >= MIN_SERVER_VER_MODELS_SUPPORT, text_field(o.model_code), ));
        acc = acc + given( sv >= MIN_SERVER_VER_MODELS_SUPPORT, text_field(o.model_code), );
    }
    let ghost b10 = msg@;
    push_i32_field(msg, o.short_sale_slot);
    proof {
        lemma_grow(b10, start, acc, int_field(o.short_sale_slot as int));
        acc = acc + int_field(o.short_sale_slot as int);
    }
    let ghost b11 = msg@;
    push_str_field(msg, o.designated_location.as_str());
    proof {
        lemma_grow(b11, start, acc, text_field(o.designated_location));
        acc = acc + text_field(o.designated_location);
    }
    let ghost b12 = msg@;
    if sv >= MIN_SERVER_VER_SSHORTX_OLD {
        push_i32_field(msg, o.exempt_code);
    }
    assert(msg@ =~= b12 + given( sv >= MIN_SERVER_VER_SSHORTX_OLD, int_field(o.exempt_code as int), ));
    proof {
        lemma_grow(b12, start, acc, given( sv >= MIN_SERVER_VER_SSHORTX_OLD, int_field(o.exempt_code as int), ));
        acc = acc + given( sv >= MIN_SERVER_VER_SSHORTX_OLD, int_field(o.exempt_code as int), );
    }
    let ghost b13 = msg@;
    push_i32_field(msg, o.oca_type);
    proof {
        lemma_grow(b13, start, acc, int_field(o.oca_type as int));
        acc = acc + int_field(o.oca_type as int);
    }
    let ghost b14 = msg@;
    push_str_field(msg, o.rule80a.as_str());
    proof {
        lemma_grow(b14, start, acc, text_field(o.rule80a));
        acc = acc + text_field(o.rule80a);
    }
    let ghost b15 = msg@;
    push_str_field(msg, o.settling_firm.as_str());
    proof {
        lemma_grow(b15, start, acc, text_field(o.settling_firm));
        acc = acc + text_field(o.settling_firm);
    }
    let ghost b16 = msg@;
    push_bool_field(msg, o.all_or_none);
    proof {
        lemma_grow(b16, start, acc, bool_field(o.all_or_none));
        acc = acc + bool_field(o.all_or_none);
    }
    let ghost b17 = msg@;
    push_int_or_empty(msg, o.min_qty);
    proof {
        lemma_grow(b17, start, acc, int_or_empty(o.min_qty));
        acc = acc + int_or_empty(o.min_qty);
    }
    let ghost b18 = msg@;
    push_float_or_empty(msg, &o.percent_offset);
    proof {
        lemma_grow(b18, start, acc, float_or_empty(o.percent_offset));
        acc = acc + float_or_empty(o.percent_offset);
    }
    let ghost b19 = msg@;
    push_bool_field(msg, o.e_trade_only);
    proof {
        lemma_grow(b19, start, acc, bool_field(o.e_trade_only));
        acc = acc + bool_field(o.e_trade_only);
    }
    let ghost b20 = msg@;
    push_bool_field(msg, o.firm_quote_only);
    proof {
        lemma_grow(b20, start, acc, bool_field(o.firm_quote_only));
        acc = acc + bool_field(o.firm_quote_only);
    }
    let ghost b21 = msg@;
    push_float_or_empty(msg, &o.nbbo_price_cap);
    proof {
        lemma_grow(b21, start, acc, float_or_empty( o.nbbo_price_cap, ));
        acc = acc + float_or_empty( o.nbbo_price_cap, );
    }
    let ghost b22 = msg@;
    push_i32_field(msg, o.auction_strategy.to_i32());
    proof {
        lemma_grow(b22, start, acc, int_field(o.auction_strategy.code_of()));
        acc = acc + int_field(o.auction_strategy.code_of());
    }
    let ghost b23 = msg@;
    push_float_or_empty(msg, &o.starting_price);
    proof {
        lemma_grow(b23, start, acc, float_or_empty(o.starting_price));
        acc = acc + float_or_empty(o.starting_price);
    }
    let ghost b24 = msg@;
    push_float_or_empty(msg, &o.stock_ref_price);
    proof {
        lemma_grow(b24, start, acc, float_or_empty(o.stock_ref_price));
        acc = acc + float_or_empty(o.stock_ref_price);
    }
    let ghost b25 = msg@;
    push_float_or_empty(msg, &o.delta);
    proof {
        lemma_grow(b25, start, acc, float_or_empty(o.delta));
        acc = acc + float_or_empty(o.delta);
    }
    let ghost b26 = msg@;
    push_float_or_empty(msg, &o.stock_range_lower);
    proof {
        lemma_grow(b26, start, acc, float_or_empty( o.stock_range_lower, ));
        acc = acc + float_or_empty( o.stock_range_lower, );
    }
    let ghost b27 = msg@;
    push_float_or_empty(msg, &o.stock_range_upper);
    proof {
        lemma_grow(b27, start, acc, float_or_empty(o.stock_range_upper));
        acc = acc + float_or_empty(o.stock_range_upper);
    }
    let ghost b28 = msg@;
    push_bool_field(msg, o.override_percentage_constraints);
    proof {
        lemma_grow(b28, start, acc, bool_field(o.override_percentage_constraints));
        acc = acc + bool_field(o.override_percentage_constraints);
    }
    assert(acc == order_alloc_text(sv, *o));

}

#[verifier::rlimit(100)]
#[verifier::spinoff_prover]
fn push_order_volatility(msg: &mut String, sv: i32, o: &OrderFields)
    ensures
        final(msg)@ == old(msg)@ + order_volatility_text(sv, *o),
{
    let ghost start = msg@;
    let ghost mut acc: Seq<char> = Seq::empty();
    let ghost b1 = msg@;
    push_float_or_empty(msg, &o.volatility);
    proof {
        acc = float_or_empty(o.volatility);
        assert(msg@ =~= start + acc);
    }
    let ghost b2 = msg@;
    push_int_or_empty(msg, o.volatility_type);
    proof {
        lemma_grow(b2, start, acc, int_or_empty(o.volatility_type));
        acc = acc + int_or_empty(o.volatility_type);
    }
    let ghost b3 = msg@;
    push_str_field(msg, o.delta_neutral_order_type.as_str());
    proof {
        lemma_grow(b3, start, acc, text_field( o.delta_neutral_order_type, ));
        acc = acc + text_field( o.delta_neutral_order_type, );
    }
    let ghost b4 = msg@;
    push_float_or_empty(msg, &o.delta_neutral_aux_price);
    proof {
        lemma_grow(b4, start, acc, float_or_empty(o.delta_neutral_aux_price));
        acc = acc + float_or_empty(o.delta_neutral_aux_price);
    }
    let dn = !o.delta_neutral_order_type.as_str().is_empty();
    let ghost b5 = msg@;
    if sv >= MIN_SERVER_VER_DELTA_NEUTRAL_CONID && dn {
        push_i32_field(msg, o.delta_neutral_con_id);
        push_str_field(msg, o.delta_neutral_settling_firm.as_str());
        push_str_field(msg, o.delta_neutral_clearing_account.as_str());
        push_str_field(msg, o.delta_neutral_clearing_intent.as_str());
    }
    assert(msg@ =~= b5 + given( sv >= MIN_SERVER_VER_DELTA_NEUTRAL_CONID && (o.delta_neutral_order_type@.len() > 0), int_field(o.delta_neutral_con_id as int) + text_field(o.delta_neutral_settling_firm) + text_field(o.delta_neutral_clearing_account) + text_field( o.delta_neutral_clearing_intent, ), ));
    proof {
        lemma_grow(b5, start, acc, given( sv >= MIN_SERVER_VER_DELTA_NEUTRAL_CONID && (o.delta_neutral_order_type@.len() > 0), int_field(o.delta_neutral_con_id as int) + text_field(o.delta_neutral_settling_firm) + text_field(o.delta_neutral_clearing_account) + text_field( o.delta_neutral_clearing_intent, ), ));
        acc = acc + given( sv >= MIN_SERVER_VER_DELTA_NEUTRAL_CONID && (o.delta_neutral_order_type@.len() > 0), int_field(o.delta_neutral_con_id as int) + text_field(o.delta_neutral_settling_firm) + text_field(o.delta_neutral_clearing_account) + text_field( o.delta_neutral_clearing_intent, ), );
    }
    let ghost b6 = msg@;
    if sv >= MIN_SERVER_VER_DELTA_NEUTRAL_OPEN_CLOSE && dn {
        push_str_field(msg, o.delta_neutral_open_close.as_str());
        push_bool_field(msg, o.delta_neutral_short_sale);
        push_i32_field(msg, o.delta_neutral_short_sale_slot);
        push_str_field(msg, o.delta_neutral_designated_location.as_str());
    }
    assert(msg@ =~= b6 + given( sv >= MIN_SERVER_VER_DELTA_NEUTRAL_OPEN_CLOSE && (o.delta_neutral_order_type@.len() > 0), text_field(o.delta_neutral_open_close) + bool_field(o.delta_neutral_short_sale) + int_field( o.delta_neutral_short_sale_slot as int, ) + text_field(o.delta_neutral_designated_location), ));
    proof {
        lemma_grow(b6, start, acc, given( sv >= MIN_SERVER_VER_DELTA_NEUTRAL_OPEN_CLOSE && (o.delta_neutral_order_type@.len() > 0), text_field(o.delta_neutral_open_close) + bool_field(o.delta_neutral_short_sale) + int_field( o.delta_neutral_short_sale_slot as int, ) + text_field(o.delta_neutral_designated_location), ));
        acc = acc + given( sv >= MIN_SERVER_VER_DELTA_NEUTRAL_OPEN_CLOSE && (o.delta_neutral_order_type@.len() > 0), text_field(o.delta_neutral_open_close) + bool_field(o.delta_neutral_short_sale) + int_field( o.delta_neutral_short_sale_slot as int, ) + text_field(o.delta_neutral_designated_location), );
    }
    let ghost b7 = msg@;
    push_bool_field(msg, o.continuous_update);
    proof {
        lemma_grow(b7, start, acc, bool_field(o.continuous_update));
        acc = acc + bool_field(o.continuous_update);
    }
    let ghost b8 = msg@;
    push_int_or_empty(msg, o.reference_price_type);
    proof {
        lemma_grow(b8, start, acc, int_or_empty(o.reference_price_type));
        acc = acc + int_or_empty(o.reference_price_type);
    }
    let ghost b9 = msg@;
    push_float_or_empty(msg, &o.trail_stop_price);
    proof {
        lemma_grow(b9, start, acc, float_or_empty( o.trail_stop_price, ));
        acc = acc + float_or_empty( o.trail_stop_price, );
    }
    let ghost b10 = msg@;
    if sv >= MIN_SERVER_VER_TRAILING_PERCENT {
        push_float_or_empty(msg, &o.trailing_percent);
    }
    assert(msg@ =~= b10 + given(sv >= MIN_SERVER_VER_TRAILING_PERCENT, float_or_empty(o.trailing_percent)));
    proof {
        lemma_grow(b10, start, acc, given(sv >= MIN_SERVER_VER_TRAILING_PERCENT, float_or_empty(o.trailing_percent)));
        acc = acc + given(sv >= MIN_SERVER_VER_TRAILING_PERCENT, float_or_empty(o.trailing_percent));
    }
    assert(acc == order_volatility_text(sv, *o));

}

#[verifier::rlimit(100)]
#[verifier::spinoff_prover]
fn push_order_scale(msg: &mut String, sv: i32, o: &OrderFields)
    ensures
        final(msg)@ == old(msg)@ + order_scale_text(sv, *o),
{
    let ghost start = msg@;
    let ghost mut acc: Seq<char> = Seq::empty();
    let ghost b1 = msg@;
    if sv >= MIN_SERVER_VER_SCALE_ORDERS2 {
        push_int_or_empty(msg, o.scale_init_level_size);
        push_int_or_empty(msg, o.scale_subs_level_size);
    } else {
        proof {
            reveal_strlit("");
        }
        push_str_field(msg, "");
        push_int_or_empty(msg, o.scale_init_level_size);
    }
    assert(msg@ =~= b1 + (if sv >= MIN_SERVER_VER_SCALE_ORDERS2 { int_or_empty(o.scale_init_level_size) + int_or_empty(o.scale_subs_level_size) } else { field_spec(Seq::empty()) + int_or_empty(o.scale_init_level_size) }));
    proof {
        acc = (if sv >= MIN_SERVER_VER_SCALE_ORDERS2 { int_or_empty(o.scale_init_level_size) + int_or_empty(o.scale_subs_level_size) } else { field_spec(Seq::empty()) + int_or_empty(o.scale_init_level_size) });
        assert(msg@ =~= start + acc);
    }
    let ghost b2 = msg@;
    push_float_or_empty(msg, &o.scale_price_increment);
    proof {
        lemma_grow(b2, start, acc, float_or_empty(o.scale_price_increment));
        acc = acc + float_or_empty(o.scale_price_increment);
    }
    let ghost b3 = msg@;
    if sv >= MIN_SERVER_VER_SCALE_ORDERS3 && o.scale_price_increment.is_set
        && o.scale_price_increment.sign > 0 {
        push_float_or_empty(msg, &o.scale_price_adjust_value);
        push_int_or_empty(msg, o.scale_price_adjust_interval);
        push_float_or_empty(msg, &o.scale_profit_offset);
        push_bool_field(msg, o.scale_auto_reset);
        push_int_or_empty(msg, o.scale_init_position);
        push_int_or_empty(msg, o.scale_init_fill_qty);
        push_bool_field(msg, o.scale_random_percent);
    }
    assert(msg@ =~= b3 + given( sv >= MIN_SERVER_VER_SCALE_ORDERS3 && scales_price(*o), float_or_empty(o.scale_price_adjust_value) + int_or_empty(o.scale_price_adjust_interval) + float_or_empty(o.scale_profit_offset) + bool_field(o.scale_auto_reset) + int_or_empty(o.scale_init_position) + int_or_empty(o.scale_init_fill_qty) + bool_field(o.scale_random_percent), ));
    proof {
        lemma_grow(b3, start, acc, given( sv >= MIN_SERVER_VER_SCALE_ORDERS3 && scales_price(*o), float_or_empty(o.scale_price_adjust_value) + int_or_empty(o.scale_price_adjust_interval) + float_or_empty(o.scale_profit_offset) + bool_field(o.scale_auto_reset) + int_or_empty(o.scale_init_position) + int_or_empty(o.scale_init_fill_qty) + bool_field(o.scale_random_percent), ));
        acc = acc + given( sv >= MIN_SERVER_VER_SCALE_ORDERS3 && scales_price(*o), float_or_empty(o.scale_price_adjust_value) + int_or_empty(o.scale_price_adjust_interval) + float_or_empty(o.scale_profit_offset) + bool_field(o.scale_auto_reset) + int_or_empty(o.scale_init_position) + int_or_empty(o.scale_init_fill_qty) + bool_field(o.scale_random_percent), );
    }
    let ghost b4 = msg@;
    if sv >= MIN_SERVER_VER_SCALE_TABLE {
        push_str_field(msg, o.scale_table.as_str());
        push_str_field(msg, o.active_start_time.as_str());
        push_str_field(msg, o.active_stop_time.as_str());
    }
    assert(msg@ =~= b4 + given( sv >= MIN_SERVER_VER_SCALE_TABLE, text_field(o.scale_table) + text_field(o.active_start_time) + text_field(o.active_stop_time), ));
    proof {
        lemma_grow(b4, start, acc, given( sv >= MIN_SERVER_VER_SCALE_TABLE, text_field(o.scale_table) + text_field(o.active_start_time) + text_field(o.active_stop_time), ));
        acc = acc + given( sv >= MIN_SERVER_VER_SCALE_TABLE, text_field(o.scale_table) + text_field(o.active_start_time) + text_field(o.active_stop_time), );
    }
    assert(acc == order_scale_text(sv, *o));

}

fn push_order_hedge(msg: &mut String, sv: i32, c: &ContractFields, o: &OrderFields)
    ensures
        final(msg)@ == old(msg)@ + order_hedge_text(sv, *c, *o),
{
    let ghost start = msg@;
    let ghost mut acc: Seq<char> = Seq::empty();
    let ghost b1 = msg@;
    if sv >= MIN_SERVER_VER_HEDGE_ORDERS {
        push_str_field(msg, o.hedge_type.as_str());
        if !o.hedge_type.as_str().is_empty() {
            push_str_field(msg, o.hedge_param.as_str());
        }
    }
    assert(msg@ =~= b1 + given( sv >= MIN_SERVER_VER_HEDGE_ORDERS, text_field(o.hedge_type) + given(o.hedge_type@.len() > 0, text_field(o.hedge_param)), ));
    proof {
        acc = given( sv >= MIN_SERVER_VER_HEDGE_ORDERS, text_field(o.hedge_type) + given(o.hedge_type@.len() > 0, text_field(o.hedge_param)), );
        assert(msg@ =~= start + acc);
    }
    let ghost b2 = msg@;
    if sv >= MIN_SERVER_VER_OPT_OUT_SMART_ROUTING {
        push_bool_field(msg, o.opt_out_smart_routing);
    }
    assert(msg@ =~= b2 + given(sv >= MIN_SERVER_VER_OPT_OUT_SMART_ROUTING, bool_field(o.opt_out_smart_routing)));
    proof {
        lemma_grow(b2, start, acc, given(sv >= MIN_SERVER_VER_OPT_OUT_SMART_ROUTING, bool_field(o.opt_out_smart_routing)));
        acc = acc + given(sv >= MIN_SERVER_VER_OPT_OUT_SMART_ROUTING, bool_field(o.opt_out_smart_routing));
    }
    let ghost b3 = msg@;
    if sv >= MIN_SERVER_VER_PTA_ORDERS {
        push_str_field(msg, o.clearing_account.as_str());
        push_str_field(msg, o.clearing_intent.as_str());
    }
    assert(msg@ =~= b3 + given( sv >= MIN_SERVER_VER_PTA_ORDERS, text_field(o.clearing_account) + text_field(o.clearing_intent), ));
    proof {
        lemma_grow(b3, start, acc, given( sv >= MIN_SERVER_VER_PTA_ORDERS, text_field(o.clearing_account) + text_field(o.clearing_intent), ));
        acc = acc + given( sv >= MIN_SERVER_VER_PTA_ORDERS, text_field(o.clearing_account) + text_field(o.clearing_intent), );
    }
    let ghost b4 = msg@;
    if sv >= MIN_SERVER_VER_NOT_HELD {
        push_bool_field(msg, o.not_held);
    }
    assert(msg@ =~= b4 + given(sv >= MIN_SERVER_VER_NOT_HELD, bool_field(o.not_held)));
    proof {
        lemma_grow(b4, start, acc, given(sv >= MIN_SERVER_VER_NOT_HELD, bool_field(o.not_held)));
        acc = acc + given(sv >= MIN_SERVER_VER_NOT_HELD, bool_field(o.not_held));
    }
    let ghost b5 = msg@;
    if sv >= MIN_SERVER_VER_DELTA_NEUTRAL {
        push_delta_neutral(msg, &c.delta_neutral_contract);
    }
    assert(msg@ =~= b5 + given( sv >= MIN_SERVER_VER_DELTA_NEUTRAL, delta_neutral_text(c.delta_neutral_contract), ));
    proof {
        lemma_grow(b5, start, acc, given( sv >= MIN_SERVER_VER_DELTA_NEUTRAL, delta_neutral_text(c.delta_neutral_contract), ));
        acc = acc + given( sv >= MIN_SERVER_VER_DELTA_NEUTRAL, delta_neutral_text(c.delta_neutral_contract), );
    }
    assert(acc == order_hedge_text(sv, *c, *o));

}

fn push_algo_strategy(msg: &mut String, o: &OrderFields)
    requires
        o.algo_params@.len() <= i64::MAX,
    ensures
        final(msg)@ == old(msg)@ + (text_field(o.algo_strategy) + given(
            o.algo_strategy@.len() > 0,
            int_field(o.algo_params@.len() as int) + tag_values_text(o.algo_params@),
        )),
{
    let ghost start = msg@;
    push_str_field(msg, o.algo_strategy.as_str());
    let ghost b = msg@;
    if !o.algo_strategy.as_str().is_empty() {
        push_count(msg, o.algo_params.len());
        let ghost c = msg@;
        push_tag_values(msg, &o.algo_params);
        proof {
            lemma_grow(c, b, int_field(o.algo_params@.len() as int), tag_values_text(o.algo_params@));
        }
        assert(msg@ =~= b + (int_field(o.algo_params@.len() as int) + tag_values_text(o.algo_params@)));
    }
    assert(msg@ =~= start + (text_field(o.algo_strategy) + given(
        o.algo_strategy@.len() > 0,
        int_field(o.algo_params@.len() as int) + tag_values_text(o.algo_params@),
    )));
}

#[verifier::rlimit(60)]
fn push_order_algo(msg: &mut String, sv: i32, o: &OrderFields)
    requires
        o.algo_params@.len() <= i64::MAX,
    ensures
        final(msg)@ == old(msg)@ + order_algo_text(sv, *o),
{
    let ghost start = msg@;
    let ghost mut acc: Seq<char> = Seq::empty();
    let ghost b1 = msg@;
    if sv >= MIN_SERVER_VER_ALGO_ORDERS {
        push_algo_strategy(msg, o);
    }
    assert(msg@ =~= b1 + given( sv >= MIN_SERVER_VER_ALGO_ORDERS, text_field(o.algo_strategy) + given( o.algo_strategy@.len() > 0, int_field(o.algo_params@.len() as int) + tag_values_text(o.algo_params@), ), ));
    proof {
        acc = given( sv >= MIN_SERVER_VER_ALGO_ORDERS, text_field(o.algo_strategy) + given( o.algo_strategy@.len() > 0, int_field(o.algo_params@.len() as int) + tag_values_text(o.algo_params@), ), );
        assert(msg@ =~= start + acc);
    }
    let ghost b2 = msg@;
    if sv >= MIN_SERVER_VER_ALGO_ID {
        push_str_field(msg, o.algo_id.as_str());
    }
    assert(msg@ =~= b2 + given(sv >= MIN_SERVER_VER_ALGO_ID, text_field(o.algo_id)));
    proof {
        lemma_grow(b2, start, acc, given(sv >= MIN_SERVER_VER_ALGO_ID, text_field(o.algo_id)));
        acc = acc + given(sv >= MIN_SERVER_VER_ALGO_ID, text_field(o.algo_id));
    }
    let ghost b3 = msg@;
    push_bool_field(msg, o.what_if);
    proof {
        lemma_grow(b3, start, acc, bool_field(o.what_if));
        acc = acc + bool_field(o.what_if);
    }
    let ghost b4 = msg@;
    if sv >= MIN_SERVER_VER_LINKING {
        let options = misc_options(&o.order_misc_options);
        push_str_field(msg, options.as_str());
    }
    assert(msg@ =~= b4 + given( sv >= MIN_SERVER_VER_LINKING, field_spec(misc_options_text(o.order_misc_options@)), ));
    proof {
        lemma_grow(b4, start, acc, given( sv >= MIN_SERVER_VER_LINKING, field_spec(misc_options_text(o.order_misc_options@)), ));
        acc = acc + given( sv >= MIN_SERVER_VER_LINKING, field_spec(misc_options_text(o.order_misc_options@)), );
    }
    let ghost b5 = msg@;
    if sv >= MIN_SERVER_VER_ORDER_SOLICITED {
        push_bool_field(msg, o.solicited);
    }
    assert(msg@ =~= b5 + given(sv >= MIN_SERVER_VER_ORDER_SOLICITED, bool_field(o.solicited)));
    proof {
        lemma_grow(b5, start, acc, given(sv >= MIN_SERVER_VER_ORDER_SOLICITED, bool_field(o.solicited)));
        acc = acc + given(sv >= MIN_SERVER_VER_ORDER_SOLICITED, bool_field(o.solicited));
    }
    let ghost b6 = msg@;
    if sv >= MIN_SERVER_VER_RANDOMIZE_SIZE_AND_PRICE {
        push_bool_field(msg, o.randomize_size);
        push_bool_field(msg, o.randomize_price);
    }
    assert(msg@ =~= b6 + given( sv >= MIN_SERVER_VER_RANDOMIZE_SIZE_AND_PRICE, bool_field(o.randomize_size) + bool_field(o.randomize_price), ));
    proof {
        lemma_grow(b6, start, acc, given( sv >= MIN_SERVER_VER_RANDOMIZE_SIZE_AND_PRICE, bool_field(o.randomize_size) + bool_field(o.randomize_price), ));
        acc = acc + given( sv >= MIN_SERVER_VER_RANDOMIZE_SIZE_AND_PRICE, bool_field(o.randomize_size) + bool_field(o.randomize_price), );
    }
    assert(acc == order_algo_text(sv, *o));

}

#[verifier::rlimit(100)]
#[verifier::spinoff_prover]
fn push_order_peg(msg: &mut String, sv: i32, o: &OrderFields)
    requires
        o.conditions@.len() <= i64::MAX,
    ensures
        final(msg)@ == old(msg)@ + order_peg_text(sv, *o),
{
    let ghost start = msg@;
    if sv >= MIN_SERVER_VER_PEGGED_TO_BENCHMARK {
        proof {
            reveal_strlit("PEG BENCH");
        }
        if o.order_type == String::from_str("PEG BENCH") {
            push_i32_field(msg, o.reference_contract_id);
            push_bool_field(msg, o.is_pegged_change_amount_decrease);
            push_float(msg, &o.pegged_change_amount);
            push_float(msg, &o.reference_change_amount);
            push_str_field(msg, o.reference_exchange_id.as_str());
        }
        let ghost m1 = msg@;
        push_count(msg, o.conditions.len());
        if o.conditions.len() > 0 {
            push_conditions(msg, &o.conditions);
            push_bool_field(msg, o.conditions_ignore_rth);
            push_bool_field(msg, o.conditions_cancel_order);
        }
        let ghost m2 = msg@;
        push_str_field(msg, o.adjusted_order_type.as_str());
        push_float(msg, &o.trigger_price);
        push_float(msg, &o.lmt_price_offset);
        push_float(msg, &o.adjusted_stop_price);
        push_float(msg, &o.adjusted_stop_limit_price);
        push_float(msg, &o.adjusted_trailing_amount);
        push_i32_field(msg, o.adjustable_trailing_unit);
    }
    assert(msg@ =~= start + order_peg_text(sv, *o));
}

#[verifier::rlimit(100)]
#[verifier::spinoff_prover]
fn push_order_tail(msg: &mut String, sv: i32, o: &OrderFields)
    ensures
        final(msg)@ == old(msg)@ + order_tail_text(sv, *o),
{
    let ghost start = msg@;
    let ghost mut acc: Seq<char> = Seq::empty();
    let ghost b1 = msg@;
    if sv >= MIN_SERVER_VER_EXT_OPERATOR {
        push_str_field(msg, o.ext_operator.as_str());
    }
    assert(msg@ =~= b1 + given(sv >= MIN_SERVER_VER_EXT_OPERATOR, text_field(o.ext_operator)));
    proof {
        acc = given(sv >= MIN_SERVER_VER_EXT_OPERATOR, text_field(o.ext_operator));
        assert(msg@ =~= start + acc);
    }
    let ghost b2 = msg@;
    if sv >= MIN_SERVER_VER_SOFT_DOLLAR_TIER {
        push_str_field(msg, o.soft_dollar_tier_name.as_str());
        push_str_field(msg, o.soft_dollar_tier_val.as_str());
    }
    assert(msg@ =~= b2 + given( sv >= MIN_SERVER_VER_SOFT_DOLLAR_TIER, text_field(o.soft_dollar_tier_name) + text_field(o.soft_dollar_tier_val), ));
    proof {
        lemma_grow(b2, start, acc, given( sv >= MIN_SERVER_VER_SOFT_DOLLAR_TIER, text_field(o.soft_dollar_tier_name) + text_field(o.soft_dollar_tier_val), ));
        acc = acc + given( sv >= MIN_SERVER_VER_SOFT_DOLLAR_TIER, text_field(o.soft_dollar_tier_name) + text_field(o.soft_dollar_tier_val), );
    }
    let ghost b3 = msg@;
    if sv >= MIN_SERVER_VER_CASH_QTY {
        push_float(msg, &o.cash_qty);
    }
    assert(msg@ =~= b3 + given(sv >= MIN_SERVER_VER_CASH_QTY, float_field(o.cash_qty)));
    proof {
        lemma_grow(b3, start, acc, given(sv >= MIN_SERVER_VER_CASH_QTY, float_field(o.cash_qty)));
        acc = acc + given(sv >= MIN_SERVER_VER_CASH_QTY, float_field(o.cash_qty));
    }
    let ghost b4 = msg@;
    if sv >= MIN_SERVER_VER_DECISION_MAKER {
        push_str_field(msg, o.mifid2decision_maker.as_str());
        push_str_field(msg, o.mifid2decision_algo.as_str());
    }
    assert(msg@ =~= b4 + given( sv >= MIN_SERVER_VER_DECISION_MAKER, text_field(o.mifid2decision_maker) + text_field(o.mifid2decision_algo), ));
    proof {
        lemma_grow(b4, start, acc, given( sv >= MIN_SERVER_VER_DECISION_MAKER, text_field(o.mifid2decision_maker) + text_field(o.mifid2decision_algo), ));
        acc = acc + given( sv >= MIN_SERVER_VER_DECISION_MAKER, text_field(o.mifid2decision_maker) + text_field(o.mifid2decision_algo), );
    }
    let ghost b5 = msg@;
    if sv >= MIN_SERVER_VER_MIFID_EXECUTION {
        push_str_field(msg, o.mifid2execution_trader.as_str());
        push_str_field(msg, o.mifid2execution_algo.as_str());
    }
    assert(msg@ =~= b5 + given( sv >= MIN_SERVER_VER_MIFID_EXECUTION, text_field(o.mifid2execution_trader) + text_field(o.mifid2execution_algo), ));
    proof {
        lemma_grow(b5, start, acc, given( sv >= MIN_SERVER_VER_MIFID_EXECUTION, text_field(o.mifid2execution_trader) + text_field(o.mifid2execution_algo), ));
        acc = acc + given( sv >= MIN_SERVER_VER_MIFID_EXECUTION, text_field(o.mifid2execution_trader) + text_field(o.mifid2execution_algo), );
    }
    let ghost m1 = msg@;
    let ghost b6 = msg@;
    if sv >= MIN_SERVER_VER_AUTO_PRICE_FOR_HEDGE {
        push_bool_field(msg, o.dont_use_auto_price_for_hedge);
    }
    assert(msg@ =~= b6 + given( sv >= MIN_SERVER_VER_AUTO_PRICE_FOR_HEDGE, bool_field(o.dont_use_auto_price_for_hedge), ));
    proof {
        lemma_grow(b6, start, acc, given( sv >= MIN_SERVER_VER_AUTO_PRICE_FOR_HEDGE, bool_field(o.dont_use_auto_price_for_hedge), ));
        acc = acc + given( sv >= MIN_SERVER_VER_AUTO_PRICE_FOR_HEDGE, bool_field(o.dont_use_auto_price_for_hedge), );
    }
    let ghost b7 = msg@;
    if sv >= MIN_SERVER_VER_ORDER_CONTAINER {
        push_bool_field(msg, o.is_oms_container);
    }
    assert(msg@ =~= b7 + given(sv >= MIN_SERVER_VER_ORDER_CONTAINER, bool_field(o.is_oms_container)));
    proof {
        lemma_grow(b7, start, acc, given(sv >= MIN_SERVER_VER_ORDER_CONTAINER, bool_field(o.is_oms_container)));
        acc = acc + given(sv >= MIN_SERVER_VER_ORDER_CONTAINER, bool_field(o.is_oms_container));
    }
    let ghost b8 = msg@;
    if sv >= MIN_SERVER_VER_D_PEG_ORDERS {
        push_bool_field(msg, o.discretionary_up_to_limit_price);
    }
    assert(msg@ =~= b8 + given( sv >= MIN_SERVER_VER_D_PEG_ORDERS, bool_field(o.discretionary_up_to_limit_price), ));
    proof {
        lemma_grow(b8, start, acc, given( sv >= MIN_SERVER_VER_D_PEG_ORDERS, bool_field(o.discretionary_up_to_limit_price), ));
        acc = acc + given( sv >= MIN_SERVER_VER_D_PEG_ORDERS, bool_field(o.discretionary_up_to_limit_price), );
    }
    let ghost b9 = msg@;
    if sv >= MIN_SERVER_VER_PRICE_MGMT_ALGO {
        push_bool_field(msg, o.use_price_mgmt_algo);
    }
    assert(msg@ =~= b9 + given(sv >= MIN_SERVER_VER_PRICE_MGMT_ALGO, bool_field(o.use_price_mgmt_algo)));
    proof {
        lemma_grow(b9, start, acc, given(sv >= MIN_SERVER_VER_PRICE_MGMT_ALGO, bool_field(o.use_price_mgmt_algo)));
        acc = acc + given(sv >= MIN_SERVER_VER_PRICE_MGMT_ALGO, bool_field(o.use_price_mgmt_algo));
    }
    let ghost b10 = msg@;
    if sv >= MIN_SERVER_VER_DURATION {
        push_i32_field(msg, o.duration);
    }
    assert(msg@ =~= b10 + given( sv >= MIN_SERVER_VER_DURATION, int_field(o.duration as int), ));
    proof {
        lemma_grow(b10, start, acc, given( sv >= MIN_SERVER_VER_DURATION, int_field(o.duration as int), ));
        acc = acc + given( sv >= MIN_SERVER_VER_DURATION, int_field(o.duration as int), );
    }
    let ghost b11 = msg@;
    if sv >= MIN_SERVER_VER_POST_TO_ATS {
        push_i32_field(msg, o.post_to_ats);
    }
    assert(msg@ =~= b11 + given(sv >= MIN_SERVER_VER_POST_TO_ATS, int_field(o.post_to_ats as int)));
    proof {
        lemma_grow(b11, start, acc, given(sv >= MIN_SERVER_VER_POST_TO_ATS, int_field(o.post_to_ats as int)));
        acc = acc + given(sv >= MIN_SERVER_VER_POST_TO_ATS, int_field(o.post_to_ats as int));
    }
    assert(acc == order_tail_text(sv, *o));

}

/// The message that `EClient::place_order` sends for an order on a contract. A client that
/// is not connected is refused with `NotConnected`; a server too old for something that the
/// order asks for is refused with `UpdateTws` (see `place_order_refusal`).
pub fn place_order_message(
    status: ConnStatus,
    server_version: i32,
    order_id: i32,
    contract: &ContractFields,
    order: &OrderFields,
) -> (r: Result<String, IBKRApiLibError>)
    requires
        contract.combo_legs@.len() <= i64::MAX,
        order.order_combo_legs@.len() <= i64::MAX,
        order.smart_combo_routing_params@.len() <= i64::MAX,
        order.algo_params@.len() <= i64::MAX,
        order.conditions@.len() <= i64::MAX,
    ensures
        status != ConnStatus::CONNECTED ==> (r matches Err(e) && is_api_error(
            e,
            NO_VALID_ID as int,
            TwsError::NotConnected,
        )),
        status == ConnStatus::CONNECTED ==> match place_order_refusal(
            server_version,
            order_id,
            *contract,
            *order,
        ) {
            Some((id, suffix)) => r matches Err(e) && is_api_error_with(
                e,
                id,
                TwsError::UpdateTws,
                suffix,
            ),
            None => r matches Ok(m) && m@ == place_order_text(
                server_version,
                order_id,
                *contract,
                *order,
            ),
        },
{
    if !status.is_connected() {
        return Err(api_error(NO_VALID_ID, TwsError::NotConnected));
    }
    let sv = server_version;
    match check_order_supported(sv, order_id, contract, order) {
        Err(e) => {
            return Err(e);
        },
        Ok(()) => {},
    }
    let mut msg = String::new();
    push_i32_field(&mut msg, PLACE_ORDER);
    if sv < MIN_SERVER_VER_ORDER_CONTAINER {
        let version: i32 = if sv < MIN_SERVER_VER_NOT_HELD { 27 } else { 45 };
        push_i32_field(&mut msg, version);
    }
    push_i32_field(&mut msg, order_id);
    let ghost h = msg@;
    assert(h =~= order_header_text(sv, order_id));
    push_order_contract(&mut msg, sv, contract);
    push_order_main(&mut msg, sv, order);
    push_order_combo(&mut msg, sv, contract, order);
    push_order_alloc(&mut msg, sv, order);
    push_order_volatility(&mut msg, sv, order);
    push_order_scale(&mut msg, sv, order);
    push_order_hedge(&mut msg, sv, contract, order);
    push_order_algo(&mut msg, sv, order);
    push_order_peg(&mut msg, sv, order);
    push_order_tail(&mut msg, sv, order);
    assert(msg@ =~= place_order_text(sv, order_id, *contract, *order));
    Ok(msg)
}

} // verus!

verus! {

/// Appending to a text that extends `start` by `acc` extends it by `acc` and what was appended.
pub(crate) proof fn lemma_grow(m: Seq<char>, start: Seq<char>, acc: Seq<char>, p: Seq<char>)
    requires
        m == start + acc,
    ensures
        m + p == start + (acc + p),
{
    assert(m + p =~= start + (acc + p));
}

} // verus!

verus! {

/// A server that takes every field of an order (version 160 or later) refuses no order: each
/// refusal is for a server older than the field it concerns.
pub proof fn law_current_server_refuses_no_order(
    sv: i32,
    order_id: i32,
    c: ContractFields,
    o: OrderFields,
)
    requires
        sv >= MIN_SERVER_VER_POST_TO_ATS,
    ensures
        place_order_refusal(sv, order_id, c, o) is None,
{
}

/// Every refusal but the one for a delta-neutral contract carries the order's id.
pub proof fn law_refusals_carry_the_order_id(sv: i32, order_id: i32, c: ContractFields, o: OrderFields)
    requires
        place_order_refusal(sv, order_id, c, o) is Some,
        !(sv < MIN_SERVER_VER_DELTA_NEUTRAL && c.delta_neutral_contract is Some),
    ensures
        place_order_refusal(sv, order_id, c, o) matches Some((id, _)) && id == order_id,
{
}


/// The text of a floating-point field that is left empty when the value is unset.
pub open spec fn set_text(f: FloatField) -> Seq<char> {
    if f.is_set { f.text@ } else { Seq::empty() }
}

/// The text of an integer field that is left empty when the integer is unset.
pub open spec fn set_int_text(n: i32) -> Seq<char> {
    if n == UNSET_INTEGER { Seq::empty() } else { int_text(n as int) }
}

/// The message id and the order id.
pub open spec fn lead_header_fields(order_id: i32) -> Seq<Seq<char>> {
    Seq::<Seq<char>>::empty()
        .push(int_text(PLACE_ORDER as int))
        .push(int_text(order_id as int))
}

/// The contract's id, symbol, security type, expiry, strike, right, multiplier, exchange,
/// primary exchange, currency, local symbol, trading class, security id type and id.
pub open spec fn lead_contract_fields(c: ContractFields) -> Seq<Seq<char>> {
    Seq::<Seq<char>>::empty()
        .push(int_text(c.con_id as int))
        .push(c.symbol@)
        .push(c.sec_type@)
        .push(c.last_trade_date_or_contract_month@)
        .push(c.strike@)
        .push(c.right@)
        .push(c.multiplier@)
        .push(c.exchange@)
        .push(c.primary_exchange@)
        .push(c.currency@)
        .push(c.local_symbol@)
        .push(c.trading_class@)
        .push(c.sec_id_type@)
        .push(c.sec_id@)
}

/// The order's action, quantity, type, limit and aux prices, time in force, OCA group,
/// account, open/close, origin, order reference, transmit flag, parent id, block-order and
/// sweep-to-fill flags, display size, trigger method, outside-RTH and hidden flags.
pub open spec fn lead_main_fields(o: OrderFields) -> Seq<Seq<char>> {
    Seq::<Seq<char>>::empty()
        .push(o.action@)
        .push(o.total_quantity.text@)
        .push(o.order_type@)
        .push(set_text(o.lmt_price))
        .push(set_text(o.aux_price))
        .push(o.tif@)
        .push(o.oca_group@)
        .push(o.account@)
        .push(o.open_close@)
        .push(int_text(o.origin.code_of()))
        .push(o.order_ref@)
        .push(bool_field_text(o.transmit))
        .push(int_text(o.parent_id as int))
        .push(bool_field_text(o.block_order))
        .push(bool_field_text(o.sweep_to_fill))
        .push(int_text(o.display_size as int))
        .push(int_text(o.trigger_method as int))
        .push(bool_field_text(o.outside_rth))
        .push(bool_field_text(o.hidden))
}

/// An empty field, then the discretionary amount, the good-after time, the good-till date,
/// the financial-advisor group, method, percentage and profile, model code, short-sale slot,
/// designated location, exempt code, OCA type, rule 80A, settling firm, all-or-none flag,
/// minimum quantity, percent offset, e-trade-only and firm-quote-only flags, NBBO price cap,
/// auction strategy, starting and stock reference prices, delta, stock range, and the flag
/// that overrides percentage constraints.
pub open spec fn lead_alloc_fields(o: OrderFields) -> Seq<Seq<char>> {
    Seq::<Seq<char>>::empty()
        .push(Seq::<char>::empty())
        .push(o.discretionary_amt.text@)
        .push(o.good_after_time@)
        .push(o.good_till_date@)
        .push(o.fa_group@)
        .push(o.fa_method@)
        .push(o.fa_percentage@)
        .push(o.fa_profile@)
        .push(o.model_code@)
        .push(int_text(o.short_sale_slot as int))
        .push(o.designated_location@)
        .push(int_text(o.exempt_code as int))
        .push(int_text(o.oca_type as int))
        .push(o.rule80a@)
        .push(o.settling_firm@)
        .push(bool_field_text(o.all_or_none))
        .push(set_int_text(o.min_qty))
        .push(set_text(o.percent_offset))
        .push(bool_field_text(o.e_trade_only))
        .push(bool_field_text(o.firm_quote_only))
        .push(set_text(o.nbbo_price_cap))
        .push(int_text(o.auction_strategy.code_of()))
        .push(set_text(o.starting_price))
        .push(set_text(o.stock_ref_price))
        .push(set_text(o.delta))
        .push(set_text(o.stock_range_lower))
        .push(set_text(o.stock_range_upper))
        .push(bool_field_text(o.override_percentage_constraints))
}

/// The first 63 fields of a place order message to a server that takes no version field, for
/// a contract that is not a combo.
pub open spec fn place_order_leading_fields(order_id: i32, c: ContractFields, o: OrderFields) -> Seq<
    Seq<char>,
> {
    lead_header_fields(order_id) + lead_contract_fields(c) + lead_main_fields(o) + lead_alloc_fields(o)
}

/// The header of a message to a server without a version field.
#[verifier::rlimit(50)]
proof fn lemma_lead_header(sv: i32, order_id: i32)
    requires
        sv >= MIN_SERVER_VER_ORDER_CONTAINER,
    ensures
        order_header_text(sv, order_id) == join_fields(lead_header_fields(order_id)),
{
    lemma_join_push(Seq::<Seq<char>>::empty(), int_text(PLACE_ORDER as int));
    lemma_join_push(Seq::<Seq<char>>::empty().push(int_text(PLACE_ORDER as int)), int_text(order_id as int));
    assert(join_fields(Seq::<Seq<char>>::empty()) == Seq::<char>::empty());
    assert(order_header_text(sv, order_id) =~= join_fields(lead_header_fields(order_id)));
}

/// The contract's fields for such a server.
#[verifier::rlimit(50)]
proof fn lemma_lead_contract(sv: i32, c: ContractFields)
    requires
        sv >= MIN_SERVER_VER_ORDER_CONTAINER,
    ensures
        order_contract_text(sv, c) == join_fields(lead_contract_fields(c)),
{
    lemma_join_push(Seq::<Seq<char>>::empty(), int_text(c.con_id as int));
    lemma_join_push(Seq::<Seq<char>>::empty().push(int_text(c.con_id as int)), c.symbol@);
    lemma_join_push(Seq::<Seq<char>>::empty().push(int_text(c.con_id as int)).push(c.symbol@), c.sec_type@);
    lemma_join_push(Seq::<Seq<char>>::empty().push(int_text(c.con_id as int)).push(c.symbol@).push(c.sec_type@), c.last_trade_date_or_contract_month@);
    lemma_join_push(Seq::<Seq<char>>::empty().push(int_text(c.con_id as int)).push(c.symbol@).push(c.sec_type@).push(c.last_trade_date_or_contract_month@), c.strike@);
    lemma_join_push(Seq::<Seq<char>>::empty().push(int_text(c.con_id as int)).push(c.symbol@).push(c.sec_type@).push(c.last_trade_date_or_contract_month@).push(c.strike@), c.right@);
    lemma_join_push(Seq::<Seq<char>>::empty().push(int_text(c.con_id as int)).push(c.symbol@).push(c.sec_type@).push(c.last_trade_date_or_contract_month@).push(c.strike@).push(c.right@), c.multiplier@);
    lemma_join_push(Seq::<Seq<char>>::empty().push(int_text(c.con_id as int)).push(c.symbol@).push(c.sec_type@).push(c.last_trade_date_or_contract_month@).push(c.strike@).push(c.right@).push(c.multiplier@), c.exchange@);
    lemma_join_push(Seq::<Seq<char>>::empty().push(int_text(c.con_id as int)).push(c.symbol@).push(c.sec_type@).push(c.last_trade_date_or_contract_month@).push(c.strike@).push(c.right@).push(c.multiplier@).push(c.exchange@), c.primary_exchange@);
    lemma_join_push(Seq::<Seq<char>>::empty().push(int_text(c.con_id as int)).push(c.symbol@).push(c.sec_type@).push(c.last_trade_date_or_contract_month@).push(c.strike@).push(c.right@).push(c.multiplier@).push(c.exchange@).push(c.primary_exchange@), c.currency@);
    lemma_join_push(Seq::<Seq<char>>::empty().push(int_text(c.con_id as int)).push(c.symbol@).push(c.sec_type@).push(c.last_trade_date_or_contract_month@).push(c.strike@).push(c.right@).push(c.multiplier@).push(c.exchange@).push(c.primary_exchange@).push(c.currency@), c.local_symbol@);
    lemma_join_push(Seq::<Seq<char>>::empty().push(int_text(c.con_id as int)).push(c.symbol@).push(c.sec_type@).push(c.last_trade_date_or_contract_month@).push(c.strike@).push(c.right@).push(c.multiplier@).push(c.exchange@).push(c.primary_exchange@).push(c.currency@).push(c.local_symbol@), c.trading_class@);
    lemma_join_push(Seq::<Seq<char>>::empty().push(int_text(c.con_id as int)).push(c.symbol@).push(c.sec_type@).push(c.last_trade_date_or_contract_month@).push(c.strike@).push(c.right@).push(c.multiplier@).push(c.exchange@).push(c.primary_exchange@).push(c.currency@).push(c.local_symbol@).push(c.trading_class@), c.sec_id_type@);
    lemma_join_push(Seq::<Seq<char>>::empty().push(int_text(c.con_id as int)).push(c.symbol@).push(c.sec_type@).push(c.last_trade_date_or_contract_month@).push(c.strike@).push(c.right@).push(c.multiplier@).push(c.exchange@).push(c.primary_exchange@).push(c.currency@).push(c.local_symbol@).push(c.trading_class@).push(c.sec_id_type@), c.sec_id@);
    assert(join_fields(Seq::<Seq<char>>::empty()) == Seq::<char>::empty());
    assert(order_contract_text(sv, c) =~= join_fields(lead_contract_fields(c)));
}

/// The order's main fields for such a server.
#[verifier::rlimit(50)]
proof fn lemma_lead_main(sv: i32, o: OrderFields)
    requires
        sv >= MIN_SERVER_VER_ORDER_CONTAINER,
    ensures
        order_main_text(sv, o) == join_fields(lead_main_fields(o)),
{
    lemma_join_push(Seq::<Seq<char>>::empty(), o.action@);
    lemma_join_push(Seq::<Seq<char>>::empty().push(o.action@), o.total_quantity.text@);
    lemma_join_push(Seq::<Seq<char>>::empty().push(o.action@).push(o.total_quantity.text@), o.order_type@);
    lemma_join_push(Seq::<Seq<char>>::empty().push(o.action@).push(o.total_quantity.text@).push(o.order_type@), set_text(o.lmt_price));
    lemma_join_push(Seq::<Seq<char>>::empty().push(o.action@).push(o.total_quantity.text@).push(o.order_type@).push(set_text(o.lmt_price)), set_text(o.aux_price));
    lemma_join_push(Seq::<Seq<char>>::empty().push(o.action@).push(o.total_quantity.text@).push(o.order_type@).push(set_text(o.lmt_price)).push(set_text(o.aux_price)), o.tif@);
    lemma_join_push(Seq::<Seq<char>>::empty().push(o.action@).push(o.total_quantity.text@).push(o.order_type@).push(set_text(o.lmt_price)).push(set_text(o.aux_price)).push(o.tif@), o.oca_group@);
    lemma_join_push(Seq::<Seq<char>>::empty().push(o.action@).push(o.total_quantity.text@).push(o.order_type@).push(set_text(o.lmt_price)).push(set_text(o.aux_price)).push(o.tif@).push(o.oca_group@), o.account@);
    lemma_join_push(Seq::<Seq<char>>::empty().push(o.action@).push(o.total_quantity.text@).push(o.order_type@).push(set_text(o.lmt_price)).push(set_text(o.aux_price)).push(o.tif@).push(o.oca_group@).push(o.account@), o.open_close@);
    lemma_join_push(Seq::<Seq<char>>::empty().push(o.action@).push(o.total_quantity.text@).push(o.order_type@).push(set_text(o.lmt_price)).push(set_text(o.aux_price)).push(o.tif@).push(o.oca_group@).push(o.account@).push(o.open_close@), int_text(o.origin.code_of()));
    lemma_join_push(Seq::<Seq<char>>::empty().push(o.action@).push(o.total_quantity.text@).push(o.order_type@).push(set_text(o.lmt_price)).push(set_text(o.aux_price)).push(o.tif@).push(o.oca_group@).push(o.account@).push(o.open_close@).push(int_text(o.origin.code_of())), o.order_ref@);
    lemma_join_push(Seq::<Seq<char>>::empty().push(o.action@).push(o.total_quantity.text@).push(o.order_type@).push(set_text(o.lmt_price)).push(set_text(o.aux_price)).push(o.tif@).push(o.oca_group@).push(o.account@).push(o.open_close@).push(int_text(o.origin.code_of())).push(o.order_ref@), bool_field_text(o.transmit));
    lemma_join_push(Seq::<Seq<char>>::empty().push(o.action@).push(o.total_quantity.text@).push(o.order_type@).push(set_text(o.lmt_price)).push(set_text(o.aux_price)).push(o.tif@).push(o.oca_group@).push(o.account@).push(o.open_close@).push(int_text(o.origin.code_of())).push(o.order_ref@).push(bool_field_text(o.transmit)), int_text(o.parent_id as int));
    lemma_join_push(Seq::<Seq<char>>::empty().push(o.action@).push(o.total_quantity.text@).push(o.order_type@).push(set_text(o.lmt_price)).push(set_text(o.aux_price)).push(o.tif@).push(o.oca_group@).push(o.account@).push(o.open_close@).push(int_text(o.origin.code_of())).push(o.order_ref@).push(bool_field_text(o.transmit)).push(int_text(o.parent_id as int)), bool_field_text(o.block_order));
    lemma_join_push(Seq::<Seq<char>>::empty().push(o.action@).push(o.total_quantity.text@).push(o.order_type@).push(set_text(o.lmt_price)).push(set_text(o.aux_price)).push(o.tif@).push(o.oca_group@).push(o.account@).push(o.open_close@).push(int_text(o.origin.code_of())).push(o.order_ref@).push(bool_field_text(o.transmit)).push(int_text(o.parent_id as int)).push(bool_field_text(o.block_order)), bool_field_text(o.sweep_to_fill));
    lemma_join_push(Seq::<Seq<char>>::empty().push(o.action@).push(o.total_quantity.text@).push(o.order_type@).push(set_text(o.lmt_price)).push(set_text(o.aux_price)).push(o.tif@).push(o.oca_group@).push(o.account@).push(o.open_close@).push(int_text(o.origin.code_of())).push(o.order_ref@).push(bool_field_text(o.transmit)).push(int_text(o.parent_id as int)).push(bool_field_text(o.block_order)).push(bool_field_text(o.sweep_to_fill)), int_text(o.display_size as int));
    lemma_join_push(Seq::<Seq<char>>::empty().push(o.action@).push(o.total_quantity.text@).push(o.order_type@).push(set_text(o.lmt_price)).push(set_text(o.aux_price)).push(o.tif@).push(o.oca_group@).push(o.account@).push(o.open_close@).push(int_text(o.origin.code_of())).push(o.order_ref@).push(bool_field_text(o.transmit)).push(int_text(o.parent_id as int)).push(bool_field_text(o.block_order)).push(bool_field_text(o.sweep_to_fill)).push(int_text(o.display_size as int)), int_text(o.trigger_method as int));
    lemma_join_push(Seq::<Seq<char>>::empty().push(o.action@).push(o.total_quantity.text@).push(o.order_type@).push(set_text(o.lmt_price)).push(set_text(o.aux_price)).push(o.tif@).push(o.oca_group@).push(o.account@).push(o.open_close@).push(int_text(o.origin.code_of())).push(o.order_ref@).push(bool_field_text(o.transmit)).push(int_text(o.parent_id as int)).push(bool_field_text(o.block_order)).push(bool_field_text(o.sweep_to_fill)).push(int_text(o.display_size as int)).push(int_text(o.trigger_method as int)), bool_field_text(o.outside_rth));
    lemma_join_push(Seq::<Seq<char>>::empty().push(o.action@).push(o.total_quantity.text@).push(o.order_type@).push(set_text(o.lmt_price)).push(set_text(o.aux_price)).push(o.tif@).push(o.oca_group@).push(o.account@).push(o.open_close@).push(int_text(o.origin.code_of())).push(o.order_ref@).push(bool_field_text(o.transmit)).push(int_text(o.parent_id as int)).push(bool_field_text(o.block_order)).push(bool_field_text(o.sweep_to_fill)).push(int_text(o.display_size as int)).push(int_text(o.trigger_method as int)).push(bool_field_text(o.outside_rth)), bool_field_text(o.hidden));
    assert(join_fields(Seq::<Seq<char>>::empty()) == Seq::<char>::empty());
    assert(order_main_text(sv, o) =~= join_fields(lead_main_fields(o)));
}

/// The order's allocation fields for such a server.
#[verifier::rlimit(50)]
proof fn lemma_lead_alloc(sv: i32, o: OrderFields)
    requires
        sv >= MIN_SERVER_VER_ORDER_CONTAINER,
    ensures
        order_alloc_text(sv, o) == join_fields(lead_alloc_fields(o)),
{
    lemma_join_push(Seq::<Seq<char>>::empty(), Seq::<char>::empty());
    lemma_join_push(Seq::<Seq<char>>::empty().push(Seq::<char>::empty()), o.discretionary_amt.text@);
    lemma_join_push(Seq::<Seq<char>>::empty().push(Seq::<char>::empty()).push(o.discretionary_amt.text@), o.good_after_time@);
    lemma_join_push(Seq::<Seq<char>>::empty().push(Seq::<char>::empty()).push(o.discretionary_amt.text@).push(o.good_after_time@), o.good_till_date@);
    lemma_join_push(Seq::<Seq<char>>::empty().push(Seq::<char>::empty()).push(o.discretionary_amt.text@).push(o.good_after_time@).push(o.good_till_date@), o.fa_group@);
    lemma_join_push(Seq::<Seq<char>>::empty().push(Seq::<char>::empty()).push(o.discretionary_amt.text@).push(o.good_after_time@).push(o.good_till_date@).push(o.fa_group@), o.fa_method@);
    lemma_join_push(Seq::<Seq<char>>::empty().push(Seq::<char>::empty()).push(o.discretionary_amt.text@).push(o.good_after_time@).push(o.good_till_date@).push(o.fa_group@).push(o.fa_method@), o.fa_percentage@);
    lemma_join_push(Seq::<Seq<char>>::empty().push(Seq::<char>::empty()).push(o.discretionary_amt.text@).push(o.good_after_time@).push(o.good_till_date@).push(o.fa_group@).push(o.fa_method@).push(o.fa_percentage@), o.fa_profile@);
    lemma_join_push(Seq::<Seq<char>>::empty().push(Seq::<char>::empty()).push(o.discretionary_amt.text@).push(o.good_after_time@).push(o.good_till_date@).push(o.fa_group@).push(o.fa_method@).push(o.fa_percentage@).push(o.fa_profile@), o.model_code@);
    lemma_join_push(Seq::<Seq<char>>::empty().push(Seq::<char>::empty()).push(o.discretionary_amt.text@).push(o.good_after_time@).push(o.good_till_date@).push(o.fa_group@).push(o.fa_method@).push(o.fa_percentage@).push(o.fa_profile@).push(o.model_code@), int_text(o.short_sale_slot as int));
    lemma_join_push(Seq::<Seq<char>>::empty().push(Seq::<char>::empty()).push(o.discretionary_amt.text@).push(o.good_after_time@).push(o.good_till_date@).push(o.fa_group@).push(o.fa_method@).push(o.fa_percentage@).push(o.fa_profile@).push(o.model_code@).push(int_text(o.short_sale_slot as int)), o.designated_location@);
    lemma_join_push(Seq::<Seq<char>>::empty().push(Seq::<char>::empty()).push(o.discretionary_amt.text@).push(o.good_after_time@).push(o.good_till_date@).push(o.fa_group@).push(o.fa_method@).push(o.fa_percentage@).push(o.fa_profile@).push(o.model_code@).push(int_text(o.short_sale_slot as int)).push(o.designated_location@), int_text(o.exempt_code as int));
    lemma_join_push(Seq::<Seq<char>>::empty().push(Seq::<char>::empty()).push(o.discretionary_amt.text@).push(o.good_after_time@).push(o.good_till_date@).push(o.fa_group@).push(o.fa_method@).push(o.fa_percentage@).push(o.fa_profile@).push(o.model_code@).push(int_text(o.short_sale_slot as int)).push(o.designated_location@).push(int_text(o.exempt_code as int)), int_text(o.oca_type as int));
    lemma_join_push(Seq::<Seq<char>>::empty().push(Seq::<char>::empty()).push(o.discretionary_amt.text@).push(o.good_after_time@).push(o.good_till_date@).push(o.fa_group@).push(o.fa_method@).push(o.fa_percentage@).push(o.fa_profile@).push(o.model_code@).push(int_text(o.short_sale_slot as int)).push(o.designated_location@).push(int_text(o.exempt_code as int)).push(int_text(o.oca_type as int)), o.rule80a@);
    lemma_join_push(Seq::<Seq<char>>::empty().push(Seq::<char>::empty()).push(o.discretionary_amt.text@).push(o.good_after_time@).push(o.good_till_date@).push(o.fa_group@).push(o.fa_method@).push(o.fa_percentage@).push(o.fa_profile@).push(o.model_code@).push(int_text(o.short_sale_slot as int)).push(o.designated_location@).push(int_text(o.exempt_code as int)).push(int_text(o.oca_type as int)).push(o.rule80a@), o.settling_firm@);
    lemma_join_push(Seq::<Seq<char>>::empty().push(Seq::<char>::empty()).push(o.discretionary_amt.text@).push(o.good_after_time@).push(o.good_till_date@).push(o.fa_group@).push(o.fa_method@).push(o.fa_percentage@).push(o.fa_profile@).push(o.model_code@).push(int_text(o.short_sale_slot as int)).push(o.designated_location@).push(int_text(o.exempt_code as int)).push(int_text(o.oca_type as int)).push(o.rule80a@).push(o.settling_firm@), bool_field_text(o.all_or_none));
    lemma_join_push(Seq::<Seq<char>>::empty().push(Seq::<char>::empty()).push(o.discretionary_amt.text@).push(o.good_after_time@).push(o.good_till_date@).push(o.fa_group@).push(o.fa_method@).push(o.fa_percentage@).push(o.fa_profile@).push(o.model_code@).push(int_text(o.short_sale_slot as int)).push(o.designated_location@).push(int_text(o.exempt_code as int)).push(int_text(o.oca_type as int)).push(o.rule80a@).push(o.settling_firm@).push(bool_field_text(o.all_or_none)), set_int_text(o.min_qty));
    lemma_join_push(Seq::<Seq<char>>::empty().push(Seq::<char>::empty()).push(o.discretionary_amt.text@).push(o.good_after_time@).push(o.good_till_date@).push(o.fa_group@).push(o.fa_method@).push(o.fa_percentage@).push(o.fa_profile@).push(o.model_code@).push(int_text(o.short_sale_slot as int)).push(o.designated_location@).push(int_text(o.exempt_code as int)).push(int_text(o.oca_type as int)).push(o.rule80a@).push(o.settling_firm@).push(bool_field_text(o.all_or_none)).push(set_int_text(o.min_qty)), set_text(o.percent_offset));
    lemma_join_push(Seq::<Seq<char>>::empty().push(Seq::<char>::empty()).push(o.discretionary_amt.text@).push(o.good_after_time@).push(o.good_till_date@).push(o.fa_group@).push(o.fa_method@).push(o.fa_percentage@).push(o.fa_profile@).push(o.model_code@).push(int_text(o.short_sale_slot as int)).push(o.designated_location@).push(int_text(o.exempt_code as int)).push(int_text(o.oca_type as int)).push(o.rule80a@).push(o.settling_firm@).push(bool_field_text(o.all_or_none)).push(set_int_text(o.min_qty)).push(set_text(o.percent_offset)), bool_field_text(o.e_trade_only));
    lemma_join_push(Seq::<Seq<char>>::empty().push(Seq::<char>::empty()).push(o.discretionary_amt.text@).push(o.good_after_time@).push(o.good_till_date@).push(o.fa_group@).push(o.fa_method@).push(o.fa_percentage@).push(o.fa_profile@).push(o.model_code@).push(int_text(o.short_sale_slot as int)).push(o.designated_location@).push(int_text(o.exempt_code as int)).push(int_text(o.oca_type as int)).push(o.rule80a@).push(o.settling_firm@).push(bool_field_text(o.all_or_none)).push(set_int_text(o.min_qty)).push(set_text(o.percent_offset)).push(bool_field_text(o.e_trade_only)), bool_field_text(o.firm_quote_only));
    lemma_join_push(Seq::<Seq<char>>::empty().push(Seq::<char>::empty()).push(o.discretionary_amt.text@).push(o.good_after_time@).push(o.good_till_date@).push(o.fa_group@).push(o.fa_method@).push(o.fa_percentage@).push(o.fa_profile@).push(o.model_code@).push(int_text(o.short_sale_slot as int)).push(o.designated_location@).push(int_text(o.exempt_code as int)).push(int_text(o.oca_type as int)).push(o.rule80a@).push(o.settling_firm@).push(bool_field_text(o.all_or_none)).push(set_int_text(o.min_qty)).push(set_text(o.percent_offset)).push(bool_field_text(o.e_trade_only)).push(bool_field_text(o.firm_quote_only)), set_text(o.nbbo_price_cap));
    lemma_join_push(Seq::<Seq<char>>::empty().push(Seq::<char>::empty()).push(o.discretionary_amt.text@).push(o.good_after_time@).push(o.good_till_date@).push(o.fa_group@).push(o.fa_method@).push(o.fa_percentage@).push(o.fa_profile@).push(o.model_code@).push(int_text(o.short_sale_slot as int)).push(o.designated_location@).push(int_text(o.exempt_code as int)).push(int_text(o.oca_type as int)).push(o.rule80a@).push(o.settling_firm@).push(bool_field_text(o.all_or_none)).push(set_int_text(o.min_qty)).push(set_text(o.percent_offset)).push(bool_field_text(o.e_trade_only)).push(bool_field_text(o.firm_quote_only)).push(set_text(o.nbbo_price_cap)), int_text(o.auction_strategy.code_of()));
    lemma_join_push(Seq::<Seq<char>>::empty().push(Seq::<char>::empty()).push(o.discretionary_amt.text@).push(o.good_after_time@).push(o.good_till_date@).push(o.fa_group@).push(o.fa_method@).push(o.fa_percentage@).push(o.fa_profile@).push(o.model_code@).push(int_text(o.short_sale_slot as int)).push(o.designated_location@).push(int_text(o.exempt_code as int)).push(int_text(o.oca_type as int)).push(o.rule80a@).push(o.settling_firm@).push(bool_field_text(o.all_or_none)).push(set_int_text(o.min_qty)).push(set_text(o.percent_offset)).push(bool_field_text(o.e_trade_only)).push(bool_field_text(o.firm_quote_only)).push(set_text(o.nbbo_price_cap)).push(int_text(o.auction_strategy.code_of())), set_text(o.starting_price));
    lemma_join_push(Seq::<Seq<char>>::empty().push(Seq::<char>::empty()).push(o.discretionary_amt.text@).push(o.good_after_time@).push(o.good_till_date@).push(o.fa_group@).push(o.fa_method@).push(o.fa_percentage@).push(o.fa_profile@).push(o.model_code@).push(int_text(o.short_sale_slot as int)).push(o.designated_location@).push(int_text(o.exempt_code as int)).push(int_text(o.oca_type as int)).push(o.rule80a@).push(o.settling_firm@).push(bool_field_text(o.all_or_none)).push(set_int_text(o.min_qty)).push(set_text(o.percent_offset)).push(bool_field_text(o.e_trade_only)).push(bool_field_text(o.firm_quote_only)).push(set_text(o.nbbo_price_cap)).push(int_text(o.auction_strategy.code_of())).push(set_text(o.starting_price)), set_text(o.stock_ref_price));
    lemma_join_push(Seq::<Seq<char>>::empty().push(Seq::<char>::empty()).push(o.discretionary_amt.text@).push(o.good_after_time@).push(o.good_till_date@).push(o.fa_group@).push(o.fa_method@).push(o.fa_percentage@).push(o.fa_profile@).push(o.model_code@).push(int_text(o.short_sale_slot as int)).push(o.designated_location@).push(int_text(o.exempt_code as int)).push(int_text(o.oca_type as int)).push(o.rule80a@).push(o.settling_firm@).push(bool_field_text(o.all_or_none)).push(set_int_text(o.min_qty)).push(set_text(o.percent_offset)).push(bool_field_text(o.e_trade_only)).push(bool_field_text(o.firm_quote_only)).push(set_text(o.nbbo_price_cap)).push(int_text(o.auction_strategy.code_of())).push(set_text(o.starting_price)).push(set_text(o.stock_ref_price)), set_text(o.delta));
    lemma_join_push(Seq::<Seq<char>>::empty().push(Seq::<char>::empty()).push(o.discretionary_amt.text@).push(o.good_after_time@).push(o.good_till_date@).push(o.fa_group@).push(o.fa_method@).push(o.fa_percentage@).push(o.fa_profile@).push(o.model_code@).push(int_text(o.short_sale_slot as int)).push(o.designated_location@).push(int_text(o.exempt_code as int)).push(int_text(o.oca_type as int)).push(o.rule80a@).push(o.settling_firm@).push(bool_field_text(o.all_or_none)).push(set_int_text(o.min_qty)).push(set_text(o.percent_offset)).push(bool_field_text(o.e_trade_only)).push(bool_field_text(o.firm_quote_only)).push(set_text(o.nbbo_price_cap)).push(int_text(o.auction_strategy.code_of())).push(set_text(o.starting_price)).push(set_text(o.stock_ref_price)).push(set_text(o.delta)), set_text(o.stock_range_lower));
    lemma_join_push(Seq::<Seq<char>>::empty().push(Seq::<char>::empty()).push(o.discretionary_amt.text@).push(o.good_after_time@).push(o.good_till_date@).push(o.fa_group@).push(o.fa_method@).push(o.fa_percentage@).push(o.fa_profile@).push(o.model_code@).push(int_text(o.short_sale_slot as int)).push(o.designated_location@).push(int_text(o.exempt_code as int)).push(int_text(o.oca_type as int)).push(o.rule80a@).push(o.settling_firm@).push(bool_field_text(o.all_or_none)).push(set_int_text(o.min_qty)).push(set_text(o.percent_offset)).push(bool_field_text(o.e_trade_only)).push(bool_field_text(o.firm_quote_only)).push(set_text(o.nbbo_price_cap)).push(int_text(o.auction_strategy.code_of())).push(set_text(o.starting_price)).push(set_text(o.stock_ref_price)).push(set_text(o.delta)).push(set_text(o.stock_range_lower)), set_text(o.stock_range_upper));
    lemma_join_push(Seq::<Seq<char>>::empty().push(Seq::<char>::empty()).push(o.discretionary_amt.text@).push(o.good_after_time@).push(o.good_till_date@).push(o.fa_group@).push(o.fa_method@).push(o.fa_percentage@).push(o.fa_profile@).push(o.model_code@).push(int_text(o.short_sale_slot as int)).push(o.designated_location@).push(int_text(o.exempt_code as int)).push(int_text(o.oca_type as int)).push(o.rule80a@).push(o.settling_firm@).push(bool_field_text(o.all_or_none)).push(set_int_text(o.min_qty)).push(set_text(o.percent_offset)).push(bool_field_text(o.e_trade_only)).push(bool_field_text(o.firm_quote_only)).push(set_text(o.nbbo_price_cap)).push(int_text(o.auction_strategy.code_of())).push(set_text(o.starting_price)).push(set_text(o.stock_ref_price)).push(set_text(o.delta)).push(set_text(o.stock_range_lower)).push(set_text(o.stock_range_upper)), bool_field_text(o.override_percentage_constraints));
    assert(join_fields(Seq::<Seq<char>>::empty()) == Seq::<char>::empty());
    assert(order_alloc_text(sv, o) =~= join_fields(lead_alloc_fields(o)));
}

/// A place order message to a server that takes no version field, for a contract that is not
/// a combo, begins with the fields of `place_order_leading_fields`, each followed by NUL, in
/// that order: field 23 is the account, field 37 the good-after time, field 38 the good-till
/// date.
pub proof fn law_place_order_leading_fields(sv: i32, order_id: i32, c: ContractFields, o: OrderFields)
    requires
        sv >= MIN_SERVER_VER_ORDER_CONTAINER,
        c.sec_type@ != "BAG"@,
    ensures
        ({
            let lead = join_fields(place_order_leading_fields(order_id, c, o));
            lead.len() <= place_order_text(sv, order_id, c, o).len()
                && place_order_text(sv, order_id, c, o).subrange(0, lead.len() as int) == lead
        }),
{
    let h = lead_header_fields(order_id);
    let k = lead_contract_fields(c);
    let mm = lead_main_fields(o);
    let a = lead_alloc_fields(o);
    lemma_lead_header(sv, order_id);
    lemma_lead_contract(sv, c);
    lemma_lead_main(sv, o);
    lemma_lead_alloc(sv, o);
    lemma_join_append(h, k);
    lemma_join_append(h + k, mm);
    lemma_join_append(h + k + mm, a);
    let ht = order_header_text(sv, order_id);
    let ct = order_contract_text(sv, c);
    let mt = order_main_text(sv, o);
    let bt = order_combo_text(sv, c, o);
    let at = order_alloc_text(sv, o);
    assert(bt =~= Seq::<char>::empty());
    let lead = join_fields(place_order_leading_fields(order_id, c, o));
    assert(lead == ht + ct + mt + at);
    let x0 = ht + ct + mt + bt + at;
    assert(x0 =~= lead);
    let n = lead.len() as int;
    assert(x0.subrange(0, n) =~= lead);
    let x1 = x0 + order_volatility_text(sv, o);
    lemma_prefix_kept(x0, order_volatility_text(sv, o), n);
    let x2 = x1 + order_scale_text(sv, o);
    lemma_prefix_kept(x1, order_scale_text(sv, o), n);
    let x3 = x2 + order_hedge_text(sv, c, o);
    lemma_prefix_kept(x2, order_hedge_text(sv, c, o), n);
    let x4 = x3 + order_algo_text(sv, o);
    lemma_prefix_kept(x3, order_algo_text(sv, o), n);
    let x5 = x4 + order_peg_text(sv, o);
    lemma_prefix_kept(x4, order_peg_text(sv, o), n);
    lemma_prefix_kept(x5, order_tail_text(sv, o), n);
    assert(place_order_text(sv, order_id, c, o) == x5 + order_tail_text(sv, o));
}

/// Where no text of the contract and the order holds a NUL, the fields of such a message read
/// back as `place_order_leading_fields`.
pub proof fn law_place_order_field_positions(sv: i32, order_id: i32, c: ContractFields, o: OrderFields)
    requires
        sv >= MIN_SERVER_VER_ORDER_CONTAINER,
        c.sec_type@ != "BAG"@,
        forall|i: int| 0 <= i < 63 ==> has_no_nul(#[trigger] place_order_leading_fields(order_id, c, o)[i]),
    ensures
        split_fields(place_order_text(sv, order_id, c, o)).len() >= 63,
        forall|i: int| 0 <= i < 63 ==> #[trigger] split_fields(place_order_text(sv, order_id, c, o))[i]
            == place_order_leading_fields(order_id, c, o)[i],
{
    let fs = place_order_leading_fields(order_id, c, o);
    let m = place_order_text(sv, order_id, c, o);
    law_place_order_leading_fields(sv, order_id, c, o);
    let lead = join_fields(fs);
    let rest = m.subrange(lead.len() as int, m.len() as int);
    assert(m =~= lead + rest);
    assert(fs.len() == 63);
    law_split_joined_prefix(fs, rest);
}


/// The volatility, its type, the delta-neutral order type and aux price.
pub open spec fn vol_lead_fields(o: OrderFields) -> Seq<Seq<char>> {
    Seq::<Seq<char>>::empty()
        .push(set_text(o.volatility))
        .push(set_int_text(o.volatility_type))
        .push(o.delta_neutral_order_type@)
        .push(set_text(o.delta_neutral_aux_price))
}

#[verifier::rlimit(50)]
proof fn lemma_vol_lead_fields(o: OrderFields)
    ensures
        float_or_empty(o.volatility) + int_or_empty(o.volatility_type) + text_field(o.delta_neutral_order_type) + float_or_empty(o.delta_neutral_aux_price) == join_fields(vol_lead_fields(o)),
{
    lemma_join_push(Seq::<Seq<char>>::empty(), set_text(o.volatility));
    lemma_join_push(Seq::<Seq<char>>::empty().push(set_text(o.volatility)), set_int_text(o.volatility_type));
    lemma_join_push(Seq::<Seq<char>>::empty().push(set_text(o.volatility)).push(set_int_text(o.volatility_type)), o.delta_neutral_order_type@);
    lemma_join_push(Seq::<Seq<char>>::empty().push(set_text(o.volatility)).push(set_int_text(o.volatility_type)).push(o.delta_neutral_order_type@), set_text(o.delta_neutral_aux_price));
    assert(join_fields(Seq::<Seq<char>>::empty()) == Seq::<char>::empty());
    assert(float_or_empty(o.volatility) + int_or_empty(o.volatility_type) + text_field(o.delta_neutral_order_type) + float_or_empty(o.delta_neutral_aux_price) =~= join_fields(vol_lead_fields(o)));
}

/// The delta-neutral contract id, settling firm, clearing account and intent.
pub open spec fn vol_dn_firm_fields(o: OrderFields) -> Seq<Seq<char>> {
    Seq::<Seq<char>>::empty()
        .push(int_text(o.delta_neutral_con_id as int))
        .push(o.delta_neutral_settling_firm@)
        .push(o.delta_neutral_clearing_account@)
        .push(o.delta_neutral_clearing_intent@)
}

#[verifier::rlimit(50)]
proof fn lemma_vol_dn_firm_fields(o: OrderFields)
    ensures
        int_field(o.delta_neutral_con_id as int) + text_field(o.delta_neutral_settling_firm) + text_field(o.delta_neutral_clearing_account) + text_field(o.delta_neutral_clearing_intent) == join_fields(vol_dn_firm_fields(o)),
{
    lemma_join_push(Seq::<Seq<char>>::empty(), int_text(o.delta_neutral_con_id as int));
    lemma_join_push(Seq::<Seq<char>>::empty().push(int_text(o.delta_neutral_con_id as int)), o.delta_neutral_settling_firm@);
    lemma_join_push(Seq::<Seq<char>>::empty().push(int_text(o.delta_neutral_con_id as int)).push(o.delta_neutral_settling_firm@), o.delta_neutral_clearing_account@);
    lemma_join_push(Seq::<Seq<char>>::empty().push(int_text(o.delta_neutral_con_id as int)).push(o.delta_neutral_settling_firm@).push(o.delta_neutral_clearing_account@), o.delta_neutral_clearing_intent@);
    assert(join_fields(Seq::<Seq<char>>::empty()) == Seq::<char>::empty());
    assert(int_field(o.delta_neutral_con_id as int) + text_field(o.delta_neutral_settling_firm) + text_field(o.delta_neutral_clearing_account) + text_field(o.delta_neutral_clearing_intent) =~= join_fields(vol_dn_firm_fields(o)));
}

/// The delta-neutral open/close, short-sale flag, short-sale slot and designated location.
pub open spec fn vol_dn_short_fields(o: OrderFields) -> Seq<Seq<char>> {
    Seq::<Seq<char>>::empty()
        .push(o.delta_neutral_open_close@)
        .push(bool_field_text(o.delta_neutral_short_sale))
        .push(int_text(o.delta_neutral_short_sale_slot as int))
        .push(o.delta_neutral_designated_location@)
}

#[verifier::rlimit(50)]
proof fn lemma_vol_dn_short_fields(o: OrderFields)
    ensures
        text_field(o.delta_neutral_open_close) + bool_field(o.delta_neutral_short_sale) + int_field(o.delta_neutral_short_sale_slot as int) + text_field(o.delta_neutral_designated_location) == join_fields(vol_dn_short_fields(o)),
{
    lemma_join_push(Seq::<Seq<char>>::empty(), o.delta_neutral_open_close@);
    lemma_join_push(Seq::<Seq<char>>::empty().push(o.delta_neutral_open_close@), bool_field_text(o.delta_neutral_short_sale));
    lemma_join_push(Seq::<Seq<char>>::empty().push(o.delta_neutral_open_close@).push(bool_field_text(o.delta_neutral_short_sale)), int_text(o.delta_neutral_short_sale_slot as int));
    lemma_join_push(Seq::<Seq<char>>::empty().push(o.delta_neutral_open_close@).push(bool_field_text(o.delta_neutral_short_sale)).push(int_text(o.delta_neutral_short_sale_slot as int)), o.delta_neutral_designated_location@);
    assert(join_fields(Seq::<Seq<char>>::empty()) == Seq::<char>::empty());
    assert(text_field(o.delta_neutral_open_close) + bool_field(o.delta_neutral_short_sale) + int_field(o.delta_neutral_short_sale_slot as int) + text_field(o.delta_neutral_designated_location) =~= join_fields(vol_dn_short_fields(o)));
}

/// The continuous-update flag, reference price type, trail stop price and trailing percent.
pub open spec fn vol_trail_fields(o: OrderFields) -> Seq<Seq<char>> {
    Seq::<Seq<char>>::empty()
        .push(bool_field_text(o.continuous_update))
        .push(set_int_text(o.reference_price_type))
        .push(set_text(o.trail_stop_price))
        .push(set_text(o.trailing_percent))
}

#[verifier::rlimit(50)]
proof fn lemma_vol_trail_fields(o: OrderFields)
    ensures
        bool_field(o.continuous_update) + int_or_empty(o.reference_price_type) + float_or_empty(o.trail_stop_price) + float_or_empty(o.trailing_percent) == join_fields(vol_trail_fields(o)),
{
    lemma_join_push(Seq::<Seq<char>>::empty(), bool_field_text(o.continuous_update));
    lemma_join_push(Seq::<Seq<char>>::empty().push(bool_field_text(o.continuous_update)), set_int_text(o.reference_price_type));
    lemma_join_push(Seq::<Seq<char>>::empty().push(bool_field_text(o.continuous_update)).push(set_int_text(o.reference_price_type)), set_text(o.trail_stop_price));
    lemma_join_push(Seq::<Seq<char>>::empty().push(bool_field_text(o.continuous_update)).push(set_int_text(o.reference_price_type)).push(set_text(o.trail_stop_price)), set_text(o.trailing_percent));
    assert(join_fields(Seq::<Seq<char>>::empty()) == Seq::<char>::empty());
    assert(bool_field(o.continuous_update) + int_or_empty(o.reference_price_type) + float_or_empty(o.trail_stop_price) + float_or_empty(o.trailing_percent) =~= join_fields(vol_trail_fields(o)));
}

/// The scale initial and subsequent level sizes and the price increment.
pub open spec fn scale_lead_fields(o: OrderFields) -> Seq<Seq<char>> {
    Seq::<Seq<char>>::empty()
        .push(set_int_text(o.scale_init_level_size))
        .push(set_int_text(o.scale_subs_level_size))
        .push(set_text(o.scale_price_increment))
}

#[verifier::rlimit(50)]
proof fn lemma_scale_lead_fields(o: OrderFields)
    ensures
        int_or_empty(o.scale_init_level_size) + int_or_empty(o.scale_subs_level_size) + float_or_empty(o.scale_price_increment) == join_fields(scale_lead_fields(o)),
{
    lemma_join_push(Seq::<Seq<char>>::empty(), set_int_text(o.scale_init_level_size));
    lemma_join_push(Seq::<Seq<char>>::empty().push(set_int_text(o.scale_init_level_size)), set_int_text(o.scale_subs_level_size));
    lemma_join_push(Seq::<Seq<char>>::empty().push(set_int_text(o.scale_init_level_size)).push(set_int_text(o.scale_subs_level_size)), set_text(o.scale_price_increment));
    assert(join_fields(Seq::<Seq<char>>::empty()) == Seq::<char>::empty());
    assert(int_or_empty(o.scale_init_level_size) + int_or_empty(o.scale_subs_level_size) + float_or_empty(o.scale_price_increment) =~= join_fields(scale_lead_fields(o)));
}

/// The scale price adjustment value and interval, profit offset, auto-reset flag, initial position, initial fill quantity and random-percent flag.
pub open spec fn scale_extra_fields(o: OrderFields) -> Seq<Seq<char>> {
    Seq::<Seq<char>>::empty()
        .push(set_text(o.scale_price_adjust_value))
        .push(set_int_text(o.scale_price_adjust_interval))
        .push(set_text(o.scale_profit_offset))
        .push(bool_field_text(o.scale_auto_reset))
        .push(set_int_text(o.scale_init_position))
        .push(set_int_text(o.scale_init_fill_qty))
        .push(bool_field_text(o.scale_random_percent))
}

#[verifier::rlimit(50)]
proof fn lemma_scale_extra_fields(o: OrderFields)
    ensures
        float_or_empty(o.scale_price_adjust_value) + int_or_empty(o.scale_price_adjust_interval) + float_or_empty(o.scale_profit_offset) + bool_field(o.scale_auto_reset) + int_or_empty(o.scale_init_position) + int_or_empty(o.scale_init_fill_qty) + bool_field(o.scale_random_percent) == join_fields(scale_extra_fields(o)),
{
    lemma_join_push(Seq::<Seq<char>>::empty(), set_text(o.scale_price_adjust_value));
    lemma_join_push(Seq::<Seq<char>>::empty().push(set_text(o.scale_price_adjust_value)), set_int_text(o.scale_price_adjust_interval));
    lemma_join_push(Seq::<Seq<char>>::empty().push(set_text(o.scale_price_adjust_value)).push(set_int_text(o.scale_price_adjust_interval)), set_text(o.scale_profit_offset));
    lemma_join_push(Seq::<Seq<char>>::empty().push(set_text(o.scale_price_adjust_value)).push(set_int_text(o.scale_price_adjust_interval)).push(set_text(o.scale_profit_offset)), bool_field_text(o.scale_auto_reset));
    lemma_join_push(Seq::<Seq<char>>::empty().push(set_text(o.scale_price_adjust_value)).push(set_int_text(o.scale_price_adjust_interval)).push(set_text(o.scale_profit_offset)).push(bool_field_text(o.scale_auto_reset)), set_int_text(o.scale_init_position));
    lemma_join_push(Seq::<Seq<char>>::empty().push(set_text(o.scale_price_adjust_value)).push(set_int_text(o.scale_price_adjust_interval)).push(set_text(o.scale_profit_offset)).push(bool_field_text(o.scale_auto_reset)).push(set_int_text(o.scale_init_position)), set_int_text(o.scale_init_fill_qty));
    lemma_join_push(Seq::<Seq<char>>::empty().push(set_text(o.scale_price_adjust_value)).push(set_int_text(o.scale_price_adjust_interval)).push(set_text(o.scale_profit_offset)).push(bool_field_text(o.scale_auto_reset)).push(set_int_text(o.scale_init_position)).push(set_int_text(o.scale_init_fill_qty)), bool_field_text(o.scale_random_percent));
    assert(join_fields(Seq::<Seq<char>>::empty()) == Seq::<char>::empty());
    assert(float_or_empty(o.scale_price_adjust_value) + int_or_empty(o.scale_price_adjust_interval) + float_or_empty(o.scale_profit_offset) + bool_field(o.scale_auto_reset) + int_or_empty(o.scale_init_position) + int_or_empty(o.scale_init_fill_qty) + bool_field(o.scale_random_percent) =~= join_fields(scale_extra_fields(o)));
}

/// The scale table and the active start and stop times.
pub open spec fn scale_table_fields(o: OrderFields) -> Seq<Seq<char>> {
    Seq::<Seq<char>>::empty()
        .push(o.scale_table@)
        .push(o.active_start_time@)
        .push(o.active_stop_time@)
}

#[verifier::rlimit(50)]
proof fn lemma_scale_table_fields(o: OrderFields)
    ensures
        text_field(o.scale_table) + text_field(o.active_start_time) + text_field(o.active_stop_time) == join_fields(scale_table_fields(o)),
{
    lemma_join_push(Seq::<Seq<char>>::empty(), o.scale_table@);
    lemma_join_push(Seq::<Seq<char>>::empty().push(o.scale_table@), o.active_start_time@);
    lemma_join_push(Seq::<Seq<char>>::empty().push(o.scale_table@).push(o.active_start_time@), o.active_stop_time@);
    assert(join_fields(Seq::<Seq<char>>::empty()) == Seq::<char>::empty());
    assert(text_field(o.scale_table) + text_field(o.active_start_time) + text_field(o.active_stop_time) =~= join_fields(scale_table_fields(o)));
}

/// The opt-out-of-smart-routing flag, clearing account and intent, and not-held flag.
pub open spec fn hedge_routing_fields(o: OrderFields) -> Seq<Seq<char>> {
    Seq::<Seq<char>>::empty()
        .push(bool_field_text(o.opt_out_smart_routing))
        .push(o.clearing_account@)
        .push(o.clearing_intent@)
        .push(bool_field_text(o.not_held))
}

#[verifier::rlimit(50)]
proof fn lemma_hedge_routing_fields(o: OrderFields)
    ensures
        bool_field(o.opt_out_smart_routing) + text_field(o.clearing_account) + text_field(o.clearing_intent) + bool_field(o.not_held) == join_fields(hedge_routing_fields(o)),
{
    lemma_join_push(Seq::<Seq<char>>::empty(), bool_field_text(o.opt_out_smart_routing));
    lemma_join_push(Seq::<Seq<char>>::empty().push(bool_field_text(o.opt_out_smart_routing)), o.clearing_account@);
    lemma_join_push(Seq::<Seq<char>>::empty().push(bool_field_text(o.opt_out_smart_routing)).push(o.clearing_account@), o.clearing_intent@);
    lemma_join_push(Seq::<Seq<char>>::empty().push(bool_field_text(o.opt_out_smart_routing)).push(o.clearing_account@).push(o.clearing_intent@), bool_field_text(o.not_held));
    assert(join_fields(Seq::<Seq<char>>::empty()) == Seq::<char>::empty());
    assert(bool_field(o.opt_out_smart_routing) + text_field(o.clearing_account) + text_field(o.clearing_intent) + bool_field(o.not_held) =~= join_fields(hedge_routing_fields(o)));
}

/// The algo id, what-if flag, the order's options as one text, solicited flag and randomize-size and randomize-price flags.
pub open spec fn algo_tail_fields(o: OrderFields) -> Seq<Seq<char>> {
    Seq::<Seq<char>>::empty()
        .push(o.algo_id@)
        .push(bool_field_text(o.what_if))
        .push(misc_options_text(o.order_misc_options@))
        .push(bool_field_text(o.solicited))
        .push(bool_field_text(o.randomize_size))
        .push(bool_field_text(o.randomize_price))
}

#[verifier::rlimit(50)]
proof fn lemma_algo_tail_fields(o: OrderFields)
    ensures
        text_field(o.algo_id) + bool_field(o.what_if) + field_spec(misc_options_text(o.order_misc_options@)) + bool_field(o.solicited) + bool_field(o.randomize_size) + bool_field(o.randomize_price) == join_fields(algo_tail_fields(o)),
{
    lemma_join_push(Seq::<Seq<char>>::empty(), o.algo_id@);
    lemma_join_push(Seq::<Seq<char>>::empty().push(o.algo_id@), bool_field_text(o.what_if));
    lemma_join_push(Seq::<Seq<char>>::empty().push(o.algo_id@).push(bool_field_text(o.what_if)), misc_options_text(o.order_misc_options@));
    lemma_join_push(Seq::<Seq<char>>::empty().push(o.algo_id@).push(bool_field_text(o.what_if)).push(misc_options_text(o.order_misc_options@)), bool_field_text(o.solicited));
    lemma_join_push(Seq::<Seq<char>>::empty().push(o.algo_id@).push(bool_field_text(o.what_if)).push(misc_options_text(o.order_misc_options@)).push(bool_field_text(o.solicited)), bool_field_text(o.randomize_size));
    lemma_join_push(Seq::<Seq<char>>::empty().push(o.algo_id@).push(bool_field_text(o.what_if)).push(misc_options_text(o.order_misc_options@)).push(bool_field_text(o.solicited)).push(bool_field_text(o.randomize_size)), bool_field_text(o.randomize_price));
    assert(join_fields(Seq::<Seq<char>>::empty()) == Seq::<char>::empty());
    assert(text_field(o.algo_id) + bool_field(o.what_if) + field_spec(misc_options_text(o.order_misc_options@)) + bool_field(o.solicited) + bool_field(o.randomize_size) + bool_field(o.randomize_price) =~= join_fields(algo_tail_fields(o)));
}

/// The reference contract id, pegged-change-amount-decrease flag, pegged change amount, reference change amount and reference exchange id.
pub open spec fn peg_bench_fields(o: OrderFields) -> Seq<Seq<char>> {
    Seq::<Seq<char>>::empty()
        .push(int_text(o.reference_contract_id as int))
        .push(bool_field_text(o.is_pegged_change_amount_decrease))
        .push(o.pegged_change_amount.text@)
        .push(o.reference_change_amount.text@)
        .push(o.reference_exchange_id@)
}

#[verifier::rlimit(50)]
proof fn lemma_peg_bench_fields(o: OrderFields)
    ensures
        int_field(o.reference_contract_id as int) + bool_field(o.is_pegged_change_amount_decrease) + float_field(o.pegged_change_amount) + float_field(o.reference_change_amount) + text_field(o.reference_exchange_id) == join_fields(peg_bench_fields(o)),
{
    lemma_join_push(Seq::<Seq<char>>::empty(), int_text(o.reference_contract_id as int));
    lemma_join_push(Seq::<Seq<char>>::empty().push(int_text(o.reference_contract_id as int)), bool_field_text(o.is_pegged_change_amount_decrease));
    lemma_join_push(Seq::<Seq<char>>::empty().push(int_text(o.reference_contract_id as int)).push(bool_field_text(o.is_pegged_change_amount_decrease)), o.pegged_change_amount.text@);
    lemma_join_push(Seq::<Seq<char>>::empty().push(int_text(o.reference_contract_id as int)).push(bool_field_text(o.is_pegged_change_amount_decrease)).push(o.pegged_change_amount.text@), o.reference_change_amount.text@);
    lemma_join_push(Seq::<Seq<char>>::empty().push(int_text(o.reference_contract_id as int)).push(bool_field_text(o.is_pegged_change_amount_decrease)).push(o.pegged_change_amount.text@).push(o.reference_change_amount.text@), o.reference_exchange_id@);
    assert(join_fields(Seq::<Seq<char>>::empty()) == Seq::<char>::empty());
    assert(int_field(o.reference_contract_id as int) + bool_field(o.is_pegged_change_amount_decrease) + float_field(o.pegged_change_amount) + float_field(o.reference_change_amount) + text_field(o.reference_exchange_id) =~= join_fields(peg_bench_fields(o)));
}

/// The adjusted order type, trigger price, limit price offset, adjusted stop and stop-limit prices, adjusted trailing amount and trailing unit.
pub open spec fn adjust_fields(o: OrderFields) -> Seq<Seq<char>> {
    Seq::<Seq<char>>::empty()
        .push(o.adjusted_order_type@)
        .push(o.trigger_price.text@)
        .push(o.lmt_price_offset.text@)
        .push(o.adjusted_stop_price.text@)
        .push(o.adjusted_stop_limit_price.text@)
        .push(o.adjusted_trailing_amount.text@)
        .push(int_text(o.adjustable_trailing_unit as int))
}

#[verifier::rlimit(50)]
proof fn lemma_adjust_fields(o: OrderFields)
    ensures
        text_field(o.adjusted_order_type) + float_field(o.trigger_price) + float_field(o.lmt_price_offset) + float_field(o.adjusted_stop_price) + float_field(o.adjusted_stop_limit_price) + float_field(o.adjusted_trailing_amount) + int_field(o.adjustable_trailing_unit as int) == join_fields(adjust_fields(o)),
{
    lemma_join_push(Seq::<Seq<char>>::empty(), o.adjusted_order_type@);
    lemma_join_push(Seq::<Seq<char>>::empty().push(o.adjusted_order_type@), o.trigger_price.text@);
    lemma_join_push(Seq::<Seq<char>>::empty().push(o.adjusted_order_type@).push(o.trigger_price.text@), o.lmt_price_offset.text@);
    lemma_join_push(Seq::<Seq<char>>::empty().push(o.adjusted_order_type@).push(o.trigger_price.text@).push(o.lmt_price_offset.text@), o.adjusted_stop_price.text@);
    lemma_join_push(Seq::<Seq<char>>::empty().push(o.adjusted_order_type@).push(o.trigger_price.text@).push(o.lmt_price_offset.text@).push(o.adjusted_stop_price.text@), o.adjusted_stop_limit_price.text@);
    lemma_join_push(Seq::<Seq<char>>::empty().push(o.adjusted_order_type@).push(o.trigger_price.text@).push(o.lmt_price_offset.text@).push(o.adjusted_stop_price.text@).push(o.adjusted_stop_limit_price.text@), o.adjusted_trailing_amount.text@);
    lemma_join_push(Seq::<Seq<char>>::empty().push(o.adjusted_order_type@).push(o.trigger_price.text@).push(o.lmt_price_offset.text@).push(o.adjusted_stop_price.text@).push(o.adjusted_stop_limit_price.text@).push(o.adjusted_trailing_amount.text@), int_text(o.adjustable_trailing_unit as int));
    assert(join_fields(Seq::<Seq<char>>::empty()) == Seq::<char>::empty());
    assert(text_field(o.adjusted_order_type) + float_field(o.trigger_price) + float_field(o.lmt_price_offset) + float_field(o.adjusted_stop_price) + float_field(o.adjusted_stop_limit_price) + float_field(o.adjusted_trailing_amount) + int_field(o.adjustable_trailing_unit as int) =~= join_fields(adjust_fields(o)));
}

/// The external operator, soft dollar tier name and value, cash quantity, MiFID II decision maker and algo, execution trader and algo, the don't-use-auto-price-for-hedge, OMS-container, discretionary-up-to-limit-price and price-management-algo flags, duration and post-to-ATS.
pub open spec fn tail_fields(o: OrderFields) -> Seq<Seq<char>> {
    Seq::<Seq<char>>::empty()
        .push(o.ext_operator@)
        .push(o.soft_dollar_tier_name@)
        .push(o.soft_dollar_tier_val@)
        .push(o.cash_qty.text@)
        .push(o.mifid2decision_maker@)
        .push(o.mifid2decision_algo@)
        .push(o.mifid2execution_trader@)
        .push(o.mifid2execution_algo@)
        .push(bool_field_text(o.dont_use_auto_price_for_hedge))
        .push(bool_field_text(o.is_oms_container))
        .push(bool_field_text(o.discretionary_up_to_limit_price))
        .push(bool_field_text(o.use_price_mgmt_algo))
        .push(int_text(o.duration as int))
        .push(int_text(o.post_to_ats as int))
}

/// The contract id, ratio, action, exchange, open/close code, short-sale slot and designated location of a combo leg, then its exempt code for servers that take it.
pub open spec fn leg_fields(leg: ComboLegFields) -> Seq<Seq<char>> {
    Seq::<Seq<char>>::empty()
        .push(int_text(leg.con_id as int))
        .push(leg.ratio@)
        .push(leg.action@)
        .push(leg.exchange@)
        .push(int_text(leg.open_close.code_of()))
        .push(int_text(leg.short_sale_slot as int))
        .push(leg.designated_location@)
        .push(int_text(leg.exempt_code as int))
}

#[verifier::rlimit(50)]
proof fn lemma_leg_fields(sv: i32, leg: ComboLegFields)
    requires
        sv >= MIN_SERVER_VER_SSHORTX_OLD,
    ensures
        order_leg_text(sv, leg) == join_fields(leg_fields(leg)),
{
    lemma_join_push(Seq::<Seq<char>>::empty(), int_text(leg.con_id as int));
    lemma_join_push(Seq::<Seq<char>>::empty().push(int_text(leg.con_id as int)), leg.ratio@);
    lemma_join_push(Seq::<Seq<char>>::empty().push(int_text(leg.con_id as int)).push(leg.ratio@), leg.action@);
    lemma_join_push(Seq::<Seq<char>>::empty().push(int_text(leg.con_id as int)).push(leg.ratio@).push(leg.action@), leg.exchange@);
    lemma_join_push(Seq::<Seq<char>>::empty().push(int_text(leg.con_id as int)).push(leg.ratio@).push(leg.action@).push(leg.exchange@), int_text(leg.open_close.code_of()));
    lemma_join_push(Seq::<Seq<char>>::empty().push(int_text(leg.con_id as int)).push(leg.ratio@).push(leg.action@).push(leg.exchange@).push(int_text(leg.open_close.code_of())), int_text(leg.short_sale_slot as int));
    lemma_join_push(Seq::<Seq<char>>::empty().push(int_text(leg.con_id as int)).push(leg.ratio@).push(leg.action@).push(leg.exchange@).push(int_text(leg.open_close.code_of())).push(int_text(leg.short_sale_slot as int)), leg.designated_location@);
    lemma_join_push(Seq::<Seq<char>>::empty().push(int_text(leg.con_id as int)).push(leg.ratio@).push(leg.action@).push(leg.exchange@).push(int_text(leg.open_close.code_of())).push(int_text(leg.short_sale_slot as int)).push(leg.designated_location@), int_text(leg.exempt_code as int));
    assert(join_fields(Seq::<Seq<char>>::empty()) == Seq::<char>::empty());
    assert(order_leg_text(sv, leg) =~= join_fields(leg_fields(leg)));
}

#[verifier::rlimit(50)]
proof fn lemma_tail_fields(sv: i32, o: OrderFields)
    requires
        sv >= MIN_SERVER_VER_POST_TO_ATS,
    ensures
        order_tail_text(sv, o) == join_fields(tail_fields(o)),
{
    lemma_join_push(Seq::<Seq<char>>::empty(), o.ext_operator@);
    lemma_join_push(Seq::<Seq<char>>::empty().push(o.ext_operator@), o.soft_dollar_tier_name@);
    lemma_join_push(Seq::<Seq<char>>::empty().push(o.ext_operator@).push(o.soft_dollar_tier_name@), o.soft_dollar_tier_val@);
    lemma_join_push(Seq::<Seq<char>>::empty().push(o.ext_operator@).push(o.soft_dollar_tier_name@).push(o.soft_dollar_tier_val@), o.cash_qty.text@);
    lemma_join_push(Seq::<Seq<char>>::empty().push(o.ext_operator@).push(o.soft_dollar_tier_name@).push(o.soft_dollar_tier_val@).push(o.cash_qty.text@), o.mifid2decision_maker@);
    lemma_join_push(Seq::<Seq<char>>::empty().push(o.ext_operator@).push(o.soft_dollar_tier_name@).push(o.soft_dollar_tier_val@).push(o.cash_qty.text@).push(o.mifid2decision_maker@), o.mifid2decision_algo@);
    lemma_join_push(Seq::<Seq<char>>::empty().push(o.ext_operator@).push(o.soft_dollar_tier_name@).push(o.soft_dollar_tier_val@).push(o.cash_qty.text@).push(o.mifid2decision_maker@).push(o.mifid2decision_algo@), o.mifid2execution_trader@);
    lemma_join_push(Seq::<Seq<char>>::empty().push(o.ext_operator@).push(o.soft_dollar_tier_name@).push(o.soft_dollar_tier_val@).push(o.cash_qty.text@).push(o.mifid2decision_maker@).push(o.mifid2decision_algo@).push(o.mifid2execution_trader@), o.mifid2execution_algo@);
    lemma_join_push(Seq::<Seq<char>>::empty().push(o.ext_operator@).push(o.soft_dollar_tier_name@).push(o.soft_dollar_tier_val@).push(o.cash_qty.text@).push(o.mifid2decision_maker@).push(o.mifid2decision_algo@).push(o.mifid2execution_trader@).push(o.mifid2execution_algo@), bool_field_text(o.dont_use_auto_price_for_hedge));
    lemma_join_push(Seq::<Seq<char>>::empty().push(o.ext_operator@).push(o.soft_dollar_tier_name@).push(o.soft_dollar_tier_val@).push(o.cash_qty.text@).push(o.mifid2decision_maker@).push(o.mifid2decision_algo@).push(o.mifid2execution_trader@).push(o.mifid2execution_algo@).push(bool_field_text(o.dont_use_auto_price_for_hedge)), bool_field_text(o.is_oms_container));
    lemma_join_push(Seq::<Seq<char>>::empty().push(o.ext_operator@).push(o.soft_dollar_tier_name@).push(o.soft_dollar_tier_val@).push(o.cash_qty.text@).push(o.mifid2decision_maker@).push(o.mifid2decision_algo@).push(o.mifid2execution_trader@).push(o.mifid2execution_algo@).push(bool_field_text(o.dont_use_auto_price_for_hedge)).push(bool_field_text(o.is_oms_container)), bool_field_text(o.discretionary_up_to_limit_price));
    lemma_join_push(Seq::<Seq<char>>::empty().push(o.ext_operator@).push(o.soft_dollar_tier_name@).push(o.soft_dollar_tier_val@).push(o.cash_qty.text@).push(o.mifid2decision_maker@).push(o.mifid2decision_algo@).push(o.mifid2execution_trader@).push(o.mifid2execution_algo@).push(bool_field_text(o.dont_use_auto_price_for_hedge)).push(bool_field_text(o.is_oms_container)).push(bool_field_text(o.discretionary_up_to_limit_price)), bool_field_text(o.use_price_mgmt_algo));
    lemma_join_push(Seq::<Seq<char>>::empty().push(o.ext_operator@).push(o.soft_dollar_tier_name@).push(o.soft_dollar_tier_val@).push(o.cash_qty.text@).push(o.mifid2decision_maker@).push(o.mifid2decision_algo@).push(o.mifid2execution_trader@).push(o.mifid2execution_algo@).push(bool_field_text(o.dont_use_auto_price_for_hedge)).push(bool_field_text(o.is_oms_container)).push(bool_field_text(o.discretionary_up_to_limit_price)).push(bool_field_text(o.use_price_mgmt_algo)), int_text(o.duration as int));
    lemma_join_push(Seq::<Seq<char>>::empty().push(o.ext_operator@).push(o.soft_dollar_tier_name@).push(o.soft_dollar_tier_val@).push(o.cash_qty.text@).push(o.mifid2decision_maker@).push(o.mifid2decision_algo@).push(o.mifid2execution_trader@).push(o.mifid2execution_algo@).push(bool_field_text(o.dont_use_auto_price_for_hedge)).push(bool_field_text(o.is_oms_container)).push(bool_field_text(o.discretionary_up_to_limit_price)).push(bool_field_text(o.use_price_mgmt_algo)).push(int_text(o.duration as int)), int_text(o.post_to_ats as int));
    assert(join_fields(Seq::<Seq<char>>::empty()) == Seq::<char>::empty());
    assert(order_tail_text(sv, o) =~= join_fields(tail_fields(o)));
}

/// The fields of tag-value pairs: each tag, then its value.
pub open spec fn tag_value_fields(tvs: Seq<TagValue>) -> Seq<Seq<char>>
    decreases tvs.len(),
{
    if tvs.len() == 0 {
        Seq::empty()
    } else {
        tag_value_fields(tvs.drop_last()).push(tvs.last().tag@).push(tvs.last().value@)
    }
}

/// Tag-value pairs are written as their fields, each tag followed by its value.
pub proof fn law_tag_values_are_fields(tvs: Seq<TagValue>)
    ensures
        tag_values_text(tvs) == join_fields(tag_value_fields(tvs)),
    decreases tvs.len(),
{
    if tvs.len() > 0 {
        let l = tag_value_fields(tvs.drop_last());
        law_tag_values_are_fields(tvs.drop_last());
        lemma_join_push(l, tvs.last().tag@);
        lemma_join_push(l.push(tvs.last().tag@), tvs.last().value@);
    }
}

/// A combo leg of an order is written as its contract id, ratio, action, exchange, open/close
/// code, short-sale slot, designated location and exempt code, in that order.
pub proof fn law_place_order_leg_fields(sv: i32, leg: ComboLegFields)
    requires
        sv >= MIN_SERVER_VER_SSHORTX_OLD,
    ensures
        order_leg_text(sv, leg) == join_fields(leg_fields(leg)),
{
    lemma_leg_fields(sv, leg);
}

/// For a server that takes every field of an order, the volatility fields of a place order
/// message are the volatility, its type, the delta-neutral order type and aux price; where
/// the delta-neutral order type is set, the delta-neutral contract id, settling firm,
/// clearing account and intent, open/close, short-sale flag, slot and designated location;
/// then the continuous-update flag, reference price type, trail stop price and trailing
/// percent.
pub proof fn law_place_order_volatility_fields(sv: i32, o: OrderFields)
    requires
        sv >= MIN_SERVER_VER_POST_TO_ATS,
    ensures
        order_volatility_text(sv, o) == join_fields(
            vol_lead_fields(o) + (if o.delta_neutral_order_type@.len() > 0 {
                vol_dn_firm_fields(o) + vol_dn_short_fields(o)
            } else {
                Seq::empty()
            }) + vol_trail_fields(o),
        ),
{
    lemma_vol_lead_fields(o);
    lemma_vol_dn_firm_fields(o);
    lemma_vol_dn_short_fields(o);
    lemma_vol_trail_fields(o);
    let a = vol_lead_fields(o);
    let b = vol_dn_firm_fields(o);
    let d = vol_dn_short_fields(o);
    let e = vol_trail_fields(o);
    let mid = if o.delta_neutral_order_type@.len() > 0 { b + d } else { Seq::<Seq<char>>::empty() };
    lemma_join_append(b, d);
    lemma_join_append(a, mid);
    lemma_join_append(a + mid, e);
    assert(join_fields(Seq::<Seq<char>>::empty()) == Seq::<char>::empty());
    assert(order_volatility_text(sv, o) =~= join_fields(a + mid + e));
}

/// For a server that takes every field of an order, the scale fields of a place order message
/// are the initial and subsequent level sizes and the price increment; where the order scales
/// its price, the adjustment value and interval, profit offset, auto-reset flag, initial
/// position, initial fill quantity and random-percent flag; then the scale table and the
/// active start and stop times.
pub proof fn law_place_order_scale_fields(sv: i32, o: OrderFields)
    requires
        sv >= MIN_SERVER_VER_POST_TO_ATS,
    ensures
        order_scale_text(sv, o) == join_fields(
            scale_lead_fields(o) + (if scales_price(o) { scale_extra_fields(o) } else { Seq::empty() })
                + scale_table_fields(o),
        ),
{
    lemma_scale_lead_fields(o);
    lemma_scale_extra_fields(o);
    lemma_scale_table_fields(o);
    let a = scale_lead_fields(o);
    let mid = if scales_price(o) { scale_extra_fields(o) } else { Seq::<Seq<char>>::empty() };
    let e = scale_table_fields(o);
    lemma_join_append(a, mid);
    lemma_join_append(a + mid, e);
    assert(join_fields(Seq::<Seq<char>>::empty()) == Seq::<char>::empty());
    assert(order_scale_text(sv, o) =~= join_fields(a + mid + e));
}

/// For a server that takes every field of an order, the hedge fields of a place order message
/// are the hedge type, its parameter where the type is set, the opt-out-of-smart-routing flag,
/// clearing account and intent and not-held flag, then the delta-neutral contract.
pub proof fn law_place_order_hedge_fields(sv: i32, c: ContractFields, o: OrderFields)
    requires
        sv >= MIN_SERVER_VER_POST_TO_ATS,
    ensures
        order_hedge_text(sv, c, o) == join_fields(
            Seq::<Seq<char>>::empty().push(o.hedge_type@) + (if o.hedge_type@.len() > 0 {
                Seq::<Seq<char>>::empty().push(o.hedge_param@)
            } else {
                Seq::empty()
            }) + hedge_routing_fields(o),
        ) + delta_neutral_text(c.delta_neutral_contract),
{
    lemma_hedge_routing_fields(o);
    let a = Seq::<Seq<char>>::empty().push(o.hedge_type@);
    let p = Seq::<Seq<char>>::empty().push(o.hedge_param@);
    let mid = if o.hedge_type@.len() > 0 { p } else { Seq::<Seq<char>>::empty() };
    let e = hedge_routing_fields(o);
    lemma_join_push(Seq::<Seq<char>>::empty(), o.hedge_type@);
    lemma_join_push(Seq::<Seq<char>>::empty(), o.hedge_param@);
    lemma_join_append(a, mid);
    lemma_join_append(a + mid, e);
    assert(join_fields(Seq::<Seq<char>>::empty()) == Seq::<char>::empty());
    assert(order_hedge_text(sv, c, o) =~= join_fields(a + mid + e) + delta_neutral_text(c.delta_neutral_contract));
}

/// For a server that takes every field of an order, the algo fields of a place order message
/// are the algo strategy; where it is set, the count of the algo parameters and their tag and
/// value fields; then the algo id, what-if flag, options, solicited flag and randomize flags.
pub proof fn law_place_order_algo_fields(sv: i32, o: OrderFields)
    requires
        sv >= MIN_SERVER_VER_POST_TO_ATS,
    ensures
        order_algo_text(sv, o) == join_fields(
            Seq::<Seq<char>>::empty().push(o.algo_strategy@) + (if o.algo_strategy@.len() > 0 {
                Seq::<Seq<char>>::empty().push(int_text(o.algo_params@.len() as int)) + tag_value_fields(
                    o.algo_params@,
                )
            } else {
                Seq::empty()
            }) + algo_tail_fields(o),
        ),
{
    lemma_algo_tail_fields(o);
    law_tag_values_are_fields(o.algo_params@);
    let a = Seq::<Seq<char>>::empty().push(o.algo_strategy@);
    let cnt = Seq::<Seq<char>>::empty().push(int_text(o.algo_params@.len() as int));
    let tv = tag_value_fields(o.algo_params@);
    let mid = if o.algo_strategy@.len() > 0 { cnt + tv } else { Seq::<Seq<char>>::empty() };
    let e = algo_tail_fields(o);
    lemma_join_push(Seq::<Seq<char>>::empty(), o.algo_strategy@);
    lemma_join_push(Seq::<Seq<char>>::empty(), int_text(o.algo_params@.len() as int));
    lemma_join_append(cnt, tv);
    lemma_join_append(a, mid);
    lemma_join_append(a + mid, e);
    assert(join_fields(Seq::<Seq<char>>::empty()) == Seq::<char>::empty());
    assert(order_algo_text(sv, o) =~= join_fields(a + mid + e));
}

/// For a server that takes every field of an order, the pegged-to-benchmark fields of a place
/// order message are, for a PEG BENCH order, its reference contract id, decrease flag, pegged
/// and reference change amounts and reference exchange; then the count of the conditions;
/// where there are conditions, the conditions and the ignore-RTH and cancel-order flags; then
/// the adjusted order type, trigger price, limit price offset, adjusted stop and stop-limit
/// prices, adjusted trailing amount and trailing unit.
pub proof fn law_place_order_peg_fields(sv: i32, o: OrderFields)
    requires
        sv >= MIN_SERVER_VER_POST_TO_ATS,
    ensures
        order_peg_text(sv, o) == (if o.order_type@ == "PEG BENCH"@ {
            join_fields(peg_bench_fields(o))
        } else {
            Seq::empty()
        }) + field_spec(int_text(o.conditions@.len() as int)) + (if o.conditions@.len() > 0 {
            conditions_text(o.conditions@) + join_fields(
                Seq::<Seq<char>>::empty().push(bool_field_text(o.conditions_ignore_rth)).push(
                    bool_field_text(o.conditions_cancel_order),
                ),
            )
        } else {
            Seq::empty()
        }) + join_fields(adjust_fields(o)),
{
    lemma_peg_bench_fields(o);
    lemma_adjust_fields(o);
    let ig = bool_field_text(o.conditions_ignore_rth);
    let cn = bool_field_text(o.conditions_cancel_order);
    lemma_join_push(Seq::<Seq<char>>::empty(), ig);
    lemma_join_push(Seq::<Seq<char>>::empty().push(ig), cn);
    assert(join_fields(Seq::<Seq<char>>::empty()) == Seq::<char>::empty());
    assert(order_peg_text(sv, o) =~= (if o.order_type@ == "PEG BENCH"@ {
        join_fields(peg_bench_fields(o))
    } else {
        Seq::empty()
    }) + field_spec(int_text(o.conditions@.len() as int)) + (if o.conditions@.len() > 0 {
        conditions_text(o.conditions@) + join_fields(
            Seq::<Seq<char>>::empty().push(ig).push(cn),
        )
    } else {
        Seq::empty()
    }) + join_fields(adjust_fields(o)));
}

/// For a server that takes every field of an order, the last fields of a place order message
/// are `tail_fields`, in that order.
pub proof fn law_place_order_tail_fields(sv: i32, o: OrderFields)
    requires
        sv >= MIN_SERVER_VER_POST_TO_ATS,
    ensures
        order_tail_text(sv, o) == join_fields(tail_fields(o)),
{
    lemma_tail_fields(sv, o);
}


/// The fields of combo legs, one leg after the other.
pub open spec fn legs_fields(legs: Seq<ComboLegFields>) -> Seq<Seq<char>>
    decreases legs.len(),
{
    if legs.len() == 0 {
        Seq::empty()
    } else {
        legs_fields(legs.drop_last()) + leg_fields(legs.last())
    }
}

/// The price fields of order combo legs, empty for a leg without a price.
pub open spec fn leg_price_fields(legs: Seq<FloatField>) -> Seq<Seq<char>>
    decreases legs.len(),
{
    if legs.len() == 0 {
        Seq::empty()
    } else {
        leg_price_fields(legs.drop_last()).push(set_text(legs.last()))
    }
}

/// Combo legs are written leg after leg, each as `leg_fields`.
pub proof fn law_place_order_legs_are_fields(sv: i32, legs: Seq<ComboLegFields>)
    requires
        sv >= MIN_SERVER_VER_SSHORTX_OLD,
    ensures
        order_legs_text(sv, legs) == join_fields(legs_fields(legs)),
    decreases legs.len(),
{
    if legs.len() > 0 {
        law_place_order_legs_are_fields(sv, legs.drop_last());
        lemma_leg_fields(sv, legs.last());
        lemma_join_append(legs_fields(legs.drop_last()), leg_fields(legs.last()));
    }
}

/// Order combo leg prices are written one field per leg, empty for a leg without a price.
pub proof fn law_place_order_leg_prices_are_fields(legs: Seq<FloatField>)
    ensures
        leg_prices_text(legs) == join_fields(leg_price_fields(legs)),
    decreases legs.len(),
{
    if legs.len() > 0 {
        law_place_order_leg_prices_are_fields(legs.drop_last());
        lemma_join_push(leg_price_fields(legs.drop_last()), set_text(legs.last()));
    }
}

/// For a server that takes every field of an order on a `BAG` contract, the combo fields of a
/// place order message are the count of the contract's legs and their fields, the count of
/// the order's leg prices and their fields, and the count of the smart combo routing
/// parameters and their tag and value fields.
pub proof fn law_place_order_combo_fields(sv: i32, c: ContractFields, o: OrderFields)
    requires
        sv >= MIN_SERVER_VER_POST_TO_ATS,
        c.sec_type@ == "BAG"@,
    ensures
        order_combo_text(sv, c, o) == join_fields(
            Seq::<Seq<char>>::empty().push(int_text(c.combo_legs@.len() as int)) + legs_fields(
                c.combo_legs@,
            ) + Seq::<Seq<char>>::empty().push(int_text(o.order_combo_legs@.len() as int))
                + leg_price_fields(o.order_combo_legs@) + Seq::<Seq<char>>::empty().push(
                int_text(o.smart_combo_routing_params@.len() as int),
            ) + tag_value_fields(o.smart_combo_routing_params@),
        ),
{
    law_place_order_legs_are_fields(sv, c.combo_legs@);
    law_place_order_leg_prices_are_fields(o.order_combo_legs@);
    law_tag_values_are_fields(o.smart_combo_routing_params@);
    let c1 = Seq::<Seq<char>>::empty().push(int_text(c.combo_legs@.len() as int));
    let l1 = legs_fields(c.combo_legs@);
    let c2 = Seq::<Seq<char>>::empty().push(int_text(o.order_combo_legs@.len() as int));
    let l2 = leg_price_fields(o.order_combo_legs@);
    let c3 = Seq::<Seq<char>>::empty().push(int_text(o.smart_combo_routing_params@.len() as int));
    let l3 = tag_value_fields(o.smart_combo_routing_params@);
    lemma_join_push(Seq::<Seq<char>>::empty(), int_text(c.combo_legs@.len() as int));
    lemma_join_push(Seq::<Seq<char>>::empty(), int_text(o.order_combo_legs@.len() as int));
    lemma_join_push(Seq::<Seq<char>>::empty(), int_text(o.smart_combo_routing_params@.len() as int));
    lemma_join_append(c1, l1);
    lemma_join_append(c1 + l1, c2);
    lemma_join_append(c1 + l1 + c2, l2);
    lemma_join_append(c1 + l1 + c2 + l2, c3);
    lemma_join_append(c1 + l1 + c2 + l2 + c3, l3);
    assert(join_fields(Seq::<Seq<char>>::empty()) == Seq::<char>::empty());
    assert(order_combo_text(sv, c, o) =~= join_fields(c1 + l1 + c2 + l2 + c3 + l3));
}

} // verus!
