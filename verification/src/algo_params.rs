//! The strategy names and parameter lists of IB algorithms, in the order that TWS receives
//! them. An order takes the strategy as its `algo_strategy` and the list as its `algo_params`.
use vstd::prelude::*;

use crate::common::TagValue;
use crate::decimal::{bool_text, format_i32, int_text, push_bool_text};

verus! {

/// The tags and values of a list of tag/value pairs.
pub open spec fn tag_texts(v: Seq<TagValue>) -> Seq<(Seq<char>, Seq<char>)> {
    v.map_values(|t: TagValue| (t.tag@, t.value@))
}

/// A flag as an algorithm parameter: `1` or `0`.
pub open spec fn flag_text(b: bool) -> Seq<char> {
    int_text(if b { 1 } else { 0 })
}

/// `1` or `0` for a flag.
fn flag_string(b: bool) -> (r: String)
    ensures
        r@ == flag_text(b),
{
    format_i32(if b { 1 } else { 0 })
}

/// `true` or `false`.
fn bool_string(b: bool) -> (r: String)
    ensures
        r@ == bool_text(b),
{
    let mut r = String::new();
    push_bool_text(&mut r, b);
    r
}

fn tag(name: &str, value: String) -> (r: TagValue)
    ensures
        r.tag@ == name@,
        r.value@ == value@,
{
    TagValue::new(name.to_owned(), value)
}

fn push_tag(v: &mut Vec<TagValue>, name: &str, value: String)
    ensures
        tag_texts(final(v)@) == tag_texts(old(v)@).push((name@, value@)),
{
    let ghost prev = v@;
    v.push(tag(name, value));
    assert(tag_texts(v@) =~= tag_texts(prev).push((name@, value@)));
}

/// The strategy `AD` (accumulate/distribute) and its parameters, in the order that TWS
/// receives them.
pub fn accumulate_distribute_params(
    component_size: i32,
    time_between_orders: i32,
    randomize_time_20: bool,
    randomize_size_55: bool,
    give_up: i32,
    catch_up: bool,
    wait_for_fill: bool,
    start_time: &str,
    end_time: &str,
) -> (r: (String, Vec<TagValue>))
    ensures
        r.0@ == "AD"@,
        tag_texts(r.1@) == seq![
            ("ComponentSize"@, int_text(component_size as int)),
            ("TimeBetweenOrders"@, int_text(time_between_orders as int)),
            ("RandomizeTime20"@, flag_text(randomize_time_20)),
            ("RandomizeSize55"@, flag_text(randomize_size_55)),
            ("GiveUp"@, int_text(give_up as int)),
            ("CatchUp"@, flag_text(catch_up)),
            ("WaitForFill"@, flag_text(wait_for_fill)),
            ("activeTimeStart"@, start_time@),
            ("activeTimeEnd"@, end_time@),
        ],
{
    let mut params: Vec<TagValue> = Vec::new();
    push_tag(&mut params, "ComponentSize", format_i32(component_size));
    push_tag(&mut params, "TimeBetweenOrders", format_i32(time_between_orders));
    push_tag(&mut params, "RandomizeTime20", flag_string(randomize_time_20));
    push_tag(&mut params, "RandomizeSize55", flag_string(randomize_size_55));
    push_tag(&mut params, "GiveUp", format_i32(give_up));
    push_tag(&mut params, "CatchUp", flag_string(catch_up));
    push_tag(&mut params, "WaitForFill", flag_string(wait_for_fill));
    push_tag(&mut params, "activeTimeStart", start_time.to_owned());
    push_tag(&mut params, "activeTimeEnd", end_time.to_owned());
    (String::from_str("AD"), params)
}

/// The strategy `Adaptive` and its priority parameter.
pub fn adaptive_params(priority: &str) -> (r: (String, Vec<TagValue>))
    ensures
        r.0@ == "Adaptive"@,
        tag_texts(r.1@) == seq![("adaptivePriority"@, priority@)],
{
    let mut params: Vec<TagValue> = Vec::new();
    push_tag(&mut params, "adaptivePriority", priority.to_owned());
    (String::from_str("Adaptive"), params)
}

/// The strategy `ArrivalPx` (arrival price) and its parameters.
/// Float-valued parameters come as the text that TWS receives for them.
pub fn arrival_price_params(
    max_pct_vol: &str,
    risk_aversion: &str,
    start_time: &str,
    end_time: &str,
    force_completion: bool,
    allow_past_time: bool,
    monetary_value: &str,
) -> (r: (String, Vec<TagValue>))
    ensures
        r.0@ == "ArrivalPx"@,
        tag_texts(r.1@) == seq![
            ("MaxPctVol"@, max_pct_vol@),
            ("RiskAversion"@, risk_aversion@),
            ("StartTime"@, start_time@),
            ("EndTime"@, end_time@),
            ("ForceCompletion"@, bool_text(force_completion)),
            ("AllowPastEndTime"@, bool_text(allow_past_time)),
            ("monetaryValue"@, monetary_value@),
        ],
{
    let mut params: Vec<TagValue> = Vec::new();
    push_tag(&mut params, "MaxPctVol", max_pct_vol.to_owned());
    push_tag(&mut params, "RiskAversion", risk_aversion.to_owned());
    push_tag(&mut params, "StartTime", start_time.to_owned());
    push_tag(&mut params, "EndTime", end_time.to_owned());
    push_tag(&mut params, "ForceCompletion", bool_string(force_completion));
    push_tag(&mut params, "AllowPastEndTime", bool_string(allow_past_time));
    push_tag(&mut params, "monetaryValue", monetary_value.to_owned());
    (String::from_str("ArrivalPx"), params)
}

/// The strategy `DarkIce` and its parameters.
/// Float-valued parameters come as the text that TWS receives for them.
pub fn dark_ice_params(
    display_size: i32,
    start_time: &str,
    end_time: &str,
    allow_past_end_time: bool,
    monetary_value: &str,
) -> (r: (String, Vec<TagValue>))
    ensures
        r.0@ == "DarkIce"@,
        tag_texts(r.1@) == seq![
            ("DisplaySize"@, int_text(display_size as int)),
            ("StartTime"@, start_time@),
            ("EndTime"@, end_time@),
            ("AllowPastEndTime"@, flag_text(allow_past_end_time)),
            ("monetaryValue"@, monetary_value@),
        ],
{
    let mut params: Vec<TagValue> = Vec::new();
    push_tag(&mut params, "DisplaySize", format_i32(display_size));
    push_tag(&mut params, "StartTime", start_time.to_owned());
    push_tag(&mut params, "EndTime", end_time.to_owned());
    push_tag(&mut params, "AllowPastEndTime", flag_string(allow_past_end_time));
    push_tag(&mut params, "monetaryValue", monetary_value.to_owned());
    (String::from_str("DarkIce"), params)
}

/// The strategy `PctVol` (percent of volume) and its parameters.
/// Float-valued parameters come as the text that TWS receives for them.
pub fn pct_vol_params(
    pct_vol: &str,
    start_time: &str,
    end_time: &str,
    no_take_liq: bool,
    monetary_value: &str,
) -> (r: (String, Vec<TagValue>))
    ensures
        r.0@ == "PctVol"@,
        tag_texts(r.1@) == seq![
            ("PctVol"@, pct_vol@),
            ("StartTime"@, start_time@),
            ("EndTime"@, end_time@),
            ("NoTakeLiq"@, flag_text(no_take_liq)),
            ("monetaryValue"@, monetary_value@),
        ],
{
    let mut params: Vec<TagValue> = Vec::new();
    push_tag(&mut params, "PctVol", pct_vol.to_owned());
    push_tag(&mut params, "StartTime", start_time.to_owned());
    push_tag(&mut params, "EndTime", end_time.to_owned());
    push_tag(&mut params, "NoTakeLiq", flag_string(no_take_liq));
    push_tag(&mut params, "monetaryValue", monetary_value.to_owned());
    (String::from_str("PctVol"), params)
}

/// The strategy `Twap` and its parameters.
/// Float-valued parameters come as the text that TWS receives for them.
pub fn twap_params(
    strategy_type: &str,
    start_time: &str,
    end_time: &str,
    allow_past_end_time: bool,
    monetary_value: &str,
) -> (r: (String, Vec<TagValue>))
    ensures
        r.0@ == "Twap"@,
        tag_texts(r.1@) == seq![
            ("StrategyType"@, strategy_type@),
            ("StartTime"@, start_time@),
            ("EndTime"@, end_time@),
            ("AllowPastEndTime"@, flag_text(allow_past_end_time)),
            ("monetaryValue"@, monetary_value@),
        ],
{
    let mut params: Vec<TagValue> = Vec::new();
    push_tag(&mut params, "StrategyType", strategy_type.to_owned());
    push_tag(&mut params, "StartTime", start_time.to_owned());
    push_tag(&mut params, "EndTime", end_time.to_owned());
    push_tag(&mut params, "AllowPastEndTime", flag_string(allow_past_end_time));
    push_tag(&mut params, "monetaryValue", monetary_value.to_owned());
    (String::from_str("Twap"), params)
}

/// The strategy `Vwap` and its parameters.
/// Float-valued parameters come as the text that TWS receives for them.
pub fn vwap_params(
    max_pct_vol: &str,
    start_time: &str,
    end_time: &str,
    allow_past_end_time: bool,
    no_take_liq: bool,
    monetary_value: &str,
) -> (r: (String, Vec<TagValue>))
    ensures
        r.0@ == "Vwap"@,
        tag_texts(r.1@) == seq![
            ("MaxPctVol"@, max_pct_vol@),
            ("StartTime"@, start_time@),
            ("EndTime"@, end_time@),
            ("AllowPastEndTime"@, flag_text(allow_past_end_time)),
            ("NoTakeLiq"@, flag_text(no_take_liq)),
            ("monetaryValue"@, monetary_value@),
        ],
{
    let mut params: Vec<TagValue> = Vec::new();
    push_tag(&mut params, "MaxPctVol", max_pct_vol.to_owned());
    push_tag(&mut params, "StartTime", start_time.to_owned());
    push_tag(&mut params, "EndTime", end_time.to_owned());
    push_tag(&mut params, "AllowPastEndTime", flag_string(allow_past_end_time));
    push_tag(&mut params, "NoTakeLiq", flag_string(no_take_liq));
    push_tag(&mut params, "monetaryValue", monetary_value.to_owned());
    (String::from_str("Vwap"), params)
}

/// The strategy `BalanceImpactRisk` and its parameters.
/// Float-valued parameters come as the text that TWS receives for them.
pub fn balance_impact_risk_params(
    max_pct_vol: &str,
    risk_aversion: &str,
    force_completion: bool,
) -> (r: (String, Vec<TagValue>))
    ensures
        r.0@ == "BalanceImpactRisk"@,
        tag_texts(r.1@) == seq![
            ("MaxPctVol"@, max_pct_vol@),
            ("RiskAversion"@, risk_aversion@),
            ("ForceCompletion"@, bool_text(force_completion)),
        ],
{
    let mut params: Vec<TagValue> = Vec::new();
    push_tag(&mut params, "MaxPctVol", max_pct_vol.to_owned());
    push_tag(&mut params, "RiskAversion", risk_aversion.to_owned());
    push_tag(&mut params, "ForceCompletion", bool_string(force_completion));
    (String::from_str("BalanceImpactRisk"), params)
}

/// The strategy `MinImpact` and its parameter.
/// Float-valued parameters come as the text that TWS receives for them.
pub fn min_impact_params(
    max_pct_vol: &str,
) -> (r: (String, Vec<TagValue>))
    ensures
        r.0@ == "MinImpact"@,
        tag_texts(r.1@) == seq![
            ("MaxPctVol"@, max_pct_vol@),
        ],
{
    let mut params: Vec<TagValue> = Vec::new();
    push_tag(&mut params, "MaxPctVol", max_pct_vol.to_owned());
    (String::from_str("MinImpact"), params)
}

/// The strategy `ClosePx` (close price) and its parameters.
/// Float-valued parameters come as the text that TWS receives for them.
pub fn close_price_params(
    max_pct_vol: &str,
    risk_aversion: &str,
    start_time: &str,
    force_completion: bool,
    monetary_value: &str,
) -> (r: (String, Vec<TagValue>))
    ensures
        r.0@ == "ClosePx"@,
        tag_texts(r.1@) == seq![
            ("MaxPctVol"@, max_pct_vol@),
            ("RiskAversion"@, risk_aversion@),
            ("StartTime"@, start_time@),
            ("ForceCompletion"@, flag_text(force_completion)),
            ("monetaryValue"@, monetary_value@),
        ],
{
    let mut params: Vec<TagValue> = Vec::new();
    push_tag(&mut params, "MaxPctVol", max_pct_vol.to_owned());
    push_tag(&mut params, "RiskAversion", risk_aversion.to_owned());
    push_tag(&mut params, "StartTime", start_time.to_owned());
    push_tag(&mut params, "ForceCompletion", flag_string(force_completion));
    push_tag(&mut params, "monetaryValue", monetary_value.to_owned());
    (String::from_str("ClosePx"), params)
}

/// The strategy `PctVolPx` (price-variant percent of volume) and its parameters.
/// Float-valued parameters come as the text that TWS receives for them.
pub fn price_variant_pct_vol_params(
    pct_vol: &str,
    delta_pct_vol: &str,
    min_pct_vol_4px: &str,
    max_pct_vol_4px: &str,
    start_time: &str,
    end_time: &str,
    no_take_liq: bool,
    monetary_value: &str,
) -> (r: (String, Vec<TagValue>))
    ensures
        r.0@ == "PctVolPx"@,
        tag_texts(r.1@) == seq![
            ("PctVol"@, pct_vol@),
            ("deltaPctVol"@, delta_pct_vol@),
            ("minPctVol4Px"@, min_pct_vol_4px@),
            ("maxPctVol4Px"@, max_pct_vol_4px@),
            ("StartTime"@, start_time@),
            ("EndTime"@, end_time@),
            ("NoTakeLiq"@, flag_text(no_take_liq)),
            ("monetaryValue"@, monetary_value@),
        ],
{
    let mut params: Vec<TagValue> = Vec::new();
    push_tag(&mut params, "PctVol", pct_vol.to_owned());
    push_tag(&mut params, "deltaPctVol", delta_pct_vol.to_owned());
    push_tag(&mut params, "minPctVol4Px", min_pct_vol_4px.to_owned());
    push_tag(&mut params, "maxPctVol4Px", max_pct_vol_4px.to_owned());
    push_tag(&mut params, "StartTime", start_time.to_owned());
    push_tag(&mut params, "EndTime", end_time.to_owned());
    push_tag(&mut params, "NoTakeLiq", flag_string(no_take_liq));
    push_tag(&mut params, "monetaryValue", monetary_value.to_owned());
    (String::from_str("PctVolPx"), params)
}

/// The strategy `PctVolSz` (size-variant percent of volume) and its parameters.
/// Float-valued parameters come as the text that TWS receives for them.
pub fn size_variant_pct_vol_params(
    start_pct_vol: &str,
    end_pct_vol: &str,
    start_time: &str,
    end_time: &str,
    no_take_liq: bool,
    monetary_value: &str,
) -> (r: (String, Vec<TagValue>))
    ensures
        r.0@ == "PctVolSz"@,
        tag_texts(r.1@) == seq![
            ("startPctVol"@, start_pct_vol@),
            ("endPctVol"@, end_pct_vol@),
            ("StartTime"@, start_time@),
            ("EndTime"@, end_time@),
            ("NoTakeLiq"@, flag_text(no_take_liq)),
            ("monetaryValue"@, monetary_value@),
        ],
{
    let mut params: Vec<TagValue> = Vec::new();
    push_tag(&mut params, "startPctVol", start_pct_vol.to_owned());
    push_tag(&mut params, "endPctVol", end_pct_vol.to_owned());
    push_tag(&mut params, "StartTime", start_time.to_owned());
    push_tag(&mut params, "EndTime", end_time.to_owned());
    push_tag(&mut params, "NoTakeLiq", flag_string(no_take_liq));
    push_tag(&mut params, "monetaryValue", monetary_value.to_owned());
    (String::from_str("PctVolSz"), params)
}

/// The strategy `PctVolTm` (time-variant percent of volume) and its parameters; its
/// monetary value goes under the tag `monetary_value`.
/// Float-valued parameters come as the text that TWS receives for them.
pub fn time_variant_pct_vol_params(
    start_pct_vol: &str,
    end_pct_vol: &str,
    start_time: &str,
    end_time: &str,
    no_take_liq: bool,
    monetary_value: &str,
) -> (r: (String, Vec<TagValue>))
    ensures
        r.0@ == "PctVolTm"@,
        tag_texts(r.1@) == seq![
            ("startPctVol"@, start_pct_vol@),
            ("endPctVol"@, end_pct_vol@),
            ("StartTime"@, start_time@),
            ("EndTime"@, end_time@),
            ("NoTakeLiq"@, flag_text(no_take_liq)),
            ("monetary_value"@, monetary_value@),
        ],
{
    let mut params: Vec<TagValue> = Vec::new();
    push_tag(&mut params, "startPctVol", start_pct_vol.to_owned());
    push_tag(&mut params, "endPctVol", end_pct_vol.to_owned());
    push_tag(&mut params, "StartTime", start_time.to_owned());
    push_tag(&mut params, "EndTime", end_time.to_owned());
    push_tag(&mut params, "NoTakeLiq", flag_string(no_take_liq));
    push_tag(&mut params, "monetary_value", monetary_value.to_owned());
    (String::from_str("PctVolTm"), params)
}

/// The strategy `VWAP` of the Jefferies algorithms (routed to `JEFFALGO`) and its parameters.
/// Float-valued parameters come as the text that TWS receives for them.
pub fn jefferies_vwap_params(
    start_time: &str,
    end_time: &str,
    relative_limit: &str,
    max_volume_rate: &str,
    exclude_auctions: &str,
    trigger_price: &str,
    wow_price: &str,
    min_fill_size: i32,
    wow_order_pct: &str,
    wow_mode: &str,
    is_buy_back: bool,
    wow_reference: &str,
) -> (r: (String, Vec<TagValue>))
    ensures
        r.0@ == "VWAP"@,
        tag_texts(r.1@) == seq![
            ("StartTime"@, start_time@),
            ("EndTime"@, end_time@),
            ("RelativeLimit"@, relative_limit@),
            ("MaxVolumeRate"@, max_volume_rate@),
            ("ExcludeAuctions"@, exclude_auctions@),
            ("TriggerPrice"@, trigger_price@),
            ("WowPrice"@, wow_price@),
            ("MinFillSize"@, int_text(min_fill_size as int)),
            ("WowOrderPct"@, wow_order_pct@),
            ("WowMode"@, wow_mode@),
            ("IsBuyBack"@, flag_text(is_buy_back)),
            ("WowReference"@, wow_reference@),
        ],
{
    let mut params: Vec<TagValue> = Vec::new();
    push_tag(&mut params, "StartTime", start_time.to_owned());
    push_tag(&mut params, "EndTime", end_time.to_owned());
    push_tag(&mut params, "RelativeLimit", relative_limit.to_owned());
    push_tag(&mut params, "MaxVolumeRate", max_volume_rate.to_owned());
    push_tag(&mut params, "ExcludeAuctions", exclude_auctions.to_owned());
    push_tag(&mut params, "TriggerPrice", trigger_price.to_owned());
    push_tag(&mut params, "WowPrice", wow_price.to_owned());
    push_tag(&mut params, "MinFillSize", format_i32(min_fill_size));
    push_tag(&mut params, "WowOrderPct", wow_order_pct.to_owned());
    push_tag(&mut params, "WowMode", wow_mode.to_owned());
    push_tag(&mut params, "IsBuyBack", flag_string(is_buy_back));
    push_tag(&mut params, "WowReference", wow_reference.to_owned());
    (String::from_str("VWAP"), params)
}

/// The strategy `INLINE` of the CSFB algorithms (routed to `CSFBALGO`) and its parameters.
/// Float-valued parameters come as the text that TWS receives for them.
pub fn csfb_inline_params(
    start_time: &str,
    end_time: &str,
    exec_style: &str,
    min_percent: i32,
    max_percent: i32,
    display_size: i32,
    auction: &str,
    block_finder: bool,
    block_price: &str,
    min_block_size: i32,
    max_block_size: i32,
    i_would_price: &str,
) -> (r: (String, Vec<TagValue>))
    ensures
        r.0@ == "INLINE"@,
        tag_texts(r.1@) == seq![
            ("StartTime"@, start_time@),
            ("EndTime"@, end_time@),
            ("ExecStyle"@, exec_style@),
            ("MinPercent"@, int_text(min_percent as int)),
            ("MaxPercent"@, int_text(max_percent as int)),
            ("DisplaySize"@, int_text(display_size as int)),
            ("Auction"@, auction@),
            ("BlockFinder"@, flag_text(block_finder)),
            ("BlockPrice"@, block_price@),
            ("MinBlockSize"@, int_text(min_block_size as int)),
            ("MaxBlockSize"@, int_text(max_block_size as int)),
            ("IWouldPrice"@, i_would_price@),
        ],
{
    let mut params: Vec<TagValue> = Vec::new();
    push_tag(&mut params, "StartTime", start_time.to_owned());
    push_tag(&mut params, "EndTime", end_time.to_owned());
    push_tag(&mut params, "ExecStyle", exec_style.to_owned());
    push_tag(&mut params, "MinPercent", format_i32(min_percent));
    push_tag(&mut params, "MaxPercent", format_i32(max_percent));
    push_tag(&mut params, "DisplaySize", format_i32(display_size));
    push_tag(&mut params, "Auction", auction.to_owned());
    push_tag(&mut params, "BlockFinder", flag_string(block_finder));
    push_tag(&mut params, "BlockPrice", block_price.to_owned());
    push_tag(&mut params, "MinBlockSize", format_i32(min_block_size));
    push_tag(&mut params, "MaxBlockSize", format_i32(max_block_size));
    push_tag(&mut params, "IWouldPrice", i_would_price.to_owned());
    (String::from_str("INLINE"), params)
}

/// The strategy `STROBE` of the QB algorithms (routed to `QBALGO`) and its parameters.
/// Float-valued parameters come as the text that TWS receives for them.
pub fn qbalgo_in_line_params(
    start_time: &str,
    end_time: &str,
    benchmark: &str,
    percent_volume: &str,
    no_clean_up: bool,
) -> (r: (String, Vec<TagValue>))
    ensures
        r.0@ == "STROBE"@,
        tag_texts(r.1@) == seq![
            ("StartTime"@, start_time@),
            ("EndTime"@, end_time@),
            ("Benchmark"@, benchmark@),
            ("PercentVolume"@, percent_volume@),
            ("NoCleanUp"@, flag_text(no_clean_up)),
        ],
{
    let mut params: Vec<TagValue> = Vec::new();
    push_tag(&mut params, "StartTime", start_time.to_owned());
    push_tag(&mut params, "EndTime", end_time.to_owned());
    push_tag(&mut params, "Benchmark", benchmark.to_owned());
    push_tag(&mut params, "PercentVolume", percent_volume.to_owned());
    push_tag(&mut params, "NoCleanUp", flag_string(no_clean_up));
    (String::from_str("STROBE"), params)
}

} // verus!
