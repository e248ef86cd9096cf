use twsapi::algo_params::{
    accumulate_distribute_params, adaptive_params, arrival_price_params, balance_impact_risk_params,
    close_price_params, csfb_inline_params, dark_ice_params, jefferies_vwap_params, min_impact_params,
    pct_vol_params, price_variant_pct_vol_params, qbalgo_in_line_params, size_variant_pct_vol_params,
    time_variant_pct_vol_params, twap_params, vwap_params,
};
use twsapi::common::TagValue;

fn pairs(params: Vec<TagValue>) -> Vec<(String, String)> {
    params.into_iter().map(|t| (t.tag, t.value)).collect()
}

fn expect(list: &[(&str, &str)]) -> Vec<(String, String)> {
    list.iter().map(|(a, b)| (a.to_string(), b.to_string())).collect()
}

#[test]
fn accumulate_distribute_tags() {
    let (strategy, params) = accumulate_distribute_params(10, 60, true, false, 30, true, false, "12:00:00 EST", "16:00:00 EST");
    assert_eq!(strategy, "AD");
    let expected = [
        ("ComponentSize", "10"), ("TimeBetweenOrders", "60"), ("RandomizeTime20", "1"),
        ("RandomizeSize55", "0"), ("GiveUp", "30"), ("CatchUp", "1"), ("WaitForFill", "0"),
        ("activeTimeStart", "12:00:00 EST"), ("activeTimeEnd", "16:00:00 EST"),
    ];
    assert_eq!(pairs(params), expect(&expected));
}

#[test]
fn adaptive_tags() {
    let (strategy, params) = adaptive_params("Normal");
    assert_eq!(strategy, "Adaptive");
    assert_eq!(pairs(params), expect(&[("adaptivePriority", "Normal")]));
}

#[test]
fn arrival_price_writes_booleans_as_words() {
    let (strategy, params) = arrival_price_params("0.1", "Aggressive", "09:00:00 EST", "15:00:00 EST", true, false, &100000.0f64.to_string());
    assert_eq!(strategy, "ArrivalPx");
    let expected = [
        ("MaxPctVol", "0.1"), ("RiskAversion", "Aggressive"), ("StartTime", "09:00:00 EST"),
        ("EndTime", "15:00:00 EST"), ("ForceCompletion", "true"), ("AllowPastEndTime", "false"),
        ("monetaryValue", "100000"),
    ];
    assert_eq!(pairs(params), expect(&expected));
}

#[test]
fn dark_ice_writes_flags_as_digits() {
    let (strategy, params) = dark_ice_params(10, "09:00:00 EST", "15:00:00 EST", true, "100000");
    assert_eq!(strategy, "DarkIce");
    let expected = [
        ("DisplaySize", "10"), ("StartTime", "09:00:00 EST"), ("EndTime", "15:00:00 EST"),
        ("AllowPastEndTime", "1"), ("monetaryValue", "100000"),
    ];
    assert_eq!(pairs(params), expect(&expected));
}

#[test]
fn pct_vol_twap_vwap_tags() {
    let (s, p) = pct_vol_params("0.5", "12:00:00 EST", "14:00:00 EST", true, "100000");
    assert_eq!(s, "PctVol");
    assert_eq!(pairs(p), expect(&[("PctVol", "0.5"), ("StartTime", "12:00:00 EST"), ("EndTime", "14:00:00 EST"), ("NoTakeLiq", "1"), ("monetaryValue", "100000")]));
    let (s, p) = twap_params("Marketable", "09:00:00 EST", "16:00:00 EST", true, "100000");
    assert_eq!(s, "Twap");
    assert_eq!(pairs(p), expect(&[("StrategyType", "Marketable"), ("StartTime", "09:00:00 EST"), ("EndTime", "16:00:00 EST"), ("AllowPastEndTime", "1"), ("monetaryValue", "100000")]));
    let (s, p) = vwap_params("0.2", "09:00:00 EST", "16:00:00 EST", true, false, "100000");
    assert_eq!(s, "Vwap");
    assert_eq!(pairs(p), expect(&[("MaxPctVol", "0.2"), ("StartTime", "09:00:00 EST"), ("EndTime", "16:00:00 EST"), ("AllowPastEndTime", "1"), ("NoTakeLiq", "0"), ("monetaryValue", "100000")]));
}

#[test]
fn impact_and_close_price_tags() {
    let (s, p) = balance_impact_risk_params("0.1", "Aggressive", true);
    assert_eq!(s, "BalanceImpactRisk");
    assert_eq!(pairs(p), expect(&[("MaxPctVol", "0.1"), ("RiskAversion", "Aggressive"), ("ForceCompletion", "true")]));
    let (s, p) = min_impact_params("0.3");
    assert_eq!(s, "MinImpact");
    assert_eq!(pairs(p), expect(&[("MaxPctVol", "0.3")]));
    let (s, p) = close_price_params("0.4", "Neutral", "20180926-06:06:49", true, "100000");
    assert_eq!(s, "ClosePx");
    assert_eq!(pairs(p), expect(&[("MaxPctVol", "0.4"), ("RiskAversion", "Neutral"), ("StartTime", "20180926-06:06:49"), ("ForceCompletion", "1"), ("monetaryValue", "100000")]));
}

#[test]
fn variant_pct_vol_tags() {
    let (s, p) = price_variant_pct_vol_params("0.1", "0.05", "0.01", "0.2", "12:00:00 EST", "14:00:00 EST", true, "100000");
    assert_eq!(s, "PctVolPx");
    assert_eq!(pairs(p), expect(&[("PctVol", "0.1"), ("deltaPctVol", "0.05"), ("minPctVol4Px", "0.01"), ("maxPctVol4Px", "0.2"), ("StartTime", "12:00:00 EST"), ("EndTime", "14:00:00 EST"), ("NoTakeLiq", "1"), ("monetaryValue", "100000")]));
    let (s, p) = size_variant_pct_vol_params("0.2", "0.4", "12:00:00 EST", "14:00:00 EST", true, "100000");
    assert_eq!(s, "PctVolSz");
    assert_eq!(pairs(p), expect(&[("startPctVol", "0.2"), ("endPctVol", "0.4"), ("StartTime", "12:00:00 EST"), ("EndTime", "14:00:00 EST"), ("NoTakeLiq", "1"), ("monetaryValue", "100000")]));
    let (s, p) = time_variant_pct_vol_params("0.2", "0.4", "12:00:00 EST", "14:00:00 EST", false, "100000");
    assert_eq!(s, "PctVolTm");
    assert_eq!(pairs(p), expect(&[("startPctVol", "0.2"), ("endPctVol", "0.4"), ("StartTime", "12:00:00 EST"), ("EndTime", "14:00:00 EST"), ("NoTakeLiq", "0"), ("monetary_value", "100000")]));
}

#[test]
fn third_party_algo_tags() {
    let (s, p) = jefferies_vwap_params("10:00:00 EST", "16:00:00 EST", "10", "10", "Exclude_Both", "150", "151", 100, "10", "Patience", false, "IBM");
    assert_eq!(s, "VWAP");
    assert_eq!(pairs(p), expect(&[("StartTime", "10:00:00 EST"), ("EndTime", "16:00:00 EST"), ("RelativeLimit", "10"), ("MaxVolumeRate", "10"), ("ExcludeAuctions", "Exclude_Both"), ("TriggerPrice", "150"), ("WowPrice", "151"), ("MinFillSize", "100"), ("WowOrderPct", "10"), ("WowMode", "Patience"), ("IsBuyBack", "0"), ("WowReference", "IBM")]));
    let (s, p) = csfb_inline_params("10:00:00 EST", "16:00:00 EST", "Patient", 10, 20, 100, "Default", true, "40", 100, 100, "40");
    assert_eq!(s, "INLINE");
    assert_eq!(pairs(p), expect(&[("StartTime", "10:00:00 EST"), ("EndTime", "16:00:00 EST"), ("ExecStyle", "Patient"), ("MinPercent", "10"), ("MaxPercent", "20"), ("DisplaySize", "100"), ("Auction", "Default"), ("BlockFinder", "1"), ("BlockPrice", "40"), ("MinBlockSize", "100"), ("MaxBlockSize", "100"), ("IWouldPrice", "40")]));
    let (s, p) = qbalgo_in_line_params("10:00:00 EST", "16:00:00 EST", "Arrival", "0.1", false);
    assert_eq!(s, "STROBE");
    assert_eq!(pairs(p), expect(&[("StartTime", "10:00:00 EST"), ("EndTime", "16:00:00 EST"), ("Benchmark", "Arrival"), ("PercentVolume", "0.1"), ("NoCleanUp", "0")]));
}
