use twsapi::account_summary_tags::AccountSummaryTags;
use twsapi::contract::PositionType;
use twsapi::execution::ExecutionFilter;
use twsapi::order::{AuctionStrategy, Origin, SoftDollarTier};

#[test]
fn account_summary_tag_texts() {
    assert_eq!(AccountSummaryTags::NetLiquidation.display(), "NetLiquidation");
    assert_eq!(AccountSummaryTags::Ledger.display(), "$LEDGER");
    assert_eq!(AccountSummaryTags::LedgerCurrency.display(), "$LEDGER:CURRENCY");
    let all = AccountSummaryTags::AllTags.display();
    assert!(all.starts_with("AccountType,\n            NetLiquidation,"));
    assert!(all.ends_with("$LEDGER:ALL"));
}

#[test]
fn order_enums_and_defaults() {
    assert_eq!(Origin::default(), Origin::Unknown);
    assert_eq!(Origin::Firm.to_i32(), 1);
    assert_eq!(Origin::from_i32(0), Some(Origin::Customer));
    assert_eq!(AuctionStrategy::default(), AuctionStrategy::AuctionUnset);
    assert_eq!(AuctionStrategy::from_i32(3), Some(AuctionStrategy::AuctionTransparent));
    assert_eq!(AuctionStrategy::from_i32(4), None);
    assert_eq!(PositionType::default(), PositionType::SamePos);
    assert_eq!(PositionType::ClosePos.to_string(), "ClosePos");
}

#[test]
fn plain_constructors() {
    let t = SoftDollarTier::new("n".into(), "v".into(), "d".into());
    assert_eq!(t.to_string(), "name: n, value: v, display_name: d");
    let f = ExecutionFilter::new(3, "DU1".into(), "20240101".into(), "IBM".into(), "STK".into(), "SMART".into(), "BUY".into());
    assert_eq!((f.client_id, f.symbol.as_str(), f.side.as_str()), (3, "IBM", "BUY"));
}

#[test]
fn regulation_t_tags_are_spelled_reg_t() {
    assert_eq!(AccountSummaryTags::ReqTEquity.display(), "RegTEquity");
    assert_eq!(AccountSummaryTags::ReqTMargin.display(), "RegTMargin");
    assert!(AccountSummaryTags::AllTags.display().contains("RegTEquity,"));
}
