use twsapi::common::{
    BarSize, ComboParam, DeepSide, DepthMktDataDescription, FamilyCode, HedgeType, NewsProvider,
    Rule80A, SecType, SmartComponent, TagValue, TickAttrib, TickAttribBidAsk, TickAttribLast,
    TickByTickType, TickType, TimeInForce, UsePriceMgmtAlgo, WhatToShow, UNSET_INTEGER,
};

#[test]
fn tick_type_text_and_numbers() {
    assert_eq!(TickType::Bid.to_string(), "bidPrice");
    assert_eq!(TickType::Low13Week.to_string(), "13WeekLow");
    assert_eq!(TickType::NotSet.to_string(), "unknown");
    assert_eq!(TickType::ShortableShares.to_i32(), 89);
    assert_eq!(TickType::NotSet.to_i32(), i32::MAX);
    assert_eq!(TickType::from_i32(1), Some(TickType::Bid));
    assert_eq!(TickType::from_i32(90), None);
    assert_eq!(TickType::from_i32(i32::MAX), Some(TickType::NotSet));
    assert_eq!(TickType::from_i32(-1), None);
}

#[test]
fn numbers_read_back_as_the_variant() {
    for n in -2..100 {
        if let Some(t) = TickType::from_i32(n) {
            assert_eq!(t.to_i32(), n);
        }
    }
    for n in 0..30 {
        match SecType::from_i32(n) {
            Some(t) => assert_eq!(t.to_i32(), n),
            None => assert!(n >= 23),
        }
    }
}

#[test]
fn enum_texts() {
    assert_eq!(TickByTickType::NA.to_string(), "N/A");
    assert_eq!(ComboParam::MaxSegSize.to_string(), "MaxSegSize");
    assert_eq!(HedgeType::None_.to_string(), "");
    assert_eq!(Rule80A::AgentOtherMemberPT.to_string(), "N");
    assert_eq!(TimeInForce::GTC.to_string(), "GTC");
    assert_eq!(WhatToShow::BidAsk.to_string(), "BID_ASK");
    // YieldBid's text is YIELD_ASK
    assert_eq!(WhatToShow::YieldBid.to_string(), "YIELD_ASK");
    assert_eq!(BarSize::_4Hours.to_string(), "4 hours");
    assert_eq!(DeepSide::Buy.to_string(), "BUY");
    assert_eq!(DeepSide::Sell.to_i32(), 0);
    assert_eq!(SecType::CONTFUT.to_string(), "CONTFUT");
}

#[test]
fn use_price_mgmt_algo_value() {
    assert_eq!(UsePriceMgmtAlgo::Default.value(), None);
    assert_eq!(UsePriceMgmtAlgo::NotUse.value(), Some(false));
    assert_eq!(UsePriceMgmtAlgo::Use.value(), Some(true));
}

#[test]
fn struct_texts() {
    let d = DepthMktDataDescription::new("ISLAND".into(), "STK".into(), "NASDAQ".into(), "Deep2".into(), 2);
    assert_eq!(d.to_string(), "exchange: ISLAND, sectype: STK, listing_exchange: NASDAQ, service_data_type: Deep2, agggroup: 2, ");
    let d = DepthMktDataDescription::new("A".into(), "B".into(), "C".into(), "D".into(), UNSET_INTEGER);
    assert_eq!(d.to_string(), "exchange: A, sectype: B, listing_exchange: C, service_data_type: D, agggroup: , ");
    let s = SmartComponent::new(-3, "ARCA".into(), "P".into());
    assert_eq!(s.to_string(), "bit_number: -3, exchange: ARCA, exchange_letter: P");
    assert_eq!(TickAttrib::new(true, false, true).to_string(), "can_auto_execute: true, past_limit: false, pre_open: true");
    assert_eq!(TickAttribBidAsk::new(false, true).to_string(), "bid_past_low: false, ask_past_high: true");
    assert_eq!(TickAttribLast::new(true, true).to_string(), "past_limit: true, unreported: true");
    assert_eq!(FamilyCode::new("U1".into(), "F2".into()).to_string(), "account_id: U1, family_code_str: F2");
    assert_eq!(NewsProvider::new("BZ".into(), "Benzinga".into()).to_string(), "code: BZ, name: Benzinga");
    assert_eq!(TagValue::new("k".into(), "v".into()).to_string(), "k=v;");
}
