//! Account summary tags
use vstd::prelude::*;

verus! {

/// Tags of the values that an account summary reports.
#[derive(Clone, Copy, Debug, PartialEq, Eq)]
pub enum AccountSummaryTags {
    AccountType,
    NetLiquidation,
    TotalCashValue,
    SettledCash,
    AccruedCash,
    BuyingPower,
    EquityWithLoanValue,
    PreviousEquityWithLoanValue,
    GrossPositionValue,
    ReqTEquity,
    ReqTMargin,
    SMA,
    InitMarginReq,
    MaintMarginReq,
    AvailableFunds,
    ExcessLiquidity,
    Cushion,
    FullInitMarginReq,
    FullMaintMarginReq,
    FullAvailableFunds,
    FullExcessLiquidity,
    LookAheadNextChange,
    LookAheadInitMarginReq,
    LookAheadMaintMarginReq,
    LookAheadAvailableFunds,
    LookAheadExcessLiquidity,
    HighestSeverity,
    DayTradesRemaining,
    Leverage,
    Ledger,
    LedgerCurrency,
    LedgerAll,
    AllTags,
}

/// The tag text that TWS expects for each tag.
pub open spec fn account_summary_tag_text(t: AccountSummaryTags) -> Seq<char> {
    match t {
        AccountSummaryTags::AccountType => "AccountType"@,
        AccountSummaryTags::NetLiquidation => "NetLiquidation"@,
        AccountSummaryTags::TotalCashValue => "TotalCashValue"@,
        AccountSummaryTags::SettledCash => "SettledCash"@,
        AccountSummaryTags::AccruedCash => "AccruedCash"@,
        AccountSummaryTags::BuyingPower => "BuyingPower"@,
        AccountSummaryTags::EquityWithLoanValue => "EquityWithLoanValue"@,
        AccountSummaryTags::PreviousEquityWithLoanValue => "PreviousEquityWithLoanValue"@,
        AccountSummaryTags::GrossPositionValue => "GrossPositionValue"@,
        AccountSummaryTags::ReqTEquity => "RegTEquity"@,
        AccountSummaryTags::ReqTMargin => "RegTMargin"@,
        AccountSummaryTags::SMA => "SMA"@,
        AccountSummaryTags::InitMarginReq => "InitMarginReq"@,
        AccountSummaryTags::MaintMarginReq => "MaintMarginReq"@,
        AccountSummaryTags::AvailableFunds => "AvailableFunds"@,
        AccountSummaryTags::ExcessLiquidity => "ExcessLiquidity"@,
        AccountSummaryTags::Cushion => "Cushion"@,
        AccountSummaryTags::FullInitMarginReq => "FullInitMarginReq"@,
        AccountSummaryTags::FullMaintMarginReq => "FullMaintMarginReq"@,
        AccountSummaryTags::FullAvailableFunds => "FullAvailableFunds"@,
        AccountSummaryTags::FullExcessLiquidity => "FullExcessLiquidity"@,
        AccountSummaryTags::LookAheadNextChange => "LookAheadNextChange"@,
        AccountSummaryTags::LookAheadInitMarginReq => "LookAheadInitMarginReq"@,
        AccountSummaryTags::LookAheadMaintMarginReq => "LookAheadMaintMarginReq"@,
        AccountSummaryTags::LookAheadAvailableFunds => "LookAheadAvailableFunds"@,
        AccountSummaryTags::LookAheadExcessLiquidity => "LookAheadExcessLiquidity"@,
        AccountSummaryTags::HighestSeverity => "HighestSeverity"@,
        AccountSummaryTags::DayTradesRemaining => "DayTradesRemaining"@,
        AccountSummaryTags::Leverage => "Leverage"@,
        AccountSummaryTags::Ledger => "$LEDGER"@,
        AccountSummaryTags::LedgerCurrency => "$LEDGER:CURRENCY"@,
        AccountSummaryTags::LedgerAll => "$LEDGER:ALL"@,
        AccountSummaryTags::AllTags => "AccountType,\n            NetLiquidation,\n            TotalCashValue,\n            SettledCash,\n            AccruedCash,\n            BuyingPower,\n            EquityWithLoanValue,\n            PreviousEquityWithLoanValue,\n            GrossPositionValue,\n            RegTEquity,\n            RegTMargin,\n            SMA,\n            InitMarginReq,\n            MaintMarginReq,\n            AvailableFunds,\n            ExcessLiquidity,\n            Cushion,Cushion,\n            FullInitMarginReq,\n            FullMaintMarginReq,\n            FullAvailableFunds,\n            FullExcessLiquidity,\n            LookAheadNextChange,\n            LookAheadInitMarginReq,\n            LookAheadMaintMarginReq,\n            LookAheadAvailableFunds,\n            LookAheadExcessLiquidity,\n            HighestSeverity,\n            DayTradesRemaining,\n            Leverage,\n            $LEDGER,\n            $LEDGER:CURRENCY,\n            $LEDGER:ALL"@,
    }
}

impl AccountSummaryTags {
    /// The tag text that TWS expects.
    pub fn display(&self) -> (r: &'static str)
        ensures
            r@ == account_summary_tag_text(*self),
    {
        match self {
            AccountSummaryTags::AccountType => "AccountType",
            AccountSummaryTags::NetLiquidation => "NetLiquidation",
            AccountSummaryTags::TotalCashValue => "TotalCashValue",
            AccountSummaryTags::SettledCash => "SettledCash",
            AccountSummaryTags::AccruedCash => "AccruedCash",
            AccountSummaryTags::BuyingPower => "BuyingPower",
            AccountSummaryTags::EquityWithLoanValue => "EquityWithLoanValue",
            AccountSummaryTags::PreviousEquityWithLoanValue => "PreviousEquityWithLoanValue",
            AccountSummaryTags::GrossPositionValue => "GrossPositionValue",
            AccountSummaryTags::ReqTEquity => "RegTEquity",
            AccountSummaryTags::ReqTMargin => "RegTMargin",
            AccountSummaryTags::SMA => "SMA",
            AccountSummaryTags::InitMarginReq => "InitMarginReq",
            AccountSummaryTags::MaintMarginReq => "MaintMarginReq",
            AccountSummaryTags::AvailableFunds => "AvailableFunds",
            AccountSummaryTags::ExcessLiquidity => "ExcessLiquidity",
            AccountSummaryTags::Cushion => "Cushion",
            AccountSummaryTags::FullInitMarginReq => "FullInitMarginReq",
            AccountSummaryTags::FullMaintMarginReq => "FullMaintMarginReq",
            AccountSummaryTags::FullAvailableFunds => "FullAvailableFunds",
            AccountSummaryTags::FullExcessLiquidity => "FullExcessLiquidity",
            AccountSummaryTags::LookAheadNextChange => "LookAheadNextChange",
            AccountSummaryTags::LookAheadInitMarginReq => "LookAheadInitMarginReq",
            AccountSummaryTags::LookAheadMaintMarginReq => "LookAheadMaintMarginReq",
            AccountSummaryTags::LookAheadAvailableFunds => "LookAheadAvailableFunds",
            AccountSummaryTags::LookAheadExcessLiquidity => "LookAheadExcessLiquidity",
            AccountSummaryTags::HighestSeverity => "HighestSeverity",
            AccountSummaryTags::DayTradesRemaining => "DayTradesRemaining",
            AccountSummaryTags::Leverage => "Leverage",
            AccountSummaryTags::Ledger => "$LEDGER",
            AccountSummaryTags::LedgerCurrency => "$LEDGER:CURRENCY",
            AccountSummaryTags::LedgerAll => "$LEDGER:ALL",
            AccountSummaryTags::AllTags => "AccountType,\n            NetLiquidation,\n            TotalCashValue,\n            SettledCash,\n            AccruedCash,\n            BuyingPower,\n            EquityWithLoanValue,\n            PreviousEquityWithLoanValue,\n            GrossPositionValue,\n            RegTEquity,\n            RegTMargin,\n            SMA,\n            InitMarginReq,\n            MaintMarginReq,\n            AvailableFunds,\n            ExcessLiquidity,\n            Cushion,Cushion,\n            FullInitMarginReq,\n            FullMaintMarginReq,\n            FullAvailableFunds,\n            FullExcessLiquidity,\n            LookAheadNextChange,\n            LookAheadInitMarginReq,\n            LookAheadMaintMarginReq,\n            LookAheadAvailableFunds,\n            LookAheadExcessLiquidity,\n            HighestSeverity,\n            DayTradesRemaining,\n            Leverage,\n            $LEDGER,\n            $LEDGER:CURRENCY,\n            $LEDGER:ALL",
        }
    }
}

} // verus!
