//! Common types
use vstd::prelude::*;

use crate::decimal::{bool_text, int_text, push_bool_text, push_int_text};

verus! {

pub const NO_VALID_ID: i32 = -1;

/// 16Mb - 1byte
pub const MAX_MSG_LEN: i64 = 0xFFFFFF;

pub const UNSET_INTEGER: i32 = 2147483647;

pub const UNSET_LONG: i64 = 9223372036854775807;

/// Tick types.
#[derive(Clone, Copy, Debug, PartialEq, Eq)]
pub enum TickType {
    BidSize,
    Bid,
    Ask,
    AskSize,
    Last,
    LastSize,
    High,
    Low,
    Volume,
    Close,
    BidOptionComputation,
    AskOptionComputation,
    LastOptionComputation,
    ModelOption,
    Open,
    Low13Week,
    High13Week,
    Low26Week,
    High26Week,
    Low52Week,
    High52Week,
    AvgVolume,
    OpenInterest,
    OptionHistoricalVol,
    OptionImpliedVol,
    OptionBidExch,
    OptionAskExch,
    OptionCallOpenInterest,
    OptionPutOpenInterest,
    OptionCallVolume,
    OptionPutVolume,
    IndexFuturePremium,
    BidExch,
    AskExch,
    AuctionVolume,
    AuctionPrice,
    AuctionImbalance,
    MarkPrice,
    BidEfpComputation,
    AskEfpComputation,
    LastEfpComputation,
    OpenEfpComputation,
    HighEfpComputation,
    LowEfpComputation,
    CloseEfpComputation,
    LastTimestamp,
    Shortable,
    FundamentalRatios,
    RtVolume,
    Halted,
    BidYield,
    AskYield,
    LastYield,
    CustOptionComputation,
    TradeCount,
    TradeRate,
    VolumeRate,
    LastRthTrade,
    RtHistoricalVol,
    IbDividends,
    BondFactorMultiplier,
    RegulatoryImbalance,
    NewsTick,
    ShortTermVolume3Min,
    ShortTermVolume5Min,
    ShortTermVolume10Min,
    DelayedBid,
    DelayedAsk,
    DelayedLast,
    DelayedBidSize,
    DelayedAskSize,
    DelayedLastSize,
    DelayedHigh,
    DelayedLow,
    DelayedVolume,
    DelayedClose,
    DelayedOpen,
    RtTrdVolume,
    CreditmanMarkPrice,
    CreditmanSlowMarkPrice,
    DelayedBidOption,
    DelayedAskOption,
    DelayedLastOption,
    DelayedModelOption,
    LastExch,
    LastRegTime,
    FuturesOpenInterest,
    AvgOptVolume,
    DelayedLastTimestamp,
    ShortableShares,
    NotSet,
}

impl TickType {
    /// The number that stands for each variant on the wire.
    pub open spec fn code_of(self) -> int {
        match self {
            TickType::BidSize => 0,
            TickType::Bid => 1,
            TickType::Ask => 2,
            TickType::AskSize => 3,
            TickType::Last => 4,
            TickType::LastSize => 5,
            TickType::High => 6,
            TickType::Low => 7,
            TickType::Volume => 8,
            TickType::Close => 9,
            TickType::BidOptionComputation => 10,
            TickType::AskOptionComputation => 11,
            TickType::LastOptionComputation => 12,
            TickType::ModelOption => 13,
            TickType::Open => 14,
            TickType::Low13Week => 15,
            TickType::High13Week => 16,
            TickType::Low26Week => 17,
            TickType::High26Week => 18,
            TickType::Low52Week => 19,
            TickType::High52Week => 20,
            TickType::AvgVolume => 21,
            TickType::OpenInterest => 22,
            TickType::OptionHistoricalVol => 23,
            TickType::OptionImpliedVol => 24,
            TickType::OptionBidExch => 25,
            TickType::OptionAskExch => 26,
            TickType::OptionCallOpenInterest => 27,
            TickType::OptionPutOpenInterest => 28,
            TickType::OptionCallVolume => 29,
            TickType::OptionPutVolume => 30,
            TickType::IndexFuturePremium => 31,
            TickType::BidExch => 32,
            TickType::AskExch => 33,
            TickType::AuctionVolume => 34,
            TickType::AuctionPrice => 35,
            TickType::AuctionImbalance => 36,
            TickType::MarkPrice => 37,
            TickType::BidEfpComputation => 38,
            TickType::AskEfpComputation => 39,
            TickType::LastEfpComputation => 40,
            TickType::OpenEfpComputation => 41,
            TickType::HighEfpComputation => 42,
            TickType::LowEfpComputation => 43,
            TickType::CloseEfpComputation => 44,
            TickType::LastTimestamp => 45,
            TickType::Shortable => 46,
            TickType::FundamentalRatios => 47,
            TickType::RtVolume => 48,
            TickType::Halted => 49,
            TickType::BidYield => 50,
            TickType::AskYield => 51,
            TickType::LastYield => 52,
            TickType::CustOptionComputation => 53,
            TickType::TradeCount => 54,
            TickType::TradeRate => 55,
            TickType::VolumeRate => 56,
            TickType::LastRthTrade => 57,
            TickType::RtHistoricalVol => 58,
            TickType::IbDividends => 59,
            TickType::BondFactorMultiplier => 60,
            TickType::RegulatoryImbalance => 61,
            TickType::NewsTick => 62,
            TickType::ShortTermVolume3Min => 63,
            TickType::ShortTermVolume5Min => 64,
            TickType::ShortTermVolume10Min => 65,
            TickType::DelayedBid => 66,
            TickType::DelayedAsk => 67,
            TickType::DelayedLast => 68,
            TickType::DelayedBidSize => 69,
            TickType::DelayedAskSize => 70,
            TickType::DelayedLastSize => 71,
            TickType::DelayedHigh => 72,
            TickType::DelayedLow => 73,
            TickType::DelayedVolume => 74,
            TickType::DelayedClose => 75,
            TickType::DelayedOpen => 76,
            TickType::RtTrdVolume => 77,
            TickType::CreditmanMarkPrice => 78,
            TickType::CreditmanSlowMarkPrice => 79,
            TickType::DelayedBidOption => 80,
            TickType::DelayedAskOption => 81,
            TickType::DelayedLastOption => 82,
            TickType::DelayedModelOption => 83,
            TickType::LastExch => 84,
            TickType::LastRegTime => 85,
            TickType::FuturesOpenInterest => 86,
            TickType::AvgOptVolume => 87,
            TickType::DelayedLastTimestamp => 88,
            TickType::ShortableShares => 89,
            TickType::NotSet => 2147483647,
        }
    }

    /// The variant that a number stands for, if any.
    pub open spec fn from_code(n: int) -> Option<TickType> {
        if n == 0 {
            Some(TickType::BidSize)
        } else if n == 1 {
            Some(TickType::Bid)
        } else if n == 2 {
            Some(TickType::Ask)
        } else if n == 3 {
            Some(TickType::AskSize)
        } else if n == 4 {
            Some(TickType::Last)
        } else if n == 5 {
            Some(TickType::LastSize)
        } else if n == 6 {
            Some(TickType::High)
        } else if n == 7 {
            Some(TickType::Low)
        } else if n == 8 {
            Some(TickType::Volume)
        } else if n == 9 {
            Some(TickType::Close)
        } else if n == 10 {
            Some(TickType::BidOptionComputation)
        } else if n == 11 {
            Some(TickType::AskOptionComputation)
        } else if n == 12 {
            Some(TickType::LastOptionComputation)
        } else if n == 13 {
            Some(TickType::ModelOption)
        } else if n == 14 {
            Some(TickType::Open)
        } else if n == 15 {
            Some(TickType::Low13Week)
        } else if n == 16 {
            Some(TickType::High13Week)
        } else if n == 17 {
            Some(TickType::Low26Week)
        } else if n == 18 {
            Some(TickType::High26Week)
        } else if n == 19 {
            Some(TickType::Low52Week)
        } else if n == 20 {
            Some(TickType::High52Week)
        } else if n == 21 {
            Some(TickType::AvgVolume)
        } else if n == 22 {
            Some(TickType::OpenInterest)
        } else if n == 23 {
            Some(TickType::OptionHistoricalVol)
        } else if n == 24 {
            Some(TickType::OptionImpliedVol)
        } else if n == 25 {
            Some(TickType::OptionBidExch)
        } else if n == 26 {
            Some(TickType::OptionAskExch)
        } else if n == 27 {
            Some(TickType::OptionCallOpenInterest)
        } else if n == 28 {
            Some(TickType::OptionPutOpenInterest)
        } else if n == 29 {
            Some(TickType::OptionCallVolume)
        } else if n == 30 {
            Some(TickType::OptionPutVolume)
        } else if n == 31 {
            Some(TickType::IndexFuturePremium)
        } else if n == 32 {
            Some(TickType::BidExch)
        } else if n == 33 {
            Some(TickType::AskExch)
        } else if n == 34 {
            Some(TickType::AuctionVolume)
        } else if n == 35 {
            Some(TickType::AuctionPrice)
        } else if n == 36 {
            Some(TickType::AuctionImbalance)
        } else if n == 37 {
            Some(TickType::MarkPrice)
        } else if n == 38 {
            Some(TickType::BidEfpComputation)
        } else if n == 39 {
            Some(TickType::AskEfpComputation)
        } else if n == 40 {
            Some(TickType::LastEfpComputation)
        } else if n == 41 {
            Some(TickType::OpenEfpComputation)
        } else if n == 42 {
            Some(TickType::HighEfpComputation)
        } else if n == 43 {
            Some(TickType::LowEfpComputation)
        } else if n == 44 {
            Some(TickType::CloseEfpComputation)
        } else if n == 45 {
            Some(TickType::LastTimestamp)
        } else if n == 46 {
            Some(TickType::Shortable)
        } else if n == 47 {
            Some(TickType::FundamentalRatios)
        } else if n == 48 {
            Some(TickType::RtVolume)
        } else if n == 49 {
            Some(TickType::Halted)
        } else if n == 50 {
            Some(TickType::BidYield)
        } else if n == 51 {
            Some(TickType::AskYield)
        } else if n == 52 {
            Some(TickType::LastYield)
        } else if n == 53 {
            Some(TickType::CustOptionComputation)
        } else if n == 54 {
            Some(TickType::TradeCount)
        } else if n == 55 {
            Some(TickType::TradeRate)
        } else if n == 56 {
            Some(TickType::VolumeRate)
        } else if n == 57 {
            Some(TickType::LastRthTrade)
        } else if n == 58 {
            Some(TickType::RtHistoricalVol)
        } else if n == 59 {
            Some(TickType::IbDividends)
        } else if n == 60 {
            Some(TickType::BondFactorMultiplier)
        } else if n == 61 {
            Some(TickType::RegulatoryImbalance)
        } else if n == 62 {
            Some(TickType::NewsTick)
        } else if n == 63 {
            Some(TickType::ShortTermVolume3Min)
        } else if n == 64 {
            Some(TickType::ShortTermVolume5Min)
        } else if n == 65 {
            Some(TickType::ShortTermVolume10Min)
        } else if n == 66 {
            Some(TickType::DelayedBid)
        } else if n == 67 {
            Some(TickType::DelayedAsk)
        } else if n == 68 {
            Some(TickType::DelayedLast)
        } else if n == 69 {
            Some(TickType::DelayedBidSize)
        } else if n == 70 {
            Some(TickType::DelayedAskSize)
        } else if n == 71 {
            Some(TickType::DelayedLastSize)
        } else if n == 72 {
            Some(TickType::DelayedHigh)
        } else if n == 73 {
            Some(TickType::DelayedLow)
        } else if n == 74 {
            Some(TickType::DelayedVolume)
        } else if n == 75 {
            Some(TickType::DelayedClose)
        } else if n == 76 {
            Some(TickType::DelayedOpen)
        } else if n == 77 {
            Some(TickType::RtTrdVolume)
        } else if n == 78 {
            Some(TickType::CreditmanMarkPrice)
        } else if n == 79 {
            Some(TickType::CreditmanSlowMarkPrice)
        } else if n == 80 {
            Some(TickType::DelayedBidOption)
        } else if n == 81 {
            Some(TickType::DelayedAskOption)
        } else if n == 82 {
            Some(TickType::DelayedLastOption)
        } else if n == 83 {
            Some(TickType::DelayedModelOption)
        } else if n == 84 {
            Some(TickType::LastExch)
        } else if n == 85 {
            Some(TickType::LastRegTime)
        } else if n == 86 {
            Some(TickType::FuturesOpenInterest)
        } else if n == 87 {
            Some(TickType::AvgOptVolume)
        } else if n == 88 {
            Some(TickType::DelayedLastTimestamp)
        } else if n == 89 {
            Some(TickType::ShortableShares)
        } else if n == 2147483647 {
            Some(TickType::NotSet)
        } else {
            None
        }
    }

    /// The number of the variant; reading it back gives the variant again.
    pub fn to_i32(&self) -> (r: i32)
        ensures
            r == self.code_of(),
            TickType::from_code(r as int) == Some(*self),
    {
        match self {
            TickType::BidSize => 0,
            TickType::Bid => 1,
            TickType::Ask => 2,
            TickType::AskSize => 3,
            TickType::Last => 4,
            TickType::LastSize => 5,
            TickType::High => 6,
            TickType::Low => 7,
            TickType::Volume => 8,
            TickType::Close => 9,
            TickType::BidOptionComputation => 10,
            TickType::AskOptionComputation => 11,
            TickType::LastOptionComputation => 12,
            TickType::ModelOption => 13,
            TickType::Open => 14,
            TickType::Low13Week => 15,
            TickType::High13Week => 16,
            TickType::Low26Week => 17,
            TickType::High26Week => 18,
            TickType::Low52Week => 19,
            TickType::High52Week => 20,
            TickType::AvgVolume => 21,
            TickType::OpenInterest => 22,
            TickType::OptionHistoricalVol => 23,
            TickType::OptionImpliedVol => 24,
            TickType::OptionBidExch => 25,
            TickType::OptionAskExch => 26,
            TickType::OptionCallOpenInterest => 27,
            TickType::OptionPutOpenInterest => 28,
            TickType::OptionCallVolume => 29,
            TickType::OptionPutVolume => 30,
            TickType::IndexFuturePremium => 31,
            TickType::BidExch => 32,
            TickType::AskExch => 33,
            TickType::AuctionVolume => 34,
            TickType::AuctionPrice => 35,
            TickType::AuctionImbalance => 36,
            TickType::MarkPrice => 37,
            TickType::BidEfpComputation => 38,
            TickType::AskEfpComputation => 39,
            TickType::LastEfpComputation => 40,
            TickType::OpenEfpComputation => 41,
            TickType::HighEfpComputation => 42,
            TickType::LowEfpComputation => 43,
            TickType::CloseEfpComputation => 44,
            TickType::LastTimestamp => 45,
            TickType::Shortable => 46,
            TickType::FundamentalRatios => 47,
            TickType::RtVolume => 48,
            TickType::Halted => 49,
            TickType::BidYield => 50,
            TickType::AskYield => 51,
            TickType::LastYield => 52,
            TickType::CustOptionComputation => 53,
            TickType::TradeCount => 54,
            TickType::TradeRate => 55,
            TickType::VolumeRate => 56,
            TickType::LastRthTrade => 57,
            TickType::RtHistoricalVol => 58,
            TickType::IbDividends => 59,
            TickType::BondFactorMultiplier => 60,
            TickType::RegulatoryImbalance => 61,
            TickType::NewsTick => 62,
            TickType::ShortTermVolume3Min => 63,
            TickType::ShortTermVolume5Min => 64,
            TickType::ShortTermVolume10Min => 65,
            TickType::DelayedBid => 66,
            TickType::DelayedAsk => 67,
            TickType::DelayedLast => 68,
            TickType::DelayedBidSize => 69,
            TickType::DelayedAskSize => 70,
            TickType::DelayedLastSize => 71,
            TickType::DelayedHigh => 72,
            TickType::DelayedLow => 73,
            TickType::DelayedVolume => 74,
            TickType::DelayedClose => 75,
            TickType::DelayedOpen => 76,
            TickType::RtTrdVolume => 77,
            TickType::CreditmanMarkPrice => 78,
            TickType::CreditmanSlowMarkPrice => 79,
            TickType::DelayedBidOption => 80,
            TickType::DelayedAskOption => 81,
            TickType::DelayedLastOption => 82,
            TickType::DelayedModelOption => 83,
            TickType::LastExch => 84,
            TickType::LastRegTime => 85,
            TickType::FuturesOpenInterest => 86,
            TickType::AvgOptVolume => 87,
            TickType::DelayedLastTimestamp => 88,
            TickType::ShortableShares => 89,
            TickType::NotSet => 2147483647,
        }
    }

    /// The variant that `n` stands for, if any.
    pub fn from_i32(n: i32) -> (r: Option<TickType>)
        ensures
            r == TickType::from_code(n as int),
    {
        match n {
            0 => Some(TickType::BidSize),
            1 => Some(TickType::Bid),
            2 => Some(TickType::Ask),
            3 => Some(TickType::AskSize),
            4 => Some(TickType::Last),
            5 => Some(TickType::LastSize),
            6 => Some(TickType::High),
            7 => Some(TickType::Low),
            8 => Some(TickType::Volume),
            9 => Some(TickType::Close),
            10 => Some(TickType::BidOptionComputation),
            11 => Some(TickType::AskOptionComputation),
            12 => Some(TickType::LastOptionComputation),
            13 => Some(TickType::ModelOption),
            14 => Some(TickType::Open),
            15 => Some(TickType::Low13Week),
            16 => Some(TickType::High13Week),
            17 => Some(TickType::Low26Week),
            18 => Some(TickType::High26Week),
            19 => Some(TickType::Low52Week),
            20 => Some(TickType::High52Week),
            21 => Some(TickType::AvgVolume),
            22 => Some(TickType::OpenInterest),
            23 => Some(TickType::OptionHistoricalVol),
            24 => Some(TickType::OptionImpliedVol),
            25 => Some(TickType::OptionBidExch),
            26 => Some(TickType::OptionAskExch),
            27 => Some(TickType::OptionCallOpenInterest),
            28 => Some(TickType::OptionPutOpenInterest),
            29 => Some(TickType::OptionCallVolume),
            30 => Some(TickType::OptionPutVolume),
            31 => Some(TickType::IndexFuturePremium),
            32 => Some(TickType::BidExch),
            33 => Some(TickType::AskExch),
            34 => Some(TickType::AuctionVolume),
            35 => Some(TickType::AuctionPrice),
            36 => Some(TickType::AuctionImbalance),
            37 => Some(TickType::MarkPrice),
            38 => Some(TickType::BidEfpComputation),
            39 => Some(TickType::AskEfpComputation),
            40 => Some(TickType::LastEfpComputation),
            41 => Some(TickType::OpenEfpComputation),
            42 => Some(TickType::HighEfpComputation),
            43 => Some(TickType::LowEfpComputation),
            44 => Some(TickType::CloseEfpComputation),
            45 => Some(TickType::LastTimestamp),
            46 => Some(TickType::Shortable),
            47 => Some(TickType::FundamentalRatios),
            48 => Some(TickType::RtVolume),
            49 => Some(TickType::Halted),
            50 => Some(TickType::BidYield),
            51 => Some(TickType::AskYield),
            52 => Some(TickType::LastYield),
            53 => Some(TickType::CustOptionComputation),
            54 => Some(TickType::TradeCount),
            55 => Some(TickType::TradeRate),
            56 => Some(TickType::VolumeRate),
            57 => Some(TickType::LastRthTrade),
            58 => Some(TickType::RtHistoricalVol),
            59 => Some(TickType::IbDividends),
            60 => Some(TickType::BondFactorMultiplier),
            61 => Some(TickType::RegulatoryImbalance),
            62 => Some(TickType::NewsTick),
            63 => Some(TickType::ShortTermVolume3Min),
            64 => Some(TickType::ShortTermVolume5Min),
            65 => Some(TickType::ShortTermVolume10Min),
            66 => Some(TickType::DelayedBid),
            67 => Some(TickType::DelayedAsk),
            68 => Some(TickType::DelayedLast),
            69 => Some(TickType::DelayedBidSize),
            70 => Some(TickType::DelayedAskSize),
            71 => Some(TickType::DelayedLastSize),
            72 => Some(TickType::DelayedHigh),
            73 => Some(TickType::DelayedLow),
            74 => Some(TickType::DelayedVolume),
            75 => Some(TickType::DelayedClose),
            76 => Some(TickType::DelayedOpen),
            77 => Some(TickType::RtTrdVolume),
            78 => Some(TickType::CreditmanMarkPrice),
            79 => Some(TickType::CreditmanSlowMarkPrice),
            80 => Some(TickType::DelayedBidOption),
            81 => Some(TickType::DelayedAskOption),
            82 => Some(TickType::DelayedLastOption),
            83 => Some(TickType::DelayedModelOption),
            84 => Some(TickType::LastExch),
            85 => Some(TickType::LastRegTime),
            86 => Some(TickType::FuturesOpenInterest),
            87 => Some(TickType::AvgOptVolume),
            88 => Some(TickType::DelayedLastTimestamp),
            89 => Some(TickType::ShortableShares),
            2147483647 => Some(TickType::NotSet),
            _ => None,
        }
    }

    /// The text of each variant.
    pub open spec fn text_of(self) -> Seq<char> {
        match self {
            TickType::BidSize => "bidSize"@,
            TickType::Bid => "bidPrice"@,
            TickType::Ask => "askPrice"@,
            TickType::AskSize => "askSize"@,
            TickType::Last => "lastPrice"@,
            TickType::LastSize => "lastSize"@,
            TickType::High => "high"@,
            TickType::Low => "low"@,
            TickType::Volume => "volume"@,
            TickType::Close => "close"@,
            TickType::BidOptionComputation => "bidOptComp"@,
            TickType::AskOptionComputation => "askOptComp"@,
            TickType::LastOptionComputation => "lastOptComp"@,
            TickType::ModelOption => "modelOptComp"@,
            TickType::Open => "open"@,
            TickType::Low13Week => "13WeekLow"@,
            TickType::High13Week => "13WeekHigh"@,
            TickType::Low26Week => "26WeekLow"@,
            TickType::High26Week => "26WeekHigh"@,
            TickType::Low52Week => "52WeekLow"@,
            TickType::High52Week => "52WeekHigh"@,
            TickType::AvgVolume => "AvgVolume"@,
            TickType::OpenInterest => "OpenInterest"@,
            TickType::OptionHistoricalVol => "OptionHistoricalVolatility"@,
            TickType::OptionImpliedVol => "OptionImpliedVolatility"@,
            TickType::OptionBidExch => "OptionBidExch"@,
            TickType::OptionAskExch => "OptionAskExch"@,
            TickType::OptionCallOpenInterest => "OptionCallOpenInterest"@,
            TickType::OptionPutOpenInterest => "OptionPutOpenInterest"@,
            TickType::OptionCallVolume => "OptionCallVolume"@,
            TickType::OptionPutVolume => "OptionPutVolume"@,
            TickType::IndexFuturePremium => "IndexFuturePremium"@,
            TickType::BidExch => "bidExch"@,
            TickType::AskExch => "askExch"@,
            TickType::AuctionVolume => "auctionVolume"@,
            TickType::AuctionPrice => "auctionPrice"@,
            TickType::AuctionImbalance => "auctionImbalance"@,
            TickType::MarkPrice => "markPrice"@,
            TickType::BidEfpComputation => "bidEFP"@,
            TickType::AskEfpComputation => "askEFP"@,
            TickType::LastEfpComputation => "lastEFP"@,
            TickType::OpenEfpComputation => "openEFP"@,
            TickType::HighEfpComputation => "highEFP"@,
            TickType::LowEfpComputation => "lowEFP"@,
            TickType::CloseEfpComputation => "closeEFP"@,
            TickType::LastTimestamp => "lastTimestamp"@,
            TickType::Shortable => "shortable"@,
            TickType::FundamentalRatios => "fundamentals"@,
            TickType::RtVolume => "RTVolume"@,
            TickType::Halted => "halted"@,
            TickType::BidYield => "bidYield"@,
            TickType::AskYield => "askYield"@,
            TickType::LastYield => "lastYield"@,
            TickType::CustOptionComputation => "custOptComp"@,
            TickType::TradeCount => "tradeCount"@,
            TickType::TradeRate => "tradeRate"@,
            TickType::VolumeRate => "volumeRate"@,
            TickType::LastRthTrade => "lastRTHTrade"@,
            TickType::RtHistoricalVol => "RTHistoricalVol"@,
            TickType::IbDividends => "IBDividends"@,
            TickType::BondFactorMultiplier => "bondFactorMultiplier"@,
            TickType::RegulatoryImbalance => "regulatoryImbalance"@,
            TickType::NewsTick => "newsTick"@,
            TickType::ShortTermVolume3Min => "shortTermVolume3Min"@,
            TickType::ShortTermVolume5Min => "shortTermVolume5Min"@,
            TickType::ShortTermVolume10Min => "shortTermVolume10Min"@,
            TickType::DelayedBid => "delayedBid"@,
            TickType::DelayedAsk => "delayedAsk"@,
            TickType::DelayedLast => "delayedLast"@,
            TickType::DelayedBidSize => "delayedBidSize"@,
            TickType::DelayedAskSize => "delayedAskSize"@,
            TickType::DelayedLastSize => "delayedLastSize"@,
            TickType::DelayedHigh => "delayedHigh"@,
            TickType::DelayedLow => "delayedLow"@,
            TickType::DelayedVolume => "delayedVolume"@,
            TickType::DelayedClose => "delayedClose"@,
            TickType::DelayedOpen => "delayedOpen"@,
            TickType::RtTrdVolume => "rtTrdVolume"@,
            TickType::CreditmanMarkPrice => "creditmanMarkPrice"@,
            TickType::CreditmanSlowMarkPrice => "creditmanSlowMarkPrice"@,
            TickType::DelayedBidOption => "delayedBidOptComp"@,
            TickType::DelayedAskOption => "delayedAskOptComp"@,
            TickType::DelayedLastOption => "delayedLastOptComp"@,
            TickType::DelayedModelOption => "delayedModelOptComp"@,
            TickType::LastExch => "lastExchange"@,
            TickType::LastRegTime => "lastRegTime"@,
            TickType::FuturesOpenInterest => "futuresOpenInterest"@,
            TickType::AvgOptVolume => "avgOptVolume"@,
            TickType::DelayedLastTimestamp => "delayedLastTimestamp"@,
            TickType::ShortableShares => "shortableShares"@,
            TickType::NotSet => "unknown"@,
        }
    }

    /// The text of the variant.
    pub fn to_string(&self) -> (r: String)
        ensures
            r@ == self.text_of(),
    {
        match self {
            TickType::BidSize => String::from_str("bidSize"),
            TickType::Bid => String::from_str("bidPrice"),
            TickType::Ask => String::from_str("askPrice"),
            TickType::AskSize => String::from_str("askSize"),
            TickType::Last => String::from_str("lastPrice"),
            TickType::LastSize => String::from_str("lastSize"),
            TickType::High => String::from_str("high"),
            TickType::Low => String::from_str("low"),
            TickType::Volume => String::from_str("volume"),
            TickType::Close => String::from_str("close"),
            TickType::BidOptionComputation => String::from_str("bidOptComp"),
            TickType::AskOptionComputation => String::from_str("askOptComp"),
            TickType::LastOptionComputation => String::from_str("lastOptComp"),
            TickType::ModelOption => String::from_str("modelOptComp"),
            TickType::Open => String::from_str("open"),
            TickType::Low13Week => String::from_str("13WeekLow"),
            TickType::High13Week => String::from_str("13WeekHigh"),
            TickType::Low26Week => String::from_str("26WeekLow"),
            TickType::High26Week => String::from_str("26WeekHigh"),
            TickType::Low52Week => String::from_str("52WeekLow"),
            TickType::High52Week => String::from_str("52WeekHigh"),
            TickType::AvgVolume => String::from_str("AvgVolume"),
            TickType::OpenInterest => String::from_str("OpenInterest"),
            TickType::OptionHistoricalVol => String::from_str("OptionHistoricalVolatility"),
            TickType::OptionImpliedVol => String::from_str("OptionImpliedVolatility"),
            TickType::OptionBidExch => String::from_str("OptionBidExch"),
            TickType::OptionAskExch => String::from_str("OptionAskExch"),
            TickType::OptionCallOpenInterest => String::from_str("OptionCallOpenInterest"),
            TickType::OptionPutOpenInterest => String::from_str("OptionPutOpenInterest"),
            TickType::OptionCallVolume => String::from_str("OptionCallVolume"),
            TickType::OptionPutVolume => String::from_str("OptionPutVolume"),
            TickType::IndexFuturePremium => String::from_str("IndexFuturePremium"),
            TickType::BidExch => String::from_str("bidExch"),
            TickType::AskExch => String::from_str("askExch"),
            TickType::AuctionVolume => String::from_str("auctionVolume"),
            TickType::AuctionPrice => String::from_str("auctionPrice"),
            TickType::AuctionImbalance => String::from_str("auctionImbalance"),
            TickType::MarkPrice => String::from_str("markPrice"),
            TickType::BidEfpComputation => String::from_str("bidEFP"),
            TickType::AskEfpComputation => String::from_str("askEFP"),
            TickType::LastEfpComputation => String::from_str("lastEFP"),
            TickType::OpenEfpComputation => String::from_str("openEFP"),
            TickType::HighEfpComputation => String::from_str("highEFP"),
            TickType::LowEfpComputation => String::from_str("lowEFP"),
            TickType::CloseEfpComputation => String::from_str("closeEFP"),
            TickType::LastTimestamp => String::from_str("lastTimestamp"),
            TickType::Shortable => String::from_str("shortable"),
            TickType::FundamentalRatios => String::from_str("fundamentals"),
            TickType::RtVolume => String::from_str("RTVolume"),
            TickType::Halted => String::from_str("halted"),
            TickType::BidYield => String::from_str("bidYield"),
            TickType::AskYield => String::from_str("askYield"),
            TickType::LastYield => String::from_str("lastYield"),
            TickType::CustOptionComputation => String::from_str("custOptComp"),
            TickType::TradeCount => String::from_str("tradeCount"),
            TickType::TradeRate => String::from_str("tradeRate"),
            TickType::VolumeRate => String::from_str("volumeRate"),
            TickType::LastRthTrade => String::from_str("lastRTHTrade"),
            TickType::RtHistoricalVol => String::from_str("RTHistoricalVol"),
            TickType::IbDividends => String::from_str("IBDividends"),
            TickType::BondFactorMultiplier => String::from_str("bondFactorMultiplier"),
            TickType::RegulatoryImbalance => String::from_str("regulatoryImbalance"),
            TickType::NewsTick => String::from_str("newsTick"),
            TickType::ShortTermVolume3Min => String::from_str("shortTermVolume3Min"),
            TickType::ShortTermVolume5Min => String::from_str("shortTermVolume5Min"),
            TickType::ShortTermVolume10Min => String::from_str("shortTermVolume10Min"),
            TickType::DelayedBid => String::from_str("delayedBid"),
            TickType::DelayedAsk => String::from_str("delayedAsk"),
            TickType::DelayedLast => String::from_str("delayedLast"),
            TickType::DelayedBidSize => String::from_str("delayedBidSize"),
            TickType::DelayedAskSize => String::from_str("delayedAskSize"),
            TickType::DelayedLastSize => String::from_str("delayedLastSize"),
            TickType::DelayedHigh => String::from_str("delayedHigh"),
            TickType::DelayedLow => String::from_str("delayedLow"),
            TickType::DelayedVolume => String::from_str("delayedVolume"),
            TickType::DelayedClose => String::from_str("delayedClose"),
            TickType::DelayedOpen => String::from_str("delayedOpen"),
            TickType::RtTrdVolume => String::from_str("rtTrdVolume"),
            TickType::CreditmanMarkPrice => String::from_str("creditmanMarkPrice"),
            TickType::CreditmanSlowMarkPrice => String::from_str("creditmanSlowMarkPrice"),
            TickType::DelayedBidOption => String::from_str("delayedBidOptComp"),
            TickType::DelayedAskOption => String::from_str("delayedAskOptComp"),
            TickType::DelayedLastOption => String::from_str("delayedLastOptComp"),
            TickType::DelayedModelOption => String::from_str("delayedModelOptComp"),
            TickType::LastExch => String::from_str("lastExchange"),
            TickType::LastRegTime => String::from_str("lastRegTime"),
            TickType::FuturesOpenInterest => String::from_str("futuresOpenInterest"),
            TickType::AvgOptVolume => String::from_str("avgOptVolume"),
            TickType::DelayedLastTimestamp => String::from_str("delayedLastTimestamp"),
            TickType::ShortableShares => String::from_str("shortableShares"),
            TickType::NotSet => String::from_str("unknown"),
        }
    }
}

/// Financial advisor data types.
#[derive(Clone, Copy, Debug, PartialEq, Eq)]
pub enum FaDataType {
    NA,
    GROUPS,
    PROFILES,
    ALIASES,
}

impl FaDataType {
    /// The number that stands for each variant on the wire.
    pub open spec fn code_of(self) -> int {
        match self {
            FaDataType::NA => 0,
            FaDataType::GROUPS => 1,
            FaDataType::PROFILES => 2,
            FaDataType::ALIASES => 3,
        }
    }

    /// The variant that a number stands for, if any.
    pub open spec fn from_code(n: int) -> Option<FaDataType> {
        if n == 0 {
            Some(FaDataType::NA)
        } else if n == 1 {
            Some(FaDataType::GROUPS)
        } else if n == 2 {
            Some(FaDataType::PROFILES)
        } else if n == 3 {
            Some(FaDataType::ALIASES)
        } else {
            None
        }
    }

    /// The number of the variant; reading it back gives the variant again.
    pub fn to_i32(&self) -> (r: i32)
        ensures
            r == self.code_of(),
            FaDataType::from_code(r as int) == Some(*self),
    {
        match self {
            FaDataType::NA => 0,
            FaDataType::GROUPS => 1,
            FaDataType::PROFILES => 2,
            FaDataType::ALIASES => 3,
        }
    }

    /// The variant that `n` stands for, if any.
    pub fn from_i32(n: i32) -> (r: Option<FaDataType>)
        ensures
            r == FaDataType::from_code(n as int),
    {
        match n {
            0 => Some(FaDataType::NA),
            1 => Some(FaDataType::GROUPS),
            2 => Some(FaDataType::PROFILES),
            3 => Some(FaDataType::ALIASES),
            _ => None,
        }
    }
}

/// Tick by tick types.
#[derive(Clone, Copy, Debug, PartialEq, Eq)]
pub enum TickByTickType {
    NA,
    Last,
    AllLast,
    BidAsk,
    MidPoint,
}

impl TickByTickType {
    /// The number that stands for each variant on the wire.
    pub open spec fn code_of(self) -> int {
        match self {
            TickByTickType::NA => 0,
            TickByTickType::Last => 1,
            TickByTickType::AllLast => 2,
            TickByTickType::BidAsk => 3,
            TickByTickType::MidPoint => 4,
        }
    }

    /// The variant that a number stands for, if any.
    pub open spec fn from_code(n: int) -> Option<TickByTickType> {
        if n == 0 {
            Some(TickByTickType::NA)
        } else if n == 1 {
            Some(TickByTickType::Last)
        } else if n == 2 {
            Some(TickByTickType::AllLast)
        } else if n == 3 {
            Some(TickByTickType::BidAsk)
        } else if n == 4 {
            Some(TickByTickType::MidPoint)
        } else {
            None
        }
    }

    /// The number of the variant; reading it back gives the variant again.
    pub fn to_i32(&self) -> (r: i32)
        ensures
            r == self.code_of(),
            TickByTickType::from_code(r as int) == Some(*self),
    {
        match self {
            TickByTickType::NA => 0,
            TickByTickType::Last => 1,
            TickByTickType::AllLast => 2,
            TickByTickType::BidAsk => 3,
            TickByTickType::MidPoint => 4,
        }
    }

    /// The variant that `n` stands for, if any.
    pub fn from_i32(n: i32) -> (r: Option<TickByTickType>)
        ensures
            r == TickByTickType::from_code(n as int),
    {
        match n {
            0 => Some(TickByTickType::NA),
            1 => Some(TickByTickType::Last),
            2 => Some(TickByTickType::AllLast),
            3 => Some(TickByTickType::BidAsk),
            4 => Some(TickByTickType::MidPoint),
            _ => None,
        }
    }

    /// The text of each variant.
    pub open spec fn text_of(self) -> Seq<char> {
        match self {
            TickByTickType::NA => "N/A"@,
            TickByTickType::Last => "Last"@,
            TickByTickType::AllLast => "AllLast"@,
            TickByTickType::BidAsk => "BidAsk"@,
            TickByTickType::MidPoint => "MidPoint"@,
        }
    }

    /// The text of the variant.
    pub fn to_string(&self) -> (r: String)
        ensures
            r@ == self.text_of(),
    {
        match self {
            TickByTickType::NA => String::from_str("N/A"),
            TickByTickType::Last => String::from_str("Last"),
            TickByTickType::AllLast => String::from_str("AllLast"),
            TickByTickType::BidAsk => String::from_str("BidAsk"),
            TickByTickType::MidPoint => String::from_str("MidPoint"),
        }
    }
}

/// Combo order parameters.
#[derive(Clone, Copy, Debug, PartialEq, Eq)]
pub enum ComboParam {
    NonGuaranteed,
    PriceCondConid,
    CondPriceMax,
    CondPriceMin,
    ChangeToMktTime1,
    ChangeToMktTime2,
    DiscretionaryPct,
    DontLeginNext,
    LeginPrio,
    MaxSegSize,
}

impl ComboParam {
    /// The number that stands for each variant on the wire.
    pub open spec fn code_of(self) -> int {
        match self {
            ComboParam::NonGuaranteed => 0,
            ComboParam::PriceCondConid => 1,
            ComboParam::CondPriceMax => 2,
            ComboParam::CondPriceMin => 3,
            ComboParam::ChangeToMktTime1 => 4,
            ComboParam::ChangeToMktTime2 => 5,
            ComboParam::DiscretionaryPct => 6,
            ComboParam::DontLeginNext => 7,
            ComboParam::LeginPrio => 8,
            ComboParam::MaxSegSize => 9,
        }
    }

    /// The variant that a number stands for, if any.
    pub open spec fn from_code(n: int) -> Option<ComboParam> {
        if n == 0 {
            Some(ComboParam::NonGuaranteed)
        } else if n == 1 {
            Some(ComboParam::PriceCondConid)
        } else if n == 2 {
            Some(ComboParam::CondPriceMax)
        } else if n == 3 {
            Some(ComboParam::CondPriceMin)
        } else if n == 4 {
            Some(ComboParam::ChangeToMktTime1)
        } else if n == 5 {
            Some(ComboParam::ChangeToMktTime2)
        } else if n == 6 {
            Some(ComboParam::DiscretionaryPct)
        } else if n == 7 {
            Some(ComboParam::DontLeginNext)
        } else if n == 8 {
            Some(ComboParam::LeginPrio)
        } else if n == 9 {
            Some(ComboParam::MaxSegSize)
        } else {
            None
        }
    }

    /// The number of the variant; reading it back gives the variant again.
    pub fn to_i32(&self) -> (r: i32)
        ensures
            r == self.code_of(),
            ComboParam::from_code(r as int) == Some(*self),
    {
        match self {
            ComboParam::NonGuaranteed => 0,
            ComboParam::PriceCondConid => 1,
            ComboParam::CondPriceMax => 2,
            ComboParam::CondPriceMin => 3,
            ComboParam::ChangeToMktTime1 => 4,
            ComboParam::ChangeToMktTime2 => 5,
            ComboParam::DiscretionaryPct => 6,
            ComboParam::DontLeginNext => 7,
            ComboParam::LeginPrio => 8,
            ComboParam::MaxSegSize => 9,
        }
    }

    /// The variant that `n` stands for, if any.
    pub fn from_i32(n: i32) -> (r: Option<ComboParam>)
        ensures
            r == ComboParam::from_code(n as int),
    {
        match n {
            0 => Some(ComboParam::NonGuaranteed),
            1 => Some(ComboParam::PriceCondConid),
            2 => Some(ComboParam::CondPriceMax),
            3 => Some(ComboParam::CondPriceMin),
            4 => Some(ComboParam::ChangeToMktTime1),
            5 => Some(ComboParam::ChangeToMktTime2),
            6 => Some(ComboParam::DiscretionaryPct),
            7 => Some(ComboParam::DontLeginNext),
            8 => Some(ComboParam::LeginPrio),
            9 => Some(ComboParam::MaxSegSize),
            _ => None,
        }
    }

    /// The text of each variant.
    pub open spec fn text_of(self) -> Seq<char> {
        match self {
            ComboParam::NonGuaranteed => "NonGuaranteed"@,
            ComboParam::PriceCondConid => "PriceCondConid"@,
            ComboParam::CondPriceMax => "CondPriceMax"@,
            ComboParam::CondPriceMin => "CondPriceMin"@,
            ComboParam::ChangeToMktTime1 => "ChangeToMktTime1"@,
            ComboParam::ChangeToMktTime2 => "ChangeToMktTime2"@,
            ComboParam::DiscretionaryPct => "DiscretionaryPct"@,
            ComboParam::DontLeginNext => "DontLeginNext"@,
            ComboParam::LeginPrio => "LeginPrio"@,
            ComboParam::MaxSegSize => "MaxSegSize"@,
        }
    }

    /// The text of the variant.
    pub fn to_string(&self) -> (r: String)
        ensures
            r@ == self.text_of(),
    {
        match self {
            ComboParam::NonGuaranteed => String::from_str("NonGuaranteed"),
            ComboParam::PriceCondConid => String::from_str("PriceCondConid"),
            ComboParam::CondPriceMax => String::from_str("CondPriceMax"),
            ComboParam::CondPriceMin => String::from_str("CondPriceMin"),
            ComboParam::ChangeToMktTime1 => String::from_str("ChangeToMktTime1"),
            ComboParam::ChangeToMktTime2 => String::from_str("ChangeToMktTime2"),
            ComboParam::DiscretionaryPct => String::from_str("DiscretionaryPct"),
            ComboParam::DontLeginNext => String::from_str("DontLeginNext"),
            ComboParam::LeginPrio => String::from_str("LeginPrio"),
            ComboParam::MaxSegSize => String::from_str("MaxSegSize"),
        }
    }
}

/// Hedge types.
#[derive(Clone, Copy, Debug, PartialEq, Eq)]
pub enum HedgeType {
    None_,
    Delta,
    Beta,
    Fx,
    Pair,
}

impl HedgeType {
    /// The number that stands for each variant on the wire.
    pub open spec fn code_of(self) -> int {
        match self {
            HedgeType::None_ => 0,
            HedgeType::Delta => 1,
            HedgeType::Beta => 2,
            HedgeType::Fx => 3,
            HedgeType::Pair => 4,
        }
    }

    /// The variant that a number stands for, if any.
    pub open spec fn from_code(n: int) -> Option<HedgeType> {
        if n == 0 {
            Some(HedgeType::None_)
        } else if n == 1 {
            Some(HedgeType::Delta)
        } else if n == 2 {
            Some(HedgeType::Beta)
        } else if n == 3 {
            Some(HedgeType::Fx)
        } else if n == 4 {
            Some(HedgeType::Pair)
        } else {
            None
        }
    }

    /// The number of the variant; reading it back gives the variant again.
    pub fn to_i32(&self) -> (r: i32)
        ensures
            r == self.code_of(),
            HedgeType::from_code(r as int) == Some(*self),
    {
        match self {
            HedgeType::None_ => 0,
            HedgeType::Delta => 1,
            HedgeType::Beta => 2,
            HedgeType::Fx => 3,
            HedgeType::Pair => 4,
        }
    }

    /// The variant that `n` stands for, if any.
    pub fn from_i32(n: i32) -> (r: Option<HedgeType>)
        ensures
            r == HedgeType::from_code(n as int),
    {
        match n {
            0 => Some(HedgeType::None_),
            1 => Some(HedgeType::Delta),
            2 => Some(HedgeType::Beta),
            3 => Some(HedgeType::Fx),
            4 => Some(HedgeType::Pair),
            _ => None,
        }
    }

    /// The text of each variant.
    pub open spec fn text_of(self) -> Seq<char> {
        match self {
            HedgeType::None_ => ""@,
            HedgeType::Delta => "Delta"@,
            HedgeType::Beta => "Beta"@,
            HedgeType::Fx => "Fx"@,
            HedgeType::Pair => "Pair"@,
        }
    }

    /// The text of the variant.
    pub fn to_string(&self) -> (r: String)
        ensures
            r@ == self.text_of(),
    {
        match self {
            HedgeType::None_ => String::from_str(""),
            HedgeType::Delta => String::from_str("Delta"),
            HedgeType::Beta => String::from_str("Beta"),
            HedgeType::Fx => String::from_str("Fx"),
            HedgeType::Pair => String::from_str("Pair"),
        }
    }
}

/// Option rights.
#[derive(Clone, Copy, Debug, PartialEq, Eq)]
pub enum Right {
    None_,
    Put,
    Call,
}

impl Right {
    /// The number that stands for each variant on the wire.
    pub open spec fn code_of(self) -> int {
        match self {
            Right::None_ => 0,
            Right::Put => 1,
            Right::Call => 2,
        }
    }

    /// The variant that a number stands for, if any.
    pub open spec fn from_code(n: int) -> Option<Right> {
        if n == 0 {
            Some(Right::None_)
        } else if n == 1 {
            Some(Right::Put)
        } else if n == 2 {
            Some(Right::Call)
        } else {
            None
        }
    }

    /// The number of the variant; reading it back gives the variant again.
    pub fn to_i32(&self) -> (r: i32)
        ensures
            r == self.code_of(),
            Right::from_code(r as int) == Some(*self),
    {
        match self {
            Right::None_ => 0,
            Right::Put => 1,
            Right::Call => 2,
        }
    }

    /// The variant that `n` stands for, if any.
    pub fn from_i32(n: i32) -> (r: Option<Right>)
        ensures
            r == Right::from_code(n as int),
    {
        match n {
            0 => Some(Right::None_),
            1 => Some(Right::Put),
            2 => Some(Right::Call),
            _ => None,
        }
    }

    /// The text of each variant.
    pub open spec fn text_of(self) -> Seq<char> {
        match self {
            Right::None_ => ""@,
            Right::Put => "P"@,
            Right::Call => "C"@,
        }
    }

    /// The text of the variant.
    pub fn to_string(&self) -> (r: String)
        ensures
            r@ == self.text_of(),
    {
        match self {
            Right::None_ => String::from_str(""),
            Right::Put => String::from_str("P"),
            Right::Call => String::from_str("C"),
        }
    }
}

/// Volatility types.
#[derive(Clone, Copy, Debug, PartialEq, Eq)]
pub enum VolatilityType {
    None_,
    Daily,
    Annual,
}

impl VolatilityType {
    /// The number that stands for each variant on the wire.
    pub open spec fn code_of(self) -> int {
        match self {
            VolatilityType::None_ => 0,
            VolatilityType::Daily => 1,
            VolatilityType::Annual => 2,
        }
    }

    /// The variant that a number stands for, if any.
    pub open spec fn from_code(n: int) -> Option<VolatilityType> {
        if n == 0 {
            Some(VolatilityType::None_)
        } else if n == 1 {
            Some(VolatilityType::Daily)
        } else if n == 2 {
            Some(VolatilityType::Annual)
        } else {
            None
        }
    }

    /// The number of the variant; reading it back gives the variant again.
    pub fn to_i32(&self) -> (r: i32)
        ensures
            r == self.code_of(),
            VolatilityType::from_code(r as int) == Some(*self),
    {
        match self {
            VolatilityType::None_ => 0,
            VolatilityType::Daily => 1,
            VolatilityType::Annual => 2,
        }
    }

    /// The variant that `n` stands for, if any.
    pub fn from_i32(n: i32) -> (r: Option<VolatilityType>)
        ensures
            r == VolatilityType::from_code(n as int),
    {
        match n {
            0 => Some(VolatilityType::None_),
            1 => Some(VolatilityType::Daily),
            2 => Some(VolatilityType::Annual),
            _ => None,
        }
    }

    /// The text of each variant.
    pub open spec fn text_of(self) -> Seq<char> {
        match self {
            VolatilityType::None_ => "None"@,
            VolatilityType::Daily => "Daily"@,
            VolatilityType::Annual => "Annual"@,
        }
    }

    /// The text of the variant.
    pub fn to_string(&self) -> (r: String)
        ensures
            r@ == self.text_of(),
    {
        match self {
            VolatilityType::None_ => String::from_str("None"),
            VolatilityType::Daily => String::from_str("Daily"),
            VolatilityType::Annual => String::from_str("Annual"),
        }
    }
}

/// Reference price types.
#[derive(Clone, Copy, Debug, PartialEq, Eq)]
pub enum ReferencePriceType {
    None_,
    Midpoint,
    BidOrAsk,
}

impl ReferencePriceType {
    /// The number that stands for each variant on the wire.
    pub open spec fn code_of(self) -> int {
        match self {
            ReferencePriceType::None_ => 0,
            ReferencePriceType::Midpoint => 1,
            ReferencePriceType::BidOrAsk => 2,
        }
    }

    /// The variant that a number stands for, if any.
    pub open spec fn from_code(n: int) -> Option<ReferencePriceType> {
        if n == 0 {
            Some(ReferencePriceType::None_)
        } else if n == 1 {
            Some(ReferencePriceType::Midpoint)
        } else if n == 2 {
            Some(ReferencePriceType::BidOrAsk)
        } else {
            None
        }
    }

    /// The number of the variant; reading it back gives the variant again.
    pub fn to_i32(&self) -> (r: i32)
        ensures
            r == self.code_of(),
            ReferencePriceType::from_code(r as int) == Some(*self),
    {
        match self {
            ReferencePriceType::None_ => 0,
            ReferencePriceType::Midpoint => 1,
            ReferencePriceType::BidOrAsk => 2,
        }
    }

    /// The variant that `n` stands for, if any.
    pub fn from_i32(n: i32) -> (r: Option<ReferencePriceType>)
        ensures
            r == ReferencePriceType::from_code(n as int),
    {
        match n {
            0 => Some(ReferencePriceType::None_),
            1 => Some(ReferencePriceType::Midpoint),
            2 => Some(ReferencePriceType::BidOrAsk),
            _ => None,
        }
    }

    /// The text of each variant.
    pub open spec fn text_of(self) -> Seq<char> {
        match self {
            ReferencePriceType::None_ => "None"@,
            ReferencePriceType::Midpoint => "Midpoint"@,
            ReferencePriceType::BidOrAsk => "BidOrAsk"@,
        }
    }

    /// The text of the variant.
    pub fn to_string(&self) -> (r: String)
        ensures
            r@ == self.text_of(),
    {
        match self {
            ReferencePriceType::None_ => String::from_str("None"),
            ReferencePriceType::Midpoint => String::from_str("Midpoint"),
            ReferencePriceType::BidOrAsk => String::from_str("BidOrAsk"),
        }
    }
}

/// Trigger methods of stop orders.
#[derive(Clone, Copy, Debug, PartialEq, Eq)]
pub enum TriggerMethod {
    Default,
    DoubleBidAsk,
    Last,
    DoubleLast,
    BidAsk,
    LastOrBidAsk,
    Midpoint,
}

impl TriggerMethod {
    /// The number that stands for each variant on the wire.
    pub open spec fn code_of(self) -> int {
        match self {
            TriggerMethod::Default => 0,
            TriggerMethod::DoubleBidAsk => 1,
            TriggerMethod::Last => 2,
            TriggerMethod::DoubleLast => 3,
            TriggerMethod::BidAsk => 4,
            TriggerMethod::LastOrBidAsk => 5,
            TriggerMethod::Midpoint => 6,
        }
    }

    /// The variant that a number stands for, if any.
    pub open spec fn from_code(n: int) -> Option<TriggerMethod> {
        if n == 0 {
            Some(TriggerMethod::Default)
        } else if n == 1 {
            Some(TriggerMethod::DoubleBidAsk)
        } else if n == 2 {
            Some(TriggerMethod::Last)
        } else if n == 3 {
            Some(TriggerMethod::DoubleLast)
        } else if n == 4 {
            Some(TriggerMethod::BidAsk)
        } else if n == 5 {
            Some(TriggerMethod::LastOrBidAsk)
        } else if n == 6 {
            Some(TriggerMethod::Midpoint)
        } else {
            None
        }
    }

    /// The number of the variant; reading it back gives the variant again.
    pub fn to_i32(&self) -> (r: i32)
        ensures
            r == self.code_of(),
            TriggerMethod::from_code(r as int) == Some(*self),
    {
        match self {
            TriggerMethod::Default => 0,
            TriggerMethod::DoubleBidAsk => 1,
            TriggerMethod::Last => 2,
            TriggerMethod::DoubleLast => 3,
            TriggerMethod::BidAsk => 4,
            TriggerMethod::LastOrBidAsk => 5,
            TriggerMethod::Midpoint => 6,
        }
    }

    /// The variant that `n` stands for, if any.
    pub fn from_i32(n: i32) -> (r: Option<TriggerMethod>)
        ensures
            r == TriggerMethod::from_code(n as int),
    {
        match n {
            0 => Some(TriggerMethod::Default),
            1 => Some(TriggerMethod::DoubleBidAsk),
            2 => Some(TriggerMethod::Last),
            3 => Some(TriggerMethod::DoubleLast),
            4 => Some(TriggerMethod::BidAsk),
            5 => Some(TriggerMethod::LastOrBidAsk),
            6 => Some(TriggerMethod::Midpoint),
            _ => None,
        }
    }

    /// The text of each variant.
    pub open spec fn text_of(self) -> Seq<char> {
        match self {
            TriggerMethod::Default => "Default"@,
            TriggerMethod::DoubleBidAsk => "DoubleBidAsk"@,
            TriggerMethod::Last => "Last"@,
            TriggerMethod::DoubleLast => "DoubleLast"@,
            TriggerMethod::BidAsk => "BidAsk"@,
            TriggerMethod::LastOrBidAsk => "LastOrBidAsk"@,
            TriggerMethod::Midpoint => "Midpoint"@,
        }
    }

    /// The text of the variant.
    pub fn to_string(&self) -> (r: String)
        ensures
            r@ == self.text_of(),
    {
        match self {
            TriggerMethod::Default => String::from_str("Default"),
            TriggerMethod::DoubleBidAsk => String::from_str("DoubleBidAsk"),
            TriggerMethod::Last => String::from_str("Last"),
            TriggerMethod::DoubleLast => String::from_str("DoubleLast"),
            TriggerMethod::BidAsk => String::from_str("BidAsk"),
            TriggerMethod::LastOrBidAsk => String::from_str("LastOrBidAsk"),
            TriggerMethod::Midpoint => String::from_str("Midpoint"),
        }
    }
}

/// Order actions.
#[derive(Clone, Copy, Debug, PartialEq, Eq)]
pub enum Action {
    BUY,
    SELL,
    SSHORT,
}

impl Action {
    /// The number that stands for each variant on the wire.
    pub open spec fn code_of(self) -> int {
        match self {
            Action::BUY => 0,
            Action::SELL => 1,
            Action::SSHORT => 2,
        }
    }

    /// The variant that a number stands for, if any.
    pub open spec fn from_code(n: int) -> Option<Action> {
        if n == 0 {
            Some(Action::BUY)
        } else if n == 1 {
            Some(Action::SELL)
        } else if n == 2 {
            Some(Action::SSHORT)
        } else {
            None
        }
    }

    /// The number of the variant; reading it back gives the variant again.
    pub fn to_i32(&self) -> (r: i32)
        ensures
            r == self.code_of(),
            Action::from_code(r as int) == Some(*self),
    {
        match self {
            Action::BUY => 0,
            Action::SELL => 1,
            Action::SSHORT => 2,
        }
    }

    /// The variant that `n` stands for, if any.
    pub fn from_i32(n: i32) -> (r: Option<Action>)
        ensures
            r == Action::from_code(n as int),
    {
        match n {
            0 => Some(Action::BUY),
            1 => Some(Action::SELL),
            2 => Some(Action::SSHORT),
            _ => None,
        }
    }

    /// The text of each variant.
    pub open spec fn text_of(self) -> Seq<char> {
        match self {
            Action::BUY => "BUY"@,
            Action::SELL => "SELL"@,
            Action::SSHORT => "SSHORT"@,
        }
    }

    /// The text of the variant.
    pub fn to_string(&self) -> (r: String)
        ensures
            r@ == self.text_of(),
    {
        match self {
            Action::BUY => String::from_str("BUY"),
            Action::SELL => String::from_str("SELL"),
            Action::SSHORT => String::from_str("SSHORT"),
        }
    }
}

/// Rule 80A values.
#[derive(Clone, Copy, Debug, PartialEq, Eq)]
pub enum Rule80A {
    None_,
    Individual,
    Agency,
    AgentOtherMember,
    IndividualPTIA,
    AgencyPTIA,
    AgentOtherMemberPTIA,
    IndividualPT,
    AgencyPT,
    AgentOtherMemberPT,
}

impl Rule80A {
    /// The number that stands for each variant on the wire.
    pub open spec fn code_of(self) -> int {
        match self {
            Rule80A::None_ => 0,
            Rule80A::Individual => 1,
            Rule80A::Agency => 2,
            Rule80A::AgentOtherMember => 3,
            Rule80A::IndividualPTIA => 4,
            Rule80A::AgencyPTIA => 5,
            Rule80A::AgentOtherMemberPTIA => 6,
            Rule80A::IndividualPT => 7,
            Rule80A::AgencyPT => 8,
            Rule80A::AgentOtherMemberPT => 9,
        }
    }

    /// The variant that a number stands for, if any.
    pub open spec fn from_code(n: int) -> Option<Rule80A> {
        if n == 0 {
            Some(Rule80A::None_)
        } else if n == 1 {
            Some(Rule80A::Individual)
        } else if n == 2 {
            Some(Rule80A::Agency)
        } else if n == 3 {
            Some(Rule80A::AgentOtherMember)
        } else if n == 4 {
            Some(Rule80A::IndividualPTIA)
        } else if n == 5 {
            Some(Rule80A::AgencyPTIA)
        } else if n == 6 {
            Some(Rule80A::AgentOtherMemberPTIA)
        } else if n == 7 {
            Some(Rule80A::IndividualPT)
        } else if n == 8 {
            Some(Rule80A::AgencyPT)
        } else if n == 9 {
            Some(Rule80A::AgentOtherMemberPT)
        } else {
            None
        }
    }

    /// The number of the variant; reading it back gives the variant again.
    pub fn to_i32(&self) -> (r: i32)
        ensures
            r == self.code_of(),
            Rule80A::from_code(r as int) == Some(*self),
    {
        match self {
            Rule80A::None_ => 0,
            Rule80A::Individual => 1,
            Rule80A::Agency => 2,
            Rule80A::AgentOtherMember => 3,
            Rule80A::IndividualPTIA => 4,
            Rule80A::AgencyPTIA => 5,
            Rule80A::AgentOtherMemberPTIA => 6,
            Rule80A::IndividualPT => 7,
            Rule80A::AgencyPT => 8,
            Rule80A::AgentOtherMemberPT => 9,
        }
    }

    /// The variant that `n` stands for, if any.
    pub fn from_i32(n: i32) -> (r: Option<Rule80A>)
        ensures
            r == Rule80A::from_code(n as int),
    {
        match n {
            0 => Some(Rule80A::None_),
            1 => Some(Rule80A::Individual),
            2 => Some(Rule80A::Agency),
            3 => Some(Rule80A::AgentOtherMember),
            4 => Some(Rule80A::IndividualPTIA),
            5 => Some(Rule80A::AgencyPTIA),
            6 => Some(Rule80A::AgentOtherMemberPTIA),
            7 => Some(Rule80A::IndividualPT),
            8 => Some(Rule80A::AgencyPT),
            9 => Some(Rule80A::AgentOtherMemberPT),
            _ => None,
        }
    }

    /// The text of each variant.
    pub open spec fn text_of(self) -> Seq<char> {
        match self {
            Rule80A::None_ => ""@,
            Rule80A::Individual => "I"@,
            Rule80A::Agency => "A"@,
            Rule80A::AgentOtherMember => "W"@,
            Rule80A::IndividualPTIA => "J"@,
            Rule80A::AgencyPTIA => "U"@,
            Rule80A::AgentOtherMemberPTIA => "M"@,
            Rule80A::IndividualPT => "K"@,
            Rule80A::AgencyPT => "Y"@,
            Rule80A::AgentOtherMemberPT => "N"@,
        }
    }

    /// The text of the variant.
    pub fn to_string(&self) -> (r: String)
        ensures
            r@ == self.text_of(),
    {
        match self {
            Rule80A::None_ => String::from_str(""),
            Rule80A::Individual => String::from_str("I"),
            Rule80A::Agency => String::from_str("A"),
            Rule80A::AgentOtherMember => String::from_str("W"),
            Rule80A::IndividualPTIA => String::from_str("J"),
            Rule80A::AgencyPTIA => String::from_str("U"),
            Rule80A::AgentOtherMemberPTIA => String::from_str("M"),
            Rule80A::IndividualPT => String::from_str("K"),
            Rule80A::AgencyPT => String::from_str("Y"),
            Rule80A::AgentOtherMemberPT => String::from_str("N"),
        }
    }
}

/// One-cancels-all group types.
#[derive(Clone, Copy, Debug, PartialEq, Eq)]
pub enum OcaType {
    None_,
    CancelWithBlocking,
    ReduceWithBlocking,
    ReduceWithoutBlocking,
}

impl OcaType {
    /// The number that stands for each variant on the wire.
    pub open spec fn code_of(self) -> int {
        match self {
            OcaType::None_ => 0,
            OcaType::CancelWithBlocking => 1,
            OcaType::ReduceWithBlocking => 2,
            OcaType::ReduceWithoutBlocking => 3,
        }
    }

    /// The variant that a number stands for, if any.
    pub open spec fn from_code(n: int) -> Option<OcaType> {
        if n == 0 {
            Some(OcaType::None_)
        } else if n == 1 {
            Some(OcaType::CancelWithBlocking)
        } else if n == 2 {
            Some(OcaType::ReduceWithBlocking)
        } else if n == 3 {
            Some(OcaType::ReduceWithoutBlocking)
        } else {
            None
        }
    }

    /// The number of the variant; reading it back gives the variant again.
    pub fn to_i32(&self) -> (r: i32)
        ensures
            r == self.code_of(),
            OcaType::from_code(r as int) == Some(*self),
    {
        match self {
            OcaType::None_ => 0,
            OcaType::CancelWithBlocking => 1,
            OcaType::ReduceWithBlocking => 2,
            OcaType::ReduceWithoutBlocking => 3,
        }
    }

    /// The variant that `n` stands for, if any.
    pub fn from_i32(n: i32) -> (r: Option<OcaType>)
        ensures
            r == OcaType::from_code(n as int),
    {
        match n {
            0 => Some(OcaType::None_),
            1 => Some(OcaType::CancelWithBlocking),
            2 => Some(OcaType::ReduceWithBlocking),
            3 => Some(OcaType::ReduceWithoutBlocking),
            _ => None,
        }
    }

    /// The text of each variant.
    pub open spec fn text_of(self) -> Seq<char> {
        match self {
            OcaType::None_ => "None"@,
            OcaType::CancelWithBlocking => "CancelWithBlocking"@,
            OcaType::ReduceWithBlocking => "ReduceWithBlocking"@,
            OcaType::ReduceWithoutBlocking => "ReduceWithoutBlocking"@,
        }
    }

    /// The text of the variant.
    pub fn to_string(&self) -> (r: String)
        ensures
            r@ == self.text_of(),
    {
        match self {
            OcaType::None_ => String::from_str("None"),
            OcaType::CancelWithBlocking => String::from_str("CancelWithBlocking"),
            OcaType::ReduceWithBlocking => String::from_str("ReduceWithBlocking"),
            OcaType::ReduceWithoutBlocking => String::from_str("ReduceWithoutBlocking"),
        }
    }
}

/// Time in force of orders.
#[derive(Clone, Copy, Debug, PartialEq, Eq)]
pub enum TimeInForce {
    DAY,
    GTC,
    OPG,
    IOC,
    GTD,
    GTT,
    AUC,
    FOK,
    GTX,
    DTC,
}

impl TimeInForce {
    /// The number that stands for each variant on the wire.
    pub open spec fn code_of(self) -> int {
        match self {
            TimeInForce::DAY => 0,
            TimeInForce::GTC => 1,
            TimeInForce::OPG => 2,
            TimeInForce::IOC => 3,
            TimeInForce::GTD => 4,
            TimeInForce::GTT => 5,
            TimeInForce::AUC => 6,
            TimeInForce::FOK => 7,
            TimeInForce::GTX => 8,
            TimeInForce::DTC => 9,
        }
    }

    /// The variant that a number stands for, if any.
    pub open spec fn from_code(n: int) -> Option<TimeInForce> {
        if n == 0 {
            Some(TimeInForce::DAY)
        } else if n == 1 {
            Some(TimeInForce::GTC)
        } else if n == 2 {
            Some(TimeInForce::OPG)
        } else if n == 3 {
            Some(TimeInForce::IOC)
        } else if n == 4 {
            Some(TimeInForce::GTD)
        } else if n == 5 {
            Some(TimeInForce::GTT)
        } else if n == 6 {
            Some(TimeInForce::AUC)
        } else if n == 7 {
            Some(TimeInForce::FOK)
        } else if n == 8 {
            Some(TimeInForce::GTX)
        } else if n == 9 {
            Some(TimeInForce::DTC)
        } else {
            None
        }
    }

    /// The number of the variant; reading it back gives the variant again.
    pub fn to_i32(&self) -> (r: i32)
        ensures
            r == self.code_of(),
            TimeInForce::from_code(r as int) == Some(*self),
    {
        match self {
            TimeInForce::DAY => 0,
            TimeInForce::GTC => 1,
            TimeInForce::OPG => 2,
            TimeInForce::IOC => 3,
            TimeInForce::GTD => 4,
            TimeInForce::GTT => 5,
            TimeInForce::AUC => 6,
            TimeInForce::FOK => 7,
            TimeInForce::GTX => 8,
            TimeInForce::DTC => 9,
        }
    }

    /// The variant that `n` stands for, if any.
    pub fn from_i32(n: i32) -> (r: Option<TimeInForce>)
        ensures
            r == TimeInForce::from_code(n as int),
    {
        match n {
            0 => Some(TimeInForce::DAY),
            1 => Some(TimeInForce::GTC),
            2 => Some(TimeInForce::OPG),
            3 => Some(TimeInForce::IOC),
            4 => Some(TimeInForce::GTD),
            5 => Some(TimeInForce::GTT),
            6 => Some(TimeInForce::AUC),
            7 => Some(TimeInForce::FOK),
            8 => Some(TimeInForce::GTX),
            9 => Some(TimeInForce::DTC),
            _ => None,
        }
    }

    /// The text of each variant.
    pub open spec fn text_of(self) -> Seq<char> {
        match self {
            TimeInForce::DAY => "DAY"@,
            TimeInForce::GTC => "GTC"@,
            TimeInForce::OPG => "OPG"@,
            TimeInForce::IOC => "IOC"@,
            TimeInForce::GTD => "GTD"@,
            TimeInForce::GTT => "GTT"@,
            TimeInForce::AUC => "AUC"@,
            TimeInForce::FOK => "FOK"@,
            TimeInForce::GTX => "GTX"@,
            TimeInForce::DTC => "DTC"@,
        }
    }

    /// The text of the variant.
    pub fn to_string(&self) -> (r: String)
        ensures
            r@ == self.text_of(),
    {
        match self {
            TimeInForce::DAY => String::from_str("DAY"),
            TimeInForce::GTC => String::from_str("GTC"),
            TimeInForce::OPG => String::from_str("OPG"),
            TimeInForce::IOC => String::from_str("IOC"),
            TimeInForce::GTD => String::from_str("GTD"),
            TimeInForce::GTT => String::from_str("GTT"),
            TimeInForce::AUC => String::from_str("AUC"),
            TimeInForce::FOK => String::from_str("FOK"),
            TimeInForce::GTX => String::from_str("GTX"),
            TimeInForce::DTC => String::from_str("DTC"),
        }
    }
}

/// Option exercise types.
#[derive(Clone, Copy, Debug, PartialEq, Eq)]
pub enum ExerciseType {
    None_,
    Exercise,
    Lapse,
}

impl ExerciseType {
    /// The number that stands for each variant on the wire.
    pub open spec fn code_of(self) -> int {
        match self {
            ExerciseType::None_ => 0,
            ExerciseType::Exercise => 1,
            ExerciseType::Lapse => 2,
        }
    }

    /// The variant that a number stands for, if any.
    pub open spec fn from_code(n: int) -> Option<ExerciseType> {
        if n == 0 {
            Some(ExerciseType::None_)
        } else if n == 1 {
            Some(ExerciseType::Exercise)
        } else if n == 2 {
            Some(ExerciseType::Lapse)
        } else {
            None
        }
    }

    /// The number of the variant; reading it back gives the variant again.
    pub fn to_i32(&self) -> (r: i32)
        ensures
            r == self.code_of(),
            ExerciseType::from_code(r as int) == Some(*self),
    {
        match self {
            ExerciseType::None_ => 0,
            ExerciseType::Exercise => 1,
            ExerciseType::Lapse => 2,
        }
    }

    /// The variant that `n` stands for, if any.
    pub fn from_i32(n: i32) -> (r: Option<ExerciseType>)
        ensures
            r == ExerciseType::from_code(n as int),
    {
        match n {
            0 => Some(ExerciseType::None_),
            1 => Some(ExerciseType::Exercise),
            2 => Some(ExerciseType::Lapse),
            _ => None,
        }
    }

    /// The text of each variant.
    pub open spec fn text_of(self) -> Seq<char> {
        match self {
            ExerciseType::None_ => ""@,
            ExerciseType::Exercise => "Exercise"@,
            ExerciseType::Lapse => "Lapse"@,
        }
    }

    /// The text of the variant.
    pub fn to_string(&self) -> (r: String)
        ensures
            r@ == self.text_of(),
    {
        match self {
            ExerciseType::None_ => String::from_str(""),
            ExerciseType::Exercise => String::from_str("Exercise"),
            ExerciseType::Lapse => String::from_str("Lapse"),
        }
    }
}

/// Fundamental data report types.
#[derive(Clone, Copy, Debug, PartialEq, Eq)]
pub enum FundamentalType {
    ReportSnapshot,
    ReportsFinSummary,
    ReportRatios,
    ReportsFinStatements,
    RESC,
    CalendarReport,
    ReportsOwnership,
}

impl FundamentalType {
    /// The number that stands for each variant on the wire.
    pub open spec fn code_of(self) -> int {
        match self {
            FundamentalType::ReportSnapshot => 0,
            FundamentalType::ReportsFinSummary => 1,
            FundamentalType::ReportRatios => 2,
            FundamentalType::ReportsFinStatements => 3,
            FundamentalType::RESC => 4,
            FundamentalType::CalendarReport => 5,
            FundamentalType::ReportsOwnership => 6,
        }
    }

    /// The variant that a number stands for, if any.
    pub open spec fn from_code(n: int) -> Option<FundamentalType> {
        if n == 0 {
            Some(FundamentalType::ReportSnapshot)
        } else if n == 1 {
            Some(FundamentalType::ReportsFinSummary)
        } else if n == 2 {
            Some(FundamentalType::ReportRatios)
        } else if n == 3 {
            Some(FundamentalType::ReportsFinStatements)
        } else if n == 4 {
            Some(FundamentalType::RESC)
        } else if n == 5 {
            Some(FundamentalType::CalendarReport)
        } else if n == 6 {
            Some(FundamentalType::ReportsOwnership)
        } else {
            None
        }
    }

    /// The number of the variant; reading it back gives the variant again.
    pub fn to_i32(&self) -> (r: i32)
        ensures
            r == self.code_of(),
            FundamentalType::from_code(r as int) == Some(*self),
    {
        match self {
            FundamentalType::ReportSnapshot => 0,
            FundamentalType::ReportsFinSummary => 1,
            FundamentalType::ReportRatios => 2,
            FundamentalType::ReportsFinStatements => 3,
            FundamentalType::RESC => 4,
            FundamentalType::CalendarReport => 5,
            FundamentalType::ReportsOwnership => 6,
        }
    }

    /// The variant that `n` stands for, if any.
    pub fn from_i32(n: i32) -> (r: Option<FundamentalType>)
        ensures
            r == FundamentalType::from_code(n as int),
    {
        match n {
            0 => Some(FundamentalType::ReportSnapshot),
            1 => Some(FundamentalType::ReportsFinSummary),
            2 => Some(FundamentalType::ReportRatios),
            3 => Some(FundamentalType::ReportsFinStatements),
            4 => Some(FundamentalType::RESC),
            5 => Some(FundamentalType::CalendarReport),
            6 => Some(FundamentalType::ReportsOwnership),
            _ => None,
        }
    }

    /// The text of each variant.
    pub open spec fn text_of(self) -> Seq<char> {
        match self {
            FundamentalType::ReportSnapshot => "Company overview"@,
            FundamentalType::ReportsFinSummary => "Financial summary"@,
            FundamentalType::ReportRatios => "Financial ratios"@,
            FundamentalType::ReportsFinStatements => "Financial statements"@,
            FundamentalType::RESC => "Analyst estimates"@,
            FundamentalType::CalendarReport => "Company calendar"@,
            FundamentalType::ReportsOwnership => "Company ownership"@,
        }
    }

    /// The text of the variant.
    pub fn to_string(&self) -> (r: String)
        ensures
            r@ == self.text_of(),
    {
        match self {
            FundamentalType::ReportSnapshot => String::from_str("Company overview"),
            FundamentalType::ReportsFinSummary => String::from_str("Financial summary"),
            FundamentalType::ReportRatios => String::from_str("Financial ratios"),
            FundamentalType::ReportsFinStatements => String::from_str("Financial statements"),
            FundamentalType::RESC => String::from_str("Analyst estimates"),
            FundamentalType::CalendarReport => String::from_str("Company calendar"),
            FundamentalType::ReportsOwnership => String::from_str("Company ownership"),
        }
    }
}

/// Kinds of historical data.
#[derive(Clone, Copy, Debug, PartialEq, Eq)]
pub enum WhatToShow {
    Trades,
    Midpoint,
    Bid,
    Ask,
    BidAsk,
    HistoricalVolatility,
    OptionImpliedVolatility,
    YieldAsk,
    YieldBid,
    YieldBidAsk,
    YieldLast,
    AdjustedLast,
}

impl WhatToShow {
    /// The number that stands for each variant on the wire.
    pub open spec fn code_of(self) -> int {
        match self {
            WhatToShow::Trades => 0,
            WhatToShow::Midpoint => 1,
            WhatToShow::Bid => 2,
            WhatToShow::Ask => 3,
            WhatToShow::BidAsk => 4,
            WhatToShow::HistoricalVolatility => 5,
            WhatToShow::OptionImpliedVolatility => 6,
            WhatToShow::YieldAsk => 7,
            WhatToShow::YieldBid => 8,
            WhatToShow::YieldBidAsk => 9,
            WhatToShow::YieldLast => 10,
            WhatToShow::AdjustedLast => 11,
        }
    }

    /// The variant that a number stands for, if any.
    pub open spec fn from_code(n: int) -> Option<WhatToShow> {
        if n == 0 {
            Some(WhatToShow::Trades)
        } else if n == 1 {
            Some(WhatToShow::Midpoint)
        } else if n == 2 {
            Some(WhatToShow::Bid)
        } else if n == 3 {
            Some(WhatToShow::Ask)
        } else if n == 4 {
            Some(WhatToShow::BidAsk)
        } else if n == 5 {
            Some(WhatToShow::HistoricalVolatility)
        } else if n == 6 {
            Some(WhatToShow::OptionImpliedVolatility)
        } else if n == 7 {
            Some(WhatToShow::YieldAsk)
        } else if n == 8 {
            Some(WhatToShow::YieldBid)
        } else if n == 9 {
            Some(WhatToShow::YieldBidAsk)
        } else if n == 10 {
            Some(WhatToShow::YieldLast)
        } else if n == 11 {
            Some(WhatToShow::AdjustedLast)
        } else {
            None
        }
    }

    /// The number of the variant; reading it back gives the variant again.
    pub fn to_i32(&self) -> (r: i32)
        ensures
            r == self.code_of(),
            WhatToShow::from_code(r as int) == Some(*self),
    {
        match self {
            WhatToShow::Trades => 0,
            WhatToShow::Midpoint => 1,
            WhatToShow::Bid => 2,
            WhatToShow::Ask => 3,
            WhatToShow::BidAsk => 4,
            WhatToShow::HistoricalVolatility => 5,
            WhatToShow::OptionImpliedVolatility => 6,
            WhatToShow::YieldAsk => 7,
            WhatToShow::YieldBid => 8,
            WhatToShow::YieldBidAsk => 9,
            WhatToShow::YieldLast => 10,
            WhatToShow::AdjustedLast => 11,
        }
    }

    /// The variant that `n` stands for, if any.
    pub fn from_i32(n: i32) -> (r: Option<WhatToShow>)
        ensures
            r == WhatToShow::from_code(n as int),
    {
        match n {
            0 => Some(WhatToShow::Trades),
            1 => Some(WhatToShow::Midpoint),
            2 => Some(WhatToShow::Bid),
            3 => Some(WhatToShow::Ask),
            4 => Some(WhatToShow::BidAsk),
            5 => Some(WhatToShow::HistoricalVolatility),
            6 => Some(WhatToShow::OptionImpliedVolatility),
            7 => Some(WhatToShow::YieldAsk),
            8 => Some(WhatToShow::YieldBid),
            9 => Some(WhatToShow::YieldBidAsk),
            10 => Some(WhatToShow::YieldLast),
            11 => Some(WhatToShow::AdjustedLast),
            _ => None,
        }
    }

    /// The text of each variant.
    pub open spec fn text_of(self) -> Seq<char> {
        match self {
            WhatToShow::Trades => "TRADES"@,
            WhatToShow::Midpoint => "MIDPOINT"@,
            WhatToShow::Bid => "BID"@,
            WhatToShow::Ask => "ASK"@,
            WhatToShow::BidAsk => "BID_ASK"@,
            WhatToShow::HistoricalVolatility => "HISTORICAL_VOLATILITY"@,
            WhatToShow::OptionImpliedVolatility => "OPTION_IMPLIED_VOLATILITY"@,
            WhatToShow::YieldAsk => "YIELD_ASK"@,
            WhatToShow::YieldBid => "YIELD_ASK"@,
            WhatToShow::YieldBidAsk => "YIELD_BID_ASK"@,
            WhatToShow::YieldLast => "YIELD_LAST"@,
            WhatToShow::AdjustedLast => "ADJUSTED_LAST"@,
        }
    }

    /// The text of the variant.
    pub fn to_string(&self) -> (r: String)
        ensures
            r@ == self.text_of(),
    {
        match self {
            WhatToShow::Trades => String::from_str("TRADES"),
            WhatToShow::Midpoint => String::from_str("MIDPOINT"),
            WhatToShow::Bid => String::from_str("BID"),
            WhatToShow::Ask => String::from_str("ASK"),
            WhatToShow::BidAsk => String::from_str("BID_ASK"),
            WhatToShow::HistoricalVolatility => String::from_str("HISTORICAL_VOLATILITY"),
            WhatToShow::OptionImpliedVolatility => String::from_str("OPTION_IMPLIED_VOLATILITY"),
            WhatToShow::YieldAsk => String::from_str("YIELD_ASK"),
            WhatToShow::YieldBid => String::from_str("YIELD_ASK"),
            WhatToShow::YieldBidAsk => String::from_str("YIELD_BID_ASK"),
            WhatToShow::YieldLast => String::from_str("YIELD_LAST"),
            WhatToShow::AdjustedLast => String::from_str("ADJUSTED_LAST"),
        }
    }
}

/// Bar sizes of historical data.
#[derive(Clone, Copy, Debug, PartialEq, Eq)]
pub enum BarSize {
    _1Secs,
    _5Secs,
    _10Secs,
    _15Secs,
    _30Secs,
    _1Min,
    _2Mins,
    _3Mins,
    _5Mins,
    _10Mins,
    _15Mins,
    _20Mins,
    _30Mins,
    _1Hour,
    _4Hours,
    _1Day,
    _1Week,
    _1Month,
}

impl BarSize {
    /// The number that stands for each variant on the wire.
    pub open spec fn code_of(self) -> int {
        match self {
            BarSize::_1Secs => 0,
            BarSize::_5Secs => 1,
            BarSize::_10Secs => 2,
            BarSize::_15Secs => 3,
            BarSize::_30Secs => 4,
            BarSize::_1Min => 5,
            BarSize::_2Mins => 6,
            BarSize::_3Mins => 7,
            BarSize::_5Mins => 8,
            BarSize::_10Mins => 9,
            BarSize::_15Mins => 10,
            BarSize::_20Mins => 11,
            BarSize::_30Mins => 12,
            BarSize::_1Hour => 13,
            BarSize::_4Hours => 14,
            BarSize::_1Day => 15,
            BarSize::_1Week => 16,
            BarSize::_1Month => 17,
        }
    }

    /// The variant that a number stands for, if any.
    pub open spec fn from_code(n: int) -> Option<BarSize> {
        if n == 0 {
            Some(BarSize::_1Secs)
        } else if n == 1 {
            Some(BarSize::_5Secs)
        } else if n == 2 {
            Some(BarSize::_10Secs)
        } else if n == 3 {
            Some(BarSize::_15Secs)
        } else if n == 4 {
            Some(BarSize::_30Secs)
        } else if n == 5 {
            Some(BarSize::_1Min)
        } else if n == 6 {
            Some(BarSize::_2Mins)
        } else if n == 7 {
            Some(BarSize::_3Mins)
        } else if n == 8 {
            Some(BarSize::_5Mins)
        } else if n == 9 {
            Some(BarSize::_10Mins)
        } else if n == 10 {
            Some(BarSize::_15Mins)
        } else if n == 11 {
            Some(BarSize::_20Mins)
        } else if n == 12 {
            Some(BarSize::_30Mins)
        } else if n == 13 {
            Some(BarSize::_1Hour)
        } else if n == 14 {
            Some(BarSize::_4Hours)
        } else if n == 15 {
            Some(BarSize::_1Day)
        } else if n == 16 {
            Some(BarSize::_1Week)
        } else if n == 17 {
            Some(BarSize::_1Month)
        } else {
            None
        }
    }

    /// The number of the variant; reading it back gives the variant again.
    pub fn to_i32(&self) -> (r: i32)
        ensures
            r == self.code_of(),
            BarSize::from_code(r as int) == Some(*self),
    {
        match self {
            BarSize::_1Secs => 0,
            BarSize::_5Secs => 1,
            BarSize::_10Secs => 2,
            BarSize::_15Secs => 3,
            BarSize::_30Secs => 4,
            BarSize::_1Min => 5,
            BarSize::_2Mins => 6,
            BarSize::_3Mins => 7,
            BarSize::_5Mins => 8,
            BarSize::_10Mins => 9,
            BarSize::_15Mins => 10,
            BarSize::_20Mins => 11,
            BarSize::_30Mins => 12,
            BarSize::_1Hour => 13,
            BarSize::_4Hours => 14,
            BarSize::_1Day => 15,
            BarSize::_1Week => 16,
            BarSize::_1Month => 17,
        }
    }

    /// The variant that `n` stands for, if any.
    pub fn from_i32(n: i32) -> (r: Option<BarSize>)
        ensures
            r == BarSize::from_code(n as int),
    {
        match n {
            0 => Some(BarSize::_1Secs),
            1 => Some(BarSize::_5Secs),
            2 => Some(BarSize::_10Secs),
            3 => Some(BarSize::_15Secs),
            4 => Some(BarSize::_30Secs),
            5 => Some(BarSize::_1Min),
            6 => Some(BarSize::_2Mins),
            7 => Some(BarSize::_3Mins),
            8 => Some(BarSize::_5Mins),
            9 => Some(BarSize::_10Mins),
            10 => Some(BarSize::_15Mins),
            11 => Some(BarSize::_20Mins),
            12 => Some(BarSize::_30Mins),
            13 => Some(BarSize::_1Hour),
            14 => Some(BarSize::_4Hours),
            15 => Some(BarSize::_1Day),
            16 => Some(BarSize::_1Week),
            17 => Some(BarSize::_1Month),
            _ => None,
        }
    }

    /// The text of each variant.
    pub open spec fn text_of(self) -> Seq<char> {
        match self {
            BarSize::_1Secs => "1 secs"@,
            BarSize::_5Secs => "5 secs"@,
            BarSize::_10Secs => "10 secs"@,
            BarSize::_15Secs => "15 secs"@,
            BarSize::_30Secs => "30 secs"@,
            BarSize::_1Min => "1 min"@,
            BarSize::_2Mins => "2 mins"@,
            BarSize::_3Mins => "3 mins"@,
            BarSize::_5Mins => "5 mins"@,
            BarSize::_10Mins => "10 mins"@,
            BarSize::_15Mins => "15 mins"@,
            BarSize::_20Mins => "20 mins"@,
            BarSize::_30Mins => "30 mins"@,
            BarSize::_1Hour => "1 hour"@,
            BarSize::_4Hours => "4 hours"@,
            BarSize::_1Day => "1 day"@,
            BarSize::_1Week => "1 week"@,
            BarSize::_1Month => "1 month"@,
        }
    }

    /// The text of the variant.
    pub fn to_string(&self) -> (r: String)
        ensures
            r@ == self.text_of(),
    {
        match self {
            BarSize::_1Secs => String::from_str("1 secs"),
            BarSize::_5Secs => String::from_str("5 secs"),
            BarSize::_10Secs => String::from_str("10 secs"),
            BarSize::_15Secs => String::from_str("15 secs"),
            BarSize::_30Secs => String::from_str("30 secs"),
            BarSize::_1Min => String::from_str("1 min"),
            BarSize::_2Mins => String::from_str("2 mins"),
            BarSize::_3Mins => String::from_str("3 mins"),
            BarSize::_5Mins => String::from_str("5 mins"),
            BarSize::_10Mins => String::from_str("10 mins"),
            BarSize::_15Mins => String::from_str("15 mins"),
            BarSize::_20Mins => String::from_str("20 mins"),
            BarSize::_30Mins => String::from_str("30 mins"),
            BarSize::_1Hour => String::from_str("1 hour"),
            BarSize::_4Hours => String::from_str("4 hours"),
            BarSize::_1Day => String::from_str("1 day"),
            BarSize::_1Week => String::from_str("1 week"),
            BarSize::_1Month => String::from_str("1 month"),
        }
    }
}

/// Duration units of historical data.
#[derive(Clone, Copy, Debug, PartialEq, Eq)]
pub enum DurationUnit {
    SECOND,
    DAY,
    WEEK,
    MONTH,
    YEAR,
}

impl DurationUnit {
    /// The number that stands for each variant on the wire.
    pub open spec fn code_of(self) -> int {
        match self {
            DurationUnit::SECOND => 0,
            DurationUnit::DAY => 1,
            DurationUnit::WEEK => 2,
            DurationUnit::MONTH => 3,
            DurationUnit::YEAR => 4,
        }
    }

    /// The variant that a number stands for, if any.
    pub open spec fn from_code(n: int) -> Option<DurationUnit> {
        if n == 0 {
            Some(DurationUnit::SECOND)
        } else if n == 1 {
            Some(DurationUnit::DAY)
        } else if n == 2 {
            Some(DurationUnit::WEEK)
        } else if n == 3 {
            Some(DurationUnit::MONTH)
        } else if n == 4 {
            Some(DurationUnit::YEAR)
        } else {
            None
        }
    }

    /// The number of the variant; reading it back gives the variant again.
    pub fn to_i32(&self) -> (r: i32)
        ensures
            r == self.code_of(),
            DurationUnit::from_code(r as int) == Some(*self),
    {
        match self {
            DurationUnit::SECOND => 0,
            DurationUnit::DAY => 1,
            DurationUnit::WEEK => 2,
            DurationUnit::MONTH => 3,
            DurationUnit::YEAR => 4,
        }
    }

    /// The variant that `n` stands for, if any.
    pub fn from_i32(n: i32) -> (r: Option<DurationUnit>)
        ensures
            r == DurationUnit::from_code(n as int),
    {
        match n {
            0 => Some(DurationUnit::SECOND),
            1 => Some(DurationUnit::DAY),
            2 => Some(DurationUnit::WEEK),
            3 => Some(DurationUnit::MONTH),
            4 => Some(DurationUnit::YEAR),
            _ => None,
        }
    }

    /// The text of each variant.
    pub open spec fn text_of(self) -> Seq<char> {
        match self {
            DurationUnit::SECOND => "SECOND"@,
            DurationUnit::DAY => "DAY"@,
            DurationUnit::WEEK => "WEEK"@,
            DurationUnit::MONTH => "MONTH"@,
            DurationUnit::YEAR => "YEAR"@,
        }
    }

    /// The text of the variant.
    pub fn to_string(&self) -> (r: String)
        ensures
            r@ == self.text_of(),
    {
        match self {
            DurationUnit::SECOND => String::from_str("SECOND"),
            DurationUnit::DAY => String::from_str("DAY"),
            DurationUnit::WEEK => String::from_str("WEEK"),
            DurationUnit::MONTH => String::from_str("MONTH"),
            DurationUnit::YEAR => String::from_str("YEAR"),
        }
    }
}

/// Market depth operations.
#[derive(Clone, Copy, Debug, PartialEq, Eq)]
pub enum DeepType {
    INSERT,
    UPDATE,
    DELETE,
}

impl DeepType {
    /// The number that stands for each variant on the wire.
    pub open spec fn code_of(self) -> int {
        match self {
            DeepType::INSERT => 0,
            DeepType::UPDATE => 1,
            DeepType::DELETE => 2,
        }
    }

    /// The variant that a number stands for, if any.
    pub open spec fn from_code(n: int) -> Option<DeepType> {
        if n == 0 {
            Some(DeepType::INSERT)
        } else if n == 1 {
            Some(DeepType::UPDATE)
        } else if n == 2 {
            Some(DeepType::DELETE)
        } else {
            None
        }
    }

    /// The number of the variant; reading it back gives the variant again.
    pub fn to_i32(&self) -> (r: i32)
        ensures
            r == self.code_of(),
            DeepType::from_code(r as int) == Some(*self),
    {
        match self {
            DeepType::INSERT => 0,
            DeepType::UPDATE => 1,
            DeepType::DELETE => 2,
        }
    }

    /// The variant that `n` stands for, if any.
    pub fn from_i32(n: i32) -> (r: Option<DeepType>)
        ensures
            r == DeepType::from_code(n as int),
    {
        match n {
            0 => Some(DeepType::INSERT),
            1 => Some(DeepType::UPDATE),
            2 => Some(DeepType::DELETE),
            _ => None,
        }
    }

    /// The text of each variant.
    pub open spec fn text_of(self) -> Seq<char> {
        match self {
            DeepType::INSERT => "INSERT"@,
            DeepType::UPDATE => "UPDATE"@,
            DeepType::DELETE => "DELETE"@,
        }
    }

    /// The text of the variant.
    pub fn to_string(&self) -> (r: String)
        ensures
            r@ == self.text_of(),
    {
        match self {
            DeepType::INSERT => String::from_str("INSERT"),
            DeepType::UPDATE => String::from_str("UPDATE"),
            DeepType::DELETE => String::from_str("DELETE"),
        }
    }
}

/// Market depth sides.
#[derive(Clone, Copy, Debug, PartialEq, Eq)]
pub enum DeepSide {
    Sell,
    Buy,
}

impl DeepSide {
    /// The number that stands for each variant on the wire.
    pub open spec fn code_of(self) -> int {
        match self {
            DeepSide::Sell => 0,
            DeepSide::Buy => 1,
        }
    }

    /// The variant that a number stands for, if any.
    pub open spec fn from_code(n: int) -> Option<DeepSide> {
        if n == 0 {
            Some(DeepSide::Sell)
        } else if n == 1 {
            Some(DeepSide::Buy)
        } else {
            None
        }
    }

    /// The number of the variant; reading it back gives the variant again.
    pub fn to_i32(&self) -> (r: i32)
        ensures
            r == self.code_of(),
            DeepSide::from_code(r as int) == Some(*self),
    {
        match self {
            DeepSide::Sell => 0,
            DeepSide::Buy => 1,
        }
    }

    /// The variant that `n` stands for, if any.
    pub fn from_i32(n: i32) -> (r: Option<DeepSide>)
        ensures
            r == DeepSide::from_code(n as int),
    {
        match n {
            0 => Some(DeepSide::Sell),
            1 => Some(DeepSide::Buy),
            _ => None,
        }
    }

    /// The text of each variant.
    pub open spec fn text_of(self) -> Seq<char> {
        match self {
            DeepSide::Sell => "SELL"@,
            DeepSide::Buy => "BUY"@,
        }
    }

    /// The text of the variant.
    pub fn to_string(&self) -> (r: String)
        ensures
            r@ == self.text_of(),
    {
        match self {
            DeepSide::Sell => String::from_str("SELL"),
            DeepSide::Buy => String::from_str("BUY"),
        }
    }
}

/// News types.
#[derive(Clone, Copy, Debug, PartialEq, Eq)]
pub enum NewsType {
    Unknown,
    BBS,
    LiveExch,
    DeadExch,
    HTML,
    PopupText,
    PopupHtml,
}

impl NewsType {
    /// The number that stands for each variant on the wire.
    pub open spec fn code_of(self) -> int {
        match self {
            NewsType::Unknown => 0,
            NewsType::BBS => 1,
            NewsType::LiveExch => 2,
            NewsType::DeadExch => 3,
            NewsType::HTML => 4,
            NewsType::PopupText => 5,
            NewsType::PopupHtml => 6,
        }
    }

    /// The variant that a number stands for, if any.
    pub open spec fn from_code(n: int) -> Option<NewsType> {
        if n == 0 {
            Some(NewsType::Unknown)
        } else if n == 1 {
            Some(NewsType::BBS)
        } else if n == 2 {
            Some(NewsType::LiveExch)
        } else if n == 3 {
            Some(NewsType::DeadExch)
        } else if n == 4 {
            Some(NewsType::HTML)
        } else if n == 5 {
            Some(NewsType::PopupText)
        } else if n == 6 {
            Some(NewsType::PopupHtml)
        } else {
            None
        }
    }

    /// The number of the variant; reading it back gives the variant again.
    pub fn to_i32(&self) -> (r: i32)
        ensures
            r == self.code_of(),
            NewsType::from_code(r as int) == Some(*self),
    {
        match self {
            NewsType::Unknown => 0,
            NewsType::BBS => 1,
            NewsType::LiveExch => 2,
            NewsType::DeadExch => 3,
            NewsType::HTML => 4,
            NewsType::PopupText => 5,
            NewsType::PopupHtml => 6,
        }
    }

    /// The variant that `n` stands for, if any.
    pub fn from_i32(n: i32) -> (r: Option<NewsType>)
        ensures
            r == NewsType::from_code(n as int),
    {
        match n {
            0 => Some(NewsType::Unknown),
            1 => Some(NewsType::BBS),
            2 => Some(NewsType::LiveExch),
            3 => Some(NewsType::DeadExch),
            4 => Some(NewsType::HTML),
            5 => Some(NewsType::PopupText),
            6 => Some(NewsType::PopupHtml),
            _ => None,
        }
    }

    /// The text of each variant.
    pub open spec fn text_of(self) -> Seq<char> {
        match self {
            NewsType::Unknown => "UNKNOWN"@,
            NewsType::BBS => "BBS"@,
            NewsType::LiveExch => "LIVE_EXCH"@,
            NewsType::DeadExch => "DEAD_EXCH"@,
            NewsType::HTML => "HTML"@,
            NewsType::PopupText => "POPUP_TEXT"@,
            NewsType::PopupHtml => "POPUP_HTML"@,
        }
    }

    /// The text of the variant.
    pub fn to_string(&self) -> (r: String)
        ensures
            r@ == self.text_of(),
    {
        match self {
            NewsType::Unknown => String::from_str("UNKNOWN"),
            NewsType::BBS => String::from_str("BBS"),
            NewsType::LiveExch => String::from_str("LIVE_EXCH"),
            NewsType::DeadExch => String::from_str("DEAD_EXCH"),
            NewsType::HTML => String::from_str("HTML"),
            NewsType::PopupText => String::from_str("POPUP_TEXT"),
            NewsType::PopupHtml => String::from_str("POPUP_HTML"),
        }
    }
}

/// Security identifier types.
#[derive(Clone, Copy, Debug, PartialEq, Eq)]
pub enum SecIdType {
    None_,
    CUSIP,
    SEDOL,
    ISIN,
    RIC,
}

impl SecIdType {
    /// The number that stands for each variant on the wire.
    pub open spec fn code_of(self) -> int {
        match self {
            SecIdType::None_ => 0,
            SecIdType::CUSIP => 1,
            SecIdType::SEDOL => 2,
            SecIdType::ISIN => 3,
            SecIdType::RIC => 4,
        }
    }

    /// The variant that a number stands for, if any.
    pub open spec fn from_code(n: int) -> Option<SecIdType> {
        if n == 0 {
            Some(SecIdType::None_)
        } else if n == 1 {
            Some(SecIdType::CUSIP)
        } else if n == 2 {
            Some(SecIdType::SEDOL)
        } else if n == 3 {
            Some(SecIdType::ISIN)
        } else if n == 4 {
            Some(SecIdType::RIC)
        } else {
            None
        }
    }

    /// The number of the variant; reading it back gives the variant again.
    pub fn to_i32(&self) -> (r: i32)
        ensures
            r == self.code_of(),
            SecIdType::from_code(r as int) == Some(*self),
    {
        match self {
            SecIdType::None_ => 0,
            SecIdType::CUSIP => 1,
            SecIdType::SEDOL => 2,
            SecIdType::ISIN => 3,
            SecIdType::RIC => 4,
        }
    }

    /// The variant that `n` stands for, if any.
    pub fn from_i32(n: i32) -> (r: Option<SecIdType>)
        ensures
            r == SecIdType::from_code(n as int),
    {
        match n {
            0 => Some(SecIdType::None_),
            1 => Some(SecIdType::CUSIP),
            2 => Some(SecIdType::SEDOL),
            3 => Some(SecIdType::ISIN),
            4 => Some(SecIdType::RIC),
            _ => None,
        }
    }

    /// The text of each variant.
    pub open spec fn text_of(self) -> Seq<char> {
        match self {
            SecIdType::None_ => ""@,
            SecIdType::CUSIP => "CUSIP"@,
            SecIdType::SEDOL => "SEDOL"@,
            SecIdType::ISIN => "ISIN"@,
            SecIdType::RIC => "RIC"@,
        }
    }

    /// The text of the variant.
    pub fn to_string(&self) -> (r: String)
        ensures
            r@ == self.text_of(),
    {
        match self {
            SecIdType::None_ => String::from_str(""),
            SecIdType::CUSIP => String::from_str("CUSIP"),
            SecIdType::SEDOL => String::from_str("SEDOL"),
            SecIdType::ISIN => String::from_str("ISIN"),
            SecIdType::RIC => String::from_str("RIC"),
        }
    }
}

/// Security types.
#[derive(Clone, Copy, Debug, PartialEq, Eq)]
pub enum SecType {
    None_,
    STK,
    OPT,
    FUT,
    CONTFUT,
    CASH,
    BOND,
    CFD,
    FOP,
    WAR,
    IOPT,
    FWD,
    BAG,
    IND,
    BILL,
    FUND,
    FIXED,
    SLB,
    NEWS,
    CMDTY,
    BSK,
    ICU,
    ICS,
}

impl SecType {
    /// The number that stands for each variant on the wire.
    pub open spec fn code_of(self) -> int {
        match self {
            SecType::None_ => 0,
            SecType::STK => 1,
            SecType::OPT => 2,
            SecType::FUT => 3,
            SecType::CONTFUT => 4,
            SecType::CASH => 5,
            SecType::BOND => 6,
            SecType::CFD => 7,
            SecType::FOP => 8,
            SecType::WAR => 9,
            SecType::IOPT => 10,
            SecType::FWD => 11,
            SecType::BAG => 12,
            SecType::IND => 13,
            SecType::BILL => 14,
            SecType::FUND => 15,
            SecType::FIXED => 16,
            SecType::SLB => 17,
            SecType::NEWS => 18,
            SecType::CMDTY => 19,
            SecType::BSK => 20,
            SecType::ICU => 21,
            SecType::ICS => 22,
        }
    }

    /// The variant that a number stands for, if any.
    pub open spec fn from_code(n: int) -> Option<SecType> {
        if n == 0 {
            Some(SecType::None_)
        } else if n == 1 {
            Some(SecType::STK)
        } else if n == 2 {
            Some(SecType::OPT)
        } else if n == 3 {
            Some(SecType::FUT)
        } else if n == 4 {
            Some(SecType::CONTFUT)
        } else if n == 5 {
            Some(SecType::CASH)
        } else if n == 6 {
            Some(SecType::BOND)
        } else if n == 7 {
            Some(SecType::CFD)
        } else if n == 8 {
            Some(SecType::FOP)
        } else if n == 9 {
            Some(SecType::WAR)
        } else if n == 10 {
            Some(SecType::IOPT)
        } else if n == 11 {
            Some(SecType::FWD)
        } else if n == 12 {
            Some(SecType::BAG)
        } else if n == 13 {
            Some(SecType::IND)
        } else if n == 14 {
            Some(SecType::BILL)
        } else if n == 15 {
            Some(SecType::FUND)
        } else if n == 16 {
            Some(SecType::FIXED)
        } else if n == 17 {
            Some(SecType::SLB)
        } else if n == 18 {
            Some(SecType::NEWS)
        } else if n == 19 {
            Some(SecType::CMDTY)
        } else if n == 20 {
            Some(SecType::BSK)
        } else if n == 21 {
            Some(SecType::ICU)
        } else if n == 22 {
            Some(SecType::ICS)
        } else {
            None
        }
    }

    /// The number of the variant; reading it back gives the variant again.
    pub fn to_i32(&self) -> (r: i32)
        ensures
            r == self.code_of(),
            SecType::from_code(r as int) == Some(*self),
    {
        match self {
            SecType::None_ => 0,
            SecType::STK => 1,
            SecType::OPT => 2,
            SecType::FUT => 3,
            SecType::CONTFUT => 4,
            SecType::CASH => 5,
            SecType::BOND => 6,
            SecType::CFD => 7,
            SecType::FOP => 8,
            SecType::WAR => 9,
            SecType::IOPT => 10,
            SecType::FWD => 11,
            SecType::BAG => 12,
            SecType::IND => 13,
            SecType::BILL => 14,
            SecType::FUND => 15,
            SecType::FIXED => 16,
            SecType::SLB => 17,
            SecType::NEWS => 18,
            SecType::CMDTY => 19,
            SecType::BSK => 20,
            SecType::ICU => 21,
            SecType::ICS => 22,
        }
    }

    /// The variant that `n` stands for, if any.
    pub fn from_i32(n: i32) -> (r: Option<SecType>)
        ensures
            r == SecType::from_code(n as int),
    {
        match n {
            0 => Some(SecType::None_),
            1 => Some(SecType::STK),
            2 => Some(SecType::OPT),
            3 => Some(SecType::FUT),
            4 => Some(SecType::CONTFUT),
            5 => Some(SecType::CASH),
            6 => Some(SecType::BOND),
            7 => Some(SecType::CFD),
            8 => Some(SecType::FOP),
            9 => Some(SecType::WAR),
            10 => Some(SecType::IOPT),
            11 => Some(SecType::FWD),
            12 => Some(SecType::BAG),
            13 => Some(SecType::IND),
            14 => Some(SecType::BILL),
            15 => Some(SecType::FUND),
            16 => Some(SecType::FIXED),
            17 => Some(SecType::SLB),
            18 => Some(SecType::NEWS),
            19 => Some(SecType::CMDTY),
            20 => Some(SecType::BSK),
            21 => Some(SecType::ICU),
            22 => Some(SecType::ICS),
            _ => None,
        }
    }

    /// The text of each variant.
    pub open spec fn text_of(self) -> Seq<char> {
        match self {
            SecType::None_ => ""@,
            SecType::STK => "STK"@,
            SecType::OPT => "OPT"@,
            SecType::FUT => "FUT"@,
            SecType::CONTFUT => "CONTFUT"@,
            SecType::CASH => "CASH"@,
            SecType::BOND => "BOND"@,
            SecType::CFD => "CFD"@,
            SecType::FOP => "FOP"@,
            SecType::WAR => "WAR"@,
            SecType::IOPT => "IOPT"@,
            SecType::FWD => "FWD"@,
            SecType::BAG => "BAG"@,
            SecType::IND => "IND"@,
            SecType::BILL => "BILL"@,
            SecType::FUND => "FUND"@,
            SecType::FIXED => "FIXED"@,
            SecType::SLB => "SLB"@,
            SecType::NEWS => "NEWS"@,
            SecType::CMDTY => "CMDTY"@,
            SecType::BSK => "BSK"@,
            SecType::ICU => "ICU"@,
            SecType::ICS => "ICS"@,
        }
    }

    /// The text of the variant.
    pub fn to_string(&self) -> (r: String)
        ensures
            r@ == self.text_of(),
    {
        match self {
            SecType::None_ => String::from_str(""),
            SecType::STK => String::from_str("STK"),
            SecType::OPT => String::from_str("OPT"),
            SecType::FUT => String::from_str("FUT"),
            SecType::CONTFUT => String::from_str("CONTFUT"),
            SecType::CASH => String::from_str("CASH"),
            SecType::BOND => String::from_str("BOND"),
            SecType::CFD => String::from_str("CFD"),
            SecType::FOP => String::from_str("FOP"),
            SecType::WAR => String::from_str("WAR"),
            SecType::IOPT => String::from_str("IOPT"),
            SecType::FWD => String::from_str("FWD"),
            SecType::BAG => String::from_str("BAG"),
            SecType::IND => String::from_str("IND"),
            SecType::BILL => String::from_str("BILL"),
            SecType::FUND => String::from_str("FUND"),
            SecType::FIXED => String::from_str("FIXED"),
            SecType::SLB => String::from_str("SLB"),
            SecType::NEWS => String::from_str("NEWS"),
            SecType::CMDTY => String::from_str("CMDTY"),
            SecType::BSK => String::from_str("BSK"),
            SecType::ICU => String::from_str("ICU"),
            SecType::ICS => String::from_str("ICS"),
        }
    }
}

/// Market data types.
#[derive(Clone, Copy, Debug, PartialEq, Eq)]
pub enum MarketDataTypeEnum {
    Unknown,
    Realtime,
    Frozen,
    Delayed,
    DelayedFrozen,
}

impl MarketDataTypeEnum {
    /// The number that stands for each variant on the wire.
    pub open spec fn code_of(self) -> int {
        match self {
            MarketDataTypeEnum::Unknown => 0,
            MarketDataTypeEnum::Realtime => 1,
            MarketDataTypeEnum::Frozen => 2,
            MarketDataTypeEnum::Delayed => 3,
            MarketDataTypeEnum::DelayedFrozen => 4,
        }
    }

    /// The variant that a number stands for, if any.
    pub open spec fn from_code(n: int) -> Option<MarketDataTypeEnum> {
        if n == 0 {
            Some(MarketDataTypeEnum::Unknown)
        } else if n == 1 {
            Some(MarketDataTypeEnum::Realtime)
        } else if n == 2 {
            Some(MarketDataTypeEnum::Frozen)
        } else if n == 3 {
            Some(MarketDataTypeEnum::Delayed)
        } else if n == 4 {
            Some(MarketDataTypeEnum::DelayedFrozen)
        } else {
            None
        }
    }

    /// The number of the variant; reading it back gives the variant again.
    pub fn to_i32(&self) -> (r: i32)
        ensures
            r == self.code_of(),
            MarketDataTypeEnum::from_code(r as int) == Some(*self),
    {
        match self {
            MarketDataTypeEnum::Unknown => 0,
            MarketDataTypeEnum::Realtime => 1,
            MarketDataTypeEnum::Frozen => 2,
            MarketDataTypeEnum::Delayed => 3,
            MarketDataTypeEnum::DelayedFrozen => 4,
        }
    }

    /// The variant that `n` stands for, if any.
    pub fn from_i32(n: i32) -> (r: Option<MarketDataTypeEnum>)
        ensures
            r == MarketDataTypeEnum::from_code(n as int),
    {
        match n {
            0 => Some(MarketDataTypeEnum::Unknown),
            1 => Some(MarketDataTypeEnum::Realtime),
            2 => Some(MarketDataTypeEnum::Frozen),
            3 => Some(MarketDataTypeEnum::Delayed),
            4 => Some(MarketDataTypeEnum::DelayedFrozen),
            _ => None,
        }
    }

    /// The text of each variant.
    pub open spec fn text_of(self) -> Seq<char> {
        match self {
            MarketDataTypeEnum::Unknown => "N/A"@,
            MarketDataTypeEnum::Realtime => "REALTIME"@,
            MarketDataTypeEnum::Frozen => "FROZEN"@,
            MarketDataTypeEnum::Delayed => "DELAYED"@,
            MarketDataTypeEnum::DelayedFrozen => "DELAYED_FROZEN"@,
        }
    }

    /// The text of the variant.
    pub fn to_string(&self) -> (r: String)
        ensures
            r@ == self.text_of(),
    {
        match self {
            MarketDataTypeEnum::Unknown => String::from_str("N/A"),
            MarketDataTypeEnum::Realtime => String::from_str("REALTIME"),
            MarketDataTypeEnum::Frozen => String::from_str("FROZEN"),
            MarketDataTypeEnum::Delayed => String::from_str("DELAYED"),
            MarketDataTypeEnum::DelayedFrozen => String::from_str("DELAYED_FROZEN"),
        }
    }
}

/// Financial advisor allocation methods.
#[derive(Clone, Copy, Debug, PartialEq, Eq)]
pub enum Method {
    None_,
    EqualQuantity,
    AvailableEquity,
    NetLiq,
    PctChange,
}

impl Method {
    /// The number that stands for each variant on the wire.
    pub open spec fn code_of(self) -> int {
        match self {
            Method::None_ => 0,
            Method::EqualQuantity => 1,
            Method::AvailableEquity => 2,
            Method::NetLiq => 3,
            Method::PctChange => 4,
        }
    }

    /// The variant that a number stands for, if any.
    pub open spec fn from_code(n: int) -> Option<Method> {
        if n == 0 {
            Some(Method::None_)
        } else if n == 1 {
            Some(Method::EqualQuantity)
        } else if n == 2 {
            Some(Method::AvailableEquity)
        } else if n == 3 {
            Some(Method::NetLiq)
        } else if n == 4 {
            Some(Method::PctChange)
        } else {
            None
        }
    }

    /// The number of the variant; reading it back gives the variant again.
    pub fn to_i32(&self) -> (r: i32)
        ensures
            r == self.code_of(),
            Method::from_code(r as int) == Some(*self),
    {
        match self {
            Method::None_ => 0,
            Method::EqualQuantity => 1,
            Method::AvailableEquity => 2,
            Method::NetLiq => 3,
            Method::PctChange => 4,
        }
    }

    /// The variant that `n` stands for, if any.
    pub fn from_i32(n: i32) -> (r: Option<Method>)
        ensures
            r == Method::from_code(n as int),
    {
        match n {
            0 => Some(Method::None_),
            1 => Some(Method::EqualQuantity),
            2 => Some(Method::AvailableEquity),
            3 => Some(Method::NetLiq),
            4 => Some(Method::PctChange),
            _ => None,
        }
    }

    /// The text of each variant.
    pub open spec fn text_of(self) -> Seq<char> {
        match self {
            Method::None_ => ""@,
            Method::EqualQuantity => "EqualQuantity"@,
            Method::AvailableEquity => "AvailableEquity"@,
            Method::NetLiq => "NetLiq"@,
            Method::PctChange => "PctChange"@,
        }
    }

    /// The text of the variant.
    pub fn to_string(&self) -> (r: String)
        ensures
            r@ == self.text_of(),
    {
        match self {
            Method::None_ => String::from_str(""),
            Method::EqualQuantity => String::from_str("EqualQuantity"),
            Method::AvailableEquity => String::from_str("AvailableEquity"),
            Method::NetLiq => String::from_str("NetLiq"),
            Method::PctChange => String::from_str("PctChange"),
        }
    }
}

/// Whether an order uses the price management algorithm.
#[derive(Clone, Copy, Debug, PartialEq, Eq)]
pub enum UsePriceMgmtAlgo {
    Default,
    NotUse,
    Use,
}

impl UsePriceMgmtAlgo {
    /// The number that stands for each variant on the wire.
    pub open spec fn code_of(self) -> int {
        match self {
            UsePriceMgmtAlgo::Default => 0,
            UsePriceMgmtAlgo::NotUse => 1,
            UsePriceMgmtAlgo::Use => 2,
        }
    }

    /// The variant that a number stands for, if any.
    pub open spec fn from_code(n: int) -> Option<UsePriceMgmtAlgo> {
        if n == 0 {
            Some(UsePriceMgmtAlgo::Default)
        } else if n == 1 {
            Some(UsePriceMgmtAlgo::NotUse)
        } else if n == 2 {
            Some(UsePriceMgmtAlgo::Use)
        } else {
            None
        }
    }

    /// The number of the variant; reading it back gives the variant again.
    pub fn to_i32(&self) -> (r: i32)
        ensures
            r == self.code_of(),
            UsePriceMgmtAlgo::from_code(r as int) == Some(*self),
    {
        match self {
            UsePriceMgmtAlgo::Default => 0,
            UsePriceMgmtAlgo::NotUse => 1,
            UsePriceMgmtAlgo::Use => 2,
        }
    }

    /// The variant that `n` stands for, if any.
    pub fn from_i32(n: i32) -> (r: Option<UsePriceMgmtAlgo>)
        ensures
            r == UsePriceMgmtAlgo::from_code(n as int),
    {
        match n {
            0 => Some(UsePriceMgmtAlgo::Default),
            1 => Some(UsePriceMgmtAlgo::NotUse),
            2 => Some(UsePriceMgmtAlgo::Use),
            _ => None,
        }
    }
}

impl UsePriceMgmtAlgo {
    /// `None` for the default, else whether the algorithm is used.
    pub fn value(&self) -> (r: Option<bool>)
        ensures
            r == match *self {
                UsePriceMgmtAlgo::Default => None,
                UsePriceMgmtAlgo::NotUse => Some(false),
                UsePriceMgmtAlgo::Use => Some(true),
            },
    {
        match *self {
            UsePriceMgmtAlgo::Default => None,
            UsePriceMgmtAlgo::NotUse => Some(false),
            UsePriceMgmtAlgo::Use => Some(true),
        }
    }
}

/// Text of an integer field that reads as empty when unset.
pub open spec fn unset_int_text(n: i32) -> Seq<char> {
    if n != UNSET_INTEGER { int_text(n as int) } else { seq![] }
}

//==================================================================================================
#[derive(Clone, Debug, Default)]
pub struct DepthMktDataDescription {
    pub exchange: String,
    pub sec_type: String,
    pub listing_exch: String,
    pub service_data_type: String,
    pub agg_group: i32,
}

impl DepthMktDataDescription {
    pub fn new(
        exchange: String,
        sec_type: String,
        listing_exch: String,
        service_data_type: String,
        agg_group: i32,
    ) -> (r: Self)
        ensures
            r.exchange@ == exchange@,
            r.sec_type@ == sec_type@,
            r.listing_exch@ == listing_exch@,
            r.service_data_type@ == service_data_type@,
            r.agg_group == agg_group,
    {
        DepthMktDataDescription { exchange, sec_type, listing_exch, service_data_type, agg_group }
    }

    /// The description as text; an unset aggregation group reads as empty.
    pub fn to_string(&self) -> (r: String)
        ensures
            r@ == "exchange: "@ + self.exchange@ + ", sectype: "@ + self.sec_type@
                + ", listing_exchange: "@ + self.listing_exch@ + ", service_data_type: "@
                + self.service_data_type@ + ", agggroup: "@ + unset_int_text(self.agg_group) + ", "@,
    {
        let mut r = String::from_str("exchange: ");
        r.append(self.exchange.as_str());
        r.append(", sectype: ");
        r.append(self.sec_type.as_str());
        r.append(", listing_exchange: ");
        r.append(self.listing_exch.as_str());
        r.append(", service_data_type: ");
        r.append(self.service_data_type.as_str());
        r.append(", agggroup: ");
        let ghost before = r@;
        if self.agg_group != UNSET_INTEGER {
            push_int_text(&mut r, self.agg_group as i64);
        } else {
            assert(r@ =~= before + unset_int_text(self.agg_group));
        }
        r.append(", ");
        r
    }
}

//==================================================================================================
#[derive(Clone, Debug, Default)]
pub struct SmartComponent {
    pub bit_number: i32,
    pub exchange: String,
    pub exchange_letter: String,
}

impl SmartComponent {
    pub fn new(bit_number: i32, exchange: String, exchange_letter: String) -> (r: Self)
        ensures
            r.bit_number == bit_number,
            r.exchange@ == exchange@,
            r.exchange_letter@ == exchange_letter@,
    {
        SmartComponent { bit_number, exchange, exchange_letter }
    }

    pub fn to_string(&self) -> (r: String)
        ensures
            r@ == "bit_number: "@ + int_text(self.bit_number as int) + ", exchange: "@ + self.exchange@
                + ", exchange_letter: "@ + self.exchange_letter@,
    {
        let mut r = String::from_str("bit_number: ");
        push_int_text(&mut r, self.bit_number as i64);
        r.append(", exchange: ");
        r.append(self.exchange.as_str());
        r.append(", exchange_letter: ");
        r.append(self.exchange_letter.as_str());
        r
    }
}

//==================================================================================================
#[derive(Clone, Copy, Debug, Default)]
pub struct TickAttrib {
    pub can_auto_execute: bool,
    pub past_limit: bool,
    pub pre_open: bool,
}

impl TickAttrib {
    pub fn new(can_auto_execute: bool, past_limit: bool, pre_open: bool) -> (r: Self)
        ensures
            r == (TickAttrib { can_auto_execute, past_limit, pre_open }),
    {
        TickAttrib { can_auto_execute, past_limit, pre_open }
    }

    pub fn to_string(&self) -> (r: String)
        ensures
            r@ == "can_auto_execute: "@ + bool_text(self.can_auto_execute) + ", past_limit: "@
                + bool_text(self.past_limit) + ", pre_open: "@ + bool_text(self.pre_open),
    {
        let mut r = String::from_str("can_auto_execute: ");
        push_bool_text(&mut r, self.can_auto_execute);
        r.append(", past_limit: ");
        push_bool_text(&mut r, self.past_limit);
        r.append(", pre_open: ");
        push_bool_text(&mut r, self.pre_open);
        r
    }
}

//==================================================================================================
#[derive(Clone, Copy, Debug, Default)]
pub struct TickAttribBidAsk {
    pub bid_past_low: bool,
    pub ask_past_high: bool,
}

impl TickAttribBidAsk {
    pub fn new(bid_past_low: bool, ask_past_high: bool) -> (r: Self)
        ensures
            r == (TickAttribBidAsk { bid_past_low, ask_past_high }),
    {
        TickAttribBidAsk { bid_past_low, ask_past_high }
    }

    pub fn to_string(&self) -> (r: String)
        ensures
            r@ == "bid_past_low: "@ + bool_text(self.bid_past_low) + ", ask_past_high: "@
                + bool_text(self.ask_past_high),
    {
        let mut r = String::from_str("bid_past_low: ");
        push_bool_text(&mut r, self.bid_past_low);
        r.append(", ask_past_high: ");
        push_bool_text(&mut r, self.ask_past_high);
        r
    }
}

//==================================================================================================
#[derive(Clone, Copy, Debug, Default)]
pub struct TickAttribLast {
    pub past_limit: bool,
    pub unreported: bool,
}

impl TickAttribLast {
    pub fn new(past_limit: bool, unreported: bool) -> (r: Self)
        ensures
            r == (TickAttribLast { past_limit, unreported }),
    {
        TickAttribLast { past_limit, unreported }
    }

    pub fn to_string(&self) -> (r: String)
        ensures
            r@ == "past_limit: "@ + bool_text(self.past_limit) + ", unreported: "@
                + bool_text(self.unreported),
    {
        let mut r = String::from_str("past_limit: ");
        push_bool_text(&mut r, self.past_limit);
        r.append(", unreported: ");
        push_bool_text(&mut r, self.unreported);
        r
    }
}

//==================================================================================================
#[derive(Clone, Debug, Default)]
pub struct FamilyCode {
    pub account_id: String,
    pub family_code_str: String,
}

impl FamilyCode {
    pub fn new(account_id: String, family_code_str: String) -> (r: Self)
        ensures
            r.account_id@ == account_id@,
            r.family_code_str@ == family_code_str@,
    {
        FamilyCode { account_id, family_code_str }
    }

    pub fn to_string(&self) -> (r: String)
        ensures
            r@ == "account_id: "@ + self.account_id@ + ", family_code_str: "@ + self.family_code_str@,
    {
        let mut r = String::from_str("account_id: ");
        r.append(self.account_id.as_str());
        r.append(", family_code_str: ");
        r.append(self.family_code_str.as_str());
        r
    }
}

//==================================================================================================
#[derive(Clone, Debug, Default)]
pub struct NewsProvider {
    pub code: String,
    pub name: String,
}

impl NewsProvider {
    pub fn new(code: String, name: String) -> (r: Self)
        ensures
            r.code@ == code@,
            r.name@ == name@,
    {
        NewsProvider { code, name }
    }

    pub fn to_string(&self) -> (r: String)
        ensures
            r@ == "code: "@ + self.code@ + ", name: "@ + self.name@,
    {
        let mut r = String::from_str("code: ");
        r.append(self.code.as_str());
        r.append(", name: ");
        r.append(self.name.as_str());
        r
    }
}

//==================================================================================================
#[derive(Clone, Debug, Default)]
pub struct TagValue {
    pub tag: String,
    pub value: String,
}

impl TagValue {
    pub fn new(tag: String, value: String) -> (r: Self)
        ensures
            r.tag@ == tag@,
            r.value@ == value@,
    {
        TagValue { tag, value }
    }

    /// The text `tag=value;`.
    pub fn to_string(&self) -> (r: String)
        ensures
            r@ == self.tag@ + "="@ + self.value@ + ";"@,
    {
        let mut r = self.tag.clone();
        r.append("=");
        r.append(self.value.as_str());
        r.append(";");
        r
    }
}

} // verus!
