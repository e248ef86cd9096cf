//! Types related to contracts
use vstd::prelude::*;

verus! {

/// Open/close leg value of a combo leg.
#[derive(Clone, Copy, Debug, PartialEq, Eq)]
pub enum PositionType {
    SamePos,
    OpenPos,
    ClosePos,
    UnknownPos,
}

impl PositionType {
    /// The number that stands for each variant on the wire.
    pub open spec fn code_of(self) -> int {
        match self {
            PositionType::SamePos => 0,
            PositionType::OpenPos => 1,
            PositionType::ClosePos => 2,
            PositionType::UnknownPos => 3,
        }
    }

    /// The variant that a number stands for, if any.
    pub open spec fn from_code(n: int) -> Option<PositionType> {
        if n == 0 {
            Some(PositionType::SamePos)
        } else if n == 1 {
            Some(PositionType::OpenPos)
        } else if n == 2 {
            Some(PositionType::ClosePos)
        } else if n == 3 {
            Some(PositionType::UnknownPos)
        } else {
            None
        }
    }

    /// The number of the variant; reading it back gives the variant again.
    pub fn to_i32(&self) -> (r: i32)
        ensures
            r == self.code_of(),
            PositionType::from_code(r as int) == Some(*self),
    {
        match self {
            PositionType::SamePos => 0,
            PositionType::OpenPos => 1,
            PositionType::ClosePos => 2,
            PositionType::UnknownPos => 3,
        }
    }

    /// The variant that `n` stands for, if any.
    pub fn from_i32(n: i32) -> (r: Option<PositionType>)
        ensures
            r == PositionType::from_code(n as int),
    {
        match n {
            0 => Some(PositionType::SamePos),
            1 => Some(PositionType::OpenPos),
            2 => Some(PositionType::ClosePos),
            3 => Some(PositionType::UnknownPos),
            _ => None,
        }
    }

    /// The text of each variant.
    pub open spec fn text_of(self) -> Seq<char> {
        match self {
            PositionType::SamePos => "SamePos"@,
            PositionType::OpenPos => "OpenPos"@,
            PositionType::ClosePos => "ClosePos"@,
            PositionType::UnknownPos => "UnknownPos"@,
        }
    }

    /// The text of the variant.
    pub fn to_string(&self) -> (r: String)
        ensures
            r@ == self.text_of(),
    {
        match self {
            PositionType::SamePos => String::from_str("SamePos"),
            PositionType::OpenPos => String::from_str("OpenPos"),
            PositionType::ClosePos => String::from_str("ClosePos"),
            PositionType::UnknownPos => String::from_str("UnknownPos"),
        }
    }
}

impl Default for PositionType {
    fn default() -> (r: Self)
        ensures
            r == PositionType::SamePos,
    {
        PositionType::SamePos
    }
}

/// A contract as requests lay it out: its texts, numbers and flags, with its strike, a
/// floating-point value, as the text of its field.
#[derive(Clone, Debug, Default)]
pub struct ContractFields {
    pub con_id: i32,
    pub symbol: String,
    pub sec_type: String,
    pub last_trade_date_or_contract_month: String,
    pub strike: String,
    pub right: String,
    pub multiplier: String,
    pub exchange: String,
    pub primary_exchange: String,
    pub currency: String,
    pub local_symbol: String,
    pub trading_class: String,
    pub include_expired: bool,
    pub sec_id_type: String,
    pub sec_id: String,
    pub combo_legs: Vec<ComboLegFields>,
    pub delta_neutral_contract: Option<DeltaNeutralFields>,
}

/// A combo leg as requests lay it out, its ratio as the text of its field.
#[derive(Clone, Debug, Default)]
pub struct ComboLegFields {
    pub con_id: i32,
    pub ratio: String,
    pub action: String,
    pub exchange: String,
    pub open_close: PositionType,
    pub short_sale_slot: i32,
    pub designated_location: String,
    pub exempt_code: i32,
}

/// A delta-neutral contract as requests lay it out, its delta and price as the texts of their
/// fields.
#[derive(Clone, Debug, Default)]
pub struct DeltaNeutralFields {
    pub con_id: i32,
    pub delta: String,
    pub price: String,
}

} // verus!
