//! Types related to orders
use vstd::prelude::*;

verus! {

/// Who originated an order.
#[derive(Clone, Copy, Debug, PartialEq, Eq)]
pub enum Origin {
    Customer,
    Firm,
    Unknown,
}

impl Origin {
    /// The number that stands for each variant on the wire.
    pub open spec fn code_of(self) -> int {
        match self {
            Origin::Customer => 0,
            Origin::Firm => 1,
            Origin::Unknown => 2,
        }
    }

    /// The variant that a number stands for, if any.
    pub open spec fn from_code(n: int) -> Option<Origin> {
        if n == 0 {
            Some(Origin::Customer)
        } else if n == 1 {
            Some(Origin::Firm)
        } else if n == 2 {
            Some(Origin::Unknown)
        } else {
            None
        }
    }

    /// The number of the variant; reading it back gives the variant again.
    pub fn to_i32(&self) -> (r: i32)
        ensures
            r == self.code_of(),
            Origin::from_code(r as int) == Some(*self),
    {
        match self {
            Origin::Customer => 0,
            Origin::Firm => 1,
            Origin::Unknown => 2,
        }
    }

    /// The variant that `n` stands for, if any.
    pub fn from_i32(n: i32) -> (r: Option<Origin>)
        ensures
            r == Origin::from_code(n as int),
    {
        match n {
            0 => Some(Origin::Customer),
            1 => Some(Origin::Firm),
            2 => Some(Origin::Unknown),
            _ => None,
        }
    }
}

impl Default for Origin {
    fn default() -> (r: Self)
        ensures
            r == Origin::Unknown,
    {
        Origin::Unknown
    }
}

/// Auction strategies of box orders.
#[derive(Clone, Copy, Debug, PartialEq, Eq)]
pub enum AuctionStrategy {
    AuctionUnset,
    AuctionMatch,
    AuctionImprovement,
    AuctionTransparent,
}

impl AuctionStrategy {
    /// The number that stands for each variant on the wire.
    pub open spec fn code_of(self) -> int {
        match self {
            AuctionStrategy::AuctionUnset => 0,
            AuctionStrategy::AuctionMatch => 1,
            AuctionStrategy::AuctionImprovement => 2,
            AuctionStrategy::AuctionTransparent => 3,
        }
    }

    /// The variant that a number stands for, if any.
    pub open spec fn from_code(n: int) -> Option<AuctionStrategy> {
        if n == 0 {
            Some(AuctionStrategy::AuctionUnset)
        } else if n == 1 {
            Some(AuctionStrategy::AuctionMatch)
        } else if n == 2 {
            Some(AuctionStrategy::AuctionImprovement)
        } else if n == 3 {
            Some(AuctionStrategy::AuctionTransparent)
        } else {
            None
        }
    }

    /// The number of the variant; reading it back gives the variant again.
    pub fn to_i32(&self) -> (r: i32)
        ensures
            r == self.code_of(),
            AuctionStrategy::from_code(r as int) == Some(*self),
    {
        match self {
            AuctionStrategy::AuctionUnset => 0,
            AuctionStrategy::AuctionMatch => 1,
            AuctionStrategy::AuctionImprovement => 2,
            AuctionStrategy::AuctionTransparent => 3,
        }
    }

    /// The variant that `n` stands for, if any.
    pub fn from_i32(n: i32) -> (r: Option<AuctionStrategy>)
        ensures
            r == AuctionStrategy::from_code(n as int),
    {
        match n {
            0 => Some(AuctionStrategy::AuctionUnset),
            1 => Some(AuctionStrategy::AuctionMatch),
            2 => Some(AuctionStrategy::AuctionImprovement),
            3 => Some(AuctionStrategy::AuctionTransparent),
            _ => None,
        }
    }
}

impl Default for AuctionStrategy {
    fn default() -> (r: Self)
        ensures
            r == AuctionStrategy::AuctionUnset,
    {
        AuctionStrategy::AuctionUnset
    }
}

//==================================================================================================
#[derive(Clone, Debug, Default)]
pub struct SoftDollarTier {
    pub name: String,
    pub val: String,
    pub display_name: String,
}

impl SoftDollarTier {
    pub fn new(name: String, val: String, display_name: String) -> (r: Self)
        ensures
            r.name@ == name@,
            r.val@ == val@,
            r.display_name@ == display_name@,
    {
        SoftDollarTier { name, val, display_name }
    }

    pub fn to_string(&self) -> (r: String)
        ensures
            r@ == "name: "@ + self.name@ + ", value: "@ + self.val@ + ", display_name: "@ + self.display_name@,
    {
        let mut r = String::from_str("name: ");
        r.append(self.name.as_str());
        r.append(", value: ");
        r.append(self.val.as_str());
        r.append(", display_name: ");
        r.append(self.display_name.as_str());
        r
    }
}

} // verus!
