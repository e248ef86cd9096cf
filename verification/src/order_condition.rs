//! Types related to order and execution conditions
use vstd::prelude::*;
use vstd::std_specs::iter::IteratorSpec;

use std::slice::Iter;

use crate::decimal::{
    format_i32, int_text, law_i32_text_roundtrip, lemma_int_text_no_nul, parse_i32, parse_i32_text,
    push_int_text,
};
use crate::decoder::{decode_bool, decode_i32, decode_string, field_bool, field_i32, fields_left};
use crate::errors::IBKRApiLibError;
use crate::messages::{
    bool_field_text, concat_all, field_spec, law_concat_of_fields_is_join, has_no_nul, join_fields, law_split_join_fields, make_field_bool,
    make_field_i32, make_field_str, split_fields, texts,
};

verus! {

/// Kinds of order conditions.
#[derive(Clone, Copy, Debug, PartialEq, Eq)]
pub enum ConditionType {
    Price,
    Time,
    Margin,
    Execution,
    Volume,
    PercentChange,
}

impl ConditionType {
    /// The number that stands for each variant on the wire.
    pub open spec fn code_of(self) -> int {
        match self {
            ConditionType::Price => 1,
            ConditionType::Time => 3,
            ConditionType::Margin => 4,
            ConditionType::Execution => 5,
            ConditionType::Volume => 6,
            ConditionType::PercentChange => 7,
        }
    }

    /// The variant that a number stands for, if any.
    pub open spec fn from_code(n: int) -> Option<ConditionType> {
        if n == 1 {
            Some(ConditionType::Price)
        } else if n == 3 {
            Some(ConditionType::Time)
        } else if n == 4 {
            Some(ConditionType::Margin)
        } else if n == 5 {
            Some(ConditionType::Execution)
        } else if n == 6 {
            Some(ConditionType::Volume)
        } else if n == 7 {
            Some(ConditionType::PercentChange)
        } else {
            None
        }
    }

    /// The number of the variant; reading it back gives the variant again.
    pub fn to_i32(&self) -> (r: i32)
        ensures
            r == self.code_of(),
            ConditionType::from_code(r as int) == Some(*self),
    {
        match self {
            ConditionType::Price => 1,
            ConditionType::Time => 3,
            ConditionType::Margin => 4,
            ConditionType::Execution => 5,
            ConditionType::Volume => 6,
            ConditionType::PercentChange => 7,
        }
    }

    /// The variant that `n` stands for, if any.
    pub fn from_i32(n: i32) -> (r: Option<ConditionType>)
        ensures
            r == ConditionType::from_code(n as int),
    {
        match n {
            1 => Some(ConditionType::Price),
            3 => Some(ConditionType::Time),
            4 => Some(ConditionType::Margin),
            5 => Some(ConditionType::Execution),
            6 => Some(ConditionType::Volume),
            7 => Some(ConditionType::PercentChange),
            _ => None,
        }
    }

    /// The text of each variant.
    pub open spec fn text_of(self) -> Seq<char> {
        match self {
            ConditionType::Price => "Price"@,
            ConditionType::Time => "Time"@,
            ConditionType::Margin => "Margin"@,
            ConditionType::Execution => "Execution"@,
            ConditionType::Volume => "Volume"@,
            ConditionType::PercentChange => "PercentChange"@,
        }
    }

    /// The text of the variant.
    pub fn to_string(&self) -> (r: String)
        ensures
            r@ == self.text_of(),
    {
        match self {
            ConditionType::Price => String::from_str("Price"),
            ConditionType::Time => String::from_str("Time"),
            ConditionType::Margin => String::from_str("Margin"),
            ConditionType::Execution => String::from_str("Execution"),
            ConditionType::Volume => String::from_str("Volume"),
            ConditionType::PercentChange => String::from_str("PercentChange"),
        }
    }
}

impl Default for ConditionType {
    fn default() -> (r: Self)
        ensures
            r == ConditionType::Price,
    {
        ConditionType::Price
    }
}

/// How a price condition is triggered.
#[derive(Clone, Copy, Debug, PartialEq, Eq)]
pub enum TriggerMethod {
    Default,
    DoubleBidAsk,
    Last,
    DoubleLast,
    BidAsk,
    NA1,
    NA2,
    LastBidAsk,
    MidPoint,
}

impl TriggerMethod {
    /// The number that stands for each variant on the wire.
    pub open spec fn code_of(self) -> int {
        match self {
            TriggerMethod::Default => 0,
            TriggerMethod::DoubleBidAsk => 1,
            TriggerMethod::Last => 2,
            TriggerMethod::DoubleLast => 3,
            TriggerMethod::BidAsk => 4,
            TriggerMethod::NA1 => 5,
            TriggerMethod::NA2 => 6,
            TriggerMethod::LastBidAsk => 7,
            TriggerMethod::MidPoint => 8,
        }
    }

    /// The variant that a number stands for, if any.
    pub open spec fn from_code(n: int) -> Option<TriggerMethod> {
        if n == 0 {
            Some(TriggerMethod::Default)
        } else if n == 1 {
            Some(TriggerMethod::DoubleBidAsk)
        } else if n == 2 {
            Some(TriggerMethod::Last)
        } else if n == 3 {
            Some(TriggerMethod::DoubleLast)
        } else if n == 4 {
            Some(TriggerMethod::BidAsk)
        } else if n == 5 {
            Some(TriggerMethod::NA1)
        } else if n == 6 {
            Some(TriggerMethod::NA2)
        } else if n == 7 {
            Some(TriggerMethod::LastBidAsk)
        } else if n == 8 {
            Some(TriggerMethod::MidPoint)
        } else {
            None
        }
    }

    /// The number of the variant; reading it back gives the variant again.
    pub fn to_i32(&self) -> (r: i32)
        ensures
            r == self.code_of(),
            TriggerMethod::from_code(r as int) == Some(*self),
    {
        match self {
            TriggerMethod::Default => 0,
            TriggerMethod::DoubleBidAsk => 1,
            TriggerMethod::Last => 2,
            TriggerMethod::DoubleLast => 3,
            TriggerMethod::BidAsk => 4,
            TriggerMethod::NA1 => 5,
            TriggerMethod::NA2 => 6,
            TriggerMethod::LastBidAsk => 7,
            TriggerMethod::MidPoint => 8,
        }
    }

    /// The variant that `n` stands for, if any.
    pub fn from_i32(n: i32) -> (r: Option<TriggerMethod>)
        ensures
            r == TriggerMethod::from_code(n as int),
    {
        match n {
            0 => Some(TriggerMethod::Default),
            1 => Some(TriggerMethod::DoubleBidAsk),
            2 => Some(TriggerMethod::Last),
            3 => Some(TriggerMethod::DoubleLast),
            4 => Some(TriggerMethod::BidAsk),
            5 => Some(TriggerMethod::NA1),
            6 => Some(TriggerMethod::NA2),
            7 => Some(TriggerMethod::LastBidAsk),
            8 => Some(TriggerMethod::MidPoint),
            _ => None,
        }
    }

    /// The text of each variant.
    pub open spec fn text_of(self) -> Seq<char> {
        match self {
            TriggerMethod::Default => "Default"@,
            TriggerMethod::DoubleBidAsk => "DoubleBidAsk"@,
            TriggerMethod::Last => "Last"@,
            TriggerMethod::DoubleLast => "DoubleLast"@,
            TriggerMethod::BidAsk => "BidAsk"@,
            TriggerMethod::NA1 => "NA1"@,
            TriggerMethod::NA2 => "NA2"@,
            TriggerMethod::LastBidAsk => "LastBidAsk"@,
            TriggerMethod::MidPoint => "MidPoint"@,
        }
    }

    /// The text of the variant.
    pub fn to_string(&self) -> (r: String)
        ensures
            r@ == self.text_of(),
    {
        match self {
            TriggerMethod::Default => String::from_str("Default"),
            TriggerMethod::DoubleBidAsk => String::from_str("DoubleBidAsk"),
            TriggerMethod::Last => String::from_str("Last"),
            TriggerMethod::DoubleLast => String::from_str("DoubleLast"),
            TriggerMethod::BidAsk => String::from_str("BidAsk"),
            TriggerMethod::NA1 => String::from_str("NA1"),
            TriggerMethod::NA2 => String::from_str("NA2"),
            TriggerMethod::LastBidAsk => String::from_str("LastBidAsk"),
            TriggerMethod::MidPoint => String::from_str("MidPoint"),
        }
    }
}

impl Default for TriggerMethod {
    fn default() -> (r: Self)
        ensures
            r == TriggerMethod::Default,
    {
        TriggerMethod::Default
    }
}

/// The fields as they travel on the wire, each followed by NUL.
pub open spec fn wire_fields(fs: Seq<Seq<char>>) -> Seq<Seq<char>> {
    fs.map_values(|t: Seq<char>| field_spec(t))
}

/// Written fields joined into one text (`concat_fields`) are the joined text of the fields.
pub proof fn law_wire_text_is_join(fs: Seq<Seq<char>>)
    ensures
        concat_all(wire_fields(fs)) == join_fields(fs),
{
    law_concat_of_fields_is_join(fs);
}

//==================================================================================================
/// What every order condition can do: be read from and written to message fields, and show
/// its value as text.
pub trait Condition {
    /// How many fields `decode` reads.
    spec fn decode_width(&self) -> nat;

    /// Whether `set_value_from_string` accepts `text`.
    spec fn accepts_value_text(&self, text: Seq<char>) -> bool;

    fn decode(&mut self, fields_iter: &mut Iter<String>) -> Result<(), IBKRApiLibError>
        requires
            (*old(fields_iter)).remaining().len() >= old(self).decode_width(),
    ;

    fn make_fields(&self) -> Result<Vec<String>, IBKRApiLibError>;

    fn value_to_string(&self) -> String;

    fn set_value_from_string(&mut self, text: String)
        requires
            old(self).accepts_value_text(text@),
    ;

    fn get_type(&self) -> ConditionType;
}

//==================================================================================================
/// The text of the connector between conditions: `a` for and, `o` for or.
pub open spec fn connector_text(is_conjunction: bool) -> Seq<char> {
    if is_conjunction { "a"@ } else { "o"@ }
}

/// The condition that decoding the connector field `f` into a condition of type `t` gives.
pub open spec fn decoded_order_condition(t: ConditionType, f: Seq<char>) -> OrderCondition {
    OrderCondition { cond_type: t, is_conjunction_connection: f == "a"@ }
}

#[derive(Clone, Copy, Debug, Default)]
pub struct OrderCondition {
    pub cond_type: ConditionType,
    pub is_conjunction_connection: bool,
}

impl OrderCondition {
    /// The fields that the condition writes.
    pub open spec fn fields(self) -> Seq<Seq<char>> {
        seq![connector_text(self.is_conjunction_connection)]
    }

    pub fn new(cond_type: ConditionType) -> (r: Self)
        ensures
            r == (OrderCondition { cond_type, is_conjunction_connection: false }),
    {
        OrderCondition { cond_type, is_conjunction_connection: false }
    }

    //----------------------------------------------------------------------------------------------
    pub fn get_type(&self) -> (r: ConditionType)
        ensures
            r == self.cond_type,
    {
        self.cond_type
    }

    //----------------------------------------------------------------------------------------------
    /// Joins this condition to the next one with "and".
    pub fn and(&mut self) -> (r: &OrderCondition)
        ensures
            *final(self) == (OrderCondition { cond_type: old(self).cond_type, is_conjunction_connection: true }),
            *r == *final(self),
    {
        self.is_conjunction_connection = true;
        self
    }

    //----------------------------------------------------------------------------------------------
    /// Joins this condition to the next one with "or".
    pub fn or(&mut self) -> (r: &OrderCondition)
        ensures
            *final(self) == (OrderCondition { cond_type: old(self).cond_type, is_conjunction_connection: false }),
            *r == *final(self),
    {
        self.is_conjunction_connection = false;
        self
    }

    //----------------------------------------------------------------------------------------------
    /// Reads the connector field.
    pub fn decode(&mut self, fields_iter: &mut Iter<String>) -> (r: Result<(), IBKRApiLibError>)
        requires
            (*old(fields_iter)).remaining().len() >= 1,
        ensures
            r is Ok,
            *final(self) == decoded_order_condition(old(self).cond_type, fields_left((*old(fields_iter)).remaining())[0]),
            fields_left((*final(fields_iter)).remaining()) == fields_left((*old(fields_iter)).remaining()).skip(1),
    {
        let connector = decode_string(fields_iter)?;
        self.is_conjunction_connection = connector == String::from_str("a");
        assert(fields_left((*old(fields_iter)).remaining()).drop_first() =~= fields_left((*old(fields_iter)).remaining()).skip(1));
        Ok(())
    }

    //----------------------------------------------------------------------------------------------
    /// Writes the connector field.
    pub fn make_fields(&self) -> (r: Result<Vec<String>, IBKRApiLibError>)
        ensures
            r matches Ok(v) && texts(v@) == wire_fields(self.fields()),
    {
        let mut flds: Vec<String> = Vec::new();
        let val = if self.is_conjunction_connection { "a" } else { "o" };
        let ghost prev = flds@;
        flds.push(make_field_str(val));
        assert(texts(flds@) =~= texts(prev).push(flds@.last()@));
        assert(texts(flds@) =~= wire_fields(self.fields()));
        Ok(flds)
    }
}

//==================================================================================================
#[derive(Clone, Default)]
pub struct ExecutionCondition {
    pub sec_type: String,
    pub exchange: String,
    pub symbol: String,
    pub order_condition: OrderCondition,
}

impl View for ExecutionCondition {
    /// The connector, security type, exchange and symbol.
    type V = (OrderCondition, Seq<char>, Seq<char>, Seq<char>);

    open spec fn view(&self) -> Self::V {
        (self.order_condition, self.sec_type@, self.exchange@, self.symbol@)
    }
}

impl ExecutionCondition {
    /// The fields that the condition writes: connector, security type, exchange, symbol.
    pub open spec fn fields(self) -> Seq<Seq<char>> {
        self.order_condition.fields() + seq![self.sec_type@, self.exchange@, self.symbol@]
    }

    /// The condition that decoding the fields `fs` into a condition of type `t` gives.
    pub open spec fn decoded(t: ConditionType, fs: Seq<Seq<char>>) -> (OrderCondition, Seq<char>, Seq<char>, Seq<char>) {
        (decoded_order_condition(t, fs[0]), fs[1], fs[2], fs[3])
    }

    pub fn new(sec_type: String, exchange: String, symbol: String) -> (r: Self)
        ensures
            r@ == (OrderCondition { cond_type: ConditionType::Execution, is_conjunction_connection: false },
                sec_type@, exchange@, symbol@),
    {
        ExecutionCondition {
            sec_type,
            exchange,
            symbol,
            order_condition: OrderCondition::new(ConditionType::Execution),
        }
    }
}

impl Condition for ExecutionCondition {
    open spec fn decode_width(&self) -> nat {
        4
    }

    /// The condition has no value that text could set.
    open spec fn accepts_value_text(&self, text: Seq<char>) -> bool {
        false
    }

    //----------------------------------------------------------------------------------------------
    fn decode(&mut self, fields_iter: &mut Iter<String>) -> (r: Result<(), IBKRApiLibError>)
        ensures
            r is Ok,
            final(self)@ == ExecutionCondition::decoded(old(self).order_condition.cond_type,
                fields_left((*old(fields_iter)).remaining())),
            fields_left((*final(fields_iter)).remaining()) == fields_left((*old(fields_iter)).remaining()).skip(4),
    {
        let ghost fs = fields_left((*old(fields_iter)).remaining());
        self.order_condition.decode(fields_iter)?;
        self.sec_type = decode_string(fields_iter)?;
        self.exchange = decode_string(fields_iter)?;
        self.symbol = decode_string(fields_iter)?;
        assert(fields_left((*final(fields_iter)).remaining()) =~= fs.skip(4));
        Ok(())
    }

    //----------------------------------------------------------------------------------------------
    fn make_fields(&self) -> (r: Result<Vec<String>, IBKRApiLibError>)
        ensures
            r matches Ok(v) && texts(v@) == wire_fields(self.fields()),
    {
        let mut flds = self.order_condition.make_fields()?;
        let ghost prev = flds@;
        flds.push(make_field_str(self.sec_type.as_str()));
        assert(texts(flds@) =~= texts(prev).push(flds@.last()@));
        let ghost prev = flds@;
        flds.push(make_field_str(self.exchange.as_str()));
        assert(texts(flds@) =~= texts(prev).push(flds@.last()@));
        let ghost prev = flds@;
        flds.push(make_field_str(self.symbol.as_str()));
        assert(texts(flds@) =~= texts(prev).push(flds@.last()@));
        assert(texts(flds@) =~= wire_fields(self.fields()));
        Ok(flds)
    }

    //----------------------------------------------------------------------------------------------
    fn value_to_string(&self) -> (r: String)
        ensures
            r@ == "sec_type: "@ + self.sec_type@ + ", exchange: "@ + self.exchange@ + ", symbol: "@ + self.symbol@,
    {
        let mut r = String::from_str("sec_type: ");
        r.append(self.sec_type.as_str());
        r.append(", exchange: ");
        r.append(self.exchange.as_str());
        r.append(", symbol: ");
        r.append(self.symbol.as_str());
        r
    }

    //----------------------------------------------------------------------------------------------
    /// Never callable: an execution condition has no value to set.
    fn set_value_from_string(&mut self, _text: String) {
    }

    //----------------------------------------------------------------------------------------------
    fn get_type(&self) -> (r: ConditionType)
        ensures
            r == self.order_condition.cond_type,
    {
        self.order_condition.cond_type
    }
}

//==================================================================================================
/// The condition that decoding the fields `fs` (connector, then the is-more flag when there is
/// one) into a condition of type `t` gives.
pub open spec fn decoded_operator_condition(t: ConditionType, fs: Seq<Seq<char>>) -> OperatorCondition {
    OperatorCondition {
        order_condition: decoded_order_condition(t, fs[0]),
        is_more: if fs.len() > 1 { field_bool(fs[1]) } else { false },
    }
}

#[derive(Clone, Copy, Debug, Default)]
pub struct OperatorCondition {
    pub order_condition: OrderCondition,
    pub is_more: bool,
}

impl OperatorCondition {
    /// The fields that the condition writes: connector, is-more flag.
    pub open spec fn fields(self) -> Seq<Seq<char>> {
        self.order_condition.fields() + seq![bool_field_text(self.is_more)]
    }

    pub fn new(cond_type: ConditionType, is_more: bool) -> (r: Self)
        ensures
            r == (OperatorCondition { order_condition: OrderCondition { cond_type, is_conjunction_connection: false }, is_more }),
    {
        OperatorCondition { order_condition: OrderCondition::new(cond_type), is_more }
    }

    //----------------------------------------------------------------------------------------------
    /// Whether the condition holds a value of its own: a bare operator condition does not.
    pub open spec fn has_own_value(self) -> bool {
        false
    }

    /// Never callable: a bare operator condition has no value to show.
    pub fn value_to_string(&self) -> String
        requires
            self.has_own_value(),
    {
        String::new()
    }

    //----------------------------------------------------------------------------------------------
    /// Never callable: a bare operator condition has no value to set.
    pub fn set_value_from_string(&self, _text: &str)
        requires
            self.has_own_value(),
    {
    }

    //----------------------------------------------------------------------------------------------
    /// Reads the connector and the is-more flag; a missing flag reads as `false`.
    pub fn decode(&mut self, fields_iter: &mut Iter<String>) -> (r: Result<(), IBKRApiLibError>)
        requires
            (*old(fields_iter)).remaining().len() >= 1,
        ensures
            r is Ok,
            *final(self) == decoded_operator_condition(old(self).order_condition.cond_type,
                fields_left((*old(fields_iter)).remaining())),
            fields_left((*final(fields_iter)).remaining()) == fields_left((*old(fields_iter)).remaining()).skip(
                if (*old(fields_iter)).remaining().len() > 1 { 2 } else { 1 }),
    {
        let ghost fs = fields_left((*old(fields_iter)).remaining());
        self.order_condition.decode(fields_iter)?;
        self.is_more = decode_bool(fields_iter)?;
        assert(fields_left((*final(fields_iter)).remaining()) =~= fs.skip(if fs.len() > 1 { 2 } else { 1 }));
        Ok(())
    }

    //----------------------------------------------------------------------------------------------
    /// Writes the connector and the is-more flag.
    pub fn make_fields(&self) -> (r: Result<Vec<String>, IBKRApiLibError>)
        ensures
            r matches Ok(v) && texts(v@) == wire_fields(self.fields()),
    {
        let mut flds = self.order_condition.make_fields()?;
        let ghost prev = flds@;
        flds.push(make_field_bool(self.is_more));
        assert(texts(flds@) =~= texts(prev).push(flds@.last()@));
        assert(texts(flds@) =~= wire_fields(self.fields()));
        Ok(flds)
    }
}

//==================================================================================================
#[derive(Clone, Default)]
pub struct ContractCondition {
    pub operator_condition: OperatorCondition,
    pub con_id: i32,
    pub exchange: String,
}

impl View for ContractCondition {
    /// The operator condition, contract id and exchange.
    type V = (OperatorCondition, i32, Seq<char>);

    open spec fn view(&self) -> Self::V {
        (self.operator_condition, self.con_id, self.exchange@)
    }
}

impl ContractCondition {
    /// The fields that the condition writes: connector, is-more flag, contract id, exchange.
    pub open spec fn fields(self) -> Seq<Seq<char>> {
        self.operator_condition.fields() + seq![int_text(self.con_id as int), self.exchange@]
    }

    /// The condition that decoding the fields `fs` into a condition of type `t` gives.
    pub open spec fn decoded(t: ConditionType, fs: Seq<Seq<char>>) -> (OperatorCondition, i32, Seq<char>) {
        (decoded_operator_condition(t, fs), field_i32(fs[2]), fs[3])
    }

    pub fn new(cond_type: ConditionType, con_id: i32, exchange: &str, is_more: bool) -> (r: Self)
        ensures
            r@ == (OperatorCondition { order_condition: OrderCondition { cond_type, is_conjunction_connection: false }, is_more },
                con_id, exchange@),
    {
        ContractCondition {
            operator_condition: OperatorCondition::new(cond_type, is_more),
            con_id,
            exchange: exchange.to_owned(),
        }
    }
}

impl Condition for ContractCondition {
    open spec fn decode_width(&self) -> nat {
        4
    }

    /// The condition has no value that text could set.
    open spec fn accepts_value_text(&self, text: Seq<char>) -> bool {
        false
    }

    //----------------------------------------------------------------------------------------------
    fn decode(&mut self, fields_iter: &mut Iter<String>) -> (r: Result<(), IBKRApiLibError>)
        ensures
            r is Ok,
            final(self)@ == ContractCondition::decoded(old(self).operator_condition.order_condition.cond_type,
                fields_left((*old(fields_iter)).remaining())),
            fields_left((*final(fields_iter)).remaining()) == fields_left((*old(fields_iter)).remaining()).skip(4),
    {
        let ghost fs = fields_left((*old(fields_iter)).remaining());
        self.operator_condition.decode(fields_iter)?;
        self.con_id = decode_i32(fields_iter)?;
        self.exchange = decode_string(fields_iter)?;
        assert(fields_left((*final(fields_iter)).remaining()) =~= fs.skip(4));
        Ok(())
    }

    //----------------------------------------------------------------------------------------------
    fn make_fields(&self) -> (r: Result<Vec<String>, IBKRApiLibError>)
        ensures
            r matches Ok(v) && texts(v@) == wire_fields(self.fields()),
    {
        let mut flds = self.operator_condition.make_fields()?;
        let ghost prev = flds@;
        flds.push(make_field_i32(self.con_id));
        assert(texts(flds@) =~= texts(prev).push(flds@.last()@));
        let ghost prev = flds@;
        flds.push(make_field_str(self.exchange.as_str()));
        assert(texts(flds@) =~= texts(prev).push(flds@.last()@));
        assert(texts(flds@) =~= wire_fields(self.fields()));
        Ok(flds)
    }

    //----------------------------------------------------------------------------------------------
    fn value_to_string(&self) -> (r: String)
        ensures
            r@ == "contract id: "@ + int_text(self.con_id as int) + ", Exchange: "@ + self.exchange@,
    {
        let mut r = String::from_str("contract id: ");
        push_int_text(&mut r, self.con_id as i64);
        r.append(", Exchange: ");
        r.append(self.exchange.as_str());
        r
    }

    //----------------------------------------------------------------------------------------------
    /// Never callable: a contract condition has no value of its own to set.
    fn set_value_from_string(&mut self, _text: String) {
    }

    //----------------------------------------------------------------------------------------------
    fn get_type(&self) -> (r: ConditionType)
        ensures
            r == self.operator_condition.order_condition.cond_type,
    {
        self.operator_condition.order_condition.cond_type
    }
}

//==================================================================================================
#[derive(Clone, Default)]
pub struct TimeCondition {
    pub operator_condition: OperatorCondition,
    pub time: String,
}

impl View for TimeCondition {
    /// The operator condition and the time.
    type V = (OperatorCondition, Seq<char>);

    open spec fn view(&self) -> Self::V {
        (self.operator_condition, self.time@)
    }
}

impl TimeCondition {
    /// The fields that the condition writes: connector, is-more flag, time.
    pub open spec fn fields(self) -> Seq<Seq<char>> {
        self.operator_condition.fields() + seq![self.time@]
    }

    /// The condition that decoding the fields `fs` into a condition of type `t` gives.
    pub open spec fn decoded(t: ConditionType, fs: Seq<Seq<char>>) -> (OperatorCondition, Seq<char>) {
        (decoded_operator_condition(t, fs), fs[2])
    }

    pub fn new(is_more: bool, time: String) -> (r: Self)
        ensures
            r@ == (OperatorCondition { order_condition: OrderCondition { cond_type: ConditionType::Time, is_conjunction_connection: false }, is_more },
                time@),
    {
        TimeCondition { operator_condition: OperatorCondition::new(ConditionType::Time, is_more), time }
    }
}

impl Condition for TimeCondition {
    open spec fn decode_width(&self) -> nat {
        3
    }

    open spec fn accepts_value_text(&self, text: Seq<char>) -> bool {
        true
    }

    //----------------------------------------------------------------------------------------------
    fn decode(&mut self, fields_iter: &mut Iter<String>) -> (r: Result<(), IBKRApiLibError>)
        ensures
            r is Ok,
            final(self)@ == TimeCondition::decoded(old(self).operator_condition.order_condition.cond_type,
                fields_left((*old(fields_iter)).remaining())),
            fields_left((*final(fields_iter)).remaining()) == fields_left((*old(fields_iter)).remaining()).skip(3),
    {
        let ghost fs = fields_left((*old(fields_iter)).remaining());
        self.operator_condition.decode(fields_iter)?;
        self.time = decode_string(fields_iter)?;
        assert(fields_left((*final(fields_iter)).remaining()) =~= fs.skip(3));
        Ok(())
    }

    //----------------------------------------------------------------------------------------------
    fn make_fields(&self) -> (r: Result<Vec<String>, IBKRApiLibError>)
        ensures
            r matches Ok(v) && texts(v@) == wire_fields(self.fields()),
    {
        let mut flds = self.operator_condition.make_fields()?;
        let ghost prev = flds@;
        flds.push(make_field_str(self.time.as_str()));
        assert(texts(flds@) =~= texts(prev).push(flds@.last()@));
        assert(texts(flds@) =~= wire_fields(self.fields()));
        Ok(flds)
    }

    //----------------------------------------------------------------------------------------------
    fn value_to_string(&self) -> (r: String)
        ensures
            r@ == self.time@,
    {
        self.time.clone()
    }

    //----------------------------------------------------------------------------------------------
    fn set_value_from_string(&mut self, text: String)
        ensures
            final(self)@ == (old(self).operator_condition, text@),
    {
        self.time = text;
    }

    //----------------------------------------------------------------------------------------------
    fn get_type(&self) -> (r: ConditionType)
        ensures
            r == self.operator_condition.order_condition.cond_type,
    {
        self.operator_condition.order_condition.cond_type
    }
}

//==================================================================================================
#[derive(Clone, Default)]
pub struct VolumeCondition {
    pub contract_condition: ContractCondition,
    pub volume: i32,
}

impl View for VolumeCondition {
    /// The contract condition and the volume.
    type V = ((OperatorCondition, i32, Seq<char>), i32);

    open spec fn view(&self) -> Self::V {
        (self.contract_condition@, self.volume)
    }
}

impl VolumeCondition {
    /// The fields that the condition writes: connector, is-more flag, volume, contract id,
    /// exchange.
    pub open spec fn fields(self) -> Seq<Seq<char>> {
        self.contract_condition.operator_condition.fields() + seq![
            int_text(self.volume as int),
            int_text(self.contract_condition.con_id as int),
            self.contract_condition.exchange@,
        ]
    }

    /// The condition that decoding the fields `fs` into a condition of type `t` gives: the
    /// contract condition from the first four fields, the volume from the fifth.
    pub open spec fn decoded(t: ConditionType, fs: Seq<Seq<char>>) -> ((OperatorCondition, i32, Seq<char>), i32) {
        (ContractCondition::decoded(t, fs), field_i32(fs[4]))
    }

    pub fn new(con_id: i32, exchange: &str, is_more: bool, volume: i32) -> (r: Self)
        ensures
            r@ == ((OperatorCondition { order_condition: OrderCondition { cond_type: ConditionType::Volume, is_conjunction_connection: false }, is_more },
                con_id, exchange@), volume),
    {
        VolumeCondition {
            contract_condition: ContractCondition::new(ConditionType::Volume, con_id, exchange, is_more),
            volume,
        }
    }
}

impl Condition for VolumeCondition {
    open spec fn decode_width(&self) -> nat {
        5
    }

    open spec fn accepts_value_text(&self, text: Seq<char>) -> bool {
        parse_i32_text(text) is Some
    }

    //----------------------------------------------------------------------------------------------
    fn decode(&mut self, fields_iter: &mut Iter<String>) -> (r: Result<(), IBKRApiLibError>)
        ensures
            r is Ok,
            final(self)@ == VolumeCondition::decoded(old(self).contract_condition.operator_condition.order_condition.cond_type,
                fields_left((*old(fields_iter)).remaining())),
            fields_left((*final(fields_iter)).remaining()) == fields_left((*old(fields_iter)).remaining()).skip(5),
    {
        let ghost fs = fields_left((*old(fields_iter)).remaining());
        self.contract_condition.decode(fields_iter)?;
        self.volume = decode_i32(fields_iter)?;
        assert(fs.skip(4)[0] == fs[4]);
        assert(fields_left((*final(fields_iter)).remaining()) =~= fs.skip(5));
        Ok(())
    }

    //----------------------------------------------------------------------------------------------
    fn make_fields(&self) -> (r: Result<Vec<String>, IBKRApiLibError>)
        ensures
            r matches Ok(v) && texts(v@) == wire_fields(self.fields()),
    {
        let mut flds = self.contract_condition.operator_condition.order_condition.make_fields()?;
        let ghost prev = flds@;
        flds.push(make_field_i32(if self.contract_condition.operator_condition.is_more { 1 } else { 0 }));
        assert(texts(flds@) =~= texts(prev).push(flds@.last()@));
        let ghost prev = flds@;
        flds.push(make_field_i32(self.volume));
        assert(texts(flds@) =~= texts(prev).push(flds@.last()@));
        let ghost prev = flds@;
        flds.push(make_field_i32(self.contract_condition.con_id));
        assert(texts(flds@) =~= texts(prev).push(flds@.last()@));
        let ghost prev = flds@;
        flds.push(make_field_str(self.contract_condition.exchange.as_str()));
        assert(texts(flds@) =~= texts(prev).push(flds@.last()@));
        assert(texts(flds@) =~= wire_fields(self.fields()));
        Ok(flds)
    }

    //----------------------------------------------------------------------------------------------
    fn value_to_string(&self) -> (r: String)
        ensures
            r@ == int_text(self.volume as int),
    {
        format_i32(self.volume)
    }

    //----------------------------------------------------------------------------------------------
    fn set_value_from_string(&mut self, text: String)
        ensures
            final(self)@ == (old(self).contract_condition@, parse_i32_text(text@)->0 as i32),
    {
        match parse_i32(text.as_str()) {
            Some(v) => self.volume = v,
            None => {},
        }
    }

    //----------------------------------------------------------------------------------------------
    fn get_type(&self) -> (r: ConditionType)
        ensures
            r == self.contract_condition.operator_condition.order_condition.cond_type,
    {
        self.contract_condition.operator_condition.order_condition.cond_type
    }
}

//==================================================================================================
// Reading back what a condition writes

proof fn lemma_connector_text(b: bool)
    ensures
        has_no_nul(connector_text(b)),
        (connector_text(b) == "a"@) == b,
{
    reveal_strlit("a");
    reveal_strlit("o");
    if !b {
        assert("o"@[0] != "a"@[0]);
    }
}

proof fn lemma_int_field(n: i32)
    ensures
        has_no_nul(int_text(n as int)),
        field_i32(int_text(n as int)) == n,
{
    lemma_int_text_no_nul(n as int);
    law_i32_text_roundtrip(n);
}

proof fn lemma_bool_field(b: bool)
    ensures
        has_no_nul(bool_field_text(b)),
        field_bool(bool_field_text(b)) == b,
{
    lemma_int_field(if b { 1 } else { 0 });
}

/// An order condition's connector, written and read back off the wire, gives the condition back.
pub proof fn law_order_condition_roundtrip(c: OrderCondition)
    ensures
        concat_all(wire_fields(c.fields())) == join_fields(c.fields()),
        split_fields(join_fields(c.fields())) == c.fields(),
        decoded_order_condition(c.cond_type, split_fields(join_fields(c.fields()))[0]) == c,
{
    law_wire_text_is_join(c.fields());
    lemma_connector_text(c.is_conjunction_connection);
    law_split_join_fields(c.fields());
}

/// An operator condition, written and read back off the wire, gives the condition back.
pub proof fn law_operator_condition_roundtrip(c: OperatorCondition)
    ensures
        concat_all(wire_fields(c.fields())) == join_fields(c.fields()),
        split_fields(join_fields(c.fields())) == c.fields(),
        decoded_operator_condition(c.order_condition.cond_type, split_fields(join_fields(c.fields()))) == c,
{
    law_wire_text_is_join(c.fields());
    lemma_connector_text(c.order_condition.is_conjunction_connection);
    lemma_bool_field(c.is_more);
    let fs = c.fields();
    assert forall|i: int| 0 <= i < fs.len() implies has_no_nul(#[trigger] fs[i]) by {}
    law_split_join_fields(fs);
}

/// An execution condition whose texts hold no NUL, written and read back off the wire, gives
/// the condition back.
pub proof fn law_execution_condition_roundtrip(c: ExecutionCondition)
    requires
        has_no_nul(c.sec_type@),
        has_no_nul(c.exchange@),
        has_no_nul(c.symbol@),
    ensures
        concat_all(wire_fields(c.fields())) == join_fields(c.fields()),
        split_fields(join_fields(c.fields())) == c.fields(),
        ExecutionCondition::decoded(c.order_condition.cond_type, split_fields(join_fields(c.fields()))) == c@,
{
    law_wire_text_is_join(c.fields());
    lemma_connector_text(c.order_condition.is_conjunction_connection);
    let fs = c.fields();
    assert forall|i: int| 0 <= i < fs.len() implies has_no_nul(#[trigger] fs[i]) by {}
    law_split_join_fields(fs);
}

/// A contract condition whose exchange holds no NUL, written and read back off the wire, gives
/// the condition back.
pub proof fn law_contract_condition_roundtrip(c: ContractCondition)
    requires
        has_no_nul(c.exchange@),
    ensures
        concat_all(wire_fields(c.fields())) == join_fields(c.fields()),
        split_fields(join_fields(c.fields())) == c.fields(),
        ContractCondition::decoded(c.operator_condition.order_condition.cond_type,
            split_fields(join_fields(c.fields()))) == c@,
{
    law_wire_text_is_join(c.fields());
    lemma_connector_text(c.operator_condition.order_condition.is_conjunction_connection);
    lemma_bool_field(c.operator_condition.is_more);
    lemma_int_field(c.con_id);
    let fs = c.fields();
    assert forall|i: int| 0 <= i < fs.len() implies has_no_nul(#[trigger] fs[i]) by {}
    law_split_join_fields(fs);
}

/// A time condition whose time holds no NUL, written and read back off the wire, gives the
/// condition back.
pub proof fn law_time_condition_roundtrip(c: TimeCondition)
    requires
        has_no_nul(c.time@),
    ensures
        concat_all(wire_fields(c.fields())) == join_fields(c.fields()),
        split_fields(join_fields(c.fields())) == c.fields(),
        TimeCondition::decoded(c.operator_condition.order_condition.cond_type,
            split_fields(join_fields(c.fields()))) == c@,
{
    law_wire_text_is_join(c.fields());
    lemma_connector_text(c.operator_condition.order_condition.is_conjunction_connection);
    lemma_bool_field(c.operator_condition.is_more);
    let fs = c.fields();
    assert forall|i: int| 0 <= i < fs.len() implies has_no_nul(#[trigger] fs[i]) by {}
    law_split_join_fields(fs);
}

/// A volume condition writes its volume before the contract id and exchange, and reads the
/// contract id and exchange first: read back off the wire, it gives the condition back when,
/// and only when, the volume equals the contract id and the exchange is that number's text.
pub proof fn law_volume_condition_roundtrip(c: VolumeCondition)
    requires
        has_no_nul(c.contract_condition.exchange@),
    ensures
        concat_all(wire_fields(c.fields())) == join_fields(c.fields()),
        split_fields(join_fields(c.fields())) == c.fields(),
        VolumeCondition::decoded(c.contract_condition.operator_condition.order_condition.cond_type,
            split_fields(join_fields(c.fields()))) == c@
        <==> (c.volume == c.contract_condition.con_id
            && c.contract_condition.exchange@ == int_text(c.contract_condition.con_id as int)),
{
    law_wire_text_is_join(c.fields());
    let cc = c.contract_condition;
    lemma_connector_text(cc.operator_condition.order_condition.is_conjunction_connection);
    lemma_bool_field(cc.operator_condition.is_more);
    lemma_int_field(cc.con_id);
    lemma_int_field(c.volume);
    let fs = c.fields();
    assert forall|i: int| 0 <= i < fs.len() implies has_no_nul(#[trigger] fs[i]) by {}
    law_split_join_fields(fs);
}

} // verus!
