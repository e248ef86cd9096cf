//! The requests that carry a contract: contract details and market depth. Each decides from
//! the connection state, the server version and the contract whether the request may be sent,
//! and lays out its fields as the server version asks.
use vstd::prelude::*;

use crate::client::ConnStatus;
use crate::common::{TagValue, NO_VALID_ID};
use crate::contract::{ComboLegFields, ContractFields, DeltaNeutralFields};
use crate::decimal::int_text;
use crate::messages::join_fields;
use crate::wire_layout::lemma_join_push;
use crate::errors::{
    api_error, api_error_with, is_api_error, is_api_error_with, IBKRApiLibError, TwsError,
};
use crate::messages::{bool_field_text, field_spec, make_field_bool, make_field_i32, make_field_str};
use crate::decimal::push_int_text;
use crate::requests::{REQ_CONTRACT_DATA, REQ_MKT_DATA, REQ_MKT_DEPTH};
use crate::server_versions::{
    MIN_SERVER_VER_DELTA_NEUTRAL, MIN_SERVER_VER_REQ_MKT_DATA_CONID,
    MIN_SERVER_VER_REQ_SMART_COMPONENTS, MIN_SERVER_VER_CONTRACT_DATA_CHAIN, MIN_SERVER_VER_LINKING,
    MIN_SERVER_VER_MKT_DEPTH_PRIM_EXCHANGE, MIN_SERVER_VER_PRIMARYEXCH, MIN_SERVER_VER_SEC_ID_TYPE,
    MIN_SERVER_VER_SMART_DEPTH, MIN_SERVER_VER_TRADING_CLASS,
};

verus! {

/// The field of an integer.
pub open spec fn int_field(n: int) -> Seq<char> {
    field_spec(int_text(n))
}

/// `s` when `c` holds, else nothing.
pub open spec fn when(c: bool, s: Seq<char>) -> Seq<char> {
    if c { s } else { Seq::empty() }
}

/// Why a contract details request is refused for the server version, if it is: the text that
/// follows the `UpdateTws` message.
pub open spec fn contract_details_refusal(server_version: i32, c: ContractFields) -> Option<Seq<char>> {
    if server_version < MIN_SERVER_VER_SEC_ID_TYPE && (c.sec_id_type@.len() > 0 || c.sec_id@.len() > 0) {
        Some(" It does not support sec_id_type and secId parameters."@)
    } else if server_version < MIN_SERVER_VER_TRADING_CLASS && c.trading_class@.len() > 0 {
        Some(" It does not support trading_class parameter in req_contract_details."@)
    } else if server_version < MIN_SERVER_VER_LINKING && c.primary_exchange@.len() > 0 {
        Some(" It does not support primary_exchange parameter in req_contract_details."@)
    } else {
        None
    }
}

/// The exchange fields of a contract details request: exchange and primary exchange on servers
/// that take both; on older servers that link, `exchange:primary` for a primary exchange behind
/// `BEST` or `SMART` and nothing otherwise; on the oldest, the exchange alone.
pub open spec fn contract_details_exchange(server_version: i32, c: ContractFields) -> Seq<char> {
    if server_version >= MIN_SERVER_VER_PRIMARYEXCH {
        field_spec(c.exchange@) + field_spec(c.primary_exchange@)
    } else if server_version >= MIN_SERVER_VER_LINKING {
        if c.primary_exchange@.len() > 0 && (c.exchange@ == "BEST"@ || c.exchange@ == "SMART"@) {
            field_spec(c.exchange@ + ":"@ + c.primary_exchange@)
        } else {
            Seq::empty()
        }
    } else {
        field_spec(c.exchange@)
    }
}

/// The text of a contract details request.
pub open spec fn contract_details_text(server_version: i32, req_id: i32, c: ContractFields) -> Seq<char> {
    int_field(REQ_CONTRACT_DATA as int) + int_field(8) + when(
        server_version >= MIN_SERVER_VER_CONTRACT_DATA_CHAIN,
        int_field(req_id as int),
    ) + int_field(c.con_id as int) + field_spec(c.symbol@) + field_spec(c.sec_type@) + field_spec(
        c.last_trade_date_or_contract_month@,
    ) + field_spec(c.strike@) + field_spec(c.right@) + field_spec(c.multiplier@)
        + contract_details_exchange(server_version, c) + field_spec(c.currency@) + field_spec(
        c.local_symbol@,
    ) + when(
        server_version >= MIN_SERVER_VER_TRADING_CLASS,
        field_spec(c.trading_class@) + field_spec(bool_field_text(c.include_expired)),
    ) + when(
        server_version >= MIN_SERVER_VER_SEC_ID_TYPE,
        field_spec(c.sec_id_type@) + field_spec(c.sec_id@),
    )
}

pub(crate) fn push_str_field(msg: &mut String, s: &str)
    ensures
        final(msg)@ == old(msg)@ + field_spec(s@),
{
    msg.append(make_field_str(s).as_str());
}

pub(crate) fn push_i32_field(msg: &mut String, n: i32)
    ensures
        final(msg)@ == old(msg)@ + int_field(n as int),
{
    msg.append(make_field_i32(n).as_str());
}

pub(crate) fn push_bool_field(msg: &mut String, b: bool)
    ensures
        final(msg)@ == old(msg)@ + field_spec(bool_field_text(b)),
{
    msg.append(make_field_bool(b).as_str());
}

/// The message that `EClient::req_contract_details` sends.
pub fn req_contract_details_message(
    status: ConnStatus,
    server_version: i32,
    req_id: i32,
    contract: &ContractFields,
) -> (r: Result<String, IBKRApiLibError>)
    ensures
        status != ConnStatus::CONNECTED ==> (r matches Err(e) && is_api_error(
            e,
            req_id as int,
            TwsError::NotConnected,
        )),
        status == ConnStatus::CONNECTED ==> match contract_details_refusal(server_version, *contract) {
            Some(suffix) => r matches Err(e) && is_api_error_with(
                e,
                req_id as int,
                TwsError::UpdateTws,
                suffix,
            ),
            None => r matches Ok(m) && m@ == contract_details_text(server_version, req_id, *contract),
        },
{
    let c = contract;
    if !status.is_connected() {
        return Err(api_error(req_id, TwsError::NotConnected));
    }
    if server_version < MIN_SERVER_VER_SEC_ID_TYPE && (!c.sec_id_type.as_str().is_empty()
        || !c.sec_id.as_str().is_empty()) {
        return Err(
            api_error_with(req_id, TwsError::UpdateTws, " It does not support sec_id_type and secId parameters."),
        );
    }
    if server_version < MIN_SERVER_VER_TRADING_CLASS && !c.trading_class.as_str().is_empty() {
        return Err(
            api_error_with(
                req_id,
                TwsError::UpdateTws,
                " It does not support trading_class parameter in req_contract_details.",
            ),
        );
    }
    if server_version < MIN_SERVER_VER_LINKING && !c.primary_exchange.as_str().is_empty() {
        return Err(
            api_error_with(
                req_id,
                TwsError::UpdateTws,
                " It does not support primary_exchange parameter in req_contract_details.",
            ),
        );
    }
    let mut msg = String::new();
    push_i32_field(&mut msg, REQ_CONTRACT_DATA);
    push_i32_field(&mut msg, 8);
    if server_version >= MIN_SERVER_VER_CONTRACT_DATA_CHAIN {
        push_i32_field(&mut msg, req_id);
    }
    push_i32_field(&mut msg, c.con_id);
    push_str_field(&mut msg, c.symbol.as_str());
    push_str_field(&mut msg, c.sec_type.as_str());
    push_str_field(&mut msg, c.last_trade_date_or_contract_month.as_str());
    push_str_field(&mut msg, c.strike.as_str());
    push_str_field(&mut msg, c.right.as_str());
    push_str_field(&mut msg, c.multiplier.as_str());
    let ghost before_exchange = msg@;
    if server_version >= MIN_SERVER_VER_PRIMARYEXCH {
        push_str_field(&mut msg, c.exchange.as_str());
        push_str_field(&mut msg, c.primary_exchange.as_str());
    } else if server_version >= MIN_SERVER_VER_LINKING {
        proof {
            reveal_strlit("BEST");
            reveal_strlit("SMART");
            reveal_strlit(":");
        }
        if !c.primary_exchange.as_str().is_empty() && (c.exchange == String::from_str("BEST")
            || c.exchange == String::from_str("SMART")) {
            let mut joined = c.exchange.clone();
            joined.append(":");
            joined.append(c.primary_exchange.as_str());
            push_str_field(&mut msg, joined.as_str());
        }
    } else {
        push_str_field(&mut msg, c.exchange.as_str());
    }
    assert(msg@ =~= before_exchange + contract_details_exchange(server_version, *c));
    push_str_field(&mut msg, c.currency.as_str());
    push_str_field(&mut msg, c.local_symbol.as_str());
    if server_version >= MIN_SERVER_VER_TRADING_CLASS {
        push_str_field(&mut msg, c.trading_class.as_str());
        push_bool_field(&mut msg, c.include_expired);
    }
    if server_version >= MIN_SERVER_VER_SEC_ID_TYPE {
        push_str_field(&mut msg, c.sec_id_type.as_str());
        push_str_field(&mut msg, c.sec_id.as_str());
    }
    assert(msg@ =~= contract_details_text(server_version, req_id, *c));
    Ok(msg)
}


/// Why a market depth request is refused, if it is: the error and the text that follows its
/// message. Options, which TWS reserves for its own use, are refused last, after the server
/// version checks.
pub open spec fn mkt_depth_refusal(
    server_version: i32,
    c: ContractFields,
    is_smart_depth: bool,
    n_options: int,
) -> Option<(TwsError, Seq<char>)> {
    if server_version < MIN_SERVER_VER_TRADING_CLASS && (c.trading_class@.len() > 0 || c.con_id
        > 0) {
        Some(
            (
                TwsError::UpdateTws,
                " It does not support con_id and trading_class parameters in req_mkt_depth."@,
            ),
        )
    } else if server_version < MIN_SERVER_VER_SMART_DEPTH && is_smart_depth {
        Some((TwsError::UpdateTws, " It does not support SMART depth request."@))
    } else if server_version < MIN_SERVER_VER_MKT_DEPTH_PRIM_EXCHANGE && c.primary_exchange@.len()
        > 0 {
        Some((TwsError::UpdateTws, " It does not support primary_exchange parameter in req_mkt_depth."@))
    } else if server_version >= MIN_SERVER_VER_LINKING && n_options > 0 {
        Some((TwsError::Unsupported, " mkt_depth_options."@))
    } else {
        None
    }
}

/// The text of a market depth request.
pub open spec fn mkt_depth_text(
    server_version: i32,
    req_id: i32,
    c: ContractFields,
    num_rows: i32,
    is_smart_depth: bool,
) -> Seq<char> {
    int_field(REQ_MKT_DEPTH as int) + int_field(5) + int_field(req_id as int) + when(
        server_version >= MIN_SERVER_VER_TRADING_CLASS,
        int_field(c.con_id as int),
    ) + field_spec(c.symbol@) + field_spec(c.sec_type@) + field_spec(
        c.last_trade_date_or_contract_month@,
    ) + field_spec(c.strike@) + field_spec(c.right@) + field_spec(c.multiplier@) + field_spec(
        c.exchange@,
    ) + when(server_version >= MIN_SERVER_VER_MKT_DEPTH_PRIM_EXCHANGE, field_spec(c.primary_exchange@))
        + field_spec(c.currency@) + field_spec(c.local_symbol@) + when(
        server_version >= MIN_SERVER_VER_TRADING_CLASS,
        field_spec(c.trading_class@),
    ) + int_field(num_rows as int) + when(
        server_version >= MIN_SERVER_VER_SMART_DEPTH,
        field_spec(bool_field_text(is_smart_depth)),
    ) + when(server_version >= MIN_SERVER_VER_LINKING, field_spec(Seq::empty()))
}

/// The message that `EClient::req_mkt_depth` sends.
pub fn req_mkt_depth_message(
    status: ConnStatus,
    server_version: i32,
    req_id: i32,
    contract: &ContractFields,
    num_rows: i32,
    is_smart_depth: bool,
    mkt_depth_options: &Vec<TagValue>,
) -> (r: Result<String, IBKRApiLibError>)
    ensures
        status != ConnStatus::CONNECTED ==> (r matches Err(e) && is_api_error(
            e,
            NO_VALID_ID as int,
            TwsError::NotConnected,
        )),
        status == ConnStatus::CONNECTED ==> match mkt_depth_refusal(
            server_version,
            *contract,
            is_smart_depth,
            mkt_depth_options.len() as int,
        ) {
            Some((kind, suffix)) => r matches Err(e) && is_api_error_with(
                e,
                req_id as int,
                kind,
                suffix,
            ),
            None => r matches Ok(m) && m@ == mkt_depth_text(
                server_version,
                req_id,
                *contract,
                num_rows,
                is_smart_depth,
            ),
        },
{
    let c = contract;
    if !status.is_connected() {
        return Err(api_error(NO_VALID_ID, TwsError::NotConnected));
    }
    if server_version < MIN_SERVER_VER_TRADING_CLASS && (!c.trading_class.as_str().is_empty()
        || c.con_id > 0) {
        return Err(
            api_error_with(
                req_id,
                TwsError::UpdateTws,
                " It does not support con_id and trading_class parameters in req_mkt_depth.",
            ),
        );
    }
    if server_version < MIN_SERVER_VER_SMART_DEPTH && is_smart_depth {
        return Err(api_error_with(req_id, TwsError::UpdateTws, " It does not support SMART depth request."));
    }
    if server_version < MIN_SERVER_VER_MKT_DEPTH_PRIM_EXCHANGE && !c.primary_exchange.as_str().is_empty() {
        return Err(
            api_error_with(
                req_id,
                TwsError::UpdateTws,
                " It does not support primary_exchange parameter in req_mkt_depth.",
            ),
        );
    }
    let mut msg = String::new();
    push_i32_field(&mut msg, REQ_MKT_DEPTH);
    push_i32_field(&mut msg, 5);
    push_i32_field(&mut msg, req_id);
    if server_version >= MIN_SERVER_VER_TRADING_CLASS {
        push_i32_field(&mut msg, c.con_id);
    }
    push_str_field(&mut msg, c.symbol.as_str());
    push_str_field(&mut msg, c.sec_type.as_str());
    push_str_field(&mut msg, c.last_trade_date_or_contract_month.as_str());
    push_str_field(&mut msg, c.strike.as_str());
    push_str_field(&mut msg, c.right.as_str());
    push_str_field(&mut msg, c.multiplier.as_str());
    push_str_field(&mut msg, c.exchange.as_str());
    if server_version >= MIN_SERVER_VER_MKT_DEPTH_PRIM_EXCHANGE {
        push_str_field(&mut msg, c.primary_exchange.as_str());
    }
    push_str_field(&mut msg, c.currency.as_str());
    push_str_field(&mut msg, c.local_symbol.as_str());
    if server_version >= MIN_SERVER_VER_TRADING_CLASS {
        push_str_field(&mut msg, c.trading_class.as_str());
    }
    push_i32_field(&mut msg, num_rows);
    if server_version >= MIN_SERVER_VER_SMART_DEPTH {
        push_bool_field(&mut msg, is_smart_depth);
    }
    if server_version >= MIN_SERVER_VER_LINKING {
        if mkt_depth_options.len() > 0 {
            return Err(api_error_with(req_id, TwsError::Unsupported, " mkt_depth_options."));
        }
        proof {
            reveal_strlit("");
        }
        push_str_field(&mut msg, "");
    }
    assert(msg@ =~= mkt_depth_text(server_version, req_id, *c, num_rows, is_smart_depth));
    Ok(msg)
}


/// The fields of a combo leg: contract id, ratio, action and exchange.
pub open spec fn combo_leg_text(leg: ComboLegFields) -> Seq<char> {
    int_field(leg.con_id as int) + field_spec(leg.ratio@) + field_spec(leg.action@) + field_spec(
        leg.exchange@,
    )
}

/// The fields of combo legs, one leg after the other.
pub open spec fn combo_legs_text(legs: Seq<ComboLegFields>) -> Seq<char>
    decreases legs.len(),
{
    if legs.len() == 0 {
        Seq::empty()
    } else {
        combo_legs_text(legs.drop_last()) + combo_leg_text(legs.last())
    }
}

/// The delta-neutral fields of a market data request: a flag, then for a delta-neutral
/// contract its contract id, delta and price.
pub open spec fn delta_neutral_text(d: Option<DeltaNeutralFields>) -> Seq<char> {
    match d {
        Some(d) => field_spec(bool_field_text(true)) + int_field(d.con_id as int) + field_spec(
            d.delta@,
        ) + field_spec(d.price@),
        None => field_spec(bool_field_text(false)),
    }
}

/// Why a market data request is refused, if it is: the error and the text that follows its
/// message. A contract id sent to a server that cannot take one is refused as `NotConnected`;
/// options, which TWS reserves for its own use, are refused last.
pub open spec fn mkt_data_refusal(
    server_version: i32,
    c: ContractFields,
    n_options: int,
) -> Option<(TwsError, Seq<char>)> {
    if server_version < MIN_SERVER_VER_DELTA_NEUTRAL && c.delta_neutral_contract is Some {
        Some((TwsError::UpdateTws, " It does not support delta-neutral orders."@))
    } else if server_version < MIN_SERVER_VER_REQ_MKT_DATA_CONID && c.con_id > 0 {
        Some((TwsError::NotConnected, Seq::empty()))
    } else if server_version < MIN_SERVER_VER_TRADING_CLASS && c.trading_class@.len() > 0 {
        Some((TwsError::UpdateTws, " It does not support trading_class parameter in req_mkt_data."@))
    } else if server_version >= MIN_SERVER_VER_LINKING && n_options > 0 {
        Some((TwsError::UpdateTws, " Internal use only.  mkt_data_options not supported."@))
    } else {
        None
    }
}

/// The text of a market data request. Servers too old for contract ids get none of the
/// contract's fields; a `BAG` contract adds the count and fields of its combo legs.
pub open spec fn mkt_data_text(
    server_version: i32,
    req_id: i32,
    c: ContractFields,
    generic_tick_list: Seq<char>,
    snapshot: bool,
    regulatory_snapshot: bool,
) -> Seq<char> {
    int_field(REQ_MKT_DATA as int) + int_field(11) + int_field(req_id as int) + when(
        server_version >= MIN_SERVER_VER_REQ_MKT_DATA_CONID,
        int_field(c.con_id as int) + field_spec(c.symbol@) + field_spec(c.sec_type@) + field_spec(
            c.last_trade_date_or_contract_month@,
        ) + field_spec(c.strike@) + field_spec(c.right@) + field_spec(c.multiplier@) + field_spec(
            c.exchange@,
        ) + field_spec(c.primary_exchange@) + field_spec(c.currency@) + field_spec(c.local_symbol@),
    ) + when(server_version >= MIN_SERVER_VER_TRADING_CLASS, field_spec(c.trading_class@)) + when(
        c.sec_type@ == "BAG"@,
        int_field(c.combo_legs@.len() as int) + combo_legs_text(c.combo_legs@),
    ) + when(
        server_version >= MIN_SERVER_VER_DELTA_NEUTRAL,
        delta_neutral_text(c.delta_neutral_contract) + field_spec(generic_tick_list) + field_spec(
            bool_field_text(snapshot),
        ),
    ) + when(
        server_version >= MIN_SERVER_VER_REQ_SMART_COMPONENTS,
        field_spec(bool_field_text(regulatory_snapshot)),
    ) + when(server_version >= MIN_SERVER_VER_LINKING, field_spec(Seq::empty()))
}


/// Appends the contract's fields of a market data request.
fn push_mkt_data_contract(msg: &mut String, server_version: i32, c: &ContractFields)
    ensures
        final(msg)@ == old(msg)@ + when(
            server_version >= MIN_SERVER_VER_REQ_MKT_DATA_CONID,
            int_field(c.con_id as int) + field_spec(c.symbol@) + field_spec(c.sec_type@)
                + field_spec(c.last_trade_date_or_contract_month@) + field_spec(c.strike@)
                + field_spec(c.right@) + field_spec(c.multiplier@) + field_spec(c.exchange@)
                + field_spec(c.primary_exchange@) + field_spec(c.currency@) + field_spec(
                c.local_symbol@,
            ),
        ) + when(server_version >= MIN_SERVER_VER_TRADING_CLASS, field_spec(c.trading_class@)),
{
    let ghost start = msg@;
    if server_version >= MIN_SERVER_VER_REQ_MKT_DATA_CONID {
        push_i32_field(msg, c.con_id);
        push_str_field(msg, c.symbol.as_str());
        push_str_field(msg, c.sec_type.as_str());
        push_str_field(msg, c.last_trade_date_or_contract_month.as_str());
        push_str_field(msg, c.strike.as_str());
        push_str_field(msg, c.right.as_str());
        push_str_field(msg, c.multiplier.as_str());
        push_str_field(msg, c.exchange.as_str());
        push_str_field(msg, c.primary_exchange.as_str());
        push_str_field(msg, c.currency.as_str());
        push_str_field(msg, c.local_symbol.as_str());
    }
    if server_version >= MIN_SERVER_VER_TRADING_CLASS {
        push_str_field(msg, c.trading_class.as_str());
    }
    assert(msg@ =~= start + when(
        server_version >= MIN_SERVER_VER_REQ_MKT_DATA_CONID,
        int_field(c.con_id as int) + field_spec(c.symbol@) + field_spec(c.sec_type@) + field_spec(
            c.last_trade_date_or_contract_month@,
        ) + field_spec(c.strike@) + field_spec(c.right@) + field_spec(c.multiplier@) + field_spec(
            c.exchange@,
        ) + field_spec(c.primary_exchange@) + field_spec(c.currency@) + field_spec(c.local_symbol@),
    ) + when(server_version >= MIN_SERVER_VER_TRADING_CLASS, field_spec(c.trading_class@)));
}

/// Appends a `BAG` contract's combo legs: their count, then each leg's fields.
pub(crate) fn push_combo_legs(msg: &mut String, c: &ContractFields)
    requires
        c.combo_legs@.len() <= i64::MAX,
    ensures
        final(msg)@ == old(msg)@ + when(
            c.sec_type@ == "BAG"@,
            int_field(c.combo_legs@.len() as int) + combo_legs_text(c.combo_legs@),
        ),
{
    let ghost start = msg@;
    proof {
        reveal_strlit("BAG");
    }
    if c.sec_type == String::from_str("BAG") {
        let n = c.combo_legs.len();
        let mut count = String::new();
        push_int_text(&mut count, n as i64);
        push_str_field(msg, count.as_str());
        let ghost with_count = msg@;
        let mut i: usize = 0;
        assert(c.combo_legs@.take(0) =~= Seq::<ComboLegFields>::empty());
        while i < n
            invariant
                n == c.combo_legs@.len(),
                i <= n,
                msg@ == with_count + combo_legs_text(c.combo_legs@.take(i as int)),
            decreases n - i,
        {
            let leg = &c.combo_legs[i];
            push_i32_field(msg, leg.con_id);
            push_str_field(msg, leg.ratio.as_str());
            push_str_field(msg, leg.action.as_str());
            push_str_field(msg, leg.exchange.as_str());
            assert(c.combo_legs@.take(i + 1).drop_last() =~= c.combo_legs@.take(i as int));
            i = i + 1;
            assert(msg@ =~= with_count + combo_legs_text(c.combo_legs@.take(i as int)));
        }
        assert(c.combo_legs@.take(n as int) =~= c.combo_legs@);
    }
    assert(msg@ =~= start + when(
        c.sec_type@ == "BAG"@,
        int_field(c.combo_legs@.len() as int) + combo_legs_text(c.combo_legs@),
    ));
}

/// Appends the delta-neutral fields of a market data request.
pub(crate) fn push_delta_neutral(msg: &mut String, d: &Option<DeltaNeutralFields>)
    ensures
        final(msg)@ == old(msg)@ + delta_neutral_text(*d),
{
    let ghost start = msg@;
    match d {
        Some(d) => {
            push_bool_field(msg, true);
            push_i32_field(msg, d.con_id);
            push_str_field(msg, d.delta.as_str());
            push_str_field(msg, d.price.as_str());
        },
        None => {
            push_bool_field(msg, false);
        },
    }
    assert(msg@ =~= start + delta_neutral_text(*d));
}

/// The message that `EClient::req_mkt_data` sends.
pub fn req_mkt_data_message(
    status: ConnStatus,
    server_version: i32,
    req_id: i32,
    contract: &ContractFields,
    generic_tick_list: &str,
    snapshot: bool,
    regulatory_snapshot: bool,
    mkt_data_options: &Vec<TagValue>,
) -> (r: Result<String, IBKRApiLibError>)
    requires
        contract.combo_legs@.len() <= i64::MAX,
    ensures
        status != ConnStatus::CONNECTED ==> (r matches Err(e) && is_api_error(
            e,
            req_id as int,
            TwsError::NotConnected,
        )),
        status == ConnStatus::CONNECTED ==> match mkt_data_refusal(
            server_version,
            *contract,
            mkt_data_options.len() as int,
        ) {
            Some((kind, suffix)) => r matches Err(e) && is_api_error_with(
                e,
                req_id as int,
                kind,
                suffix,
            ),
            None => r matches Ok(m) && m@ == mkt_data_text(
                server_version,
                req_id,
                *contract,
                generic_tick_list@,
                snapshot,
                regulatory_snapshot,
            ),
        },
{
    let c = contract;
    if !status.is_connected() {
        return Err(api_error(req_id, TwsError::NotConnected));
    }
    if server_version < MIN_SERVER_VER_DELTA_NEUTRAL && c.delta_neutral_contract.is_some() {
        return Err(api_error_with(req_id, TwsError::UpdateTws, " It does not support delta-neutral orders."));
    }
    if server_version < MIN_SERVER_VER_REQ_MKT_DATA_CONID && c.con_id > 0 {
        proof {
            reveal_strlit("");
        }
        return Err(api_error_with(req_id, TwsError::NotConnected, ""));
    }
    if server_version < MIN_SERVER_VER_TRADING_CLASS && !c.trading_class.as_str().is_empty() {
        return Err(
            api_error_with(
                req_id,
                TwsError::UpdateTws,
                " It does not support trading_class parameter in req_mkt_data.",
            ),
        );
    }
    let mut msg = String::new();
    push_i32_field(&mut msg, REQ_MKT_DATA);
    push_i32_field(&mut msg, 11);
    push_i32_field(&mut msg, req_id);
    push_mkt_data_contract(&mut msg, server_version, c);
    push_combo_legs(&mut msg, c);
    if server_version >= MIN_SERVER_VER_DELTA_NEUTRAL {
        push_delta_neutral(&mut msg, &c.delta_neutral_contract);
        push_str_field(&mut msg, generic_tick_list);
        push_bool_field(&mut msg, snapshot);
    }
    if server_version >= MIN_SERVER_VER_REQ_SMART_COMPONENTS {
        push_bool_field(&mut msg, regulatory_snapshot);
    }
    if server_version >= MIN_SERVER_VER_LINKING {
        if mkt_data_options.len() > 0 {
            return Err(
                api_error_with(
                    req_id,
                    TwsError::UpdateTws,
                    " Internal use only.  mkt_data_options not supported.",
                ),
            );
        }
        proof {
            reveal_strlit("");
        }
        push_str_field(&mut msg, "");
    }
    assert(msg@ =~= mkt_data_text(
        server_version,
        req_id,
        *c,
        generic_tick_list@,
        snapshot,
        regulatory_snapshot,
    ));
    Ok(msg)
}

/// The message id, version and request id of a market data request, then the contract's id, symbol, security type, expiry, strike, right, multiplier, exchange, primary exchange, currency, local symbol and trading class.
pub open spec fn mkt_data_lead_fields(req_id: i32, c: ContractFields) -> Seq<Seq<char>> {
    Seq::<Seq<char>>::empty()
        .push(int_text(REQ_MKT_DATA as int))
        .push(int_text(11))
        .push(int_text(req_id as int))
        .push(int_text(c.con_id as int))
        .push(c.symbol@)
        .push(c.sec_type@)
        .push(c.last_trade_date_or_contract_month@)
        .push(c.strike@)
        .push(c.right@)
        .push(c.multiplier@)
        .push(c.exchange@)
        .push(c.primary_exchange@)
        .push(c.currency@)
        .push(c.local_symbol@)
        .push(c.trading_class@)
}

#[verifier::rlimit(50)]
proof fn lemma_mkt_data_lead_fields(req_id: i32, c: ContractFields)
    ensures
        join_fields(mkt_data_lead_fields(req_id, c)) == field_spec(int_text(REQ_MKT_DATA as int)) + field_spec(int_text(11)) + field_spec(int_text(req_id as int)) + field_spec(int_text(c.con_id as int)) + field_spec(c.symbol@) + field_spec(c.sec_type@) + field_spec(c.last_trade_date_or_contract_month@) + field_spec(c.strike@) + field_spec(c.right@) + field_spec(c.multiplier@) + field_spec(c.exchange@) + field_spec(c.primary_exchange@) + field_spec(c.currency@) + field_spec(c.local_symbol@) + field_spec(c.trading_class@),
{
    lemma_join_push(Seq::<Seq<char>>::empty(), int_text(REQ_MKT_DATA as int));
    lemma_join_push(Seq::<Seq<char>>::empty().push(int_text(REQ_MKT_DATA as int)), int_text(11));
    lemma_join_push(Seq::<Seq<char>>::empty().push(int_text(REQ_MKT_DATA as int)).push(int_text(11)), int_text(req_id as int));
    lemma_join_push(Seq::<Seq<char>>::empty().push(int_text(REQ_MKT_DATA as int)).push(int_text(11)).push(int_text(req_id as int)), int_text(c.con_id as int));
    lemma_join_push(Seq::<Seq<char>>::empty().push(int_text(REQ_MKT_DATA as int)).push(int_text(11)).push(int_text(req_id as int)).push(int_text(c.con_id as int)), c.symbol@);
    lemma_join_push(Seq::<Seq<char>>::empty().push(int_text(REQ_MKT_DATA as int)).push(int_text(11)).push(int_text(req_id as int)).push(int_text(c.con_id as int)).push(c.symbol@), c.sec_type@);
    lemma_join_push(Seq::<Seq<char>>::empty().push(int_text(REQ_MKT_DATA as int)).push(int_text(11)).push(int_text(req_id as int)).push(int_text(c.con_id as int)).push(c.symbol@).push(c.sec_type@), c.last_trade_date_or_contract_month@);
    lemma_join_push(Seq::<Seq<char>>::empty().push(int_text(REQ_MKT_DATA as int)).push(int_text(11)).push(int_text(req_id as int)).push(int_text(c.con_id as int)).push(c.symbol@).push(c.sec_type@).push(c.last_trade_date_or_contract_month@), c.strike@);
    lemma_join_push(Seq::<Seq<char>>::empty().push(int_text(REQ_MKT_DATA as int)).push(int_text(11)).push(int_text(req_id as int)).push(int_text(c.con_id as int)).push(c.symbol@).push(c.sec_type@).push(c.last_trade_date_or_contract_month@).push(c.strike@), c.right@);
    lemma_join_push(Seq::<Seq<char>>::empty().push(int_text(REQ_MKT_DATA as int)).push(int_text(11)).push(int_text(req_id as int)).push(int_text(c.con_id as int)).push(c.symbol@).push(c.sec_type@).push(c.last_trade_date_or_contract_month@).push(c.strike@).push(c.right@), c.multiplier@);
    lemma_join_push(Seq::<Seq<char>>::empty().push(int_text(REQ_MKT_DATA as int)).push(int_text(11)).push(int_text(req_id as int)).push(int_text(c.con_id as int)).push(c.symbol@).push(c.sec_type@).push(c.last_trade_date_or_contract_month@).push(c.strike@).push(c.right@).push(c.multiplier@), c.exchange@);
    lemma_join_push(Seq::<Seq<char>>::empty().push(int_text(REQ_MKT_DATA as int)).push(int_text(11)).push(int_text(req_id as int)).push(int_text(c.con_id as int)).push(c.symbol@).push(c.sec_type@).push(c.last_trade_date_or_contract_month@).push(c.strike@).push(c.right@).push(c.multiplier@).push(c.exchange@), c.primary_exchange@);
    lemma_join_push(Seq::<Seq<char>>::empty().push(int_text(REQ_MKT_DATA as int)).push(int_text(11)).push(int_text(req_id as int)).push(int_text(c.con_id as int)).push(c.symbol@).push(c.sec_type@).push(c.last_trade_date_or_contract_month@).push(c.strike@).push(c.right@).push(c.multiplier@).push(c.exchange@).push(c.primary_exchange@), c.currency@);
    lemma_join_push(Seq::<Seq<char>>::empty().push(int_text(REQ_MKT_DATA as int)).push(int_text(11)).push(int_text(req_id as int)).push(int_text(c.con_id as int)).push(c.symbol@).push(c.sec_type@).push(c.last_trade_date_or_contract_month@).push(c.strike@).push(c.right@).push(c.multiplier@).push(c.exchange@).push(c.primary_exchange@).push(c.currency@), c.local_symbol@);
    lemma_join_push(Seq::<Seq<char>>::empty().push(int_text(REQ_MKT_DATA as int)).push(int_text(11)).push(int_text(req_id as int)).push(int_text(c.con_id as int)).push(c.symbol@).push(c.sec_type@).push(c.last_trade_date_or_contract_month@).push(c.strike@).push(c.right@).push(c.multiplier@).push(c.exchange@).push(c.primary_exchange@).push(c.currency@).push(c.local_symbol@), c.trading_class@);
    assert(join_fields(Seq::<Seq<char>>::empty()) == Seq::<char>::empty());
    assert(join_fields(mkt_data_lead_fields(req_id, c)) =~= field_spec(int_text(REQ_MKT_DATA as int)) + field_spec(int_text(11)) + field_spec(int_text(req_id as int)) + field_spec(int_text(c.con_id as int)) + field_spec(c.symbol@) + field_spec(c.sec_type@) + field_spec(c.last_trade_date_or_contract_month@) + field_spec(c.strike@) + field_spec(c.right@) + field_spec(c.multiplier@) + field_spec(c.exchange@) + field_spec(c.primary_exchange@) + field_spec(c.currency@) + field_spec(c.local_symbol@) + field_spec(c.trading_class@));
}

/// The generic tick list, the snapshot and regulatory snapshot flags, and the empty options field of a market data request.
pub open spec fn mkt_data_tail_fields(generic_tick_list: Seq<char>, snapshot: bool, regulatory_snapshot: bool) -> Seq<Seq<char>> {
    Seq::<Seq<char>>::empty()
        .push(generic_tick_list)
        .push(bool_field_text(snapshot))
        .push(bool_field_text(regulatory_snapshot))
        .push(Seq::<char>::empty())
}

#[verifier::rlimit(50)]
proof fn lemma_mkt_data_tail_fields(generic_tick_list: Seq<char>, snapshot: bool, regulatory_snapshot: bool)
    ensures
        join_fields(mkt_data_tail_fields(generic_tick_list, snapshot, regulatory_snapshot)) == field_spec(generic_tick_list) + field_spec(bool_field_text(snapshot)) + field_spec(bool_field_text(regulatory_snapshot)) + field_spec(Seq::<char>::empty()),
{
    lemma_join_push(Seq::<Seq<char>>::empty(), generic_tick_list);
    lemma_join_push(Seq::<Seq<char>>::empty().push(generic_tick_list), bool_field_text(snapshot));
    lemma_join_push(Seq::<Seq<char>>::empty().push(generic_tick_list).push(bool_field_text(snapshot)), bool_field_text(regulatory_snapshot));
    lemma_join_push(Seq::<Seq<char>>::empty().push(generic_tick_list).push(bool_field_text(snapshot)).push(bool_field_text(regulatory_snapshot)), Seq::<char>::empty());
    assert(join_fields(Seq::<Seq<char>>::empty()) == Seq::<char>::empty());
    assert(join_fields(mkt_data_tail_fields(generic_tick_list, snapshot, regulatory_snapshot)) =~= field_spec(generic_tick_list) + field_spec(bool_field_text(snapshot)) + field_spec(bool_field_text(regulatory_snapshot)) + field_spec(Seq::<char>::empty()));
}

/// The fields of a market depth request: message id, version, request id, the contract's id, symbol, security type, expiry, strike, right, multiplier, exchange, primary exchange, currency, local symbol and trading class, the number of rows, the SMART-depth flag and the empty options field.
pub open spec fn mkt_depth_fields(req_id: i32, c: ContractFields, num_rows: i32, is_smart_depth: bool) -> Seq<Seq<char>> {
    Seq::<Seq<char>>::empty()
        .push(int_text(REQ_MKT_DEPTH as int))
        .push(int_text(5))
        .push(int_text(req_id as int))
        .push(int_text(c.con_id as int))
        .push(c.symbol@)
        .push(c.sec_type@)
        .push(c.last_trade_date_or_contract_month@)
        .push(c.strike@)
        .push(c.right@)
        .push(c.multiplier@)
        .push(c.exchange@)
        .push(c.primary_exchange@)
        .push(c.currency@)
        .push(c.local_symbol@)
        .push(c.trading_class@)
        .push(int_text(num_rows as int))
        .push(bool_field_text(is_smart_depth))
        .push(Seq::<char>::empty())
}

#[verifier::rlimit(50)]
proof fn lemma_mkt_depth_fields(req_id: i32, c: ContractFields, num_rows: i32, is_smart_depth: bool)
    ensures
        join_fields(mkt_depth_fields(req_id, c, num_rows, is_smart_depth)) == field_spec(int_text(REQ_MKT_DEPTH as int)) + field_spec(int_text(5)) + field_spec(int_text(req_id as int)) + field_spec(int_text(c.con_id as int)) + field_spec(c.symbol@) + field_spec(c.sec_type@) + field_spec(c.last_trade_date_or_contract_month@) + field_spec(c.strike@) + field_spec(c.right@) + field_spec(c.multiplier@) + field_spec(c.exchange@) + field_spec(c.primary_exchange@) + field_spec(c.currency@) + field_spec(c.local_symbol@) + field_spec(c.trading_class@) + field_spec(int_text(num_rows as int)) + field_spec(bool_field_text(is_smart_depth)) + field_spec(Seq::<char>::empty()),
{
    lemma_join_push(Seq::<Seq<char>>::empty(), int_text(REQ_MKT_DEPTH as int));
    lemma_join_push(Seq::<Seq<char>>::empty().push(int_text(REQ_MKT_DEPTH as int)), int_text(5));
    lemma_join_push(Seq::<Seq<char>>::empty().push(int_text(REQ_MKT_DEPTH as int)).push(int_text(5)), int_text(req_id as int));
    lemma_join_push(Seq::<Seq<char>>::empty().push(int_text(REQ_MKT_DEPTH as int)).push(int_text(5)).push(int_text(req_id as int)), int_text(c.con_id as int));
    lemma_join_push(Seq::<Seq<char>>::empty().push(int_text(REQ_MKT_DEPTH as int)).push(int_text(5)).push(int_text(req_id as int)).push(int_text(c.con_id as int)), c.symbol@);
    lemma_join_push(Seq::<Seq<char>>::empty().push(int_text(REQ_MKT_DEPTH as int)).push(int_text(5)).push(int_text(req_id as int)).push(int_text(c.con_id as int)).push(c.symbol@), c.sec_type@);
    lemma_join_push(Seq::<Seq<char>>::empty().push(int_text(REQ_MKT_DEPTH as int)).push(int_text(5)).push(int_text(req_id as int)).push(int_text(c.con_id as int)).push(c.symbol@).push(c.sec_type@), c.last_trade_date_or_contract_month@);
    lemma_join_push(Seq::<Seq<char>>::empty().push(int_text(REQ_MKT_DEPTH as int)).push(int_text(5)).push(int_text(req_id as int)).push(int_text(c.con_id as int)).push(c.symbol@).push(c.sec_type@).push(c.last_trade_date_or_contract_month@), c.strike@);
    lemma_join_push(Seq::<Seq<char>>::empty().push(int_text(REQ_MKT_DEPTH as int)).push(int_text(5)).push(int_text(req_id as int)).push(int_text(c.con_id as int)).push(c.symbol@).push(c.sec_type@).push(c.last_trade_date_or_contract_month@).push(c.strike@), c.right@);
    lemma_join_push(Seq::<Seq<char>>::empty().push(int_text(REQ_MKT_DEPTH as int)).push(int_text(5)).push(int_text(req_id as int)).push(int_text(c.con_id as int)).push(c.symbol@).push(c.sec_type@).push(c.last_trade_date_or_contract_month@).push(c.strike@).push(c.right@), c.multiplier@);
    lemma_join_push(Seq::<Seq<char>>::empty().push(int_text(REQ_MKT_DEPTH as int)).push(int_text(5)).push(int_text(req_id as int)).push(int_text(c.con_id as int)).push(c.symbol@).push(c.sec_type@).push(c.last_trade_date_or_contract_month@).push(c.strike@).push(c.right@).push(c.multiplier@), c.exchange@);
    lemma_join_push(Seq::<Seq<char>>::empty().push(int_text(REQ_MKT_DEPTH as int)).push(int_text(5)).push(int_text(req_id as int)).push(int_text(c.con_id as int)).push(c.symbol@).push(c.sec_type@).push(c.last_trade_date_or_contract_month@).push(c.strike@).push(c.right@).push(c.multiplier@).push(c.exchange@), c.primary_exchange@);
    lemma_join_push(Seq::<Seq<char>>::empty().push(int_text(REQ_MKT_DEPTH as int)).push(int_text(5)).push(int_text(req_id as int)).push(int_text(c.con_id as int)).push(c.symbol@).push(c.sec_type@).push(c.last_trade_date_or_contract_month@).push(c.strike@).push(c.right@).push(c.multiplier@).push(c.exchange@).push(c.primary_exchange@), c.currency@);
    lemma_join_push(Seq::<Seq<char>>::empty().push(int_text(REQ_MKT_DEPTH as int)).push(int_text(5)).push(int_text(req_id as int)).push(int_text(c.con_id as int)).push(c.symbol@).push(c.sec_type@).push(c.last_trade_date_or_contract_month@).push(c.strike@).push(c.right@).push(c.multiplier@).push(c.exchange@).push(c.primary_exchange@).push(c.currency@), c.local_symbol@);
    lemma_join_push(Seq::<Seq<char>>::empty().push(int_text(REQ_MKT_DEPTH as int)).push(int_text(5)).push(int_text(req_id as int)).push(int_text(c.con_id as int)).push(c.symbol@).push(c.sec_type@).push(c.last_trade_date_or_contract_month@).push(c.strike@).push(c.right@).push(c.multiplier@).push(c.exchange@).push(c.primary_exchange@).push(c.currency@).push(c.local_symbol@), c.trading_class@);
    lemma_join_push(Seq::<Seq<char>>::empty().push(int_text(REQ_MKT_DEPTH as int)).push(int_text(5)).push(int_text(req_id as int)).push(int_text(c.con_id as int)).push(c.symbol@).push(c.sec_type@).push(c.last_trade_date_or_contract_month@).push(c.strike@).push(c.right@).push(c.multiplier@).push(c.exchange@).push(c.primary_exchange@).push(c.currency@).push(c.local_symbol@).push(c.trading_class@), int_text(num_rows as int));
    lemma_join_push(Seq::<Seq<char>>::empty().push(int_text(REQ_MKT_DEPTH as int)).push(int_text(5)).push(int_text(req_id as int)).push(int_text(c.con_id as int)).push(c.symbol@).push(c.sec_type@).push(c.last_trade_date_or_contract_month@).push(c.strike@).push(c.right@).push(c.multiplier@).push(c.exchange@).push(c.primary_exchange@).push(c.currency@).push(c.local_symbol@).push(c.trading_class@).push(int_text(num_rows as int)), bool_field_text(is_smart_depth));
    lemma_join_push(Seq::<Seq<char>>::empty().push(int_text(REQ_MKT_DEPTH as int)).push(int_text(5)).push(int_text(req_id as int)).push(int_text(c.con_id as int)).push(c.symbol@).push(c.sec_type@).push(c.last_trade_date_or_contract_month@).push(c.strike@).push(c.right@).push(c.multiplier@).push(c.exchange@).push(c.primary_exchange@).push(c.currency@).push(c.local_symbol@).push(c.trading_class@).push(int_text(num_rows as int)).push(bool_field_text(is_smart_depth)), Seq::<char>::empty());
    assert(join_fields(Seq::<Seq<char>>::empty()) == Seq::<char>::empty());
    assert(join_fields(mkt_depth_fields(req_id, c, num_rows, is_smart_depth)) =~= field_spec(int_text(REQ_MKT_DEPTH as int)) + field_spec(int_text(5)) + field_spec(int_text(req_id as int)) + field_spec(int_text(c.con_id as int)) + field_spec(c.symbol@) + field_spec(c.sec_type@) + field_spec(c.last_trade_date_or_contract_month@) + field_spec(c.strike@) + field_spec(c.right@) + field_spec(c.multiplier@) + field_spec(c.exchange@) + field_spec(c.primary_exchange@) + field_spec(c.currency@) + field_spec(c.local_symbol@) + field_spec(c.trading_class@) + field_spec(int_text(num_rows as int)) + field_spec(bool_field_text(is_smart_depth)) + field_spec(Seq::<char>::empty()));
}

/// The fields of a contract details request: message id, version, request id, the contract's id, symbol, security type, expiry, strike, right, multiplier, exchange, primary exchange, currency, local symbol, trading class, include-expired flag, security id type and security id.
pub open spec fn contract_details_fields(req_id: i32, c: ContractFields) -> Seq<Seq<char>> {
    Seq::<Seq<char>>::empty()
        .push(int_text(REQ_CONTRACT_DATA as int))
        .push(int_text(8))
        .push(int_text(req_id as int))
        .push(int_text(c.con_id as int))
        .push(c.symbol@)
        .push(c.sec_type@)
        .push(c.last_trade_date_or_contract_month@)
        .push(c.strike@)
        .push(c.right@)
        .push(c.multiplier@)
        .push(c.exchange@)
        .push(c.primary_exchange@)
        .push(c.currency@)
        .push(c.local_symbol@)
        .push(c.trading_class@)
        .push(bool_field_text(c.include_expired))
        .push(c.sec_id_type@)
        .push(c.sec_id@)
}

#[verifier::rlimit(50)]
proof fn lemma_contract_details_fields(req_id: i32, c: ContractFields)
    ensures
        join_fields(contract_details_fields(req_id, c)) == field_spec(int_text(REQ_CONTRACT_DATA as int)) + field_spec(int_text(8)) + field_spec(int_text(req_id as int)) + field_spec(int_text(c.con_id as int)) + field_spec(c.symbol@) + field_spec(c.sec_type@) + field_spec(c.last_trade_date_or_contract_month@) + field_spec(c.strike@) + field_spec(c.right@) + field_spec(c.multiplier@) + field_spec(c.exchange@) + field_spec(c.primary_exchange@) + field_spec(c.currency@) + field_spec(c.local_symbol@) + field_spec(c.trading_class@) + field_spec(bool_field_text(c.include_expired)) + field_spec(c.sec_id_type@) + field_spec(c.sec_id@),
{
    lemma_join_push(Seq::<Seq<char>>::empty(), int_text(REQ_CONTRACT_DATA as int));
    lemma_join_push(Seq::<Seq<char>>::empty().push(int_text(REQ_CONTRACT_DATA as int)), int_text(8));
    lemma_join_push(Seq::<Seq<char>>::empty().push(int_text(REQ_CONTRACT_DATA as int)).push(int_text(8)), int_text(req_id as int));
    lemma_join_push(Seq::<Seq<char>>::empty().push(int_text(REQ_CONTRACT_DATA as int)).push(int_text(8)).push(int_text(req_id as int)), int_text(c.con_id as int));
    lemma_join_push(Seq::<Seq<char>>::empty().push(int_text(REQ_CONTRACT_DATA as int)).push(int_text(8)).push(int_text(req_id as int)).push(int_text(c.con_id as int)), c.symbol@);
    lemma_join_push(Seq::<Seq<char>>::empty().push(int_text(REQ_CONTRACT_DATA as int)).push(int_text(8)).push(int_text(req_id as int)).push(int_text(c.con_id as int)).push(c.symbol@), c.sec_type@);
    lemma_join_push(Seq::<Seq<char>>::empty().push(int_text(REQ_CONTRACT_DATA as int)).push(int_text(8)).push(int_text(req_id as int)).push(int_text(c.con_id as int)).push(c.symbol@).push(c.sec_type@), c.last_trade_date_or_contract_month@);
    lemma_join_push(Seq::<Seq<char>>::empty().push(int_text(REQ_CONTRACT_DATA as int)).push(int_text(8)).push(int_text(req_id as int)).push(int_text(c.con_id as int)).push(c.symbol@).push(c.sec_type@).push(c.last_trade_date_or_contract_month@), c.strike@);
    lemma_join_push(Seq::<Seq<char>>::empty().push(int_text(REQ_CONTRACT_DATA as int)).push(int_text(8)).push(int_text(req_id as int)).push(int_text(c.con_id as int)).push(c.symbol@).push(c.sec_type@).push(c.last_trade_date_or_contract_month@).push(c.strike@), c.right@);
    lemma_join_push(Seq::<Seq<char>>::empty().push(int_text(REQ_CONTRACT_DATA as int)).push(int_text(8)).push(int_text(req_id as int)).push(int_text(c.con_id as int)).push(c.symbol@).push(c.sec_type@).push(c.last_trade_date_or_contract_month@).push(c.strike@).push(c.right@), c.multiplier@);
    lemma_join_push(Seq::<Seq<char>>::empty().push(int_text(REQ_CONTRACT_DATA as int)).push(int_text(8)).push(int_text(req_id as int)).push(int_text(c.con_id as int)).push(c.symbol@).push(c.sec_type@).push(c.last_trade_date_or_contract_month@).push(c.strike@).push(c.right@).push(c.multiplier@), c.exchange@);
    lemma_join_push(Seq::<Seq<char>>::empty().push(int_text(REQ_CONTRACT_DATA as int)).push(int_text(8)).push(int_text(req_id as int)).push(int_text(c.con_id as int)).push(c.symbol@).push(c.sec_type@).push(c.last_trade_date_or_contract_month@).push(c.strike@).push(c.right@).push(c.multiplier@).push(c.exchange@), c.primary_exchange@);
    lemma_join_push(Seq::<Seq<char>>::empty().push(int_text(REQ_CONTRACT_DATA as int)).push(int_text(8)).push(int_text(req_id as int)).push(int_text(c.con_id as int)).push(c.symbol@).push(c.sec_type@).push(c.last_trade_date_or_contract_month@).push(c.strike@).push(c.right@).push(c.multiplier@).push(c.exchange@).push(c.primary_exchange@), c.currency@);
    lemma_join_push(Seq::<Seq<char>>::empty().push(int_text(REQ_CONTRACT_DATA as int)).push(int_text(8)).push(int_text(req_id as int)).push(int_text(c.con_id as int)).push(c.symbol@).push(c.sec_type@).push(c.last_trade_date_or_contract_month@).push(c.strike@).push(c.right@).push(c.multiplier@).push(c.exchange@).push(c.primary_exchange@).push(c.currency@), c.local_symbol@);
    lemma_join_push(Seq::<Seq<char>>::empty().push(int_text(REQ_CONTRACT_DATA as int)).push(int_text(8)).push(int_text(req_id as int)).push(int_text(c.con_id as int)).push(c.symbol@).push(c.sec_type@).push(c.last_trade_date_or_contract_month@).push(c.strike@).push(c.right@).push(c.multiplier@).push(c.exchange@).push(c.primary_exchange@).push(c.currency@).push(c.local_symbol@), c.trading_class@);
    lemma_join_push(Seq::<Seq<char>>::empty().push(int_text(REQ_CONTRACT_DATA as int)).push(int_text(8)).push(int_text(req_id as int)).push(int_text(c.con_id as int)).push(c.symbol@).push(c.sec_type@).push(c.last_trade_date_or_contract_month@).push(c.strike@).push(c.right@).push(c.multiplier@).push(c.exchange@).push(c.primary_exchange@).push(c.currency@).push(c.local_symbol@).push(c.trading_class@), bool_field_text(c.include_expired));
    lemma_join_push(Seq::<Seq<char>>::empty().push(int_text(REQ_CONTRACT_DATA as int)).push(int_text(8)).push(int_text(req_id as int)).push(int_text(c.con_id as int)).push(c.symbol@).push(c.sec_type@).push(c.last_trade_date_or_contract_month@).push(c.strike@).push(c.right@).push(c.multiplier@).push(c.exchange@).push(c.primary_exchange@).push(c.currency@).push(c.local_symbol@).push(c.trading_class@).push(bool_field_text(c.include_expired)), c.sec_id_type@);
    lemma_join_push(Seq::<Seq<char>>::empty().push(int_text(REQ_CONTRACT_DATA as int)).push(int_text(8)).push(int_text(req_id as int)).push(int_text(c.con_id as int)).push(c.symbol@).push(c.sec_type@).push(c.last_trade_date_or_contract_month@).push(c.strike@).push(c.right@).push(c.multiplier@).push(c.exchange@).push(c.primary_exchange@).push(c.currency@).push(c.local_symbol@).push(c.trading_class@).push(bool_field_text(c.include_expired)).push(c.sec_id_type@), c.sec_id@);
    assert(join_fields(Seq::<Seq<char>>::empty()) == Seq::<char>::empty());
    assert(join_fields(contract_details_fields(req_id, c)) =~= field_spec(int_text(REQ_CONTRACT_DATA as int)) + field_spec(int_text(8)) + field_spec(int_text(req_id as int)) + field_spec(int_text(c.con_id as int)) + field_spec(c.symbol@) + field_spec(c.sec_type@) + field_spec(c.last_trade_date_or_contract_month@) + field_spec(c.strike@) + field_spec(c.right@) + field_spec(c.multiplier@) + field_spec(c.exchange@) + field_spec(c.primary_exchange@) + field_spec(c.currency@) + field_spec(c.local_symbol@) + field_spec(c.trading_class@) + field_spec(bool_field_text(c.include_expired)) + field_spec(c.sec_id_type@) + field_spec(c.sec_id@));
}

/// For a server that takes every field of a market data request, and a contract that is not
/// a combo, the request is `mkt_data_lead_fields`, then the delta-neutral contract, then
/// `mkt_data_tail_fields`, each field followed by NUL.
pub proof fn law_mkt_data_fields(
    server_version: i32,
    req_id: i32,
    c: ContractFields,
    generic_tick_list: Seq<char>,
    snapshot: bool,
    regulatory_snapshot: bool,
)
    requires
        server_version >= MIN_SERVER_VER_REQ_SMART_COMPONENTS,
        c.sec_type@ != "BAG"@,
    ensures
        mkt_data_text(server_version, req_id, c, generic_tick_list, snapshot, regulatory_snapshot)
            == join_fields(mkt_data_lead_fields(req_id, c)) + delta_neutral_text(c.delta_neutral_contract)
            + join_fields(mkt_data_tail_fields(generic_tick_list, snapshot, regulatory_snapshot)),
{
    lemma_mkt_data_lead_fields(req_id, c);
    lemma_mkt_data_tail_fields(generic_tick_list, snapshot, regulatory_snapshot);
    assert(mkt_data_text(server_version, req_id, c, generic_tick_list, snapshot, regulatory_snapshot)
        =~= join_fields(mkt_data_lead_fields(req_id, c)) + delta_neutral_text(c.delta_neutral_contract)
        + join_fields(mkt_data_tail_fields(generic_tick_list, snapshot, regulatory_snapshot)));
}

/// For a server that takes every field of a market depth request, the request is
/// `mkt_depth_fields`, each field followed by NUL.
pub proof fn law_mkt_depth_fields(
    server_version: i32,
    req_id: i32,
    c: ContractFields,
    num_rows: i32,
    is_smart_depth: bool,
)
    requires
        server_version >= MIN_SERVER_VER_MKT_DEPTH_PRIM_EXCHANGE,
    ensures
        mkt_depth_text(server_version, req_id, c, num_rows, is_smart_depth) == join_fields(
            mkt_depth_fields(req_id, c, num_rows, is_smart_depth),
        ),
{
    lemma_mkt_depth_fields(req_id, c, num_rows, is_smart_depth);
    assert(mkt_depth_text(server_version, req_id, c, num_rows, is_smart_depth) =~= join_fields(
        mkt_depth_fields(req_id, c, num_rows, is_smart_depth),
    ));
}

/// For a server that takes every field of a contract details request, the request is
/// `contract_details_fields`, each field followed by NUL.
pub proof fn law_contract_details_request_fields(server_version: i32, req_id: i32, c: ContractFields)
    requires
        server_version >= MIN_SERVER_VER_PRIMARYEXCH,
    ensures
        contract_details_text(server_version, req_id, c) == join_fields(contract_details_fields(req_id, c)),
{
    lemma_contract_details_fields(req_id, c);
    assert(contract_details_text(server_version, req_id, c) =~= join_fields(contract_details_fields(req_id, c)));
}


/// The fields of a combo leg in a request: contract id, ratio, action and exchange.
pub open spec fn request_leg_fields(leg: ComboLegFields) -> Seq<Seq<char>> {
    Seq::<Seq<char>>::empty()
        .push(int_text(leg.con_id as int))
        .push(leg.ratio@)
        .push(leg.action@)
        .push(leg.exchange@)
}

/// The fields of combo legs in a request, one leg after the other.
pub open spec fn request_legs_fields(legs: Seq<ComboLegFields>) -> Seq<Seq<char>>
    decreases legs.len(),
{
    if legs.len() == 0 {
        Seq::empty()
    } else {
        request_legs_fields(legs.drop_last()) + request_leg_fields(legs.last())
    }
}

/// A combo leg of a request is written as its contract id, ratio, action and exchange, and
/// combo legs leg after leg.
pub proof fn law_request_legs_are_fields(legs: Seq<ComboLegFields>)
    ensures
        combo_legs_text(legs) == join_fields(request_legs_fields(legs)),
    decreases legs.len(),
{
    if legs.len() > 0 {
        law_request_legs_are_fields(legs.drop_last());
        let leg = legs.last();
        let g0 = Seq::<Seq<char>>::empty();
        lemma_join_push(g0, int_text(leg.con_id as int));
        let g1 = g0.push(int_text(leg.con_id as int));
        lemma_join_push(g1, leg.ratio@);
        let g2 = g1.push(leg.ratio@);
        lemma_join_push(g2, leg.action@);
        let g3 = g2.push(leg.action@);
        lemma_join_push(g3, leg.exchange@);
        assert(join_fields(Seq::<Seq<char>>::empty()) == Seq::<char>::empty());
        assert(combo_leg_text(leg) =~= join_fields(request_leg_fields(leg)));
        crate::wire_layout::lemma_join_append(request_legs_fields(legs.drop_last()), request_leg_fields(leg));
    }
}

/// The delta-neutral fields of a request are a true flag, the contract id, delta and price
/// for a delta-neutral contract, and a false flag alone otherwise.
pub proof fn law_delta_neutral_fields(d: Option<DeltaNeutralFields>)
    ensures
        delta_neutral_text(d) == join_fields(
            match d {
                Some(x) => Seq::<Seq<char>>::empty().push(bool_field_text(true)).push(
                    int_text(x.con_id as int),
                ).push(x.delta@).push(x.price@),
                None => Seq::<Seq<char>>::empty().push(bool_field_text(false)),
            },
        ),
{
    let g0 = Seq::<Seq<char>>::empty();
    assert(join_fields(g0) == Seq::<char>::empty());
    match d {
        Some(x) => {
            lemma_join_push(g0, bool_field_text(true));
            let g1 = g0.push(bool_field_text(true));
            lemma_join_push(g1, int_text(x.con_id as int));
            let g2 = g1.push(int_text(x.con_id as int));
            lemma_join_push(g2, x.delta@);
            let g3 = g2.push(x.delta@);
            lemma_join_push(g3, x.price@);
            assert(delta_neutral_text(d) =~= join_fields(g3.push(x.price@)));
        },
        None => {
            lemma_join_push(g0, bool_field_text(false));
            assert(delta_neutral_text(d) =~= join_fields(g0.push(bool_field_text(false))));
        },
    }
}

} // verus!
