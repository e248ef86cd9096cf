//! Types related to executions
use vstd::prelude::*;

verus! {

/// Criteria that executions must meet to be reported.
#[derive(Clone, Debug, Default)]
pub struct ExecutionFilter {
    pub client_id: i32,
    pub acct_code: String,
    pub time: String,
    pub symbol: String,
    pub sec_type: String,
    pub exchange: String,
    pub side: String,
}

impl ExecutionFilter {
    pub fn new(
        client_id: i32,
        acct_code: String,
        time: String,
        symbol: String,
        sec_type: String,
        exchange: String,
        side: String,
    ) -> (r: Self)
        ensures
            r.client_id == client_id,
            r.acct_code@ == acct_code@,
            r.time@ == time@,
            r.symbol@ == symbol@,
            r.sec_type@ == sec_type@,
            r.exchange@ == exchange@,
            r.side@ == side@,
    {
        ExecutionFilter { client_id, acct_code, time, symbol, sec_type, exchange, side }
    }
}

} // verus!
