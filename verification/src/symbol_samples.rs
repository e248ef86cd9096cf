//! Decoding the contracts that match a symbol pattern (`symbol_samples`): a count of
//! contracts, each with its own count of derivative security types.
use vstd::prelude::*;

use crate::decoder::field_i32;
use crate::execution_data::{take_i32, take_text};
use crate::incoming::entry_count;
use crate::interpret::field_i32_at;

verus! {

/// A contract that matches a symbol pattern, and the security types of its derivatives.
#[derive(Clone, Debug)]
pub struct ContractDescriptionFields {
    pub con_id: i32,
    pub symbol: String,
    pub sec_type: String,
    pub primary_exchange: String,
    pub currency: String,
    pub derivative_sec_types: Vec<String>,
}

/// The number of derivative security types of the contract whose fields start at `p`.
pub open spec fn ss_derivative_count(t: Seq<String>, p: int) -> int {
    entry_count(field_i32(t[p + 5]@))
}

/// Where the fields of the `k`-th contract start.
pub open spec fn ss_pos(t: Seq<String>, k: nat) -> int
    decreases k,
{
    if k == 0 {
        3
    } else {
        let p = ss_pos(t, (k - 1) as nat);
        p + 6 + ss_derivative_count(t, p)
    }
}

/// The number of contracts that the message lists.
pub open spec fn ss_count(t: Seq<String>) -> nat {
    entry_count(field_i32(t[2]@)) as nat
}

/// Whether a symbol samples message holds the fields that its decoding reads.
pub open spec fn symbol_samples_enough(t: Seq<String>) -> bool {
    t.len() >= 3 && t.len() >= ss_pos(t, ss_count(t))
}

/// What a symbol samples message decodes to: the request, then each contract's id, symbol,
/// security type, primary exchange and currency, and its derivative security types.
pub open spec fn symbol_samples_decoded(t: Seq<String>, v: (i32, Vec<ContractDescriptionFields>)) -> bool {
    &&& v.0 == field_i32(t[1]@)
    &&& v.1.len() == ss_count(t)
    &&& forall|k: int|
        #![trigger v.1[k]]
        0 <= k < v.1.len() ==> {
            let p = ss_pos(t, k as nat);
            &&& v.1[k].con_id == field_i32(t[p]@)
            &&& v.1[k].symbol@ == t[p + 1]@
            &&& v.1[k].sec_type@ == t[p + 2]@
            &&& v.1[k].primary_exchange@ == t[p + 3]@
            &&& v.1[k].currency@ == t[p + 4]@
            &&& v.1[k].derivative_sec_types.len() == ss_derivative_count(t, p)
            &&& forall|j: int|
                #![trigger v.1[k].derivative_sec_types[j]]
                0 <= j < v.1[k].derivative_sec_types.len() ==> v.1[k].derivative_sec_types[j]@
                    == t[p + 6 + j]@
        }
}

/// Each contract's fields start at least six fields after the previous one's.
proof fn lemma_ss_pos_grows(t: Seq<String>, j: nat, k: nat)
    requires
        j < k,
    ensures
        ss_pos(t, j) + 6 <= ss_pos(t, k),
    decreases k,
{
    if j + 1 < k {
        lemma_ss_pos_grows(t, j, (k - 1) as nat);
    }
}

/// Decodes a symbol samples message.
pub fn process_symbol_samples(fields: &[String]) -> (r: (i32, Vec<ContractDescriptionFields>))
    requires
        symbol_samples_enough(fields@),
    ensures
        symbol_samples_decoded(fields@, r),
{
    let ghost t = fields@;
    let mut p: usize = 1;
    let req_id = take_i32(fields, &mut p);
    let count = take_i32(fields, &mut p);
    let mut descs: Vec<ContractDescriptionFields> = Vec::new();
    let mut i: i32 = 0;
    while i < count
        invariant
            t == fields@,
            count == field_i32(t[2]@),
            0 <= i,
            i <= ss_count(t),
            fields.len() >= ss_pos(t, ss_count(t)),
            p == ss_pos(t, i as nat),
            descs.len() == i,
            forall|k: int|
                #![trigger descs[k]]
                0 <= k < i ==> {
                    let q = ss_pos(t, k as nat);
                    &&& descs[k].con_id == field_i32(t[q]@)
                    &&& descs[k].symbol@ == t[q + 1]@
                    &&& descs[k].sec_type@ == t[q + 2]@
                    &&& descs[k].primary_exchange@ == t[q + 3]@
                    &&& descs[k].currency@ == t[q + 4]@
                    &&& descs[k].derivative_sec_types.len() == ss_derivative_count(t, q)
                    &&& forall|j: int|
                        #![trigger descs[k].derivative_sec_types[j]]
                        0 <= j < descs[k].derivative_sec_types.len()
                            ==> descs[k].derivative_sec_types[j]@ == t[q + 6 + j]@
                },
        decreases count - i,
    {
        proof {
            lemma_ss_pos_grows(t, i as nat, ss_count(t));
            assert(ss_pos(t, (i + 1) as nat) <= ss_pos(t, ss_count(t))) by {
                if i + 1 < ss_count(t) {
                    lemma_ss_pos_grows(t, (i + 1) as nat, ss_count(t));
                }
            }
        }
        let start = p;
        let con_id = take_i32(fields, &mut p);
        let symbol = take_text(fields, &mut p);
        let sec_type = take_text(fields, &mut p);
        let primary_exchange = take_text(fields, &mut p);
        let currency = take_text(fields, &mut p);
        let n = take_i32(fields, &mut p);
        let mut derivs: Vec<String> = Vec::new();
        let mut j: i32 = 0;
        while j < n
            invariant
                t == fields@,
                n == field_i32(t[start + 5]@),
                0 <= j,
                j <= entry_count(n),
                fields.len() >= start + 6 + entry_count(n),
                p == start + 6 + j,
                derivs.len() == j,
                forall|m: int| #![trigger derivs[m]] 0 <= m < j ==> derivs[m]@ == t[start + 6 + m]@,
            decreases n - j,
        {
            let d = take_text(fields, &mut p);
            derivs.push(d);
            j = j + 1;
        }
        descs.push(ContractDescriptionFields {
            con_id,
            symbol,
            sec_type,
            primary_exchange,
            currency,
            derivative_sec_types: derivs,
        });
        i = i + 1;
    }
    (req_id, descs)
}

/// Whether a symbol samples message can be decoded: see `symbol_samples_enough`.
pub fn symbol_samples_complete(fields: &[String]) -> (r: bool)
    ensures
        r == symbol_samples_enough(fields@),
{
    let ghost t = fields@;
    let n = fields.len();
    if n < 3 {
        return false;
    }
    let count = field_i32_at(fields, 2);
    let mut p: usize = 3;
    let mut i: i32 = 0;
    while i < count
        invariant
            t == fields@,
            n == fields.len(),
            n >= 3,
            count == field_i32(t[2]@),
            0 <= i,
            i <= ss_count(t),
            p == ss_pos(t, i as nat),
            p <= n,
        decreases count - i,
    {
        if n - p < 6 {
            proof {
                lemma_ss_pos_grows(t, i as nat, ss_count(t));
            }
            return false;
        }
        let d = field_i32_at(fields, p + 5);
        let c: usize = if d < 0 { 0 } else { d as usize };
        if n - p - 6 < c {
            proof {
                if i + 1 < ss_count(t) {
                    lemma_ss_pos_grows(t, (i + 1) as nat, ss_count(t));
                }
            }
            return false;
        }
        p = p + 6 + c;
        i = i + 1;
    }
    true
}

} // verus!
