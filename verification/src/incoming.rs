//! Decoding of incoming messages. Each function reads the fields of one kind of message into
//! the values that the wrapper's callback for that message receives. The first field of every
//! message is its id and is skipped; most messages carry a version field after it, which is
//! skipped too. A floating-point value comes as the text of its field, for the caller to read
//! as a float.
use vstd::prelude::*;
use vstd::std_specs::iter::IteratorSpec;

use std::slice::Iter;

use crate::server_versions::{MIN_SERVER_VER_SERVICE_DATA_TYPE, MIN_SERVER_VER_SYNT_REALTIME_BARS};
use crate::common::{
    DepthMktDataDescription, FaDataType, FamilyCode, NewsProvider, SmartComponent,
    TickAttribBidAsk, TickAttribLast,
    TickByTickType, TickType,
};
use crate::decimal::{chars_of, int_text, string_push};
use crate::decoder::{
    decode_bool, decode_i32, decode_i64, decode_string, field_bool, field_i32, field_i64,
    fields_left, next_field,
};
use crate::errors::IBKRApiLibError;
use crate::messages::texts;
use crate::order::SoftDollarTier;

verus! {

/// An iterator over the fields of a message.
fn field_iter(fields: &[String]) -> (it: Iter<'_, String>)
    ensures
        fields_left(it.remaining()) == texts(fields@),
{
    let it = fields.iter();
    proof {
        broadcast use vstd::std_specs::slice::axiom_spec_slice_iter;
        assert(fields_left(it.remaining()) =~= texts(fields@));
    }
    it
}

/// Passes over a field that carries nothing for the callback (the message id, a version).
fn skip_field(it: &mut Iter<'_, String>)
    ensures
        fields_left((*old(it)).remaining()).len() > 0 ==> fields_left((*final(it)).remaining())
            == fields_left((*old(it)).remaining()).drop_first(),
        fields_left((*old(it)).remaining()).len() == 0 ==> fields_left((*final(it)).remaining())
            == fields_left((*old(it)).remaining()),
{
    let _ = next_field(it);
    assert(fields_left((*final(it)).remaining()) =~= if fields_left((*old(it)).remaining()).len() > 0 {
        fields_left((*old(it)).remaining()).drop_first()
    } else {
        fields_left((*old(it)).remaining())
    });
}

/// Whether a message for `tick_string` holds the fields that its decoding reads.
pub open spec fn tick_string_enough(fields: Seq<String>) -> bool {
    &&& fields.len() >= 5
    &&& TickType::from_code(field_i32(fields[3]@) as int) is Some
}

/// The values that decoding a message for `tick_string` gives.
pub open spec fn tick_string_decoded(fields: Seq<String>, v: (i32, TickType, String)) -> bool {
    &&& v.0 == field_i32(fields[2]@)
    &&& Some(v.1) == TickType::from_code(field_i32(fields[3]@) as int)
    &&& v.2@ == fields[4]@
}

/// Whether a message for `account_summary` holds the fields that its decoding reads.
pub open spec fn account_summary_enough(fields: Seq<String>) -> bool {
    fields.len() >= 7
}

/// The values that decoding a message for `account_summary` gives.
pub open spec fn account_summary_decoded(
    fields: Seq<String>,
    v: (i32, String, String, String, String),
) -> bool {
    &&& v.0 == field_i32(fields[2]@)
    &&& v.1@ == fields[3]@
    &&& v.2@ == fields[4]@
    &&& v.3@ == fields[5]@
    &&& v.4@ == fields[6]@
}

/// Whether a message for `account_summary_end` holds the fields that its decoding reads.
pub open spec fn account_summary_end_enough(fields: Seq<String>) -> bool {
    fields.len() >= 3
}

/// The values that decoding a message for `account_summary_end` gives.
pub open spec fn account_summary_end_decoded(fields: Seq<String>, v: i32) -> bool {
    v == field_i32(fields[2]@)
}

/// Whether a message for `account_update_multi` holds the fields that its decoding reads.
pub open spec fn account_update_multi_enough(fields: Seq<String>) -> bool {
    fields.len() >= 8
}

/// The values that decoding a message for `account_update_multi` gives.
pub open spec fn account_update_multi_decoded(
    fields: Seq<String>,
    v: (i32, String, String, String, String, String),
) -> bool {
    &&& v.0 == field_i32(fields[2]@)
    &&& v.1@ == fields[3]@
    &&& v.2@ == fields[4]@
    &&& v.3@ == fields[5]@
    &&& v.4@ == fields[6]@
    &&& v.5@ == fields[7]@
}

/// Whether a message for `account_update_multi_end` holds the fields that its decoding reads.
pub open spec fn account_update_multi_end_enough(fields: Seq<String>) -> bool {
    fields.len() >= 3
}

/// The values that decoding a message for `account_update_multi_end` gives.
pub open spec fn account_update_multi_end_decoded(fields: Seq<String>, v: i32) -> bool {
    v == field_i32(fields[2]@)
}

/// Whether a message for `account_download_end` holds the fields that its decoding reads.
pub open spec fn account_download_end_enough(fields: Seq<String>) -> bool {
    fields.len() >= 3
}

/// The values that decoding a message for `account_download_end` gives.
pub open spec fn account_download_end_decoded(fields: Seq<String>, v: String) -> bool {
    v@ == fields[2]@
}

/// Whether a message for `update_account_time` holds the fields that its decoding reads.
pub open spec fn account_update_time_enough(fields: Seq<String>) -> bool {
    fields.len() >= 3
}

/// The values that decoding a message for `update_account_time` gives.
pub open spec fn account_update_time_decoded(fields: Seq<String>, v: String) -> bool {
    v@ == fields[2]@
}

/// Whether a message for `update_account_value` holds the fields that its decoding reads.
pub open spec fn account_value_enough(fields: Seq<String>) -> bool {
    fields.len() >= 6
}

/// The values that decoding a message for `update_account_value` gives.
pub open spec fn account_value_decoded(
    fields: Seq<String>,
    v: (String, String, String, String),
) -> bool {
    &&& v.0@ == fields[2]@
    &&& v.1@ == fields[3]@
    &&& v.2@ == fields[4]@
    &&& v.3@ == fields[5]@
}

/// Whether a message for `contract_details_end` holds the fields that its decoding reads.
pub open spec fn contract_details_end_enough(fields: Seq<String>) -> bool {
    fields.len() >= 3
}

/// The values that decoding a message for `contract_details_end` gives.
pub open spec fn contract_details_end_decoded(fields: Seq<String>, v: i32) -> bool {
    v == field_i32(fields[2]@)
}

/// Whether a message for `current_time` holds the fields that its decoding reads.
pub open spec fn current_time_enough(fields: Seq<String>) -> bool {
    fields.len() >= 3
}

/// The values that decoding a message for `current_time` gives.
pub open spec fn current_time_decoded(fields: Seq<String>, v: i64) -> bool {
    v == field_i64(fields[2]@)
}

/// Whether a message for `display_group_list` holds the fields that its decoding reads.
pub open spec fn display_group_list_enough(fields: Seq<String>) -> bool {
    fields.len() >= 4
}

/// The values that decoding a message for `display_group_list` gives.
pub open spec fn display_group_list_decoded(fields: Seq<String>, v: (i32, String)) -> bool {
    &&& v.0 == field_i32(fields[2]@)
    &&& v.1@ == fields[3]@
}

/// Whether a message for `display_group_updated` holds the fields that its decoding reads.
pub open spec fn display_group_updated_enough(fields: Seq<String>) -> bool {
    fields.len() >= 4
}

/// The values that decoding a message for `display_group_updated` gives.
pub open spec fn display_group_updated_decoded(fields: Seq<String>, v: (i32, String)) -> bool {
    &&& v.0 == field_i32(fields[2]@)
    &&& v.1@ == fields[3]@
}

/// Whether a message for `error` holds the fields that its decoding reads.
pub open spec fn error_message_enough(fields: Seq<String>) -> bool {
    fields.len() >= 5
}

/// The values that decoding a message for `error` gives.
pub open spec fn error_message_decoded(fields: Seq<String>, v: (i32, i32, String)) -> bool {
    &&& v.0 == field_i32(fields[2]@)
    &&& v.1 == field_i32(fields[3]@)
    &&& v.2@ == fields[4]@
}

/// Whether a message for `exec_details_end` holds the fields that its decoding reads.
pub open spec fn execution_data_end_enough(fields: Seq<String>) -> bool {
    fields.len() >= 3
}

/// The values that decoding a message for `exec_details_end` gives.
pub open spec fn execution_data_end_decoded(fields: Seq<String>, v: i32) -> bool {
    v == field_i32(fields[2]@)
}

/// Whether a message for `fundamental_data` holds the fields that its decoding reads.
pub open spec fn fundamental_data_enough(fields: Seq<String>) -> bool {
    fields.len() >= 4
}

/// The values that decoding a message for `fundamental_data` gives.
pub open spec fn fundamental_data_decoded(fields: Seq<String>, v: (i32, String)) -> bool {
    &&& v.0 == field_i32(fields[2]@)
    &&& v.1@ == fields[3]@
}

/// Whether a message for `head_timestamp` holds the fields that its decoding reads.
pub open spec fn head_timestamp_enough(fields: Seq<String>) -> bool {
    fields.len() >= 3
}

/// The values that decoding a message for `head_timestamp` gives.
pub open spec fn head_timestamp_decoded(fields: Seq<String>, v: (i32, String)) -> bool {
    &&& v.0 == field_i32(fields[1]@)
    &&& v.1@ == fields[2]@
}

/// Whether a message for `historical_news` holds the fields that its decoding reads.
pub open spec fn historical_news_enough(fields: Seq<String>) -> bool {
    fields.len() >= 6
}

/// The values that decoding a message for `historical_news` gives.
pub open spec fn historical_news_decoded(
    fields: Seq<String>,
    v: (i32, String, String, String, String),
) -> bool {
    &&& v.0 == field_i32(fields[1]@)
    &&& v.1@ == fields[2]@
    &&& v.2@ == fields[3]@
    &&& v.3@ == fields[4]@
    &&& v.4@ == fields[5]@
}

/// Whether a message for `historical_news_end` holds the fields that its decoding reads.
pub open spec fn historical_news_end_enough(fields: Seq<String>) -> bool {
    fields.len() >= 2
}

/// The values that decoding a message for `historical_news_end` gives.
pub open spec fn historical_news_end_decoded(fields: Seq<String>, v: (i32, bool)) -> bool {
    &&& v.0 == field_i32(fields[1]@)
    &&& v.1 == flag_at(fields, 2)
}

/// Whether a message for `managed_accounts` holds the fields that its decoding reads.
pub open spec fn managed_accounts_enough(fields: Seq<String>) -> bool {
    fields.len() >= 3
}

/// The values that decoding a message for `managed_accounts` gives.
pub open spec fn managed_accounts_decoded(fields: Seq<String>, v: String) -> bool {
    v@ == fields[2]@
}

/// Whether a message for `market_data_type` holds the fields that its decoding reads.
pub open spec fn market_data_type_enough(fields: Seq<String>) -> bool {
    fields.len() >= 4
}

/// The values that decoding a message for `market_data_type` gives.
pub open spec fn market_data_type_decoded(fields: Seq<String>, v: (i32, i32)) -> bool {
    &&& v.0 == field_i32(fields[2]@)
    &&& v.1 == field_i32(fields[3]@)
}

/// Whether a message for `news_article` holds the fields that its decoding reads.
pub open spec fn news_article_enough(fields: Seq<String>) -> bool {
    fields.len() >= 4
}

/// The values that decoding a message for `news_article` gives.
pub open spec fn news_article_decoded(fields: Seq<String>, v: (i32, i32, String)) -> bool {
    &&& v.0 == field_i32(fields[1]@)
    &&& v.1 == field_i32(fields[2]@)
    &&& v.2@ == fields[3]@
}

/// Whether a message for `update_news_bulletin` holds the fields that its decoding reads.
pub open spec fn news_bulletins_enough(fields: Seq<String>) -> bool {
    fields.len() >= 6
}

/// The values that decoding a message for `update_news_bulletin` gives.
pub open spec fn news_bulletins_decoded(
    fields: Seq<String>,
    v: (i32, i32, String, String),
) -> bool {
    &&& v.0 == field_i32(fields[2]@)
    &&& v.1 == field_i32(fields[3]@)
    &&& v.2@ == fields[4]@
    &&& v.3@ == fields[5]@
}

/// Whether a message for `next_valid_id` holds the fields that its decoding reads.
pub open spec fn next_valid_id_enough(fields: Seq<String>) -> bool {
    fields.len() >= 3
}

/// The values that decoding a message for `next_valid_id` gives.
pub open spec fn next_valid_id_decoded(fields: Seq<String>, v: i32) -> bool {
    v == field_i32(fields[2]@)
}

/// Whether a message for `order_bound` holds the fields that its decoding reads.
pub open spec fn order_bound_enough(fields: Seq<String>) -> bool {
    fields.len() >= 4
}

/// The values that decoding a message for `order_bound` gives.
pub open spec fn order_bound_decoded(fields: Seq<String>, v: (i32, i32, i32)) -> bool {
    &&& v.0 == field_i32(fields[1]@)
    &&& v.1 == field_i32(fields[2]@)
    &&& v.2 == field_i32(fields[3]@)
}

/// Whether a message for `position_multi_end` holds the fields that its decoding reads.
pub open spec fn position_multi_end_enough(fields: Seq<String>) -> bool {
    fields.len() >= 3
}

/// The values that decoding a message for `position_multi_end` gives.
pub open spec fn position_multi_end_decoded(fields: Seq<String>, v: i32) -> bool {
    v == field_i32(fields[2]@)
}

/// Whether a message for `receive_fa` holds the fields that its decoding reads.
pub open spec fn receive_fa_enough(fields: Seq<String>) -> bool {
    &&& fields.len() >= 4
    &&& FaDataType::from_code(field_i32(fields[2]@) as int) is Some
}

/// The values that decoding a message for `receive_fa` gives.
pub open spec fn receive_fa_decoded(fields: Seq<String>, v: (FaDataType, String)) -> bool {
    &&& Some(v.0) == FaDataType::from_code(field_i32(fields[2]@) as int)
    &&& v.1@ == fields[3]@
}

/// Whether a message for `reroute_mkt_data_req` holds the fields that its decoding reads.
pub open spec fn reroute_mkt_data_req_enough(fields: Seq<String>) -> bool {
    fields.len() >= 4
}

/// The values that decoding a message for `reroute_mkt_data_req` gives.
pub open spec fn reroute_mkt_data_req_decoded(fields: Seq<String>, v: (i32, i32, String)) -> bool {
    &&& v.0 == field_i32(fields[1]@)
    &&& v.1 == field_i32(fields[2]@)
    &&& v.2@ == fields[3]@
}

/// Whether a message for `reroute_mkt_depth_req` holds the fields that its decoding reads.
pub open spec fn reroute_mkt_depth_req_enough(fields: Seq<String>) -> bool {
    fields.len() >= 4
}

/// The values that decoding a message for `reroute_mkt_depth_req` gives.
pub open spec fn reroute_mkt_depth_req_decoded(fields: Seq<String>, v: (i32, i32, String)) -> bool {
    &&& v.0 == field_i32(fields[1]@)
    &&& v.1 == field_i32(fields[2]@)
    &&& v.2@ == fields[3]@
}

/// Whether a message for `scanner_parameters` holds the fields that its decoding reads.
pub open spec fn scanner_parameters_enough(fields: Seq<String>) -> bool {
    fields.len() >= 3
}

/// The values that decoding a message for `scanner_parameters` gives.
pub open spec fn scanner_parameters_decoded(fields: Seq<String>, v: String) -> bool {
    v@ == fields[2]@
}

/// Whether a message for `security_definition_option_parameter_end` holds the fields that its decoding reads.
pub open spec fn security_definition_option_parameter_end_enough(fields: Seq<String>) -> bool {
    fields.len() >= 2
}

/// The values that decoding a message for `security_definition_option_parameter_end` gives.
pub open spec fn security_definition_option_parameter_end_decoded(
    fields: Seq<String>,
    v: i32,
) -> bool {
    v == field_i32(fields[1]@)
}

/// Whether a message for `tick_news` holds the fields that its decoding reads.
pub open spec fn tick_news_enough(fields: Seq<String>) -> bool {
    fields.len() >= 7
}

/// The values that decoding a message for `tick_news` gives.
pub open spec fn tick_news_decoded(
    fields: Seq<String>,
    v: (i32, i32, String, String, String, String),
) -> bool {
    &&& v.0 == field_i32(fields[1]@)
    &&& v.1 == field_i32(fields[2]@)
    &&& v.2@ == fields[3]@
    &&& v.3@ == fields[4]@
    &&& v.4@ == fields[5]@
    &&& v.5@ == fields[6]@
}

/// Whether a message for `tick_size` holds the fields that its decoding reads.
pub open spec fn tick_size_enough(fields: Seq<String>) -> bool {
    &&& fields.len() >= 5
    &&& TickType::from_code(field_i32(fields[3]@) as int) is Some
}

/// The values that decoding a message for `tick_size` gives.
pub open spec fn tick_size_decoded(fields: Seq<String>, v: (i32, TickType, i32)) -> bool {
    &&& v.0 == field_i32(fields[2]@)
    &&& Some(v.1) == TickType::from_code(field_i32(fields[3]@) as int)
    &&& v.2 == field_i32(fields[4]@)
}

/// Whether a message for `tick_snapshot_end` holds the fields that its decoding reads.
pub open spec fn tick_snapshot_end_enough(fields: Seq<String>) -> bool {
    fields.len() >= 3
}

/// The values that decoding a message for `tick_snapshot_end` gives.
pub open spec fn tick_snapshot_end_decoded(fields: Seq<String>, v: i32) -> bool {
    v == field_i32(fields[2]@)
}

/// Whether a message for `verify_and_auth_completed` holds the fields that its decoding reads.
pub open spec fn verify_and_auth_completed_enough(fields: Seq<String>) -> bool {
    fields.len() >= 5
}

/// The values that decoding a message for `verify_and_auth_completed` gives.
pub open spec fn verify_and_auth_completed_decoded(fields: Seq<String>, v: (bool, String)) -> bool {
    &&& v.0 == (fields[3]@ == "true"@)
    &&& v.1@ == fields[4]@
}

/// Whether a message for `verify_and_auth_message_api` holds the fields that its decoding reads.
pub open spec fn verify_and_auth_message_api_enough(fields: Seq<String>) -> bool {
    fields.len() >= 4
}

/// The values that decoding a message for `verify_and_auth_message_api` gives.
pub open spec fn verify_and_auth_message_api_decoded(
    fields: Seq<String>,
    v: (String, String),
) -> bool {
    &&& v.0@ == fields[2]@
    &&& v.1@ == fields[3]@
}

/// Whether a message for `verify_completed` holds the fields that its decoding reads.
pub open spec fn verify_completed_enough(fields: Seq<String>) -> bool {
    fields.len() >= 5
}

/// The values that decoding a message for `verify_completed` gives.
pub open spec fn verify_completed_decoded(fields: Seq<String>, v: (bool, String)) -> bool {
    &&& v.0 == (fields[3]@ == "true"@)
    &&& v.1@ == fields[4]@
}

/// Whether a message for `verify_message_api` holds the fields that its decoding reads.
pub open spec fn verify_message_api_enough(fields: Seq<String>) -> bool {
    fields.len() >= 3
}

/// The values that decoding a message for `verify_message_api` gives.
pub open spec fn verify_message_api_decoded(fields: Seq<String>, v: String) -> bool {
    v@ == fields[2]@
}

/// The values of a message for `tick_string`: request id, tick type, value.
pub fn process_tick_string(
    fields: &[String],
) -> (r: Result<(i32, TickType, String), IBKRApiLibError>)
    requires
        tick_string_enough(fields@),
    ensures
        r matches Ok(v) && tick_string_decoded(fields@, v),
{
    let mut it = field_iter(fields);
    skip_field(&mut it);
    skip_field(&mut it);
    let req_id = decode_i32(&mut it)?;
    let tick_type = TickType::from_i32(decode_i32(&mut it)?).unwrap();
    let value = decode_string(&mut it)?;
    Ok((req_id, tick_type, value))
}

/// The values of a message for `account_summary`: request id, account, tag, value, currency.
pub fn process_account_summary(
    fields: &[String],
) -> (r: Result<(i32, String, String, String, String), IBKRApiLibError>)
    requires
        account_summary_enough(fields@),
    ensures
        r matches Ok(v) && account_summary_decoded(fields@, v),
{
    let mut it = field_iter(fields);
    skip_field(&mut it);
    skip_field(&mut it);
    let req_id = decode_i32(&mut it)?;
    let account = decode_string(&mut it)?;
    let tag = decode_string(&mut it)?;
    let value = decode_string(&mut it)?;
    let currency = decode_string(&mut it)?;
    Ok((req_id, account, tag, value, currency))
}

/// The values of a message for `account_summary_end`: request id.
pub fn process_account_summary_end(fields: &[String]) -> (r: Result<i32, IBKRApiLibError>)
    requires
        account_summary_end_enough(fields@),
    ensures
        r matches Ok(v) && account_summary_end_decoded(fields@, v),
{
    let mut it = field_iter(fields);
    skip_field(&mut it);
    skip_field(&mut it);
    let req_id = decode_i32(&mut it)?;
    Ok(req_id)
}

/// The values of a message for `account_update_multi`: request id, account, model code, key,
/// value, currency.
pub fn process_account_update_multi(
    fields: &[String],
) -> (r: Result<(i32, String, String, String, String, String), IBKRApiLibError>)
    requires
        account_update_multi_enough(fields@),
    ensures
        r matches Ok(v) && account_update_multi_decoded(fields@, v),
{
    let mut it = field_iter(fields);
    skip_field(&mut it);
    skip_field(&mut it);
    let req_id = decode_i32(&mut it)?;
    let account = decode_string(&mut it)?;
    let model_code = decode_string(&mut it)?;
    let key = decode_string(&mut it)?;
    let value = decode_string(&mut it)?;
    let currency = decode_string(&mut it)?;
    Ok((req_id, account, model_code, key, value, currency))
}

/// The values of a message for `account_update_multi_end`: request id.
pub fn process_account_update_multi_end(fields: &[String]) -> (r: Result<i32, IBKRApiLibError>)
    requires
        account_update_multi_end_enough(fields@),
    ensures
        r matches Ok(v) && account_update_multi_end_decoded(fields@, v),
{
    let mut it = field_iter(fields);
    skip_field(&mut it);
    skip_field(&mut it);
    let req_id = decode_i32(&mut it)?;
    Ok(req_id)
}

/// The values of a message for `account_download_end`: account.
pub fn process_account_download_end(fields: &[String]) -> (r: Result<String, IBKRApiLibError>)
    requires
        account_download_end_enough(fields@),
    ensures
        r matches Ok(v) && account_download_end_decoded(fields@, v),
{
    let mut it = field_iter(fields);
    skip_field(&mut it);
    skip_field(&mut it);
    let account = decode_string(&mut it)?;
    Ok(account)
}

/// The values of a message for `update_account_time`: time stamp.
pub fn process_account_update_time(fields: &[String]) -> (r: Result<String, IBKRApiLibError>)
    requires
        account_update_time_enough(fields@),
    ensures
        r matches Ok(v) && account_update_time_decoded(fields@, v),
{
    let mut it = field_iter(fields);
    skip_field(&mut it);
    skip_field(&mut it);
    let time_stamp = decode_string(&mut it)?;
    Ok(time_stamp)
}

/// The values of a message for `update_account_value`: key, value, currency, account.
pub fn process_account_value(
    fields: &[String],
) -> (r: Result<(String, String, String, String), IBKRApiLibError>)
    requires
        account_value_enough(fields@),
    ensures
        r matches Ok(v) && account_value_decoded(fields@, v),
{
    let mut it = field_iter(fields);
    skip_field(&mut it);
    skip_field(&mut it);
    let key = decode_string(&mut it)?;
    let value = decode_string(&mut it)?;
    let currency = decode_string(&mut it)?;
    let account = decode_string(&mut it)?;
    Ok((key, value, currency, account))
}

/// The values of a message for `contract_details_end`: request id.
pub fn process_contract_details_end(fields: &[String]) -> (r: Result<i32, IBKRApiLibError>)
    requires
        contract_details_end_enough(fields@),
    ensures
        r matches Ok(v) && contract_details_end_decoded(fields@, v),
{
    let mut it = field_iter(fields);
    skip_field(&mut it);
    skip_field(&mut it);
    let req_id = decode_i32(&mut it)?;
    Ok(req_id)
}

/// The values of a message for `current_time`: time.
pub fn process_current_time(fields: &[String]) -> (r: Result<i64, IBKRApiLibError>)
    requires
        current_time_enough(fields@),
    ensures
        r matches Ok(v) && current_time_decoded(fields@, v),
{
    let mut it = field_iter(fields);
    skip_field(&mut it);
    skip_field(&mut it);
    let time = decode_i64(&mut it)?;
    Ok(time)
}

/// The values of a message for `display_group_list`: request id, groups.
pub fn process_display_group_list(fields: &[String]) -> (r: Result<(i32, String), IBKRApiLibError>)
    requires
        display_group_list_enough(fields@),
    ensures
        r matches Ok(v) && display_group_list_decoded(fields@, v),
{
    let mut it = field_iter(fields);
    skip_field(&mut it);
    skip_field(&mut it);
    let req_id = decode_i32(&mut it)?;
    let groups = decode_string(&mut it)?;
    Ok((req_id, groups))
}

/// The values of a message for `display_group_updated`: request id, contract info.
pub fn process_display_group_updated(
    fields: &[String],
) -> (r: Result<(i32, String), IBKRApiLibError>)
    requires
        display_group_updated_enough(fields@),
    ensures
        r matches Ok(v) && display_group_updated_decoded(fields@, v),
{
    let mut it = field_iter(fields);
    skip_field(&mut it);
    skip_field(&mut it);
    let req_id = decode_i32(&mut it)?;
    let contract_info = decode_string(&mut it)?;
    Ok((req_id, contract_info))
}

/// The values of a message for `error`: request id, error code, error text.
pub fn process_error_message(fields: &[String]) -> (r: Result<(i32, i32, String), IBKRApiLibError>)
    requires
        error_message_enough(fields@),
    ensures
        r matches Ok(v) && error_message_decoded(fields@, v),
{
    let mut it = field_iter(fields);
    skip_field(&mut it);
    skip_field(&mut it);
    let req_id = decode_i32(&mut it)?;
    let error_code = decode_i32(&mut it)?;
    let error_text = decode_string(&mut it)?;
    Ok((req_id, error_code, error_text))
}

/// The values of a message for `exec_details_end`: request id.
pub fn process_execution_data_end(fields: &[String]) -> (r: Result<i32, IBKRApiLibError>)
    requires
        execution_data_end_enough(fields@),
    ensures
        r matches Ok(v) && execution_data_end_decoded(fields@, v),
{
    let mut it = field_iter(fields);
    skip_field(&mut it);
    skip_field(&mut it);
    let req_id = decode_i32(&mut it)?;
    Ok(req_id)
}

/// The values of a message for `fundamental_data`: request id, data.
pub fn process_fundamental_data(fields: &[String]) -> (r: Result<(i32, String), IBKRApiLibError>)
    requires
        fundamental_data_enough(fields@),
    ensures
        r matches Ok(v) && fundamental_data_decoded(fields@, v),
{
    let mut it = field_iter(fields);
    skip_field(&mut it);
    skip_field(&mut it);
    let req_id = decode_i32(&mut it)?;
    let data = decode_string(&mut it)?;
    Ok((req_id, data))
}

/// The values of a message for `head_timestamp`: request id, time stamp.
pub fn process_head_timestamp(fields: &[String]) -> (r: Result<(i32, String), IBKRApiLibError>)
    requires
        head_timestamp_enough(fields@),
    ensures
        r matches Ok(v) && head_timestamp_decoded(fields@, v),
{
    let mut it = field_iter(fields);
    skip_field(&mut it);
    let req_id = decode_i32(&mut it)?;
    let time_stamp = decode_string(&mut it)?;
    Ok((req_id, time_stamp))
}

/// The values of a message for `historical_news`: request id, time, provider code, article id,
/// headline.
pub fn process_historical_news(
    fields: &[String],
) -> (r: Result<(i32, String, String, String, String), IBKRApiLibError>)
    requires
        historical_news_enough(fields@),
    ensures
        r matches Ok(v) && historical_news_decoded(fields@, v),
{
    let mut it = field_iter(fields);
    skip_field(&mut it);
    let req_id = decode_i32(&mut it)?;
    let time = decode_string(&mut it)?;
    let provider_code = decode_string(&mut it)?;
    let article_id = decode_string(&mut it)?;
    let headline = decode_string(&mut it)?;
    Ok((req_id, time, provider_code, article_id, headline))
}

/// The values of a message for `historical_news_end`: request id, whether more news follow.
pub fn process_historical_news_end(fields: &[String]) -> (r: Result<(i32, bool), IBKRApiLibError>)
    requires
        historical_news_end_enough(fields@),
    ensures
        r matches Ok(v) && historical_news_end_decoded(fields@, v),
{
    let mut it = field_iter(fields);
    skip_field(&mut it);
    let req_id = decode_i32(&mut it)?;
    let has_more = decode_bool(&mut it)?;
    Ok((req_id, has_more))
}

/// The values of a message for `managed_accounts`: accounts list.
pub fn process_managed_accounts(fields: &[String]) -> (r: Result<String, IBKRApiLibError>)
    requires
        managed_accounts_enough(fields@),
    ensures
        r matches Ok(v) && managed_accounts_decoded(fields@, v),
{
    let mut it = field_iter(fields);
    skip_field(&mut it);
    skip_field(&mut it);
    let accounts_list = decode_string(&mut it)?;
    Ok(accounts_list)
}

/// The values of a message for `market_data_type`: request id, market data type.
pub fn process_market_data_type(fields: &[String]) -> (r: Result<(i32, i32), IBKRApiLibError>)
    requires
        market_data_type_enough(fields@),
    ensures
        r matches Ok(v) && market_data_type_decoded(fields@, v),
{
    let mut it = field_iter(fields);
    skip_field(&mut it);
    skip_field(&mut it);
    let req_id = decode_i32(&mut it)?;
    let market_data_type = decode_i32(&mut it)?;
    Ok((req_id, market_data_type))
}

/// The values of a message for `news_article`: request id, article type, article text.
pub fn process_news_article(fields: &[String]) -> (r: Result<(i32, i32, String), IBKRApiLibError>)
    requires
        news_article_enough(fields@),
    ensures
        r matches Ok(v) && news_article_decoded(fields@, v),
{
    let mut it = field_iter(fields);
    skip_field(&mut it);
    let req_id = decode_i32(&mut it)?;
    let article_type = decode_i32(&mut it)?;
    let article_text = decode_string(&mut it)?;
    Ok((req_id, article_type, article_text))
}

/// The values of a message for `update_news_bulletin`: message id, message type, message,
/// originating exchange.
pub fn process_news_bulletins(
    fields: &[String],
) -> (r: Result<(i32, i32, String, String), IBKRApiLibError>)
    requires
        news_bulletins_enough(fields@),
    ensures
        r matches Ok(v) && news_bulletins_decoded(fields@, v),
{
    let mut it = field_iter(fields);
    skip_field(&mut it);
    skip_field(&mut it);
    let message_id = decode_i32(&mut it)?;
    let message_type = decode_i32(&mut it)?;
    let message = decode_string(&mut it)?;
    let originating_exchange = decode_string(&mut it)?;
    Ok((message_id, message_type, message, originating_exchange))
}

/// The values of a message for `next_valid_id`: order id.
pub fn process_next_valid_id(fields: &[String]) -> (r: Result<i32, IBKRApiLibError>)
    requires
        next_valid_id_enough(fields@),
    ensures
        r matches Ok(v) && next_valid_id_decoded(fields@, v),
{
    let mut it = field_iter(fields);
    skip_field(&mut it);
    skip_field(&mut it);
    let order_id = decode_i32(&mut it)?;
    Ok(order_id)
}

/// The values of a message for `order_bound`: request id, API client id, API order id.
pub fn process_order_bound(fields: &[String]) -> (r: Result<(i32, i32, i32), IBKRApiLibError>)
    requires
        order_bound_enough(fields@),
    ensures
        r matches Ok(v) && order_bound_decoded(fields@, v),
{
    let mut it = field_iter(fields);
    skip_field(&mut it);
    let req_id = decode_i32(&mut it)?;
    let api_client_id = decode_i32(&mut it)?;
    let api_order_id = decode_i32(&mut it)?;
    Ok((req_id, api_client_id, api_order_id))
}

/// The values of a message for `position_multi_end`: request id.
pub fn process_position_multi_end(fields: &[String]) -> (r: Result<i32, IBKRApiLibError>)
    requires
        position_multi_end_enough(fields@),
    ensures
        r matches Ok(v) && position_multi_end_decoded(fields@, v),
{
    let mut it = field_iter(fields);
    skip_field(&mut it);
    skip_field(&mut it);
    let req_id = decode_i32(&mut it)?;
    Ok(req_id)
}

/// The values of a message for `receive_fa`: FA data type, XML.
pub fn process_receive_fa(fields: &[String]) -> (r: Result<(FaDataType, String), IBKRApiLibError>)
    requires
        receive_fa_enough(fields@),
    ensures
        r matches Ok(v) && receive_fa_decoded(fields@, v),
{
    let mut it = field_iter(fields);
    skip_field(&mut it);
    skip_field(&mut it);
    let fa_data_type = FaDataType::from_i32(decode_i32(&mut it)?).unwrap();
    let xml = decode_string(&mut it)?;
    Ok((fa_data_type, xml))
}

/// The values of a message for `reroute_mkt_data_req`: request id, contract id, exchange.
pub fn process_reroute_mkt_data_req(
    fields: &[String],
) -> (r: Result<(i32, i32, String), IBKRApiLibError>)
    requires
        reroute_mkt_data_req_enough(fields@),
    ensures
        r matches Ok(v) && reroute_mkt_data_req_decoded(fields@, v),
{
    let mut it = field_iter(fields);
    skip_field(&mut it);
    let req_id = decode_i32(&mut it)?;
    let contract_id = decode_i32(&mut it)?;
    let exchange = decode_string(&mut it)?;
    Ok((req_id, contract_id, exchange))
}

/// The values of a message for `reroute_mkt_depth_req`: request id, contract id, exchange.
pub fn process_reroute_mkt_depth_req(
    fields: &[String],
) -> (r: Result<(i32, i32, String), IBKRApiLibError>)
    requires
        reroute_mkt_depth_req_enough(fields@),
    ensures
        r matches Ok(v) && reroute_mkt_depth_req_decoded(fields@, v),
{
    let mut it = field_iter(fields);
    skip_field(&mut it);
    let req_id = decode_i32(&mut it)?;
    let contract_id = decode_i32(&mut it)?;
    let exchange = decode_string(&mut it)?;
    Ok((req_id, contract_id, exchange))
}

/// The values of a message for `scanner_parameters`: XML.
pub fn process_scanner_parameters(fields: &[String]) -> (r: Result<String, IBKRApiLibError>)
    requires
        scanner_parameters_enough(fields@),
    ensures
        r matches Ok(v) && scanner_parameters_decoded(fields@, v),
{
    let mut it = field_iter(fields);
    skip_field(&mut it);
    skip_field(&mut it);
    let xml = decode_string(&mut it)?;
    Ok(xml)
}

/// The values of a message for `security_definition_option_parameter_end`: request id.
pub fn process_security_definition_option_parameter_end(
    fields: &[String],
) -> (r: Result<i32, IBKRApiLibError>)
    requires
        security_definition_option_parameter_end_enough(fields@),
    ensures
        r matches Ok(v) && security_definition_option_parameter_end_decoded(fields@, v),
{
    let mut it = field_iter(fields);
    skip_field(&mut it);
    let req_id = decode_i32(&mut it)?;
    Ok(req_id)
}

/// The values of a message for `tick_news`: ticker id, time stamp, provider code, article id,
/// headline, extra data.
pub fn process_tick_news(
    fields: &[String],
) -> (r: Result<(i32, i32, String, String, String, String), IBKRApiLibError>)
    requires
        tick_news_enough(fields@),
    ensures
        r matches Ok(v) && tick_news_decoded(fields@, v),
{
    let mut it = field_iter(fields);
    skip_field(&mut it);
    let ticker_id = decode_i32(&mut it)?;
    let time_stamp = decode_i32(&mut it)?;
    let provider_code = decode_string(&mut it)?;
    let article_id = decode_string(&mut it)?;
    let headline = decode_string(&mut it)?;
    let extra_data = decode_string(&mut it)?;
    Ok((ticker_id, time_stamp, provider_code, article_id, headline, extra_data))
}

/// The values of a message for `tick_size`: ticker id, tick type, size.
pub fn process_tick_size(fields: &[String]) -> (r: Result<(i32, TickType, i32), IBKRApiLibError>)
    requires
        tick_size_enough(fields@),
    ensures
        r matches Ok(v) && tick_size_decoded(fields@, v),
{
    let mut it = field_iter(fields);
    skip_field(&mut it);
    skip_field(&mut it);
    let ticker_id = decode_i32(&mut it)?;
    let tick_type = TickType::from_i32(decode_i32(&mut it)?).unwrap();
    let size = decode_i32(&mut it)?;
    Ok((ticker_id, tick_type, size))
}

/// The values of a message for `tick_snapshot_end`: request id.
pub fn process_tick_snapshot_end(fields: &[String]) -> (r: Result<i32, IBKRApiLibError>)
    requires
        tick_snapshot_end_enough(fields@),
    ensures
        r matches Ok(v) && tick_snapshot_end_decoded(fields@, v),
{
    let mut it = field_iter(fields);
    skip_field(&mut it);
    skip_field(&mut it);
    let req_id = decode_i32(&mut it)?;
    Ok(req_id)
}

/// The values of a message for `verify_and_auth_completed`: whether it succeeded, error text.
pub fn process_verify_and_auth_completed(
    fields: &[String],
) -> (r: Result<(bool, String), IBKRApiLibError>)
    requires
        verify_and_auth_completed_enough(fields@),
    ensures
        r matches Ok(v) && verify_and_auth_completed_decoded(fields@, v),
{
    proof {
        reveal_strlit("true");
    }
    let mut it = field_iter(fields);
    skip_field(&mut it);
    skip_field(&mut it);
    let _ = decode_string(&mut it)?;
    let is_successful = decode_string(&mut it)? == String::from_str("true");
    let error_text = decode_string(&mut it)?;
    Ok((is_successful, error_text))
}

/// The values of a message for `verify_and_auth_message_api`: API data, challenge.
pub fn process_verify_and_auth_message_api(
    fields: &[String],
) -> (r: Result<(String, String), IBKRApiLibError>)
    requires
        verify_and_auth_message_api_enough(fields@),
    ensures
        r matches Ok(v) && verify_and_auth_message_api_decoded(fields@, v),
{
    let mut it = field_iter(fields);
    skip_field(&mut it);
    skip_field(&mut it);
    let api_data = decode_string(&mut it)?;
    let challenge = decode_string(&mut it)?;
    Ok((api_data, challenge))
}

/// The values of a message for `verify_completed`: whether it succeeded, error text.
pub fn process_verify_completed(fields: &[String]) -> (r: Result<(bool, String), IBKRApiLibError>)
    requires
        verify_completed_enough(fields@),
    ensures
        r matches Ok(v) && verify_completed_decoded(fields@, v),
{
    proof {
        reveal_strlit("true");
    }
    let mut it = field_iter(fields);
    skip_field(&mut it);
    skip_field(&mut it);
    let _ = decode_string(&mut it)?;
    let is_successful = decode_string(&mut it)? == String::from_str("true");
    let error_text = decode_string(&mut it)?;
    Ok((is_successful, error_text))
}

/// The values of a message for `verify_message_api`: API data.
pub fn process_verify_message_api(fields: &[String]) -> (r: Result<String, IBKRApiLibError>)
    requires
        verify_message_api_enough(fields@),
    ensures
        r matches Ok(v) && verify_message_api_decoded(fields@, v),
{
    let mut it = field_iter(fields);
    skip_field(&mut it);
    skip_field(&mut it);
    let api_data = decode_string(&mut it)?;
    Ok(api_data)
}

/// Whether a message for `delta_neutral_validation` holds the fields that its decoding reads.
pub open spec fn delta_neutral_validation_enough(fields: Seq<String>) -> bool {
    fields.len() >= 6
}

/// The values that decoding a message for `delta_neutral_validation` gives.
pub open spec fn delta_neutral_validation_decoded(
    fields: Seq<String>,
    v: (i32, i32, String, String),
) -> bool {
    &&& v.0 == field_i32(fields[2]@)
    &&& v.1 == field_i32(fields[3]@)
    &&& v.2@ == fields[4]@
    &&& v.3@ == fields[5]@
}

/// Whether a message for `historical_data_update` holds the fields that its decoding reads.
pub open spec fn historical_data_update_enough(fields: Seq<String>) -> bool {
    fields.len() >= 10
}

/// The values that decoding a message for `historical_data_update` gives.
pub open spec fn historical_data_update_decoded(
    fields: Seq<String>,
    v: (i32, i32, String, String, String, String, String, String, i64),
) -> bool {
    &&& v.0 == field_i32(fields[1]@)
    &&& v.1 == field_i32(fields[2]@)
    &&& v.2@ == fields[3]@
    &&& v.3@ == fields[4]@
    &&& v.4@ == fields[5]@
    &&& v.5@ == fields[6]@
    &&& v.6@ == fields[7]@
    &&& v.7@ == fields[8]@
    &&& v.8 == field_i64(fields[9]@)
}

/// Whether a message for `update_mkt_depth` holds the fields that its decoding reads.
pub open spec fn market_depth_enough(fields: Seq<String>) -> bool {
    fields.len() >= 8
}

/// The values that decoding a message for `update_mkt_depth` gives.
pub open spec fn market_depth_decoded(
    fields: Seq<String>,
    v: (i32, i32, i32, i32, String, i32),
) -> bool {
    &&& v.0 == field_i32(fields[2]@)
    &&& v.1 == field_i32(fields[3]@)
    &&& v.2 == field_i32(fields[4]@)
    &&& v.3 == field_i32(fields[5]@)
    &&& v.4@ == fields[6]@
    &&& v.5 == field_i32(fields[7]@)
}

/// Whether a message for `realtime_bar` holds the fields that its decoding reads.
pub open spec fn real_time_bars_enough(fields: Seq<String>) -> bool {
    fields.len() >= 11
}

/// The values that decoding a message for `realtime_bar` gives.
pub open spec fn real_time_bars_decoded(
    fields: Seq<String>,
    v: (i32, String, String, String, String, String, i64, String, i32),
) -> bool {
    &&& v.0 == field_i32(fields[2]@)
    &&& v.1@ == fields[3]@
    &&& v.2@ == fields[4]@
    &&& v.3@ == fields[5]@
    &&& v.4@ == fields[6]@
    &&& v.5@ == fields[7]@
    &&& v.6 == field_i64(fields[8]@)
    &&& v.7@ == fields[9]@
    &&& v.8 == field_i32(fields[10]@)
}

/// Whether a message for `tick_efp` holds the fields that its decoding reads.
pub open spec fn tick_efp_enough(fields: Seq<String>) -> bool {
    &&& fields.len() >= 11
    &&& TickType::from_code(field_i32(fields[3]@) as int) is Some
}

/// The values that decoding a message for `tick_efp` gives.
pub open spec fn tick_efp_decoded(
    fields: Seq<String>,
    v: (i32, TickType, String, String, String, i32, String, String, String),
) -> bool {
    &&& v.0 == field_i32(fields[2]@)
    &&& Some(v.1) == TickType::from_code(field_i32(fields[3]@) as int)
    &&& v.2@ == fields[4]@
    &&& v.3@ == fields[5]@
    &&& v.4@ == fields[6]@
    &&& v.5 == field_i32(fields[7]@)
    &&& v.6@ == fields[8]@
    &&& v.7@ == fields[9]@
    &&& v.8@ == fields[10]@
}

/// Whether a message for `tick_generic` holds the fields that its decoding reads.
pub open spec fn tick_generic_enough(fields: Seq<String>) -> bool {
    &&& fields.len() >= 5
    &&& TickType::from_code(field_i32(fields[3]@) as int) is Some
}

/// The values that decoding a message for `tick_generic` gives.
pub open spec fn tick_generic_decoded(fields: Seq<String>, v: (i32, TickType, String)) -> bool {
    &&& v.0 == field_i32(fields[2]@)
    &&& Some(v.1) == TickType::from_code(field_i32(fields[3]@) as int)
    &&& v.2@ == fields[4]@
}

/// Whether a message for `tick_req_params` holds the fields that its decoding reads.
pub open spec fn tick_req_params_enough(fields: Seq<String>) -> bool {
    fields.len() >= 5
}

/// The values that decoding a message for `tick_req_params` gives.
pub open spec fn tick_req_params_decoded(
    fields: Seq<String>,
    v: (i32, String, String, i32),
) -> bool {
    &&& v.0 == field_i32(fields[1]@)
    &&& v.1@ == fields[2]@
    &&& v.2@ == fields[3]@
    &&& v.3 == field_i32(fields[4]@)
}

/// The values of a message for `delta_neutral_validation`: request id, contract id, delta, price.
/// Floating-point values come as the texts of their fields.
pub fn process_delta_neutral_validation(
    fields: &[String],
) -> (r: Result<(i32, i32, String, String), IBKRApiLibError>)
    requires
        delta_neutral_validation_enough(fields@),
    ensures
        r matches Ok(v) && delta_neutral_validation_decoded(fields@, v),
{
    let mut it = field_iter(fields);
    skip_field(&mut it);
    skip_field(&mut it);
    let req_id = decode_i32(&mut it)?;
    let contract_id = decode_i32(&mut it)?;
    let delta = decode_string(&mut it)?;
    let price = decode_string(&mut it)?;
    Ok((req_id, contract_id, delta, price))
}

/// The values of a message for `historical_data_update`: request id, bar count, date, open, close,
/// high, low, average, volume.
/// Floating-point values come as the texts of their fields.
pub fn process_historical_data_update(
    fields: &[String],
) -> (r: Result<(i32, i32, String, String, String, String, String, String, i64), IBKRApiLibError>)
    requires
        historical_data_update_enough(fields@),
    ensures
        r matches Ok(v) && historical_data_update_decoded(fields@, v),
{
    let mut it = field_iter(fields);
    skip_field(&mut it);
    let req_id = decode_i32(&mut it)?;
    let bar_count = decode_i32(&mut it)?;
    let date = decode_string(&mut it)?;
    let open = decode_string(&mut it)?;
    let close = decode_string(&mut it)?;
    let high = decode_string(&mut it)?;
    let low = decode_string(&mut it)?;
    let average = decode_string(&mut it)?;
    let volume = decode_i64(&mut it)?;
    Ok((req_id, bar_count, date, open, close, high, low, average, volume))
}

/// The values of a message for `update_mkt_depth`: request id, position, operation, side, price,
/// size.
/// Floating-point values come as the texts of their fields.
pub fn process_market_depth(
    fields: &[String],
) -> (r: Result<(i32, i32, i32, i32, String, i32), IBKRApiLibError>)
    requires
        market_depth_enough(fields@),
    ensures
        r matches Ok(v) && market_depth_decoded(fields@, v),
{
    let mut it = field_iter(fields);
    skip_field(&mut it);
    skip_field(&mut it);
    let req_id = decode_i32(&mut it)?;
    let position = decode_i32(&mut it)?;
    let operation = decode_i32(&mut it)?;
    let side = decode_i32(&mut it)?;
    let price = decode_string(&mut it)?;
    let size = decode_i32(&mut it)?;
    Ok((req_id, position, operation, side, price, size))
}

/// The values of a message for `realtime_bar`: request id, date time, open, high, low, close,
/// volume, wap, count.
/// Floating-point values come as the texts of their fields.
pub fn process_real_time_bars(
    fields: &[String],
) -> (r: Result<(i32, String, String, String, String, String, i64, String, i32), IBKRApiLibError>)
    requires
        real_time_bars_enough(fields@),
    ensures
        r matches Ok(v) && real_time_bars_decoded(fields@, v),
{
    let mut it = field_iter(fields);
    skip_field(&mut it);
    skip_field(&mut it);
    let req_id = decode_i32(&mut it)?;
    let date_time = decode_string(&mut it)?;
    let open = decode_string(&mut it)?;
    let high = decode_string(&mut it)?;
    let low = decode_string(&mut it)?;
    let close = decode_string(&mut it)?;
    let volume = decode_i64(&mut it)?;
    let wap = decode_string(&mut it)?;
    let count = decode_i32(&mut it)?;
    Ok((req_id, date_time, open, high, low, close, volume, wap, count))
}

/// The values of a message for `tick_efp`: ticker id, tick type, basis points, formatted basis
/// points, implied futures price, hold days, future last trade date, dividend impact, dividends to
/// last trade date.
/// Floating-point values come as the texts of their fields.
pub fn process_tick_efp(
    fields: &[String],
) -> (r: Result<(i32, TickType, String, String, String, i32, String, String, String), IBKRApiLibError>)
    requires
        tick_efp_enough(fields@),
    ensures
        r matches Ok(v) && tick_efp_decoded(fields@, v),
{
    let mut it = field_iter(fields);
    skip_field(&mut it);
    skip_field(&mut it);
    let ticker_id = decode_i32(&mut it)?;
    let tick_type = TickType::from_i32(decode_i32(&mut it)?).unwrap();
    let basis_points = decode_string(&mut it)?;
    let formatted_basis_points = decode_string(&mut it)?;
    let implied_futures_price = decode_string(&mut it)?;
    let hold_days = decode_i32(&mut it)?;
    let future_last_trade_date = decode_string(&mut it)?;
    let dividend_impact = decode_string(&mut it)?;
    let dividends_to_last_trade_date = decode_string(&mut it)?;
    Ok((ticker_id, tick_type, basis_points, formatted_basis_points, implied_futures_price, hold_days, future_last_trade_date, dividend_impact, dividends_to_last_trade_date))
}

/// The values of a message for `tick_generic`: ticker id, tick type, value.
/// Floating-point values come as the texts of their fields.
pub fn process_tick_generic(
    fields: &[String],
) -> (r: Result<(i32, TickType, String), IBKRApiLibError>)
    requires
        tick_generic_enough(fields@),
    ensures
        r matches Ok(v) && tick_generic_decoded(fields@, v),
{
    let mut it = field_iter(fields);
    skip_field(&mut it);
    skip_field(&mut it);
    let ticker_id = decode_i32(&mut it)?;
    let tick_type = TickType::from_i32(decode_i32(&mut it)?).unwrap();
    let value = decode_string(&mut it)?;
    Ok((ticker_id, tick_type, value))
}

/// The values of a message for `tick_req_params`: ticker id, min tick, BBO exchange, snapshot
/// permissions.
/// Floating-point values come as the texts of their fields.
pub fn process_tick_req_params(
    fields: &[String],
) -> (r: Result<(i32, String, String, i32), IBKRApiLibError>)
    requires
        tick_req_params_enough(fields@),
    ensures
        r matches Ok(v) && tick_req_params_decoded(fields@, v),
{
    let mut it = field_iter(fields);
    skip_field(&mut it);
    let ticker_id = decode_i32(&mut it)?;
    let min_tick = decode_string(&mut it)?;
    let bbo_exchange = decode_string(&mut it)?;
    let snapshot_permissions = decode_i32(&mut it)?;
    Ok((ticker_id, min_tick, bbo_exchange, snapshot_permissions))
}

/// How many entries a count field announces: none when it is negative.
pub open spec fn entry_count(n: i32) -> int {
    if n < 0 { 0 } else { n as int }
}

/// Whether a message for `family_codes` holds the fields that its decoding reads.
pub open spec fn family_codes_enough(fields: Seq<String>) -> bool {
    &&& fields.len() >= 2
    &&& fields.len() >= 2 + 2 * entry_count(field_i32(fields[1]@))
}

/// The values that decoding a message for `family_codes` gives.
pub open spec fn family_codes_decoded(fields: Seq<String>, v: Vec<FamilyCode>) -> bool {
    &&& v.len() == entry_count(field_i32(fields[1]@))
    &&& forall|j: int|
        #![trigger v[j]]
        0 <= j < v.len() ==> v[j].account_id@ == fields[2 + 2 * j]@
            && v[j].family_code_str@ == fields[3 + 2 * j]@
}

/// The values of a message for `family_codes`: the count, then account id and family code
/// of each entry.
pub fn process_family_codes(fields: &[String]) -> (r: Result<Vec<FamilyCode>, IBKRApiLibError>)
    requires
        family_codes_enough(fields@),
    ensures
        r matches Ok(v) && family_codes_decoded(fields@, v),
{
    let mut it = field_iter(fields);
    skip_field(&mut it);
    let count = decode_i32(&mut it)?;
    let mut family_codes: Vec<FamilyCode> = Vec::new();
    let mut i: i32 = 0;
    while i < count
        invariant
            0 <= i,
            count == field_i32(fields@[1]@),
            i <= entry_count(count),
            fields.len() >= 2 + 2 * entry_count(count),
            family_codes.len() == i,
            fields_left(it.remaining()) == texts(fields@).skip(2 + 2 * i),
            forall|j: int|
                #![trigger family_codes[j]]
                0 <= j < i ==> family_codes[j].account_id@ == fields@[2 + 2 * j]@
                    && family_codes[j].family_code_str@ == fields@[3 + 2 * j]@,
        decreases count - i,
    {
        let account_id = decode_string(&mut it)?;
        let family_code_str = decode_string(&mut it)?;
        family_codes.push(FamilyCode::new(account_id, family_code_str));
        i = i + 1;
        assert(fields_left(it.remaining()) =~= texts(fields@).skip(2 + 2 * i));
    }
    Ok(family_codes)
}


/// A price increment of a market rule: from which price on it applies, and the increment,
/// as the texts of their fields.
#[derive(Clone, Debug)]
pub struct PriceIncrementFields {
    pub low_edge: String,
    pub increment: String,
}

/// Whether a message for `market_rule` holds the fields that its decoding reads.
pub open spec fn market_rule_enough(fields: Seq<String>) -> bool {
    &&& fields.len() >= 3
    &&& fields.len() >= 3 + 2 * entry_count(field_i32(fields[2]@))
}

/// The values that decoding a message for `market_rule` gives.
pub open spec fn market_rule_decoded(fields: Seq<String>, v: (i32, Vec<PriceIncrementFields>)) -> bool {
    &&& v.0 == field_i32(fields[1]@)
    &&& v.1.len() == entry_count(field_i32(fields[2]@))
    &&& forall|j: int|
        #![trigger v.1[j]]
        0 <= j < v.1.len() ==> v.1[j].low_edge@ == fields[3 + 2 * j]@ && v.1[j].increment@
            == fields[4 + 2 * j]@
}

/// The values of a message for `market_rule`: the rule's id, the count, then low edge and
/// increment of each price increment.
pub fn process_market_rule(
    fields: &[String],
) -> (r: Result<(i32, Vec<PriceIncrementFields>), IBKRApiLibError>)
    requires
        market_rule_enough(fields@),
    ensures
        r matches Ok(v) && market_rule_decoded(fields@, v),
{
    let mut it = field_iter(fields);
    skip_field(&mut it);
    let market_rule_id = decode_i32(&mut it)?;
    let count = decode_i32(&mut it)?;
    let mut increments: Vec<PriceIncrementFields> = Vec::new();
    let mut i: i32 = 0;
    while i < count
        invariant
            0 <= i,
            count == field_i32(fields@[2]@),
            i <= entry_count(count),
            fields.len() >= 3 + 2 * entry_count(count),
            increments.len() == i,
            fields_left(it.remaining()) == texts(fields@).skip(3 + 2 * i),
            forall|j: int|
                #![trigger increments[j]]
                0 <= j < i ==> increments[j].low_edge@ == fields@[3 + 2 * j]@
                    && increments[j].increment@ == fields@[4 + 2 * j]@,
        decreases count - i,
    {
        let low_edge = decode_string(&mut it)?;
        let increment = decode_string(&mut it)?;
        increments.push(PriceIncrementFields { low_edge, increment });
        i = i + 1;
        assert(fields_left(it.remaining()) =~= texts(fields@).skip(3 + 2 * i));
    }
    Ok((market_rule_id, increments))
}


/// Whether a message for `mkt_depth_exchanges` holds the fields that its decoding reads: a
/// count, then five fields for each exchange on servers that send its service data type,
/// three on older ones.
pub open spec fn mkt_depth_exchanges_enough(sv: i32, fields: Seq<String>) -> bool {
    &&& fields.len() >= 2
    &&& if sv >= MIN_SERVER_VER_SERVICE_DATA_TYPE {
        fields.len() >= 2 + 5 * entry_count(field_i32(fields[1]@))
    } else {
        fields.len() >= 2 + 3 * entry_count(field_i32(fields[1]@))
    }
}

/// The values that decoding a message for `mkt_depth_exchanges` gives. Older servers send
/// exchange, security type and a flag that is passed over; the other values stay empty.
pub open spec fn mkt_depth_exchanges_decoded(
    sv: i32,
    fields: Seq<String>,
    v: Vec<DepthMktDataDescription>,
) -> bool {
    &&& v.len() == entry_count(field_i32(fields[1]@))
    &&& if sv >= MIN_SERVER_VER_SERVICE_DATA_TYPE {
        forall|j: int|
            #![trigger v[j]]
            0 <= j < v.len() ==> {
                &&& v[j].exchange@ == fields[2 + 5 * j]@
                &&& v[j].sec_type@ == fields[3 + 5 * j]@
                &&& v[j].listing_exch@ == fields[4 + 5 * j]@
                &&& v[j].service_data_type@ == fields[5 + 5 * j]@
                &&& v[j].agg_group == field_i32(fields[6 + 5 * j]@)
            }
    } else {
        forall|j: int|
            #![trigger v[j]]
            0 <= j < v.len() ==> {
                &&& v[j].exchange@ == fields[2 + 3 * j]@
                &&& v[j].sec_type@ == fields[3 + 3 * j]@
                &&& v[j].listing_exch@ == Seq::<char>::empty()
                &&& v[j].service_data_type@ == Seq::<char>::empty()
                &&& v[j].agg_group == 0
            }
    }
}

/// The exchanges that offer market depth.
pub fn process_mkt_depth_exchanges(
    server_version: i32,
    fields: &[String],
) -> (r: Result<Vec<DepthMktDataDescription>, IBKRApiLibError>)
    requires
        mkt_depth_exchanges_enough(server_version, fields@),
    ensures
        r matches Ok(v) && mkt_depth_exchanges_decoded(server_version, fields@, v),
{
    let mut it = field_iter(fields);
    skip_field(&mut it);
    let count = decode_i32(&mut it)?;
    let mut descs: Vec<DepthMktDataDescription> = Vec::new();
    let mut i: i32 = 0;
    if server_version >= MIN_SERVER_VER_SERVICE_DATA_TYPE {
        while i < count
            invariant
                0 <= i,
                count == field_i32(fields@[1]@),
                i <= entry_count(count),
                fields.len() >= 2 + 5 * entry_count(count),
                descs.len() == i,
                fields_left(it.remaining()) == texts(fields@).skip(2 + 5 * i),
                forall|j: int|
                    #![trigger descs[j]]
                    0 <= j < i ==> {
                        &&& descs[j].exchange@ == fields@[2 + 5 * j]@
                        &&& descs[j].sec_type@ == fields@[3 + 5 * j]@
                        &&& descs[j].listing_exch@ == fields@[4 + 5 * j]@
                        &&& descs[j].service_data_type@ == fields@[5 + 5 * j]@
                        &&& descs[j].agg_group == field_i32(fields@[6 + 5 * j]@)
                    },
            decreases count - i,
        {
            let exchange = decode_string(&mut it)?;
            let sec_type = decode_string(&mut it)?;
            let listing_exch = decode_string(&mut it)?;
            let service_data_type = decode_string(&mut it)?;
            let agg_group = decode_i32(&mut it)?;
            descs.push(DepthMktDataDescription::new(exchange, sec_type, listing_exch, service_data_type, agg_group));
            i = i + 1;
            assert(fields_left(it.remaining()) =~= texts(fields@).skip(2 + 5 * i));
        }
    } else {
        while i < count
            invariant
                0 <= i,
                count == field_i32(fields@[1]@),
                i <= entry_count(count),
                fields.len() >= 2 + 3 * entry_count(count),
                descs.len() == i,
                fields_left(it.remaining()) == texts(fields@).skip(2 + 3 * i),
                forall|j: int|
                    #![trigger descs[j]]
                    0 <= j < i ==> {
                        &&& descs[j].exchange@ == fields@[2 + 3 * j]@
                        &&& descs[j].sec_type@ == fields@[3 + 3 * j]@
                        &&& descs[j].listing_exch@ == Seq::<char>::empty()
                        &&& descs[j].service_data_type@ == Seq::<char>::empty()
                        &&& descs[j].agg_group == 0
                    },
            decreases count - i,
        {
            let exchange = decode_string(&mut it)?;
            let sec_type = decode_string(&mut it)?;
            let _supports_l2 = decode_i32(&mut it)?;
            descs.push(DepthMktDataDescription::new(exchange, sec_type, String::new(), String::new(), 0));
            i = i + 1;
            assert(fields_left(it.remaining()) =~= texts(fields@).skip(2 + 3 * i));
        }
    }
    Ok(descs)
}


/// A bar of historical data, its prices as the texts of their fields.
#[derive(Clone, Debug)]
pub struct HistoricalBarFields {
    pub date: String,
    pub open: String,
    pub high: String,
    pub low: String,
    pub close: String,
    pub volume: i64,
    pub average: String,
    pub bar_count: i32,
}

/// Whether a message for `historical_data` holds the fields that its decoding reads. Servers
/// before synthetic real-time bars send a version field first and a gaps flag in each bar.
pub open spec fn historical_data_enough(sv: i32, fields: Seq<String>) -> bool {
    if sv >= MIN_SERVER_VER_SYNT_REALTIME_BARS {
        &&& fields.len() >= 5
        &&& fields.len() >= 5 + 8 * entry_count(field_i32(fields[4]@))
    } else {
        &&& fields.len() >= 6
        &&& fields.len() >= 6 + 9 * entry_count(field_i32(fields[5]@))
    }
}

/// The values that decoding a message for `historical_data` gives: the request, the start
/// and end dates, and the bars.
pub open spec fn historical_data_decoded(
    sv: i32,
    fields: Seq<String>,
    v: (i32, String, String, Vec<HistoricalBarFields>),
) -> bool {
    if sv >= MIN_SERVER_VER_SYNT_REALTIME_BARS {
        &&& v.0 == field_i32(fields[1]@)
        &&& v.1@ == fields[2]@
        &&& v.2@ == fields[3]@
        &&& v.3.len() == entry_count(field_i32(fields[4]@))
        &&& forall|j: int|
            #![trigger v.3[j]]
            0 <= j < v.3.len() ==> {
                &&& v.3[j].date@ == fields[5 + 8 * j]@
                &&& v.3[j].open@ == fields[6 + 8 * j]@
                &&& v.3[j].high@ == fields[7 + 8 * j]@
                &&& v.3[j].low@ == fields[8 + 8 * j]@
                &&& v.3[j].close@ == fields[9 + 8 * j]@
                &&& v.3[j].volume == field_i64(fields[10 + 8 * j]@)
                &&& v.3[j].average@ == fields[11 + 8 * j]@
                &&& v.3[j].bar_count == field_i32(fields[12 + 8 * j]@)
            }
    } else {
        &&& v.0 == field_i32(fields[2]@)
        &&& v.1@ == fields[3]@
        &&& v.2@ == fields[4]@
        &&& v.3.len() == entry_count(field_i32(fields[5]@))
        &&& forall|j: int|
            #![trigger v.3[j]]
            0 <= j < v.3.len() ==> {
                &&& v.3[j].date@ == fields[6 + 9 * j]@
                &&& v.3[j].open@ == fields[7 + 9 * j]@
                &&& v.3[j].high@ == fields[8 + 9 * j]@
                &&& v.3[j].low@ == fields[9 + 9 * j]@
                &&& v.3[j].close@ == fields[10 + 9 * j]@
                &&& v.3[j].volume == field_i32(fields[11 + 9 * j]@) as i64
                &&& v.3[j].average@ == fields[12 + 9 * j]@
                &&& v.3[j].bar_count == field_i32(fields[14 + 9 * j]@)
            }
    }
}

/// The bars of a historical data request.
pub fn process_historical_data(
    server_version: i32,
    fields: &[String],
) -> (r: Result<(i32, String, String, Vec<HistoricalBarFields>), IBKRApiLibError>)
    requires
        historical_data_enough(server_version, fields@),
    ensures
        r matches Ok(v) && historical_data_decoded(server_version, fields@, v),
{
    let mut it = field_iter(fields);
    skip_field(&mut it);
    let mut bars: Vec<HistoricalBarFields> = Vec::new();
    let mut i: i32 = 0;
    if server_version >= MIN_SERVER_VER_SYNT_REALTIME_BARS {
        let req_id = decode_i32(&mut it)?;
        let start_date = decode_string(&mut it)?;
        let end_date = decode_string(&mut it)?;
        let count = decode_i32(&mut it)?;
        while i < count
            invariant
                0 <= i,
                count == field_i32(fields@[4]@),
                i <= entry_count(count),
                fields.len() >= 5 + 8 * entry_count(count),
                bars.len() == i,
                fields_left(it.remaining()) == texts(fields@).skip(5 + 8 * i),
                forall|j: int|
                    #![trigger bars[j]]
                    0 <= j < i ==> {
                        &&& bars[j].date@ == fields@[5 + 8 * j]@
                        &&& bars[j].open@ == fields@[6 + 8 * j]@
                        &&& bars[j].high@ == fields@[7 + 8 * j]@
                        &&& bars[j].low@ == fields@[8 + 8 * j]@
                        &&& bars[j].close@ == fields@[9 + 8 * j]@
                        &&& bars[j].volume == field_i64(fields@[10 + 8 * j]@)
                        &&& bars[j].average@ == fields@[11 + 8 * j]@
                        &&& bars[j].bar_count == field_i32(fields@[12 + 8 * j]@)
                    },
            decreases count - i,
        {
            let date = decode_string(&mut it)?;
            let open = decode_string(&mut it)?;
            let high = decode_string(&mut it)?;
            let low = decode_string(&mut it)?;
            let close = decode_string(&mut it)?;
            let volume = decode_i64(&mut it)?;
            let average = decode_string(&mut it)?;
            let bar_count = decode_i32(&mut it)?;
            bars.push(HistoricalBarFields { date, open, high, low, close, volume, average, bar_count });
            i = i + 1;
            assert(fields_left(it.remaining()) =~= texts(fields@).skip(5 + 8 * i));
        }
        Ok((req_id, start_date, end_date, bars))
    } else {
        skip_field(&mut it);
        let req_id = decode_i32(&mut it)?;
        let start_date = decode_string(&mut it)?;
        let end_date = decode_string(&mut it)?;
        let count = decode_i32(&mut it)?;
        while i < count
            invariant
                0 <= i,
                count == field_i32(fields@[5]@),
                i <= entry_count(count),
                fields.len() >= 6 + 9 * entry_count(count),
                bars.len() == i,
                fields_left(it.remaining()) == texts(fields@).skip(6 + 9 * i),
                forall|j: int|
                    #![trigger bars[j]]
                    0 <= j < i ==> {
                        &&& bars[j].date@ == fields@[6 + 9 * j]@
                        &&& bars[j].open@ == fields@[7 + 9 * j]@
                        &&& bars[j].high@ == fields@[8 + 9 * j]@
                        &&& bars[j].low@ == fields@[9 + 9 * j]@
                        &&& bars[j].close@ == fields@[10 + 9 * j]@
                        &&& bars[j].volume == field_i32(fields@[11 + 9 * j]@) as i64
                        &&& bars[j].average@ == fields@[12 + 9 * j]@
                        &&& bars[j].bar_count == field_i32(fields@[14 + 9 * j]@)
                    },
            decreases count - i,
        {
            let date = decode_string(&mut it)?;
            let open = decode_string(&mut it)?;
            let high = decode_string(&mut it)?;
            let low = decode_string(&mut it)?;
            let close = decode_string(&mut it)?;
            let volume = decode_i32(&mut it)? as i64;
            let average = decode_string(&mut it)?;
            skip_field(&mut it);
            let bar_count = decode_i32(&mut it)?;
            bars.push(HistoricalBarFields { date, open, high, low, close, volume, average, bar_count });
            i = i + 1;
            assert(fields_left(it.remaining()) =~= texts(fields@).skip(6 + 9 * i));
        }
        Ok((req_id, start_date, end_date, bars))
    }
}


/// The values of an option chain: the request, exchange, underlying contract id, trading
/// class and multiplier, then the expirations and the strikes (as the texts of their fields).
#[derive(Clone, Debug)]
pub struct OptionChainFields {
    pub req_id: i32,
    pub exchange: String,
    pub underlying_con_id: i32,
    pub trading_class: String,
    pub multiplier: String,
    pub expirations: Vec<String>,
    pub strikes: Vec<String>,
}

/// The number of expirations of an option chain message.
pub open spec fn chain_expiration_count(fields: Seq<String>) -> int {
    entry_count(field_i32(fields[6]@))
}

/// Whether a message for `security_definition_option_parameter` holds the fields that its
/// decoding reads: the expirations after their count, then the strikes after theirs.
pub open spec fn option_chain_enough(fields: Seq<String>) -> bool {
    let e = chain_expiration_count(fields);
    &&& fields.len() >= 8 + e
    &&& fields.len() >= 8 + e + entry_count(field_i32(fields[7 + e]@))
}

/// The values that decoding a message for `security_definition_option_parameter` gives.
pub open spec fn option_chain_decoded(fields: Seq<String>, v: OptionChainFields) -> bool {
    let e = chain_expiration_count(fields);
    &&& v.req_id == field_i32(fields[1]@)
    &&& v.exchange@ == fields[2]@
    &&& v.underlying_con_id == field_i32(fields[3]@)
    &&& v.trading_class@ == fields[4]@
    &&& v.multiplier@ == fields[5]@
    &&& v.expirations.len() == e
    &&& forall|j: int| #![trigger v.expirations[j]] 0 <= j < e ==> v.expirations[j]@ == fields[7 + j]@
    &&& v.strikes.len() == entry_count(field_i32(fields[7 + e]@))
    &&& forall|j: int|
        #![trigger v.strikes[j]]
        0 <= j < v.strikes.len() ==> v.strikes[j]@ == fields[8 + e + j]@
}

/// Decodes an option chain (`security_definition_option_parameter`).
pub fn process_security_definition_option_parameter(
    fields: &[String],
) -> (r: Result<OptionChainFields, IBKRApiLibError>)
    requires
        option_chain_enough(fields@),
    ensures
        r matches Ok(v) && option_chain_decoded(fields@, v),
{
    let mut it = field_iter(fields);
    skip_field(&mut it);
    let req_id = decode_i32(&mut it)?;
    let exchange = decode_string(&mut it)?;
    let underlying_con_id = decode_i32(&mut it)?;
    let trading_class = decode_string(&mut it)?;
    let multiplier = decode_string(&mut it)?;
    let exp_count = decode_i32(&mut it)?;
    let ghost e = entry_count(exp_count);
    let mut expirations: Vec<String> = Vec::new();
    let mut i: i32 = 0;
    while i < exp_count
        invariant
            0 <= i,
            exp_count == field_i32(fields@[6]@),
            e == entry_count(exp_count),
            i <= e,
            fields.len() >= 8 + e,
            expirations.len() == i,
            fields_left(it.remaining()) == texts(fields@).skip(7 + i),
            forall|j: int| #![trigger expirations[j]] 0 <= j < i ==> expirations[j]@ == fields@[7 + j]@,
        decreases exp_count - i,
    {
        let expiration = decode_string(&mut it)?;
        expirations.push(expiration);
        i = i + 1;
        assert(fields_left(it.remaining()) =~= texts(fields@).skip(7 + i));
    }
    let strike_count = decode_i32(&mut it)?;
    let mut strikes: Vec<String> = Vec::new();
    let mut k: i32 = 0;
    while k < strike_count
        invariant
            0 <= k,
            e == chain_expiration_count(fields@),
            strike_count == field_i32(fields@[7 + e]@),
            k <= entry_count(strike_count),
            fields.len() >= 8 + e + entry_count(strike_count),
            strikes.len() == k,
            fields_left(it.remaining()) == texts(fields@).skip(8 + e + k),
            forall|j: int| #![trigger strikes[j]] 0 <= j < k ==> strikes[j]@ == fields@[8 + e + j]@,
        decreases strike_count - k,
    {
        let strike = decode_string(&mut it)?;
        strikes.push(strike);
        k = k + 1;
        assert(fields_left(it.remaining()) =~= texts(fields@).skip(8 + e + k));
    }
    Ok(OptionChainFields {
        req_id,
        exchange,
        underlying_con_id,
        trading_class,
        multiplier,
        expirations,
        strikes,
    })
}


/// An element of scanner results: its rank, the contract and its market name, and the
/// distance, benchmark, projection and legs texts.
#[derive(Clone, Debug)]
pub struct ScanElementFields {
    pub rank: i32,
    pub con_id: i32,
    pub symbol: String,
    pub sec_type: String,
    pub last_trade_date_or_contract_month: String,
    pub strike: String,
    pub right: String,
    pub exchange: String,
    pub currency: String,
    pub local_symbol: String,
    pub market_name: String,
    pub trading_class: String,
    pub distance: String,
    pub benchmark: String,
    pub projection: String,
    pub legs: String,
}

/// Whether a message for `scanner_data` holds the fields that its decoding reads.
pub open spec fn scanner_data_enough(fields: Seq<String>) -> bool {
    &&& fields.len() >= 4
    &&& fields.len() >= 4 + 16 * entry_count(field_i32(fields[3]@))
}

/// The values that decoding a message for `scanner_data` gives: the request, then sixteen
/// fields for each element.
pub open spec fn scanner_data_decoded(fields: Seq<String>, v: (i32, Vec<ScanElementFields>)) -> bool {
    &&& v.0 == field_i32(fields[2]@)
    &&& v.1.len() == entry_count(field_i32(fields[3]@))
    &&& forall|j: int|
        #![trigger v.1[j]]
        0 <= j < v.1.len() ==> {
            &&& v.1[j].rank == field_i32(fields[4 + 16 * j]@)
            &&& v.1[j].con_id == field_i32(fields[5 + 16 * j]@)
            &&& v.1[j].symbol@ == fields[6 + 16 * j]@
            &&& v.1[j].sec_type@ == fields[7 + 16 * j]@
            &&& v.1[j].last_trade_date_or_contract_month@ == fields[8 + 16 * j]@
            &&& v.1[j].strike@ == fields[9 + 16 * j]@
            &&& v.1[j].right@ == fields[10 + 16 * j]@
            &&& v.1[j].exchange@ == fields[11 + 16 * j]@
            &&& v.1[j].currency@ == fields[12 + 16 * j]@
            &&& v.1[j].local_symbol@ == fields[13 + 16 * j]@
            &&& v.1[j].market_name@ == fields[14 + 16 * j]@
            &&& v.1[j].trading_class@ == fields[15 + 16 * j]@
            &&& v.1[j].distance@ == fields[16 + 16 * j]@
            &&& v.1[j].benchmark@ == fields[17 + 16 * j]@
            &&& v.1[j].projection@ == fields[18 + 16 * j]@
            &&& v.1[j].legs@ == fields[19 + 16 * j]@
        }
}

/// The values of a message for `scanner_data`.
pub fn process_scanner_data(
    fields: &[String],
) -> (r: Result<(i32, Vec<ScanElementFields>), IBKRApiLibError>)
    requires
        scanner_data_enough(fields@),
    ensures
        r matches Ok(v) && scanner_data_decoded(fields@, v),
{
    let mut it = field_iter(fields);
    skip_field(&mut it);
    skip_field(&mut it);
    let req_id = decode_i32(&mut it)?;
    let count = decode_i32(&mut it)?;
    let mut elements: Vec<ScanElementFields> = Vec::new();
    let mut i: i32 = 0;
    while i < count
        invariant
            0 <= i,
            count == field_i32(fields@[3]@),
            i <= entry_count(count),
            fields.len() >= 4 + 16 * entry_count(count),
            elements.len() == i,
            fields_left(it.remaining()) == texts(fields@).skip(4 + 16 * i),
            forall|j: int|
                #![trigger elements[j]]
                0 <= j < i ==> {
                    &&& elements[j].rank == field_i32(fields@[4 + 16 * j]@)
                    &&& elements[j].con_id == field_i32(fields@[5 + 16 * j]@)
                    &&& elements[j].symbol@ == fields@[6 + 16 * j]@
                    &&& elements[j].sec_type@ == fields@[7 + 16 * j]@
                    &&& elements[j].last_trade_date_or_contract_month@ == fields@[8 + 16 * j]@
                    &&& elements[j].strike@ == fields@[9 + 16 * j]@
                    &&& elements[j].right@ == fields@[10 + 16 * j]@
                    &&& elements[j].exchange@ == fields@[11 + 16 * j]@
                    &&& elements[j].currency@ == fields@[12 + 16 * j]@
                    &&& elements[j].local_symbol@ == fields@[13 + 16 * j]@
                    &&& elements[j].market_name@ == fields@[14 + 16 * j]@
                    &&& elements[j].trading_class@ == fields@[15 + 16 * j]@
                    &&& elements[j].distance@ == fields@[16 + 16 * j]@
                    &&& elements[j].benchmark@ == fields@[17 + 16 * j]@
                    &&& elements[j].projection@ == fields@[18 + 16 * j]@
                    &&& elements[j].legs@ == fields@[19 + 16 * j]@
                },
        decreases count - i,
    {
        let rank = decode_i32(&mut it)?;
        let con_id = decode_i32(&mut it)?;
        let symbol = decode_string(&mut it)?;
        let sec_type = decode_string(&mut it)?;
        let last_trade_date_or_contract_month = decode_string(&mut it)?;
        let strike = decode_string(&mut it)?;
        let right = decode_string(&mut it)?;
        let exchange = decode_string(&mut it)?;
        let currency = decode_string(&mut it)?;
        let local_symbol = decode_string(&mut it)?;
        let market_name = decode_string(&mut it)?;
        let trading_class = decode_string(&mut it)?;
        let distance = decode_string(&mut it)?;
        let benchmark = decode_string(&mut it)?;
        let projection = decode_string(&mut it)?;
        let legs = decode_string(&mut it)?;
        elements.push(ScanElementFields {
            rank,
            con_id,
            symbol,
            sec_type,
            last_trade_date_or_contract_month,
            strike,
            right,
            exchange,
            currency,
            local_symbol,
            market_name,
            trading_class,
            distance,
            benchmark,
            projection,
            legs,
        });
        i = i + 1;
        assert(fields_left(it.remaining()) =~= texts(fields@).skip(4 + 16 * i));
    }
    Ok((req_id, elements))
}


/// Whether a message for `news_providers` holds the fields that its decoding reads.
pub open spec fn news_providers_enough(fields: Seq<String>) -> bool {
    &&& fields.len() >= 2
    &&& fields.len() >= 2 + 2 * entry_count(field_i32(fields[1]@))
}

/// The values that decoding a message for `news_providers` gives.
pub open spec fn news_providers_decoded(fields: Seq<String>, v: Vec<NewsProvider>) -> bool {
    &&& v.len() == entry_count(field_i32(fields[1]@))
    &&& forall|j: int|
        #![trigger v[j]]
        0 <= j < v.len() ==> v[j].code@ == fields[2 + 2 * j]@ && v[j].name@ == fields[3 + 2 * j]@
}

/// The values of a message for `news_providers`: the count, then code and name of each entry.
pub fn process_news_providers(fields: &[String]) -> (r: Result<Vec<NewsProvider>, IBKRApiLibError>)
    requires
        news_providers_enough(fields@),
    ensures
        r matches Ok(v) && news_providers_decoded(fields@, v),
{
    let mut it = field_iter(fields);
    skip_field(&mut it);
    let mut news_providers: Vec<NewsProvider> = Vec::new();
    let count = decode_i32(&mut it)?;
    let mut i: i32 = 0;
    while i < count
        invariant
            0 <= i,
            count == field_i32(fields@[1]@),
            i <= entry_count(count),
            fields.len() >= 2 + 2 * entry_count(count),
            news_providers.len() == i,
            fields_left(it.remaining()) == texts(fields@).skip(2 + 2 * i),
            forall|j: int|
                #![trigger news_providers[j]]
                0 <= j < i ==> news_providers[j].code@ == fields@[2 + 2 * j]@
                    && news_providers[j].name@ == fields@[3 + 2 * j]@,
        decreases count - i,
    {
        let code = decode_string(&mut it)?;
        let name = decode_string(&mut it)?;
        news_providers.push(NewsProvider::new(code, name));
        i = i + 1;
        assert(fields_left(it.remaining()) =~= texts(fields@).skip(2 + 2 * i));
    }
    Ok(news_providers)
}

/// Whether a message for `smart_components` holds the fields that its decoding reads.
pub open spec fn smart_components_enough(fields: Seq<String>) -> bool {
    &&& fields.len() >= 3
    &&& fields.len() >= 3 + 3 * entry_count(field_i32(fields[2]@))
}

/// The values that decoding a message for `smart_components` gives.
pub open spec fn smart_components_decoded(
    fields: Seq<String>,
    v: (i32, Vec<SmartComponent>),
) -> bool {
    &&& v.0 == field_i32(fields[1]@)
    &&& v.1.len() == entry_count(field_i32(fields[2]@))
    &&& forall|j: int|
        #![trigger v.1[j]]
        0 <= j < v.1.len() ==> {
            &&& v.1[j].bit_number == field_i32(fields[3 + 3 * j]@)
            &&& v.1[j].exchange@ == fields[4 + 3 * j]@
            &&& v.1[j].exchange_letter@ == fields[5 + 3 * j]@
        }
}

/// The values of a message for `smart_components`: request id, the count, then bit number,
/// exchange and exchange letter of each entry.
pub fn process_smart_components(
    fields: &[String],
) -> (r: Result<(i32, Vec<SmartComponent>), IBKRApiLibError>)
    requires
        smart_components_enough(fields@),
    ensures
        r matches Ok(v) && smart_components_decoded(fields@, v),
{
    let mut it = field_iter(fields);
    skip_field(&mut it);
    let req_id = decode_i32(&mut it)?;
    let count = decode_i32(&mut it)?;
    let mut smart_components: Vec<SmartComponent> = Vec::new();
    let mut i: i32 = 0;
    while i < count
        invariant
            0 <= i,
            count == field_i32(fields@[2]@),
            i <= entry_count(count),
            fields.len() >= 3 + 3 * entry_count(count),
            smart_components.len() == i,
            fields_left(it.remaining()) == texts(fields@).skip(3 + 3 * i),
            forall|j: int|
                #![trigger smart_components[j]]
                0 <= j < i ==> smart_components[j].bit_number == field_i32(fields@[3 + 3 * j]@)
                    && smart_components[j].exchange@ == fields@[4 + 3 * j]@
                    && smart_components[j].exchange_letter@ == fields@[5 + 3 * j]@,
        decreases count - i,
    {
        let bit_number = decode_i32(&mut it)?;
        let exchange = decode_string(&mut it)?;
        let exchange_letter = decode_string(&mut it)?;
        smart_components.push(SmartComponent::new(bit_number, exchange, exchange_letter));
        i = i + 1;
        assert(fields_left(it.remaining()) =~= texts(fields@).skip(3 + 3 * i));
    }
    Ok((req_id, smart_components))
}

/// Whether a message for `soft_dollar_tiers` holds the fields that its decoding reads.
pub open spec fn soft_dollar_tiers_enough(fields: Seq<String>) -> bool {
    &&& fields.len() >= 3
    &&& fields.len() >= 3 + 3 * entry_count(field_i32(fields[2]@))
}

/// The values that decoding a message for `soft_dollar_tiers` gives.
pub open spec fn soft_dollar_tiers_decoded(
    fields: Seq<String>,
    v: (i32, Vec<SoftDollarTier>),
) -> bool {
    &&& v.0 == field_i32(fields[1]@)
    &&& v.1.len() == entry_count(field_i32(fields[2]@))
    &&& forall|j: int|
        #![trigger v.1[j]]
        0 <= j < v.1.len() ==> {
            &&& v.1[j].name@ == fields[3 + 3 * j]@
            &&& v.1[j].val@ == fields[4 + 3 * j]@
            &&& v.1[j].display_name@ == fields[5 + 3 * j]@
        }
}

/// The values of a message for `soft_dollar_tiers`: request id, the count, then name, value
/// and display name of each tier.
pub fn process_soft_dollar_tiers(
    fields: &[String],
) -> (r: Result<(i32, Vec<SoftDollarTier>), IBKRApiLibError>)
    requires
        soft_dollar_tiers_enough(fields@),
    ensures
        r matches Ok(v) && soft_dollar_tiers_decoded(fields@, v),
{
    let mut it = field_iter(fields);
    skip_field(&mut it);
    let req_id = decode_i32(&mut it)?;
    let count = decode_i32(&mut it)?;
    let mut tiers: Vec<SoftDollarTier> = Vec::new();
    let mut i: i32 = 0;
    while i < count
        invariant
            0 <= i,
            count == field_i32(fields@[2]@),
            i <= entry_count(count),
            fields.len() >= 3 + 3 * entry_count(count),
            tiers.len() == i,
            fields_left(it.remaining()) == texts(fields@).skip(3 + 3 * i),
            forall|j: int|
                #![trigger tiers[j]]
                0 <= j < i ==> tiers[j].name@ == fields@[3 + 3 * j]@ && tiers[j].val@ == fields@[4
                    + 3 * j]@ && tiers[j].display_name@ == fields@[5 + 3 * j]@,
        decreases count - i,
    {
        let name = decode_string(&mut it)?;
        let val = decode_string(&mut it)?;
        let display_name = decode_string(&mut it)?;
        tiers.push(SoftDollarTier::new(name, val, display_name));
        i = i + 1;
        assert(fields_left(it.remaining()) =~= texts(fields@).skip(3 + 3 * i));
    }
    Ok((req_id, tiers))
}


/// Whether `c` has the Unicode White_Space property, as `char::is_whitespace` tests.
pub open spec fn white_space(c: char) -> bool {
    ||| '\u{9}' <= c <= '\u{d}'
    ||| c == ' '
    ||| c == '\u{85}'
    ||| c == '\u{a0}'
    ||| c == '\u{1680}'
    ||| '\u{2000}' <= c <= '\u{200a}'
    ||| c == '\u{2028}'
    ||| c == '\u{2029}'
    ||| c == '\u{202f}'
    ||| c == '\u{205f}'
    ||| c == '\u{3000}'
}

/// The words of `s`, given that `cur` holds the word being read when `s` begins.
pub open spec fn words_from(s: Seq<char>, cur: Seq<char>) -> Seq<Seq<char>>
    decreases s.len(),
{
    if s.len() == 0 {
        if cur.len() == 0 { seq![] } else { seq![cur] }
    } else if white_space(s[0]) {
        (if cur.len() == 0 { seq![] } else { seq![cur] }) + words_from(s.drop_first(), seq![])
    } else {
        words_from(s.drop_first(), cur.push(s[0]))
    }
}

/// The words of `s`: its maximal runs of characters that are not white space, in order, as
/// `str::split_whitespace` hands them out.
pub open spec fn words(s: Seq<char>) -> Seq<Seq<char>> {
    words_from(s, seq![])
}

fn is_white_space(c: char) -> (r: bool)
    ensures
        r == white_space(c),
{
    ('\u{9}' <= c && c <= '\u{d}') || c == ' ' || c == '\u{85}' || c == '\u{a0}' || c
        == '\u{1680}' || ('\u{2000}' <= c && c <= '\u{200a}') || c == '\u{2028}' || c
        == '\u{2029}' || c == '\u{202f}' || c == '\u{205f}' || c == '\u{3000}'
}

/// The words of `s`, as `str::split_whitespace` splits it.
pub fn split_words(s: &str) -> (r: Vec<String>)
    ensures
        texts(r@) == words(s@),
{
    let cs = chars_of(s);
    let mut out: Vec<String> = Vec::new();
    let mut cur = String::new();
    let mut cur_len: usize = 0;
    let mut i: usize = 0;
    assert(cs@.skip(0) =~= s@);
    assert(texts(out@) + words_from(cs@.skip(0), cur@) =~= words(s@));
    while i < cs.len()
        invariant
            i <= cs.len(),
            cs@ == s@,
            cur_len == cur@.len(),
            cur_len <= i,
            texts(out@) + words_from(cs@.skip(i as int), cur@) == words(s@),
        decreases cs.len() - i,
    {
        let c = cs[i];
        let ghost rest = cs@.skip(i as int);
        let ghost before = texts(out@);
        assert(rest[0] == c);
        assert(rest.drop_first() =~= cs@.skip(i + 1));
        if is_white_space(c) {
            if cur_len > 0 {
                assert(words_from(rest, cur@) == seq![cur@] + words_from(cs@.skip(i + 1), seq![]));
                out.push(cur);
                let ghost w = words_from(cs@.skip(i + 1), seq![]);
                assert(texts(out@) =~= before + seq![cur@]);
                assert((before + seq![cur@]) + w =~= before + (seq![cur@] + w));
                cur = String::new();
                cur_len = 0;
            } else {
                assert(cur@ =~= Seq::<char>::empty());
                assert(words_from(rest, cur@) =~= words_from(cs@.skip(i + 1), seq![]));
            }
        } else {
            assert(words_from(rest, cur@) == words_from(cs@.skip(i + 1), cur@.push(c)));
            string_push(&mut cur, c);
            cur_len = cur_len + 1;
        }
        i = i + 1;
        assert(texts(out@) + words_from(cs@.skip(i as int), cur@) =~= words(s@));
    }
    if cur_len > 0 {
        let ghost prev = out@;
        out.push(cur);
        assert(texts(out@) =~= texts(prev) + seq![cur@]);
    }
    assert(cs@.skip(i as int) =~= Seq::<char>::empty());
    assert(texts(out@) =~= words(s@));
    out
}

/// The text of an optional string.
pub open spec fn opt_text(o: Option<String>) -> Option<Seq<char>> {
    match o {
        Some(t) => Some(t@),
        None => None,
    }
}

/// The `i`-th word of `s`, if it has that many.
pub open spec fn word_at(s: Seq<char>, i: int) -> Option<Seq<char>> {
    if 0 <= i < words(s).len() { Some(words(s)[i]) } else { None }
}

/// The contract details that a last trade date field sets: each is `Some` with the new text
/// of that field of `ContractDetails`, or `None` where the field keeps what it holds.
#[derive(Clone, Debug)]
pub struct LastTradeDate {
    pub maturity: Option<String>,
    pub last_trade_date_or_contract_month: Option<String>,
    pub last_trade_time: Option<String>,
    pub time_zone_id: Option<String>,
}

/// Reads a contract's last trade date field. Its first word is the date: a bond's `maturity`,
/// any other contract's `last_trade_date_or_contract_month`. Its second word is the
/// `last_trade_time`, and for a bond its third word is the `time_zone_id`. Fields for which
/// the text has no word are left as they are.
pub fn read_last_trade_date(is_bond: bool, read_date: &str) -> (r: LastTradeDate)
    ensures
        opt_text(r.maturity) == if is_bond { word_at(read_date@, 0) } else { None },
        opt_text(r.last_trade_date_or_contract_month) == if is_bond {
            None
        } else {
            word_at(read_date@, 0)
        },
        opt_text(r.last_trade_time) == word_at(read_date@, 1),
        opt_text(r.time_zone_id) == if is_bond { word_at(read_date@, 2) } else { None },
{
    let mut words = split_words(read_date);
    let n = words.len();
    let time_zone_id = if is_bond && n > 2 { Some(words.remove(2)) } else { None };
    let last_trade_time = if n > 1 { Some(words.remove(1)) } else { None };
    let date = if n > 0 { Some(words.remove(0)) } else { None };
    if is_bond {
        LastTradeDate { maturity: date, last_trade_date_or_contract_month: None, last_trade_time, time_zone_id }
    } else {
        LastTradeDate { maturity: None, last_trade_date_or_contract_month: date, last_trade_time, time_zone_id }
    }
}


/// What a tick-by-tick message reports. Prices are floating point: each comes as the text of
/// its field, which the caller reads as a float.
#[derive(Clone, Debug)]
pub enum TickByTick {
    /// Tick type 0, or a type that is not known: nothing to report.
    Nothing,
    /// A trade (`Last` or `AllLast`), for `tick_by_tick_all_last`.
    AllLast {
        req_id: i32,
        tick_type: TickByTickType,
        time: i64,
        price: String,
        size: i32,
        attrib: TickAttribLast,
        exchange: String,
        special_conditions: String,
    },
    /// A quote, for `tick_by_tick_bid_ask`.
    BidAsk {
        req_id: i32,
        time: i64,
        bid_price: String,
        ask_price: String,
        bid_size: i32,
        ask_size: i32,
        attrib: TickAttribBidAsk,
    },
    /// A midpoint, for `tick_by_tick_mid_point`.
    MidPoint { req_id: i32, time: i64, mid_point: String },
}

/// Whether a tick-by-tick message holds the fields that its decoding reads.
pub open spec fn tick_by_tick_enough(fields: Seq<String>) -> bool {
    &&& fields.len() >= 4
    &&& 1 <= field_i32(fields[2]@) <= 3 ==> fields.len() >= 9
    &&& field_i32(fields[2]@) == 4 ==> fields.len() >= 5
}

/// What decoding a tick-by-tick message gives.
pub open spec fn tick_by_tick_decoded(fields: Seq<String>, v: TickByTick) -> bool {
    let req_id = field_i32(fields[1]@);
    let tick_type = field_i32(fields[2]@);
    let time = field_i64(fields[3]@);
    match v {
        TickByTick::AllLast {
            req_id: id,
            tick_type: tt,
            time: t,
            price,
            size,
            attrib,
            exchange,
            special_conditions,
        } => {
            &&& 1 <= tick_type <= 2
            &&& id == req_id && Some(tt) == TickByTickType::from_code(tick_type as int)
            &&& t == time
            &&& price@ == fields[4]@
            &&& size == field_i32(fields[5]@)
            &&& attrib.past_limit == (field_i32(fields[6]@) & 1 != 0)
            &&& attrib.unreported == (field_i32(fields[6]@) & 2 != 0)
            &&& exchange@ == fields[7]@
            &&& special_conditions@ == fields[8]@
        },
        TickByTick::BidAsk {
            req_id: id,
            time: t,
            bid_price,
            ask_price,
            bid_size,
            ask_size,
            attrib,
        } => {
            &&& tick_type == 3
            &&& id == req_id && t == time
            &&& bid_price@ == fields[4]@ && ask_price@ == fields[5]@
            &&& bid_size == field_i32(fields[6]@) && ask_size == field_i32(fields[7]@)
            &&& attrib.bid_past_low == (field_i32(fields[8]@) & 1 != 0)
            &&& attrib.ask_past_high == (field_i32(fields[8]@) & 2 != 0)
        },
        TickByTick::MidPoint { req_id: id, time: t, mid_point } => {
            &&& tick_type == 4
            &&& id == req_id && t == time
            &&& mid_point@ == fields[4]@
        },
        TickByTick::Nothing => !(1 <= tick_type <= 4),
    }
}

/// The values of a tick-by-tick message: request id, tick type and time, then per tick type
/// the price, size, attribute mask, exchange and special conditions of a trade; the bid and
/// ask prices, sizes and attribute mask of a quote; or the midpoint.
pub fn process_tick_by_tick(fields: &[String]) -> (r: Result<TickByTick, IBKRApiLibError>)
    requires
        tick_by_tick_enough(fields@),
    ensures
        r matches Ok(v) && tick_by_tick_decoded(fields@, v),
{
    let mut it = field_iter(fields);
    skip_field(&mut it);
    let req_id = decode_i32(&mut it)?;
    let tick_type = decode_i32(&mut it)?;
    let time = decode_i64(&mut it)?;
    if 1 <= tick_type && tick_type <= 2 {
        let price = decode_string(&mut it)?;
        let size = decode_i32(&mut it)?;
        let mask = decode_i32(&mut it)?;
        let attrib = TickAttribLast::new(mask & 1 != 0, mask & 2 != 0);
        let exchange = decode_string(&mut it)?;
        let special_conditions = decode_string(&mut it)?;
        Ok(
            TickByTick::AllLast {
                req_id,
                tick_type: TickByTickType::from_i32(tick_type).unwrap(),
                time,
                price,
                size,
                attrib,
                exchange,
                special_conditions,
            },
        )
    } else if tick_type == 3 {
        let bid_price = decode_string(&mut it)?;
        let ask_price = decode_string(&mut it)?;
        let bid_size = decode_i32(&mut it)?;
        let ask_size = decode_i32(&mut it)?;
        let mask = decode_i32(&mut it)?;
        let attrib = TickAttribBidAsk::new(mask & 1 != 0, mask & 2 != 0);
        Ok(TickByTick::BidAsk { req_id, time, bid_price, ask_price, bid_size, ask_size, attrib })
    } else if tick_type == 4 {
        let mid_point = decode_string(&mut it)?;
        Ok(TickByTick::MidPoint { req_id, time, mid_point })
    } else {
        Ok(TickByTick::Nothing)
    }
}


/// A tick of `historical_ticks`, its price as the text of its field.
#[derive(Clone, Debug)]
pub struct HistoricalTickFields {
    pub time: i32,
    pub price: String,
    pub size: i32,
}

/// A tick of `historical_ticks_bid_ask`, its prices as the texts of their fields.
#[derive(Clone, Debug)]
pub struct HistoricalTickBidAskFields {
    pub time: i32,
    pub attrib: TickAttribBidAsk,
    pub price_bid: String,
    pub price_ask: String,
    pub size_bid: i32,
    pub size_ask: i32,
}

/// A tick of `historical_ticks_last`, its price as the text of its field.
#[derive(Clone, Debug)]
pub struct HistoricalTickLastFields {
    pub time: i32,
    pub attrib: TickAttribLast,
    pub price: String,
    pub size: i32,
    pub exchange: String,
    pub special_conditions: String,
}

/// Whether the field at `i` reads as a true flag; a missing field reads as false.
pub open spec fn flag_at(fields: Seq<String>, i: int) -> bool {
    fields.len() > i && field_bool(fields[i]@)
}

/// Whether a message for `historical_ticks` holds the fields that its decoding reads.
pub open spec fn historical_ticks_enough(fields: Seq<String>) -> bool {
    &&& fields.len() >= 3
    &&& fields.len() >= 3 + 4 * entry_count(field_i32(fields[2]@))
}

/// The values that decoding a message for `historical_ticks` gives.
pub open spec fn historical_ticks_decoded(
    fields: Seq<String>,
    v: (i32, Vec<HistoricalTickFields>, bool),
) -> bool {
    &&& v.0 == field_i32(fields[1]@)
    &&& v.1.len() == entry_count(field_i32(fields[2]@))
    &&& forall|j: int|
        #![trigger v.1[j]]
        0 <= j < v.1.len() ==> {
            &&& v.1[j].time == field_i32(fields[3 + 4 * j]@)
            &&& v.1[j].price@ == fields[5 + 4 * j]@
            &&& v.1[j].size == field_i32(fields[6 + 4 * j]@)
        }
    &&& v.2 == flag_at(fields, 3 + 4 * v.1.len())
}

/// The values of a message for `historical_ticks`: request id, the count, then per tick its
/// time, an unused field, its price and its size; then whether the series is done.
pub fn process_historical_ticks(
    fields: &[String],
) -> (r: Result<(i32, Vec<HistoricalTickFields>, bool), IBKRApiLibError>)
    requires
        historical_ticks_enough(fields@),
    ensures
        r matches Ok(v) && historical_ticks_decoded(fields@, v),
{
    let mut it = field_iter(fields);
    skip_field(&mut it);
    let req_id = decode_i32(&mut it)?;
    let tick_count = decode_i32(&mut it)?;
    let mut ticks: Vec<HistoricalTickFields> = Vec::new();
    let mut i: i32 = 0;
    while i < tick_count
        invariant
            0 <= i,
            tick_count == field_i32(fields@[2]@),
            i <= entry_count(tick_count),
            fields.len() >= 3 + 4 * entry_count(tick_count),
            ticks.len() == i,
            fields_left(it.remaining()) == texts(fields@).skip(3 + 4 * i),
            forall|j: int|
                #![trigger ticks[j]]
                0 <= j < i ==> ticks[j].time == field_i32(fields@[3 + 4 * j]@) && ticks[j].price@
                    == fields@[5 + 4 * j]@ && ticks[j].size == field_i32(fields@[6 + 4 * j]@),
        decreases tick_count - i,
    {
        let time = decode_i32(&mut it)?;
        skip_field(&mut it);
        let price = decode_string(&mut it)?;
        let size = decode_i32(&mut it)?;
        ticks.push(HistoricalTickFields { time, price, size });
        i = i + 1;
        assert(fields_left(it.remaining()) =~= texts(fields@).skip(3 + 4 * i));
    }
    let done = decode_bool(&mut it)?;
    Ok((req_id, ticks, done))
}

/// Whether a message for `historical_ticks_bid_ask` holds the fields that its decoding reads.
pub open spec fn historical_ticks_bid_ask_enough(fields: Seq<String>) -> bool {
    &&& fields.len() >= 3
    &&& fields.len() >= 3 + 6 * entry_count(field_i32(fields[2]@))
}

/// The values that decoding a message for `historical_ticks_bid_ask` gives.
pub open spec fn historical_ticks_bid_ask_decoded(
    fields: Seq<String>,
    v: (i32, Vec<HistoricalTickBidAskFields>, bool),
) -> bool {
    &&& v.0 == field_i32(fields[1]@)
    &&& v.1.len() == entry_count(field_i32(fields[2]@))
    &&& forall|j: int|
        #![trigger v.1[j]]
        0 <= j < v.1.len() ==> {
            &&& v.1[j].time == field_i32(fields[3 + 6 * j]@)
            &&& v.1[j].attrib.ask_past_high == (field_i32(fields[4 + 6 * j]@) & 1 != 0)
            &&& v.1[j].attrib.bid_past_low == (field_i32(fields[4 + 6 * j]@) & 2 != 0)
            &&& v.1[j].price_bid@ == fields[5 + 6 * j]@
            &&& v.1[j].price_ask@ == fields[6 + 6 * j]@
            &&& v.1[j].size_bid == field_i32(fields[7 + 6 * j]@)
            &&& v.1[j].size_ask == field_i32(fields[8 + 6 * j]@)
        }
    &&& v.2 == flag_at(fields, 3 + 6 * v.1.len())
}

/// The values of a message for `historical_ticks_bid_ask`: request id, the count, then per
/// tick its time, attribute mask, bid and ask prices and bid and ask sizes; then whether the
/// series is done.
pub fn process_historical_ticks_bid_ask(
    fields: &[String],
) -> (r: Result<(i32, Vec<HistoricalTickBidAskFields>, bool), IBKRApiLibError>)
    requires
        historical_ticks_bid_ask_enough(fields@),
    ensures
        r matches Ok(v) && historical_ticks_bid_ask_decoded(fields@, v),
{
    let mut it = field_iter(fields);
    skip_field(&mut it);
    let req_id = decode_i32(&mut it)?;
    let tick_count = decode_i32(&mut it)?;
    let mut ticks: Vec<HistoricalTickBidAskFields> = Vec::new();
    let mut i: i32 = 0;
    while i < tick_count
        invariant
            0 <= i,
            tick_count == field_i32(fields@[2]@),
            i <= entry_count(tick_count),
            fields.len() >= 3 + 6 * entry_count(tick_count),
            ticks.len() == i,
            fields_left(it.remaining()) == texts(fields@).skip(3 + 6 * i),
            forall|j: int|
                #![trigger ticks[j]]
                0 <= j < i ==> {
                    &&& ticks[j].time == field_i32(fields@[3 + 6 * j]@)
                    &&& ticks[j].attrib.ask_past_high == (field_i32(fields@[4 + 6 * j]@) & 1 != 0)
                    &&& ticks[j].attrib.bid_past_low == (field_i32(fields@[4 + 6 * j]@) & 2 != 0)
                    &&& ticks[j].price_bid@ == fields@[5 + 6 * j]@
                    &&& ticks[j].price_ask@ == fields@[6 + 6 * j]@
                    &&& ticks[j].size_bid == field_i32(fields@[7 + 6 * j]@)
                    &&& ticks[j].size_ask == field_i32(fields@[8 + 6 * j]@)
                },
        decreases tick_count - i,
    {
        let time = decode_i32(&mut it)?;
        let mask = decode_i32(&mut it)?;
        let attrib = TickAttribBidAsk::new(mask & 2 != 0, mask & 1 != 0);
        let price_bid = decode_string(&mut it)?;
        let price_ask = decode_string(&mut it)?;
        let size_bid = decode_i32(&mut it)?;
        let size_ask = decode_i32(&mut it)?;
        ticks.push(HistoricalTickBidAskFields { time, attrib, price_bid, price_ask, size_bid, size_ask });
        i = i + 1;
        assert(fields_left(it.remaining()) =~= texts(fields@).skip(3 + 6 * i));
    }
    let done = decode_bool(&mut it)?;
    Ok((req_id, ticks, done))
}

/// Whether a message for `historical_ticks_last` holds the fields that its decoding reads.
pub open spec fn historical_ticks_last_enough(fields: Seq<String>) -> bool {
    &&& fields.len() >= 3
    &&& fields.len() >= 3 + 6 * entry_count(field_i32(fields[2]@))
}

/// The values that decoding a message for `historical_ticks_last` gives.
pub open spec fn historical_ticks_last_decoded(
    fields: Seq<String>,
    v: (i32, Vec<HistoricalTickLastFields>, bool),
) -> bool {
    &&& v.0 == field_i32(fields[1]@)
    &&& v.1.len() == entry_count(field_i32(fields[2]@))
    &&& forall|j: int|
        #![trigger v.1[j]]
        0 <= j < v.1.len() ==> {
            &&& v.1[j].time == field_i32(fields[3 + 6 * j]@)
            &&& v.1[j].attrib.past_limit == (field_i32(fields[4 + 6 * j]@) & 1 != 0)
            &&& v.1[j].attrib.unreported == (field_i32(fields[4 + 6 * j]@) & 2 != 0)
            &&& v.1[j].price@ == fields[5 + 6 * j]@
            &&& v.1[j].size == field_i32(fields[6 + 6 * j]@)
            &&& v.1[j].exchange@ == fields[7 + 6 * j]@
            &&& v.1[j].special_conditions@ == fields[8 + 6 * j]@
        }
    &&& v.2 == flag_at(fields, 3 + 6 * v.1.len())
}

/// The values of a message for `historical_ticks_last`: request id, the count, then per tick
/// its time, attribute mask, price, size, exchange and special conditions; then whether the
/// series is done.
pub fn process_historical_ticks_last(
    fields: &[String],
) -> (r: Result<(i32, Vec<HistoricalTickLastFields>, bool), IBKRApiLibError>)
    requires
        historical_ticks_last_enough(fields@),
    ensures
        r matches Ok(v) && historical_ticks_last_decoded(fields@, v),
{
    let mut it = field_iter(fields);
    skip_field(&mut it);
    let req_id = decode_i32(&mut it)?;
    let tick_count = decode_i32(&mut it)?;
    let mut ticks: Vec<HistoricalTickLastFields> = Vec::new();
    let mut i: i32 = 0;
    while i < tick_count
        invariant
            0 <= i,
            tick_count == field_i32(fields@[2]@),
            i <= entry_count(tick_count),
            fields.len() >= 3 + 6 * entry_count(tick_count),
            ticks.len() == i,
            fields_left(it.remaining()) == texts(fields@).skip(3 + 6 * i),
            forall|j: int|
                #![trigger ticks[j]]
                0 <= j < i ==> {
                    &&& ticks[j].time == field_i32(fields@[3 + 6 * j]@)
                    &&& ticks[j].attrib.past_limit == (field_i32(fields@[4 + 6 * j]@) & 1 != 0)
                    &&& ticks[j].attrib.unreported == (field_i32(fields@[4 + 6 * j]@) & 2 != 0)
                    &&& ticks[j].price@ == fields@[5 + 6 * j]@
                    &&& ticks[j].size == field_i32(fields@[6 + 6 * j]@)
                    &&& ticks[j].exchange@ == fields@[7 + 6 * j]@
                    &&& ticks[j].special_conditions@ == fields@[8 + 6 * j]@
                },
        decreases tick_count - i,
    {
        let time = decode_i32(&mut it)?;
        let mask = decode_i32(&mut it)?;
        let attrib = TickAttribLast::new(mask & 1 != 0, mask & 2 != 0);
        let price = decode_string(&mut it)?;
        let size = decode_i32(&mut it)?;
        let exchange = decode_string(&mut it)?;
        let special_conditions = decode_string(&mut it)?;
        ticks.push(HistoricalTickLastFields { time, attrib, price, size, exchange, special_conditions });
        i = i + 1;
        assert(fields_left(it.remaining()) =~= texts(fields@).skip(3 + 6 * i));
    }
    let done = decode_bool(&mut it)?;
    Ok((req_id, ticks, done))
}


/// A point of `histogram_data`, its price as the text of its field.
#[derive(Clone, Debug)]
pub struct HistogramPointFields {
    pub price: String,
    pub count: i32,
}

/// Whether a message for `histogram_data` holds the fields that its decoding reads.
pub open spec fn histogram_data_enough(fields: Seq<String>) -> bool {
    &&& fields.len() >= 3
    &&& fields.len() >= 3 + 2 * entry_count(field_i32(fields[2]@))
}

/// The values that decoding a message for `histogram_data` gives.
pub open spec fn histogram_data_decoded(
    fields: Seq<String>,
    v: (i32, Vec<HistogramPointFields>),
) -> bool {
    &&& v.0 == field_i32(fields[1]@)
    &&& v.1.len() == entry_count(field_i32(fields[2]@))
    &&& forall|j: int|
        #![trigger v.1[j]]
        0 <= j < v.1.len() ==> v.1[j].price@ == fields[3 + 2 * j]@ && v.1[j].count == field_i32(
            fields[4 + 2 * j]@,
        )
}

/// The values of a message for `histogram_data`: request id, the number of points, then the
/// price and count of each point.
pub fn process_histogram_data(
    fields: &[String],
) -> (r: Result<(i32, Vec<HistogramPointFields>), IBKRApiLibError>)
    requires
        histogram_data_enough(fields@),
    ensures
        r matches Ok(v) && histogram_data_decoded(fields@, v),
{
    let mut it = field_iter(fields);
    skip_field(&mut it);
    let req_id = decode_i32(&mut it)?;
    let num_points = decode_i32(&mut it)?;
    let mut histogram: Vec<HistogramPointFields> = Vec::new();
    let mut i: i32 = 0;
    while i < num_points
        invariant
            0 <= i,
            num_points == field_i32(fields@[2]@),
            i <= entry_count(num_points),
            fields.len() >= 3 + 2 * entry_count(num_points),
            histogram.len() == i,
            fields_left(it.remaining()) == texts(fields@).skip(3 + 2 * i),
            forall|j: int|
                #![trigger histogram[j]]
                0 <= j < i ==> histogram[j].price@ == fields@[3 + 2 * j]@ && histogram[j].count
                    == field_i32(fields@[4 + 2 * j]@),
        decreases num_points - i,
    {
        let price = decode_string(&mut it)?;
        let count = decode_i32(&mut it)?;
        histogram.push(HistogramPointFields { price, count });
        i = i + 1;
        assert(fields_left(it.remaining()) =~= texts(fields@).skip(3 + 2 * i));
    }
    Ok((req_id, histogram))
}

/// A market depth message as the server writes it (id, version, request id, position,
/// operation, side, price, size) decodes back to the values written, each from its own field.
pub proof fn law_market_depth_reads_back(
    t: Seq<String>,
    req_id: i32,
    position: i32,
    operation: i32,
    side: i32,
    price: Seq<char>,
    size: i32,
    v: (i32, i32, i32, i32, String, i32),
)
    requires
        t.len() >= 8,
        t[2]@ == int_text(req_id as int),
        t[3]@ == int_text(position as int),
        t[4]@ == int_text(operation as int),
        t[5]@ == int_text(side as int),
        t[6]@ == price,
        t[7]@ == int_text(size as int),
        market_depth_decoded(t, v),
    ensures
        v.0 == req_id,
        v.1 == position,
        v.2 == operation,
        v.3 == side,
        v.4@ == price,
        v.5 == size,
{
    crate::decoder::law_field_i32_roundtrip(req_id);
    crate::decoder::law_field_i32_roundtrip(position);
    crate::decoder::law_field_i32_roundtrip(operation);
    crate::decoder::law_field_i32_roundtrip(side);
    crate::decoder::law_field_i32_roundtrip(size);
}


/// A size tick as the server writes it (id, version, request id, tick type, size) decodes
/// back to the request id, the tick type of the code and the size.
pub proof fn law_tick_size_reads_back(t: Seq<String>, req_id: i32, tick_code: i32, size: i32, v: (i32, TickType, i32))
    requires
        t.len() >= 5,
        t[2]@ == int_text(req_id as int),
        t[3]@ == int_text(tick_code as int),
        t[4]@ == int_text(size as int),
        tick_size_decoded(t, v),
    ensures
        v.0 == req_id,
        Some(v.1) == TickType::from_code(tick_code as int),
        v.2 == size,
{
    crate::decoder::law_field_i32_roundtrip(req_id);
    crate::decoder::law_field_i32_roundtrip(tick_code);
    crate::decoder::law_field_i32_roundtrip(size);
}

/// A string tick as the server writes it (id, version, request id, tick type, value) decodes
/// back to the request id, the tick type of the code and the value.
pub proof fn law_tick_string_reads_back(t: Seq<String>, req_id: i32, tick_code: i32, value: Seq<char>, v: (i32, TickType, String))
    requires
        t.len() >= 5,
        t[2]@ == int_text(req_id as int),
        t[3]@ == int_text(tick_code as int),
        t[4]@ == value,
        tick_string_decoded(t, v),
    ensures
        v.0 == req_id,
        Some(v.1) == TickType::from_code(tick_code as int),
        v.2@ == value,
{
    crate::decoder::law_field_i32_roundtrip(req_id);
    crate::decoder::law_field_i32_roundtrip(tick_code);
}

/// A generic tick as the server writes it (id, version, request id, tick type, value) decodes
/// back to the request id, the tick type of the code and the value.
pub proof fn law_tick_generic_reads_back(t: Seq<String>, req_id: i32, tick_code: i32, value: Seq<char>, v: (i32, TickType, String))
    requires
        t.len() >= 5,
        t[2]@ == int_text(req_id as int),
        t[3]@ == int_text(tick_code as int),
        t[4]@ == value,
        tick_generic_decoded(t, v),
    ensures
        v.0 == req_id,
        Some(v.1) == TickType::from_code(tick_code as int),
        v.2@ == value,
{
    crate::decoder::law_field_i32_roundtrip(req_id);
    crate::decoder::law_field_i32_roundtrip(tick_code);
}

/// An EFP tick as the server writes it (id, version, request id, tick type, basis points,
/// formatted basis points, implied futures price, hold days, future last trade date, dividend
/// impact, dividends to last trade date) decodes back to those values, each from its own
/// field in that order.
pub proof fn law_tick_efp_reads_back(
    t: Seq<String>,
    req_id: i32,
    tick_code: i32,
    hold_days: i32,
    v: (i32, TickType, String, String, String, i32, String, String, String),
)
    requires
        t.len() >= 11,
        t[2]@ == int_text(req_id as int),
        t[3]@ == int_text(tick_code as int),
        t[7]@ == int_text(hold_days as int),
        tick_efp_decoded(t, v),
    ensures
        v.0 == req_id,
        Some(v.1) == TickType::from_code(tick_code as int),
        v.2@ == t[4]@,
        v.3@ == t[5]@,
        v.4@ == t[6]@,
        v.5 == hold_days,
        v.6@ == t[8]@,
        v.7@ == t[9]@,
        v.8@ == t[10]@,
{
    crate::decoder::law_field_i32_roundtrip(req_id);
    crate::decoder::law_field_i32_roundtrip(tick_code);
    crate::decoder::law_field_i32_roundtrip(hold_days);
}

/// A `account_summary` message as the server writes it decodes back to the values written, each
/// from its own field.
pub proof fn law_account_summary_reads_back(t: Seq<String>, x0: i32, x1: Seq<char>, x2: Seq<char>, x3: Seq<char>, x4: Seq<char>, v: (i32, String, String, String, String))
    requires
        t[2]@ == int_text(x0 as int),
        t[3]@ == x1,
        t[4]@ == x2,
        t[5]@ == x3,
        t[6]@ == x4,
        account_summary_decoded(t, v),
    ensures
        v.0 == x0,
        v.1@ == x1,
        v.2@ == x2,
        v.3@ == x3,
        v.4@ == x4,
{
    crate::decoder::law_field_i32_roundtrip(x0);
}

/// A `account_update_multi` message as the server writes it decodes back to the values written, each
/// from its own field.
pub proof fn law_account_update_multi_reads_back(t: Seq<String>, x0: i32, x1: Seq<char>, x2: Seq<char>, x3: Seq<char>, x4: Seq<char>, x5: Seq<char>, v: (i32, String, String, String, String, String))
    requires
        t[2]@ == int_text(x0 as int),
        t[3]@ == x1,
        t[4]@ == x2,
        t[5]@ == x3,
        t[6]@ == x4,
        t[7]@ == x5,
        account_update_multi_decoded(t, v),
    ensures
        v.0 == x0,
        v.1@ == x1,
        v.2@ == x2,
        v.3@ == x3,
        v.4@ == x4,
        v.5@ == x5,
{
    crate::decoder::law_field_i32_roundtrip(x0);
}

/// A `account_value` message as the server writes it decodes back to the values written, each
/// from its own field.
pub proof fn law_account_value_reads_back(t: Seq<String>, x0: Seq<char>, x1: Seq<char>, x2: Seq<char>, x3: Seq<char>, v: (String, String, String, String))
    requires
        t[2]@ == x0,
        t[3]@ == x1,
        t[4]@ == x2,
        t[5]@ == x3,
        account_value_decoded(t, v),
    ensures
        v.0@ == x0,
        v.1@ == x1,
        v.2@ == x2,
        v.3@ == x3,
{
}

/// A `display_group_list` message as the server writes it decodes back to the values written, each
/// from its own field.
pub proof fn law_display_group_list_reads_back(t: Seq<String>, x0: i32, x1: Seq<char>, v: (i32, String))
    requires
        t[2]@ == int_text(x0 as int),
        t[3]@ == x1,
        display_group_list_decoded(t, v),
    ensures
        v.0 == x0,
        v.1@ == x1,
{
    crate::decoder::law_field_i32_roundtrip(x0);
}

/// A `display_group_updated` message as the server writes it decodes back to the values written, each
/// from its own field.
pub proof fn law_display_group_updated_reads_back(t: Seq<String>, x0: i32, x1: Seq<char>, v: (i32, String))
    requires
        t[2]@ == int_text(x0 as int),
        t[3]@ == x1,
        display_group_updated_decoded(t, v),
    ensures
        v.0 == x0,
        v.1@ == x1,
{
    crate::decoder::law_field_i32_roundtrip(x0);
}

/// A `error_message` message as the server writes it decodes back to the values written, each
/// from its own field.
pub proof fn law_error_message_reads_back(t: Seq<String>, x0: i32, x1: i32, x2: Seq<char>, v: (i32, i32, String))
    requires
        t[2]@ == int_text(x0 as int),
        t[3]@ == int_text(x1 as int),
        t[4]@ == x2,
        error_message_decoded(t, v),
    ensures
        v.0 == x0,
        v.1 == x1,
        v.2@ == x2,
{
    crate::decoder::law_field_i32_roundtrip(x0);
    crate::decoder::law_field_i32_roundtrip(x1);
}

/// A `fundamental_data` message as the server writes it decodes back to the values written, each
/// from its own field.
pub proof fn law_fundamental_data_reads_back(t: Seq<String>, x0: i32, x1: Seq<char>, v: (i32, String))
    requires
        t[2]@ == int_text(x0 as int),
        t[3]@ == x1,
        fundamental_data_decoded(t, v),
    ensures
        v.0 == x0,
        v.1@ == x1,
{
    crate::decoder::law_field_i32_roundtrip(x0);
}

/// A `head_timestamp` message as the server writes it decodes back to the values written, each
/// from its own field.
pub proof fn law_head_timestamp_reads_back(t: Seq<String>, x0: i32, x1: Seq<char>, v: (i32, String))
    requires
        t[1]@ == int_text(x0 as int),
        t[2]@ == x1,
        head_timestamp_decoded(t, v),
    ensures
        v.0 == x0,
        v.1@ == x1,
{
    crate::decoder::law_field_i32_roundtrip(x0);
}

/// A `historical_news` message as the server writes it decodes back to the values written, each
/// from its own field.
pub proof fn law_historical_news_reads_back(t: Seq<String>, x0: i32, x1: Seq<char>, x2: Seq<char>, x3: Seq<char>, x4: Seq<char>, v: (i32, String, String, String, String))
    requires
        t[1]@ == int_text(x0 as int),
        t[2]@ == x1,
        t[3]@ == x2,
        t[4]@ == x3,
        t[5]@ == x4,
        historical_news_decoded(t, v),
    ensures
        v.0 == x0,
        v.1@ == x1,
        v.2@ == x2,
        v.3@ == x3,
        v.4@ == x4,
{
    crate::decoder::law_field_i32_roundtrip(x0);
}

/// A `market_data_type` message as the server writes it decodes back to the values written, each
/// from its own field.
pub proof fn law_market_data_type_reads_back(t: Seq<String>, x0: i32, x1: i32, v: (i32, i32))
    requires
        t[2]@ == int_text(x0 as int),
        t[3]@ == int_text(x1 as int),
        market_data_type_decoded(t, v),
    ensures
        v.0 == x0,
        v.1 == x1,
{
    crate::decoder::law_field_i32_roundtrip(x0);
    crate::decoder::law_field_i32_roundtrip(x1);
}

/// A `news_article` message as the server writes it decodes back to the values written, each
/// from its own field.
pub proof fn law_news_article_reads_back(t: Seq<String>, x0: i32, x1: i32, x2: Seq<char>, v: (i32, i32, String))
    requires
        t[1]@ == int_text(x0 as int),
        t[2]@ == int_text(x1 as int),
        t[3]@ == x2,
        news_article_decoded(t, v),
    ensures
        v.0 == x0,
        v.1 == x1,
        v.2@ == x2,
{
    crate::decoder::law_field_i32_roundtrip(x0);
    crate::decoder::law_field_i32_roundtrip(x1);
}

/// A `news_bulletins` message as the server writes it decodes back to the values written, each
/// from its own field.
pub proof fn law_news_bulletins_reads_back(t: Seq<String>, x0: i32, x1: i32, x2: Seq<char>, x3: Seq<char>, v: (i32, i32, String, String))
    requires
        t[2]@ == int_text(x0 as int),
        t[3]@ == int_text(x1 as int),
        t[4]@ == x2,
        t[5]@ == x3,
        news_bulletins_decoded(t, v),
    ensures
        v.0 == x0,
        v.1 == x1,
        v.2@ == x2,
        v.3@ == x3,
{
    crate::decoder::law_field_i32_roundtrip(x0);
    crate::decoder::law_field_i32_roundtrip(x1);
}

/// A `order_bound` message as the server writes it decodes back to the values written, each
/// from its own field.
pub proof fn law_order_bound_reads_back(t: Seq<String>, x0: i32, x1: i32, x2: i32, v: (i32, i32, i32))
    requires
        t[1]@ == int_text(x0 as int),
        t[2]@ == int_text(x1 as int),
        t[3]@ == int_text(x2 as int),
        order_bound_decoded(t, v),
    ensures
        v.0 == x0,
        v.1 == x1,
        v.2 == x2,
{
    crate::decoder::law_field_i32_roundtrip(x0);
    crate::decoder::law_field_i32_roundtrip(x1);
    crate::decoder::law_field_i32_roundtrip(x2);
}

/// A `receive_fa` message as the server writes it decodes back to the values written, each
/// from its own field.
pub proof fn law_receive_fa_reads_back(t: Seq<String>, x0: i32, x1: Seq<char>, v: (FaDataType, String))
    requires
        t[2]@ == int_text(x0 as int),
        t[3]@ == x1,
        receive_fa_decoded(t, v),
    ensures
        Some(v.0) == FaDataType::from_code(x0 as int),
        v.1@ == x1,
{
    crate::decoder::law_field_i32_roundtrip(x0);
}

/// A `reroute_mkt_data_req` message as the server writes it decodes back to the values written, each
/// from its own field.
pub proof fn law_reroute_mkt_data_req_reads_back(t: Seq<String>, x0: i32, x1: i32, x2: Seq<char>, v: (i32, i32, String))
    requires
        t[1]@ == int_text(x0 as int),
        t[2]@ == int_text(x1 as int),
        t[3]@ == x2,
        reroute_mkt_data_req_decoded(t, v),
    ensures
        v.0 == x0,
        v.1 == x1,
        v.2@ == x2,
{
    crate::decoder::law_field_i32_roundtrip(x0);
    crate::decoder::law_field_i32_roundtrip(x1);
}

/// A `reroute_mkt_depth_req` message as the server writes it decodes back to the values written, each
/// from its own field.
pub proof fn law_reroute_mkt_depth_req_reads_back(t: Seq<String>, x0: i32, x1: i32, x2: Seq<char>, v: (i32, i32, String))
    requires
        t[1]@ == int_text(x0 as int),
        t[2]@ == int_text(x1 as int),
        t[3]@ == x2,
        reroute_mkt_depth_req_decoded(t, v),
    ensures
        v.0 == x0,
        v.1 == x1,
        v.2@ == x2,
{
    crate::decoder::law_field_i32_roundtrip(x0);
    crate::decoder::law_field_i32_roundtrip(x1);
}

/// A `tick_news` message as the server writes it decodes back to the values written, each
/// from its own field.
pub proof fn law_tick_news_reads_back(t: Seq<String>, x0: i32, x1: i32, x2: Seq<char>, x3: Seq<char>, x4: Seq<char>, x5: Seq<char>, v: (i32, i32, String, String, String, String))
    requires
        t[1]@ == int_text(x0 as int),
        t[2]@ == int_text(x1 as int),
        t[3]@ == x2,
        t[4]@ == x3,
        t[5]@ == x4,
        t[6]@ == x5,
        tick_news_decoded(t, v),
    ensures
        v.0 == x0,
        v.1 == x1,
        v.2@ == x2,
        v.3@ == x3,
        v.4@ == x4,
        v.5@ == x5,
{
    crate::decoder::law_field_i32_roundtrip(x0);
    crate::decoder::law_field_i32_roundtrip(x1);
}

/// A `verify_and_auth_message_api` message as the server writes it decodes back to the values written, each
/// from its own field.
pub proof fn law_verify_and_auth_message_api_reads_back(t: Seq<String>, x0: Seq<char>, x1: Seq<char>, v: (String, String))
    requires
        t[2]@ == x0,
        t[3]@ == x1,
        verify_and_auth_message_api_decoded(t, v),
    ensures
        v.0@ == x0,
        v.1@ == x1,
{
}

/// A `delta_neutral_validation` message as the server writes it decodes back to the values written, each
/// from its own field.
pub proof fn law_delta_neutral_validation_reads_back(t: Seq<String>, x0: i32, x1: i32, x2: Seq<char>, x3: Seq<char>, v: (i32, i32, String, String))
    requires
        t[2]@ == int_text(x0 as int),
        t[3]@ == int_text(x1 as int),
        t[4]@ == x2,
        t[5]@ == x3,
        delta_neutral_validation_decoded(t, v),
    ensures
        v.0 == x0,
        v.1 == x1,
        v.2@ == x2,
        v.3@ == x3,
{
    crate::decoder::law_field_i32_roundtrip(x0);
    crate::decoder::law_field_i32_roundtrip(x1);
}

/// A `historical_data_update` message as the server writes it decodes back to the values written, each
/// from its own field.
pub proof fn law_historical_data_update_reads_back(t: Seq<String>, x0: i32, x1: i32, x2: Seq<char>, x3: Seq<char>, x4: Seq<char>, x5: Seq<char>, x6: Seq<char>, x7: Seq<char>, x8: i64, v: (i32, i32, String, String, String, String, String, String, i64))
    requires
        t[1]@ == int_text(x0 as int),
        t[2]@ == int_text(x1 as int),
        t[3]@ == x2,
        t[4]@ == x3,
        t[5]@ == x4,
        t[6]@ == x5,
        t[7]@ == x6,
        t[8]@ == x7,
        t[9]@ == int_text(x8 as int),
        historical_data_update_decoded(t, v),
    ensures
        v.0 == x0,
        v.1 == x1,
        v.2@ == x2,
        v.3@ == x3,
        v.4@ == x4,
        v.5@ == x5,
        v.6@ == x6,
        v.7@ == x7,
        v.8 == x8,
{
    crate::decoder::law_field_i32_roundtrip(x0);
    crate::decoder::law_field_i32_roundtrip(x1);
    crate::decoder::law_field_i64_roundtrip(x8);
}

/// A `real_time_bars` message as the server writes it decodes back to the values written, each
/// from its own field.
pub proof fn law_real_time_bars_reads_back(t: Seq<String>, x0: i32, x1: Seq<char>, x2: Seq<char>, x3: Seq<char>, x4: Seq<char>, x5: Seq<char>, x6: i64, x7: Seq<char>, x8: i32, v: (i32, String, String, String, String, String, i64, String, i32))
    requires
        t[2]@ == int_text(x0 as int),
        t[3]@ == x1,
        t[4]@ == x2,
        t[5]@ == x3,
        t[6]@ == x4,
        t[7]@ == x5,
        t[8]@ == int_text(x6 as int),
        t[9]@ == x7,
        t[10]@ == int_text(x8 as int),
        real_time_bars_decoded(t, v),
    ensures
        v.0 == x0,
        v.1@ == x1,
        v.2@ == x2,
        v.3@ == x3,
        v.4@ == x4,
        v.5@ == x5,
        v.6 == x6,
        v.7@ == x7,
        v.8 == x8,
{
    crate::decoder::law_field_i32_roundtrip(x0);
    crate::decoder::law_field_i64_roundtrip(x6);
    crate::decoder::law_field_i32_roundtrip(x8);
}

/// A `tick_req_params` message as the server writes it decodes back to the values written, each
/// from its own field.
pub proof fn law_tick_req_params_reads_back(t: Seq<String>, x0: i32, x1: Seq<char>, x2: Seq<char>, x3: i32, v: (i32, String, String, i32))
    requires
        t[1]@ == int_text(x0 as int),
        t[2]@ == x1,
        t[3]@ == x2,
        t[4]@ == int_text(x3 as int),
        tick_req_params_decoded(t, v),
    ensures
        v.0 == x0,
        v.1@ == x1,
        v.2@ == x2,
        v.3 == x3,
{
    crate::decoder::law_field_i32_roundtrip(x0);
    crate::decoder::law_field_i32_roundtrip(x3);
}

/// A `account_summary_end` message as the server writes it decodes back to the value written in field
/// 2.
pub proof fn law_account_summary_end_reads_back(t: Seq<String>, x: i32, v: i32)
    requires
        t[2]@ == int_text(x as int),
        account_summary_end_decoded(t, v),
    ensures
        v == x,
{
    crate::decoder::law_field_i32_roundtrip(x);
}

/// A `account_update_multi_end` message as the server writes it decodes back to the value written in field
/// 2.
pub proof fn law_account_update_multi_end_reads_back(t: Seq<String>, x: i32, v: i32)
    requires
        t[2]@ == int_text(x as int),
        account_update_multi_end_decoded(t, v),
    ensures
        v == x,
{
    crate::decoder::law_field_i32_roundtrip(x);
}

/// A `account_download_end` message decodes to the text of field 2.
pub proof fn law_account_download_end_reads_back(t: Seq<String>, v: String)
    requires
        account_download_end_decoded(t, v),
    ensures
        v@ == t[2]@,
{
}

/// A `account_update_time` message decodes to the text of field 2.
pub proof fn law_account_update_time_reads_back(t: Seq<String>, v: String)
    requires
        account_update_time_decoded(t, v),
    ensures
        v@ == t[2]@,
{
}

/// A `contract_details_end` message as the server writes it decodes back to the value written in field
/// 2.
pub proof fn law_contract_details_end_reads_back(t: Seq<String>, x: i32, v: i32)
    requires
        t[2]@ == int_text(x as int),
        contract_details_end_decoded(t, v),
    ensures
        v == x,
{
    crate::decoder::law_field_i32_roundtrip(x);
}

/// A `current_time` message as the server writes it decodes back to the value written in field
/// 2.
pub proof fn law_current_time_reads_back(t: Seq<String>, x: i64, v: i64)
    requires
        t[2]@ == int_text(x as int),
        current_time_decoded(t, v),
    ensures
        v == x,
{
    crate::decoder::law_field_i64_roundtrip(x);
}

/// A `execution_data_end` message as the server writes it decodes back to the value written in field
/// 2.
pub proof fn law_execution_data_end_reads_back(t: Seq<String>, x: i32, v: i32)
    requires
        t[2]@ == int_text(x as int),
        execution_data_end_decoded(t, v),
    ensures
        v == x,
{
    crate::decoder::law_field_i32_roundtrip(x);
}

/// A `managed_accounts` message decodes to the text of field 2.
pub proof fn law_managed_accounts_reads_back(t: Seq<String>, v: String)
    requires
        managed_accounts_decoded(t, v),
    ensures
        v@ == t[2]@,
{
}

/// A `next_valid_id` message as the server writes it decodes back to the value written in field
/// 2.
pub proof fn law_next_valid_id_reads_back(t: Seq<String>, x: i32, v: i32)
    requires
        t[2]@ == int_text(x as int),
        next_valid_id_decoded(t, v),
    ensures
        v == x,
{
    crate::decoder::law_field_i32_roundtrip(x);
}

/// A `position_multi_end` message as the server writes it decodes back to the value written in field
/// 2.
pub proof fn law_position_multi_end_reads_back(t: Seq<String>, x: i32, v: i32)
    requires
        t[2]@ == int_text(x as int),
        position_multi_end_decoded(t, v),
    ensures
        v == x,
{
    crate::decoder::law_field_i32_roundtrip(x);
}

/// A `scanner_parameters` message decodes to the text of field 2.
pub proof fn law_scanner_parameters_reads_back(t: Seq<String>, v: String)
    requires
        scanner_parameters_decoded(t, v),
    ensures
        v@ == t[2]@,
{
}

/// A `tick_snapshot_end` message as the server writes it decodes back to the value written in field
/// 2.
pub proof fn law_tick_snapshot_end_reads_back(t: Seq<String>, x: i32, v: i32)
    requires
        t[2]@ == int_text(x as int),
        tick_snapshot_end_decoded(t, v),
    ensures
        v == x,
{
    crate::decoder::law_field_i32_roundtrip(x);
}

/// A `verify_message_api` message decodes to the text of field 2.
pub proof fn law_verify_message_api_reads_back(t: Seq<String>, v: String)
    requires
        verify_message_api_decoded(t, v),
    ensures
        v@ == t[2]@,
{
}

} // verus!
