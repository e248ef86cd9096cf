pub mod account_summary_tags;
pub mod algo_params;
pub mod bond_data;
pub mod client;
pub mod common;
pub mod contract;
pub mod contract_data;
pub mod contract_requests;
pub mod data_requests;
pub mod decimal;
pub mod decoder;
pub mod errors;
pub mod execution;
pub mod execution_data;
pub mod incoming;
pub mod interpret;
pub mod market_data;
pub mod messages;
pub mod order;
pub mod order_condition;
pub mod order_decoding;
pub mod place_order;
pub mod portfolio;
pub mod reader;
pub mod receive;
pub mod requests;
pub mod server_versions;
pub mod symbol_samples;
pub mod wire_layout;
