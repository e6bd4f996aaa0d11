//! Resolution of contract interface schemas and decoding of call data.
//!
//! A contract address is resolved to an ordered set of candidate interface
//! schemas, first from a cache and otherwise from a list of registries in
//! fixed priority order. Call data is then decoded against each candidate
//! in turn until one of them accepts it.

pub mod abi;
pub mod address;
pub mod analysis;
pub mod audit;
pub mod candidates;
pub mod decoder;
pub mod guard;
pub mod handlers;
pub mod hex;
pub mod json;
pub mod messages;
pub mod registry;
pub mod resolver;
pub mod run;
pub mod scan;
pub mod schema;
pub mod text;
pub mod views;

pub use crate::messages::{
    AnalysisRequest, AnalysisResponse, ChainlinkAuditRequest, ChainlinkAuditResponse,
    DecodeRequest, DecodeResponse, ModelSettings, PromptConfig, ResponseFormat,
};
