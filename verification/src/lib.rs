//! Verified core of a client for the Figshare research-data repository API.

pub mod access;
pub mod checksum;
pub mod drafts;
pub mod error;
pub mod fieldmap;
pub mod ids;
pub mod json;
pub mod metadata;
pub mod model;
pub mod poll;
pub mod query;
pub mod repository;
pub mod resolve;
pub mod text;
pub mod transfer;
pub mod upload;
pub mod urls;
pub mod wire;
pub mod workflow;
