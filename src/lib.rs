//! Building blocks of a listing scraper: parsing of anchor data into social
//! links, the never-failing field extractors, the sparse registry of records,
//! and the two state machines that drive pagination and per-record enrichment.

pub mod social;
pub mod extract;
pub mod registry;
pub mod pagination;
pub mod enrich;
