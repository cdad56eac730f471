//! The verified core of `axe`: the background load-test runs and their
//! registry, the operator's spend caps, the tools that the server offers and
//! how they are answered, and what is shown of it all to people.

pub mod benchmark;
pub mod catalogue;
pub mod cli;
pub mod context;
pub mod evm;
pub mod express;
pub mod json;
pub mod load_test;
pub mod mcp;
pub mod order;
pub mod path;
pub mod policy;
pub mod presentation;
pub mod protocol;
pub mod runs;
pub mod server;
pub mod table;
pub mod text;
pub mod time;
pub mod ui;
