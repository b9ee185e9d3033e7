//! Runtime core for a metric domain agent: the metric-identity codec, the
//! descriptor model, the dispatch table, the fetch router and the agent
//! lifecycle state machine, each with a verified contract.

pub mod atom;
pub mod codec;
pub mod fetch;
pub mod lifecycle;
pub mod model;
pub mod options;
pub mod table;
