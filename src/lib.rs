//! Balance lookups for wallet addresses over JSON-RPC: the request body that is
//! sent, the reading of the answer, the sorting of failures into kinds, and the
//! one line of output that each wallet gets.
pub mod json;
pub mod rpc;
pub mod report;
