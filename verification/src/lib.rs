//! The request layer of the CC Switch web server: what an RPC request asks
//! for, which arguments it carries, and how answers are shaped.
pub mod json;
pub mod text;
pub mod args;
pub mod plan;
pub mod auth;
pub mod server;
pub mod steps;
pub mod answer;
pub mod routing;
