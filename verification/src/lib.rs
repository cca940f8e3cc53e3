//! Client-side model of the Munich public-transit journey planner: request
//! targets, the typed reading of its JSON replies, and the decisions that one
//! exchange with the service takes.

pub mod conf;
pub mod data;
pub mod decode;
pub mod display;
pub mod encode;
pub mod exchange;
pub mod json;
pub mod query;

pub use crate::exchange::MVG;
