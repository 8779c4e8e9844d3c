//! A verified core for a small query/mutation API over soft-deletable
//! resources (accounts, prompts and generated haikus): the lifecycle store,
//! the per-kind inputs and merges, the operation registry and dispatcher,
//! the decisions of the generation client, and the startup configuration.

pub mod config;
pub mod dispatch;
pub mod errors;
pub mod generation;
pub mod haikus;
pub mod prompts;
pub mod registry;
pub mod store;
pub mod users;
