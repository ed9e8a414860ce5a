//! Process execution for a scripting host: spawn configuration, stdio
//! policies, execution results, interactive child handles and an
//! edge-triggered signal poller.

pub mod child;
pub mod error;
pub mod exec;
pub mod host;
pub mod options;
pub mod signals;
pub mod stdio;
