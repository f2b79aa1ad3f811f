//! Files a task in a Notion database and tallies the open tasks of the day.
//!
//! The library holds what the command decides: the request bodies it sends, the
//! order of its calls and when it gives up, and the summary it prints.

pub mod api;
mod clock;
pub mod credentials;
pub mod flow;
pub mod json;
pub mod page;
pub mod summary;
pub mod text;
