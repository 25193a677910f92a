//! Composable sinks for structured log events.
//!
//! A [`Drain`] takes one log event at a time. Drains are combined by wrapping:
//! filtering, fan-out and the handling of errors are drains built around other
//! drains. A [`Logger`] holds a drain and a chain of key-value pairs, and hands
//! both on with every event.
pub mod drain;
pub mod duplicate;
pub mod errors;
pub mod filter;
pub mod kv;
pub mod level;
pub mod logger;
pub mod mutex;
pub mod record;

pub use crate::drain::Discard;
pub use crate::drain::Drain;
pub use crate::drain::Never;
pub use crate::duplicate::duplicate;
pub use crate::duplicate::join_results;
pub use crate::duplicate::Duplicate;
pub use crate::errors::Describe;
pub use crate::errors::DrainExt;
pub use crate::errors::Fuse;
pub use crate::errors::IgnoreResult;
pub use crate::errors::MapError;
pub use crate::filter::filter;
pub use crate::filter::hand_on;
pub use crate::filter::level_filter;
pub use crate::filter::Filter;
pub use crate::filter::LevelFilter;
pub use crate::kv::BorrowedKV;
pub use crate::kv::OwnedKVList;
pub use crate::level::Level;
pub use crate::logger::Logger;
pub use crate::mutex::log_locked;
pub use crate::mutex::MutexDrainError;
pub use crate::record::Record;
pub use crate::record::RecordStatic;
