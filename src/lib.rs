//! The session core of a terminal browser for an object store (bucket, nested prefixes,
//! objects): a stack of pages with its navigation rules, a cache of what was fetched, and
//! the commands and completions that move the session from state to state. Remote calls,
//! input decoding, drawing and file output are left to the caller, which hands results back
//! as plain values.

pub mod app;
pub mod bucket_list;
pub mod cache;
pub mod event;
pub mod help;
pub mod key;
pub mod object;
pub mod object_detail;
pub mod object_list;
pub mod object_preview;
pub mod page;
pub mod progress;
pub mod scroll;
pub mod text;
