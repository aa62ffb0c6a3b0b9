//! A news reader core: feed entries are parsed, normalized into news items,
//! merged round-robin across sources, and their images are cached on disk by
//! file name.
pub mod aggregate;
pub mod cache;
pub mod entry;
pub mod items;
pub mod parse;
pub mod session;
pub mod view;
