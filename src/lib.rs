//! A rate-governed dispatcher for requests to named upstream sources, and
//! the chapter and cover-art bookkeeping built on top of it.

pub mod api;
pub mod chapter;
pub mod coverart;
pub mod governor;
pub mod mime;
pub mod registry;
pub mod requester;
pub mod text;
