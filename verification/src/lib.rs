//! Client-side access layer for a remote account API.
//!
//! The crate holds the part of the client that decides: how a request is
//! put together, how one HTTP exchange is classified, and how a cursor-style
//! paginated listing is followed page by page. It performs no I/O itself.
//! A caller executes each request that the library hands out and gives the
//! outcome back.
//!
//! - [`request`]: the builders, and the request that each comes to.
//! - [`transport`]: what was observed of one exchange, and what it comes to.
//! - [`envelope`]: the response envelope and its navigation links.
//! - [`pagination`]: the pager, a model of a whole listing, and what holds
//!   of every listing.
//! - [`failure`]: the one error type of all operations.
//! - [`text`]: decimal numerals.

pub mod envelope;
pub mod failure;
pub mod pagination;
pub mod request;
pub mod text;
pub mod transport;
