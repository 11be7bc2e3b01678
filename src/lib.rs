//! A single-flight expiring cache, and the values and decisions of the API
//! clients built around it.
//!
//! The cache ([`cache`]) and its coalescer ([`flight`]) are state machines:
//! a runtime holds each one under a lock, reads the clock, spawns fetches
//! and broadcasts their results, and asks the machine at every step what to
//! do. Around them stand the pieces of the clients that decide or compute:
//! retry policies, pagination, authentication headers, upload plans, the
//! values of the B2, Linode, GitHub, 1Password, Tailscale and registry APIs,
//! and the epochs and expiration policy of a bookshelf.
pub mod auth;
pub mod b2;
pub mod bookshelf;
pub mod cache;
pub mod flight;
pub mod github;
pub mod linode;
pub mod onepassword;
pub mod paginate;
pub mod registry;
pub mod retry;
pub mod secret;
pub mod span;
pub mod storage;
pub mod tailscale;
pub mod text;
pub mod timeout;
pub mod upload;
