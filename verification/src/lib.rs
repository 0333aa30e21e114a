//! Authentication hatches for a request-handling server.
//!
//! A [`Hatch`] is a pluggable authentication policy. It talks to the service
//! that knows the users through its [`Communicator`], and it is handed to the
//! request handlers inside an [`Airlock`] once it has been assembled.
//!
//! The crate holds the decisions of that machinery: how a hatch is assembled,
//! and how an OpenID Connect login is carried across the two requests that a
//! browser makes before and after it has visited the identity provider. Network
//! calls and the server's own plumbing are left to the caller, who performs
//! them and hands back what came of them.

pub mod airlock;
pub mod assembly;
pub mod config;
pub mod cookies;
pub mod extractor;
pub mod hatch;
pub mod login;
pub mod oidc;
pub mod outcome;
pub mod query;
pub mod text;
pub mod uri;

pub use airlock::Airlock;
pub use hatch::{Communicator, Hatch};
