//! Per-client daily rate limiting for a small file-drop service, together
//! with the plain request, response and error values of that service.
//!
//! Every client address owns two counters, one for failed code guesses and
//! one for uploads. Both reset at local midnight. The counters live either in
//! this process or in a remote cache; the decisions are the same for both
//! and are stated here as contracts over mathematical models.
//!
//! - [`clock`]: instants on the local wall clock and the distance to midnight.
//! - [`api`]: the counters of a client, and the values of requests and
//!   responses.
//! - [`store`]: the counter store that lives in this process.
//! - [`ip_allow`]: the limits, the decision to allow, and the commands for the
//!   remote cache.
//! - [`middlewares`]: the gates that stand before the request handlers.
//! - [`errors`]: the service's errors and how they are reported.
//! - [`models`], [`handlers`], [`scheduler`]: the boxes themselves and what
//!   the handlers and the clean-up decide about them.
//! - [`text`]: decimal text of integers.
//! - [`laws`]: what holds of the limiter as a whole.

pub mod api;
pub mod clock;
pub mod errors;
pub mod handlers;
pub mod ip_allow;
pub mod laws;
pub mod middlewares;
pub mod models;
pub mod scheduler;
pub mod store;
pub mod text;
