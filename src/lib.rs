//! Session handling for a REST client of an event-contract exchange.
//!
//! A [`Kalshi`] handle is either logged out or logged in; the state is a type
//! parameter, so only the operation that fits the state can be called. Each
//! transition is split in two verified steps: one that says which HTTP request
//! to send, and one that turns the outcome of that request into the next
//! handle. Sending the request is left to the caller.
use vstd::prelude::*;

pub mod auth;
pub mod client;

pub use auth::{LoginPayload, LoginResponse, PostRequest};
pub use client::{AuthState, Kalshi, KalshiError, LoggedIn, LoggedOut};
