//! A minimal authentication gateway: it validates credentials against a user
//! store, issues opaque session tokens from a session store, and revokes them
//! on sign-out. The orchestration logic and both stores are verified; the
//! process wrapper (locking, transport, liveness probing) lives outside the
//! library.

pub mod auth;
pub mod decimal;
pub mod sessions;
pub mod users;
