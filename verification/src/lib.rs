//! Request authentication and role-based authorization for an HTTP service:
//! registration-time credential checks and one-way password hashing, signed
//! time-bounded identity tokens, cookie and header transport of those tokens,
//! and a per-route gate that admits a request only when its token verifies
//! and the resolved account's role is on the route's allow-list.

pub mod customer;
pub mod endpoints;
pub mod gate;
pub mod password;
pub mod response;
pub mod token;
pub mod transport;
