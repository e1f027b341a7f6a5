//! The web front: wallet sign-in sessions and the checks that each route
//! makes before it calls the blockchain client.

pub mod auth;
pub mod cookie;
pub mod routes;
pub mod session;
pub mod store;
