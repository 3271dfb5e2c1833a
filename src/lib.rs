//! A user whose authentication state is part of its type: privileged
//! operations exist only on `User<Authenticated>`, and the transitions between
//! the states consume the old value.

pub mod decimal;
pub mod user;

pub use user::{Authenticated, Unauthenticated, User};
