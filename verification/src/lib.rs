//! A verified core for a coffee-recipe catalog service.
//!
//! The library models the relational state of the service (users, roasts,
//! brewers, recipes, tags), the query and insert operations over it, the
//! slug derivation for recipe titles, the route grammar, and the one place
//! where an operation's outcome becomes a transport-level status code.

pub mod clock;
pub mod handlers;
pub mod http;
pub mod model;
pub mod slugs;
pub mod store;
pub mod strutil;
