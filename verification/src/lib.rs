//! The verified core of a small HTTP service that records generated values:
//! the records it stores, the replies its routes give, and the analysis of the
//! values it gathers from an echo service.

pub mod echo;
pub mod handler;
pub mod ids;
pub mod model;
pub mod repeated;
pub mod reply;
pub mod schema;
pub mod text;
