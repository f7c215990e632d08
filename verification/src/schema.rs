//! The bodies and parameters that clients send to the service.

use vstd::prelude::*;

verus! {

/// A path parameter naming a record.
#[derive(Debug, Clone)]
pub struct ParamOptions {
    pub id: String,
}

/// The body of a request that creates a generated value.
#[derive(Debug, Clone, Copy, PartialEq, Eq, Structural)]
pub struct CreateGeneratedValueSchema {
    pub num: Option<i8>,
}

/// The body of a request that changes a generated value.
#[derive(Debug, Clone, Copy, PartialEq, Eq, Structural)]
pub struct UpdateGeneratedValueSchema {
    pub num: Option<i8>,
}

/// The body of a request that creates a user.
#[derive(Debug, Clone)]
pub struct CreateUserSchema {
    pub username: String,
    pub password: String,
}

} // verus!
