//! Closed polymorphism over heterogeneous variant shapes.
//!
//! Given one sum type whose variants differ in field shape and one interface
//! of shared behaviour, this library derives: a data-carrier type per variant,
//! a total conversion from each carrier into the sum type, the expanded sum
//! type whose non-unit variants wrap their carriers, and an exhaustive
//! forwarding implementation of the interface for the expanded sum type.

pub mod dispatch;
pub mod emit;
pub mod expand;
pub mod model;
pub mod parse;
pub mod semantics;
