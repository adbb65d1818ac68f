//! Value-resolution and scalar-representation core of a statically typed
//! query-execution engine.
//!
//! The crate provides a pluggable scalar representation able to carry
//! 64-bit integers across the wire boundary, bidirectional conversion
//! between wire input trees and native composite values (optionals,
//! sequences, fixed-arity sequences), structural type descriptors for
//! those composites, and list resolution with null-propagation, both in
//! a one-shot form and as a step machine suitable for draining
//! concurrently computed element results in declaration order.

pub mod characters;
pub mod fixed;
pub mod input;
pub mod large_id;
pub mod long_scalar;
pub mod resolve;
pub mod scalar;
pub mod schema;
pub mod value;
