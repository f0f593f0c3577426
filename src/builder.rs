//! Marker types of the stack's configuration builder.
//!
//! The markers are used as types only. Verus wants a datatype to have a
//! variant, so each has one, `Marker`, that nothing needs.

use vstd::prelude::*;

verus! {

/// Starting point of a swarm configuration.
pub struct SwarmBuilder {}

impl SwarmBuilder {
    pub fn new() -> (r: SwarmBuilder) {
        SwarmBuilder {}
    }
}

/// Marks a configuration that authenticates with TLS.
pub enum Tls {
    Marker,
}

/// Marks a configuration that does not authenticate with TLS.
pub enum WithoutTls {
    Marker,
}

/// Stands for the relay behaviour of a configuration without a relay.
pub struct NoRelayBehaviour;

/// Marks the async-std runtime.
pub enum AsyncStd {
    Marker,
}

/// Marks the tokio runtime.
pub enum Tokio {
    Marker,
}

} // verus!
