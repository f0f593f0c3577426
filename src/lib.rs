//! A substream multiplexer over a connection whose substream arrivals are
//! announced through callbacks, driven from a single cooperative poll loop.
//!
//! The library holds the decisions: it never touches the native connection
//! itself. Whoever drives it performs the actions it asks for (release the
//! connection handle, create a channel, wake a task) and feeds back the
//! events it observes (a channel arrived, a substream went away).

mod bridge;
mod builder;
mod laws;
mod muxer;
mod registry;
mod substream;

pub use bridge::{poll_model, publish_model, Bridge, BridgeModel};
pub use builder::{AsyncStd, NoRelayBehaviour, SwarmBuilder, Tls, Tokio, WithoutTls};
pub use laws::{
    arrivals_polled, drop_each, lemma_arrivals_in_order, lemma_close_idempotent, lemma_delivered_at_most_once,
    lemma_idle_exactly_once, lemma_no_idle_while_live, open_many,
};
pub use muxer::{
    close_model, dropped_model, event_model, inbound_model, initial_model, open_model, CloseStep,
    ConnectionError, MuxModel, Multiplexer, MuxerEvent, Phase,
};
pub use registry::{drain_model, has_live, live_count, register_model, signal_model, DropRegistry, Entry};
pub use substream::{fresh_substream, Direction, Substream, SubstreamModel};
