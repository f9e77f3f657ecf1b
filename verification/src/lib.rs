//! A path-addressed remote-object proxy layer: client-side nodes that stand
//! for objects living in a separate server process, reachable only through
//! message passing.
//!
//! A [`node::Node`] owns a hierarchical `/`-separated path, a non-owning
//! handle to the channel (the [`messenger::Messenger`], owned by a
//! [`messenger::Client`]), and two local dispatch tables. It acts both as a
//! target for incoming signals and method calls, dispatched by name to
//! registered handlers, and as an initiator of outgoing ones, addressed to
//! its path. [`spatial::Spatial`] layers a fixed remote-call schema over
//! those primitives, with its arguments carried by the schema-less codec in
//! [`codec`].

pub mod codec;
pub mod dispatch;
pub mod ident;
pub mod messenger;
pub mod node;
pub mod paths;
pub mod spatial;
pub mod values;
