//! Elastic APM ingest API support layer.
//!
//! Use the [`new_layer`] function to create the layer with a given
//! [`Config`](crate::config::Config).
//!
//! The layer decides what is reported of spans and events. It hands out each [`Batch`] to whoever
//! drives it, who reads the clocks, keeps what is stored with each span, and sends the batches.

pub mod config;
pub mod current;
pub mod fields;
pub mod json;
pub mod laws;
pub mod layer;
pub mod model;
pub mod outcomes;
pub mod span;
pub mod tags;
pub mod text;
pub mod visitor;

use crate::config::{ClientSettings, Config};
use crate::layer::is_metadata_of;
use vstd::prelude::*;

pub use crate::current::current_trace_id;
pub use crate::layer::ApmLayer;
pub use crate::model::Batch;
pub use crate::visitor::{ApmVisitor, ToVisited};

verus! {

/// Constructs a new telemetry layer for a given APM configuration, with a client that `connect`
/// makes of what the configuration says of it.
pub fn new_layer<T, U: ToVisited, E, F: FnOnce(ClientSettings) -> Result<T, E>>(
    service_name: String,
    config: Config,
    agent_version: String,
    connect: F,
) -> (layer: Result<ApmLayer<T, U>, E>)
    requires
        connect.requires((config.settings(),)),
    ensures
        match layer {
            Ok(layer) => {
                &&& connect.ensures((config.settings(),), Ok(layer.sender()))
                &&& is_metadata_of(layer.stream_metadata(), config, service_name, agent_version)
                &&& !layer.has_timing_labels()
            },
            Err(error) => connect.ensures((config.settings(),), Err(error)),
        },
{
    ApmLayer::new(config, service_name, agent_version, connect)
}

/// Constructs a new telemetry layer for a given APM configuration, with a client that is already
/// there.
pub fn new_layer_with_sender<T, U: ToVisited>(
    service_name: String,
    config: Config,
    agent_version: String,
    sender: T,
) -> (layer: ApmLayer<T, U>)
    ensures
        layer.sender() == sender,
        is_metadata_of(layer.stream_metadata(), config, service_name, agent_version),
        !layer.has_timing_labels(),
{
    ApmLayer::new_with(config, service_name, agent_version, sender)
}

} // verus!
