//! Shared packet-routing and network-discovery core for a simulated
//! point-to-point packet network.
//!
//! Every participant of the network (drone, client or server) is a node with
//! a fixed identifier, outbound channels to its neighbors and one inbound
//! channel. This crate holds what all node kinds share: the routing-header
//! model and its directional reversal, the construction of acknowledgement
//! and negative-acknowledgement control packets, delivery of a packet to the
//! next hop, and the controlled flood protocol a node uses to discover the
//! reachable topology.

pub mod channel;
pub mod flood;
pub mod logging;
pub mod message;
pub mod neighbors;
pub mod node;
pub mod packet;
pub mod random;
pub mod routing;

pub use flood::{FloodHistory, FloodKey};
pub use logging::{
    disable_logging, enable_logging, has_log_file, is_logging_enabled, redirect_logs_to_file,
    LogConfig,
};
pub use message::{ClientCommand, SerializableMessage, ServerCommand, ServerType};
pub use neighbors::NeighborTable;
pub use node::{ForwardOutcome, NetworkNode, NodeBehavior, NodeEvent};
pub use packet::{
    Ack, FloodRequest, FloodResponse, Fragment, Nack, NackType, NodeType, Packet, PacketType,
};
pub use routing::RoutingHeader;
