//! The connection layer of a node.
//!
//! - `engine`: raw socket state per remote address.
//! - `router`: the peer table, promoted through the optional handshake and
//!   disconnect protocols, as an event-driven state machine.
//! - `laws`: properties of the router, proved over its model.
//! - `params`: checksum-guarded loading of SNARK parameters.
//! - `deploy`: the arguments of the `developer deploy` command and the checks
//!   made before a deployment is built.
//! - `text`: character-level helpers.
pub mod deploy;
pub mod engine;
pub mod laws;
pub mod params;
pub mod router;
pub mod text;
