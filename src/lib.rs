//! A local DNS relay: plaintext UDP queries are forwarded byte for byte to an
//! ordered list of encrypted upstream resolvers, and the first successful
//! answer is sent back to the client.
//!
//! The library holds the relay's decisions as verified state machines; the
//! sockets, the upstream transport and the async runtime drive them from the
//! outside.
pub mod address;
pub mod args;
pub mod dispatcher;
pub mod orchestrator;
pub mod verbosity;

pub use address::{IpAddress, SocketAddress};
pub use args::{run_status, Args, RunOutcome};
pub use dispatcher::{Action, DispatchError, Dispatcher, Event, Phase, Request};
pub use orchestrator::{Instance, ShutdownSlot, Signal, StartError};
pub use verbosity::ArgVerbosity;
