//! A verified core for a flight-simulator client: it prepares the native
//! calls of the simulator's connection library and decodes the messages
//! that the library hands back. The native calls themselves are made by
//! the embedding program.

pub mod call;
pub mod connector;
pub mod constants;
pub mod dispatch;
pub mod event;
pub mod facility;
pub mod recv;
pub mod wire;

pub use call::{EntryPoint, InitPosition, NativeCall};
pub use connector::{ConnectorState, SimConnector};
pub use dispatch::{decode_message, DispatchError, DispatchResult};
