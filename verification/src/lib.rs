//! Controlling Gree smart air conditioning units.
//!
//! The crate holds the protocol of the units and performs no I/O: it says
//! which datagram goes where and what to make of the datagrams that come
//! back, and leaves sockets and clocks to its caller.
//!
//! * [`GreeClient`] is the low-level client: it makes the requests (scan,
//!   bind, read, write) and reads the answers.
//! * [`Gree`] is the high-level client. It keeps the state of the network
//!   and scans and binds on its own where an operation needs it:
//!   - a device is bound where it has no key;
//!   - the network is scanned where the last scan is older than
//!     `max_scan_age`, and where an operation fails, as it does on a device
//!     that is not known;
//!   - no scan is made while the last one is younger than `min_scan_age`.

pub mod apdu;
pub mod client;
pub mod codec;
pub mod error;
pub mod session;
pub mod state;
pub mod text;
pub mod value;
pub mod vars;

pub use apdu::{
    bind_request, scan_request, setvar_request, status_request, BindRequestPack,
    BindResponsePack, CommandPack, CommandResponsePack, GenericMessage, GenericOutMessage,
    ScanResponsePack, StatusRequestPack, StatusResponsePack,
};
pub use client::{Exchange, GreeClient, Received, ScanReceived, ScanRun, GENERIC_KEY, PORT};
pub use codec::{decode_response, encode_request};
pub use error::Error;
pub use session::{Goal, Gree, GreeInternal, Run, Step};
pub use state::{
    net_var_bag_from_names, net_var_bag_from_nvs, net_var_bag_to_json, Device, GreeClientConfig,
    GreeConfig, GreeState, IpAddress, MacAddr, NetVarBag, Op, ScanReply, SimpleNetVar,
    SocketAddress,
};
pub use value::Value;
