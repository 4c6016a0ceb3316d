//! Connection logic of a wireless headset streaming link.

pub mod client;
pub mod client_stream;
pub mod clients;
pub mod error;
pub mod float32;
pub mod handshake;
pub mod lobby;
pub mod net;
pub mod openvr;
pub mod packets;
pub mod send_loop;
pub mod server;
pub mod server_stream;
pub mod session;
pub mod sockets;
pub mod table;
pub mod text;
pub mod time;
pub mod video_request;
