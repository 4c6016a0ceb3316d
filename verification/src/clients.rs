//! The clients that are connected, possibly in standby.

use crate::packets::VideoStreamingCapabilities;
use crate::table::Table;
use vstd::prelude::*;

verus! {

/// What the server knows of a connected client.
///
/// `sse_socket` is the handle under which the socket for server events is kept.
#[derive(Debug, PartialEq)]
pub struct ClientConnectionData {
    pub sse_socket: u64,
    pub capabilities: Option<VideoStreamingCapabilities>,
}

/// The connected clients by hostname.
pub type ClientTable = Table<String, ClientConnectionData>;

/// Notes what a connected client can show.
pub fn set_capabilities(
    clients: &mut ClientTable,
    hostname: &String,
    capabilities: Option<VideoStreamingCapabilities>,
)
    requires
        old(clients).wf(),
        old(clients)@.contains_key(hostname@),
    ensures
        final(clients).wf(),
        final(clients)@ == old(clients)@.insert(
            hostname@,
            (ClientConnectionData {
                sse_socket: old(clients)@[hostname@].sse_socket,
                capabilities,
            }),
        ),
{
    let sse_socket: u64 = match clients.get(hostname) {
        Some(data) => data.sse_socket,
        None => unreached(),
    };
    clients.insert(hostname.clone(), ClientConnectionData { sse_socket, capabilities });
}

/// What a client can show is noted for that client. Its socket stays, and so does everything that is
/// known of the others.
pub proof fn law_capabilities_are_noted_for_their_client(
    clients: &mut ClientTable,
    hostname: String,
    capabilities: Option<VideoStreamingCapabilities>,
    other: Seq<char>,
)
    requires
        call_ensures(set_capabilities, (clients, &hostname, capabilities), ()),
    ensures
        final(clients)@.contains_key(hostname@),
        final(clients)@[hostname@].capabilities == capabilities,
        final(clients)@[hostname@].sse_socket == old(clients)@[hostname@].sse_socket,
        other != hostname@ ==> {
            &&& final(clients)@.contains_key(other) == old(clients)@.contains_key(other)
            &&& old(clients)@.contains_key(other) ==> final(clients)@[other] == old(clients)@[other]
        },
{
}

} // verus!
