//! How packets are sent on a stream.

use vstd::prelude::*;

verus! {

/// A packet of a stream: its encoded header, and what follows it.
#[derive(Debug, PartialEq)]
pub struct StreamPacket {
    pub header: Vec<u8>,
    pub payload: Vec<u8>,
}

/// What the sender of a stream learns.
#[derive(Debug, PartialEq)]
pub enum SendEvent {
    /// A packet is to be sent, or why it cannot be encoded.
    Queued(Result<StreamPacket, String>),
    /// Whether the packet could be sent, or why not.
    Sent(Result<(), String>),
    /// No more packets will come.
    QueueClosed,
}

/// What the sender of a stream does.
#[derive(Debug, PartialEq)]
pub enum SendAction {
    /// Send a packet.
    Send(StreamPacket),
    /// Wait for the next packet.
    Wait,
    /// End with this result.
    End(Result<(), String>),
}

/// How the sender of a stream goes on. It ends where no more packets will come and where a packet
/// cannot be encoded. A packet that could not be sent is lost, and nothing else comes of it.
pub open spec fn send_after(event: SendEvent) -> SendAction {
    match event {
        SendEvent::Queued(Ok(packet)) => SendAction::Send(packet),
        SendEvent::Queued(Err(cause)) => SendAction::End(Err(cause)),
        SendEvent::Sent(_) => SendAction::Wait,
        SendEvent::QueueClosed => SendAction::End(Ok(())),
    }
}

/// Goes on with the packets of a stream.
pub fn send_loop(event: SendEvent) -> (res: SendAction)
    ensures
        res == send_after(event),
{
    match event {
        SendEvent::Queued(Ok(packet)) => SendAction::Send(packet),
        SendEvent::Queued(Err(cause)) => SendAction::End(Err(cause)),
        SendEvent::Sent(_) => SendAction::Wait,
        SendEvent::QueueClosed => SendAction::End(Ok(())),
    }
}

/// The packets that were to be sent in the course of a series of events.
pub open spec fn packets_queued(events: Seq<SendEvent>) -> Seq<StreamPacket>
    decreases events.len(),
{
    if events.len() == 0 {
        Seq::empty()
    } else {
        let before = packets_queued(events.drop_last());
        match events.last() {
            SendEvent::Queued(Ok(packet)) => before.push(packet),
            _ => before,
        }
    }
}

/// The packets that the sender sent in answer to a series of events.
pub open spec fn packets_sent(events: Seq<SendEvent>) -> Seq<StreamPacket>
    decreases events.len(),
{
    if events.len() == 0 {
        Seq::empty()
    } else {
        let before = packets_sent(events.drop_last());
        match send_after(events.last()) {
            SendAction::Send(packet) => before.push(packet),
            _ => before,
        }
    }
}

/// Every packet that was to be sent is sent, once and in its turn, also after packets that could
/// not be sent.
pub proof fn law_every_packet_is_sent_in_its_turn(events: Seq<SendEvent>)
    ensures
        packets_sent(events) == packets_queued(events),
    decreases events.len(),
{
    if events.len() > 0 {
        law_every_packet_is_sent_in_its_turn(events.drop_last());
    }
}

/// The sender ends by itself only where no more packets will come. It fails only by the cause for
/// which a packet could not be encoded. A packet that could not be sent makes it wait for the next.
pub proof fn law_failed_sends_do_not_end_the_sender(
    event: SendEvent,
    res: SendAction,
)
    requires
        call_ensures(send_loop, (event,), res),
    ensures
        res matches SendAction::End(result) ==> match result {
            Ok(_) => event is QueueClosed,
            Err(cause) => event == SendEvent::Queued(Err(cause)),
        },
        event is Sent <==> res is Wait,
        event matches SendEvent::Queued(Ok(packet)) ==> (res matches SendAction::Send(
            sent,
        ) && sent.header@ == packet.header@ && sent.payload@ == packet.payload@),
{
}

} // verus!
