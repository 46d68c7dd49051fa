//! The rules of one websocket session. The caller owns the socket and the
//! broadcast channel; it turns what happens on them into events, asks these
//! functions what to do, does it, and stops when told to.

use crate::queue::duration_from_millis;
use crate::ws::message::{ClientCountMessage, MediaMessage, WsMessage};
use core::time::Duration;
use vstd::prelude::*;

verus! {

/// What the socket yielded.
pub enum SocketEvent {
    /// A text frame whose content decoded as a message of the protocol.
    Message(WsMessage),
    /// A text frame whose content did not decode.
    Malformed,
    /// A close frame.
    Close,
    /// A binary, ping or pong frame.
    OtherFrame,
    /// Nothing more, or a receive error.
    Gone,
}

/// What the broadcast channel yielded to this session.
#[derive(Debug, Clone, Copy, PartialEq, Eq, Structural)]
pub enum ChannelEvent {
    /// A broadcast message arrived.
    Received,
    /// The receive failed: the session lagged behind, or the channel closed.
    Failed,
}

/// What the session does next.
pub enum SessionAction {
    /// Nothing.
    Idle,
    /// Put the media on the timed queue, to stay up for `delay`.
    Enqueue { media: MediaMessage, delay: Duration },
    /// Broadcast this count message, as it came, to every session.
    Relay(ClientCountMessage),
    /// Broadcast the client count that this session's leaving leaves.
    AnnounceDeparture,
    /// Send the message just received from the channel down the socket.
    Forward,
}

/// One decision: an action, and whether the session goes on after it.
pub struct SessionStep {
    pub action: SessionAction,
    pub keep_open: bool,
}

/// The decision on a socket event.
///
/// Media is queued for as many milliseconds as its own timeout says; a client's count
/// message is relayed to everyone; a close frame ends the session after the
/// departure is announced; when the socket yields nothing more the
/// departure is announced and the session goes on listening; anything else
/// is ignored.
pub fn handle_socket_event(event: SocketEvent) -> (step: SessionStep)
    ensures
        match event {
            SocketEvent::Message(WsMessage::Media(m)) => step.keep_open && step.action
                == (SessionAction::Enqueue { media: m, delay: duration_from_millis(m@.timeout) }),
            SocketEvent::Message(WsMessage::ClientCount(c)) => step.keep_open && step.action
                == SessionAction::Relay(c),
            SocketEvent::Close => !step.keep_open && step.action == SessionAction::AnnounceDeparture,
            SocketEvent::Gone => step.keep_open && step.action == SessionAction::AnnounceDeparture,
            SocketEvent::Malformed | SocketEvent::OtherFrame => step.keep_open && step.action
                == SessionAction::Idle,
        },
{
    match event {
        SocketEvent::Message(WsMessage::Media(media)) => {
            let delay: Duration = Duration::from_millis(media.timeout());
            SessionStep { action: SessionAction::Enqueue { media, delay }, keep_open: true }
        },
        SocketEvent::Message(WsMessage::ClientCount(count)) => {
            SessionStep { action: SessionAction::Relay(count), keep_open: true }
        },
        SocketEvent::Close => {
            SessionStep { action: SessionAction::AnnounceDeparture, keep_open: false }
        },
        SocketEvent::Gone => {
            SessionStep { action: SessionAction::AnnounceDeparture, keep_open: true }
        },
        SocketEvent::Malformed | SocketEvent::OtherFrame => {
            SessionStep { action: SessionAction::Idle, keep_open: true }
        },
    }
}

/// The decision on a channel event: a received message is forwarded down
/// the socket; a failed receive is ignored. The session goes on either way.
pub fn handle_channel_event(event: ChannelEvent) -> (step: SessionStep)
    ensures
        step.keep_open,
        event == ChannelEvent::Received ==> step.action == SessionAction::Forward,
        event == ChannelEvent::Failed ==> step.action == SessionAction::Idle,
{
    match event {
        ChannelEvent::Received => SessionStep { action: SessionAction::Forward, keep_open: true },
        ChannelEvent::Failed => SessionStep { action: SessionAction::Idle, keep_open: true },
    }
}

/// The decision once a forward down the socket is done: if it failed, the
/// departure is announced and the session ends; otherwise nothing happens.
pub fn handle_forward_result(delivered: bool) -> (step: SessionStep)
    ensures
        delivered ==> step.keep_open && step.action == SessionAction::Idle,
        !delivered ==> !step.keep_open && step.action == SessionAction::AnnounceDeparture,
{
    if delivered {
        SessionStep { action: SessionAction::Idle, keep_open: true }
    } else {
        SessionStep { action: SessionAction::AnnounceDeparture, keep_open: false }
    }
}

/// The message broadcast when a client connects, given how many receivers
/// the broadcast channel has with the new session subscribed: that number
/// is the client count.
pub fn handle_client_connect(receiver_count: usize) -> (m: WsMessage)
    ensures
        m matches WsMessage::ClientCount(c) && c.client_count() == receiver_count,
{
    WsMessage::ClientCount(ClientCountMessage::new(receiver_count as u64))
}

/// The message broadcast when a client leaves, given how many receivers the
/// broadcast channel has while the leaving session is still subscribed: the
/// client count is one less.
pub fn handle_client_disconnect(receiver_count: usize) -> (m: WsMessage)
    requires
        receiver_count >= 1,
    ensures
        m matches WsMessage::ClientCount(c) && c.client_count() == receiver_count - 1,
{
    WsMessage::ClientCount(ClientCountMessage::new((receiver_count - 1) as u64))
}

} // verus!
