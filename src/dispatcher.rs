//! The alert dispatcher's decisions: the single consumer of the alert
//! channel posts each message once to the notification endpoint and drops it
//! whatever the answer; the channel closing is a fatal fault.

use vstd::prelude::*;

verus! {

/// What the worker reports: a message taken from the channel, or the
/// channel found closed.
pub enum DispatchEvent {
    Received(String),
    ChannelClosed,
}

/// What the worker does: post this text, or stop with this error.
pub enum DispatchAction {
    Post(String),
    Exit(String),
}

/// How a post went.
pub enum Delivery {
    /// The endpoint answered 200.
    Delivered,
    /// The endpoint answered with another status.
    Rejected(u16),
    /// The endpoint could not be reached.
    Unreachable,
}

pub open spec fn closed_channel_message() -> Seq<char> {
    "slack thread is exiting. This should never happen"@
}

/// A received message is posted as it is; a closed channel ends the
/// dispatcher with an error.
pub fn dispatch(ev: DispatchEvent) -> (a: DispatchAction)
    ensures
        match ev {
            DispatchEvent::Received(m) => a == DispatchAction::Post(m),
            DispatchEvent::ChannelClosed => a matches DispatchAction::Exit(e) && e@
                == closed_channel_message(),
        },
{
    match ev {
        DispatchEvent::Received(m) => DispatchAction::Post(m),
        DispatchEvent::ChannelClosed => DispatchAction::Exit(
            "slack thread is exiting. This should never happen".to_string(),
        ),
    }
}

/// Classifies the answer to a post: the response status, or none when the
/// endpoint could not be reached. Nothing is retried either way.
pub fn delivery_of(status: Option<u16>) -> (d: Delivery)
    ensures
        match status {
            None => d == Delivery::Unreachable,
            Some(c) => if c == 200 {
                d == Delivery::Delivered
            } else {
                d == Delivery::Rejected(c)
            },
        },
{
    match status {
        None => Delivery::Unreachable,
        Some(c) => if c == 200 {
            Delivery::Delivered
        } else {
            Delivery::Rejected(c)
        },
    }
}

} // verus!
