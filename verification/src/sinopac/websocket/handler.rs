//! The decisions of the feed task, which decodes the gateway's frames.

use vstd::prelude::*;

verus! {

/// What the feed task received.
#[derive(Debug, Clone, Copy, PartialEq, Eq, Structural)]
pub enum FeedEvent {
    /// A text frame: the connection's reconnection signal, or a frame that
    /// did or did not decode as a gateway message.
    Text { reconnected: bool, decoded: bool },
    /// A close frame.
    Close,
    /// Any other frame (pings and pongs are answered by the connection).
    Other,
}

/// What the feed task does next.
#[derive(Debug, Clone, Copy, PartialEq, Eq, Structural)]
pub enum FeedAction {
    /// Send the subscribe commands of every subscription again.
    Resubscribe,
    /// Hand the decoded message to the client; stop if the client is gone.
    Forward,
    /// Log the frame that did not decode and go on.
    SkipUndecodable,
    /// Ignore the frame and go on.
    Ignore,
    /// Stop.
    Stop,
}

/// Decides what the feed task does with a frame: the reconnection signal
/// restores the subscriptions, decoded messages go to the client, a close
/// frame ends the feed.
pub fn feed_step(event: FeedEvent) -> (a: FeedAction)
    ensures
        a == (match event {
            FeedEvent::Text { reconnected, decoded } => if reconnected {
                FeedAction::Resubscribe
            } else if decoded {
                FeedAction::Forward
            } else {
                FeedAction::SkipUndecodable
            },
            FeedEvent::Close => FeedAction::Stop,
            FeedEvent::Other => FeedAction::Ignore,
        }),
{
    match event {
        FeedEvent::Text { reconnected, decoded } => if reconnected {
            FeedAction::Resubscribe
        } else if decoded {
            FeedAction::Forward
        } else {
            FeedAction::SkipUndecodable
        },
        FeedEvent::Close => FeedAction::Stop,
        FeedEvent::Other => FeedAction::Ignore,
    }
}

} // verus!
