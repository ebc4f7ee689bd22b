//! What the receiver of messages gets to see of a WebSocket connection.

use crate::ws::error::Error;
use crate::ws::message::Message;
use tokio_tungstenite::tungstenite::Error as TungsteniteError;
use tokio_tungstenite::tungstenite::Message as TungsteniteMessage;
use vstd::prelude::*;

verus! {

/// How to go on after the connection has been asked for its next message.
#[derive(Debug)]
pub enum Next {
    /// Ask the connection again.
    Again,
    /// Hand this out; `None` means that the connection is closed.
    Ready(Option<Result<Message, Error>>),
}

/// How to go on after the connection has answered with `item`: raw frames are passed over,
/// messages are converted, and errors and the end of the connection are handed out.
pub open spec fn next_after(item: Option<Result<TungsteniteMessage, TungsteniteError>>) -> Next {
    match item {
        Some(Ok(message)) => match Message::of_tungstenite(message) {
            Some(message) => Next::Ready(Some(Ok(message))),
            None => Next::Again,
        },
        Some(Err(error)) => Next::Ready(Some(Err(Error::WebSocket(error)))),
        None => Next::Ready(None),
    }
}

/// What is handed out when the connection answers with `items`, one after the other.
pub open spec fn next_over(
    items: Seq<Option<Result<TungsteniteMessage, TungsteniteError>>>,
) -> Next
    decreases items.len(),
{
    if items.len() == 0 {
        Next::Again
    } else {
        match next_after(items[0]) {
            Next::Again => next_over(items.drop_first()),
            Next::Ready(item) => Next::Ready(item),
        }
    }
}

/// The answers that are left when the connection answers with `items` and something has been
/// handed out.
pub open spec fn left_over(
    items: Seq<Option<Result<TungsteniteMessage, TungsteniteError>>>,
) -> Seq<Option<Result<TungsteniteMessage, TungsteniteError>>>
    decreases items.len(),
{
    if items.len() == 0 {
        items
    } else {
        match next_after(items[0]) {
            Next::Again => left_over(items.drop_first()),
            Next::Ready(_) => items.drop_first(),
        }
    }
}

/// Everything that is handed out, in order, to a receiver that asks on until the connection
/// has given all its answers `items`.
pub open spec fn run_over(
    items: Seq<Option<Result<TungsteniteMessage, TungsteniteError>>>,
) -> Seq<Option<Result<Message, Error>>>
    decreases items.len(),
{
    match next_over(items) {
        Next::Again => Seq::empty(),
        Next::Ready(item) => {
            proof {
                lemma_left_over_is_shorter(items);
            }
            seq![item] + run_over(left_over(items))
        },
    }
}

/// Handing something out uses up an answer of the connection.
pub proof fn lemma_left_over_is_shorter(
    items: Seq<Option<Result<TungsteniteMessage, TungsteniteError>>>,
)
    ensures
        next_over(items) is Ready ==> left_over(items).len() < items.len(),
    decreases items.len(),
{
    if items.len() > 0 {
        lemma_left_over_is_shorter(items.drop_first());
    }
}

/// Decide how to go on after the connection has answered with `item`.
pub fn next_message(item: Option<Result<TungsteniteMessage, TungsteniteError>>) -> (r: Next)
    ensures
        r == next_after(item),
{
    match item {
        Some(Ok(message)) => {
            if let Some(message) = Message::from_tungstenite(message) {
                Next::Ready(Some(Ok(message)))
            } else {
                Next::Again
            }
        },
        Some(Err(error)) => Next::Ready(Some(Err(Error::from(error)))),
        None => Next::Ready(None),
    }
}

} // verus!
