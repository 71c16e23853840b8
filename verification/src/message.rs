use crate::error::ErrorKind;
use crate::quote::Quote;
use vstd::prelude::*;

verus! {

/// What can happen to the viewer.
#[derive(Debug, PartialEq, Eq)]
pub enum Message {
    /// A fetch has ended, with the quote it brought or the reason it
    /// brought none.
    QuoteFound(Result<Quote, ErrorKind>),
    /// The user asked for another quote.
    Search,
}

impl Clone for Message {
    /// A copy that is the same message, with the same quote or error in it.
    fn clone(&self) -> (copy: Message)
        ensures
            copy == *self,
    {
        match self {
            Message::QuoteFound(Ok(quote)) => Message::QuoteFound(Ok(quote.clone())),
            Message::QuoteFound(Err(kind)) => Message::QuoteFound(Err(*kind)),
            Message::Search => Message::Search,
        }
    }
}

/// What the run loop has to do after it has delivered a message.
#[derive(Debug, Clone, Copy, PartialEq, Eq, Structural)]
pub enum Command {
    /// Nothing.
    Idle,
    /// Start one fetch, and deliver its outcome as a
    /// [`Message::QuoteFound`].
    Fetch,
}

impl Command {
    /// How many fetches the command starts.
    pub open spec fn fetches(self) -> nat {
        match self {
            Command::Idle => 0,
            Command::Fetch => 1,
        }
    }
}

} // verus!
