use crate::message::{Command, Message};
use crate::state::Quotes;
use vstd::prelude::*;

verus! {

impl Quotes {
    /// The state that follows `self` once `messages` have arrived, the
    /// first of them first.
    pub open spec fn after_all(self, messages: Seq<Message>) -> Quotes
        decreases messages.len(),
    {
        if messages.len() == 0 {
            self
        } else {
            self.after_all(messages.drop_last()).after(messages.last())
        }
    }
}

/// How many fetches are under way once `messages` have arrived at a viewer
/// that has just started.
///
/// Startup begins with the fetch that [`Quotes::new`] asks for. Each
/// command adds the fetches it starts, and each outcome that arrives ends
/// one.
pub open spec fn in_flight(messages: Seq<Message>) -> int
    decreases messages.len(),
{
    if messages.len() == 0 {
        Command::Fetch.fetches() as int
    } else {
        let earlier = messages.drop_last();
        let state = Quotes::Loading.after_all(earlier);
        match messages.last() {
            Message::QuoteFound(_) => in_flight(earlier) - 1,
            Message::Search => in_flight(earlier) + state.command_on(Message::Search).fetches(),
        }
    }
}

/// Whether a run loop can deliver `messages` to a viewer that has just
/// started: an outcome arrives only where a fetch is under way to bring it.
pub open spec fn deliverable(messages: Seq<Message>) -> bool
    decreases messages.len(),
{
    messages.len() == 0 || {
        &&& deliverable(messages.drop_last())
        &&& messages.last() is QuoteFound ==> in_flight(messages.drop_last()) > 0
    }
}

/// Whatever messages arrive, in whatever state, the state that follows is
/// exactly one of `Loading`, `Loaded` and `Errored`.
pub proof fn lemma_state_is_one_of_three(start: Quotes, messages: Seq<Message>)
    ensures
        ({
            let state = start.after_all(messages);
            ||| state is Loading && !(state is Loaded) && !(state is Errored)
            ||| !(state is Loading) && state is Loaded && !(state is Errored)
            ||| !(state is Loading) && !(state is Loaded) && state is Errored
        }),
{
}

/// The state keeps no history: once a message has arrived, the state is
/// what that last message alone makes of any state.
pub proof fn lemma_last_message_decides(start: Quotes, messages: Seq<Message>, any: Quotes)
    requires
        messages.len() > 0,
    ensures
        start.after_all(messages) == any.after(messages.last()),
{
}

/// At most one fetch is under way at any time, and the state tells whether
/// one is: after any messages that a run loop can deliver, one fetch is
/// under way in `Loading` and none in the other two states.
pub proof fn lemma_one_fetch_while_loading(messages: Seq<Message>)
    requires
        deliverable(messages),
    ensures
        0 <= in_flight(messages) <= 1,
        Quotes::Loading.after_all(messages) is Loading ==> in_flight(messages) == 1,
        !(Quotes::Loading.after_all(messages) is Loading) ==> in_flight(messages) == 0,
    decreases messages.len(),
{
    if messages.len() > 0 {
        lemma_one_fetch_while_loading(messages.drop_last());
    }
}

/// A search that arrives while a fetch is under way leaves everything as it
/// was: the state, and the number of fetches under way.
pub proof fn lemma_ignored_search_keeps_fetches(messages: Seq<Message>)
    requires
        Quotes::Loading.after_all(messages) is Loading,
    ensures
        Quotes::Loading.after_all(messages.push(Message::Search)) == Quotes::Loading.after_all(
            messages,
        ),
        in_flight(messages.push(Message::Search)) == in_flight(messages),
{
    assert(messages.push(Message::Search).drop_last() == messages);
}

/// A search that arrives while a quote or a failure is shown adds exactly
/// one to the fetches under way.
pub proof fn lemma_accepted_search_adds_one_fetch(messages: Seq<Message>)
    requires
        !(Quotes::Loading.after_all(messages) is Loading),
    ensures
        Quotes::Loading.after_all(messages.push(Message::Search)) is Loading,
        in_flight(messages.push(Message::Search)) == in_flight(messages) + 1,
{
    assert(messages.push(Message::Search).drop_last() == messages);
}

} // verus!
