use crate::error::ErrorKind;
use crate::message::{Command, Message};
use crate::quote::Quote;
use crate::widget::{button, ButtonView, Screen, ScreenView, BUTTON_PADDING};
use vstd::prelude::*;
use vstd::string::*;

verus! {

/// The state of the viewer. There is one at any time, and each message
/// replaces it whole.
#[derive(Debug, PartialEq, Eq)]
pub enum Quotes {
    /// A fetch is under way.
    Loading,
    /// The last fetch brought `quote`.
    Loaded { quote: Quote },
    /// The last fetch failed.
    Errored,
}

/// A button captioned `label` that asks for another quote.
pub open spec fn search_button(label: Seq<char>) -> ButtonView {
    ButtonView { label, padding: BUTTON_PADDING, on_press: Some(Message::Search) }
}

impl Quotes {
    /// The state that follows `self` on `message`.
    ///
    /// The outcome of a fetch decides the state by itself, whatever the
    /// state was. A search ends in `Loading`: it starts a fetch, or one is
    /// under way already.
    pub open spec fn after(self, message: Message) -> Quotes {
        match message {
            Message::QuoteFound(Ok(quote)) => Quotes::Loaded { quote },
            Message::QuoteFound(Err(_)) => Quotes::Errored,
            Message::Search => Quotes::Loading,
        }
    }

    /// What the run loop is asked to do when `message` arrives in state
    /// `self`: to start a fetch where a search finds none under way, and
    /// nothing otherwise.
    pub open spec fn command_on(self, message: Message) -> Command {
        if message is Search && !(self is Loading) {
            Command::Fetch
        } else {
            Command::Idle
        }
    }

    /// The part of the window's title that depends on the state.
    pub open spec fn subtitle(self) -> Seq<char> {
        match self {
            Quotes::Loading => "Loading"@,
            Quotes::Loaded { quote } => quote.author@,
            Quotes::Errored => "Whoops!"@,
        }
    }

    /// What the window holds in state `self`.
    pub open spec fn screen(self) -> ScreenView {
        match self {
            Quotes::Loading => ScreenView::Searching { notice: "Searching for Quotes..."@ },
            Quotes::Loaded { quote } => ScreenView::Found {
                quotation: quote.quotation(),
                action: search_button("Keep searching!"@),
            },
            Quotes::Errored => ScreenView::Failed {
                notice: "Whoops! Something went wrong..."@,
                action: search_button("Try again"@),
            },
        }
    }

    /// The state at startup, and the command that starts the first fetch.
    pub fn new() -> (start: (Quotes, Command))
        ensures
            start == (Quotes::Loading, Command::Fetch),
    {
        (Quotes::Loading, Command::Fetch)
    }

    /// The window's title: the author's name while a quote is shown, a
    /// fixed word otherwise, and the name of the program behind it.
    pub fn title(&self) -> (title: String)
        ensures
            title@ == self.subtitle() + " - Pokédex"@,
    {
        let subtitle = match self {
            Quotes::Loading => "Loading",
            Quotes::Loaded { quote } => quote.author.as_str(),
            Quotes::Errored => "Whoops!",
        };
        subtitle.to_owned().concat(" - Pokédex")
    }

    /// Takes `message` in, and says what the run loop has to do next.
    pub fn update(&mut self, message: Message) -> (command: Command)
        ensures
            *final(self) == old(self).after(message),
            command == old(self).command_on(message),
    {
        match message {
            Message::QuoteFound(Ok(quote)) => {
                *self = Quotes::Loaded { quote };
                Command::Idle
            },
            Message::QuoteFound(Err(_error)) => {
                *self = Quotes::Errored;
                Command::Idle
            },
            Message::Search => match self {
                Quotes::Loading => Command::Idle,
                _ => {
                    *self = Quotes::Loading;
                    Command::Fetch
                },
            },
        }
    }

    /// Describes the window for the state as it is.
    pub fn view(&self) -> (screen: Screen)
        ensures
            screen@ == self.screen(),
    {
        match self {
            Quotes::Loading => Screen::Searching { notice: "Searching for Quotes...".to_owned() },
            Quotes::Loaded { quote } => Screen::Found {
                quotation: quote.view(),
                action: button("Keep searching!").on_press(Message::Search),
            },
            Quotes::Errored => Screen::Failed {
                notice: "Whoops! Something went wrong...".to_owned(),
                action: button("Try again").on_press(Message::Search),
            },
        }
    }
}

/// A search that arrives while a fetch is under way changes nothing: the
/// state stays as it is, and no second fetch is started.
pub proof fn lemma_search_while_loading_changes_nothing(state: Quotes)
    requires
        state is Loading,
    ensures
        state.after(Message::Search) == state,
        state.command_on(Message::Search) == Command::Idle,
        state.command_on(Message::Search).fetches() == 0,
{
}

/// A search that arrives while a quote or a failure is shown leads to
/// `Loading` and starts exactly one fetch. The quote that was shown is gone
/// at once, before the fetch has ended.
pub proof fn lemma_search_starts_one_fetch(state: Quotes)
    requires
        state is Loaded || state is Errored,
    ensures
        state.after(Message::Search) == Quotes::Loading,
        state.command_on(Message::Search) == Command::Fetch,
        state.command_on(Message::Search).fetches() == 1,
{
}

/// A fetch that brought `quote` leads to `Loaded` from every state, with
/// the quote as it came: the same text and the same author. It starts no
/// fetch.
pub proof fn lemma_quote_found_is_loaded(state: Quotes, quote: Quote)
    ensures
        state.after(Message::QuoteFound(Ok(quote))) == (Quotes::Loaded { quote }),
        state.after(Message::QuoteFound(Ok(quote)))->quote.content@ == quote.content@,
        state.after(Message::QuoteFound(Ok(quote)))->quote.author@ == quote.author@,
        state.command_on(Message::QuoteFound(Ok(quote))) == Command::Idle,
{
}

/// A fetch that failed leads to `Errored` from every state, whatever the
/// failure was. It starts no fetch.
pub proof fn lemma_failure_is_errored(state: Quotes, kind: ErrorKind)
    ensures
        state.after(Message::QuoteFound(Err(kind))) == Quotes::Errored,
        state.command_on(Message::QuoteFound(Err(kind))) == Command::Idle,
{
}

} // verus!
