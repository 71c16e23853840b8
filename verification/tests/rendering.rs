use quotes::{button, Button, Message, Quotation, Quote, Quotes, Screen, ENDPOINT};

fn wilde() -> Quote {
    Quote { content: "Be yourself".to_string(), author: "Oscar Wilde".to_string() }
}

fn search_button(label: &str) -> Button {
    Button { label: label.to_string(), padding: 10, on_press: Some(Message::Search) }
}

#[test]
fn title_while_loading() {
    assert_eq!(Quotes::Loading.title(), "Loading - Pokédex");
}

#[test]
fn title_while_loaded_names_the_author() {
    let state = Quotes::Loaded { quote: wilde() };
    assert_eq!(state.title(), "Oscar Wilde - Pokédex");
}

#[test]
fn title_while_errored() {
    assert_eq!(Quotes::Errored.title(), "Whoops! - Pokédex");
}

#[test]
fn title_with_an_empty_author() {
    let state = Quotes::Loaded { quote: Quote { content: "x".to_string(), author: String::new() } };
    assert_eq!(state.title(), " - Pokédex");
}

#[test]
fn view_while_loading_has_no_button() {
    assert_eq!(
        Quotes::Loading.view(),
        Screen::Searching { notice: "Searching for Quotes...".to_string() }
    );
}

#[test]
fn view_while_loaded_shows_the_quote() {
    let state = Quotes::Loaded { quote: wilde() };
    assert_eq!(
        state.view(),
        Screen::Found {
            quotation: Quotation {
                content: "Be yourself".to_string(),
                attribution: "-Oscar Wilde".to_string(),
            },
            action: search_button("Keep searching!"),
        }
    );
}

#[test]
fn view_while_errored_offers_a_retry() {
    assert_eq!(
        Quotes::Errored.view(),
        Screen::Failed {
            notice: "Whoops! Something went wrong...".to_string(),
            action: search_button("Try again"),
        }
    );
}

#[test]
fn view_does_not_change_the_state() {
    let state = Quotes::Loaded { quote: wilde() };
    let first = state.view();
    let second = state.view();
    assert_eq!(first, second);
    assert_eq!(state, Quotes::Loaded { quote: wilde() });
}

#[test]
fn quote_view_puts_a_dash_before_the_author() {
    let shown = wilde().view();
    assert_eq!(shown.content, "Be yourself");
    assert_eq!(shown.attribution, "-Oscar Wilde");
}

#[test]
fn quote_view_of_an_empty_quote() {
    let shown = Quote { content: String::new(), author: String::new() }.view();
    assert_eq!(shown.content, "");
    assert_eq!(shown.attribution, "-");
}

#[test]
fn button_has_the_padding_and_sends_nothing() {
    let plain = button("Try again");
    assert_eq!(plain, Button { label: "Try again".to_string(), padding: 10, on_press: None });
}

#[test]
fn on_press_sets_the_message_only() {
    let pressed = button("Keep searching!").on_press(Message::Search);
    assert_eq!(pressed, search_button("Keep searching!"));
}

#[test]
fn endpoint_is_the_random_quote_address() {
    assert_eq!(ENDPOINT, "https://api.quotable.io/random");
}
