use quotes::{Command, ErrorKind, Message, Quotation, Quote, Quotes, Screen};

#[test]
fn startup_then_success_shows_the_quote() {
    let (mut state, command) = Quotes::new();
    assert_eq!(state, Quotes::Loading);
    assert_eq!(command, Command::Fetch);

    let quote = Quote { content: "Be yourself".to_string(), author: "Oscar Wilde".to_string() };
    let command = state.update(Message::QuoteFound(Ok(quote)));
    assert_eq!(command, Command::Idle);
    assert_eq!(
        state,
        Quotes::Loaded {
            quote: Quote { content: "Be yourself".to_string(), author: "Oscar Wilde".to_string() }
        }
    );
    match state.view() {
        Screen::Found { quotation, .. } => assert_eq!(
            quotation,
            Quotation {
                content: "Be yourself".to_string(),
                attribution: "-Oscar Wilde".to_string()
            }
        ),
        other => panic!("unexpected screen: {:?}", other),
    }
    assert_eq!(state.title(), "Oscar Wilde - Pokédex");
}

#[test]
fn failed_fetch_shows_whoops() {
    let mut state = Quotes::Loading;
    let refused = reqwest::Client::new().get("http://[::1").build().unwrap_err();
    let command = state.update(Message::QuoteFound(Err(ErrorKind::from(refused))));
    assert_eq!(command, Command::Idle);
    assert_eq!(state, Quotes::Errored);
    assert_eq!(state.title(), "Whoops! - Pokédex");
}

#[test]
fn retry_after_failure_fetches_once() {
    let mut state = Quotes::Errored;
    let mut dispatched = 0;
    if state.update(Message::Search) == Command::Fetch {
        dispatched += 1;
    }
    assert_eq!(state, Quotes::Loading);
    assert_eq!(dispatched, 1);
    if state.update(Message::Search) == Command::Fetch {
        dispatched += 1;
    }
    assert_eq!(state, Quotes::Loading);
    assert_eq!(dispatched, 1);
}

#[test]
fn keep_searching_drops_the_quote_before_the_fetch_ends() {
    let quote = Quote { content: "Be yourself".to_string(), author: "Oscar Wilde".to_string() };
    let mut state = Quotes::Loaded { quote };
    let command = state.update(Message::Search);
    assert_eq!(command, Command::Fetch);
    assert_eq!(state, Quotes::Loading);
    assert_eq!(state.view(), Screen::Searching { notice: "Searching for Quotes...".to_string() });
}
