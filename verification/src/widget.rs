use crate::message::Message;
use vstd::prelude::*;

verus! {

/// The padding of every button of the viewer.
pub const BUTTON_PADDING: u16 = 10;

/// A button: its caption, the space round the caption, and the message
/// that a press sends, if any.
#[derive(Debug, PartialEq, Eq)]
pub struct Button {
    pub label: String,
    pub padding: u16,
    pub on_press: Option<Message>,
}

/// A [`Button`] with its caption as a sequence of characters.
pub struct ButtonView {
    pub label: Seq<char>,
    pub padding: u16,
    pub on_press: Option<Message>,
}

impl View for Button {
    type V = ButtonView;

    open spec fn view(&self) -> ButtonView {
        ButtonView { label: self.label@, padding: self.padding, on_press: self.on_press }
    }
}

impl Button {
    /// The same button, sending `message` when pressed.
    pub fn on_press(self, message: Message) -> (button: Button)
        ensures
            button@ == (ButtonView { on_press: Some(message), ..self@ }),
    {
        Button { label: self.label, padding: self.padding, on_press: Some(message) }
    }
}

/// A button captioned `text`, with the viewer's padding, that sends nothing
/// yet.
pub fn button(text: &str) -> (button: Button)
    ensures
        button@ == (ButtonView { label: text@, padding: BUTTON_PADDING, on_press: None }),
{
    Button { label: text.to_owned(), padding: BUTTON_PADDING, on_press: None }
}

/// A quote as it is shown: its text, and beside it the line that names the
/// author.
#[derive(Debug, PartialEq, Eq)]
pub struct Quotation {
    pub content: String,
    pub attribution: String,
}

/// A [`Quotation`] with its two lines as sequences of characters.
pub struct QuotationView {
    pub content: Seq<char>,
    pub attribution: Seq<char>,
}

impl View for Quotation {
    type V = QuotationView;

    open spec fn view(&self) -> QuotationView {
        QuotationView { content: self.content@, attribution: self.attribution@ }
    }
}

/// What the window holds.
#[derive(Debug, PartialEq, Eq)]
pub enum Screen {
    /// A notice that a fetch is under way. There is nothing to press.
    Searching { notice: String },
    /// A quote, and a button to ask for another.
    Found { quotation: Quotation, action: Button },
    /// A notice that the fetch failed, and a button to try again.
    Failed { notice: String, action: Button },
}

/// A [`Screen`] with its texts as sequences of characters.
pub enum ScreenView {
    Searching { notice: Seq<char> },
    Found { quotation: QuotationView, action: ButtonView },
    Failed { notice: Seq<char>, action: ButtonView },
}

impl View for Screen {
    type V = ScreenView;

    open spec fn view(&self) -> ScreenView {
        match *self {
            Screen::Searching { notice } => ScreenView::Searching { notice: notice@ },
            Screen::Found { quotation, action } => ScreenView::Found {
                quotation: quotation@,
                action: action@,
            },
            Screen::Failed { notice, action } => ScreenView::Failed {
                notice: notice@,
                action: action@,
            },
        }
    }
}

} // verus!
