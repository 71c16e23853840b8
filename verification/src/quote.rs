use crate::widget::{Quotation, QuotationView};
use vstd::prelude::*;
use vstd::string::*;

verus! {

/// The address that a fetch asks for a random quote.
pub const ENDPOINT: &'static str = "https://api.quotable.io/random";

/// A quote as a fetch brings it: what was said, and who said it.
#[derive(Debug, PartialEq, Eq)]
pub struct Quote {
    pub content: String,
    pub author: String,
}

impl Clone for Quote {
    /// A copy that holds the same two strings.
    fn clone(&self) -> (copy: Quote)
        ensures
            copy == *self,
    {
        Quote { content: self.content.clone(), author: self.author.clone() }
    }
}

impl Quote {
    /// How the quote is shown: its text as it is, and the author's name
    /// behind a dash.
    pub open spec fn quotation(self) -> QuotationView {
        QuotationView { content: self.content@, attribution: "-"@ + self.author@ }
    }

    /// The quote as it is shown.
    pub fn view(&self) -> (shown: Quotation)
        ensures
            shown@ == self.quotation(),
    {
        let mut attribution = "-".to_owned();
        attribution.append(self.author.as_str());
        Quotation { content: self.content.clone(), attribution }
    }
}

} // verus!
