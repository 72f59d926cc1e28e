//! Quotations and the text that is sent for them.

use vstd::prelude::*;
use vstd::string::StringExecFns;

verus! {

/// The text sent for a quotation: the body between single quotes, a space,
/// a hyphen and the author, with nothing after it.
pub open spec fn formatted(text: Seq<char>, author: Seq<char>) -> Seq<char> {
    seq!['\''] + text + seq!['\'', ' ', '-'] + author
}

/// A quotation: its body and the author it is attributed to.
#[derive(Debug)]
pub struct Quote {
    pub text: String,
    pub author: String,
}

/// What a `Quote` is in contracts.
pub struct QuoteView {
    pub text: Seq<char>,
    pub author: Seq<char>,
}

impl View for Quote {
    type V = QuoteView;

    open spec fn view(&self) -> QuoteView {
        QuoteView { text: self.text@, author: self.author@ }
    }
}

impl QuoteView {
    /// The text sent for this quotation.
    pub open spec fn formatted(self) -> Seq<char> {
        formatted(self.text, self.author)
    }
}

impl Quote {
    /// A quotation with the given body and author.
    pub fn new(text: &str, author: &str) -> (q: Quote)
        ensures
            q@.text == text@,
            q@.author == author@,
    {
        Quote { text: String::from_str(text), author: String::from_str(author) }
    }

    /// The text sent for this quotation.
    pub fn to_string(&self) -> (out: String)
        ensures
            out@ == self@.formatted(),
    {
        let mut out = String::from_str("'");
        out.append(self.text.as_str());
        out.append("' -");
        out.append(self.author.as_str());
        proof {
            reveal_strlit("'");
            reveal_strlit("' -");
            assert("'"@ =~= seq!['\'']);
            assert("' -"@ =~= seq!['\'', ' ', '-']);
        }
        out
    }

}

impl Clone for Quote {
    /// A copy of this quotation.
    fn clone(&self) -> (q: Quote)
        ensures
            q@ == self@,
    {
        Quote { text: self.text.clone(), author: self.author.clone() }
    }
}

/// Formatting depends on the body and the author alone: two quotations with
/// the same body and the same author are sent as the same text.
pub proof fn lemma_format_is_function_of_fields(a: QuoteView, b: QuoteView)
    requires
        a.text == b.text,
        a.author == b.author,
    ensures
        a.formatted() == b.formatted(),
{
}

/// The text sent is never empty, and the body and the author can be read
/// back from it at fixed places.
pub proof fn lemma_format_layout(q: QuoteView)
    ensures
        q.formatted().len() == q.text.len() + q.author.len() + 4,
        q.formatted()[0] == '\'',
        q.formatted().subrange(1, 1 + q.text.len() as int) == q.text,
        q.formatted().subrange(4 + q.text.len() as int, q.formatted().len() as int) == q.author,
{
    assert(q.formatted().subrange(1, 1 + q.text.len() as int) =~= q.text);
    assert(q.formatted().subrange(4 + q.text.len() as int, q.formatted().len() as int) =~= q.author);
}

} // verus!
