//! Reading the store from the JSON text of a quote file: an object whose
//! member `quotes` is an array of objects, each with the string members
//! `quote` and `author`.

use vstd::prelude::*;
use vstd::string::StringExecFns;
use crate::clock::Timestamp;
use crate::quote::{Quote, QuoteView};
use crate::selector::{store_view, CurrentQuote, SelectorView};

verus! {

/// `serde_json::Value`, whose inside is read through `json_model` alone.
#[verifier::external_type_specification]
#[verifier::external_body]
pub struct ExJsonValue(serde_json::Value);

/// `serde_json::Error`, of which nothing is read.
#[verifier::external_type_specification]
#[verifier::external_body]
pub struct ExJsonError(serde_json::Error);

/// A JSON value as contracts see it. A number's value is left out: nothing
/// here reads it.
pub enum Json {
    Null,
    Bool(bool),
    Number,
    Text(Seq<char>),
    Array(Seq<Json>),
    Object(Map<Seq<char>, Json>),
}

impl Json {
    /// What indexing by a key gives: the member under that key of an
    /// object, and null for anything else.
    pub open spec fn member(self, key: Seq<char>) -> Json {
        match self {
            Json::Object(members) => if members.contains_key(key) {
                members[key]
            } else {
                Json::Null
            },
            _ => Json::Null,
        }
    }

    /// The characters of a string, nothing for any other value.
    pub open spec fn text(self) -> Option<Seq<char>> {
        match self {
            Json::Text(s) => Some(s),
            _ => None,
        }
    }
}

/// The JSON value that `serde_json::from_slice` reads from a text, where it
/// reads one.
pub uninterp spec fn json_parse(bytes: Seq<u8>) -> Option<Json>;

/// What a `serde_json::Value` holds.
pub uninterp spec fn json_model(v: serde_json::Value) -> Json;

/// What each of some values holds, in their order.
pub open spec fn models_of(items: Seq<serde_json::Value>) -> Seq<Json> {
    Seq::new(items.len(), |i: int| json_model(items[i]))
}

/// Why a quote file gives no store.
#[derive(Clone, Copy, Debug, PartialEq, Eq, Structural)]
pub enum LoadError {
    /// The text is not JSON.
    InvalidJson,
    /// The document has no array under `quotes`.
    MissingQuotes,
    /// An element of the array is not an object.
    EntryNotObject,
    /// An element has no string under `quote`.
    BadQuote,
    /// An element has no string under `author`.
    BadAuthor,
    /// The array is empty.
    NoQuotes,
}

/// The quotation that one element of the array stands for, or what is wrong
/// with the element: that it is no object, else that `quote` is no string,
/// else that `author` is none.
pub open spec fn entry_of(v: Json) -> Result<QuoteView, LoadError> {
    if !(v is Object) {
        Err(LoadError::EntryNotObject)
    } else {
        match v.member("quote"@).text() {
            None => Err(LoadError::BadQuote),
            Some(text) => match v.member("author"@).text() {
                None => Err(LoadError::BadAuthor),
                Some(author) => Ok(QuoteView { text, author }),
            },
        }
    }
}

/// The quotations that the elements stand for, in their order, or what is
/// wrong with the first element that stands for none.
pub open spec fn entries_of(items: Seq<Json>) -> Result<Seq<QuoteView>, LoadError>
    decreases items.len(),
{
    if items.len() == 0 {
        Ok(Seq::empty())
    } else {
        match entries_of(items.drop_last()) {
            Err(e) => Err(e),
            Ok(head) => match entry_of(items.last()) {
                Err(e) => Err(e),
                Ok(q) => Ok(head.push(q)),
            },
        }
    }
}

/// The store that a JSON document holds: the quotations of the array under
/// `quotes`, which is not empty.
pub open spec fn quotes_of(doc: Json) -> Result<Seq<QuoteView>, LoadError> {
    match doc.member("quotes"@) {
        Json::Array(items) => match entries_of(items) {
            Err(e) => Err(e),
            Ok(quotes) => if quotes.len() == 0 {
                Err(LoadError::NoQuotes)
            } else {
                Ok(quotes)
            },
        },
        _ => Err(LoadError::MissingQuotes),
    }
}

/// The store that the text of a quote file holds.
pub open spec fn quotes_of_text(bytes: Seq<u8>) -> Result<Seq<QuoteView>, LoadError> {
    match json_parse(bytes) {
        None => Err(LoadError::InvalidJson),
        Some(doc) => quotes_of(doc),
    }
}

/// `serde_json::from_slice` at the type `serde_json::Value`: the value read
/// from a JSON text, or the crate's error. The contract claims only that
/// the outcome depends on the bytes alone, by giving it a name.
#[verifier::external_body]
fn parse_value(bytes: &[u8]) -> (r: Result<serde_json::Value, serde_json::Error>)
    ensures
        match r {
            Ok(v) => json_parse(bytes@) == Some(json_model(v)),
            Err(_) => json_parse(bytes@) is None,
        },
{
    serde_json::from_slice::<serde_json::Value>(bytes)
}

/// Indexing a `serde_json::Value` by a string: the member under that key of
/// an object, and the null value for an object without that key and for
/// anything that is no object.
#[verifier::external_body]
fn value_member<'a>(v: &'a serde_json::Value, key: &str) -> (m: &'a serde_json::Value)
    ensures
        json_model(*m) == json_model(*v).member(key@),
{
    &v[key]
}

/// `serde_json::Value::as_array`: the elements of an array, in their order;
/// nothing for any other value.
#[verifier::external_body]
fn value_items(v: &serde_json::Value) -> (items: Option<&Vec<serde_json::Value>>)
    ensures
        match items {
            Some(a) => json_model(*v) == Json::Array(models_of(a@)),
            None => !(json_model(*v) is Array),
        },
{
    v.as_array()
}

/// `serde_json::Value::is_object`: whether the value is an object.
#[verifier::external_body]
fn value_is_object(v: &serde_json::Value) -> (b: bool)
    ensures
        b == (json_model(*v) is Object),
{
    v.is_object()
}

/// `serde_json::Value::as_str`: the characters of a string, nothing for any
/// other value.
#[verifier::external_body]
fn value_text(v: &serde_json::Value) -> (text: Option<&str>)
    ensures
        match text {
            Some(s) => json_model(*v) == Json::Text(s@),
            None => !(json_model(*v) is Text),
        },
{
    v.as_str()
}

/// The quotation that one element of the array stands for.
pub fn quote_from_entry(entry: &serde_json::Value) -> (r: Result<Quote, LoadError>)
    ensures
        match r {
            Ok(q) => entry_of(json_model(*entry)) == Ok::<QuoteView, LoadError>(q@),
            Err(e) => entry_of(json_model(*entry)) == Err::<QuoteView, LoadError>(e),
        },
{
    if !value_is_object(entry) {
        return Err(LoadError::EntryNotObject);
    }
    let text = match value_text(value_member(entry, "quote")) {
        Some(s) => s,
        None => {
            return Err(LoadError::BadQuote);
        },
    };
    let author = match value_text(value_member(entry, "author")) {
        Some(s) => s,
        None => {
            return Err(LoadError::BadAuthor);
        },
    };
    Ok(Quote::new(text, author))
}

/// The store that a JSON document holds.
pub fn quotes_from_value(doc: &serde_json::Value) -> (r: Result<Vec<Quote>, LoadError>)
    ensures
        match r {
            Ok(quotes) => quotes_of(json_model(*doc)) == Ok::<Seq<QuoteView>, LoadError>(
                store_view(quotes@),
            ),
            Err(e) => quotes_of(json_model(*doc)) == Err::<Seq<QuoteView>, LoadError>(e),
        },
{
    let items = match value_items(value_member(doc, "quotes")) {
        Some(items) => items,
        None => {
            return Err(LoadError::MissingQuotes);
        },
    };
    let ghost models = models_of(items@);
    let mut quotes: Vec<Quote> = Vec::new();
    let mut i: usize = 0;
    assert(models.take(0) =~= Seq::empty());
    assert(store_view(quotes@) =~= Seq::empty());
    while i < items.len()
        invariant
            i <= items.len(),
            models == models_of(items@),
            json_model(*doc).member("quotes"@) == Json::Array(models),
            entries_of(models.take(i as int)) == Ok::<Seq<QuoteView>, LoadError>(
                store_view(quotes@),
            ),
        decreases items.len() - i,
    {
        proof {
            assert(models.take(i + 1).drop_last() =~= models.take(i as int));
            assert(models.take(i + 1).last() == json_model(items@[i as int]));
        }
        match quote_from_entry(&items[i]) {
            Ok(q) => {
                let ghost before = store_view(quotes@);
                quotes.push(q);
                assert(store_view(quotes@) =~= before.push(q@));
            },
            Err(e) => {
                proof {
                    lemma_error_stays(models, i + 1);
                }
                return Err(e);
            },
        }
        i += 1;
    }
    assert(models.take(i as int) =~= models);
    if quotes.len() == 0 {
        Err(LoadError::NoQuotes)
    } else {
        Ok(quotes)
    }
}

/// The store that the text of a quote file holds.
pub fn load_quotes(bytes: &[u8]) -> (r: Result<Vec<Quote>, LoadError>)
    ensures
        match r {
            Ok(quotes) => quotes_of_text(bytes@) == Ok::<Seq<QuoteView>, LoadError>(
                store_view(quotes@),
            ),
            Err(e) => quotes_of_text(bytes@) == Err::<Seq<QuoteView>, LoadError>(e),
        },
{
    match parse_value(bytes) {
        Ok(doc) => quotes_from_value(&doc),
        Err(_) => Err(LoadError::InvalidJson),
    }
}

/// The selector at startup at `now`, from the text of a quote file: the
/// first quotation of the file is current.
pub fn startup(bytes: &[u8], now: Timestamp) -> (r: Result<CurrentQuote, LoadError>)
    ensures
        match r {
            Ok(s) => s.wf() && quotes_of_text(bytes@) == Ok::<Seq<QuoteView>, LoadError>(s@.store)
                && s@ == SelectorView::initial(s@.store, now),
            Err(e) => quotes_of_text(bytes@) == Err::<Seq<QuoteView>, LoadError>(e),
        },
{
    match load_quotes(bytes) {
        Ok(quotes) => match CurrentQuote::new(quotes, now) {
            Some(s) => Ok(s),
            None => Err(LoadError::NoQuotes),
        },
        Err(e) => Err(e),
    }
}

/// Once a prefix of the elements gives an error, every longer prefix gives
/// the same one.
pub proof fn lemma_error_stays(items: Seq<Json>, n: int)
    requires
        0 <= n <= items.len(),
        entries_of(items.take(n)) is Err,
    ensures
        entries_of(items) == entries_of(items.take(n)),
    decreases items.len() - n,
{
    if n < items.len() {
        assert(items.take(n + 1).drop_last() =~= items.take(n));
        lemma_error_stays(items, n + 1);
    } else {
        assert(items.take(n) =~= items);
    }
}

/// A store that was read is never empty, it has a quotation for each
/// element of the array, in the array's order, and each element is an
/// object with strings under `quote` and `author`.
pub proof fn lemma_entries_in_order(items: Seq<Json>)
    requires
        entries_of(items) is Ok,
    ensures
        entries_of(items).unwrap().len() == items.len(),
        forall|i: int|
            0 <= i < items.len() ==> entry_of(#[trigger] items[i]) == Ok::<QuoteView, LoadError>(
                entries_of(items).unwrap()[i],
            ),
    decreases items.len(),
{
    if items.len() > 0 {
        let head = items.drop_last();
        lemma_entries_in_order(head);
        assert forall|i: int| 0 <= i < items.len() implies entry_of(#[trigger] items[i]) == Ok::<
            QuoteView,
            LoadError,
        >(entries_of(items).unwrap()[i]) by {
            if i < head.len() {
                assert(items[i] == head[i]);
            } else {
                assert(items[i] == items.last());
            }
        }
    }
}

/// A file with an element that is no object, or that has no string under
/// `quote` or under `author`, gives no store: no quotation is made up for
/// such an element, and none of the others is served.
pub proof fn lemma_bad_entry_gives_no_store(bytes: Seq<u8>, doc: Json, items: Seq<Json>, i: int)
    requires
        json_parse(bytes) == Some(doc),
        doc.member("quotes"@) == Json::Array(items),
        0 <= i < items.len(),
        !(items[i] is Object) || items[i].member("quote"@).text() is None || items[i].member(
            "author"@,
        ).text() is None,
    ensures
        entry_of(items[i]) is Err,
        entries_of(items) is Err,
        quotes_of(doc) is Err,
        quotes_of_text(bytes) is Err,
{
    if entries_of(items) is Ok {
        lemma_entries_in_order(items);
    }
}

/// Every quotation of a store that was read has the body and the author
/// that its element of the array holds as strings under `quote` and
/// `author`.
pub proof fn lemma_store_holds_what_the_file_holds(doc: Json, items: Seq<Json>, i: int)
    requires
        doc.member("quotes"@) == Json::Array(items),
        quotes_of(doc) is Ok,
        0 <= i < items.len(),
    ensures
        quotes_of(doc).unwrap().len() == items.len(),
        items[i] is Object,
        items[i].member("quote"@) == Json::Text(quotes_of(doc).unwrap()[i].text),
        items[i].member("author"@) == Json::Text(quotes_of(doc).unwrap()[i].author),
{
    lemma_entries_in_order(items);
}

} // verus!
