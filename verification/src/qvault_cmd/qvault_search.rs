//! Web-search results and the paginated view over them: the result set with
//! its current position, the clamped navigation over it, and the parsing of
//! a search response body into a result set. The HTTP request itself is the
//! caller's concern; this module turns its outcome into values.
use vstd::prelude::*;

use crate::text::is_ws_char;

verus! {

/// What parsing `body` as JSON reports: `None` when the body is valid
/// JSON, and the parse error rendered as text otherwise — a function of
/// the body's characters alone, as `serde_json::from_str` and its error's
/// `Display` compute it.
pub uninterp spec fn json_err_of(body: Seq<char>) -> Option<Seq<char>>;

/// Relies on `serde_json::from_str::<Value>` and its error's `Display`:
/// the parse error rendered as text, if `body` is not valid JSON.
#[verifier::external_body]
pub(crate) fn json_parse_error(body: &str) -> (r: Option<String>)
    ensures
        r is Some <==> json_err_of(body@) is Some,
        r is Some ==> r->0@ == json_err_of(body@)->0,
{
    serde_json::from_str::<serde_json::Value>(body).err().map(|e| e.to_string())
}

/// The first search hit of a response body: the JSON-rendered `title` and
/// `url` members of `web.results[0]` (a string value keeps its quotes, a
/// missing member renders as `null`), if `body` is valid JSON holding a
/// nonempty `web.results` array — a function of the body's characters
/// alone.
pub uninterp spec fn first_hit_of(body: Seq<char>) -> Option<(Seq<char>, Seq<char>)>;

/// Relies on serde_json's `from_str`, `Value` indexing, `as_array`,
/// `first` and `Value`'s `Display`: the first hit of the response body, as
/// `first_hit_of` describes it.
#[verifier::external_body]
fn extract_first_hit(body: &str) -> (r: Option<(String, String)>)
    ensures
        r is Some <==> first_hit_of(body@) is Some,
        r is Some ==> (r->0).0@ == (first_hit_of(body@)->0).0 && (r->0).1@ == (first_hit_of(body@)->0).1,
{
    let v: serde_json::Value = serde_json::from_str(body).ok()?;
    let first = v["web"]["results"].as_array()?.first()?;
    Some((first["title"].to_string(), first["url"].to_string()))
}

/// One search hit: its title and its URL.
#[derive(Debug, Clone)]
pub struct SearchItem {
    pub title: String,
    pub url: String,
}

/// A search outcome: either an error with a status, or an ordered list of
/// hits together with the position the view currently shows.
#[derive(Debug, Clone)]
pub struct SearchResult {
    pub error: Option<String>,
    pub status: Option<u16>,
    pub items: Option<Vec<SearchItem>>,
    pub index: usize,
}

impl SearchResult {
    /// The position invariant: a valid index into a non-empty item list,
    /// and position 0 otherwise.
    pub open spec fn wf(self) -> bool {
        match self.items {
            Some(v) => if v@.len() > 0 {
                self.index < v@.len()
            } else {
                self.index == 0
            },
            None => self.index == 0,
        }
    }

    /// Whether there is at least one hit to show.
    pub open spec fn has_items(self) -> bool {
        self.items is Some && self.items->0@.len() > 0
    }

    /// A result set over the given hits, starting at the first.
    pub fn from_items(items: Vec<SearchItem>) -> (r: SearchResult)
        ensures
            r.wf(),
            r.error is None,
            r.status is None,
            r.items == Some(items),
            r.index == 0,
    {
        SearchResult { error: None, status: None, items: Some(items), index: 0 }
    }

    /// The rejection of an empty query, as the search collaborator reports
    /// it.
    pub fn empty_query_result() -> (r: SearchResult)
        ensures
            r.wf(),
            r.error is Some && r.error->0@ == "Search query cannot be empty."@,
            r.status == Some(400u16),
            r.items is None,
            r.index == 0,
    {
        SearchResult {
            error: Some(String::from_str("Search query cannot be empty.")),
            status: Some(400),
            items: None,
            index: 0,
        }
    }

    /// The rejection reported when no API key can be found.
    pub fn missing_key_result() -> (r: SearchResult)
        ensures
            r.wf(),
            r.error is Some && r.error->0@
                == "API key not found. Please set the 'BRAVE_SEARCH_API_KEY' environment variable or provide it in qvault.env."@,
            r.status == Some(401u16),
            r.items is None,
            r.index == 0,
    {
        SearchResult {
            error: Some(
                String::from_str(
                    "API key not found. Please set the 'BRAVE_SEARCH_API_KEY' environment variable or provide it in qvault.env.",
                ),
            ),
            status: Some(401),
            items: None,
            index: 0,
        }
    }

    /// The title of the hit at the current position, or the empty string
    /// when there is none.
    pub fn title(&self) -> (r: &str)
        requires
            self.wf(),
        ensures
            self.has_items() ==> r@ == self.items->0@[self.index as int].title@,
            !self.has_items() ==> r@ == ""@,
    {
        if let Some(items) = &self.items {
            if items.len() > 0 {
                return items[self.index].title.as_str();
            }
        }
        ""
    }

    /// The URL of the hit at the current position, or the default URL when
    /// there is none.
    pub fn url(&self) -> (r: &str)
        requires
            self.wf(),
        ensures
            self.has_items() ==> r@ == self.items->0@[self.index as int].url@,
            !self.has_items() ==> r@ == "https://google.com"@,
    {
        if let Some(items) = &self.items {
            if items.len() > 0 {
                return items[self.index].url.as_str();
            }
        }
        "https://google.com"
    }

    /// The body text of the hit at the current position — the hit carries
    /// no separate snippet, so its title stands in — or the default text
    /// when there is none.
    pub fn snippet(&self) -> (r: &str)
        requires
            self.wf(),
        ensures
            self.has_items() ==> r@ == self.items->0@[self.index as int].title@,
            !self.has_items() ==> r@ == "This is a snippet from the search result"@,
    {
        if let Some(items) = &self.items {
            if items.len() > 0 {
                return items[self.index].title.as_str();
            }
        }
        "This is a snippet from the search result"
    }

    /// How many hits there are.
    pub fn count(&self) -> (r: usize)
        ensures
            self.items is Some ==> r == self.items->0@.len(),
            self.items is None ==> r == 0,
    {
        if let Some(items) = &self.items {
            items.len()
        } else {
            0
        }
    }

    /// Moves the view one hit forward, staying put at the last hit: the
    /// position clamps at the end, it never wraps.
    pub fn next_item(&mut self)
        requires
            old(self).wf(),
        ensures
            final(self).wf(),
            final(self).error == old(self).error,
            final(self).status == old(self).status,
            final(self).items == old(self).items,
            final(self).index == (if old(self).has_items() && old(self).index + 1 < old(
                self,
            ).items->0@.len() {
                old(self).index + 1
            } else {
                old(self).index as int
            }),
    {
        if let Some(items) = &self.items {
            proof {
                assert(self.items->0 == *items);
            }
            let n = items.len();
            if self.index + 1 < n {
                self.index = self.index + 1;
            }
        }
    }

    /// Moves the view one hit back, staying put at the first hit: the
    /// position clamps at 0, it never wraps.
    pub fn prev_item(&mut self)
        requires
            old(self).wf(),
        ensures
            final(self).wf(),
            final(self).error == old(self).error,
            final(self).status == old(self).status,
            final(self).items == old(self).items,
            final(self).index == (if old(self).index > 0 {
                old(self).index - 1
            } else {
                0int
            }),
    {
        if self.index > 0 {
            self.index = self.index - 1;
        }
    }

    /// Interprets one navigation signal over the view: 0 stops the view, a
    /// positive signal moves one hit forward and a negative one one hit
    /// back, both clamped at the ends.
    pub fn apply_signal(&mut self, c: i16) -> (stop: bool)
        requires
            old(self).wf(),
        ensures
            final(self).wf(),
            final(self).error == old(self).error,
            final(self).status == old(self).status,
            final(self).items == old(self).items,
            stop == (c == 0),
            c == 0 ==> final(self).index == old(self).index,
            c > 0 ==> final(self).index == (if old(self).has_items() && old(self).index + 1 < old(
                self,
            ).items->0@.len() {
                old(self).index + 1
            } else {
                old(self).index as int
            }),
            c < 0 ==> final(self).index == (if old(self).index > 0 {
                old(self).index - 1
            } else {
                0int
            }),
    {
        if c == 0 {
            true
        } else {
            if c > 0 {
                self.next_item();
            } else {
                self.prev_item();
            }
            false
        }
    }
}

/// The query a search command carries: the first argument token, if there
/// is one — a search with no arguments calls no collaborator.
pub fn query_arg(args: &Vec<String>) -> (r: Option<&str>)
    ensures
        args@.len() == 0 ==> r is None,
        args@.len() > 0 ==> r is Some && r->0@ == args@[0]@,
{
    if args.len() == 0 {
        None
    } else {
        Some(args[0].as_str())
    }
}

/// A search error as the collaborator serializes it.
#[derive(Debug, Clone)]
pub struct SearchErrorResponse {
    pub error: String,
}

impl SearchErrorResponse {
    /// An error response carrying the given message.
    pub fn new(error: String) -> (r: SearchErrorResponse)
        ensures
            r.error == error,
    {
        SearchErrorResponse { error }
    }

    /// The error message.
    pub fn error(&self) -> (r: &str)
        ensures
            r@ == self.error@,
    {
        self.error.as_str()
    }
}

/// Whether a query is blank: empty, or whitespace alone — the queries the
/// search collaborator rejects without being called.
pub open spec fn spec_is_blank(s: Seq<char>) -> bool {
    forall|i: int| 0 <= i < s.len() ==> is_ws_char(s[i])
}

/// Decides `spec_is_blank`.
pub fn query_is_blank(q: &str) -> (r: bool)
    ensures
        r == spec_is_blank(q@),
{
    let n = q.unicode_len();
    let mut i: usize = 0;
    while i < n
        invariant
            n == q@.len(),
            i <= n,
            forall|j: int| 0 <= j < i ==> is_ws_char(q@[j]),
        decreases n - i,
    {
        if !crate::text::is_ws(q.get_char(i)) {
            return false;
        }
        i = i + 1;
    }
    true
}

/// Parses a search response body: the first hit under `web.results`
/// becomes a one-item result set with status 200, exactly when the body
/// holds one; a body that is not JSON is rejected with the parse error,
/// and valid JSON without a nonempty result array with the fixed message.
pub fn parse_search_response(body: &str) -> (r: Result<SearchResult, String>)
    ensures
        r is Ok <==> first_hit_of(body@) is Some,
        r is Ok ==> r->Ok_0.wf() && r->Ok_0.error is None && r->Ok_0.status == Some(200u16)
            && r->Ok_0.items is Some && r->Ok_0.items->0@.len() == 1 && r->Ok_0.index == 0,
        r is Ok ==> r->Ok_0.items->0@[0].title@ == (first_hit_of(body@)->0).0
            && r->Ok_0.items->0@[0].url@ == (first_hit_of(body@)->0).1,
        r is Err && json_err_of(body@) is Some ==> r->Err_0@ == "JSON parsing error: "@
            + json_err_of(body@)->0,
        r is Err && json_err_of(body@) is None ==> r->Err_0@ == "Invalid results format"@,
{
    match extract_first_hit(body) {
        Some((title, url)) => {
            let mut items: Vec<SearchItem> = Vec::new();
            items.push(SearchItem { title, url });
            Ok(SearchResult { error: None, status: Some(200), items: Some(items), index: 0 })
        },
        None => match json_parse_error(body) {
            Some(msg) => {
                let mut m = String::from_str("JSON parsing error: ");
                m.append(msg.as_str());
                Err(m)
            },
            None => Err(String::from_str("Invalid results format")),
        },
    }
}

} // verus!
