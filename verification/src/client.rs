//! The browser client's side of the API: the addresses it requests, and
//! the message it shows for a failed request.

use vstd::prelude::*;
use crate::model::{opt_text, BookQuery};
use crate::text::{decimal, int_text, joined};

verus! {

/// The `name=value` part for a filter that is given and not empty.
pub open spec fn url_param(name: Seq<char>, value: Option<Seq<char>>) -> Seq<Seq<char>> {
    match value {
        Some(v) => if v.len() > 0 {
            seq![name + "="@ + v]
        } else {
            Seq::empty()
        },
        None => Seq::empty(),
    }
}

/// The query string made of `parts`: `?` before the first, `&` between.
pub open spec fn query_string(parts: Seq<Seq<char>>) -> Seq<char>
    decreases parts.len(),
{
    if parts.len() == 0 {
        Seq::empty()
    } else if parts.len() == 1 {
        "?"@ + parts[0]
    } else {
        query_string(parts.drop_last()) + "&"@ + parts.last()
    }
}

/// The filters of a book query, in the order the address lists them.
pub open spec fn book_query_params(q: BookQuery) -> Seq<Seq<char>> {
    url_param("search"@, opt_text(q.search)) + url_param("genre"@, opt_text(q.genre)) + url_param(
        "sort"@,
        opt_text(q.sort),
    )
}

/// Appends one `name=value` part to an address, keeping track of the parts.
fn push_param(url: &mut String, parts: Ghost<Seq<Seq<char>>>, first: bool, name: &str, value: &str)
    requires
        old(url)@ == "/api/books"@ + query_string(parts@),
        first == (parts@.len() == 0),
    ensures
        final(url)@ == "/api/books"@ + query_string(parts@.push(name@ + "="@ + value@)),
{
    let part = joined(name, "=").concat(value);
    assert(parts@.push(part@).drop_last() =~= parts@);
    if first {
        url.append("?");
        url.append(part.as_str());
    } else {
        url.append("&");
        url.append(part.as_str());
    }
}

/// The address that lists books with the given filters; a filter that is
/// absent or empty is left out.
pub fn books_url(query: &BookQuery) -> (res: String)
    ensures
        res@ == "/api/books"@ + query_string(book_query_params(*query)),
{
    let mut url: String = "/api/books".to_owned();
    let mut first = true;
    let ghost mut parts: Seq<Seq<char>> = Seq::empty();
    assert(url@ == "/api/books"@ + query_string(parts) && first == (parts.len() == 0)) by {
        assert("/api/books"@ + Seq::<char>::empty() == "/api/books"@);
    }
    if let Some(s) = &query.search {
        if !s.as_str().is_empty() {
            push_param(&mut url, Ghost(parts), first, "search", s.as_str());
            first = false;
            proof {
                parts = parts.push("search"@ + "="@ + s@);
            }
        }
    }
    assert(parts == url_param("search"@, opt_text(query.search)));
    let ghost after_search = parts;
    if let Some(g) = &query.genre {
        if !g.as_str().is_empty() {
            push_param(&mut url, Ghost(parts), first, "genre", g.as_str());
            first = false;
            proof {
                parts = parts.push("genre"@ + "="@ + g@);
            }
        }
    }
    assert(parts == after_search + url_param("genre"@, opt_text(query.genre)));
    let ghost after_genre = parts;
    if let Some(o) = &query.sort {
        if !o.as_str().is_empty() {
            push_param(&mut url, Ghost(parts), first, "sort", o.as_str());
            first = false;
            proof {
                parts = parts.push("sort"@ + "="@ + o@);
            }
        }
    }
    assert(parts == after_genre + url_param("sort"@, opt_text(query.sort)));
    url
}

/// The address of one book.
pub fn book_url(id: i64) -> (res: String)
    ensures
        res@ == "/api/books/"@ + decimal(id as int),
{
    let n = int_text(id);
    joined("/api/books/", n.as_str())
}

/// The address of one author.
pub fn author_url(id: i64) -> (res: String)
    ensures
        res@ == "/api/authors/"@ + decimal(id as int),
{
    let n = int_text(id);
    joined("/api/authors/", n.as_str())
}

/// The text of the `error` member of the JSON object that `body` holds,
/// when `body` is JSON with such a member and that member is a string.
pub uninterp spec fn error_field(body: Seq<char>) -> Option<Seq<char>>;

/// `serde_json::from_str::<serde_json::Value>`, then `Value::get("error")`
/// and `Value::as_str`: the string member `error` of the JSON object that
/// `body` holds, if any.
#[verifier::external_body]
fn json_error_member(body: &str) -> (res: Option<String>)
    ensures
        opt_text(res) == error_field(body@),
{
    match serde_json::from_str::<serde_json::Value>(body) {
        Ok(v) => v.get("error").and_then(|e| e.as_str()).map(|m| m.to_string()),
        Err(_) => None,
    }
}

/// The message shown for a failed request: the server's `error` member, or
/// the status when the answer carries none.
pub open spec fn failure_message(body: Seq<char>, status: u16) -> Seq<char> {
    match error_field(body) {
        Some(m) => m,
        None => "Request failed with status "@ + decimal(status as int),
    }
}

/// The message shown for a failed request with the given body and status.
pub fn error_message(body: &str, status: u16) -> (res: String)
    ensures
        res@ == failure_message(body@, status),
{
    match json_error_member(body) {
        Some(m) => m,
        None => {
            let n = int_text(status as i64);
            joined("Request failed with status ", n.as_str())
        },
    }
}

} // verus!

verus! {

/// The list address names each filter that is given and not empty, as
/// `name=value`, in the order search, genre, sort; it names no other.
pub proof fn lemma_list_address_names_given_filters(q: BookQuery)
    ensures
        book_query_params(q).len() == (if q.search matches Some(s) && s@.len() > 0 {
            1int
        } else {
            0int
        }) + (if q.genre matches Some(g) && g@.len() > 0 {
            1int
        } else {
            0int
        }) + (if q.sort matches Some(o) && o@.len() > 0 {
            1int
        } else {
            0int
        }),
        q.search matches Some(s) ==> (s@.len() > 0 ==> book_query_params(q)[0] == "search"@ + "="@
            + s@),
        q.sort matches Some(o) ==> (o@.len() > 0 ==> book_query_params(q).last() == "sort"@ + "="@
            + o@),
        book_query_params(q).len() == 0 ==> query_string(book_query_params(q)).len() == 0,
        book_query_params(q).len() == 1 ==> query_string(book_query_params(q)) == "?"@
            + book_query_params(q)[0],
{
}

/// A failed request shows the server's `error` text when there is one, and
/// otherwise names the status.
pub proof fn lemma_failure_message(body: Seq<char>, status: u16)
    ensures
        error_field(body) matches Some(m) ==> failure_message(body, status) == m,
        error_field(body) is None ==> failure_message(body, status) == "Request failed with status "@
            + decimal(status as int),
{
}

} // verus!
