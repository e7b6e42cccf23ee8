//! The query that lists books: the text search over title, author name and
//! ISBN, the genre filter, and the sort order.

use vstd::prelude::*;
use crate::model::{opt_text, BookQuery};
use crate::text::{joined, lemma_trim_idempotent, same_text, trim, trim_opt, trimmed};

verus! {

/// The columns of a book listed with its author's name.
pub open spec fn list_columns() -> Seq<char> {
    "SELECT b.id, b.title, b.author_id, b.isbn, b.published_year, b.genre, b.rating, b.cover_url, b.description, b.created_at, a.name as author_name FROM books b JOIN authors a ON b.author_id = a.id"@
}

/// A filter that takes part in the query: given, and not blank once trimmed.
pub open spec fn active_filter(f: Option<Seq<char>>) -> Option<Seq<char>> {
    match f {
        Some(s) => if trim(s).len() > 0 {
            Some(trim(s))
        } else {
            None
        },
        None => None,
    }
}

/// The ordering each sort key selects; the newest books come first when
/// the key is absent or unknown.
pub open spec fn order_clause(sort: Option<Seq<char>>) -> Seq<char> {
    if sort == Some("title"@) {
        " ORDER BY b.title ASC"@
    } else if sort == Some("title_desc"@) {
        " ORDER BY b.title DESC"@
    } else if sort == Some("rating"@) {
        " ORDER BY b.rating DESC NULLS LAST"@
    } else if sort == Some("year"@) {
        " ORDER BY b.published_year DESC NULLS LAST"@
    } else {
        " ORDER BY b.created_at DESC"@
    }
}

/// The SQL text of the listing for the given filters.
pub open spec fn list_sql(search: Option<Seq<char>>, genre: Option<Seq<char>>, sort: Option<
    Seq<char>,
>) -> Seq<char> {
    let base = list_columns() + " WHERE 1=1"@;
    let with_search = if active_filter(search) is Some {
        base + " AND (b.title LIKE ? OR a.name LIKE ? OR b.isbn LIKE ?)"@
    } else {
        base
    };
    let with_genre = if active_filter(genre) is Some {
        with_search + " AND b.genre = ?"@
    } else {
        with_search
    };
    with_genre + order_clause(sort)
}

/// The pattern that matches any text containing `s`.
pub open spec fn like_pattern(s: Seq<char>) -> Seq<char> {
    "%"@ + s + "%"@
}

/// The values bound to the listing's placeholders, in order: the search
/// pattern once for each searched column, then the genre.
pub open spec fn list_binds(search: Option<Seq<char>>, genre: Option<Seq<char>>) -> Seq<Seq<char>> {
    let searched = match active_filter(search) {
        Some(s) => seq![like_pattern(s), like_pattern(s), like_pattern(s)],
        None => Seq::empty(),
    };
    match active_filter(genre) {
        Some(g) => searched.push(g),
        None => searched,
    }
}

/// A query to run: its SQL text and the values of its placeholders.
#[derive(Debug, Clone, PartialEq)]
pub struct BookListQuery {
    pub sql: String,
    pub binds: Vec<String>,
}

/// The filter's trimmed text when it takes part in the query.
fn active_text(f: &Option<String>) -> (res: Option<String>)
    ensures
        opt_text(res) == active_filter(opt_text(*f)),
{
    match f {
        Some(s) => {
            let t = trimmed(s.as_str());
            if t.is_empty() {
                None
            } else {
                Some(t.to_owned())
            }
        },
        None => None,
    }
}

/// The listing query for the given filters.
pub fn book_list_query(params: &BookQuery) -> (res: BookListQuery)
    ensures
        res.sql@ == list_sql(opt_text(params.search), opt_text(params.genre), opt_text(params.sort)),
        res.binds.deep_view() == list_binds(opt_text(params.search), opt_text(params.genre)),
{
    let mut sql: String = joined(
        "SELECT b.id, b.title, b.author_id, b.isbn, b.published_year, b.genre, b.rating, b.cover_url, b.description, b.created_at, a.name as author_name FROM books b JOIN authors a ON b.author_id = a.id",
        " WHERE 1=1",
    );
    let mut binds: Vec<String> = Vec::new();
    assert(binds.deep_view() == Seq::<Seq<char>>::empty());
    if let Some(s) = active_text(&params.search) {
        sql.append(" AND (b.title LIKE ? OR a.name LIKE ? OR b.isbn LIKE ?)");
        let pattern = joined("%", s.as_str()).concat("%");
        binds.push(pattern.clone());
        binds.push(pattern.clone());
        binds.push(pattern);
    }
    if let Some(g) = active_text(&params.genre) {
        sql.append(" AND b.genre = ?");
        binds.push(g);
    }
    let order = match &params.sort {
        Some(s) => if same_text(s.as_str(), "title") {
            " ORDER BY b.title ASC"
        } else if same_text(s.as_str(), "title_desc") {
            " ORDER BY b.title DESC"
        } else if same_text(s.as_str(), "rating") {
            " ORDER BY b.rating DESC NULLS LAST"
        } else if same_text(s.as_str(), "year") {
            " ORDER BY b.published_year DESC NULLS LAST"
        } else {
            " ORDER BY b.created_at DESC"
        },
        None => " ORDER BY b.created_at DESC",
    };
    sql.append(order);
    assert(binds.deep_view() == list_binds(opt_text(params.search), opt_text(params.genre)));
    BookListQuery { sql, binds }
}

} // verus!

verus! {

/// The sort order depends on the sort key alone: whatever the search and
/// genre, the listing ends with the ordering the key selects.
pub proof fn lemma_sort_key_decides_order(
    search: Option<Seq<char>>,
    genre: Option<Seq<char>>,
    sort: Option<Seq<char>>,
)
    ensures
        sort == Some("title"@) ==> (" ORDER BY b.title ASC"@).is_suffix_of(
            list_sql(search, genre, sort),
        ),
        sort == Some("title_desc"@) ==> (" ORDER BY b.title DESC"@).is_suffix_of(
            list_sql(search, genre, sort),
        ),
        sort == Some("rating"@) ==> (" ORDER BY b.rating DESC NULLS LAST"@).is_suffix_of(
            list_sql(search, genre, sort),
        ),
        sort == Some("year"@) ==> (" ORDER BY b.published_year DESC NULLS LAST"@).is_suffix_of(
            list_sql(search, genre, sort),
        ),
        sort != Some("title"@) && sort != Some("title_desc"@) && sort != Some("rating"@) && sort
            != Some("year"@) ==> (" ORDER BY b.created_at DESC"@).is_suffix_of(
            list_sql(search, genre, sort),
        ),
{
    reveal_strlit("title");
    reveal_strlit("title_desc");
    reveal_strlit("rating");
    reveal_strlit("year");
    let all = list_sql(search, genre, sort);
    let o = order_clause(sort);
    let head = all.subrange(0, all.len() - o.len());
    assert(all == head + o);
    assert(all.subrange(all.len() - o.len(), all.len() as int) == o);
    if sort == Some("title"@) {
    } else if sort == Some("title_desc"@) {
        assert("title"@ != "title_desc"@) by {
            assert("title"@.len() != "title_desc"@.len());
        }
    } else if sort == Some("rating"@) {
        assert("rating"@ != "title"@) by {
            assert("rating"@[0] != "title"@[0]);
        }
        assert("rating"@ != "title_desc"@) by {
            assert("rating"@[0] != "title_desc"@[0]);
        }
    } else if sort == Some("year"@) {
        assert("year"@ != "title"@) by {
            assert("year"@[0] != "title"@[0]);
        }
        assert("year"@ != "title_desc"@) by {
            assert("year"@[0] != "title_desc"@[0]);
        }
        assert("year"@ != "rating"@) by {
            assert("year"@[0] != "rating"@[0]);
        }
    }
}

/// Every listing starts with the columns and the always-true condition, and
/// the sort key changes neither the filters nor the bound values.
pub proof fn lemma_listing_parts(
    search: Option<Seq<char>>,
    genre: Option<Seq<char>>,
    sort: Option<Seq<char>>,
    other_sort: Option<Seq<char>>,
)
    ensures
        (list_columns() + " WHERE 1=1"@).is_prefix_of(list_sql(search, genre, sort)),
        list_sql(search, genre, sort).subrange(
            0,
            list_sql(search, genre, sort).len() - order_clause(sort).len(),
        ) == list_sql(search, genre, other_sort).subrange(
            0,
            list_sql(search, genre, other_sort).len() - order_clause(other_sort).len(),
        ),
{
    let a = list_sql(search, genre, sort);
    let b = list_sql(search, genre, other_sort);
    let base = list_columns() + " WHERE 1=1"@;
    let with_search = if active_filter(search) is Some {
        base + " AND (b.title LIKE ? OR a.name LIKE ? OR b.isbn LIKE ?)"@
    } else {
        base
    };
    let filters = if active_filter(genre) is Some {
        with_search + " AND b.genre = ?"@
    } else {
        with_search
    };
    assert(a == filters + order_clause(sort));
    assert(b == filters + order_clause(other_sort));
    assert(a.subrange(0, a.len() - order_clause(sort).len()) == filters);
    assert(b.subrange(0, b.len() - order_clause(other_sort).len()) == filters);
    assert(a.subrange(0, base.len() as int) == base);
}

/// Searching and filtering ignore white space around the text, a blank text
/// is no filter, and a search binds the pattern that matches text containing
/// it, once for each searched column, before the genre.
pub proof fn lemma_filters(search: Option<Seq<char>>, genre: Option<Seq<char>>, sort: Option<Seq<char>>)
    ensures
        list_sql(trim_opt(search), trim_opt(genre), sort) == list_sql(search, genre, sort),
        list_binds(trim_opt(search), trim_opt(genre)) == list_binds(search, genre),
        search matches Some(s) ==> (trim(s).len() == 0 ==> list_sql(search, genre, sort) == list_sql(
            None,
            genre,
            sort,
        ) && list_binds(search, genre) == list_binds(None, genre)),
        genre matches Some(g) ==> (trim(g).len() == 0 ==> list_sql(search, genre, sort) == list_sql(
            search,
            None,
            sort,
        ) && list_binds(search, genre) == list_binds(search, None)),
        list_binds(search, genre).len() == (if search matches Some(s) && trim(s).len() > 0 {
            3int
        } else {
            0int
        }) + (if genre matches Some(g) && trim(g).len() > 0 {
            1int
        } else {
            0int
        }),
        search matches Some(s) ==> (trim(s).len() > 0 ==> forall|k: int|
            0 <= k < 3 ==> #[trigger] list_binds(search, genre)[k] == "%"@ + trim(s) + "%"@),
        genre matches Some(g) ==> (trim(g).len() > 0 ==> list_binds(search, genre).last() == trim(
            g,
        )),
{
    if let Some(s) = search {
        lemma_trim_idempotent(s);
    }
    if let Some(g) = genre {
        lemma_trim_idempotent(g);
    }
    assert(active_filter(trim_opt(search)) == active_filter(search));
    assert(active_filter(trim_opt(genre)) == active_filter(genre));
}

} // verus!
