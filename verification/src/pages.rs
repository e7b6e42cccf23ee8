//! The browser client's pages: the address of each page, which page an
//! address shows, and the text that the statistics page shows.

use vstd::prelude::*;
use vstd::string::StrSliceExecFns;
use crate::text::{
    chars_of, decimal, digits, i64_value, int_text, joined, lemma_decimal_reads_back, lemma_digits_spell,
    same_text,
};

verus! {

/// The address of the page at `prefix` for the record `id`.
pub open spec fn page_path(prefix: Seq<char>, id: int) -> Seq<char> {
    prefix + decimal(id)
}

/// The page of an author.
pub fn author_page_path(id: i64) -> (res: String)
    ensures
        res@ == "/authors/"@ + decimal(id as int),
{
    let n = int_text(id);
    joined("/authors/", n.as_str())
}

/// The page of a book.
pub fn book_page_path(id: i64) -> (res: String)
    ensures
        res@ == "/books/"@ + decimal(id as int),
{
    let n = int_text(id);
    joined("/books/", n.as_str())
}

/// The page that edits a book.
pub fn edit_book_path(id: i64) -> (res: String)
    ensures
        res@ == "/edit-book/"@ + decimal(id as int),
{
    let n = int_text(id);
    joined("/edit-book/", n.as_str())
}

/// The page that edits an author.
pub fn edit_author_path(id: i64) -> (res: String)
    ensures
        res@ == "/edit-author/"@ + decimal(id as int),
{
    let n = int_text(id);
    joined("/edit-author/", n.as_str())
}

/// The pages of the client; a page about one record carries the address's
/// last segment, which the page reads as the record's id.
#[derive(Debug, Clone, PartialEq)]
pub enum Page {
    Home,
    BookDetail(String),
    AddBook,
    EditBook(String),
    Authors,
    AuthorDetail(String),
    AddAuthor,
    EditAuthor(String),
    Stats,
    NotFound,
}

/// The abstract content of a page: which page, and its segment.
pub enum PageView {
    Home,
    BookDetail(Seq<char>),
    AddBook,
    EditBook(Seq<char>),
    Authors,
    AuthorDetail(Seq<char>),
    AddAuthor,
    EditAuthor(Seq<char>),
    Stats,
    NotFound,
}

impl View for Page {
    type V = PageView;

    open spec fn view(&self) -> PageView {
        match self {
            Page::Home => PageView::Home,
            Page::BookDetail(s) => PageView::BookDetail(s@),
            Page::AddBook => PageView::AddBook,
            Page::EditBook(s) => PageView::EditBook(s@),
            Page::Authors => PageView::Authors,
            Page::AuthorDetail(s) => PageView::AuthorDetail(s@),
            Page::AddAuthor => PageView::AddAuthor,
            Page::EditAuthor(s) => PageView::EditAuthor(s@),
            Page::Stats => PageView::Stats,
            Page::NotFound => PageView::NotFound,
        }
    }
}

/// The segment that follows `prefix` in `path`, when `path` is `prefix`
/// followed by one non-empty segment (no further `/`).
pub open spec fn segment_after(prefix: Seq<char>, path: Seq<char>) -> Option<Seq<char>> {
    if path.len() > prefix.len() && path.take(prefix.len() as int) == prefix && !path.skip(
        prefix.len() as int,
    ).contains('/') {
        Some(path.skip(prefix.len() as int))
    } else {
        None
    }
}

/// The page an address shows; any other address shows the not-found page.
pub open spec fn route_of(path: Seq<char>) -> PageView {
    if path == "/"@ {
        PageView::Home
    } else if path == "/add-book"@ {
        PageView::AddBook
    } else if path == "/authors"@ {
        PageView::Authors
    } else if path == "/add-author"@ {
        PageView::AddAuthor
    } else if path == "/stats"@ {
        PageView::Stats
    } else if segment_after("/books/"@, path) is Some {
        PageView::BookDetail(segment_after("/books/"@, path)->0)
    } else if segment_after("/edit-book/"@, path) is Some {
        PageView::EditBook(segment_after("/edit-book/"@, path)->0)
    } else if segment_after("/authors/"@, path) is Some {
        PageView::AuthorDetail(segment_after("/authors/"@, path)->0)
    } else if segment_after("/edit-author/"@, path) is Some {
        PageView::EditAuthor(segment_after("/edit-author/"@, path)->0)
    } else {
        PageView::NotFound
    }
}

/// The segment of `path` after `prefix`, as `segment_after` describes it.
fn segment_of(path: &str, prefix: &str) -> (res: Option<String>)
    ensures
        match res {
            Some(s) => segment_after(prefix@, path@) == Some(s@),
            None => segment_after(prefix@, path@) is None,
        },
{
    let p = chars_of(path);
    let q = chars_of(prefix);
    if p.len() <= q.len() {
        return None;
    }
    let mut i: usize = 0;
    while i < q.len()
        invariant
            p@ == path@,
            q@ == prefix@,
            q.len() < p.len(),
            i <= q.len(),
            forall|k: int| 0 <= k < i ==> p@[k] == q@[k],
        decreases q.len() - i,
    {
        if p[i] != q[i] {
            assert(path@.take(prefix@.len() as int)[i as int] != prefix@[i as int]);
            return None;
        }
        i = i + 1;
    }
    assert(path@.take(prefix@.len() as int) == prefix@);
    let mut j: usize = q.len();
    while j < p.len()
        invariant
            p@ == path@,
            q@ == prefix@,
            q.len() <= j <= p.len(),
            forall|k: int| q.len() <= k < j ==> p@[k] != '/',
        decreases p.len() - j,
    {
        if p[j] == '/' {
            assert(path@.skip(prefix@.len() as int)[j - q.len()] == '/');
            return None;
        }
        j = j + 1;
    }
    assert(!path@.skip(prefix@.len() as int).contains('/')) by {
        assert forall|k: int| 0 <= k < path@.skip(prefix@.len() as int).len() implies
            path@.skip(prefix@.len() as int)[k] != '/' by {
            assert(path@.skip(prefix@.len() as int)[k] == p@[k + q.len()]);
        }
    }
    let seg = path.substring_char(q.len(), p.len());
    assert(seg@ == path@.skip(prefix@.len() as int));
    Some(seg.to_owned())
}

/// The page an address shows.
pub fn route_page(path: &str) -> (res: Page)
    ensures
        res@ == route_of(path@),
{
    if same_text(path, "/") {
        return Page::Home;
    }
    if same_text(path, "/add-book") {
        return Page::AddBook;
    }
    if same_text(path, "/authors") {
        return Page::Authors;
    }
    if same_text(path, "/add-author") {
        return Page::AddAuthor;
    }
    if same_text(path, "/stats") {
        return Page::Stats;
    }
    if let Some(s) = segment_of(path, "/books/") {
        return Page::BookDetail(s);
    }
    if let Some(s) = segment_of(path, "/edit-book/") {
        return Page::EditBook(s);
    }
    if let Some(s) = segment_of(path, "/authors/") {
        return Page::AuthorDetail(s);
    }
    if let Some(s) = segment_of(path, "/edit-author/") {
        return Page::EditAuthor(s);
    }
    Page::NotFound
}

/// A total on the statistics page.
pub fn total_text(n: i64) -> (res: String)
    ensures
        res@ == decimal(n as int),
{
    int_text(n)
}

/// When a book was added, on the statistics page.
pub fn added_label(created_at: &str) -> (res: String)
    ensures
        res@ == "Added "@ + created_at@,
{
    joined("Added ", created_at)
}

} // verus!

verus! {

/// A decimal number holds no `/` and is never empty.
proof fn lemma_decimal_is_one_segment(n: int)
    ensures
        decimal(n).len() > 0,
        !decimal(n).contains('/'),
{
    let m: nat = if n < 0 {
        (-n) as nat
    } else {
        n as nat
    };
    lemma_digits_spell(m);
    let d = decimal(n);
    assert forall|k: int| 0 <= k < d.len() implies d[k] != '/' by {
        if n < 0 {
            if k > 0 {
                assert(d[k] == digits(m)[k - 1]);
            }
        } else {
            assert(d[k] == digits(m)[k]);
        }
    }
}

/// The links that pages build open the page of that record, and the page
/// reads the record's id back from its address.
pub proof fn lemma_links_open_their_page(id: i64)
    ensures
        route_of("/authors/"@ + decimal(id as int)) == PageView::AuthorDetail(decimal(id as int)),
        route_of("/books/"@ + decimal(id as int)) == PageView::BookDetail(decimal(id as int)),
        i64_value(decimal(id as int)) == Some(id),
{
    reveal_strlit("/");
    reveal_strlit("/add-book");
    reveal_strlit("/authors");
    reveal_strlit("/add-author");
    reveal_strlit("/stats");
    reveal_strlit("/books/");
    reveal_strlit("/edit-book/");
    reveal_strlit("/authors/");
    reveal_strlit("/edit-author/");
    lemma_decimal_is_one_segment(id as int);
    lemma_decimal_reads_back(id as int);
    let d = decimal(id as int);
    let a = "/authors/"@ + d;
    let b = "/books/"@ + d;
    assert(a[2] == 'u');
    assert(b[2] == 'o');
    assert(a.len() > 9 && b.len() > 7);
    assert(a.take(7)[1] == 'a');
    assert(a.take(7) != "/books/"@);
    if a.len() > 11 {
        assert(a.take(11)[2] == 'u');
        assert(a.take(11) != "/edit-book/"@);
    }
    assert(a.take(9) == "/authors/"@);
    assert(a.skip(9) == d);
    assert(b.take(7) == "/books/"@);
    assert(b.skip(7) == d);
}

} // verus!

verus! {

/// The fixed addresses show their pages.
pub proof fn lemma_fixed_pages()
    ensures
        route_of("/"@) == PageView::Home,
        route_of("/add-book"@) == PageView::AddBook,
        route_of("/authors"@) == PageView::Authors,
        route_of("/add-author"@) == PageView::AddAuthor,
        route_of("/stats"@) == PageView::Stats,
{
    reveal_strlit("/");
    reveal_strlit("/add-book");
    reveal_strlit("/authors");
    reveal_strlit("/add-author");
    reveal_strlit("/stats");
    assert("/add-book"@ != "/"@);
    assert("/authors"@ != "/"@ && "/authors"@ != "/add-book"@) by {
        assert("/authors"@[2] != "/add-book"@[2]);
    }
    assert("/add-author"@ != "/"@ && "/add-author"@ != "/add-book"@ && "/add-author"@
        != "/authors"@) by {
        assert("/add-author"@.len() != "/add-book"@.len());
        assert("/add-author"@[2] != "/authors"@[2]);
    }
    assert("/stats"@ != "/"@ && "/stats"@ != "/add-book"@ && "/stats"@ != "/authors"@ && "/stats"@
        != "/add-author"@) by {
        assert("/stats"@[1] != "/add-book"@[1]);
        assert("/stats"@[1] != "/authors"@[1]);
        assert("/stats"@[1] != "/add-author"@[1]);
    }
}

} // verus!
