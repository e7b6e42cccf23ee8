//! The statements that write books: their SQL text and the values bound to
//! their placeholders, in order.

use vstd::prelude::*;
use crate::books::{BookFields, BookFieldsView};
use crate::text::joined;

verus! {

/// A value bound to a placeholder.
#[derive(Debug, Clone, PartialEq)]
pub enum SqlValue {
    Text(String),
    Integer(i64),
    Null,
}

/// The abstract content of a bound value.
pub enum SqlValueView {
    Text(Seq<char>),
    Integer(int),
    Null,
}

impl View for SqlValue {
    type V = SqlValueView;

    open spec fn view(&self) -> SqlValueView {
        match self {
            SqlValue::Text(s) => SqlValueView::Text(s@),
            SqlValue::Integer(n) => SqlValueView::Integer(*n as int),
            SqlValue::Null => SqlValueView::Null,
        }
    }
}

/// A statement to run: its SQL text and its bound values.
#[derive(Debug, Clone, PartialEq)]
pub struct BookStatement {
    pub sql: String,
    pub values: Vec<SqlValue>,
}

/// The bound values of a statement.
pub open spec fn values_of(s: BookStatement) -> Seq<SqlValueView> {
    s.values@.map_values(|v: SqlValue| v@)
}

/// An optional text as a bound value.
pub open spec fn text_or_null(t: Option<Seq<char>>) -> SqlValueView {
    match t {
        Some(s) => SqlValueView::Text(s),
        None => SqlValueView::Null,
    }
}

/// An optional number as a bound value.
pub open spec fn number_or_null(n: Option<i32>) -> SqlValueView {
    match n {
        Some(v) => SqlValueView::Integer(v as int),
        None => SqlValueView::Null,
    }
}

/// A book's values in the order of the columns both statements write.
pub open spec fn book_values(f: BookFieldsView) -> Seq<SqlValueView> {
    seq![
        SqlValueView::Text(f.title),
        SqlValueView::Integer(f.author_id as int),
        text_or_null(f.isbn),
        number_or_null(f.published_year),
        text_or_null(f.genre),
        number_or_null(f.rating),
        text_or_null(f.cover_url),
        text_or_null(f.description),
    ]
}

/// The columns that both statements return.
pub open spec fn returned_columns() -> Seq<char> {
    " RETURNING id, title, author_id, isbn, published_year, genre, rating, cover_url, description, created_at"@
}

/// The text of the statement that adds a book.
pub open spec fn insert_sql() -> Seq<char> {
    "INSERT INTO books (title, author_id, isbn, published_year, genre, rating, cover_url, description) VALUES (?, ?, ?, ?, ?, ?, ?, ?)"@
        + returned_columns()
}

/// The text of the statement that changes a book.
pub open spec fn update_sql() -> Seq<char> {
    "UPDATE books SET title = ?, author_id = ?, isbn = ?, published_year = ?, genre = ?, rating = ?, cover_url = ?, description = ? WHERE id = ?"@
        + returned_columns()
}

fn text_value(t: &Option<String>) -> (res: SqlValue)
    ensures
        res@ == text_or_null(match t {
            Some(s) => Some(s@),
            None => None,
        }),
{
    match t {
        Some(s) => SqlValue::Text(s.clone()),
        None => SqlValue::Null,
    }
}

fn number_value(n: Option<i32>) -> (res: SqlValue)
    ensures
        res@ == number_or_null(n),
{
    match n {
        Some(v) => SqlValue::Integer(v as i64),
        None => SqlValue::Null,
    }
}

fn field_values(f: &BookFields) -> (res: Vec<SqlValue>)
    ensures
        res@.map_values(|v: SqlValue| v@) == book_values(f@),
{
    let mut v: Vec<SqlValue> = Vec::new();
    v.push(SqlValue::Text(f.title.clone()));
    v.push(SqlValue::Integer(f.author_id));
    v.push(text_value(&f.isbn));
    v.push(number_value(f.published_year));
    v.push(text_value(&f.genre));
    v.push(number_value(f.rating));
    v.push(text_value(&f.cover_url));
    v.push(text_value(&f.description));
    assert(v@.map_values(|v: SqlValue| v@) =~= book_values(f@));
    v
}

/// The statement that adds a book with the given fields.
pub(crate) fn book_insert_statement(f: &BookFields) -> (res: BookStatement)
    ensures
        res.sql@ == insert_sql(),
        values_of(res) == book_values(f@),
{
    let sql = joined(
        "INSERT INTO books (title, author_id, isbn, published_year, genre, rating, cover_url, description) VALUES (?, ?, ?, ?, ?, ?, ?, ?)",
        " RETURNING id, title, author_id, isbn, published_year, genre, rating, cover_url, description, created_at",
    );
    BookStatement { sql, values: field_values(f) }
}

/// The statement that gives the book `id` the given fields.
pub(crate) fn book_update_statement(id: i64, f: &BookFields) -> (res: BookStatement)
    ensures
        res.sql@ == update_sql(),
        values_of(res) == book_values(f@).push(SqlValueView::Integer(id as int)),
{
    let sql = joined(
        "UPDATE books SET title = ?, author_id = ?, isbn = ?, published_year = ?, genre = ?, rating = ?, cover_url = ?, description = ? WHERE id = ?",
        " RETURNING id, title, author_id, isbn, published_year, genre, rating, cover_url, description, created_at",
    );
    let mut values = field_values(f);
    let ghost before = values@;
    values.push(SqlValue::Integer(id));
    assert(values@.map_values(|v: SqlValue| v@) =~= before.map_values(|v: SqlValue| v@).push(
        SqlValueView::Integer(id as int),
    ));
    BookStatement { sql, values }
}

} // verus!

verus! {

/// Both statements bind a book's values in the order their columns are
/// listed: title, author, ISBN, year, genre, rating, cover, description; an
/// absent value is bound as NULL. The change binds the book's id last.
pub proof fn lemma_values_follow_columns(f: BookFieldsView, id: i64)
    ensures
        book_values(f).len() == 8,
        book_values(f)[0] == SqlValueView::Text(f.title),
        book_values(f)[1] == SqlValueView::Integer(f.author_id as int),
        f.isbn matches Some(i) ==> book_values(f)[2] == SqlValueView::Text(i),
        f.isbn is None ==> book_values(f)[2] is Null,
        f.published_year matches Some(y) ==> book_values(f)[3] == SqlValueView::Integer(y as int),
        f.published_year is None ==> book_values(f)[3] is Null,
        f.genre matches Some(g) ==> book_values(f)[4] == SqlValueView::Text(g),
        f.genre is None ==> book_values(f)[4] is Null,
        f.rating matches Some(r) ==> book_values(f)[5] == SqlValueView::Integer(r as int),
        f.rating is None ==> book_values(f)[5] is Null,
        f.cover_url matches Some(c) ==> book_values(f)[6] == SqlValueView::Text(c),
        f.cover_url is None ==> book_values(f)[6] is Null,
        f.description matches Some(d) ==> book_values(f)[7] == SqlValueView::Text(d),
        f.description is None ==> book_values(f)[7] is Null,
        insert_sql() == "INSERT INTO books (title, author_id, isbn, published_year, genre, rating, cover_url, description) VALUES (?, ?, ?, ?, ?, ?, ?, ?)"@
            + " RETURNING id, title, author_id, isbn, published_year, genre, rating, cover_url, description, created_at"@,
        update_sql() == "UPDATE books SET title = ?, author_id = ?, isbn = ?, published_year = ?, genre = ?, rating = ?, cover_url = ?, description = ? WHERE id = ?"@
            + " RETURNING id, title, author_id, isbn, published_year, genre, rating, cover_url, description, created_at"@,
{
}

} // verus!
