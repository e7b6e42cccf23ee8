//! The decisions that the book requests take between their database steps:
//! what a new or changed book is stored as, and which failures answer a
//! request.

use vstd::prelude::*;
use crate::error::{
    fails_with, missing_message, missing_text, not_found, AppError, DbFailure, ErrorKind, Resource,
};
use crate::model::{opt_text, Book, BookWithAuthor, CreateBook, UpdateBook};
use crate::text::{contains_text, occurs_in, trim, trim_opt, trimmed_owned};
use crate::statements::{
    book_insert_statement, book_update_statement, book_values, insert_sql, update_sql, values_of,
    BookStatement, SqlValueView,
};
use crate::validation::{
    book_fields_problem, lemma_checks_ignore_surrounding_space, validate_book_fields,
};

verus! {

/// The values that a book row is written with.
#[derive(Debug, Clone, PartialEq)]
pub struct BookFields {
    pub title: String,
    pub author_id: i64,
    pub isbn: Option<String>,
    pub published_year: Option<i32>,
    pub genre: Option<String>,
    pub rating: Option<i32>,
    pub cover_url: Option<String>,
    pub description: Option<String>,
}

/// The abstract content of `BookFields`.
pub struct BookFieldsView {
    pub title: Seq<char>,
    pub author_id: i64,
    pub isbn: Option<Seq<char>>,
    pub published_year: Option<i32>,
    pub genre: Option<Seq<char>>,
    pub rating: Option<i32>,
    pub cover_url: Option<Seq<char>>,
    pub description: Option<Seq<char>>,
}

impl View for BookFields {
    type V = BookFieldsView;

    open spec fn view(&self) -> BookFieldsView {
        BookFieldsView {
            title: self.title@,
            author_id: self.author_id,
            isbn: opt_text(self.isbn),
            published_year: self.published_year,
            genre: opt_text(self.genre),
            rating: self.rating,
            cover_url: opt_text(self.cover_url),
            description: opt_text(self.description),
        }
    }
}

/// The fields that a stored book holds.
pub open spec fn fields_of(b: Book) -> BookFieldsView {
    BookFieldsView {
        title: b.title@,
        author_id: b.author_id,
        isbn: opt_text(b.isbn),
        published_year: b.published_year,
        genre: opt_text(b.genre),
        rating: b.rating,
        cover_url: opt_text(b.cover_url),
        description: opt_text(b.description),
    }
}

/// What a new book is written with: the request's values, texts trimmed.
pub open spec fn inserted_fields(input: CreateBook) -> BookFieldsView {
    BookFieldsView {
        title: trim(input.title@),
        author_id: input.author_id,
        isbn: trim_opt(opt_text(input.isbn)),
        published_year: input.published_year,
        genre: trim_opt(opt_text(input.genre)),
        rating: input.rating,
        cover_url: trim_opt(opt_text(input.cover_url)),
        description: trim_opt(opt_text(input.description)),
    }
}

/// A field of an update: the given text trimmed, or the stored one.
pub open spec fn merge_text(given: Option<String>, stored: Option<String>) -> Option<Seq<char>> {
    match given {
        Some(v) => Some(trim(v@)),
        None => opt_text(stored),
    }
}

/// A field of an update: the given value, or the stored one.
pub open spec fn merge_value<T>(given: Option<T>, stored: T) -> T {
    match given {
        Some(v) => v,
        None => stored,
    }
}

/// An optional field of an update: the given value, or the stored one.
pub open spec fn merge_opt<T>(given: Option<T>, stored: Option<T>) -> Option<T> {
    match given {
        Some(v) => Some(v),
        None => stored,
    }
}

/// What a changed book is written with: each field the update gives
/// (texts trimmed), every other field as stored.
pub open spec fn merged_fields(b: Book, u: UpdateBook) -> BookFieldsView {
    BookFieldsView {
        title: match u.title {
            Some(t) => trim(t@),
            None => b.title@,
        },
        author_id: merge_value(u.author_id, b.author_id),
        isbn: merge_text(u.isbn, b.isbn),
        published_year: merge_opt(u.published_year, b.published_year),
        genre: merge_text(u.genre, b.genre),
        rating: merge_opt(u.rating, b.rating),
        cover_url: merge_text(u.cover_url, b.cover_url),
        description: merge_text(u.description, b.description),
    }
}

/// The first rule that the fields of a book break.
pub open spec fn fields_problem(f: BookFieldsView) -> Option<Seq<char>> {
    book_fields_problem(f.title, f.rating, f.isbn)
}

/// The first rule that a creation request breaks.
pub open spec fn create_problem(input: CreateBook) -> Option<Seq<char>> {
    book_fields_problem(input.title@, input.rating, opt_text(input.isbn))
}

fn trim_opt_text(s: &Option<String>) -> (res: Option<String>)
    ensures
        opt_text(res) == trim_opt(opt_text(*s)),
{
    match s {
        Some(v) => Some(trimmed_owned(v.as_str())),
        None => None,
    }
}

fn merge_opt_text(given: &Option<String>, stored: &Option<String>) -> (res: Option<String>)
    ensures
        opt_text(res) == merge_text(*given, *stored),
{
    match given {
        Some(v) => Some(trimmed_owned(v.as_str())),
        None => match stored {
            Some(s) => Some(s.clone()),
            None => None,
        },
    }
}

/// A new book whose request passed the checks: the fields it will be
/// written with, and the author to look up before it is written.
#[derive(Debug)]
pub struct BookInsertPlan {
    fields: BookFields,
    author_id: i64,
}

impl BookInsertPlan {
    /// The fields the book will be written with.
    pub closed spec fn planned_fields(&self) -> BookFieldsView {
        self.fields@
    }

    /// The author to look up before the book is written.
    pub closed spec fn planned_author(&self) -> i64 {
        self.author_id
    }

    /// The author to look up before the book is written.
    pub fn author_to_check(&self) -> (res: i64)
        ensures
            res == self.planned_author(),
    {
        self.author_id
    }
}

/// The first step of creating a book: the request's title, rating and ISBN
/// are checked before anything is asked of the database; a request that
/// passes is planned with its trimmed fields and its author to look up.
pub fn plan_new_book(input: &CreateBook) -> (res: Result<BookInsertPlan, AppError>)
    ensures
        match create_problem(*input) {
            Some(m) => fails_with(res, ErrorKind::BadRequest, m),
            None => res matches Ok(p) && p.planned_fields() == inserted_fields(*input)
                && p.planned_author() == input.author_id,
        },
{
    let isbn = match &input.isbn {
        Some(i) => Some(i.as_str()),
        None => None,
    };
    match validate_book_fields(input.title.as_str(), input.rating, isbn) {
        Err(e) => Err(e),
        Ok(()) => Ok(BookInsertPlan { fields: book_insert_fields(input), author_id: input.author_id }),
    }
}

/// The second step of creating a book, once its author was looked up: a
/// missing author refuses the request; otherwise the statement that writes
/// the planned fields. Only a plan, so only a request that passed the
/// checks, reaches this step, and only this step gives the statement.
pub fn insert_after_author_lookup(plan: BookInsertPlan, author_found: bool) -> (res: Result<
    BookStatement,
    AppError,
>)
    ensures
        !author_found ==> fails_with(
            res,
            ErrorKind::BadRequest,
            missing_message(Resource::Author, plan.planned_author() as int),
        ),
        author_found ==> (res matches Ok(st) && st.sql@ == insert_sql() && values_of(st)
            == book_values(plan.planned_fields())),
{
    match author_check(plan.author_id, author_found) {
        Err(e) => Err(e),
        Ok(()) => Ok(book_insert_statement(&plan.fields)),
    }
}

/// The step after the author of a new or moved book was looked up: a
/// missing author refuses the request.
pub fn author_check(author_id: i64, found: bool) -> (res: Result<(), AppError>)
    ensures
        found ==> res is Ok,
        !found ==> fails_with(res, ErrorKind::BadRequest, missing_message(Resource::Author, author_id as int)),
{
    if found {
        Ok(())
    } else {
        Err(AppError::BadRequest(missing_text(Resource::Author, author_id)))
    }
}

/// What a new book is written with once its author was found.
pub fn book_insert_fields(input: &CreateBook) -> (res: BookFields)
    ensures
        res@ == inserted_fields(*input),
{
    BookFields {
        title: trimmed_owned(input.title.as_str()),
        author_id: input.author_id,
        isbn: trim_opt_text(&input.isbn),
        published_year: input.published_year,
        genre: trim_opt_text(&input.genre),
        rating: input.rating,
        cover_url: trim_opt_text(&input.cover_url),
        description: trim_opt_text(&input.description),
    }
}

/// What a change to a stored book writes: the fields it gives, trimmed,
/// over the stored ones.
pub fn merge_book_update(existing: &Book, input: &UpdateBook) -> (res: BookFields)
    ensures
        res@ == merged_fields(*existing, *input),
{
    let title = match &input.title {
        Some(t) => trimmed_owned(t.as_str()),
        None => existing.title.clone(),
    };
    let author_id = match input.author_id {
        Some(a) => a,
        None => existing.author_id,
    };
    let published_year = match input.published_year {
        Some(v) => Some(v),
        None => existing.published_year,
    };
    let rating = match input.rating {
        Some(v) => Some(v),
        None => existing.rating,
    };
    BookFields {
        title,
        author_id,
        isbn: merge_opt_text(&input.isbn, &existing.isbn),
        published_year,
        genre: merge_opt_text(&input.genre, &existing.genre),
        rating,
        cover_url: merge_opt_text(&input.cover_url, &existing.cover_url),
        description: merge_opt_text(&input.description, &existing.description),
    }
}

/// A change to a book that passed the checks: the book it is for, the
/// fields it will be written with, and the author to look up first when the
/// change names one.
#[derive(Debug, Clone, PartialEq)]
pub struct BookUpdatePlan {
    id: i64,
    fields: BookFields,
    author_to_check: Option<i64>,
}

impl BookUpdatePlan {
    /// The book the change is for.
    pub closed spec fn planned_id(&self) -> i64 {
        self.id
    }

    /// The fields the book will be written with.
    pub closed spec fn planned_fields(&self) -> BookFieldsView {
        self.fields@
    }

    /// The author to look up first, when the change moves the book.
    pub closed spec fn planned_author(&self) -> Option<i64> {
        self.author_to_check
    }

    /// The fields the book will be written with.
    pub fn fields(&self) -> (res: &BookFields)
        ensures
            res@ == self.planned_fields(),
    {
        &self.fields
    }

    /// The author to look up first, when the change moves the book.
    pub fn author_to_check(&self) -> (res: Option<i64>)
        ensures
            res == self.planned_author(),
    {
        self.author_to_check
    }
}

/// The step after the book to change was looked up: a missing book is not
/// found; otherwise the merged fields are checked, and the change names the
/// author to look up when it moves the book to one.
pub fn plan_book_update(id: i64, existing: Option<Book>, input: &UpdateBook) -> (res: Result<
    BookUpdatePlan,
    AppError,
>)
    ensures
        match existing {
            None => fails_with(res, ErrorKind::NotFound, missing_message(Resource::Book, id as int)),
            Some(b) => match fields_problem(merged_fields(b, *input)) {
                Some(m) => fails_with(res, ErrorKind::BadRequest, m),
                None => res matches Ok(p) && p.planned_fields() == merged_fields(b, *input)
                    && p.planned_author() == input.author_id && p.planned_id() == id,
            },
        },
{
    match existing {
        None => Err(not_found(Resource::Book, id)),
        Some(b) => {
            let fields = merge_book_update(&b, input);
            let isbn = match &fields.isbn {
                Some(i) => Some(i.as_str()),
                None => None,
            };
            let checked = validate_book_fields(fields.title.as_str(), fields.rating, isbn);
            match checked {
                Err(e) => Err(e),
                Ok(()) => Ok(BookUpdatePlan { id, fields, author_to_check: input.author_id }),
            }
        },
    }
}

/// The last step before a change is written, once the author it moves the
/// book to was looked up (`author_found` is ignored when it moves none): a
/// missing author refuses the change; otherwise the statement that writes
/// the planned fields to the planned book.
pub fn update_after_author_lookup(plan: BookUpdatePlan, author_found: bool) -> (res: Result<
    BookStatement,
    AppError,
>)
    ensures
        match plan.planned_author() {
            Some(a) if !author_found => fails_with(
                res,
                ErrorKind::BadRequest,
                missing_message(Resource::Author, a as int),
            ),
            _ => res matches Ok(st) && st.sql@ == update_sql() && values_of(st) == book_values(
                plan.planned_fields(),
            ).push(SqlValueView::Integer(plan.planned_id() as int)),
        },
{
    if let Some(a) = plan.author_to_check {
        if let Err(e) = author_check(a, author_found) {
            return Err(e);
        }
    }
    Ok(book_update_statement(plan.id, &plan.fields))
}

/// Whether a failure is the database refusing a second book with the same
/// ISBN: its own message names a `UNIQUE` constraint.
pub open spec fn is_duplicate(f: DbFailure) -> bool {
    f.database_message matches Some(m) && occurs_in("UNIQUE"@, m@)
}

/// The last step of creating or changing a book: the written row is the
/// answer; a duplicate ISBN is the client's error, any other failure ours.
pub fn book_write_result(written: Result<Book, DbFailure>) -> (res: Result<Book, AppError>)
    ensures
        match written {
            Ok(b) => res == Ok::<Book, AppError>(b),
            Err(f) => if is_duplicate(f) {
                fails_with(res, ErrorKind::BadRequest, "A book with this ISBN already exists"@)
            } else {
                fails_with(res, ErrorKind::Internal, f.description@)
            },
        },
{
    match written {
        Ok(b) => Ok(b),
        Err(f) => {
            let dup = match &f.database_message {
                Some(m) => contains_text(m.as_str(), "UNIQUE"),
                None => false,
            };
            if dup {
                Err(AppError::BadRequest("A book with this ISBN already exists".to_owned()))
            } else {
                Err(AppError::Internal(f.description))
            }
        },
    }
}

/// The answer for a lookup: the record, or not found.
pub fn found<T>(r: Resource, id: i64, row: Option<T>) -> (res: Result<T, AppError>)
    ensures
        match row {
            Some(v) => res == Ok::<T, AppError>(v),
            None => fails_with(res, ErrorKind::NotFound, missing_message(r, id as int)),
        },
{
    match row {
        Some(v) => Ok(v),
        None => Err(not_found(r, id)),
    }
}

/// The answer for a deletion: not found when it removed no row.
pub fn deletion_result(r: Resource, id: i64, rows_affected: u64) -> (res: Result<(), AppError>)
    ensures
        rows_affected > 0 ==> res is Ok,
        rows_affected == 0 ==> fails_with(res, ErrorKind::NotFound, missing_message(r, id as int)),
{
    if rows_affected == 0 {
        Err(not_found(r, id))
    } else {
        Ok(())
    }
}

/// A row of the books-with-authors query.
#[derive(Debug, Clone, PartialEq)]
pub struct BookWithAuthorRow {
    pub id: i64,
    pub title: String,
    pub author_id: i64,
    pub isbn: Option<String>,
    pub published_year: Option<i32>,
    pub genre: Option<String>,
    pub rating: Option<i32>,
    pub cover_url: Option<String>,
    pub description: Option<String>,
    pub created_at: String,
    pub author_name: String,
}

impl BookWithAuthorRow {
    /// The book of the row, with its author's name beside it.
    pub fn into_book_with_author(self) -> (res: BookWithAuthor)
        ensures
            res.book.id == self.id,
            res.book.title == self.title,
            res.book.author_id == self.author_id,
            res.book.isbn == self.isbn,
            res.book.published_year == self.published_year,
            res.book.genre == self.genre,
            res.book.rating == self.rating,
            res.book.cover_url == self.cover_url,
            res.book.description == self.description,
            res.book.created_at == self.created_at,
            res.author_name == self.author_name,
    {
        BookWithAuthor {
            book: Book {
                id: self.id,
                title: self.title,
                author_id: self.author_id,
                isbn: self.isbn,
                published_year: self.published_year,
                genre: self.genre,
                rating: self.rating,
                cover_url: self.cover_url,
                description: self.description,
                created_at: self.created_at,
            },
            author_name: self.author_name,
        }
    }
}


/// A change that gives no field.
pub open spec fn no_change() -> UpdateBook {
    UpdateBook {
        title: None,
        author_id: None,
        isbn: None,
        published_year: None,
        genre: None,
        rating: None,
        cover_url: None,
        description: None,
    }
}

/// A change that gives no field writes the book back as it is stored.
pub proof fn lemma_empty_update_keeps_book(b: Book)
    ensures
        merged_fields(b, no_change()) == fields_of(b),
{
}

/// A book stored from an accepted creation request passes the checks again
/// when a change leaves every field as it is: what creation writes (the
/// request's texts, trimmed) breaks no rule that the request did not break.
pub proof fn lemma_created_book_passes_update(input: CreateBook, b: Book)
    requires
        create_problem(input) is None,
        fields_of(b) == inserted_fields(input),
    ensures
        fields_problem(merged_fields(b, no_change())) is None,
{
    lemma_checks_ignore_surrounding_space(input.title@, input.rating, opt_text(input.isbn));
}

} // verus!

verus! {

/// A new book is written with what its request gives: each text with the
/// white space around it removed (absent exactly when the request leaves it
/// out), the author, year and rating as given.
pub proof fn lemma_creation_writes_request(input: CreateBook)
    ensures
        inserted_fields(input).title == trim(input.title@),
        inserted_fields(input).author_id == input.author_id,
        inserted_fields(input).published_year == input.published_year,
        inserted_fields(input).rating == input.rating,
        inserted_fields(input).isbn is None <==> input.isbn is None,
        inserted_fields(input).genre is None <==> input.genre is None,
        inserted_fields(input).cover_url is None <==> input.cover_url is None,
        inserted_fields(input).description is None <==> input.description is None,
        input.isbn matches Some(v) ==> inserted_fields(input).isbn == Some(trim(v@)),
        input.genre matches Some(v) ==> inserted_fields(input).genre == Some(trim(v@)),
        input.cover_url matches Some(v) ==> inserted_fields(input).cover_url == Some(trim(v@)),
        input.description matches Some(v) ==> inserted_fields(input).description == Some(
            trim(v@),
        ),
{
}

/// A change writes each field it gives (texts trimmed) and keeps every
/// field it leaves out as stored.
pub proof fn lemma_update_writes_given_fields(b: Book, u: UpdateBook)
    ensures
        u.title matches Some(t) ==> merged_fields(b, u).title == trim(t@),
        u.title is None ==> merged_fields(b, u).title == b.title@,
        u.author_id matches Some(a) ==> merged_fields(b, u).author_id == a,
        u.author_id is None ==> merged_fields(b, u).author_id == b.author_id,
        u.published_year is Some ==> merged_fields(b, u).published_year == u.published_year,
        u.published_year is None ==> merged_fields(b, u).published_year == b.published_year,
        u.rating is Some ==> merged_fields(b, u).rating == u.rating,
        u.rating is None ==> merged_fields(b, u).rating == b.rating,
        u.isbn matches Some(v) ==> merged_fields(b, u).isbn == Some(trim(v@)),
        u.isbn is None ==> merged_fields(b, u).isbn == opt_text(b.isbn),
        u.genre matches Some(v) ==> merged_fields(b, u).genre == Some(trim(v@)),
        u.genre is None ==> merged_fields(b, u).genre == opt_text(b.genre),
        u.cover_url matches Some(v) ==> merged_fields(b, u).cover_url == Some(trim(v@)),
        u.cover_url is None ==> merged_fields(b, u).cover_url == opt_text(b.cover_url),
        u.description matches Some(v) ==> merged_fields(b, u).description == Some(trim(v@)),
        u.description is None ==> merged_fields(b, u).description == opt_text(b.description),
{
}

/// The checks of a creation request are the book rules applied to its
/// title, rating and ISBN as given; those of a change, to the merged values.
pub proof fn lemma_which_values_are_checked(input: CreateBook, b: Book, u: UpdateBook)
    ensures
        create_problem(input) == book_fields_problem(input.title@, input.rating, opt_text(input.isbn)),
        fields_problem(merged_fields(b, u)) == book_fields_problem(
            merged_fields(b, u).title,
            merged_fields(b, u).rating,
            merged_fields(b, u).isbn,
        ),
{
}

/// A write failure is a duplicate exactly when the database's own message
/// contains `UNIQUE`.
pub proof fn lemma_duplicate_meaning(f: DbFailure)
    ensures
        is_duplicate(f) <==> (f.database_message matches Some(m) && exists|k: int|
            0 <= k && k + 6 <= m@.len() && #[trigger] m@.subrange(k, k + 6) == "UNIQUE"@),
{
    reveal_strlit("UNIQUE");
    assert("UNIQUE"@.len() == 6);
    if let Some(m) = f.database_message {
        if occurs_in("UNIQUE"@, m@) {
            let k = choose|k: int| 0 <= k && k + "UNIQUE"@.len() <= m@.len()
                && #[trigger] m@.subrange(k, k + "UNIQUE"@.len()) == "UNIQUE"@;
            assert(m@.subrange(k, k + 6) == "UNIQUE"@);
        }
        if exists|k: int| 0 <= k && k + 6 <= m@.len() && #[trigger] m@.subrange(k, k + 6) == "UNIQUE"@ {
            let k = choose|k: int| 0 <= k && k + 6 <= m@.len() && #[trigger] m@.subrange(k, k + 6)
                == "UNIQUE"@;
            assert(m@.subrange(k, k + "UNIQUE"@.len()) == "UNIQUE"@);
        }
    }
}

} // verus!
