//! The browser client's forms: what a filled-in form is sent as, the
//! message a form shows when it cannot be sent, and how a stored record
//! fills a form in.

use vstd::prelude::*;
use crate::error::Resource;
use crate::pages::{author_page_path, book_page_path};
use crate::toast::{Toast, ToastKind};
use crate::model::{
    opt_text, Author, Book, BookQuery, BookWithAuthor, CreateAuthor, CreateBook, UpdateAuthor, UpdateBook,
};
use crate::text::{
    decimal, i32_value, i64_value, int_text, joined, lemma_decimal_reads_back, parse_i32, parse_i64, trim,
    trimmed,
};

verus! {

/// The fields of the book form, as typed.
#[derive(Debug, Clone, PartialEq)]
pub struct BookFormFields {
    pub title: String,
    pub author_id: i64,
    pub isbn: String,
    pub published_year: String,
    pub genre: String,
    pub rating: i32,
    pub cover_url: String,
    pub description: String,
}

/// What a form is sent as: a new record, or a change to the record with the
/// given id.
#[derive(Debug, Clone, PartialEq)]
pub enum Submission<C, U> {
    Create(C),
    Update(i64, U),
}

/// The first rule that a filled-in book form breaks, as its message.
pub open spec fn book_form_problem(f: BookFormFields) -> Option<Seq<char>> {
    if trim(f.title@).len() == 0 {
        Some("Title is required"@)
    } else if f.author_id == 0 {
        Some("Please select an author"@)
    } else if f.rating < 0 || f.rating > 5 {
        Some("Rating must be between 0 and 5"@)
    } else if trim(f.published_year@).len() > 0 && i32_value(trim(f.published_year@)) is None {
        Some("Invalid year"@)
    } else {
        None
    }
}

/// The year a form gives: none when the field is blank.
pub open spec fn form_year(f: BookFormFields) -> Option<i32> {
    if trim(f.published_year@).len() == 0 {
        None
    } else {
        i32_value(trim(f.published_year@))
    }
}

/// An optional text that is absent when empty.
pub open spec fn unless_empty(s: Seq<char>) -> Option<Seq<char>> {
    if s.len() == 0 {
        None
    } else {
        Some(s)
    }
}

/// Whether `c` is the new book that form `f` describes: empty texts and a
/// zero rating left out.
pub open spec fn creates_from(c: CreateBook, f: BookFormFields) -> bool {
    &&& c.title@ == f.title@
    &&& c.author_id == f.author_id
    &&& opt_text(c.isbn) == unless_empty(f.isbn@)
    &&& c.published_year == form_year(f)
    &&& opt_text(c.genre) == unless_empty(f.genre@)
    &&& c.rating == (if f.rating == 0 {
        None
    } else {
        Some(f.rating)
    })
    &&& opt_text(c.cover_url) == unless_empty(f.cover_url@)
    &&& opt_text(c.description) == unless_empty(f.description@)
}

/// Whether `u` is the change that form `f` describes: every field given.
pub open spec fn updates_from(u: UpdateBook, f: BookFormFields) -> bool {
    &&& opt_text(u.title) == Some(f.title@)
    &&& u.author_id == Some(f.author_id)
    &&& opt_text(u.isbn) == Some(f.isbn@)
    &&& u.published_year == form_year(f)
    &&& opt_text(u.genre) == Some(f.genre@)
    &&& u.rating == Some(f.rating)
    &&& opt_text(u.cover_url) == Some(f.cover_url@)
    &&& opt_text(u.description) == Some(f.description@)
}

fn unless_empty_text(s: &String) -> (res: Option<String>)
    ensures
        opt_text(res) == unless_empty(s@),
{
    if s.as_str().is_empty() {
        None
    } else {
        Some(s.clone())
    }
}

/// What the book form is sent as: a new book, or a change to the book being
/// edited; or the message the form shows instead.
pub fn submit_book_form(fields: &BookFormFields, edit_id: Option<i64>) -> (res: Result<
    Submission<CreateBook, UpdateBook>,
    String,
>)
    ensures
        match book_form_problem(*fields) {
            Some(m) => res matches Err(e) && e@ == m,
            None => match edit_id {
                Some(id) => res matches Ok(Submission::Update(i, u)) && i == id && updates_from(
                    u,
                    *fields,
                ),
                None => res matches Ok(Submission::Create(c)) && creates_from(c, *fields),
            },
        },
{
    if trimmed(fields.title.as_str()).is_empty() {
        return Err("Title is required".to_owned());
    }
    if fields.author_id == 0 {
        return Err("Please select an author".to_owned());
    }
    if fields.rating < 0 || fields.rating > 5 {
        return Err("Rating must be between 0 and 5".to_owned());
    }
    let year_text = trimmed(fields.published_year.as_str());
    let year: Option<i32> = if year_text.is_empty() {
        None
    } else {
        match parse_i32(year_text) {
            Some(y) => Some(y),
            None => {
                return Err("Invalid year".to_owned());
            },
        }
    };
    match edit_id {
        Some(id) => Ok(
            Submission::Update(
                id,
                UpdateBook {
                    title: Some(fields.title.clone()),
                    author_id: Some(fields.author_id),
                    isbn: Some(fields.isbn.clone()),
                    published_year: year,
                    genre: Some(fields.genre.clone()),
                    rating: Some(fields.rating),
                    cover_url: Some(fields.cover_url.clone()),
                    description: Some(fields.description.clone()),
                },
            ),
        ),
        None => Ok(
            Submission::Create(
                CreateBook {
                    title: fields.title.clone(),
                    author_id: fields.author_id,
                    isbn: unless_empty_text(&fields.isbn),
                    published_year: year,
                    genre: unless_empty_text(&fields.genre),
                    rating: if fields.rating == 0 {
                        None
                    } else {
                        Some(fields.rating)
                    },
                    cover_url: unless_empty_text(&fields.cover_url),
                    description: unless_empty_text(&fields.description),
                },
            ),
        ),
    }
}

/// A text that is empty when absent.
pub open spec fn or_empty(s: Option<Seq<char>>) -> Seq<char> {
    match s {
        Some(t) => t,
        None => Seq::empty(),
    }
}

/// The book form filled in from a stored book: absent texts empty, the year
/// in decimal, an absent rating as zero.
pub open spec fn fills_from(f: BookFormFields, b: BookWithAuthor) -> bool {
    &&& f.title@ == b.book.title@
    &&& f.author_id == b.book.author_id
    &&& f.isbn@ == or_empty(opt_text(b.book.isbn))
    &&& f.published_year@ == (match b.book.published_year {
        Some(y) => decimal(y as int),
        None => Seq::empty(),
    })
    &&& f.genre@ == or_empty(opt_text(b.book.genre))
    &&& f.rating == (match b.book.rating {
        Some(r) => r,
        None => 0,
    })
    &&& f.cover_url@ == or_empty(opt_text(b.book.cover_url))
    &&& f.description@ == or_empty(opt_text(b.book.description))
}

fn or_empty_text(s: &Option<String>) -> (res: String)
    ensures
        res@ == or_empty(opt_text(*s)),
{
    match s {
        Some(t) => t.clone(),
        None => {
            proof {
                reveal_strlit("");
            }
            "".to_owned()
        },
    }
}

/// The book form filled in to edit a stored book.
pub fn book_form_fields(b: &BookWithAuthor) -> (res: BookFormFields)
    ensures
        fills_from(res, *b),
{
    let year = match b.book.published_year {
        Some(y) => int_text(y as i64),
        None => {
            proof {
                reveal_strlit("");
            }
            "".to_owned()
        },
    };
    assert(year@ == (match b.book.published_year {
        Some(y) => decimal(y as int),
        None => Seq::<char>::empty(),
    }));
    BookFormFields {
        title: b.book.title.clone(),
        author_id: b.book.author_id,
        isbn: or_empty_text(&b.book.isbn),
        published_year: year,
        genre: or_empty_text(&b.book.genre),
        rating: match b.book.rating {
            Some(r) => r,
            None => 0,
        },
        cover_url: or_empty_text(&b.book.cover_url),
        description: or_empty_text(&b.book.description),
    }
}

/// What the author form is sent as, or the message it shows instead: a
/// name that is blank once trimmed is refused; a new author leaves out an
/// empty biography; a change gives both fields.
pub fn submit_author_form(name: &String, bio: &String, edit_id: Option<i64>) -> (res: Result<
    Submission<CreateAuthor, UpdateAuthor>,
    String,
>)
    ensures
        trim(name@).len() == 0 ==> (res matches Err(e) && e@ == "Author name is required"@),
        trim(name@).len() > 0 ==> match edit_id {
            Some(id) => res matches Ok(Submission::Update(i, u)) && i == id && opt_text(u.name)
                == Some(name@) && opt_text(u.bio) == Some(bio@),
            None => res matches Ok(Submission::Create(c)) && c.name@ == name@ && opt_text(c.bio)
                == unless_empty(bio@),
        },
{
    if trimmed(name.as_str()).is_empty() {
        return Err("Author name is required".to_owned());
    }
    match edit_id {
        Some(id) => Ok(
            Submission::Update(id, UpdateAuthor { name: Some(name.clone()), bio: Some(bio.clone()) }),
        ),
        None => Ok(Submission::Create(CreateAuthor { name: name.clone(), bio: unless_empty_text(bio) })),
    }
}

/// The book list's filters as chosen on the page: an empty choice is no filter.
pub fn book_query_from_filters(search: &String, genre: &String, sort: &String) -> (res: BookQuery)
    ensures
        opt_text(res.search) == unless_empty(search@),
        opt_text(res.genre) == unless_empty(genre@),
        opt_text(res.sort) == unless_empty(sort@),
{
    BookQuery {
        search: unless_empty_text(search),
        genre: unless_empty_text(genre),
        sort: unless_empty_text(sort),
    }
}

/// The record being edited, from the page address's id: any number that
/// parses.
pub fn edit_id_param(param: Option<&str>) -> (res: Option<i64>)
    ensures
        res == match param {
            Some(p) => i64_value(p@),
            None => None,
        },
{
    match param {
        Some(p) => parse_i64(p),
        None => None,
    }
}

/// The record a detail page shows, from the page address's id: a positive
/// number; anything else (absent, unparsable, zero or negative) is no record.
pub fn detail_id_param(param: Option<&str>) -> (res: Option<i64>)
    ensures
        res == match param {
            Some(p) => match i64_value(p@) {
                Some(v) => if v > 0 {
                    Some(v)
                } else {
                    None
                },
                None => None,
            },
            None => None,
        },
{
    let id: i64 = match param {
        Some(p) => match parse_i64(p) {
            Some(v) => v,
            None => 0,
        },
        None => 0,
    };
    if id > 0 {
        Some(id)
    } else {
        None
    }
}

/// The author chosen in the book form's list: the option's id, or zero
/// (no author) when it does not parse.
pub fn author_choice(value: &str) -> (res: i64)
    ensures
        res == match i64_value(value@) {
            Some(v) => v,
            None => 0,
        },
{
    match parse_i64(value) {
        Some(v) => v,
        None => 0,
    }
}

/// The rating after a click on star `star`: clicking the current rating
/// clears it, any other star sets it.
pub open spec fn after_click(rating: i32, star: i32) -> i32 {
    if rating == star {
        0
    } else {
        star
    }
}

/// The star input's answer to a click on star `star`.
pub fn star_click(rating: i32, star: i32) -> (res: i32)
    ensures
        res == after_click(rating, star),
{
    if rating == star {
        0
    } else {
        star
    }
}

/// The label beside the star input.
pub fn rating_label(rating: i32) -> (res: String)
    ensures
        res@ == if rating == 0 {
            "No rating"@
        } else {
            decimal(rating as int) + "/5"@
        },
{
    if rating == 0 {
        "No rating".to_owned()
    } else {
        let n = int_text(rating as i64);
        joined(n.as_str(), "/5")
    }
}


/// Editing a book and saving the form unchanged is accepted, and sends the
/// book's own values back: its title, author and year as stored, its texts
/// as stored (empty when absent), its rating (zero when absent).
pub proof fn lemma_edit_form_round_trip(b: BookWithAuthor, f: BookFormFields, u: UpdateBook)
    requires
        fills_from(f, b),
        trim(b.book.title@).len() > 0,
        b.book.author_id != 0,
        b.book.rating matches Some(r) ==> 0 <= r <= 5,
        updates_from(u, f),
    ensures
        book_form_problem(f) is None,
        opt_text(u.title) == Some(b.book.title@),
        u.author_id == Some(b.book.author_id),
        u.published_year == b.book.published_year,
        opt_text(u.isbn) == Some(or_empty(opt_text(b.book.isbn))),
        opt_text(u.genre) == Some(or_empty(opt_text(b.book.genre))),
        u.rating == Some(
            match b.book.rating {
                Some(r) => r,
                None => 0i32,
            },
        ),
        opt_text(u.cover_url) == Some(or_empty(opt_text(b.book.cover_url))),
        opt_text(u.description) == Some(or_empty(opt_text(b.book.description))),
{
    match b.book.published_year {
        Some(y) => {
            lemma_decimal_reads_back(y as int);
            assert(decimal(y as int).len() > 0);
        },
        None => {
            assert(trim(Seq::<char>::empty()) == Seq::<char>::empty()) by {
                assert(Seq::<char>::empty().skip(0) == Seq::<char>::empty());
            }
        },
    }
}


/// The author form filled in to edit a stored author: the name, and the
/// biography (empty when absent).
pub fn author_form_fields(a: &Author) -> (res: (String, String))
    ensures
        res.0@ == a.name@,
        res.1@ == or_empty(opt_text(a.bio)),
{
    (a.name.clone(), or_empty_text(&a.bio))
}

/// The message a detail page shows when its address holds no usable id.
pub fn invalid_id_message(r: Resource) -> (res: String)
    ensures
        res@ == "Invalid "@ + match r {
            Resource::Author => "author"@,
            Resource::Book => "book"@,
        } + " ID"@,
{
    match r {
        Resource::Author => joined("Invalid ", "author").concat(" ID"),
        Resource::Book => joined("Invalid ", "book").concat(" ID"),
    }
}


/// Clicking a star twice leaves no rating when there was none, and clicking
/// the star of the current rating clears it.
pub proof fn lemma_second_click_clears(rating: i32, star: i32)
    requires
        star != 0,
    ensures
        after_click(after_click(0, star), star) == 0,
        after_click(star, star) == 0,
        rating != star ==> after_click(rating, star) == star,
{
}

} // verus!

verus! {

/// What a form does once its request is answered: the notice it shows, the
/// page it moves to, the error it shows, and whether it stays busy.
#[derive(Debug, Clone)]
pub struct AfterRequest {
    pub notice: Option<Toast>,
    pub navigate_to: Option<String>,
    pub error: Option<String>,
    pub submitting: bool,
}

/// The abstract content of a notice.
pub open spec fn notice_view(t: Option<Toast>) -> Option<(ToastKind, Seq<char>)> {
    match t {
        Some(n) => Some((n.kind, n.message@)),
        None => None,
    }
}

/// The author form after its request: on success a notice that the author
/// was created (or updated) and a move to the author's page, the form still
/// busy; on failure an error notice and the same error in the form, the form
/// free again.
pub fn author_form_result(editing: bool, result: Result<Author, String>) -> (res: AfterRequest)
    ensures
        match result {
            Ok(a) => {
                &&& notice_view(res.notice) == Some(
                    (
                        ToastKind::Success,
                        if editing {
                            "Author updated successfully"@
                        } else {
                            "Author created successfully"@
                        },
                    ),
                )
                &&& opt_text(res.navigate_to) == Some("/authors/"@ + decimal(a.id as int))
                &&& res.error is None
                &&& res.submitting
            },
            Err(e) => {
                &&& notice_view(res.notice) == Some((ToastKind::Error, e@))
                &&& res.navigate_to is None
                &&& opt_text(res.error) == Some(e@)
                &&& !res.submitting
            },
        },
{
    match result {
        Ok(a) => {
            let message = if editing {
                "Author updated successfully".to_owned()
            } else {
                "Author created successfully".to_owned()
            };
            AfterRequest {
                notice: Some(Toast { message, kind: ToastKind::Success }),
                navigate_to: Some(author_page_path(a.id)),
                error: None,
                submitting: true,
            }
        },
        Err(e) => AfterRequest {
            notice: Some(Toast { message: e.clone(), kind: ToastKind::Error }),
            navigate_to: None,
            error: Some(e),
            submitting: false,
        },
    }
}

/// The book form after its request: on success a move to the book's page,
/// the form still busy; on failure the error in the form, the form free
/// again. It shows no notice.
pub fn book_form_result(result: Result<Book, String>) -> (res: AfterRequest)
    ensures
        res.notice is None,
        match result {
            Ok(b) => {
                &&& opt_text(res.navigate_to) == Some("/books/"@ + decimal(b.id as int))
                &&& res.error is None
                &&& res.submitting
            },
            Err(e) => {
                &&& res.navigate_to is None
                &&& opt_text(res.error) == Some(e@)
                &&& !res.submitting
            },
        },
{
    match result {
        Ok(b) => AfterRequest {
            notice: None,
            navigate_to: Some(book_page_path(b.id)),
            error: None,
            submitting: true,
        },
        Err(e) => AfterRequest { notice: None, navigate_to: None, error: Some(e), submitting: false },
    }
}

} // verus!

verus! {

/// The book form can be sent exactly when its title is not blank, an
/// author is chosen, the rating is from 0 to 5 and the year is blank or a
/// whole number; the title is reported first, then the author, the rating
/// and the year.
pub proof fn lemma_book_form_rules(f: BookFormFields)
    ensures
        book_form_problem(f) is None <==> {
            &&& trim(f.title@).len() > 0
            &&& f.author_id != 0
            &&& 0 <= f.rating <= 5
            &&& (trim(f.published_year@).len() == 0 || i32_value(trim(f.published_year@)) is Some)
        },
        trim(f.title@).len() == 0 ==> book_form_problem(f) == Some("Title is required"@),
        trim(f.title@).len() > 0 && f.author_id == 0 ==> book_form_problem(f) == Some(
            "Please select an author"@,
        ),
        trim(f.title@).len() > 0 && f.author_id != 0 && (f.rating < 0 || f.rating > 5)
            ==> book_form_problem(f) == Some("Rating must be between 0 and 5"@),
        trim(f.title@).len() > 0 && f.author_id != 0 && 0 <= f.rating <= 5 && trim(
            f.published_year@,
        ).len() > 0 && i32_value(trim(f.published_year@)) is None ==> book_form_problem(f) == Some(
            "Invalid year"@,
        ),
        trim(f.published_year@).len() == 0 ==> form_year(f) is None,
        trim(f.published_year@).len() > 0 ==> form_year(f) == i32_value(trim(f.published_year@)),
{
}

/// A new book sent from the form carries the form's title and author as
/// typed, its rating when one is picked (0 means none), each text when it is
/// not empty (an empty one is left out), and the year typed.
pub proof fn lemma_new_book_from_form(c: CreateBook, f: BookFormFields)
    requires
        creates_from(c, f),
    ensures
        c.title@ == f.title@,
        c.author_id == f.author_id,
        f.rating != 0 ==> c.rating == Some(f.rating),
        f.rating == 0 ==> c.rating is None,
        c.published_year == form_year(f),
        f.isbn@.len() > 0 ==> opt_text(c.isbn) == Some(f.isbn@),
        f.isbn@.len() == 0 ==> c.isbn is None,
        f.genre@.len() > 0 ==> opt_text(c.genre) == Some(f.genre@),
        f.genre@.len() == 0 ==> c.genre is None,
        f.cover_url@.len() > 0 ==> opt_text(c.cover_url) == Some(f.cover_url@),
        f.cover_url@.len() == 0 ==> c.cover_url is None,
        f.description@.len() > 0 ==> opt_text(c.description) == Some(f.description@),
        f.description@.len() == 0 ==> c.description is None,
{
}

/// A change sent from the form gives every field, as typed.
pub proof fn lemma_change_from_form(u: UpdateBook, f: BookFormFields)
    requires
        updates_from(u, f),
    ensures
        opt_text(u.title) == Some(f.title@),
        u.author_id == Some(f.author_id),
        u.rating == Some(f.rating),
        u.published_year == form_year(f),
        opt_text(u.isbn) == Some(f.isbn@),
        opt_text(u.genre) == Some(f.genre@),
        opt_text(u.cover_url) == Some(f.cover_url@),
        opt_text(u.description) == Some(f.description@),
{
}

} // verus!

verus! {

/// Editing a book fills the form with its values: the title and author as
/// stored, each text or an empty field when absent, the year in decimal or
/// an empty field, the rating or zero.
pub proof fn lemma_form_filled_from_book(f: BookFormFields, b: BookWithAuthor)
    requires
        fills_from(f, b),
    ensures
        f.title@ == b.book.title@,
        f.author_id == b.book.author_id,
        b.book.isbn matches Some(i) ==> f.isbn@ == i@,
        b.book.isbn is None ==> f.isbn@.len() == 0,
        b.book.published_year matches Some(y) ==> f.published_year@ == decimal(y as int),
        b.book.published_year is None ==> f.published_year@.len() == 0,
        b.book.rating matches Some(r) ==> f.rating == r,
        b.book.rating is None ==> f.rating == 0,
        b.book.genre matches Some(g) ==> f.genre@ == g@,
        b.book.genre is None ==> f.genre@.len() == 0,
        b.book.cover_url matches Some(c) ==> f.cover_url@ == c@,
        b.book.cover_url is None ==> f.cover_url@.len() == 0,
        b.book.description matches Some(d) ==> f.description@ == d@,
        b.book.description is None ==> f.description@.len() == 0,
{
}

} // verus!
