use bookshelf::client::{author_url, book_url, books_url, error_message};
use bookshelf::display::{avatar_initial, bio_preview, book_count_label, render_stars};
use bookshelf::forms::{
    author_choice, book_form_fields, book_query_from_filters, detail_id_param, edit_id_param,
    rating_label, star_click, submit_author_form, submit_book_form, BookFormFields, Submission,
};
use bookshelf::model::{Book, BookQuery, BookWithAuthor};
use bookshelf::toast::{toast_class, ToastKind, ToastState};

fn form() -> BookFormFields {
    BookFormFields {
        title: "Dune".to_string(),
        author_id: 2,
        isbn: "".to_string(),
        published_year: " 1965 ".to_string(),
        genre: "Science Fiction".to_string(),
        rating: 0,
        cover_url: "".to_string(),
        description: "Spice".to_string(),
    }
}

#[test]
fn books_url_lists_given_filters() {
    assert_eq!(books_url(&BookQuery::default()), "/api/books");
    let q = BookQuery {
        search: Some("Great".to_string()),
        genre: Some("".to_string()),
        sort: Some("title".to_string()),
    };
    assert_eq!(books_url(&q), "/api/books?search=Great&sort=title");
    let q = BookQuery { search: None, genre: Some("Fiction".to_string()), sort: None };
    assert_eq!(books_url(&q), "/api/books?genre=Fiction");
    let q = BookQuery {
        search: Some("a b".to_string()),
        genre: Some("Fiction".to_string()),
        sort: Some("year".to_string()),
    };
    assert_eq!(books_url(&q), "/api/books?search=a b&genre=Fiction&sort=year");
}

#[test]
fn record_urls() {
    assert_eq!(book_url(12), "/api/books/12");
    assert_eq!(author_url(-4), "/api/authors/-4");
}

#[test]
fn error_message_prefers_server_text() {
    assert_eq!(error_message("{\"error\":\"Book title is required\"}", 400), "Book title is required");
    assert_eq!(error_message("not json", 502), "Request failed with status 502");
    assert_eq!(error_message("{\"error\":7}", 500), "Request failed with status 500");
    assert_eq!(error_message("{\"message\":\"x\"}", 404), "Request failed with status 404");
}

#[test]
fn stars_show_the_rating() {
    assert_eq!(render_stars(Some(3)), "\u{2605}\u{2605}\u{2605}\u{2606}\u{2606}");
    assert_eq!(render_stars(Some(0)), "\u{2606}\u{2606}\u{2606}\u{2606}\u{2606}");
    assert_eq!(render_stars(Some(9)), "\u{2605}\u{2605}\u{2605}\u{2605}\u{2605}");
    assert_eq!(render_stars(Some(-2)), "\u{2606}\u{2606}\u{2606}\u{2606}\u{2606}");
    assert_eq!(render_stars(None), "\u{2606}\u{2606}\u{2606}\u{2606}\u{2606}");
}

#[test]
fn book_count_labels() {
    assert_eq!(book_count_label(0), "0 books");
    assert_eq!(book_count_label(1), "1 book");
    assert_eq!(book_count_label(12), "12 books");
}

#[test]
fn bio_previews() {
    assert_eq!(bio_preview(None), "");
    assert_eq!(bio_preview(Some("Short bio")), "Short bio");
    let long = "x".repeat(130);
    assert_eq!(bio_preview(Some(&long)), format!("{}...", "x".repeat(120)));
    let exact = "y".repeat(120);
    assert_eq!(bio_preview(Some(&exact)), exact);
}

#[test]
fn avatar_initials() {
    assert_eq!(avatar_initial("jane"), "J");
    assert_eq!(avatar_initial(""), "?");
    assert_eq!(avatar_initial("\u{00df}mith"), "SS");
}

#[test]
fn book_form_creates_book() {
    match submit_book_form(&form(), None).unwrap() {
        Submission::Create(c) => {
            assert_eq!(c.title, "Dune");
            assert_eq!(c.author_id, 2);
            assert_eq!(c.isbn, None);
            assert_eq!(c.published_year, Some(1965));
            assert_eq!(c.genre.as_deref(), Some("Science Fiction"));
            assert_eq!(c.rating, None);
            assert_eq!(c.cover_url, None);
            assert_eq!(c.description.as_deref(), Some("Spice"));
        },
        Submission::Update(..) => panic!("expected a new book"),
    }
}

#[test]
fn book_form_updates_book() {
    let mut f = form();
    f.rating = 4;
    match submit_book_form(&f, Some(9)).unwrap() {
        Submission::Update(id, u) => {
            assert_eq!(id, 9);
            assert_eq!(u.title.as_deref(), Some("Dune"));
            assert_eq!(u.isbn.as_deref(), Some(""));
            assert_eq!(u.rating, Some(4));
            assert_eq!(u.published_year, Some(1965));
        },
        Submission::Create(_) => panic!("expected a change"),
    }
}

#[test]
fn book_form_errors() {
    let mut f = form();
    f.title = "  ".to_string();
    assert_eq!(submit_book_form(&f, None).unwrap_err(), "Title is required");
    let mut f = form();
    f.author_id = 0;
    assert_eq!(submit_book_form(&f, None).unwrap_err(), "Please select an author");
    let mut f = form();
    f.rating = 6;
    assert_eq!(submit_book_form(&f, None).unwrap_err(), "Rating must be between 0 and 5");
    let mut f = form();
    f.published_year = "19x5".to_string();
    assert_eq!(submit_book_form(&f, None).unwrap_err(), "Invalid year");
    let mut f = form();
    f.published_year = "   ".to_string();
    match submit_book_form(&f, None).unwrap() {
        Submission::Create(c) => assert_eq!(c.published_year, None),
        Submission::Update(..) => panic!("expected a new book"),
    }
}

#[test]
fn edit_form_round_trip() {
    let b = BookWithAuthor {
        book: Book {
            id: 3,
            title: "Emma".to_string(),
            author_id: 1,
            isbn: None,
            published_year: Some(-44),
            genre: Some("Fiction".to_string()),
            rating: None,
            cover_url: None,
            description: None,
            created_at: "then".to_string(),
        },
        author_name: "Jane Austen".to_string(),
    };
    let f = book_form_fields(&b);
    assert_eq!(f.published_year, "-44");
    assert_eq!(f.isbn, "");
    assert_eq!(f.rating, 0);
    match submit_book_form(&f, Some(3)).unwrap() {
        Submission::Update(_, u) => {
            assert_eq!(u.published_year, Some(-44));
            assert_eq!(u.title.as_deref(), Some("Emma"));
            assert_eq!(u.rating, Some(0));
            assert_eq!(u.genre.as_deref(), Some("Fiction"));
        },
        Submission::Create(_) => panic!("expected a change"),
    }
}

#[test]
fn author_form() {
    let name = "Jane Austen".to_string();
    let empty = "".to_string();
    match submit_author_form(&name, &empty, None).unwrap() {
        Submission::Create(c) => {
            assert_eq!(c.name, "Jane Austen");
            assert_eq!(c.bio, None);
        },
        Submission::Update(..) => panic!("expected a new author"),
    }
    match submit_author_form(&name, &empty, Some(4)).unwrap() {
        Submission::Update(id, u) => {
            assert_eq!(id, 4);
            assert_eq!(u.bio.as_deref(), Some(""));
        },
        Submission::Create(_) => panic!("expected a change"),
    }
    let blank = " ".to_string();
    assert_eq!(submit_author_form(&blank, &empty, None).unwrap_err(), "Author name is required");
}

#[test]
fn query_from_filters() {
    let q = book_query_from_filters(&"Great".to_string(), &"".to_string(), &"rating".to_string());
    assert_eq!(q.search.as_deref(), Some("Great"));
    assert_eq!(q.genre, None);
    assert_eq!(q.sort.as_deref(), Some("rating"));
}

#[test]
fn route_ids() {
    assert_eq!(edit_id_param(Some("17")), Some(17));
    assert_eq!(edit_id_param(Some("-2")), Some(-2));
    assert_eq!(edit_id_param(Some("x")), None);
    assert_eq!(edit_id_param(None), None);
    assert_eq!(detail_id_param(Some("17")), Some(17));
    assert_eq!(detail_id_param(Some("+5")), Some(5));
    assert_eq!(detail_id_param(Some("0")), None);
    assert_eq!(detail_id_param(Some("-2")), None);
    assert_eq!(detail_id_param(Some(" 3")), None);
    assert_eq!(detail_id_param(Some("99999999999999999999")), None);
    assert_eq!(detail_id_param(None), None);
    assert_eq!(author_choice("8"), 8);
    assert_eq!(author_choice(""), 0);
}

#[test]
fn star_input() {
    assert_eq!(star_click(0, 3), 3);
    assert_eq!(star_click(3, 3), 0);
    assert_eq!(star_click(3, 5), 5);
    assert_eq!(star_click(star_click(0, 2), 2), 0);
    assert_eq!(rating_label(0), "No rating");
    assert_eq!(rating_label(4), "4/5");
}

#[test]
fn toast_lifecycle() {
    let mut t = ToastState::new();
    assert!(t.current().is_none());
    let first = t.success("Author created successfully".to_string());
    assert_eq!(first, 1);
    assert_eq!(t.current().unwrap().kind, ToastKind::Success);
    let second = t.error("Author name is required".to_string());
    assert_eq!(second, 2);
    t.expire(first);
    assert_eq!(t.current().unwrap().message, "Author name is required");
    t.expire(second);
    assert!(t.current().is_none());
    let third = t.success("again".to_string());
    t.dismiss();
    assert!(t.current().is_none());
    assert_eq!(t.shown_count(), third);
    assert_eq!(toast_class(ToastKind::Success), "toast toast-success");
    assert_eq!(toast_class(ToastKind::Error), "toast toast-error");
}
