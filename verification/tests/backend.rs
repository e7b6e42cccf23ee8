use bookshelf::authors::{health_response, new_author_fields, plan_author_update};
use bookshelf::books::{
    author_check, book_insert_fields, book_write_result, deletion_result, found, insert_after_author_lookup,
    merge_book_update, plan_book_update, plan_new_book, update_after_author_lookup, BookWithAuthorRow,
};
use bookshelf::error::{database_error, missing_text, not_found, AppError, DbFailure, Resource};
use bookshelf::listing::book_list_query;
use bookshelf::statements::SqlValue;
use bookshelf::model::{
    Author, Book, BookQuery, BookWithAuthor, CreateAuthor, CreateBook, UpdateAuthor, UpdateBook,
};
use bookshelf::validation::validate_book_fields;

fn sample_book() -> Book {
    Book {
        id: 7,
        title: "Pride and Prejudice".to_string(),
        author_id: 3,
        isbn: Some("9780141439518".to_string()),
        published_year: Some(1813),
        genre: Some("Fiction".to_string()),
        rating: Some(5),
        cover_url: None,
        description: Some("A classic".to_string()),
        created_at: "2024-01-01 00:00:00".to_string(),
    }
}

fn sample_author() -> Author {
    Author {
        id: 1,
        name: "Jane Austen".to_string(),
        bio: Some("English novelist".to_string()),
        created_at: "2024-01-01 00:00:00".to_string(),
    }
}

#[test]
fn health_check() {
    let health = health_response();
    assert_eq!(health.status, "ok");
}

#[test]
fn author_crud() {
    let input = CreateAuthor {
        name: "Jane Austen".to_string(),
        bio: Some("English novelist".to_string()),
    };
    let fields = new_author_fields(&input).unwrap();
    assert_eq!(fields.name, "Jane Austen");
    assert_eq!(fields.bio.as_deref(), Some("English novelist"));

    let update = UpdateAuthor { name: Some("J. Austen".to_string()), bio: None };
    let updated = plan_author_update(1, Some(sample_author()), &update).unwrap();
    assert_eq!(updated.name, "J. Austen");
    assert_eq!(updated.bio.as_deref(), Some("English novelist"));

    assert_eq!(deletion_result(Resource::Author, 1, 1), Ok(()));
    let gone = found::<Author>(Resource::Author, 1, None).unwrap_err();
    assert_eq!(gone.status(), 404);
}

#[test]
fn book_crud() {
    let input = CreateBook {
        title: "Pride and Prejudice".to_string(),
        author_id: 3,
        isbn: Some("9780141439518".to_string()),
        published_year: Some(1813),
        genre: Some("Fiction".to_string()),
        rating: Some(5),
        description: Some("A classic".to_string()),
        ..Default::default()
    };
    assert!(plan_new_book(&input).is_ok());
    assert_eq!(author_check(3, true), Ok(()));
    let fields = book_insert_fields(&input);
    assert_eq!(fields.title, "Pride and Prejudice");
    assert_eq!(fields.rating, Some(5));

    let update = UpdateBook {
        title: Some("P&P".to_string()),
        rating: Some(4),
        ..Default::default()
    };
    let plan = plan_book_update(7, Some(sample_book()), &update).unwrap();
    assert_eq!(plan.fields().title, "P&P");
    assert_eq!(plan.fields().rating, Some(4));
    assert_eq!(plan.author_to_check(), None);

    assert_eq!(deletion_result(Resource::Book, 7, 1), Ok(()));
    let gone = found::<BookWithAuthor>(Resource::Book, 7, None).unwrap_err();
    assert_eq!(gone.status(), 404);
}

#[test]
fn validation_empty_author_name() {
    let input = CreateAuthor { name: "  ".to_string(), bio: None };
    let err = new_author_fields(&input).unwrap_err();
    assert_eq!(err.status(), 400);
    assert_eq!(err, AppError::BadRequest("Author name is required".to_string()));
}

#[test]
fn validation_empty_book_title() {
    let input = CreateBook { title: "".to_string(), author_id: 1, ..Default::default() };
    let err = plan_new_book(&input).unwrap_err();
    assert_eq!(err.status(), 400);
    assert_eq!(err.message(), "Book title is required");
}

#[test]
fn validation_invalid_rating() {
    let input = CreateBook {
        title: "Test".to_string(),
        author_id: 1,
        rating: Some(6),
        ..Default::default()
    };
    let err = plan_new_book(&input).unwrap_err();
    assert_eq!(err.status(), 400);
    assert_eq!(err.message(), "Rating must be between 0 and 5");
}

#[test]
fn validation_invalid_isbn() {
    let input = CreateBook {
        title: "Test".to_string(),
        author_id: 1,
        isbn: Some("12345".to_string()),
        ..Default::default()
    };
    let err = plan_new_book(&input).unwrap_err();
    assert_eq!(err.status(), 400);
    assert_eq!(err.message(), "ISBN must be 10 or 13 digits");
}

#[test]
fn validation_nonexistent_author() {
    let input = CreateBook { title: "Test".to_string(), author_id: 9999, ..Default::default() };
    assert!(plan_new_book(&input).is_ok());
    let err = author_check(input.author_id, false).unwrap_err();
    assert_eq!(err.status(), 400);
    assert_eq!(err.message(), "Author with id 9999 not found");
}

#[test]
fn duplicate_isbn_rejected() {
    let failure = DbFailure {
        database_message: Some("UNIQUE constraint failed: books.isbn".to_string()),
        description: "error returned from database: UNIQUE constraint failed: books.isbn"
            .to_string(),
    };
    let err = book_write_result(Err(failure)).unwrap_err();
    assert_eq!(err.status(), 400);
    assert_eq!(err.message(), "A book with this ISBN already exists");
}

#[test]
fn book_search() {
    let query = BookQuery { search: Some("Great".to_string()), ..Default::default() };
    let q = book_list_query(&query);
    assert!(q.sql.contains(" AND (b.title LIKE ? OR a.name LIKE ? OR b.isbn LIKE ?)"));
    assert_eq!(q.binds, vec!["%Great%", "%Great%", "%Great%"]);
}

#[test]
fn book_filter_by_genre() {
    let query = BookQuery { genre: Some("Fiction".to_string()), ..Default::default() };
    let q = book_list_query(&query);
    assert!(q.sql.contains(" AND b.genre = ?"));
    assert!(!q.sql.contains("LIKE"));
    assert_eq!(q.binds, vec!["Fiction"]);
}

#[test]
fn book_sort_by_title() {
    let query = BookQuery { sort: Some("title".to_string()), ..Default::default() };
    let q = book_list_query(&query);
    assert!(q.sql.ends_with(" ORDER BY b.title ASC"));
}

#[test]
fn not_found_for_missing_resources() {
    let a = found::<Author>(Resource::Author, 999, None).unwrap_err();
    assert_eq!(a, AppError::NotFound("Author with id 999 not found".to_string()));
    let b = found::<BookWithAuthor>(Resource::Book, 999, None).unwrap_err();
    assert_eq!(b, AppError::NotFound("Book with id 999 not found".to_string()));
    assert_eq!(deletion_result(Resource::Author, 999, 0).unwrap_err().status(), 404);
    assert_eq!(deletion_result(Resource::Book, 999, 0).unwrap_err().status(), 404);
}

#[test]
fn list_query_without_filters() {
    let q = book_list_query(&BookQuery::default());
    assert_eq!(
        q.sql,
        "SELECT b.id, b.title, b.author_id, b.isbn, b.published_year, b.genre, b.rating, b.cover_url, b.description, b.created_at, a.name as author_name FROM books b JOIN authors a ON b.author_id = a.id WHERE 1=1 ORDER BY b.created_at DESC"
    );
    assert!(q.binds.is_empty());
}

#[test]
fn list_query_trims_and_skips_blank_filters() {
    let query = BookQuery {
        search: Some("  ".to_string()),
        genre: Some("  Science ".to_string()),
        sort: Some("rating".to_string()),
    };
    let q = book_list_query(&query);
    assert!(!q.sql.contains("LIKE"));
    assert!(q.sql.ends_with(" AND b.genre = ? ORDER BY b.rating DESC NULLS LAST"));
    assert_eq!(q.binds, vec!["Science"]);
}

#[test]
fn list_query_sort_orders() {
    let order = |s: &str| {
        let q = book_list_query(&BookQuery { sort: Some(s.to_string()), ..Default::default() });
        q.sql
    };
    assert!(order("title_desc").ends_with(" ORDER BY b.title DESC"));
    assert!(order("year").ends_with(" ORDER BY b.published_year DESC NULLS LAST"));
    assert!(order("newest").ends_with(" ORDER BY b.created_at DESC"));
    assert!(order("unknown").ends_with(" ORDER BY b.created_at DESC"));
    assert!(order("Title").ends_with(" ORDER BY b.created_at DESC"));
}

#[test]
fn list_query_search_and_genre_together() {
    let query = BookQuery {
        search: Some(" Great ".to_string()),
        genre: Some("Fiction".to_string()),
        sort: None,
    };
    let q = book_list_query(&query);
    assert!(q.sql.contains(
        "WHERE 1=1 AND (b.title LIKE ? OR a.name LIKE ? OR b.isbn LIKE ?) AND b.genre = ? ORDER BY"
    ));
    assert_eq!(q.binds, vec!["%Great%", "%Great%", "%Great%", "Fiction"]);
}

#[test]
fn book_validation_rules() {
    assert_eq!(validate_book_fields("Title", None, None), Ok(()));
    assert_eq!(validate_book_fields("Title", Some(0), Some("")), Ok(()));
    assert_eq!(validate_book_fields("Title", Some(5), Some("   ")), Ok(()));
    assert_eq!(validate_book_fields("Title", None, Some("0-306-40615-2")), Ok(()));
    assert_eq!(validate_book_fields("Title", None, Some("978-3-16-148410-0")), Ok(()));
    assert!(validate_book_fields("Title", None, Some("12345678901")).is_err());
    assert!(validate_book_fields("Title", Some(-1), None).is_err());
    assert!(validate_book_fields(" \t\n", Some(3), None).is_err());
    assert_eq!(
        validate_book_fields("", Some(9), Some("1")),
        Err(AppError::BadRequest("Book title is required".to_string()))
    );
    assert_eq!(
        validate_book_fields("T", Some(9), Some("1")),
        Err(AppError::BadRequest("Rating must be between 0 and 5".to_string()))
    );
}

#[test]
fn new_book_is_stored_trimmed() {
    let input = CreateBook {
        title: "  Dune ".to_string(),
        author_id: 4,
        isbn: Some(" 0441013597 ".to_string()),
        published_year: Some(1965),
        genre: Some(" Science Fiction".to_string()),
        rating: None,
        cover_url: Some("\thttps://example.org/dune.jpg\n".to_string()),
        description: None,
    };
    let f = book_insert_fields(&input);
    assert_eq!(f.title, "Dune");
    assert_eq!(f.isbn.as_deref(), Some("0441013597"));
    assert_eq!(f.genre.as_deref(), Some("Science Fiction"));
    assert_eq!(f.cover_url.as_deref(), Some("https://example.org/dune.jpg"));
    assert_eq!(f.description, None);
    assert_eq!(f.published_year, Some(1965));
}

#[test]
fn empty_update_keeps_stored_book() {
    let b = sample_book();
    let f = merge_book_update(&b, &UpdateBook::default());
    assert_eq!(f.title, b.title);
    assert_eq!(f.author_id, b.author_id);
    assert_eq!(f.isbn, b.isbn);
    assert_eq!(f.published_year, b.published_year);
    assert_eq!(f.genre, b.genre);
    assert_eq!(f.rating, b.rating);
    assert_eq!(f.cover_url, b.cover_url);
    assert_eq!(f.description, b.description);
    assert!(plan_book_update(7, Some(b), &UpdateBook::default()).is_ok());
}

#[test]
fn update_rejects_bad_merged_values() {
    let update = UpdateBook { isbn: Some("123".to_string()), ..Default::default() };
    let err = plan_book_update(7, Some(sample_book()), &update).unwrap_err();
    assert_eq!(err, AppError::BadRequest("ISBN must be 10 or 13 digits".to_string()));
    let update = UpdateBook { title: Some("   ".to_string()), ..Default::default() };
    assert_eq!(
        plan_book_update(7, Some(sample_book()), &update).unwrap_err().message(),
        "Book title is required"
    );
    let err = plan_book_update(42, None, &UpdateBook::default()).unwrap_err();
    assert_eq!(err, AppError::NotFound("Book with id 42 not found".to_string()));
}

#[test]
fn update_moving_book_names_author_to_check() {
    let update = UpdateBook { author_id: Some(11), ..Default::default() };
    let plan = plan_book_update(7, Some(sample_book()), &update).unwrap();
    assert_eq!(plan.author_to_check(), Some(11));
    assert_eq!(plan.fields().author_id, 11);
}

#[test]
fn author_update_rules() {
    let err = plan_author_update(5, None, &UpdateAuthor::default()).unwrap_err();
    assert_eq!(err, AppError::NotFound("Author with id 5 not found".to_string()));
    let update = UpdateAuthor { name: Some("   ".to_string()), bio: None };
    let err = plan_author_update(1, Some(sample_author()), &update).unwrap_err();
    assert_eq!(err, AppError::BadRequest("Author name cannot be empty".to_string()));
    let update = UpdateAuthor { name: None, bio: Some("  Wrote six novels. ".to_string()) };
    let f = plan_author_update(1, Some(sample_author()), &update).unwrap();
    assert_eq!(f.name, "Jane Austen");
    assert_eq!(f.bio.as_deref(), Some("Wrote six novels."));
}

#[test]
fn new_author_is_trimmed() {
    let input = CreateAuthor { name: " Ursula K. Le Guin ".to_string(), bio: Some(" ".to_string()) };
    let f = new_author_fields(&input).unwrap();
    assert_eq!(f.name, "Ursula K. Le Guin");
    assert_eq!(f.bio.as_deref(), Some(""));
}

#[test]
fn write_results() {
    let ok = book_write_result(Ok(sample_book())).unwrap();
    assert_eq!(ok, sample_book());
    let other = DbFailure {
        database_message: Some("FOREIGN KEY constraint failed".to_string()),
        description: "foreign key".to_string(),
    };
    assert_eq!(book_write_result(Err(other)), Err(AppError::Internal("foreign key".to_string())));
    let pool = DbFailure { database_message: None, description: "pool timed out".to_string() };
    assert_eq!(book_write_result(Err(pool.clone())).unwrap_err().status(), 500);
    assert_eq!(database_error(pool), AppError::Internal("pool timed out".to_string()));
}

#[test]
fn missing_messages() {
    assert_eq!(missing_text(Resource::Book, -3), "Book with id -3 not found");
    assert_eq!(not_found(Resource::Author, 0).message(), "Author with id 0 not found");
}

#[test]
fn row_becomes_book_with_author() {
    let row = BookWithAuthorRow {
        id: 1,
        title: "Emma".to_string(),
        author_id: 2,
        isbn: None,
        published_year: Some(1815),
        genre: None,
        rating: Some(4),
        cover_url: None,
        description: None,
        created_at: "now".to_string(),
        author_name: "Jane Austen".to_string(),
    };
    let b = row.into_book_with_author();
    assert_eq!(b.book.title, "Emma");
    assert_eq!(b.book.id, 1);
    assert_eq!(b.book.published_year, Some(1815));
    assert_eq!(b.author_name, "Jane Austen");
}

#[test]
fn checks_ignore_surrounding_space() {
    let raw = validate_book_fields("  Title\t", Some(3), Some(" 0306406152 "));
    let trimmed = validate_book_fields("Title", Some(3), Some("0306406152"));
    assert_eq!(raw, trimmed);
    assert_eq!(raw, Ok(()));
    let raw = validate_book_fields(" Title ", None, Some(" 12 "));
    let trimmed = validate_book_fields("Title", None, Some("12"));
    assert_eq!(raw, trimmed);
    assert!(raw.is_err());
}

#[test]
fn stored_book_passes_unchanged_update() {
    let input = CreateBook {
        title: "  Neuromancer ".to_string(),
        author_id: 5,
        isbn: Some(" 0-441-56959-5 ".to_string()),
        rating: Some(5),
        ..Default::default()
    };
    assert!(plan_new_book(&input).is_ok());
    let f = book_insert_fields(&input);
    let stored = Book {
        id: 1,
        title: f.title,
        author_id: f.author_id,
        isbn: f.isbn,
        published_year: f.published_year,
        genre: f.genre,
        rating: f.rating,
        cover_url: f.cover_url,
        description: f.description,
        created_at: "now".to_string(),
    };
    let plan = plan_book_update(1, Some(stored.clone()), &UpdateBook::default()).unwrap();
    assert_eq!(plan.fields().title, "Neuromancer");
    assert_eq!(plan.fields().isbn.as_deref(), Some("0-441-56959-5"));
}

#[test]
fn stored_author_passes_unchanged_update() {
    let input = CreateAuthor { name: " Le Guin ".to_string(), bio: Some(" Poet ".to_string()) };
    let f = new_author_fields(&input).unwrap();
    let stored = Author { id: 2, name: f.name, bio: f.bio, created_at: "now".to_string() };
    let again = plan_author_update(2, Some(stored), &UpdateAuthor::default()).unwrap();
    assert_eq!(again.name, "Le Guin");
    assert_eq!(again.bio.as_deref(), Some("Poet"));
}

#[test]
fn creation_steps_in_order() {
    let input = CreateBook {
        title: " Dune ".to_string(),
        author_id: 4,
        isbn: Some("0441013597".to_string()),
        published_year: Some(1965),
        ..Default::default()
    };
    let plan = plan_new_book(&input).unwrap();
    assert_eq!(plan.author_to_check(), 4);
    let st = insert_after_author_lookup(plan, true).unwrap();
    assert_eq!(
        st.sql,
        "INSERT INTO books (title, author_id, isbn, published_year, genre, rating, cover_url, description) VALUES (?, ?, ?, ?, ?, ?, ?, ?) RETURNING id, title, author_id, isbn, published_year, genre, rating, cover_url, description, created_at"
    );
    assert_eq!(
        st.values,
        vec![
            SqlValue::Text("Dune".to_string()),
            SqlValue::Integer(4),
            SqlValue::Text("0441013597".to_string()),
            SqlValue::Integer(1965),
            SqlValue::Null,
            SqlValue::Null,
            SqlValue::Null,
            SqlValue::Null,
        ]
    );
    let plan = plan_new_book(&input).unwrap();
    let err = insert_after_author_lookup(plan, false).unwrap_err();
    assert_eq!(err, AppError::BadRequest("Author with id 4 not found".to_string()));
    let bad = CreateBook { title: "x".to_string(), author_id: 4, rating: Some(7), ..Default::default() };
    assert_eq!(
        plan_new_book(&bad).unwrap_err(),
        AppError::BadRequest("Rating must be between 0 and 5".to_string())
    );
}

#[test]
fn update_steps_in_order() {
    let update = UpdateBook { author_id: Some(11), genre: Some(" Drama ".to_string()), ..Default::default() };
    let plan = plan_book_update(7, Some(sample_book()), &update).unwrap();
    let err = update_after_author_lookup(plan, false).unwrap_err();
    assert_eq!(err.message(), "Author with id 11 not found");
    let plan = plan_book_update(7, Some(sample_book()), &update).unwrap();
    let st = update_after_author_lookup(plan, true).unwrap();
    assert!(st.sql.starts_with("UPDATE books SET title = ?, author_id = ?, isbn = ?, published_year = ?, genre = ?, rating = ?, cover_url = ?, description = ? WHERE id = ? RETURNING id"));
    assert_eq!(st.values.len(), 9);
    assert_eq!(st.values[1], SqlValue::Integer(11));
    assert_eq!(st.values[4], SqlValue::Text("Drama".to_string()));
    assert_eq!(st.values[8], SqlValue::Integer(7));
    let plan = plan_book_update(7, Some(sample_book()), &UpdateBook::default()).unwrap();
    assert!(update_after_author_lookup(plan, false).is_ok());
}
