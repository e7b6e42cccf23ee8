use bookshelf::client::book_url;
use bookshelf::error::{missing_text, Resource};
use bookshelf::forms::{detail_id_param, edit_id_param, submit_book_form, BookFormFields, Submission};
use bookshelf::text::{chars_of, contains_text, count_digits, joined, same_text, trimmed_owned};

fn year_form(year: &str) -> BookFormFields {
    BookFormFields {
        title: "T".to_string(),
        author_id: 1,
        isbn: String::new(),
        published_year: year.to_string(),
        genre: String::new(),
        rating: 0,
        cover_url: String::new(),
        description: String::new(),
    }
}

fn submitted_year(year: &str) -> Result<Option<i32>, String> {
    match submit_book_form(&year_form(year), None)? {
        Submission::Create(c) => Ok(c.published_year),
        Submission::Update(_, u) => Ok(u.published_year),
    }
}

#[test]
fn trimming() {
    assert_eq!(trimmed_owned("  a b \t\n"), "a b");
    assert_eq!(trimmed_owned("\u{3000}x\u{00a0}"), "x");
    assert_eq!(trimmed_owned("\u{2003}\u{205f}\u{85}"), "");
    assert_eq!(trimmed_owned("   "), "");
    assert_eq!(trimmed_owned("\u{200b}y"), "\u{200b}y");
}

#[test]
fn decimal_text() {
    assert_eq!(book_url(0), "/api/books/0");
    assert_eq!(missing_text(Resource::Book, -120), "Book with id -120 not found");
    assert_eq!(book_url(i64::MIN), "/api/books/-9223372036854775808");
}

#[test]
fn parsing_integers() {
    assert_eq!(edit_id_param(Some("42")), Some(42));
    assert_eq!(edit_id_param(Some("+42")), Some(42));
    assert_eq!(edit_id_param(Some("-0")), Some(0));
    assert_eq!(edit_id_param(Some("-")), None);
    assert_eq!(edit_id_param(Some("")), None);
    assert_eq!(edit_id_param(Some(" 1")), None);
    assert_eq!(edit_id_param(Some("9223372036854775808")), None);
    assert_eq!(edit_id_param(Some("-9223372036854775808")), Some(i64::MIN));
    assert_eq!(submitted_year("2147483647"), Ok(Some(i32::MAX)));
    assert_eq!(submitted_year(" -2147483648 "), Ok(Some(i32::MIN)));
    assert_eq!(submitted_year("2147483648"), Err("Invalid year".to_string()));
    assert_eq!(submitted_year("20 24"), Err("Invalid year".to_string()));
}

#[test]
fn counting_and_searching() {
    assert_eq!(count_digits("978-3-16"), 6);
    assert_eq!(count_digits("\u{0663}x"), 0);
    assert!(contains_text("UNIQUE constraint failed", "UNIQUE"));
    assert!(!contains_text("unique constraint", "UNIQUE"));
    assert!(contains_text("abc", ""));
    assert!(!contains_text("ab", "abc"));
    assert!(contains_text("xxUNIQUE", "UNIQUE"));
    assert!(same_text("title", "title"));
    assert!(!same_text("title", "Title"));
    assert_eq!(joined("a", "b"), "ab");
    assert_eq!(chars_of("h\u{e9}"), vec!['h', '\u{e9}']);
}

#[test]
fn decimal_reads_back() {
    for n in [7i64, 1965, i64::MAX] {
        assert_eq!(detail_id_param(Some(&n.to_string())), Some(n));
    }
    for y in [0i32, -44, 1813, i32::MIN, i32::MAX] {
        assert_eq!(submitted_year(&y.to_string()), Ok(Some(y)));
    }
}
