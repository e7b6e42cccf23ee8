//! The rules that a book or an author must meet to be stored.

use vstd::prelude::*;
use crate::error::{fails_with, AppError, ErrorKind};
use crate::text::{
    count_digits, digit_count, lemma_digit_count_counts_digits, lemma_trim_idempotent,
    lemma_trim_keeps_digits, trim, trim_opt, trimmed,
};

verus! {

/// The first rule that a book's title, rating and ISBN break, as the
/// message that reports it; `None` when they break none.
pub open spec fn book_fields_problem(
    title: Seq<char>,
    rating: Option<i32>,
    isbn: Option<Seq<char>>,
) -> Option<Seq<char>> {
    if trim(title).len() == 0 {
        Some("Book title is required"@)
    } else if rating matches Some(r) && !(0 <= r <= 5) {
        Some("Rating must be between 0 and 5"@)
    } else if isbn matches Some(i) && trim(i).len() != 0 && digit_count(i) != 10
        && digit_count(i) != 13 {
        Some("ISBN must be 10 or 13 digits"@)
    } else {
        None
    }
}

/// The answer that a check gives for the problem it found.
pub open spec fn check_result(problem: Option<Seq<char>>, res: Result<(), AppError>) -> bool {
    match problem {
        None => res is Ok,
        Some(m) => fails_with(res, ErrorKind::BadRequest, m),
    }
}

/// Checks a book's title (present once white space is removed), rating
/// (0 to 5) and ISBN (blank, or 10 or 13 digits among its characters).
pub fn validate_book_fields(title: &str, rating: Option<i32>, isbn: Option<&str>) -> (res: Result<
    (),
    AppError,
>)
    ensures
        check_result(
            book_fields_problem(
                title@,
                rating,
                match isbn {
                    Some(i) => Some(i@),
                    None => None,
                },
            ),
            res,
        ),
{
    if trimmed(title).is_empty() {
        return Err(AppError::BadRequest("Book title is required".to_owned()));
    }
    if let Some(r) = rating {
        if !(0 <= r && r <= 5) {
            return Err(AppError::BadRequest("Rating must be between 0 and 5".to_owned()));
        }
    }
    if let Some(i) = isbn {
        let digits = count_digits(i);
        if !trimmed(i).is_empty() && digits != 10 && digits != 13 {
            return Err(AppError::BadRequest("ISBN must be 10 or 13 digits".to_owned()));
        }
    }
    Ok(())
}


/// The checks on a book do not depend on white space around its title and
/// ISBN: trimmed values break exactly the rule that the raw values break.
pub proof fn lemma_checks_ignore_surrounding_space(
    title: Seq<char>,
    rating: Option<i32>,
    isbn: Option<Seq<char>>,
)
    ensures
        book_fields_problem(trim(title), rating, trim_opt(isbn)) == book_fields_problem(
            title,
            rating,
            isbn,
        ),
{
    lemma_trim_idempotent(title);
    if let Some(i) = isbn {
        lemma_trim_idempotent(i);
        lemma_trim_keeps_digits(i);
    }
}

} // verus!

verus! {

/// The book rules: a book breaks none exactly when its title is not blank,
/// its rating (when given) is from 0 to 5, and its ISBN (when given) is blank
/// or holds exactly 10 or exactly 13 ASCII digits. A blank title is reported
/// first, then a rating out of range, then a wrong ISBN.
pub proof fn lemma_book_rules(title: Seq<char>, rating: Option<i32>, isbn: Option<Seq<char>>)
    ensures
        book_fields_problem(title, rating, isbn) is None <==> {
            &&& trim(title).len() > 0
            &&& (rating matches Some(r) ==> 0 <= r <= 5)
            &&& (isbn matches Some(i) ==> trim(i).len() == 0 || i.filter(
                |c: char| '0' <= c && c <= '9',
            ).len() == 10 || i.filter(|c: char| '0' <= c && c <= '9').len() == 13)
        },
        trim(title).len() == 0 ==> book_fields_problem(title, rating, isbn) == Some(
            "Book title is required"@,
        ),
        trim(title).len() > 0 && (rating matches Some(r) && (r < 0 || r > 5)) ==> book_fields_problem(
            title,
            rating,
            isbn,
        ) == Some("Rating must be between 0 and 5"@),
        book_fields_problem(title, rating, isbn) matches Some(m) ==> m == "Book title is required"@
            || m == "Rating must be between 0 and 5"@ || m == "ISBN must be 10 or 13 digits"@,
        trim(title).len() > 0 && (rating matches Some(r) ==> 0 <= r <= 5) && (isbn matches Some(i)
            && trim(i).len() > 0 && i.filter(|c: char| '0' <= c && c <= '9').len() != 10 && i.filter(
            |c: char| '0' <= c && c <= '9',
        ).len() != 13) ==> book_fields_problem(title, rating, isbn) == Some(
            "ISBN must be 10 or 13 digits"@,
        ),
{
    if let Some(i) = isbn {
        lemma_digit_count_counts_digits(i);
    }
}

/// What a check answers: success exactly when no rule is broken, and
/// otherwise a bad request carrying the broken rule's message.
pub proof fn lemma_check_result_meaning(problem: Option<Seq<char>>, res: Result<(), AppError>)
    ensures
        problem is None ==> (check_result(problem, res) <==> res is Ok),
        problem matches Some(m) ==> (check_result(problem, res) <==> (res matches Err(e) && e@
            == (ErrorKind::BadRequest, m))),
{
}

} // verus!
