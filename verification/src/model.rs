//! The records that the service stores and exchanges.

use vstd::prelude::*;

verus! {

/// Answer of the health check.
#[derive(Debug, Clone, PartialEq)]
pub struct HealthResponse {
    pub status: String,
}

/// A stored author.
#[derive(Debug, Clone, PartialEq)]
pub struct Author {
    pub id: i64,
    pub name: String,
    pub bio: Option<String>,
    pub created_at: String,
}

/// An author with the number of books that name them.
#[derive(Debug, Clone, PartialEq)]
pub struct AuthorSummary {
    pub id: i64,
    pub name: String,
    pub bio: Option<String>,
    pub book_count: i64,
    pub created_at: String,
}

/// Request to create an author.
#[derive(Debug, Clone, PartialEq, Default)]
pub struct CreateAuthor {
    pub name: String,
    pub bio: Option<String>,
}

/// Request to change an author; an absent field keeps its value.
#[derive(Debug, Clone, PartialEq, Default)]
pub struct UpdateAuthor {
    pub name: Option<String>,
    pub bio: Option<String>,
}

/// An author together with the books that name them.
#[derive(Debug, Clone, PartialEq)]
pub struct AuthorWithBooks {
    pub author: Author,
    pub books: Vec<Book>,
}

/// A stored book.
#[derive(Debug, Clone, PartialEq)]
pub struct Book {
    pub id: i64,
    pub title: String,
    pub author_id: i64,
    pub isbn: Option<String>,
    pub published_year: Option<i32>,
    pub genre: Option<String>,
    pub rating: Option<i32>,
    pub cover_url: Option<String>,
    pub description: Option<String>,
    pub created_at: String,
}

/// Request to create a book.
#[derive(Debug, Clone, PartialEq, Default)]
pub struct CreateBook {
    pub title: String,
    pub author_id: i64,
    pub isbn: Option<String>,
    pub published_year: Option<i32>,
    pub genre: Option<String>,
    pub rating: Option<i32>,
    pub cover_url: Option<String>,
    pub description: Option<String>,
}

/// Request to change a book; an absent field keeps its value.
#[derive(Debug, Clone, PartialEq, Default)]
pub struct UpdateBook {
    pub title: Option<String>,
    pub author_id: Option<i64>,
    pub isbn: Option<String>,
    pub published_year: Option<i32>,
    pub genre: Option<String>,
    pub rating: Option<i32>,
    pub cover_url: Option<String>,
    pub description: Option<String>,
}

/// A book together with its author's name.
#[derive(Debug, Clone, PartialEq)]
pub struct BookWithAuthor {
    pub book: Book,
    pub author_name: String,
}

/// Filters of the book list: free-text search, genre, and sort order.
#[derive(Debug, Clone, PartialEq, Default)]
pub struct BookQuery {
    pub search: Option<String>,
    pub genre: Option<String>,
    pub sort: Option<String>,
}

/// How many books carry a genre.
#[derive(Debug, Clone, PartialEq)]
pub struct GenreCount {
    pub genre: String,
    pub count: i64,
}

/// The view of an optional text.
pub open spec fn opt_text(s: Option<String>) -> Option<Seq<char>> {
    match s {
        Some(t) => Some(t@),
        None => None,
    }
}

} // verus!
