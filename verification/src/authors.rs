//! The decisions that the author requests take between their database
//! steps, and the answer of the health check.

use vstd::prelude::*;
use crate::error::{fails_with, missing_message, not_found, AppError, ErrorKind, Resource};
use crate::model::{opt_text, Author, CreateAuthor, HealthResponse, UpdateAuthor};
use crate::text::{trim, trimmed, trimmed_owned};

verus! {

/// The answer of the health check.
pub fn health_response() -> (res: HealthResponse)
    ensures
        res.status@ == "ok"@,
{
    HealthResponse { status: "ok".to_owned() }
}

/// The values that an author row is written with.
#[derive(Debug, Clone, PartialEq)]
pub struct AuthorFields {
    pub name: String,
    pub bio: Option<String>,
}

/// An optional text with its surrounding white space removed.
pub open spec fn trimmed_opt(s: Option<String>) -> Option<Seq<char>> {
    match s {
        Some(t) => Some(trim(t@)),
        None => None,
    }
}

/// The step before a new author is written: a name that is blank once
/// trimmed is refused; otherwise name and biography are written trimmed.
pub fn new_author_fields(input: &CreateAuthor) -> (res: Result<AuthorFields, AppError>)
    ensures
        trim(input.name@).len() == 0 ==> fails_with(
            res,
            ErrorKind::BadRequest,
            "Author name is required"@,
        ),
        trim(input.name@).len() > 0 ==> (res matches Ok(f) && f.name@ == trim(input.name@)
            && opt_text(f.bio) == trimmed_opt(input.bio)),
{
    let name = trimmed(input.name.as_str());
    if name.is_empty() {
        return Err(AppError::BadRequest("Author name is required".to_owned()));
    }
    let bio = match &input.bio {
        Some(b) => Some(trimmed_owned(b.as_str())),
        None => None,
    };
    Ok(AuthorFields { name: name.to_owned(), bio })
}

/// The name a change gives an author: the given one trimmed, or the stored one.
pub open spec fn updated_name(a: Author, u: UpdateAuthor) -> Seq<char> {
    match u.name {
        Some(n) => trim(n@),
        None => a.name@,
    }
}

/// The biography a change gives an author: the given one trimmed, or the
/// stored one.
pub open spec fn updated_bio(a: Author, u: UpdateAuthor) -> Option<Seq<char>> {
    match u.bio {
        Some(b) => Some(trim(b@)),
        None => opt_text(a.bio),
    }
}

/// The step after the author to change was looked up: a missing author is
/// not found; an empty resulting name is refused; otherwise the given fields,
/// trimmed, replace the stored ones.
pub fn plan_author_update(id: i64, existing: Option<Author>, input: &UpdateAuthor) -> (res: Result<
    AuthorFields,
    AppError,
>)
    ensures
        match existing {
            None => fails_with(res, ErrorKind::NotFound, missing_message(Resource::Author, id as int)),
            Some(a) => if updated_name(a, *input).len() == 0 {
                fails_with(res, ErrorKind::BadRequest, "Author name cannot be empty"@)
            } else {
                res matches Ok(f) && f.name@ == updated_name(a, *input) && opt_text(f.bio)
                    == updated_bio(a, *input)
            },
        },
{
    match existing {
        None => Err(not_found(Resource::Author, id)),
        Some(a) => {
            let name = match &input.name {
                Some(n) => trimmed_owned(n.as_str()),
                None => a.name.clone(),
            };
            if name.as_str().is_empty() {
                return Err(AppError::BadRequest("Author name cannot be empty".to_owned()));
            }
            let bio = match &input.bio {
                Some(b) => Some(trimmed_owned(b.as_str())),
                None => match &a.bio {
                    Some(b) => Some(b.clone()),
                    None => None,
                },
            };
            Ok(AuthorFields { name, bio })
        },
    }
}


/// A change that gives neither name nor biography.
pub open spec fn no_author_change() -> UpdateAuthor {
    UpdateAuthor { name: None, bio: None }
}

/// An author created from an accepted request keeps its name and biography
/// through a change that gives neither, and that change is accepted.
pub proof fn lemma_created_author_passes_update(input: CreateAuthor, a: Author)
    requires
        trim(input.name@).len() > 0,
        a.name@ == trim(input.name@),
        opt_text(a.bio) == trimmed_opt(input.bio),
    ensures
        updated_name(a, no_author_change()).len() > 0,
        updated_name(a, no_author_change()) == a.name@,
        updated_bio(a, no_author_change()) == opt_text(a.bio),
{
}

} // verus!

verus! {

/// A change to an author writes the name it gives (trimmed) or keeps the
/// stored one, and likewise the biography; a change is refused exactly when
/// the resulting name is empty.
pub proof fn lemma_author_update_fields(a: Author, u: UpdateAuthor)
    ensures
        u.name matches Some(n) ==> updated_name(a, u) == trim(n@),
        u.name is None ==> updated_name(a, u) == a.name@,
        u.bio matches Some(b) ==> updated_bio(a, u) == Some(trim(b@)),
        u.bio is None ==> updated_bio(a, u) == opt_text(a.bio),
        trimmed_opt(u.bio) is None <==> u.bio is None,
{
}

} // verus!
