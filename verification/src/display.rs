//! What the browser client shows: star ratings, book counts, biography
//! previews and author initials.

use vstd::prelude::*;
use vstd::string::StringSliceAdditionalSpecFns;
use vstd::utf8::{decode_utf8, encode_utf8, is_char_boundary};
use crate::text::{decimal, int_text, joined};

verus! {

/// `filled` full stars followed by empty ones, five in all.
pub open spec fn star_row(filled: nat) -> Seq<char>
    recommends
        filled <= 5,
{
    Seq::new(filled, |i: int| '\u{2605}') + Seq::new((5 - filled) as nat, |i: int| '\u{2606}')
}

/// How many stars a rating fills: the rating brought within 0 to 5; none
/// when there is no rating.
pub open spec fn filled_stars(rating: Option<i32>) -> nat {
    match rating {
        Some(r) => if r < 0 {
            0
        } else if r > 5 {
            5
        } else {
            r as nat
        },
        None => 0,
    }
}

/// The five stars that show a rating.
pub fn render_stars(rating: Option<i32>) -> (res: String)
    ensures
        res@ == star_row(filled_stars(rating)),
        res@.len() == 5,
{
    let filled: i32 = match rating {
        Some(r) => if r < 0 {
            0
        } else if r > 5 {
            5
        } else {
            r
        },
        None => 0,
    };
    let mut out: String = "".to_owned();
    proof {
        reveal_strlit("");
        reveal_strlit("\u{2605}");
        reveal_strlit("\u{2606}");
    }
    let mut i: i32 = 0;
    while i < 5
        invariant
            0 <= filled <= 5,
            filled == filled_stars(rating),
            0 <= i <= 5,
            out@ == (if i <= filled {
                Seq::new(i as nat, |k: int| '\u{2605}')
            } else {
                Seq::new(filled as nat, |k: int| '\u{2605}') + Seq::new(
                    (i - filled) as nat,
                    |k: int| '\u{2606}',
                )
            }),
        decreases 5 - i,
    {
        proof {
            reveal_strlit("\u{2605}");
            reveal_strlit("\u{2606}");
        }
        if i < filled {
            out.append("\u{2605}");
            assert(out@ =~= Seq::new((i + 1) as nat, |k: int| '\u{2605}'));
        } else {
            out.append("\u{2606}");
            assert(out@ =~= Seq::new(filled as nat, |k: int| '\u{2605}') + Seq::new(
                (i + 1 - filled) as nat,
                |k: int| '\u{2606}',
            ));
        }
        i = i + 1;
    }
    assert(out@ =~= star_row(filled_stars(rating)));
    out
}

/// "`n` book", with an `s` unless `n` is one.
pub open spec fn book_count_text(n: int) -> Seq<char> {
    decimal(n) + " book"@ + if n == 1 {
        Seq::<char>::empty()
    } else {
        "s"@
    }
}

/// The label that counts an author's books.
pub fn book_count_label(n: i64) -> (res: String)
    ensures
        res@ == book_count_text(n as int),
{
    let num = int_text(n);
    let label = joined(num.as_str(), " book");
    if n == 1 {
        proof {
            reveal_strlit("");
        }
        label.concat("")
    } else {
        label.concat("s")
    }
}

/// The UTF-8 bytes of a text.
pub open spec fn bytes_of(s: Seq<char>) -> Seq<u8> {
    encode_utf8(s)
}

/// The preview of a biography: longer than 120 bytes, its first 120 bytes
/// and an ellipsis; otherwise the whole of it; nothing without one.
pub open spec fn preview_of(bio: Option<Seq<char>>) -> Seq<char> {
    match bio {
        Some(b) => if bytes_of(b).len() > 120 {
            decode_utf8(bytes_of(b).take(120)) + "..."@
        } else {
            b
        },
        None => Seq::empty(),
    }
}

/// The preview of an author's biography on the author list. The cut falls
/// at byte 120, which must begin a character.
pub fn bio_preview(bio: Option<&str>) -> (res: String)
    requires
        match bio {
            Some(b) => bytes_of(b@).len() <= usize::MAX && (bytes_of(b@).len() <= 120
                || is_char_boundary(bytes_of(b@), 120)),
            None => true,
        },
    ensures
        res@ == preview_of(
            match bio {
                Some(b) => Some(b@),
                None => None,
            },
        ),
{
    match bio {
        Some(b) => {
            if b.len() > 120 {
                let (head, _) = b.split_at(120);
                proof {
                    broadcast use vstd::utf8::encode_utf8_decode_utf8;
                    broadcast use vstd::utf8::encode_utf8_valid_utf8;
                    assert(encode_utf8(head@) == bytes_of(b@).take(120));
                    assert(decode_utf8(encode_utf8(head@)) == head@);
                    assert(head@ == decode_utf8(bytes_of(b@).take(120)));
                }
                joined(head, "...")
            } else {
                b.to_owned()
            }
        },
        None => {
            proof {
                reveal_strlit("");
            }
            "".to_owned()
        },
    }
}

/// What `char::to_uppercase` turns a character into.
pub uninterp spec fn upper_case(c: char) -> Seq<char>;

/// `char::to_uppercase`, collected into a string: the upper-case mapping of
/// `c`, one or more characters.
#[verifier::external_body]
fn upper_case_text(c: char) -> (res: String)
    ensures
        res@ == upper_case(c),
{
    c.to_uppercase().to_string()
}

/// The character an author's avatar shows: the first of the name, or `?`
/// for an empty name.
pub open spec fn initial_of(name: Seq<char>) -> char {
    if name.len() > 0 {
        name[0]
    } else {
        '?'
    }
}

/// The avatar text of an author: the name's first character in upper case.
pub fn avatar_initial(name: &str) -> (res: String)
    ensures
        res@ == upper_case(initial_of(name@)),
{
    let c = if name.unicode_len() > 0 {
        name.get_char(0)
    } else {
        '?'
    };
    upper_case_text(c)
}

} // verus!

verus! {

/// A rating shows five stars: as many full ones as the rating brought
/// within 0 to 5 (none without a rating), then empty ones.
pub proof fn lemma_stars_show_rating(rating: Option<i32>)
    ensures
        star_row(filled_stars(rating)).len() == 5,
        forall|k: int|
            0 <= k < 5 ==> (#[trigger] star_row(filled_stars(rating))[k] == '\u{2605}' <==> (
            rating matches Some(r) && k < r)),
        forall|k: int|
            0 <= k < 5 ==> (#[trigger] star_row(filled_stars(rating))[k] == '\u{2605}'
                || star_row(filled_stars(rating))[k] == '\u{2606}'),
{
    let n = filled_stars(rating);
    assert forall|k: int| 0 <= k < 5 implies (#[trigger] star_row(n)[k] == '\u{2605}' <==> (
    rating matches Some(r) && k < r)) by {
        if k < n {
            assert(star_row(n)[k] == '\u{2605}');
        } else {
            assert(star_row(n)[k] == '\u{2606}');
        }
    }
}

/// The count label reads "1 book" for one, and "`n` books" otherwise.
pub proof fn lemma_count_label(n: int)
    ensures
        n == 1 ==> book_count_text(n) == decimal(1) + " book"@,
        n != 1 ==> book_count_text(n) == decimal(n) + " book"@ + "s"@,
{
    assert(decimal(1) + " book"@ + Seq::<char>::empty() == decimal(1) + " book"@);
}

/// A biography of at most 120 bytes is shown whole; a longer one is cut to
/// the characters of its first 120 bytes and followed by "..."; no biography
/// shows nothing.
pub proof fn lemma_preview(bio: Option<Seq<char>>)
    ensures
        bio matches Some(b) ==> (bytes_of(b).len() <= 120 ==> preview_of(bio) == b),
        bio matches Some(b) ==> (bytes_of(b).len() > 120 ==> preview_of(bio) == decode_utf8(
            bytes_of(b).take(120),
        ) + "..."@),
        bio is None ==> preview_of(bio).len() == 0,
{
}

} // verus!
