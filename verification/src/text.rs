//! The text that the catalogue shows for a book.

use vstd::prelude::*;

use crate::model::{
    date_text, digit_char, Author, AuthorView, Book, BookView, Date, Status, StatusView,
};

verus! {

/// The decimal digits of `n`, without leading zeros.
pub open spec fn decimal_text(n: nat) -> Seq<char>
    decreases n,
{
    if n < 10 {
        seq![digit_char(n as int)]
    } else {
        decimal_text(n / 10).push(digit_char((n % 10) as int))
    }
}

/// `ToString::to_string` on a `u16`, which std documents as writing the number
/// in decimal, with no sign or padding; that is what the contract claims.
#[verifier::external_body]
fn decimal(n: u16) -> (s: String)
    ensures
        s@ == decimal_text(n as nat),
{
    n.to_string()
}

/// How a day is written.
pub open spec fn day_text(d: Date) -> Seq<char> {
    date_text(d@.0 as int, d@.1 as int, d@.2 as int)
}

/// The authors as a short line: the single author's name; two authors joined
/// by `and`; three as a list; more than three as the first two and `et al.`.
pub open spec fn author_summary(author: AuthorView) -> Seq<char> {
    match author {
        AuthorView::Single(name) => name,
        AuthorView::Several { first, second, rest } => if rest.len() == 0 {
            first + " and "@ + second
        } else if rest.len() == 1 {
            first + ", "@ + second + ", and "@ + rest[0]
        } else {
            first + ", "@ + second + ", et al."@
        },
    }
}

/// The authors as the detail view labels them.
pub open spec fn author_label(author: AuthorView) -> Seq<char> {
    match author {
        AuthorView::Single(name) => "Author: "@ + name,
        AuthorView::Several { .. } => "Authors: "@ + author_summary(author),
    }
}

/// Where the book stands, in words.
pub open spec fn status_text(status: StatusView) -> Seq<char> {
    match status {
        StatusView::Available => "Available"@,
        StatusView::LoanedIn { on, from } => "Loaned from "@ + from + " on "@ + day_text(on),
        StatusView::LoanedOut { on, to } => "Loaned to "@ + to + " on "@ + day_text(on),
        StatusView::Removed { on, reason } => match reason {
            Some(why) => "Removed on "@ + day_text(on) + ": "@ + why,
            None => "Removed on "@ + day_text(on),
        },
    }
}

/// The status as the detail view labels it.
pub open spec fn status_label(status: StatusView) -> Seq<char> {
    "Status: "@ + status_text(status)
}

/// The lines that the detail view shows for a book, in order: its authors,
/// the year of first publication where it is known, its owner, its notes where
/// there are any, and its status.
pub open spec fn detail_lines(book: BookView) -> Seq<Seq<char>> {
    let published: Seq<Seq<char>> = match book.first_published {
        Some(year) => seq!["First published: "@ + decimal_text(year as nat)],
        None => Seq::empty(),
    };
    let notes: Seq<Seq<char>> = match book.notes {
        Some(n) => seq!["Notes: "@ + n],
        None => Seq::empty(),
    };
    seq![author_label(book.author)] + published + seq!["Owner: "@ + book.owner] + notes
        + seq![status_label(book.status)]
}

/// The authors as a short line, as the list of books shows them.
pub fn author_summary_text(author: &Author) -> (s: String)
    ensures
        s@ == author_summary(author@),
{
    match author {
        Author::Single(name) => name.clone(),
        Author::Several { first, second, rest } => {
            let mut s = first.clone();
            if rest.len() == 0 {
                s.append(" and ");
                s.append(second.as_str());
            } else if rest.len() == 1 {
                s.append(", ");
                s.append(second.as_str());
                s.append(", and ");
                s.append(rest[0].as_str());
            } else {
                s.append(", ");
                s.append(second.as_str());
                s.append(", et al.");
            }
            s
        },
    }
}

/// The authors as the detail view labels them.
pub fn author_label_text(author: &Author) -> (s: String)
    ensures
        s@ == author_label(author@),
{
    let mut s = match author {
        Author::Single(_) => String::from_str("Author: "),
        Author::Several { .. } => String::from_str("Authors: "),
    };
    let names = author_summary_text(author);
    s.append(names.as_str());
    s
}

/// Where the book stands, in words.
pub fn status_words(status: &Status) -> (s: String)
    ensures
        s@ == status_text(status@),
{
    match status {
        Status::Available => String::from_str("Available"),
        Status::LoanedIn { on, from } => {
            let mut s = String::from_str("Loaned from ");
            s.append(from.as_str());
            s.append(" on ");
            let day = on.to_text();
            s.append(day.as_str());
            s
        },
        Status::LoanedOut { on, to } => {
            let mut s = String::from_str("Loaned to ");
            s.append(to.as_str());
            s.append(" on ");
            let day = on.to_text();
            s.append(day.as_str());
            s
        },
        Status::Removed { on, reason } => {
            let mut s = String::from_str("Removed on ");
            let day = on.to_text();
            s.append(day.as_str());
            match reason {
                Some(why) => {
                    s.append(": ");
                    s.append(why.as_str());
                },
                None => {},
            }
            s
        },
    }
}

/// The status as the detail view labels it.
pub fn status_label_text(status: &Status) -> (s: String)
    ensures
        s@ == status_label(status@),
{
    let mut s = String::from_str("Status: ");
    let words = status_words(status);
    s.append(words.as_str());
    s
}

/// The lines that the detail view shows for a book.
pub fn detail_lines_text(book: &Book) -> (lines: Vec<String>)
    ensures
        lines@.map_values(|l: String| l@) == detail_lines(book@),
{
    let mut lines: Vec<String> = Vec::new();
    lines.push(author_label_text(book.author()));
    match book.first_published() {
        Some(year) => {
            let mut s = String::from_str("First published: ");
            let digits = decimal(year);
            s.append(digits.as_str());
            lines.push(s);
        },
        None => {},
    }
    let mut owner = String::from_str("Owner: ");
    owner.append(book.owner());
    lines.push(owner);
    match book.notes() {
        Some(n) => {
            let mut s = String::from_str("Notes: ");
            s.append(n);
            lines.push(s);
        },
        None => {},
    }
    lines.push(status_label_text(book.status()));
    assert(lines@.map_values(|l: String| l@) =~= detail_lines(book@));
    lines
}

} // verus!
