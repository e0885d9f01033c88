use std::str::FromStr;

use homecat::catalogue::{Cache, Catalogue};
use homecat::gui::{key_message, panel, starter_books, App, Message, Panel, Screen};
use homecat::model::{Author, Book, Date, Status};
use homecat::text::{
    author_label_text, author_summary_text, detail_lines_text, status_label_text, status_words,
};
use uuid::Uuid;

struct Shelf {
    books: Vec<Book>,
}

impl Catalogue for Shelf {
    fn add(&mut self, book: Book) -> Result<(), &'static str> {
        self.books.push(book);
        Ok(())
    }

    fn update(&mut self, _book: Book) -> Result<(), &'static str> {
        Ok(())
    }

    fn list(&self) -> Result<Vec<Book>, &'static str> {
        Ok(self.books.clone())
    }
}

fn book(title: &str, author: Author, isbn: Option<&str>) -> Book {
    Book::builder()
        .id(Uuid::from_str("955ed41d-9411-45c7-91b7-c8c11abbf24e").unwrap())
        .title(title.to_string())
        .author(author)
        .maybe_isbn(isbn.map(|x| x.to_string()))
        .status(Status::Available)
        .created("2026-08-11T20:50:00Z".parse().unwrap())
        .updated("2026-08-11T20:50:00Z".parse().unwrap())
        .build()
}

fn single(name: &str) -> Author {
    Author::Single(name.to_string())
}

fn several(first: &str, second: &str, rest: &[&str]) -> Author {
    Author::Several {
        first: first.to_string(),
        second: second.to_string(),
        rest: rest.iter().map(|s| s.to_string()).collect(),
    }
}

#[test]
fn date_new_accepts_only_calendar_days() {
    assert!(Date::new(2024, 2, 29).is_some());
    assert!(Date::new(2023, 2, 29).is_none());
    assert!(Date::new(2000, 2, 29).is_some());
    assert!(Date::new(1900, 2, 29).is_none());
    assert!(Date::new(2026, 4, 31).is_none());
    assert!(Date::new(2026, 13, 1).is_none());
    assert!(Date::new(2026, 0, 1).is_none());
    assert!(Date::new(10000, 1, 1).is_none());
    assert!(Date::new(-9999, 1, 1).is_some());
    let d = Date::new(2026, 7, 1).unwrap();
    assert_eq!((d.year(), d.month(), d.day()), (2026, 7, 1));
}

#[test]
fn date_text_is_year_month_day() {
    assert_eq!(Date::new(2026, 7, 1).unwrap().to_text(), "2026-07-01");
    assert_eq!(Date::new(7, 12, 25).unwrap().to_text(), "0007-12-25");
    assert_eq!(Date::new(-44, 3, 15).unwrap().to_text(), "-000044-03-15");
}

#[test]
fn author_summaries() {
    assert_eq!(author_summary_text(&single("Truman Capote")), "Truman Capote");
    assert_eq!(author_summary_text(&several("A", "B", &[])), "A and B");
    assert_eq!(author_summary_text(&several("A", "B", &["C"])), "A, B, and C");
    assert_eq!(author_summary_text(&several("A", "B", &["C", "D"])), "A, B, et al.");
}

#[test]
fn author_labels() {
    assert_eq!(author_label_text(&single("Truman Capote")), "Author: Truman Capote");
    assert_eq!(author_label_text(&several("A", "B", &[])), "Authors: A and B");
    assert_eq!(author_label_text(&several("A", "B", &["C"])), "Authors: A, B, and C");
    assert_eq!(author_label_text(&several("A", "B", &["C", "D"])), "Authors: A, B, et al.");
}

#[test]
fn status_texts() {
    let on = Date::new(2026, 7, 1).unwrap();
    assert_eq!(status_words(&Status::Available), "Available");
    assert_eq!(
        status_words(&Status::LoanedIn { on, from: "Oz".to_string() }),
        "Loaned from Oz on 2026-07-01"
    );
    assert_eq!(
        status_words(&Status::LoanedOut { on, to: "Oz".to_string() }),
        "Loaned to Oz on 2026-07-01"
    );
    assert_eq!(
        status_words(&Status::Removed { on, reason: Some("lost".to_string()) }),
        "Removed on 2026-07-01: lost"
    );
    assert_eq!(status_words(&Status::Removed { on, reason: None }), "Removed on 2026-07-01");
    assert_eq!(status_label_text(&Status::Available), "Status: Available");
}

#[test]
fn detail_lines_of_a_full_book() {
    let b = Book::builder()
        .id(Uuid::from_u128(1))
        .title("In Cold Blood".to_string())
        .author(single("Truman Capote"))
        .isbn("1234".to_string())
        .first_published(1960)
        .owner("Tim".to_string())
        .notes("This is a really good book!".to_string())
        .status(Status::LoanedOut { on: Date::new(2026, 7, 1).unwrap(), to: "Oz".to_string() })
        .created("2026-08-11T20:50:00Z".parse().unwrap())
        .updated("2026-08-11T20:50:00Z".parse().unwrap())
        .build();
    assert_eq!(
        detail_lines_text(&b),
        vec![
            "Author: Truman Capote".to_string(),
            "First published: 1960".to_string(),
            "Owner: Tim".to_string(),
            "Notes: This is a really good book!".to_string(),
            "Status: Loaned to Oz on 2026-07-01".to_string(),
        ]
    );
}

#[test]
fn detail_lines_skip_what_is_unknown() {
    let b = book("Orlando", single("Virginia Woolf"), None);
    assert_eq!(
        detail_lines_text(&b),
        vec![
            "Author: Virginia Woolf".to_string(),
            "Owner: ".to_string(),
            "Status: Available".to_string(),
        ]
    );
}

#[test]
fn builder_fills_every_field() {
    let id = Uuid::from_u128(42);
    let at: jiff::Timestamp = "2026-08-11T20:50:00Z".parse().unwrap();
    let b = Book::builder()
        .id(id)
        .title("T".to_string())
        .subtitle("S".to_string())
        .author(single("A"))
        .isbn("I".to_string())
        .first_published(1999)
        .owner("O".to_string())
        .notes("N".to_string())
        .status(Status::Available)
        .created(at)
        .updated(at)
        .build();
    assert_eq!(*b.id(), id);
    assert_eq!(b.title(), "T");
    assert_eq!(b.subtitle(), Some("S"));
    assert_eq!(b.author(), &single("A"));
    assert_eq!(b.isbn(), Some("I"));
    assert_eq!(b.first_published(), Some(1999));
    assert_eq!(b.owner(), "O");
    assert_eq!(b.notes(), Some("N"));
    assert_eq!(b.status(), &Status::Available);
    assert_eq!(b.created(), at);
    assert_eq!(b.updated(), at);
    let maybe = Book::builder()
        .id(id)
        .title("T".to_string())
        .maybe_subtitle(None)
        .author(single("A"))
        .maybe_isbn(None)
        .maybe_first_published(None)
        .maybe_notes(None)
        .status(Status::Available)
        .created(at)
        .updated(at)
        .build();
    assert_eq!(maybe.subtitle(), None);
    assert_eq!(maybe.isbn(), None);
    assert_eq!(maybe.first_published(), None);
    assert_eq!(maybe.notes(), None);
    assert_eq!(maybe.owner(), "");
}

fn app() -> App<Shelf> {
    let books = vec![
        book("In Cold Blood", single("Truman Capote"), Some("1234")),
        book("Breakfast at Tiffany's", single("Truman Capote"), Some("5678")),
        book("Truman Capote", single("Someone Else"), None),
    ];
    App::new(Cache::new(Shelf { books }).unwrap())
}

#[test]
fn app_starts_at_home() {
    let a = app();
    assert_eq!(a.screen(), Screen::Home);
    assert_eq!(a.search_input(), "");
    assert!(a.search_result().is_none());
    assert!(a.browse_state().is_none());
}

#[test]
fn navigation_changes_only_the_screen() {
    let mut a = app();
    a.update(Message::NavigateTo(Screen::Browse));
    assert_eq!(a.screen(), Screen::Browse);
    a.update(Message::NavigateTo(Screen::Home));
    assert_eq!(a.screen(), Screen::Home);
    assert_eq!(a.search_input(), "");
}

#[test]
fn execute_search_looks_by_isbn_then_title_then_author() {
    let mut a = app();
    a.update(Message::SearchInput("Truman Capote".to_string()));
    assert_eq!(a.screen(), Screen::Search);
    a.update(Message::ExecuteSearch);
    let result = a.search_result().unwrap();
    let titles: Vec<&str> = result.books().iter().map(|b| b.title()).collect();
    assert_eq!(titles, vec!["Truman Capote", "In Cold Blood", "Breakfast at Tiffany's"]);
    assert_eq!(result.selected(), None);
}

#[test]
fn execute_search_twice_is_the_same_as_once() {
    let mut a = app();
    a.update(Message::SearchInput("1234".to_string()));
    a.update(Message::ExecuteSearch);
    let once: Vec<Book> = a.search_result().unwrap().books().clone();
    a.update(Message::ExecuteSearch);
    assert_eq!(a.search_result().unwrap().books(), &once);
    assert_eq!(once.len(), 1);
}

#[test]
fn emptying_the_input_clears_results() {
    let mut a = app();
    a.update(Message::SearchInput("1234".to_string()));
    a.update(Message::ExecuteSearch);
    assert!(a.search_result().is_some());
    a.update(Message::SearchInput("".to_string()));
    assert!(a.search_result().is_none());
    assert_eq!(a.screen(), Screen::Search);
}

#[test]
fn typing_keeps_results_until_input_is_empty() {
    let mut a = app();
    a.update(Message::SearchInput("1234".to_string()));
    a.update(Message::ExecuteSearch);
    a.update(Message::SearchInput("12345".to_string()));
    assert_eq!(a.search_result().unwrap().books().len(), 1);
    assert_eq!(a.search_input(), "12345");
}

#[test]
fn selecting_and_deselecting_results() {
    let mut a = app();
    a.update(Message::SearchInput("Truman Capote".to_string()));
    a.update(Message::ExecuteSearch);
    a.update(Message::BookSelected(1));
    assert_eq!(a.search_result().unwrap().selected(), Some(1));
    assert!(a.search_result().unwrap().is_highlighted(1));
    assert!(!a.search_result().unwrap().is_highlighted(0));
    assert_eq!(a.search_result().unwrap().books().len(), 3);
    a.update(Message::BookDeselected);
    assert_eq!(a.search_result().unwrap().selected(), None);
}

#[test]
fn selecting_outside_search_touches_no_results() {
    let mut a = app();
    a.update(Message::SearchInput("1234".to_string()));
    a.update(Message::ExecuteSearch);
    a.update(Message::NavigateTo(Screen::Browse));
    a.update(Message::BookSelected(0));
    assert_eq!(a.search_result().unwrap().selected(), None);
    assert!(a.browse_state().is_none());
}

#[test]
fn panels() {
    let mut a = app();
    assert_eq!(panel(a.search_result()), Panel::Hidden);
    a.update(Message::SearchInput("nothing like this".to_string()));
    a.update(Message::ExecuteSearch);
    assert_eq!(panel(a.search_result()), Panel::NoResults);
    a.update(Message::SearchInput("1234".to_string()));
    a.update(Message::ExecuteSearch);
    assert_eq!(panel(a.search_result()), Panel::Books);
}

#[test]
fn escape_leads_home() {
    assert!(matches!(
        key_message(true, false, true),
        Some(Message::NavigateTo(Screen::Home))
    ));
    assert!(key_message(true, true, true).is_none());
    assert!(key_message(true, false, false).is_none());
    assert!(key_message(false, false, true).is_none());
}

#[test]
fn catalogue_is_unchanged_by_messages() {
    let mut a = app();
    let before = a.cache().list().unwrap();
    a.update(Message::SearchInput("x".to_string()));
    a.update(Message::ExecuteSearch);
    a.update(Message::BookSelected(0));
    a.update(Message::NavigateTo(Screen::Home));
    assert_eq!(a.cache().list().unwrap(), before);
}

#[test]
fn starter_books_are_the_two_capote_books() {
    let now: jiff::Timestamp = "2026-08-11T20:50:00Z".parse().unwrap();
    let books = starter_books(Uuid::from_u128(1), Uuid::from_u128(2), now);
    assert_eq!(books.len(), 2);
    assert_eq!(*books[0].id(), Uuid::from_u128(1));
    assert_eq!(books[0].title(), "In Cold Blood");
    assert_eq!(books[0].isbn(), Some("1234"));
    assert_eq!(books[0].first_published(), Some(1960));
    assert_eq!(books[0].notes(), Some("This is a really good book!"));
    assert_eq!(books[0].status(), &Status::Available);
    assert_eq!(*books[1].id(), Uuid::from_u128(2));
    assert_eq!(books[1].title(), "Breakfast at Tiffany's");
    assert_eq!(books[1].owner(), "Tim");
    assert_eq!(
        books[1].status(),
        &Status::LoanedOut { on: Date::new(2026, 7, 1).unwrap(), to: "Oz".to_string() }
    );
    assert_eq!(books[1].created(), now);
}

#[test]
fn clicking_a_row_opens_it_and_clicking_it_again_closes_it() {
    let mut a = app();
    a.update(Message::SearchInput("Truman Capote".to_string()));
    a.update(Message::ExecuteSearch);
    let result = a.search_result().unwrap();
    assert!(matches!(result.row_message(2), Message::BookSelected(2)));
    a.update(Message::BookSelected(2));
    let result = a.search_result().unwrap();
    assert!(matches!(result.row_message(2), Message::BookDeselected));
    assert!(matches!(result.row_message(0), Message::BookSelected(0)));
}
