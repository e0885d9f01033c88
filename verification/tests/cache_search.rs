use std::str::FromStr;

use homecat::catalogue::{Cache, Catalogue, Search, Searchable};
use homecat::model::{Author, Book, Status};
use uuid::Uuid;

struct InMemoryCatalogue {
    books: Vec<Book>,
}

impl Catalogue for InMemoryCatalogue {
    fn add(&mut self, book: Book) -> Result<(), &'static str> {
        Ok(self.books.push(book))
    }

    fn update(&mut self, book: Book) -> Result<(), &'static str> {
        let index = self.books.iter().position(|b| *b == book).unwrap();
        self.books[index] = book;
        Ok(())
    }

    fn list(&self) -> Result<Vec<Book>, &'static str> {
        Ok(self.books.to_vec())
    }
}

fn book(title: Option<&str>, author: Option<&str>, isbn: Option<&str>) -> Book {
    Book::builder()
        .id(Uuid::from_str("955ed41d-9411-45c7-91b7-c8c11abbf24e").unwrap())
        .title(title.unwrap_or("In Cold Blood").to_string())
        .author(Author::Single(
            author.unwrap_or("Truman Capote").to_string(),
        ))
        .maybe_isbn(isbn.map(|x| x.to_string()))
        .status(Status::Available)
        .created("2026-08-11T20:50:00Z".parse().unwrap())
        .updated("2026-08-11T20:50:00Z".parse().unwrap())
        .build()
}

fn shelf() -> Vec<Book> {
    vec![
        book(None, None, Some("1234")),
        book(Some("Feersum Endjinn"), Some("Iain M. Banks"), Some("5678")),
        book(Some("Orlando"), Some("Virginia Woolfe"), None),
    ]
}

#[test]
fn returns_books_with_matching_isbn() {
    let books = shelf();
    let delegate = InMemoryCatalogue { books };
    let cache = Cache::new(delegate).unwrap();

    let actual = cache.search(Search::Isbn("1234".to_string())).unwrap();
    assert_eq!(actual, vec![book(None, None, Some("1234"))])
}

#[test]
fn returns_books_with_matching_title() {
    let books = shelf();
    let delegate = InMemoryCatalogue { books };
    let cache = Cache::new(delegate).unwrap();

    let actual = cache
        .search(Search::Title("In Cold Blood".to_string()))
        .unwrap();
    assert_eq!(actual, vec![book(None, None, Some("1234"))])
}

#[test]
fn returns_books_with_matching_author() {
    let books = shelf();
    let delegate = InMemoryCatalogue { books };
    let cache = Cache::new(delegate).unwrap();

    let actual = cache
        .search(Search::Author("Truman Capote".to_string()))
        .unwrap();
    assert_eq!(actual, vec![book(None, None, Some("1234"))])
}

#[test]
fn search_finds_nothing_for_an_unknown_isbn() {
    let cache = Cache::new(InMemoryCatalogue { books: shelf() }).unwrap();
    let actual = cache.search(Search::Isbn("9999".to_string())).unwrap();
    assert!(actual.is_empty());
}

#[test]
fn search_by_isbn_skips_books_without_one() {
    let cache = Cache::new(InMemoryCatalogue { books: shelf() }).unwrap();
    let actual = cache.search(Search::Isbn("".to_string())).unwrap();
    assert!(actual.is_empty());
}

#[test]
fn search_keeps_the_order_of_the_catalogue() {
    let books = vec![
        book(Some("A"), Some("Same"), Some("1")),
        book(Some("B"), Some("Other"), Some("2")),
        book(Some("C"), Some("Same"), Some("3")),
    ];
    let cache = Cache::new(InMemoryCatalogue { books }).unwrap();
    let actual = cache.search(Search::Author("Same".to_string())).unwrap();
    assert_eq!(
        actual,
        vec![
            book(Some("A"), Some("Same"), Some("1")),
            book(Some("C"), Some("Same"), Some("3")),
        ]
    );
}

#[test]
fn search_by_author_looks_at_every_author() {
    let several = Book::builder()
        .id(Uuid::from_u128(7))
        .title("Good Omens".to_string())
        .author(Author::Several {
            first: "Terry Pratchett".to_string(),
            second: "Neil Gaiman".to_string(),
            rest: vec!["A. Third".to_string(), "B. Fourth".to_string()],
        })
        .status(Status::Available)
        .created("2026-08-11T20:50:00Z".parse().unwrap())
        .updated("2026-08-11T20:50:00Z".parse().unwrap())
        .build();
    let cache = Cache::new(InMemoryCatalogue { books: vec![several.clone()] }).unwrap();
    for name in ["Terry Pratchett", "Neil Gaiman", "A. Third", "B. Fourth"] {
        let actual = cache.search(Search::Author(name.to_string())).unwrap();
        assert_eq!(actual, vec![several.clone()]);
    }
    let actual = cache.search(Search::Author("Neil".to_string())).unwrap();
    assert!(actual.is_empty());
}

#[test]
fn searching_results_again_finds_them_again() {
    let books = vec![
        book(Some("A"), Some("Same"), Some("1")),
        book(Some("B"), Some("Other"), Some("2")),
        book(Some("C"), Some("Same"), Some("3")),
    ];
    let cache = Cache::new(InMemoryCatalogue { books }).unwrap();
    let first = cache.search(Search::Author("Same".to_string())).unwrap();
    let again = Cache::new(InMemoryCatalogue { books: first.clone() }).unwrap();
    let second = again.search(Search::Author("Same".to_string())).unwrap();
    assert_eq!(first, second);
}

#[test]
fn list_gives_the_cached_books() {
    let cache = Cache::new(InMemoryCatalogue { books: shelf() }).unwrap();
    assert_eq!(cache.list().unwrap(), shelf());
}

#[test]
fn add_refreshes_the_cache_from_the_delegate() {
    let mut cache = Cache::new(InMemoryCatalogue { books: vec![] }).unwrap();
    cache.add(book(None, None, Some("1234"))).unwrap();
    assert_eq!(cache.list().unwrap(), vec![book(None, None, Some("1234"))]);
    let found = cache.search(Search::Isbn("1234".to_string())).unwrap();
    assert_eq!(found, vec![book(None, None, Some("1234"))]);
}

#[test]
fn update_refreshes_the_cache_from_the_delegate() {
    let mut cache = Cache::new(InMemoryCatalogue { books: shelf() }).unwrap();
    cache.update(book(None, None, Some("1234"))).unwrap();
    assert_eq!(cache.list().unwrap(), shelf());
}

struct Failing {
    books: Vec<Book>,
    fail_add: bool,
    fail_list: bool,
}

impl Catalogue for Failing {
    fn add(&mut self, book: Book) -> Result<(), &'static str> {
        if self.fail_add {
            return Err("add failed");
        }
        self.books.push(book);
        self.fail_list = true;
        Ok(())
    }

    fn update(&mut self, _book: Book) -> Result<(), &'static str> {
        Err("update failed")
    }

    fn list(&self) -> Result<Vec<Book>, &'static str> {
        if self.fail_list {
            Err("list failed")
        } else {
            Ok(self.books.clone())
        }
    }
}

#[test]
fn failed_add_leaves_the_cache_as_it_was() {
    let delegate = Failing { books: shelf(), fail_add: true, fail_list: false };
    let mut cache = Cache::new(delegate).unwrap();
    assert_eq!(cache.add(book(Some("X"), None, None)), Err("add failed"));
    assert_eq!(cache.list().unwrap(), shelf());
}

#[test]
fn failed_refresh_after_add_leaves_the_cache_as_it_was() {
    let delegate = Failing { books: shelf(), fail_add: false, fail_list: false };
    let mut cache = Cache::new(delegate).unwrap();
    assert_eq!(cache.add(book(Some("X"), None, None)), Err("list failed"));
    assert_eq!(cache.list().unwrap(), shelf());
}

#[test]
fn failed_update_leaves_the_cache_as_it_was() {
    let delegate = Failing { books: shelf(), fail_add: false, fail_list: false };
    let mut cache = Cache::new(delegate).unwrap();
    assert_eq!(cache.update(book(None, None, Some("1234"))), Err("update failed"));
    assert_eq!(cache.list().unwrap(), shelf());
}

#[test]
fn new_reports_a_delegate_that_cannot_list() {
    let delegate = Failing { books: shelf(), fail_add: false, fail_list: true };
    assert!(matches!(Cache::new(delegate), Err("list failed")));
}

#[test]
fn install_takes_a_listing_or_keeps_the_books() {
    let mut cache = Cache::new(InMemoryCatalogue { books: shelf() }).unwrap();
    assert_eq!(cache.install(Err("offline")), Err("offline"));
    assert_eq!(cache.list().unwrap(), shelf());
    assert_eq!(cache.install(Ok(vec![book(Some("Only"), None, None)])), Ok(()));
    assert_eq!(cache.list().unwrap(), vec![book(Some("Only"), None, None)]);
}

#[test]
fn rows_to_listing_keeps_rows_in_order() {
    let rows: Vec<Result<Book, String>> = shelf().into_iter().map(Ok).collect();
    assert_eq!(homecat::catalogue::rows_to_listing(rows), Ok(shelf()));
}

#[test]
fn rows_to_listing_reports_an_unreadable_row() {
    let rows: Vec<Result<Book, String>> = vec![
        Ok(book(None, None, None)),
        Err("bad column".to_string()),
        Ok(book(Some("B"), None, None)),
    ];
    assert_eq!(
        homecat::catalogue::rows_to_listing(rows),
        Err("Failed to contruct Book from row data")
    );
}

struct Recording {
    calls: Vec<(String, Book)>,
}

impl Catalogue for Recording {
    fn add(&mut self, book: Book) -> Result<(), &'static str> {
        self.calls.push(("add".to_string(), book));
        Ok(())
    }

    fn update(&mut self, book: Book) -> Result<(), &'static str> {
        self.calls.push(("update".to_string(), book));
        Ok(())
    }

    fn list(&self) -> Result<Vec<Book>, &'static str> {
        Ok(self.calls.iter().map(|(_, b)| b.clone()).collect())
    }
}

#[test]
fn writes_hand_the_book_unchanged_to_the_matching_delegate_call() {
    let mut cache = Cache::new(Recording { calls: vec![] }).unwrap();
    let first = book(Some("First"), None, Some("1"));
    let second = book(Some("Second"), None, Some("2"));
    assert_eq!(cache.add(first.clone()), Ok(()));
    assert_eq!(cache.update(second.clone()), Ok(()));
    assert_eq!(cache.list().unwrap(), vec![first, second]);
}
