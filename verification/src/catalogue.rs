//! Catalogues of books, and a cache in front of one that answers searches.

use vstd::prelude::*;

use crate::model::{Author, AuthorView, Book, BookView};

verus! {

/// What a search looks for.
pub enum Search {
    Isbn(String),
    Title(String),
    Author(String),
}

pub enum SearchView {
    Isbn(Seq<char>),
    Title(Seq<char>),
    Author(Seq<char>),
}

impl View for Search {
    type V = SearchView;

    open spec fn view(&self) -> SearchView {
        match self {
            Search::Isbn(s) => SearchView::Isbn(s@),
            Search::Title(s) => SearchView::Title(s@),
            Search::Author(s) => SearchView::Author(s@),
        }
    }
}

/// Whether `name` is one of the authors.
pub open spec fn is_author(author: AuthorView, name: Seq<char>) -> bool {
    match author {
        AuthorView::Single(single) => single == name,
        AuthorView::Several { first, second, rest } => first == name || second == name
            || rest.contains(name),
    }
}

/// Whether a book is what a search looks for: the same ISBN, the same title,
/// or the name of one of its authors.
pub open spec fn finds(search: SearchView, book: BookView) -> bool {
    match search {
        SearchView::Isbn(isbn) => book.isbn == Some(isbn),
        SearchView::Title(title) => book.title == title,
        SearchView::Author(name) => is_author(book.author, name),
    }
}

/// The books that a search finds, in the order in which they are held.
pub open spec fn found(books: Seq<BookView>, search: SearchView) -> Seq<BookView> {
    books.filter(|b: BookView| finds(search, b))
}

/// The views of a sequence of books.
pub open spec fn views(books: Seq<Book>) -> Seq<BookView> {
    books.map_values(|b: Book| b@)
}

/// `==` on `str`, which std documents as comparing the two strings' contents.
#[verifier::external_body]
fn same_text(a: &str, b: &str) -> (r: bool)
    ensures
        r == (a@ == b@),
{
    a == b
}

/// Whether `name` is one of the authors.
#[verifier::loop_isolation(false)]
pub fn is_author_named(author: &Author, name: &String) -> (r: bool)
    ensures
        r == is_author(author@, name@),
{
    match author {
        Author::Single(single) => *single == *name,
        Author::Several { first, second, rest } => {
            if *first == *name || *second == *name {
                return true;
            }
            let mut i: usize = 0;
            while i < rest.len()
                invariant
                    i <= rest.len(),
                    forall|j: int| 0 <= j < i ==> #[trigger] rest@[j]@ != name@,
                decreases rest.len() - i,
            {
                if rest[i] == *name {
                    assert(crate::model::texts(rest@)[i as int] == name@);
                    assert(crate::model::texts(rest@).contains(name@));
                    return true;
                }
                i = i + 1;
            }
            assert(!crate::model::texts(rest@).contains(name@)) by {
                if crate::model::texts(rest@).contains(name@) {
                    let k = choose|k: int|
                        0 <= k < rest@.len() && crate::model::texts(rest@)[k] == name@;
                    assert(rest@[k]@ == name@);
                }
            }
            false
        },
    }
}

/// Whether a book is what a search looks for.
pub fn book_matches(search: &Search, book: &Book) -> (r: bool)
    ensures
        r == finds(search@, book@),
{
    match search {
        Search::Isbn(isbn) => match book.isbn() {
            Some(own) => same_text(own, isbn.as_str()),
            None => false,
        },
        Search::Title(title) => same_text(book.title(), title.as_str()),
        Search::Author(name) => is_author_named(book.author(), name),
    }
}

/// What the books found among the first `i + 1` are: those among the first `i`,
/// and the next book where the search finds it.
proof fn lemma_found_step(books: Seq<Book>, search: SearchView, i: int)
    requires
        0 <= i < books.len(),
    ensures
        found(views(books.take(i + 1)), search) == if finds(search, books[i]@) {
            found(views(books.take(i)), search).push(books[i]@)
        } else {
            found(views(books.take(i)), search)
        },
{
    let next = views(books.take(i + 1));
    assert(next.drop_last() =~= views(books.take(i)));
    assert(next.last() == books[i]@);
    reveal(Seq::filter);
}

/// Copies of the books, in the same order.
pub fn clone_books(books: &Vec<Book>) -> (r: Vec<Book>)
    ensures
        views(r@) == views(books@),
{
    let mut r: Vec<Book> = Vec::new();
    let mut i: usize = 0;
    while i < books.len()
        invariant
            i <= books.len(),
            r@.len() == i,
            forall|j: int| 0 <= j < i ==> #[trigger] r@[j]@ == books@[j]@,
        decreases books.len() - i,
    {
        r.push(books[i].clone());
        i = i + 1;
    }
    assert(views(r@) =~= views(books@));
    r
}

/// The books among `books` that `search` finds, copied, in their order.
pub fn find_books(books: &Vec<Book>, search: &Search) -> (r: Vec<Book>)
    ensures
        views(r@) == found(views(books@), search@),
{
    let mut r: Vec<Book> = Vec::new();
    let mut i: usize = 0;
    assert(views(books@.take(0)) =~= Seq::<BookView>::empty());
    proof {
        reveal(Seq::filter);
    }
    while i < books.len()
        invariant
            i <= books.len(),
            views(r@) == found(views(books@.take(i as int)), search@),
        decreases books.len() - i,
    {
        proof {
            lemma_found_step(books@, search@, i as int);
        }
        if book_matches(search, &books[i]) {
            let copy = books[i].clone();
            proof {
                assert(views(r@.push(copy)) =~= views(r@).push(copy@));
            }
            r.push(copy);
        }
        i = i + 1;
    }
    assert(books@.take(books@.len() as int) =~= books@);
    r
}

/// Something that answers searches for books.
pub trait Searchable {
    fn search(&self, search: Search) -> Result<Vec<Book>, &'static str>;
}

/// Somewhere books are kept. Implementations decide for themselves when a
/// request fails, so no contract is written here.
pub trait Catalogue {
    fn add(&mut self, book: Book) -> Result<(), &'static str>;

    fn update(&mut self, book: Book) -> Result<(), &'static str>;

    fn list(&self) -> Result<Vec<Book>, &'static str>;
}

/// A catalogue that keeps a copy of the books of another catalogue, its
/// delegate, answers reads and searches from that copy, and takes a fresh copy
/// after every write it passes on.
pub struct Cache<C: Catalogue> {
    cache: Vec<Book>,
    delegate: C,
}

impl<C: Catalogue> View for Cache<C> {
    type V = Seq<BookView>;

    closed spec fn view(&self) -> Seq<BookView> {
        views(self.cache@)
    }
}

/// Whether `books` is a listing that the catalogue may give.
pub open spec fn lists<C: Catalogue>(catalogue: C, books: Seq<BookView>) -> bool {
    exists|listing: Vec<Book>|
        call_ensures(C::list, (&catalogue,), Ok(listing)) && views(listing@) == books
}

/// What a write passed on to the delegate leads to, given what the delegate's
/// write gave: its error, with the held books kept; or, after it succeeded, a
/// listing that the delegate gave, or the error of its listing with the held
/// books kept.
pub open spec fn write_outcome<C: Catalogue>(
    before: Seq<BookView>,
    after: Seq<BookView>,
    delegate: C,
    written: Result<(), &'static str>,
    r: Result<(), &'static str>,
) -> bool {
    match written {
        Err(e) => r == Err::<(), &'static str>(e) && after == before,
        Ok(()) => match r {
            Ok(()) => lists(delegate, after),
            Err(e) => after == before && call_ensures(
                C::list,
                (&delegate,),
                Err::<Vec<Book>, &'static str>(e),
            ),
        },
    }
}

impl<C: Catalogue> Cache<C> {
    /// The catalogue whose books the cache holds.
    pub closed spec fn delegate_of(self) -> C {
        self.delegate
    }

    /// A cache in front of `delegate`, holding the books that its listing gives.
    /// Where the delegate cannot list its books, its error is returned rather
    /// than a panic; a caller that cannot go on without the catalogue stops
    /// there itself.
    /// (`lists` and `call_ensures` speak of what the delegate's `list` gave.)
    pub fn new(delegate: C) -> (r: Result<Cache<C>, &'static str>)
        ensures
            r matches Ok(c) ==> c.delegate_of() == delegate,
            r matches Ok(c) ==> lists(delegate, c@),
            r matches Err(e) ==> call_ensures(C::list, (&delegate,), Err(e)),
    {
        let listing = delegate.list();
        Self::with_listing(delegate, listing)
    }

    /// A cache in front of `delegate`, made from one listing of its books.
    pub fn with_listing(delegate: C, listing: Result<Vec<Book>, &'static str>) -> (r: Result<
        Cache<C>,
        &'static str,
    >)
        ensures
            match listing {
                Ok(books) => r matches Ok(c) && c@ == views(books@) && c.delegate_of() == delegate,
                Err(e) => r == Err::<Cache<C>, &'static str>(e),
            },
    {
        match listing {
            Ok(books) => Ok(Cache { cache: books, delegate }),
            Err(e) => Err(e),
        }
    }

    /// Takes in one listing of the delegate's books: the books where the
    /// listing succeeded, and otherwise its error with the held books kept.
    pub fn install(&mut self, listing: Result<Vec<Book>, &'static str>) -> (r: Result<(), &'static str>)
        ensures
            final(self).delegate_of() == old(self).delegate_of(),
            match listing {
                Ok(books) => r is Ok && final(self)@ == views(books@),
                Err(e) => r == Err::<(), &'static str>(e) && final(self)@ == old(self)@,
            },
    {
        match listing {
            Ok(books) => {
                self.cache = books;
                Ok(())
            },
            Err(e) => Err(e),
        }
    }

    /// Takes a fresh copy of the delegate's books: on success the cache holds
    /// a listing that the delegate gave; on failure it keeps its books and
    /// returns the delegate's error.
    fn refresh(&mut self) -> (r: Result<(), &'static str>)
        ensures
            final(self).delegate_of() == old(self).delegate_of(),
            r is Ok ==> lists(final(self).delegate_of(), final(self)@),
            r matches Err(e) ==> final(self)@ == old(self)@ && call_ensures(
                C::list,
                (&final(self).delegate_of(),),
                Err(e),
            ),
    {
        let listing = self.delegate.list();
        self.install(listing)
    }
}

impl<C: Catalogue> Searchable for Cache<C> {
    /// The held books that the search finds, in the order in which they are held.
    fn search(&self, search: Search) -> (r: Result<Vec<Book>, &'static str>)
        ensures
            r matches Ok(books) && views(books@) == found(self@, search@),
    {
        Ok(find_books(&self.cache, &search))
    }
}

impl<C: Catalogue> Catalogue for Cache<C> {
    /// Passes the book, unchanged, on to the delegate's `add`, then takes a
    /// fresh copy of its books (`write_outcome` says what each outcome leads to).
    fn add(&mut self, book: Book) -> (r: Result<(), &'static str>)
        ensures
            exists|d: &mut C, written: Result<(), &'static str>|
                {
                    &&& mut_ref_current(d) == old(self).delegate_of()
                    &&& mut_ref_future(d) == final(self).delegate_of()
                    &&& call_ensures(C::add, (d, book), written)
                    &&& write_outcome(old(self)@, final(self)@, final(self).delegate_of(), written, r)
                },
    {
        let written = self.delegate.add(book);
        match written {
            Ok(()) => self.refresh(),
            Err(e) => Err(e),
        }
    }

    /// Passes the changed book on to the delegate's `update`, then takes a
    /// fresh copy of its books (`write_outcome` says what each outcome leads to).
    fn update(&mut self, book: Book) -> (r: Result<(), &'static str>)
        ensures
            exists|d: &mut C, written: Result<(), &'static str>|
                {
                    &&& mut_ref_current(d) == old(self).delegate_of()
                    &&& mut_ref_future(d) == final(self).delegate_of()
                    &&& call_ensures(C::update, (d, book), written)
                    &&& write_outcome(old(self)@, final(self)@, final(self).delegate_of(), written, r)
                },
    {
        let written = self.delegate.update(book);
        match written {
            Ok(()) => self.refresh(),
            Err(e) => Err(e),
        }
    }

    /// The held books.
    fn list(&self) -> (r: Result<Vec<Book>, &'static str>)
        ensures
            r matches Ok(books) && views(books@) == self@,
    {
        Ok(clone_books(&self.cache))
    }
}

/// The error of a listing in which some stored row did not make a book.
pub open spec fn unreadable_row() -> &'static str {
    "Failed to contruct Book from row data"
}

/// Whether every row of a listing made a book.
pub open spec fn all_read<E>(rows: Seq<Result<Book, E>>) -> bool {
    forall|i: int| 0 <= i < rows.len() ==> #[trigger] rows[i] is Ok
}

/// The books of a listing whose rows all made books.
pub open spec fn row_books<E>(rows: Seq<Result<Book, E>>) -> Seq<BookView> {
    rows.map_values(|r: Result<Book, E>| r->Ok_0@)
}

/// A listing made from stored rows, each of which made a book or failed to:
/// the books in row order where every row made one, and otherwise the error
/// `"Failed to contruct Book from row data"`.
pub fn rows_to_listing<E>(rows: Vec<Result<Book, E>>) -> (r: Result<Vec<Book>, &'static str>)
    ensures
        all_read(rows@) ==> (r matches Ok(books) && views(books@) == row_books(rows@)),
        !all_read(rows@) ==> r == Err::<Vec<Book>, &'static str>(unreadable_row()),
{
    let mut books: Vec<Book> = Vec::new();
    let ghost all = rows@;
    let total: usize = rows.len();
    let mut pending = rows;
    let mut taken: usize = 0;
    let mut rest: Vec<Result<Book, E>> = Vec::new();
    // Rows are handed out from the back, so turn them around first.
    while pending.len() > 0
        invariant
            all == rows@,
            all.len() == total,
            all.len() == pending@.len() + rest@.len(),
            pending@ == all.take(pending@.len() as int),
            forall|j: int| 0 <= j < rest@.len() ==> #[trigger] rest@[j] == all[all.len() - 1 - j],
        decreases pending.len(),
    {
        let row = pending.pop().unwrap();
        rest.push(row);
    }
    while rest.len() > 0
        invariant
            all == rows@,
            all.len() == total,
            all.len() == taken + rest@.len(),
            forall|j: int| 0 <= j < rest@.len() ==> #[trigger] rest@[j] == all[all.len() - 1 - j],
            forall|j: int| 0 <= j < taken ==> #[trigger] all[j] is Ok,
            books@.len() == taken,
            forall|j: int| 0 <= j < taken ==> #[trigger] books@[j]@ == all[j]->Ok_0@,
        decreases rest.len(),
    {
        let row = rest.pop().unwrap();
        match row {
            Ok(book) => {
                books.push(book);
                taken = taken + 1;
            },
            Err(_) => {
                assert(!all_read(all));
                return Err("Failed to contruct Book from row data");
            },
        }
    }
    assert(views(books@) =~= row_books(all));
    Ok(books)
}

} // verus!
