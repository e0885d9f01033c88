//! The state behind the catalogue's screens, and how each message changes it.

use vstd::prelude::*;

use crate::catalogue::{found, Cache, Catalogue, Search, SearchView, Searchable, views};
use crate::model::{Author, AuthorView, Book, BookView, Date, Status, StatusView};

verus! {

/// The screens of the catalogue.
#[derive(Debug, PartialEq, Eq, Clone, Copy, Structural)]
pub enum Screen {
    Browse,
    Home,
    Search,
}

/// What the user asks of the catalogue.
#[derive(Debug, Clone)]
pub enum Message {
    NavigateTo(Screen),
    SearchInput(String),
    ExecuteSearch,
    BookSelected(usize),
    BookDeselected,
}

/// A list of books on screen, one of which may be selected to show in detail.
pub struct Listing {
    books: Vec<Book>,
    selected: Option<usize>,
}

/// What a list of books on screen holds.
pub struct ListingView {
    pub books: Seq<BookView>,
    pub selected: Option<usize>,
}

impl View for Listing {
    type V = ListingView;

    closed spec fn view(&self) -> ListingView {
        ListingView { books: views(self.books@), selected: self.selected }
    }
}

/// The list with the book at `index` selected.
pub open spec fn with_selection(l: ListingView, index: usize) -> ListingView {
    ListingView { selected: Some(index), ..l }
}

/// The list with nothing selected.
pub open spec fn without_selection(l: ListingView) -> ListingView {
    ListingView { selected: None, ..l }
}

impl Listing {
    /// A list of the books with nothing selected.
    pub fn new(books: Vec<Book>) -> (r: Listing)
        ensures
            r@ == (ListingView { books: views(books@), selected: None }),
    {
        Listing { books, selected: None }
    }

    pub fn books(&self) -> (r: &Vec<Book>)
        ensures
            views(r@) == self@.books,
    {
        &self.books
    }

    pub fn selected(&self) -> (r: Option<usize>)
        ensures
            r == self@.selected,
    {
        self.selected
    }

    /// Selects the book at `index`.
    pub fn select(&mut self, index: usize)
        ensures
            final(self)@ == with_selection(old(self)@, index),
    {
        self.selected = Some(index);
    }

    /// Selects nothing.
    pub fn deselect(&mut self)
        ensures
            final(self)@ == without_selection(old(self)@),
    {
        self.selected = None;
    }

    /// The message that a click on the row at `index` sends: a row shown in
    /// detail closes, and any other row opens.
    pub fn row_message(&self, index: usize) -> (r: Message)
        ensures
            r == (if self@.selected == Some(index) {
                Message::BookDeselected
            } else {
                Message::BookSelected(index)
            }),
    {
        if self.is_highlighted(index) {
            Message::BookDeselected
        } else {
            Message::BookSelected(index)
        }
    }

    /// Whether the row at `index` shows its book in detail.
    pub fn is_highlighted(&self, index: usize) -> (r: bool)
        ensures
            r == (self@.selected == Some(index)),
    {
        match self.selected {
            Some(picked) => picked == index,
            None => false,
        }
    }
}

/// What the results area of a screen shows.
#[derive(Debug, PartialEq, Eq, Clone, Copy, Structural)]
pub enum Panel {
    /// Nothing: no list has been made.
    Hidden,
    /// A note that the list is empty.
    NoResults,
    /// The books of the list.
    Books,
}

/// What the results area shows for a list, if any.
pub open spec fn panel_of(listing: Option<ListingView>) -> Panel {
    match listing {
        None => Panel::Hidden,
        Some(l) => if l.books.len() == 0 { Panel::NoResults } else { Panel::Books },
    }
}

/// What the results area shows for a list, if any.
pub fn panel(listing: Option<&Listing>) -> (r: Panel)
    ensures
        r == panel_of(
            match listing {
                Some(l) => Some(l@),
                None => None,
            },
        ),
{
    match listing {
        None => Panel::Hidden,
        Some(l) => if l.books.len() == 0 {
            Panel::NoResults
        } else {
            Panel::Books
        },
    }
}

/// The message that a key press sends, if any: a press of Escape that is not
/// a repeat leads home.
pub fn key_message(pressed: bool, repeat: bool, escape: bool) -> (r: Option<Message>)
    ensures
        r is Some <==> (pressed && !repeat && escape),
        r matches Some(m) ==> m == Message::NavigateTo(Screen::Home),
{
    if pressed && !repeat && escape {
        Some(Message::NavigateTo(Screen::Home))
    } else {
        None
    }
}

/// What the catalogue's screens hold.
pub struct AppView {
    pub screen: Screen,
    pub search_input: Seq<char>,
    pub browse: Option<ListingView>,
    pub results: Option<ListingView>,
    pub catalogue: Seq<BookView>,
}

/// A list with its selection changed to `selected`, where there is a list.
pub open spec fn reselect(listing: Option<ListingView>, selected: Option<usize>) -> Option<
    ListingView,
> {
    match listing {
        Some(l) => Some(ListingView { selected, ..l }),
        None => None,
    }
}

/// What a search for `input` finds in `catalogue`: the books with that ISBN,
/// then those with that title, then those with that author, each in the order
/// in which the catalogue holds them.
pub open spec fn search_everywhere(catalogue: Seq<BookView>, input: Seq<char>) -> Seq<BookView> {
    found(catalogue, SearchView::Isbn(input)) + found(catalogue, SearchView::Title(input)) + found(
        catalogue,
        SearchView::Author(input),
    )
}

/// How a message changes what the screens hold.
pub open spec fn step(s: AppView, message: Message) -> AppView {
    match message {
        Message::NavigateTo(screen) => AppView { screen, ..s },
        Message::SearchInput(input) => AppView {
            screen: Screen::Search,
            search_input: input@,
            results: if input@.len() == 0 { None } else { s.results },
            ..s
        },
        Message::ExecuteSearch => AppView {
            screen: Screen::Search,
            results: Some(
                ListingView { books: search_everywhere(s.catalogue, s.search_input), selected: None },
            ),
            ..s
        },
        Message::BookSelected(index) => if s.screen == Screen::Search {
            AppView { results: reselect(s.results, Some(index)), ..s }
        } else {
            AppView { browse: reselect(s.browse, Some(index)), ..s }
        },
        Message::BookDeselected => if s.screen == Screen::Search {
            AppView { results: reselect(s.results, None), ..s }
        } else {
            AppView { browse: reselect(s.browse, None), ..s }
        },
    }
}

/// The catalogue's screens: which one is shown, what has been typed into the
/// search bar, and the lists of books that browsing and searching made.
pub struct App<C: Catalogue> {
    cache: Cache<C>,
    screen: Screen,
    search_input: String,
    browse_state: Option<Listing>,
    search_result: Option<Listing>,
}

/// The view of an optional list.
pub open spec fn listing_view(l: Option<Listing>) -> Option<ListingView> {
    match l {
        Some(l) => Some(l@),
        None => None,
    }
}

impl<C: Catalogue> View for App<C> {
    type V = AppView;

    closed spec fn view(&self) -> AppView {
        AppView {
            screen: self.screen,
            search_input: self.search_input@,
            browse: listing_view(self.browse_state),
            results: listing_view(self.search_result),
            catalogue: self.cache@,
        }
    }
}

impl<C: Catalogue> App<C> {
    /// The screens over a catalogue, starting at home with nothing typed and
    /// no lists made.
    pub fn new(cache: Cache<C>) -> (r: App<C>)
        ensures
            r@ == (AppView {
                screen: Screen::Home,
                search_input: Seq::empty(),
                browse: None,
                results: None,
                catalogue: cache@,
            }),
            r.cache_of() == cache,
    {
        App {
            cache,
            screen: Screen::Home,
            search_input: String::new(),
            browse_state: None,
            search_result: None,
        }
    }

    pub fn screen(&self) -> (r: Screen)
        ensures
            r == self@.screen,
    {
        self.screen
    }

    pub fn search_input(&self) -> (r: &str)
        ensures
            r@ == self@.search_input,
    {
        self.search_input.as_str()
    }

    pub fn search_result(&self) -> (r: Option<&Listing>)
        ensures
            match r {
                Some(l) => self@.results == Some(l@),
                None => self@.results is None,
            },
    {
        match &self.search_result {
            Some(l) => Some(l),
            None => None,
        }
    }

    pub fn browse_state(&self) -> (r: Option<&Listing>)
        ensures
            match r {
                Some(l) => self@.browse == Some(l@),
                None => self@.browse is None,
            },
    {
        match &self.browse_state {
            Some(l) => Some(l),
            None => None,
        }
    }

    /// The cache that the screens read from.
    pub closed spec fn cache_of(self) -> Cache<C> {
        self.cache
    }

    pub fn cache(&self) -> (r: &Cache<C>)
        ensures
            r@ == self@.catalogue,
            *r == self.cache_of(),
    {
        &self.cache
    }

    /// The books that a search for `input` finds: by ISBN, then by title,
    /// then by author.
    fn search_all(&self, input: &String) -> (r: Vec<Book>)
        ensures
            views(r@) == search_everywhere(self@.catalogue, input@),
    {
        let mut books = match self.cache.search(Search::Isbn(input.clone())) {
            Ok(found) => found,
            Err(_) => Vec::new(),
        };
        let mut by_title = match self.cache.search(Search::Title(input.clone())) {
            Ok(found) => found,
            Err(_) => Vec::new(),
        };
        let mut by_author = match self.cache.search(Search::Author(input.clone())) {
            Ok(found) => found,
            Err(_) => Vec::new(),
        };
        let ghost a = books@;
        let ghost b = by_title@;
        let ghost c = by_author@;
        books.append(&mut by_title);
        books.append(&mut by_author);
        assert(views(books@) =~= views(a) + views(b) + views(c));
        books
    }

    /// Handles one message.
    pub fn update(&mut self, message: Message)
        ensures
            final(self)@ == step(old(self)@, message),
            final(self).cache_of() == old(self).cache_of(),
    {
        match message {
            Message::NavigateTo(screen) => {
                self.screen = screen;
            },
            Message::SearchInput(input) => {
                self.screen = Screen::Search;
                self.search_input = input;
                if self.search_input.as_str().is_empty() {
                    self.search_result = None;
                }
            },
            Message::ExecuteSearch => {
                let books = self.search_all(&self.search_input);
                self.search_result = Some(Listing::new(books));
                self.screen = Screen::Search;
            },
            Message::BookSelected(index) => {
                if self.screen == Screen::Search {
                    match &mut self.search_result {
                        Some(l) => l.select(index),
                        None => {},
                    }
                } else {
                    match &mut self.browse_state {
                        Some(l) => l.select(index),
                        None => {},
                    }
                }
            },
            Message::BookDeselected => {
                if self.screen == Screen::Search {
                    match &mut self.search_result {
                        Some(l) => l.deselect(),
                        None => {},
                    }
                } else {
                    match &mut self.browse_state {
                        Some(l) => l.deselect(),
                        None => {},
                    }
                }
            },
        }
    }
}

/// The first book that a new catalogue starts with.
pub open spec fn is_first_starter(b: BookView, id: uuid::Uuid, now: jiff::Timestamp) -> bool {
    &&& b.id == id
    &&& b.title == "In Cold Blood"@
    &&& b.subtitle is None
    &&& b.author == AuthorView::Single("Truman Capote"@)
    &&& b.isbn == Some("1234"@)
    &&& b.first_published == Some(1960u16)
    &&& b.owner == "Tim"@
    &&& b.notes == Some("This is a really good book!"@)
    &&& b.status == StatusView::Available
    &&& b.created == now
    &&& b.updated == now
}

/// The second book that a new catalogue starts with: lent to Oz on 2026-07-01.
pub open spec fn is_second_starter(b: BookView, id: uuid::Uuid, now: jiff::Timestamp) -> bool {
    &&& b.id == id
    &&& b.title == "Breakfast at Tiffany's"@
    &&& b.subtitle is None
    &&& b.author == AuthorView::Single("Truman Capote"@)
    &&& b.isbn == Some("5678"@)
    &&& b.first_published == Some(1963u16)
    &&& b.owner == "Tim"@
    &&& b.notes is None
    &&& b.status matches StatusView::LoanedOut { on, to } && on@ == (2026i16, 7i8, 1i8) && to == "Oz"@
    &&& b.created == now
    &&& b.updated == now
}

/// The two books that a new catalogue starts with, given their ids and the
/// time at which they are recorded.
pub fn starter_books(first: uuid::Uuid, second: uuid::Uuid, now: jiff::Timestamp) -> (r: Vec<Book>)
    ensures
        r@.len() == 2,
        is_first_starter(r@[0]@, first, now),
        is_second_starter(r@[1]@, second, now),
{
    let cold = Book::builder()
        .id(first)
        .title(String::from_str("In Cold Blood"))
        .author(Author::Single(String::from_str("Truman Capote")))
        .isbn(String::from_str("1234"))
        .first_published(1960)
        .owner(String::from_str("Tim"))
        .notes(String::from_str("This is a really good book!"))
        .status(Status::Available)
        .created(now)
        .updated(now)
        .build();
    let lent_on = Date::new(2026, 7, 1).unwrap();
    let tiffany = Book::builder()
        .id(second)
        .title(String::from_str("Breakfast at Tiffany's"))
        .author(Author::Single(String::from_str("Truman Capote")))
        .isbn(String::from_str("5678"))
        .first_published(1963)
        .owner(String::from_str("Tim"))
        .status(Status::LoanedOut { on: lent_on, to: String::from_str("Oz") })
        .created(now)
        .updated(now)
        .build();
    let mut books: Vec<Book> = Vec::new();
    books.push(cold);
    books.push(tiffany);
    books
}

} // verus!
