//! What holds of the catalogue across its operations.

use vstd::prelude::*;

use crate::catalogue::{found, finds, SearchView};
use crate::gui::{
    panel_of, reselect, search_everywhere, step, AppView, ListingView, Message, Panel, Screen,
};
use crate::model::{AuthorView, BookView};
use crate::text::{decimal_text, detail_lines};

verus! {

/// Every book that a search finds is one of the books searched, and is one
/// that the search looks for.
pub proof fn lemma_found_are_held_and_match(books: Seq<BookView>, search: SearchView)
    ensures
        found(books, search).len() <= books.len(),
        forall|i: int|
            0 <= i < found(books, search).len() ==> books.contains(#[trigger] found(books, search)[i])
                && finds(search, found(books, search)[i]),
{
    broadcast use vstd::seq_lib::group_filter_ensures;

    let pred = |b: BookView| finds(search, b);
    assert forall|i: int| 0 <= i < found(books, search).len() implies books.contains(
        #[trigger] found(books, search)[i],
    ) && finds(search, found(books, search)[i]) by {
        books.lemma_filter_pred(pred, i);
        books.lemma_filter_contains_rev(pred, found(books, search)[i]);
        assert(found(books, search).contains(found(books, search)[i]));
    }
}

/// Every book searched that the search looks for is found.
pub proof fn lemma_matching_are_found(books: Seq<BookView>, search: SearchView, i: int)
    requires
        0 <= i < books.len(),
        finds(search, books[i]),
    ensures
        found(books, search).contains(books[i]),
{
    broadcast use vstd::seq_lib::group_filter_ensures;

}

/// Searching the books that a search found, with the same search, finds them
/// all again, in the same order.
pub proof fn lemma_search_again(books: Seq<BookView>, search: SearchView)
    ensures
        found(found(books, search), search) == found(books, search),
    decreases books.len(),
{
    reveal(Seq::filter);
    if books.len() > 0 {
        lemma_search_again(books.drop_last(), search);
        let pred = |b: BookView| finds(search, b);
        let rest = books.drop_last().filter(pred);
        if pred(books.last()) {
            assert(rest.push(books.last()).drop_last() =~= rest);
        }
    }
}

/// Going to a screen changes the screen and nothing else.
pub proof fn lemma_navigation_changes_only_screen(s: AppView, screen: Screen)
    ensures
        step(s, Message::NavigateTo(screen)) == (AppView { screen, ..s }),
{
}

/// No message changes the books that the catalogue holds.
pub proof fn lemma_messages_keep_catalogue(s: AppView, message: Message)
    ensures
        step(s, message).catalogue == s.catalogue,
{
}

/// Emptying the search bar removes the search results and shows the search
/// screen.
pub proof fn lemma_empty_input_clears_results(s: AppView, input: String)
    requires
        input@.len() == 0,
    ensures
        step(s, Message::SearchInput(input)).results is None,
        step(s, Message::SearchInput(input)).screen == Screen::Search,
{
}

/// Deselecting after selecting leaves the screens as deselecting alone does.
pub proof fn lemma_deselect_undoes_select(s: AppView, index: usize)
    ensures
        step(step(s, Message::BookSelected(index)), Message::BookDeselected) == step(
            s,
            Message::BookDeselected,
        ),
{
    let once = step(s, Message::BookSelected(index));
    assert(once.screen == s.screen);
    if s.screen == Screen::Search {
        match s.results {
            Some(l) => {
                assert(reselect(once.results, None) =~~= reselect(s.results, None));
            },
            None => {},
        }
    } else {
        match s.browse {
            Some(l) => {
                assert(reselect(once.browse, None) =~~= reselect(s.browse, None));
            },
            None => {},
        }
    }
}

/// Selecting keeps the books of the list; only the selection changes.
pub proof fn lemma_selection_keeps_books(s: AppView, index: usize)
    ensures
        s.screen == Screen::Search ==> match (s.results, step(s, Message::BookSelected(index)).results) {
            (Some(before), Some(after)) => after.books == before.books && after.selected == Some(index),
            (None, None) => true,
            _ => false,
        },
{
}

/// Running the same search twice leaves the screens as running it once does.
pub proof fn lemma_search_is_idempotent(s: AppView)
    ensures
        step(step(s, Message::ExecuteSearch), Message::ExecuteSearch) == step(
            s,
            Message::ExecuteSearch,
        ),
{
}

/// Every book that a search from the search bar lists is in the catalogue and
/// has the typed text as its ISBN, its title or the name of one of its
/// authors; and every catalogue book that does is listed.
pub proof fn lemma_search_bar_lists_exactly_matches(catalogue: Seq<BookView>, input: Seq<char>)
    ensures
        forall|i: int|
            0 <= i < search_everywhere(catalogue, input).len() ==> catalogue.contains(
                #[trigger] search_everywhere(catalogue, input)[i],
            ) && (finds(SearchView::Isbn(input), search_everywhere(catalogue, input)[i]) || finds(
                SearchView::Title(input),
                search_everywhere(catalogue, input)[i],
            ) || finds(SearchView::Author(input), search_everywhere(catalogue, input)[i])),
        forall|j: int|
            0 <= j < catalogue.len() && (finds(SearchView::Isbn(input), #[trigger] catalogue[j])
                || finds(SearchView::Title(input), catalogue[j]) || finds(
                SearchView::Author(input),
                catalogue[j],
            )) ==> search_everywhere(catalogue, input).contains(catalogue[j]),
{
    let a = found(catalogue, SearchView::Isbn(input));
    let b = found(catalogue, SearchView::Title(input));
    let c = found(catalogue, SearchView::Author(input));
    lemma_found_are_held_and_match(catalogue, SearchView::Isbn(input));
    lemma_found_are_held_and_match(catalogue, SearchView::Title(input));
    lemma_found_are_held_and_match(catalogue, SearchView::Author(input));
    let all = search_everywhere(catalogue, input);
    assert(all == a + b + c);
    assert forall|i: int| 0 <= i < all.len() implies catalogue.contains(#[trigger] all[i]) && (finds(
        SearchView::Isbn(input),
        all[i],
    ) || finds(SearchView::Title(input), all[i]) || finds(SearchView::Author(input), all[i])) by {
        if i < a.len() {
            assert(all[i] == a[i]);
        } else if i < a.len() + b.len() {
            assert(all[i] == b[i - a.len()]);
        } else {
            assert(all[i] == c[i - a.len() - b.len()]);
        }
    }
    assert forall|j: int|
        0 <= j < catalogue.len() && (finds(SearchView::Isbn(input), #[trigger] catalogue[j]) || finds(
            SearchView::Title(input),
            catalogue[j],
        ) || finds(SearchView::Author(input), catalogue[j])) implies all.contains(catalogue[j]) by {
        if finds(SearchView::Isbn(input), catalogue[j]) {
            lemma_matching_are_found(catalogue, SearchView::Isbn(input), j);
            let k = choose|k: int| 0 <= k < a.len() && a[k] == catalogue[j];
            assert(all[k] == catalogue[j]);
        } else if finds(SearchView::Title(input), catalogue[j]) {
            lemma_matching_are_found(catalogue, SearchView::Title(input), j);
            let k = choose|k: int| 0 <= k < b.len() && b[k] == catalogue[j];
            assert(all[a.len() + k] == catalogue[j]);
        } else {
            lemma_matching_are_found(catalogue, SearchView::Author(input), j);
            let k = choose|k: int| 0 <= k < c.len() && c[k] == catalogue[j];
            assert(all[a.len() + b.len() + k] == catalogue[j]);
        }
    }
}

/// A search by author finds a book when the name is its single author, its
/// first or second author, or any of its further authors, however many
/// further authors there are; and it finds no book whose authors do not
/// include the name.
pub proof fn lemma_author_search_finds_every_author(
    books: Seq<BookView>,
    i: int,
    name: Seq<char>,
)
    requires
        0 <= i < books.len(),
    ensures
        (books[i].author == AuthorView::Single(name)) ==> found(
            books,
            SearchView::Author(name),
        ).contains(books[i]),
        (books[i].author matches AuthorView::Several { first, second, rest } && (first == name
            || second == name || rest.contains(name))) ==> found(
            books,
            SearchView::Author(name),
        ).contains(books[i]),
        (books[i].author matches AuthorView::Single(n) && n != name) ==> !found(
            books,
            SearchView::Author(name),
        ).contains(books[i]),
        (books[i].author matches AuthorView::Several { first, second, rest } && first != name
            && second != name && !rest.contains(name)) ==> !found(
            books,
            SearchView::Author(name),
        ).contains(books[i]),
{
    broadcast use vstd::seq_lib::group_filter_ensures;

    if finds(SearchView::Author(name), books[i]) {
        lemma_matching_are_found(books, SearchView::Author(name), i);
    } else {
        lemma_found_are_held_and_match(books, SearchView::Author(name));
        if found(books, SearchView::Author(name)).contains(books[i]) {
            let k = choose|k: int|
                0 <= k < found(books, SearchView::Author(name)).len() && found(
                    books,
                    SearchView::Author(name),
                )[k] == books[i];
            assert(finds(SearchView::Author(name), found(books, SearchView::Author(name))[k]));
        }
    }
}

/// A search by title finds a book exactly when its title is the searched
/// text: its subtitle, and every other field, play no part, so two books that
/// share a title are both found or both not found.
pub proof fn lemma_title_search_looks_at_title_only(
    books: Seq<BookView>,
    i: int,
    j: int,
    title: Seq<char>,
)
    requires
        0 <= i < books.len(),
        0 <= j < books.len(),
    ensures
        books[i].title == title ==> found(books, SearchView::Title(title)).contains(books[i]),
        books[i].title != title ==> !found(books, SearchView::Title(title)).contains(books[i]),
        books[i].title == books[j].title ==> (found(books, SearchView::Title(title)).contains(
            books[i],
        ) <==> found(books, SearchView::Title(title)).contains(books[j])),
{
    lemma_found_are_held_and_match(books, SearchView::Title(title));
    if books[i].title == title {
        lemma_matching_are_found(books, SearchView::Title(title), i);
    } else if found(books, SearchView::Title(title)).contains(books[i]) {
        let k = choose|k: int|
            0 <= k < found(books, SearchView::Title(title)).len() && found(
                books,
                SearchView::Title(title),
            )[k] == books[i];
        assert(finds(SearchView::Title(title), found(books, SearchView::Title(title))[k]));
    }
    if books[j].title == title {
        lemma_matching_are_found(books, SearchView::Title(title), j);
    } else if found(books, SearchView::Title(title)).contains(books[j]) {
        let k = choose|k: int|
            0 <= k < found(books, SearchView::Title(title)).len() && found(
                books,
                SearchView::Title(title),
            )[k] == books[j];
        assert(finds(SearchView::Title(title), found(books, SearchView::Title(title))[k]));
    }
}

/// The detail view shows the year of first publication and the notes each on
/// its own: the year line, second, is there exactly when the year is known;
/// the notes line, just before the status, is there exactly when there are
/// notes; the owner line comes in between; so there are three lines plus one
/// for each of the two that is known.
pub proof fn lemma_detail_lines_year_and_notes_apart(book: BookView)
    ensures
        ({
            let lines = detail_lines(book);
            let extra: int = (if book.first_published is Some { 1int } else { 0int }) + (
            if book.notes is Some { 1int } else { 0int });
            &&& lines.len() == 3 + extra
            &&& book.first_published matches Some(y) ==> lines[1] == "First published: "@
                + decimal_text(y as nat)
            &&& book.first_published is None ==> lines[1] == "Owner: "@ + book.owner
            &&& book.notes matches Some(n) ==> lines[lines.len() - 2] == "Notes: "@ + n
            &&& book.notes is None ==> lines[lines.len() - 2] == "Owner: "@ + book.owner
            &&& lines[lines.len() - 1] == "Status: "@ + crate::text::status_text(book.status)
        }),
{
}

/// Opening or closing a book in a list never changes the screen, the search
/// text, or the books of either list.
pub proof fn lemma_selection_keeps_screen(s: AppView, index: usize)
    ensures
        step(s, Message::BookSelected(index)).screen == s.screen,
        step(s, Message::BookDeselected).screen == s.screen,
        step(s, Message::BookSelected(index)).search_input == s.search_input,
        step(s, Message::BookDeselected).search_input == s.search_input,
        s.results matches Some(l) ==> (step(s, Message::BookSelected(index)).results matches Some(
            m,
        ) && m.books == l.books),
        s.results matches Some(l) ==> (step(s, Message::BookDeselected).results matches Some(m)
            && m.books == l.books),
        s.browse matches Some(l) ==> (step(s, Message::BookSelected(index)).browse matches Some(m)
            && m.books == l.books),
        s.browse matches Some(l) ==> (step(s, Message::BookDeselected).browse matches Some(m)
            && m.books == l.books),
{
}

/// The results area shows nothing where no list was made, the note where the
/// list is empty, and the books where it holds any, whatever is selected.
pub proof fn lemma_panel_ignores_selection(l: ListingView, selected: Option<usize>)
    ensures
        panel_of(None) == Panel::Hidden,
        l.books.len() == 0 ==> panel_of(Some(l)) == Panel::NoResults,
        l.books.len() > 0 ==> panel_of(Some(l)) == Panel::Books,
        panel_of(Some(ListingView { selected, ..l })) == panel_of(Some(l)),
{
}

} // verus!
