//! The catalogue's data model: books, their authors and their loan status.

use vstd::prelude::*;

verus! {

/// Book identifiers are UUIDs; the library carries them and never looks inside.
#[verifier::external_type_specification]
#[verifier::external_body]
pub struct ExUuid(uuid::Uuid);

/// Creation and update times are instants; the library carries them and never
/// looks inside.
#[verifier::external_type_specification]
#[verifier::external_body]
pub struct ExTimestamp(jiff::Timestamp);

/// Whether `year` is a leap year of the proleptic Gregorian calendar.
pub open spec fn is_leap_year(year: int) -> bool {
    (year % 4 == 0 && year % 100 != 0) || year % 400 == 0
}

/// The number of days in `month` of `year`.
pub open spec fn days_in_month(year: int, month: int) -> int {
    if month == 2 {
        if is_leap_year(year) { 29 } else { 28 }
    } else if month == 4 || month == 6 || month == 9 || month == 11 {
        30
    } else {
        31
    }
}

/// The calendar days that a `Date` may hold: years -9999 to 9999, months 1 to
/// 12, and a day that exists in its month.
pub open spec fn is_valid_date(year: int, month: int, day: int) -> bool {
    &&& -9999 <= year <= 9999
    &&& 1 <= month <= 12
    &&& 1 <= day <= days_in_month(year, month)
}

/// `jiff::civil::Date::new`, asked only whether it accepts the day. Its
/// documentation says that it succeeds exactly on the days that
/// `is_valid_date` describes; that is what the contract claims.
#[verifier::external_body]
fn calendar_accepts(year: i16, month: i8, day: i8) -> (ok: bool)
    ensures
        ok == is_valid_date(year as int, month as int, day as int),
{
    jiff::civil::Date::new(year, month, day).is_ok()
}

/// A day of the calendar, as loans and removals record it.
#[derive(Debug, Clone, Copy, PartialEq, Eq, Structural)]
pub struct Date {
    year: i16,
    month: i8,
    day: i8,
}

impl View for Date {
    type V = (i16, i8, i8);

    closed spec fn view(&self) -> (i16, i8, i8) {
        (self.year, self.month, self.day)
    }
}

impl Date {
    #[verifier::type_invariant]
    closed spec fn valid(self) -> bool {
        is_valid_date(self.year as int, self.month as int, self.day as int)
    }

    /// The day `year`-`month`-`day`, or `None` where the calendar has no such day.
    pub fn new(year: i16, month: i8, day: i8) -> (r: Option<Date>)
        ensures
            r is Some <==> is_valid_date(year as int, month as int, day as int),
            r matches Some(d) ==> d@ == (year, month, day),
    {
        if calendar_accepts(year, month, day) {
            Some(Date { year, month, day })
        } else {
            None
        }
    }

    pub fn year(&self) -> (r: i16)
        ensures
            r == self@.0,
    {
        self.year
    }

    pub fn month(&self) -> (r: i8)
        ensures
            r == self@.1,
    {
        self.month
    }

    pub fn day(&self) -> (r: i8)
        ensures
            r == self@.2,
    {
        self.day
    }

    /// The day written as `YYYY-MM-DD`.
    pub fn to_text(&self) -> (s: String)
        ensures
            s@ == date_text(self@.0 as int, self@.1 as int, self@.2 as int),
    {
        proof {
            use_type_invariant(self);
        }
        calendar_text(self.year, self.month, self.day)
    }
}

/// The decimal digit `d` as a character.
pub open spec fn digit_char(d: int) -> char {
    ('0' as int + d) as char
}

/// The last `width` decimal digits of `n`, zero-padded on the left.
pub open spec fn padded_digits(n: nat, width: nat) -> Seq<char>
    decreases width,
{
    if width == 0 {
        Seq::empty()
    } else {
        padded_digits(n / 10, (width - 1) as nat).push(digit_char((n % 10) as int))
    }
}

/// How a calendar day is written: `YYYY-MM-DD`, where a year before year 0 is
/// written with a leading `-00` before its four digits.
pub open spec fn date_text(year: int, month: int, day: int) -> Seq<char> {
    let sign: Seq<char> = if year < 0 { seq!['-', '0', '0'] } else { Seq::empty() };
    let magnitude: nat = if year < 0 { (-year) as nat } else { year as nat };
    sign + padded_digits(magnitude, 4) + seq!['-'] + padded_digits(month as nat, 2) + seq!['-']
        + padded_digits(day as nat, 2)
}

/// The `Display` text of `jiff::civil::date(year, month, day)`. jiff prints a
/// date as a sign (`-00` before a negative year), the year's magnitude in four
/// digits, then the month and the day in two digits each, joined by `-`; that
/// is what the contract claims. `date` panics on a day the calendar lacks, so
/// such days are left out.
#[verifier::external_body]
fn calendar_text(year: i16, month: i8, day: i8) -> (s: String)
    requires
        is_valid_date(year as int, month as int, day as int),
    ensures
        s@ == date_text(year as int, month as int, day as int),
{
    jiff::civil::date(year, month, day).to_string()
}

/// The text of a sequence of strings, element by element.
pub open spec fn texts(v: Seq<String>) -> Seq<Seq<char>> {
    v.map_values(|s: String| s@)
}

/// The text of an optional string.
pub open spec fn opt_text(o: Option<String>) -> Option<Seq<char>> {
    match o {
        Some(s) => Some(s@),
        None => None,
    }
}

/// Where a book stands.
#[derive(Debug, PartialEq, Eq)]
pub enum Status {
    Available,
    LoanedIn { on: Date, from: String },
    LoanedOut { on: Date, to: String },
    Removed { on: Date, reason: Option<String> },
}

pub enum StatusView {
    Available,
    LoanedIn { on: Date, from: Seq<char> },
    LoanedOut { on: Date, to: Seq<char> },
    Removed { on: Date, reason: Option<Seq<char>> },
}

impl View for Status {
    type V = StatusView;

    open spec fn view(&self) -> StatusView {
        match self {
            Status::Available => StatusView::Available,
            Status::LoanedIn { on, from } => StatusView::LoanedIn { on: *on, from: from@ },
            Status::LoanedOut { on, to } => StatusView::LoanedOut { on: *on, to: to@ },
            Status::Removed { on, reason } => StatusView::Removed { on: *on, reason: opt_text(*reason) },
        }
    }
}

/// Who wrote a book: one author, or two or more.
#[derive(Debug, PartialEq, Eq)]
pub enum Author {
    Single(String),
    Several { first: String, second: String, rest: Vec<String> },
}

pub enum AuthorView {
    Single(Seq<char>),
    Several { first: Seq<char>, second: Seq<char>, rest: Seq<Seq<char>> },
}

impl View for Author {
    type V = AuthorView;

    open spec fn view(&self) -> AuthorView {
        match self {
            Author::Single(name) => AuthorView::Single(name@),
            Author::Several { first, second, rest } => AuthorView::Several {
                first: first@,
                second: second@,
                rest: texts(rest@),
            },
        }
    }
}

/// A copy of an optional string.
pub fn clone_opt_text(o: &Option<String>) -> (r: Option<String>)
    ensures
        opt_text(r) == opt_text(*o),
{
    match o {
        Some(s) => Some(s.clone()),
        None => None,
    }
}

/// A copy of a vector of strings.
pub fn clone_texts(v: &Vec<String>) -> (r: Vec<String>)
    ensures
        texts(r@) == texts(v@),
{
    let mut r: Vec<String> = Vec::new();
    let mut i: usize = 0;
    while i < v.len()
        invariant
            i <= v.len(),
            r@.len() == i,
            forall|j: int| 0 <= j < i ==> #[trigger] r@[j]@ == v@[j]@,
        decreases v.len() - i,
    {
        r.push(v[i].clone());
        i = i + 1;
    }
    assert(texts(r@) =~= texts(v@));
    r
}

impl Clone for Status {
    fn clone(&self) -> (r: Self)
        ensures
            r@ == self@,
    {
        match self {
            Status::Available => Status::Available,
            Status::LoanedIn { on, from } => Status::LoanedIn { on: *on, from: from.clone() },
            Status::LoanedOut { on, to } => Status::LoanedOut { on: *on, to: to.clone() },
            Status::Removed { on, reason } => Status::Removed { on: *on, reason: clone_opt_text(reason) },
        }
    }
}

impl Clone for Author {
    fn clone(&self) -> (r: Self)
        ensures
            r@ == self@,
    {
        match self {
            Author::Single(name) => Author::Single(name.clone()),
            Author::Several { first, second, rest } => Author::Several {
                first: first.clone(),
                second: second.clone(),
                rest: clone_texts(rest),
            },
        }
    }
}

/// A book of the catalogue.
#[derive(Debug, PartialEq, Eq)]
pub struct Book {
    id: uuid::Uuid,
    title: String,
    subtitle: Option<String>,
    author: Author,
    isbn: Option<String>,
    first_published: Option<u16>,
    owner: String,
    notes: Option<String>,
    status: Status,
    created: jiff::Timestamp,
    updated: jiff::Timestamp,
}

/// What a book records, with its strings taken as text.
pub struct BookView {
    pub id: uuid::Uuid,
    pub title: Seq<char>,
    pub subtitle: Option<Seq<char>>,
    pub author: AuthorView,
    pub isbn: Option<Seq<char>>,
    pub first_published: Option<u16>,
    pub owner: Seq<char>,
    pub notes: Option<Seq<char>>,
    pub status: StatusView,
    pub created: jiff::Timestamp,
    pub updated: jiff::Timestamp,
}

impl Book {
    pub closed spec fn book_view(self) -> BookView {
        BookView {
            id: self.id,
            title: self.title@,
            subtitle: opt_text(self.subtitle),
            author: self.author@,
            isbn: opt_text(self.isbn),
            first_published: self.first_published,
            owner: self.owner@,
            notes: opt_text(self.notes),
            status: self.status@,
            created: self.created,
            updated: self.updated,
        }
    }
}

impl View for Book {
    type V = BookView;

    open spec fn view(&self) -> BookView {
        self.book_view()
    }
}

/// The view of an optional borrowed string.
pub open spec fn opt_str(o: Option<&str>) -> Option<Seq<char>> {
    match o {
        Some(s) => Some(s@),
        None => None,
    }
}

/// Borrows the string inside an option.
fn as_opt_str(o: &Option<String>) -> (r: Option<&str>)
    ensures
        opt_str(r) == opt_text(*o),
{
    match o {
        Some(s) => Some(s.as_str()),
        None => None,
    }
}

impl Book {
    pub fn id(&self) -> (r: &uuid::Uuid)
        ensures
            *r == self@.id,
    {
        &self.id
    }

    pub fn title(&self) -> (r: &str)
        ensures
            r@ == self@.title,
    {
        self.title.as_str()
    }

    pub fn subtitle(&self) -> (r: Option<&str>)
        ensures
            opt_str(r) == self@.subtitle,
    {
        as_opt_str(&self.subtitle)
    }

    pub fn author(&self) -> (r: &Author)
        ensures
            r@ == self@.author,
    {
        &self.author
    }

    pub fn isbn(&self) -> (r: Option<&str>)
        ensures
            opt_str(r) == self@.isbn,
    {
        as_opt_str(&self.isbn)
    }

    pub fn first_published(&self) -> (r: Option<u16>)
        ensures
            r == self@.first_published,
    {
        self.first_published
    }

    pub fn owner(&self) -> (r: &str)
        ensures
            r@ == self@.owner,
    {
        self.owner.as_str()
    }

    pub fn notes(&self) -> (r: Option<&str>)
        ensures
            opt_str(r) == self@.notes,
    {
        as_opt_str(&self.notes)
    }

    pub fn status(&self) -> (r: &Status)
        ensures
            r@ == self@.status,
    {
        &self.status
    }

    pub fn created(&self) -> (r: jiff::Timestamp)
        ensures
            r == self@.created,
    {
        self.created
    }

    pub fn updated(&self) -> (r: jiff::Timestamp)
        ensures
            r == self@.updated,
    {
        self.updated
    }
}

impl Clone for Book {
    fn clone(&self) -> (r: Self)
        ensures
            r@ == self@,
    {
        Book {
            id: self.id,
            title: self.title.clone(),
            subtitle: clone_opt_text(&self.subtitle),
            author: self.author.clone(),
            isbn: clone_opt_text(&self.isbn),
            first_published: self.first_published,
            owner: self.owner.clone(),
            notes: clone_opt_text(&self.notes),
            status: self.status.clone(),
            created: self.created,
            updated: self.updated,
        }
    }
}

/// A book being put together, field by field.
pub struct BookBuilder {
    id: Option<uuid::Uuid>,
    title: Option<String>,
    subtitle: Option<String>,
    author: Option<Author>,
    isbn: Option<String>,
    first_published: Option<u16>,
    owner: Option<String>,
    notes: Option<String>,
    status: Option<Status>,
    created: Option<jiff::Timestamp>,
    updated: Option<jiff::Timestamp>,
}

/// The fields given so far to a `BookBuilder`.
pub struct DraftView {
    pub id: Option<uuid::Uuid>,
    pub title: Option<Seq<char>>,
    pub subtitle: Option<Seq<char>>,
    pub author: Option<AuthorView>,
    pub isbn: Option<Seq<char>>,
    pub first_published: Option<u16>,
    pub owner: Option<Seq<char>>,
    pub notes: Option<Seq<char>>,
    pub status: Option<StatusView>,
    pub created: Option<jiff::Timestamp>,
    pub updated: Option<jiff::Timestamp>,
}

impl View for BookBuilder {
    type V = DraftView;

    closed spec fn view(&self) -> DraftView {
        DraftView {
            id: self.id,
            title: opt_text(self.title),
            subtitle: opt_text(self.subtitle),
            author: match self.author {
                Some(x) => Some(x@),
                None => None,
            },
            isbn: opt_text(self.isbn),
            first_published: self.first_published,
            owner: opt_text(self.owner),
            notes: opt_text(self.notes),
            status: match self.status {
                Some(x) => Some(x@),
                None => None,
            },
            created: self.created,
            updated: self.updated,
        }
    }
}

impl Book {
    /// A builder with no field given yet.
    pub fn builder() -> (r: BookBuilder)
        ensures
            r@ == (DraftView {
                id: None,
                title: None,
                subtitle: None,
                author: None,
                isbn: None,
                first_published: None,
                owner: None,
                notes: None,
                status: None,
                created: None,
                updated: None,
            }),
    {
        BookBuilder {
            id: None,
            title: None,
            subtitle: None,
            author: None,
            isbn: None,
            first_published: None,
            owner: None,
            notes: None,
            status: None,
            created: None,
            updated: None,
        }
    }
}

impl BookBuilder {
    pub fn id(self, value: uuid::Uuid) -> (r: BookBuilder)
        ensures
            r@ == (DraftView { id: Some(value), ..self@ }),
    {
        BookBuilder { id: Some(value), ..self }
    }

    pub fn title(self, value: String) -> (r: BookBuilder)
        ensures
            r@ == (DraftView { title: Some(value@), ..self@ }),
    {
        BookBuilder { title: Some(value), ..self }
    }

    pub fn subtitle(self, value: String) -> (r: BookBuilder)
        ensures
            r@ == (DraftView { subtitle: Some(value@), ..self@ }),
    {
        BookBuilder { subtitle: Some(value), ..self }
    }

    pub fn maybe_subtitle(self, value: Option<String>) -> (r: BookBuilder)
        ensures
            r@ == (DraftView { subtitle: opt_text(value), ..self@ }),
    {
        BookBuilder { subtitle: value, ..self }
    }

    pub fn author(self, value: Author) -> (r: BookBuilder)
        ensures
            r@ == (DraftView { author: Some(value@), ..self@ }),
    {
        BookBuilder { author: Some(value), ..self }
    }

    pub fn isbn(self, value: String) -> (r: BookBuilder)
        ensures
            r@ == (DraftView { isbn: Some(value@), ..self@ }),
    {
        BookBuilder { isbn: Some(value), ..self }
    }

    pub fn maybe_isbn(self, value: Option<String>) -> (r: BookBuilder)
        ensures
            r@ == (DraftView { isbn: opt_text(value), ..self@ }),
    {
        BookBuilder { isbn: value, ..self }
    }

    pub fn first_published(self, value: u16) -> (r: BookBuilder)
        ensures
            r@ == (DraftView { first_published: Some(value), ..self@ }),
    {
        BookBuilder { first_published: Some(value), ..self }
    }

    pub fn maybe_first_published(self, value: Option<u16>) -> (r: BookBuilder)
        ensures
            r@ == (DraftView { first_published: value, ..self@ }),
    {
        BookBuilder { first_published: value, ..self }
    }

    pub fn owner(self, value: String) -> (r: BookBuilder)
        ensures
            r@ == (DraftView { owner: Some(value@), ..self@ }),
    {
        BookBuilder { owner: Some(value), ..self }
    }

    pub fn notes(self, value: String) -> (r: BookBuilder)
        ensures
            r@ == (DraftView { notes: Some(value@), ..self@ }),
    {
        BookBuilder { notes: Some(value), ..self }
    }

    pub fn maybe_notes(self, value: Option<String>) -> (r: BookBuilder)
        ensures
            r@ == (DraftView { notes: opt_text(value), ..self@ }),
    {
        BookBuilder { notes: value, ..self }
    }

    pub fn status(self, value: Status) -> (r: BookBuilder)
        ensures
            r@ == (DraftView { status: Some(value@), ..self@ }),
    {
        BookBuilder { status: Some(value), ..self }
    }

    pub fn created(self, value: jiff::Timestamp) -> (r: BookBuilder)
        ensures
            r@ == (DraftView { created: Some(value), ..self@ }),
    {
        BookBuilder { created: Some(value), ..self }
    }

    pub fn updated(self, value: jiff::Timestamp) -> (r: BookBuilder)
        ensures
            r@ == (DraftView { updated: Some(value), ..self@ }),
    {
        BookBuilder { updated: Some(value), ..self }
    }

    /// Whether every field that a book cannot do without has been given:
    /// its id, title, author, status and both times.
    pub open spec fn is_complete(self) -> bool {
        &&& self@.id is Some
        &&& self@.title is Some
        &&& self@.author is Some
        &&& self@.status is Some
        &&& self@.created is Some
        &&& self@.updated is Some
    }

    /// The book with the given fields; an owner that was never given is empty.
    pub fn build(self) -> (b: Book)
        requires
            self.is_complete(),
        ensures
            b@ == (BookView {
                id: self@.id.unwrap(),
                title: self@.title.unwrap(),
                subtitle: self@.subtitle,
                author: self@.author.unwrap(),
                isbn: self@.isbn,
                first_published: self@.first_published,
                owner: match self@.owner {
                    Some(o) => o,
                    None => Seq::empty(),
                },
                notes: self@.notes,
                status: self@.status.unwrap(),
                created: self@.created.unwrap(),
                updated: self@.updated.unwrap(),
            }),
    {
        let owner = match self.owner {
            Some(o) => o,
            None => String::new(),
        };
        Book {
            id: self.id.unwrap(),
            title: self.title.unwrap(),
            subtitle: self.subtitle,
            author: self.author.unwrap(),
            isbn: self.isbn,
            first_published: self.first_published,
            owner,
            notes: self.notes,
            status: self.status.unwrap(),
            created: self.created.unwrap(),
            updated: self.updated.unwrap(),
        }
    }
}

} // verus!
