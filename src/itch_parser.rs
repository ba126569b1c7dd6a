//! Feed-level metadata of a game page: the same info table read with the
//! feed's label set, in which the Updated and Published rows carry timestamps
//! and author, genre and tool are single texts.
use vstd::prelude::*;
use chrono::{Datelike, NaiveDateTime, Timelike};
use crate::html::{info_rows_of, read_table_rows};
use crate::itch_game_info_parser as info;
use crate::itch_game_info_parser::{
    first_attr, first_attribute, found_by, link_views, links_of, ABBR, ANCHORS, parse_links, parse_rating_element, rating_of, ItchRating, Link,
    LinkView, RatingView, TableCell,
};
use crate::text::{list_entries, split_entries, str_eq, text_content, trimmed_text, views};

verus! {

/// The kinds of data that a row of the info table can carry.
#[derive(Clone, Copy, Debug, PartialEq, Eq, Structural)]
pub enum ItchTableData {
    UpdatedDate,
    PublishDate,
    Status,
    Platforms,
    Rating,
    Author,
    Genre,
    MadeWith,
    Tags,
    AverageSession,
    Languages,
    Inputs,
    Links,
}

/// The kind of data that a row labelled `s` carries, if the label is known.
pub open spec fn label_kind(s: Seq<char>) -> Option<ItchTableData> {
    if s == "Updated"@ {
        Some(ItchTableData::UpdatedDate)
    } else if s == "Published"@ {
        Some(ItchTableData::PublishDate)
    } else if s == "Status"@ {
        Some(ItchTableData::Status)
    } else if s == "Platforms"@ {
        Some(ItchTableData::Platforms)
    } else if s == "Rating"@ {
        Some(ItchTableData::Rating)
    } else if s == "Author"@ {
        Some(ItchTableData::Author)
    } else if s == "Genre"@ {
        Some(ItchTableData::Genre)
    } else if s == "Made with"@ {
        Some(ItchTableData::MadeWith)
    } else if s == "Tags"@ {
        Some(ItchTableData::Tags)
    } else if s == "Average session"@ {
        Some(ItchTableData::AverageSession)
    } else if s == "Languages"@ {
        Some(ItchTableData::Languages)
    } else if s == "Inputs"@ {
        Some(ItchTableData::Inputs)
    } else if s == "Links"@ {
        Some(ItchTableData::Links)
    } else {
        None
    }
}

impl ItchTableData {
    /// Looks up the kind of data that a row label announces.
    pub fn from_str(s: &str) -> (r: Option<ItchTableData>)
        ensures
            r == label_kind(s@),
    {
        if str_eq(s, "Updated") {
            Some(ItchTableData::UpdatedDate)
        } else if str_eq(s, "Published") {
            Some(ItchTableData::PublishDate)
        } else if str_eq(s, "Status") {
            Some(ItchTableData::Status)
        } else if str_eq(s, "Platforms") {
            Some(ItchTableData::Platforms)
        } else if str_eq(s, "Rating") {
            Some(ItchTableData::Rating)
        } else if str_eq(s, "Author") {
            Some(ItchTableData::Author)
        } else if str_eq(s, "Genre") {
            Some(ItchTableData::Genre)
        } else if str_eq(s, "Made with") {
            Some(ItchTableData::MadeWith)
        } else if str_eq(s, "Tags") {
            Some(ItchTableData::Tags)
        } else if str_eq(s, "Average session") {
            Some(ItchTableData::AverageSession)
        } else if str_eq(s, "Languages") {
            Some(ItchTableData::Languages)
        } else if str_eq(s, "Inputs") {
            Some(ItchTableData::Inputs)
        } else if str_eq(s, "Links") {
            Some(ItchTableData::Links)
        } else {
            None
        }
    }
}

/// Why a game page could not be read.
#[derive(Clone, Debug)]
pub enum ItchHTMLDataFormatError {
    UnknownDataType { data: String },
    MissingElements,
    MissingData { data_type: ItchTableData },
    InvalidData { data_type: ItchTableData, found: String },
}

pub enum ErrorView {
    UnknownDataType(Seq<char>),
    MissingElements,
    MissingData(ItchTableData),
    InvalidData(ItchTableData, Seq<char>),
}

impl View for ItchHTMLDataFormatError {
    type V = ErrorView;

    open spec fn view(&self) -> ErrorView {
        match self {
            ItchHTMLDataFormatError::UnknownDataType { data } => ErrorView::UnknownDataType(data@),
            ItchHTMLDataFormatError::MissingElements => ErrorView::MissingElements,
            ItchHTMLDataFormatError::MissingData { data_type } => ErrorView::MissingData(
                *data_type,
            ),
            ItchHTMLDataFormatError::InvalidData { data_type, found } => ErrorView::InvalidData(
                *data_type,
                found@,
            ),
        }
    }
}

/// A point in time in UTC, to the minute.
#[derive(Clone, Copy, Debug, PartialEq, Eq, Structural)]
pub struct Timestamp {
    pub year: i32,
    pub month: u32,
    pub day: u32,
    pub hour: u32,
    pub minute: u32,
}

pub open spec fn fields_of(t: Timestamp) -> (i32, u32, u32, u32, u32) {
    (t.year, t.month, t.day, t.hour, t.minute)
}

/// The year, month, day, hour and minute that chrono reads from `s` with
/// format `fmt`, where it reads a date and time.
pub uninterp spec fn datetime_fields(s: Seq<char>, fmt: Seq<char>) -> Option<
    (i32, u32, u32, u32, u32),
>;

/// Relies on chrono's `NaiveDateTime::parse_from_str`: reads a date and time
/// from `s` in format `fmt`, or fails; the result depends on `s` and `fmt` alone.
#[verifier::external_body]
fn parse_datetime(s: &str, fmt: &str) -> (r: Option<Timestamp>)
    ensures
        match r {
            Some(t) => datetime_fields(s@, fmt@) == Some(fields_of(t)),
            None => datetime_fields(s@, fmt@) is None,
        },
{
    match NaiveDateTime::parse_from_str(s, fmt) {
        Ok(d) => Some(
            Timestamp { year: d.year(), month: d.month(), day: d.day(), hour: d.hour(), minute: d.minute() },
        ),
        Err(_) => None,
    }
}

/// The format of the timestamps in the `title` of a date cell's `abbr`,
/// as in `05 March 2023 @ 14:30 UTC`.
pub open spec fn date_format() -> Seq<char> {
    "%d %B %Y @ %H:%M UTC"@
}

/// The timestamp of a date cell of kind `k`, or why it has none.
pub open spec fn date_of(c: TableCell, k: ItchTableData) -> Result<Timestamp, ErrorView> {
    match first_attr(c, ABBR as int) {
        Some(Some(t)) => match datetime_fields(t@, date_format()) {
            Some(f) => Ok(Timestamp { year: f.0, month: f.1, day: f.2, hour: f.3, minute: f.4 }),
            None => Err(ErrorView::InvalidData(k, t@)),
        },
        _ => Err(ErrorView::MissingData(k)),
    }
}

/// Reads the timestamp of a date cell.
pub fn parse_date_element(el: &TableCell, data_type: ItchTableData) -> (r: Result<
    Timestamp,
    ItchHTMLDataFormatError,
>)
    ensures
        match date_of(*el, data_type) {
            Ok(t) => r == Ok::<Timestamp, ItchHTMLDataFormatError>(t),
            Err(e) => r is Err && r->Err_0@ == e,
        },
{
    match first_attribute(el, ABBR) {
        Some(Some(title)) => {
            match parse_datetime(title.as_str(), "%d %B %Y @ %H:%M UTC") {
                Some(t) => Ok(t),
                None => Err(ItchHTMLDataFormatError::InvalidData { data_type, found: title.clone() }),
            }
        },
        _ => Err(ItchHTMLDataFormatError::MissingData { data_type }),
    }
}

/// An error of the game-info reader, told of kind `k`.
pub open spec fn lift(e: info::ErrorView, k: ItchTableData) -> ErrorView {
    match e {
        info::ErrorView::UnknownDataType(d) => ErrorView::UnknownDataType(d),
        info::ErrorView::MissingElements => ErrorView::MissingElements,
        info::ErrorView::MissingData(_) => ErrorView::MissingData(k),
        info::ErrorView::InvalidData(_, f) => ErrorView::InvalidData(k, f),
    }
}

fn lift_error(e: info::ItchHTMLDataFormatError, k: ItchTableData) -> (r: ItchHTMLDataFormatError)
    ensures
        r@ == lift(e@, k),
{
    match e {
        info::ItchHTMLDataFormatError::UnknownDataType { data } => {
            ItchHTMLDataFormatError::UnknownDataType { data }
        },
        info::ItchHTMLDataFormatError::MissingElements => ItchHTMLDataFormatError::MissingElements,
        info::ItchHTMLDataFormatError::MissingData { .. } => {
            ItchHTMLDataFormatError::MissingData { data_type: k }
        },
        info::ItchHTMLDataFormatError::InvalidData { found, .. } => {
            ItchHTMLDataFormatError::InvalidData { data_type: k, found }
        },
    }
}

/// Metadata of a game page in its feed-level form.
#[derive(Clone, Debug)]
pub struct ItchData {
    pub last_update_date: Timestamp,
    pub publish_date: Timestamp,
    pub status: String,
    pub platforms: Vec<String>,
    pub rating: ItchRating,
    pub author: String,
    pub genre: String,
    pub made_with: String,
    pub tags: Vec<String>,
    pub average_session: String,
    pub languages: Vec<String>,
    pub inputs: Vec<String>,
    pub links: Vec<Link>,
}

pub struct PageView {
    pub last_update_date: Timestamp,
    pub publish_date: Timestamp,
    pub status: Seq<char>,
    pub platforms: Seq<Seq<char>>,
    pub rating: RatingView,
    pub author: Seq<char>,
    pub genre: Seq<char>,
    pub made_with: Seq<char>,
    pub tags: Seq<Seq<char>>,
    pub average_session: Seq<char>,
    pub languages: Seq<Seq<char>>,
    pub inputs: Seq<Seq<char>>,
    pub links: Seq<LinkView>,
}

impl View for ItchData {
    type V = PageView;

    open spec fn view(&self) -> PageView {
        PageView {
            last_update_date: self.last_update_date,
            publish_date: self.publish_date,
            status: self.status@,
            platforms: views(self.platforms@),
            rating: self.rating@,
            author: self.author@,
            genre: self.genre@,
            made_with: self.made_with@,
            tags: views(self.tags@),
            average_session: self.average_session@,
            languages: views(self.languages@),
            inputs: views(self.inputs@),
            links: link_views(self.links@),
        }
    }
}

/// The Unix epoch, the timestamp of a page that has no date rows.
pub open spec fn epoch() -> Timestamp {
    Timestamp { year: 1970, month: 1, day: 1, hour: 0, minute: 0 }
}

/// The record before any row is read.
pub open spec fn empty_page() -> PageView {
    PageView {
        last_update_date: epoch(),
        publish_date: epoch(),
        status: Seq::empty(),
        platforms: Seq::empty(),
        rating: RatingView { score: seq!['0'], count: 0 },
        author: Seq::empty(),
        genre: Seq::empty(),
        made_with: Seq::empty(),
        tags: Seq::empty(),
        average_session: Seq::empty(),
        languages: Seq::empty(),
        inputs: Seq::empty(),
        links: Seq::empty(),
    }
}

impl ItchData {
    pub fn new() -> (r: ItchData)
        ensures
            r@ == empty_page(),
    {
        let epoch = Timestamp { year: 1970, month: 1, day: 1, hour: 0, minute: 0 };
        let r = ItchData {
            last_update_date: epoch,
            publish_date: epoch,
            status: String::new(),
            platforms: Vec::new(),
            rating: ItchRating { score: String::from_str("0"), count: 0 },
            author: String::new(),
            genre: String::new(),
            made_with: String::new(),
            tags: Vec::new(),
            average_session: String::new(),
            languages: Vec::new(),
            inputs: Vec::new(),
            links: Vec::new(),
        };
        proof {
            reveal_strlit("0");
        }
        assert(r@.platforms =~= Seq::<Seq<char>>::empty());
        assert(r@.links =~= Seq::<LinkView>::empty());
        assert(r@.rating.score =~= seq!['0']);
        assert(r@ =~= empty_page());
        r
    }
}

/// `d` with the field of kind `k` set from the data cell `c`.
pub open spec fn set_field(d: PageView, k: ItchTableData, c: TableCell) -> Result<
    PageView,
    ErrorView,
> {
    let text = text_content(views(c.texts@));
    let list = list_entries(views(c.texts@));
    match k {
        ItchTableData::UpdatedDate => match date_of(c, k) {
            Ok(t) => Ok(PageView { last_update_date: t, ..d }),
            Err(e) => Err(e),
        },
        ItchTableData::PublishDate => match date_of(c, k) {
            Ok(t) => Ok(PageView { publish_date: t, ..d }),
            Err(e) => Err(e),
        },
        ItchTableData::Status => Ok(PageView { status: text, ..d }),
        ItchTableData::Author => Ok(PageView { author: text, ..d }),
        ItchTableData::Genre => Ok(PageView { genre: text, ..d }),
        ItchTableData::MadeWith => Ok(PageView { made_with: text, ..d }),
        ItchTableData::AverageSession => Ok(PageView { average_session: text, ..d }),
        ItchTableData::Platforms => Ok(PageView { platforms: list, ..d }),
        ItchTableData::Tags => Ok(PageView { tags: list, ..d }),
        ItchTableData::Languages => Ok(PageView { languages: list, ..d }),
        ItchTableData::Inputs => Ok(PageView { inputs: list, ..d }),
        ItchTableData::Rating => match rating_of(c) {
            Ok(r) => Ok(PageView { rating: r, ..d }),
            Err(e) => Err(lift(e, k)),
        },
        ItchTableData::Links => match links_of(found_by(c, ANCHORS as int)) {
            Ok(ls) => Ok(PageView { links: ls, ..d }),
            Err(e) => Err(lift(e, k)),
        },
    }
}

/// The effect of one table row on `d`: a row without exactly two cells is an
/// error, a row with an unknown label leaves `d` as it is, and a row with a
/// known label sets that label's field from the second cell.
pub open spec fn apply_row(d: PageView, row: Seq<TableCell>) -> Result<PageView, ErrorView> {
    if row.len() != 2 {
        Err(ErrorView::MissingElements)
    } else {
        match label_kind(row[0].inner_html@) {
            None => Ok(d),
            Some(k) => set_field(d, k, row[1]),
        }
    }
}

/// The record that a sequence of rows gives, read from first to last.
pub open spec fn page_result(rows: Seq<Vec<TableCell>>) -> Result<PageView, ErrorView>
    decreases rows.len(),
{
    if rows.len() == 0 {
        Ok(empty_page())
    } else {
        match page_result(rows.drop_last()) {
            Err(e) => Err(e),
            Ok(d) => apply_row(d, rows.last()@),
        }
    }
}

pub open spec fn page_view(r: Result<ItchData, ItchHTMLDataFormatError>) -> Result<
    PageView,
    ErrorView,
> {
    match r {
        Ok(v) => Ok(v@),
        Err(e) => Err(e@),
    }
}

proof fn lemma_page_err_persists(rows: Seq<Vec<TableCell>>, k: int)
    requires
        0 <= k <= rows.len(),
        page_result(rows.subrange(0, k)) is Err,
    ensures
        page_result(rows) == page_result(rows.subrange(0, k)),
    decreases rows.len() - k,
{
    if k < rows.len() {
        assert(rows.subrange(0, k + 1).drop_last() =~= rows.subrange(0, k));
        lemma_page_err_persists(rows, k + 1);
    } else {
        assert(rows.subrange(0, k) =~= rows);
    }
}

/// Reads the kind of data that a label cell announces.
pub fn parse_row_data_type(el: &TableCell) -> (r: Result<ItchTableData, ItchHTMLDataFormatError>)
    ensures
        match label_kind(el.inner_html@) {
            Some(k) => r == Ok::<ItchTableData, ItchHTMLDataFormatError>(k),
            None => r is Err && r->Err_0@ == ErrorView::UnknownDataType(el.inner_html@),
        },
{
    match ItchTableData::from_str(el.inner_html.as_str()) {
        Some(k) => Ok(k),
        None => Err(ItchHTMLDataFormatError::UnknownDataType { data: el.inner_html.clone() }),
    }
}

/// Reads the feed-level record from the info table's rows.
pub fn extract_page_data(rows: &Vec<Vec<TableCell>>) -> (r: Result<ItchData, ItchHTMLDataFormatError>)
    ensures
        page_view(r) == page_result(rows@),
{
    let mut itch_data = ItchData::new();
    let mut i: usize = 0;
    assert(rows@.subrange(0, 0) =~= Seq::<Vec<TableCell>>::empty());
    while i < rows.len()
        invariant
            i <= rows.len(),
            page_result(rows@.subrange(0, i as int)) == Ok::<PageView, ErrorView>(itch_data@),
        decreases rows.len() - i,
    {
        let tds = &rows[i];
        let ghost pre = rows@.subrange(0, i as int + 1);
        assert(pre.drop_last() =~= rows@.subrange(0, i as int));
        assert(pre.last() == rows@[i as int]);
        if tds.len() != 2 {
            proof {
                lemma_page_err_persists(rows@, i as int + 1);
            }
            return Err(ItchHTMLDataFormatError::MissingElements);
        }
        let data_type = match parse_row_data_type(&tds[0]) {
            Ok(k) => k,
            Err(_) => {
                i = i + 1;
                continue;
            },
        };
        let data = &tds[1];
        let ghost d0 = itch_data@;
        let step: Result<(), ItchHTMLDataFormatError> = match data_type {
            ItchTableData::UpdatedDate => match parse_date_element(data, data_type) {
                Ok(t) => {
                    itch_data.last_update_date = t;
                    Ok(())
                },
                Err(e) => Err(e),
            },
            ItchTableData::PublishDate => match parse_date_element(data, data_type) {
                Ok(t) => {
                    itch_data.publish_date = t;
                    Ok(())
                },
                Err(e) => Err(e),
            },
            ItchTableData::Status => {
                itch_data.status = trimmed_text(&data.texts);
                Ok(())
            },
            ItchTableData::Author => {
                itch_data.author = trimmed_text(&data.texts);
                Ok(())
            },
            ItchTableData::Genre => {
                itch_data.genre = trimmed_text(&data.texts);
                Ok(())
            },
            ItchTableData::MadeWith => {
                itch_data.made_with = trimmed_text(&data.texts);
                Ok(())
            },
            ItchTableData::AverageSession => {
                itch_data.average_session = trimmed_text(&data.texts);
                Ok(())
            },
            ItchTableData::Platforms => {
                itch_data.platforms = split_entries(&data.texts);
                Ok(())
            },
            ItchTableData::Tags => {
                itch_data.tags = split_entries(&data.texts);
                Ok(())
            },
            ItchTableData::Languages => {
                itch_data.languages = split_entries(&data.texts);
                Ok(())
            },
            ItchTableData::Inputs => {
                itch_data.inputs = split_entries(&data.texts);
                Ok(())
            },
            ItchTableData::Rating => match parse_rating_element(data) {
                Ok(rating) => {
                    itch_data.rating = rating;
                    Ok(())
                },
                Err(e) => Err(lift_error(e, data_type)),
            },
            ItchTableData::Links => match parse_links(data) {
                Ok(links) => {
                    itch_data.links = links;
                    Ok(())
                },
                Err(e) => Err(lift_error(e, data_type)),
            },
        };
        match step {
            Ok(()) => {
                assert(apply_row(d0, tds@) == Ok::<PageView, ErrorView>(itch_data@));
            },
            Err(e) => {
                assert(apply_row(d0, tds@) == Err::<PageView, ErrorView>(e@));
                proof {
                    lemma_page_err_persists(rows@, i as int + 1);
                }
                return Err(e);
            },
        }
        i = i + 1;
    }
    assert(rows@.subrange(0, i as int) =~= rows@);
    Ok(itch_data)
}

/// What a page gives: the record that its info table's rows give, or
/// `MissingElements` where the selectors that locate them do not compile.
pub open spec fn page_data(raw: Seq<char>) -> Result<PageView, ErrorView> {
    match info_rows_of(raw) {
        Some(rows) => page_result(rows),
        None => Err(ErrorView::MissingElements),
    }
}

/// Reads the feed-level metadata of a game page: what [`extract_page_data`]
/// gives on the rows of the page's info table. A page without that table
/// gives the empty record.
pub fn parse_itch_data(raw_html: &str) -> (r: Result<ItchData, ItchHTMLDataFormatError>)
    ensures
        page_view(r) == page_data(raw_html@),
{
    match read_table_rows(raw_html) {
        Some(rows) => extract_page_data(&rows),
        None => Err(ItchHTMLDataFormatError::MissingElements),
    }
}

} // verus!
