//! Detail-page extraction: maps the labelled rows of a game page's info table
//! onto the fields of [`MoreInfoTableData`].
use vstd::prelude::*;
use crate::html::{info_rows_of, read_table_rows};
use crate::text::{
    check_float, concat, i32_value, is_float_text, join_texts, list_entries, parse_i32,
    split_entries, str_eq, text_content, trimmed_text, views,
};

verus! {

/// The kinds of data that a row of the info table can carry.
#[derive(Clone, Copy, Debug, PartialEq, Eq, Structural)]
pub enum ItchTableData {
    ReleaseDate,
    Status,
    Platforms,
    Rating,
    Authors,
    Genres,
    MadeWith,
    Tags,
    AverageSession,
    Languages,
    Inputs,
    Links,
    Accessibility,
}

/// The kind of data that a row labelled `s` carries, if the label is known.
pub open spec fn label_kind(s: Seq<char>) -> Option<ItchTableData> {
    if s == "Status"@ {
        Some(ItchTableData::Status)
    } else if s == "Release date"@ {
        Some(ItchTableData::ReleaseDate)
    } else if s == "Accessibility"@ {
        Some(ItchTableData::Accessibility)
    } else if s == "Platforms"@ {
        Some(ItchTableData::Platforms)
    } else if s == "Rating"@ {
        Some(ItchTableData::Rating)
    } else if s == "Author"@ || s == "Authors"@ {
        Some(ItchTableData::Authors)
    } else if s == "Genre"@ || s == "Genres"@ {
        Some(ItchTableData::Genres)
    } else if s == "Made with"@ {
        Some(ItchTableData::MadeWith)
    } else if s == "Tag"@ || s == "Tags"@ {
        Some(ItchTableData::Tags)
    } else if s == "Average session"@ {
        Some(ItchTableData::AverageSession)
    } else if s == "Languages"@ || s == "Language"@ {
        Some(ItchTableData::Languages)
    } else if s == "Inputs"@ {
        Some(ItchTableData::Inputs)
    } else if s == "Links"@ {
        Some(ItchTableData::Links)
    } else {
        None
    }
}

impl ItchTableData {
    /// Looks up the kind of data that a row label announces.
    pub fn from_str(s: &str) -> (r: Option<ItchTableData>)
        ensures
            r == label_kind(s@),
    {
        if str_eq(s, "Status") {
            Some(ItchTableData::Status)
        } else if str_eq(s, "Release date") {
            Some(ItchTableData::ReleaseDate)
        } else if str_eq(s, "Accessibility") {
            Some(ItchTableData::Accessibility)
        } else if str_eq(s, "Platforms") {
            Some(ItchTableData::Platforms)
        } else if str_eq(s, "Rating") {
            Some(ItchTableData::Rating)
        } else if str_eq(s, "Author") || str_eq(s, "Authors") {
            Some(ItchTableData::Authors)
        } else if str_eq(s, "Genre") || str_eq(s, "Genres") {
            Some(ItchTableData::Genres)
        } else if str_eq(s, "Made with") {
            Some(ItchTableData::MadeWith)
        } else if str_eq(s, "Tag") || str_eq(s, "Tags") {
            Some(ItchTableData::Tags)
        } else if str_eq(s, "Average session") {
            Some(ItchTableData::AverageSession)
        } else if str_eq(s, "Languages") || str_eq(s, "Language") {
            Some(ItchTableData::Languages)
        } else if str_eq(s, "Inputs") {
            Some(ItchTableData::Inputs)
        } else if str_eq(s, "Links") {
            Some(ItchTableData::Links)
        } else {
            None
        }
    }
}

/// Why a detail page could not be read.
#[derive(Clone, Debug)]
pub enum ItchHTMLDataFormatError {
    UnknownDataType { data: String },
    MissingElements,
    MissingData { data_type: ItchTableData },
    InvalidData { data_type: ItchTableData, found: String },
}

pub enum ErrorView {
    UnknownDataType(Seq<char>),
    MissingElements,
    MissingData(ItchTableData),
    InvalidData(ItchTableData, Seq<char>),
}

impl View for ItchHTMLDataFormatError {
    type V = ErrorView;

    open spec fn view(&self) -> ErrorView {
        match self {
            ItchHTMLDataFormatError::UnknownDataType { data } => ErrorView::UnknownDataType(data@),
            ItchHTMLDataFormatError::MissingElements => ErrorView::MissingElements,
            ItchHTMLDataFormatError::MissingData { data_type } => ErrorView::MissingData(
                *data_type,
            ),
            ItchHTMLDataFormatError::InvalidData { data_type, found } => ErrorView::InvalidData(
                *data_type,
                found@,
            ),
        }
    }
}

/// A named link of the Links row.
#[derive(Clone, Debug)]
pub struct Link {
    pub name: String,
    pub url: String,
}

pub struct LinkView {
    pub name: Seq<char>,
    pub url: Seq<char>,
}

impl View for Link {
    type V = LinkView;

    open spec fn view(&self) -> LinkView {
        LinkView { name: self.name@, url: self.url@ }
    }
}

/// A game's rating: the score as the number text the page gives, and the
/// number of ratings.
#[derive(Clone, Debug)]
pub struct ItchRating {
    pub score: String,
    pub count: i32,
}

pub struct RatingView {
    pub score: Seq<char>,
    pub count: i32,
}

impl View for ItchRating {
    type V = RatingView;

    open spec fn view(&self) -> RatingView {
        RatingView { score: self.score@, count: self.count }
    }
}

/// Metadata read from a game page's info table.
#[derive(Clone, Debug)]
pub struct MoreInfoTableData {
    pub status: String,
    pub release_date: String,
    pub platforms: Vec<String>,
    pub rating: ItchRating,
    pub authors: Vec<String>,
    pub genres: Vec<String>,
    pub made_with: Vec<String>,
    pub tags: Vec<String>,
    pub average_session: String,
    pub languages: Vec<String>,
    pub inputs: Vec<String>,
    pub links: Vec<Link>,
    pub accessibility: Vec<String>,
}

pub struct InfoView {
    pub status: Seq<char>,
    pub release_date: Seq<char>,
    pub platforms: Seq<Seq<char>>,
    pub rating: RatingView,
    pub authors: Seq<Seq<char>>,
    pub genres: Seq<Seq<char>>,
    pub made_with: Seq<Seq<char>>,
    pub tags: Seq<Seq<char>>,
    pub average_session: Seq<char>,
    pub languages: Seq<Seq<char>>,
    pub inputs: Seq<Seq<char>>,
    pub links: Seq<LinkView>,
    pub accessibility: Seq<Seq<char>>,
}

pub open spec fn link_views(v: Seq<Link>) -> Seq<LinkView> {
    v.map_values(|l: Link| l@)
}

impl View for MoreInfoTableData {
    type V = InfoView;

    open spec fn view(&self) -> InfoView {
        InfoView {
            status: self.status@,
            release_date: self.release_date@,
            platforms: views(self.platforms@),
            rating: self.rating@,
            authors: views(self.authors@),
            genres: views(self.genres@),
            made_with: views(self.made_with@),
            tags: views(self.tags@),
            average_session: self.average_session@,
            languages: views(self.languages@),
            inputs: views(self.inputs@),
            links: link_views(self.links@),
            accessibility: views(self.accessibility@),
        }
    }
}

/// The record before any row is read: empty texts and lists, a zero rating.
pub open spec fn empty_info() -> InfoView {
    InfoView {
        status: Seq::empty(),
        release_date: Seq::empty(),
        platforms: Seq::empty(),
        rating: RatingView { score: seq!['0'], count: 0 },
        authors: Seq::empty(),
        genres: Seq::empty(),
        made_with: Seq::empty(),
        tags: Seq::empty(),
        average_session: Seq::empty(),
        languages: Seq::empty(),
        inputs: Seq::empty(),
        links: Seq::empty(),
        accessibility: Seq::empty(),
    }
}

impl MoreInfoTableData {
    pub fn new() -> (r: MoreInfoTableData)
        ensures
            r@ == empty_info(),
    {
        let r = MoreInfoTableData {
            status: String::new(),
            release_date: String::new(),
            platforms: Vec::new(),
            rating: ItchRating { score: String::from_str("0"), count: 0 },
            authors: Vec::new(),
            genres: Vec::new(),
            made_with: Vec::new(),
            tags: Vec::new(),
            average_session: String::new(),
            languages: Vec::new(),
            inputs: Vec::new(),
            links: Vec::new(),
            accessibility: Vec::new(),
        };
        proof {
            reveal_strlit("0");
        }
        assert(r@.platforms =~= Seq::<Seq<char>>::empty());
        assert(r@.links =~= Seq::<LinkView>::empty());
        assert(r@.rating.score =~= seq!['0']);
        assert(r@ =~= empty_info());
        r
    }
}

/// An element found below a table cell: the value of the attribute asked
/// for, if set, and its text nodes.
#[derive(Clone, Debug)]
pub struct Found {
    pub attr: Option<String>,
    pub texts: Vec<String>,
}

/// What the extraction reads of one table cell: its inner markup, its text
/// nodes, and for each query index (`RATING_VALUE`, `RATING_COUNT`, `ANCHORS`,
/// `ABBR`) the elements below it that the query finds, in order.
#[derive(Clone, Debug)]
pub struct TableCell {
    pub inner_html: String,
    pub texts: Vec<String>,
    pub found: Vec<Vec<Found>>,
}

/// Query index of the rating-value elements (`content` attribute).
pub const RATING_VALUE: usize = 0;

/// Query index of the rating-count elements (`content` attribute).
pub const RATING_COUNT: usize = 1;

/// Query index of the anchors (`href` attribute).
pub const ANCHORS: usize = 2;

/// Query index of the `abbr` elements (`title` attribute).
pub const ABBR: usize = 3;

/// The elements that query `q` found below cell `c`.
pub open spec fn found_by(c: TableCell, q: int) -> Seq<Found> {
    if 0 <= q < c.found@.len() {
        c.found@[q]@
    } else {
        Seq::empty()
    }
}

/// The attribute of the first element that query `q` found below `c`:
/// `None` where it found none, `Some(None)` where that element lacks it.
pub open spec fn first_attr(c: TableCell, q: int) -> Option<Option<String>> {
    if found_by(c, q).len() > 0 {
        Some(found_by(c, q)[0].attr)
    } else {
        None
    }
}

fn copy_attr(o: &Option<String>) -> (r: Option<String>)
    ensures
        r == *o,
{
    match o {
        Some(s) => Some(s.clone()),
        None => None,
    }
}

/// Returns the attribute of the first element that query `q` found below `c`.
pub fn first_attribute(c: &TableCell, q: usize) -> (r: Option<Option<String>>)
    ensures
        r == first_attr(*c, q as int),
{
    if q < c.found.len() && c.found[q].len() > 0 {
        Some(copy_attr(&c.found[q][0].attr))
    } else {
        None
    }
}

/// The rating that a cell gives, or why it gives none.
pub open spec fn rating_of(c: TableCell) -> Result<RatingView, ErrorView> {
    match first_attr(c, RATING_VALUE as int) {
        Some(Some(v)) => if !is_float_text(v@) {
            Err(ErrorView::InvalidData(ItchTableData::Rating, v@))
        } else {
            match first_attr(c, RATING_COUNT as int) {
                Some(Some(n)) => match i32_value(n@) {
                    Some(k) => Ok(RatingView { score: v@, count: k }),
                    None => Err(ErrorView::InvalidData(ItchTableData::Rating, n@)),
                },
                _ => Err(ErrorView::MissingData(ItchTableData::Rating)),
            }
        },
        _ => Err(ErrorView::MissingData(ItchTableData::Rating)),
    }
}

/// The links that a cell's anchors give, in order; the first anchor without an
/// `href` makes it fail.
pub open spec fn links_of(anchors: Seq<Found>) -> Result<Seq<LinkView>, ErrorView>
    decreases anchors.len(),
{
    if anchors.len() == 0 {
        Ok(Seq::empty())
    } else {
        match links_of(anchors.drop_last()) {
            Err(e) => Err(e),
            Ok(ls) => match anchors.last().attr {
                None => Err(ErrorView::MissingData(ItchTableData::Links)),
                Some(h) => Ok(
                    ls.push(LinkView { name: concat(views(anchors.last().texts@)), url: h@ }),
                ),
            },
        }
    }
}

/// `d` with the field of kind `k` set from the data cell `c`.
pub open spec fn set_field(d: InfoView, k: ItchTableData, c: TableCell) -> Result<
    InfoView,
    ErrorView,
> {
    let text = text_content(views(c.texts@));
    let list = list_entries(views(c.texts@));
    match k {
        ItchTableData::ReleaseDate => Ok(InfoView { release_date: text, ..d }),
        ItchTableData::Status => Ok(InfoView { status: text, ..d }),
        ItchTableData::AverageSession => Ok(InfoView { average_session: text, ..d }),
        ItchTableData::Accessibility => Ok(InfoView { accessibility: list, ..d }),
        ItchTableData::Platforms => Ok(InfoView { platforms: list, ..d }),
        ItchTableData::Authors => Ok(InfoView { authors: list, ..d }),
        ItchTableData::Genres => Ok(InfoView { genres: list, ..d }),
        ItchTableData::MadeWith => Ok(InfoView { made_with: list, ..d }),
        ItchTableData::Tags => Ok(InfoView { tags: list, ..d }),
        ItchTableData::Languages => Ok(InfoView { languages: list, ..d }),
        ItchTableData::Inputs => Ok(InfoView { inputs: list, ..d }),
        ItchTableData::Rating => match rating_of(c) {
            Ok(r) => Ok(InfoView { rating: r, ..d }),
            Err(e) => Err(e),
        },
        ItchTableData::Links => match links_of(found_by(c, ANCHORS as int)) {
            Ok(ls) => Ok(InfoView { links: ls, ..d }),
            Err(e) => Err(e),
        },
    }
}

/// The effect of one table row on `d`: a row without exactly two cells is an
/// error, a row with an unknown label leaves `d` as it is, and a row with a
/// known label sets that label's field from the second cell.
pub open spec fn apply_row(d: InfoView, row: Seq<TableCell>) -> Result<InfoView, ErrorView> {
    if row.len() != 2 {
        Err(ErrorView::MissingElements)
    } else {
        match label_kind(row[0].inner_html@) {
            None => Ok(d),
            Some(k) => set_field(d, k, row[1]),
        }
    }
}

/// The record that a sequence of rows gives, read from first to last.
pub open spec fn table_result(rows: Seq<Vec<TableCell>>) -> Result<InfoView, ErrorView>
    decreases rows.len(),
{
    if rows.len() == 0 {
        Ok(empty_info())
    } else {
        match table_result(rows.drop_last()) {
            Err(e) => Err(e),
            Ok(d) => apply_row(d, rows.last()@),
        }
    }
}

pub open spec fn result_view<T: View>(r: Result<T, ItchHTMLDataFormatError>) -> Result<
    T::V,
    ErrorView,
> {
    match r {
        Ok(v) => Ok(v@),
        Err(e) => Err(e@),
    }
}

/// Reads the kind of data that a label cell announces.
pub fn parse_row_data_type(el: &TableCell) -> (r: Result<ItchTableData, ItchHTMLDataFormatError>)
    ensures
        match label_kind(el.inner_html@) {
            Some(k) => r == Ok::<ItchTableData, ItchHTMLDataFormatError>(k),
            None => r is Err && r->Err_0@ == ErrorView::UnknownDataType(el.inner_html@),
        },
{
    match ItchTableData::from_str(el.inner_html.as_str()) {
        Some(k) => Ok(k),
        None => Err(ItchHTMLDataFormatError::UnknownDataType { data: el.inner_html.clone() }),
    }
}

/// Reads the rating of a Rating cell.
pub fn parse_rating_element(el: &TableCell) -> (r: Result<ItchRating, ItchHTMLDataFormatError>)
    ensures
        result_view(r) == rating_of(*el),
{
    let data_type = ItchTableData::Rating;
    let score = match first_attribute(el, RATING_VALUE) {
        Some(Some(v)) => v,
        _ => return Err(ItchHTMLDataFormatError::MissingData { data_type }),
    };
    if !check_float(score.as_str()) {
        return Err(ItchHTMLDataFormatError::InvalidData { data_type, found: score.clone() });
    }
    let count_text = match first_attribute(el, RATING_COUNT) {
        Some(Some(n)) => n,
        _ => return Err(ItchHTMLDataFormatError::MissingData { data_type }),
    };
    match parse_i32(count_text.as_str()) {
        Some(count) => Ok(ItchRating { score: score.clone(), count }),
        None => Err(ItchHTMLDataFormatError::InvalidData { data_type, found: count_text.clone() }),
    }
}

/// Reads the entries of a list cell.
pub fn parse_anchor_separated_strings(el: &TableCell) -> (r: Vec<String>)
    ensures
        views(r@) == list_entries(views(el.texts@)),
{
    split_entries(&el.texts)
}

/// Reads the links of a Links cell.
pub fn parse_links(el: &TableCell) -> (r: Result<Vec<Link>, ItchHTMLDataFormatError>)
    ensures
        match links_of(found_by(*el, ANCHORS as int)) {
            Ok(ls) => r is Ok && link_views(r->Ok_0@) == ls,
            Err(e) => r is Err && r->Err_0@ == e,
        },
{
    let mut links: Vec<Link> = Vec::new();
    let mut i: usize = 0;
    let none: Vec<Found> = Vec::new();
    let anchors: &Vec<Found> = if ANCHORS < el.found.len() {
        &el.found[ANCHORS]
    } else {
        &none
    };
    assert(anchors@ == found_by(*el, ANCHORS as int));
    assert(anchors@.subrange(0, 0) =~= Seq::<Found>::empty());
    assert(link_views(links@) =~= Seq::<LinkView>::empty());
    while i < anchors.len()
        invariant
            i <= anchors.len(),
            anchors@ == found_by(*el, ANCHORS as int),
            links_of(anchors@.subrange(0, i as int)) == Ok::<Seq<LinkView>, ErrorView>(
                link_views(links@),
            ),
        decreases anchors.len() - i,
    {
        let anchor = &anchors[i];
        assert(anchors@.subrange(0, i as int + 1).drop_last() =~= anchors@.subrange(
            0,
            i as int,
        ));
        match &anchor.attr {
            Some(h) => {
                let name = join_texts(&anchor.texts);
                let ghost before = links@;
                links.push(Link { name, url: h.clone() });
                assert(link_views(links@) =~= link_views(before).push(links@.last()@));
            },
            None => {
                proof {
                    lemma_links_err_persists(anchors@, i as int + 1);
                }
                return Err(ItchHTMLDataFormatError::MissingData { data_type: ItchTableData::Links });
            },
        }
        i = i + 1;
    }
    assert(anchors@.subrange(0, i as int) =~= anchors@);
    Ok(links)
}

proof fn lemma_links_err_persists(a: Seq<Found>, k: int)
    requires
        0 <= k <= a.len(),
        links_of(a.subrange(0, k)) is Err,
    ensures
        links_of(a) == links_of(a.subrange(0, k)),
    decreases a.len() - k,
{
    if k < a.len() {
        assert(a.subrange(0, k + 1).drop_last() =~= a.subrange(0, k));
        lemma_links_err_persists(a, k + 1);
    } else {
        assert(a.subrange(0, k) =~= a);
    }
}

proof fn lemma_table_err_persists(rows: Seq<Vec<TableCell>>, k: int)
    requires
        0 <= k <= rows.len(),
        table_result(rows.subrange(0, k)) is Err,
    ensures
        table_result(rows) == table_result(rows.subrange(0, k)),
    decreases rows.len() - k,
{
    if k < rows.len() {
        assert(rows.subrange(0, k + 1).drop_last() =~= rows.subrange(0, k));
        lemma_table_err_persists(rows, k + 1);
    } else {
        assert(rows.subrange(0, k) =~= rows);
    }
}

/// Reads the info table from its rows, each given as its cells.
pub fn extract_table_data(rows: &Vec<Vec<TableCell>>) -> (r: Result<
    MoreInfoTableData,
    ItchHTMLDataFormatError,
>)
    ensures
        result_view(r) == table_result(rows@),
{
    let mut itch_data = MoreInfoTableData::new();
    let mut i: usize = 0;
    assert(rows@.subrange(0, 0) =~= Seq::<Vec<TableCell>>::empty());
    while i < rows.len()
        invariant
            i <= rows.len(),
            table_result(rows@.subrange(0, i as int)) == Ok::<InfoView, ErrorView>(itch_data@),
        decreases rows.len() - i,
    {
        let tds = &rows[i];
        let ghost pre = rows@.subrange(0, i as int + 1);
        assert(pre.drop_last() =~= rows@.subrange(0, i as int));
        assert(pre.last() == rows@[i as int]);
        if tds.len() != 2 {
            proof {
                lemma_table_err_persists(rows@, i as int + 1);
            }
            return Err(ItchHTMLDataFormatError::MissingElements);
        }
        let data_type = match parse_row_data_type(&tds[0]) {
            Ok(k) => k,
            Err(_) => {
                i = i + 1;
                continue;
            },
        };
        let data = &tds[1];
        let ghost d0 = itch_data@;
        match data_type {
            ItchTableData::ReleaseDate => {
                itch_data.release_date = trimmed_text(&data.texts);
            },
            ItchTableData::Status => {
                itch_data.status = trimmed_text(&data.texts);
            },
            ItchTableData::AverageSession => {
                itch_data.average_session = trimmed_text(&data.texts);
            },
            ItchTableData::Accessibility => {
                itch_data.accessibility = parse_anchor_separated_strings(data);
            },
            ItchTableData::Platforms => {
                itch_data.platforms = parse_anchor_separated_strings(data);
            },
            ItchTableData::Authors => {
                itch_data.authors = parse_anchor_separated_strings(data);
            },
            ItchTableData::Genres => {
                itch_data.genres = parse_anchor_separated_strings(data);
            },
            ItchTableData::MadeWith => {
                itch_data.made_with = parse_anchor_separated_strings(data);
            },
            ItchTableData::Tags => {
                itch_data.tags = parse_anchor_separated_strings(data);
            },
            ItchTableData::Languages => {
                itch_data.languages = parse_anchor_separated_strings(data);
            },
            ItchTableData::Inputs => {
                itch_data.inputs = parse_anchor_separated_strings(data);
            },
            ItchTableData::Rating => {
                match parse_rating_element(data) {
                    Ok(rating) => {
                        itch_data.rating = rating;
                    },
                    Err(e) => {
                        proof {
                            lemma_table_err_persists(rows@, i as int + 1);
                        }
                        return Err(e);
                    },
                }
            },
            ItchTableData::Links => {
                match parse_links(data) {
                    Ok(links) => {
                        itch_data.links = links;
                    },
                    Err(e) => {
                        proof {
                            lemma_table_err_persists(rows@, i as int + 1);
                        }
                        return Err(e);
                    },
                }
            },
        }
        assert(apply_row(d0, tds@) == Ok::<InfoView, ErrorView>(itch_data@));
        i = i + 1;
    }
    assert(rows@.subrange(0, i as int) =~= rows@);
    Ok(itch_data)
}

/// `a` and `b` agree on every field but the one of kind `k`.
pub open spec fn agree_except(a: InfoView, b: InfoView, k: ItchTableData) -> bool {
    &&& (k != ItchTableData::Status ==> a.status == b.status)
    &&& (k != ItchTableData::ReleaseDate ==> a.release_date == b.release_date)
    &&& (k != ItchTableData::Platforms ==> a.platforms == b.platforms)
    &&& (k != ItchTableData::Rating ==> a.rating == b.rating)
    &&& (k != ItchTableData::Authors ==> a.authors == b.authors)
    &&& (k != ItchTableData::Genres ==> a.genres == b.genres)
    &&& (k != ItchTableData::MadeWith ==> a.made_with == b.made_with)
    &&& (k != ItchTableData::Tags ==> a.tags == b.tags)
    &&& (k != ItchTableData::AverageSession ==> a.average_session == b.average_session)
    &&& (k != ItchTableData::Languages ==> a.languages == b.languages)
    &&& (k != ItchTableData::Inputs ==> a.inputs == b.inputs)
    &&& (k != ItchTableData::Links ==> a.links == b.links)
    &&& (k != ItchTableData::Accessibility ==> a.accessibility == b.accessibility)
}

/// A two-cell row whose label is known sets exactly the field of that label,
/// from the second cell, and leaves every other field as it was; a two-cell
/// row whose label is not known changes no field.
pub proof fn lemma_row_sets_only_its_field(d: InfoView, row: Seq<TableCell>)
    requires
        row.len() == 2,
    ensures
        label_kind(row[0].inner_html@) is None ==> apply_row(d, row) == Ok::<InfoView, ErrorView>(d),
        label_kind(row[0].inner_html@) is Some ==> apply_row(d, row) == set_field(
            d,
            label_kind(row[0].inner_html@)->0,
            row[1],
        ),
        forall|k: ItchTableData|
            label_kind(row[0].inner_html@) == Some(k) && (#[trigger] apply_row(d, row)) is Ok
                ==> agree_except(d, apply_row(d, row)->Ok_0, k),
{
}

/// What a page gives: the record that its info table's rows give, or
/// `MissingElements` where the selectors that locate them do not compile.
pub open spec fn page_info(raw: Seq<char>) -> Result<InfoView, ErrorView> {
    match info_rows_of(raw) {
        Some(rows) => table_result(rows),
        None => Err(ErrorView::MissingElements),
    }
}

/// Reads the metadata of a game page: what [`extract_table_data`] gives on
/// the rows of the page's info table. A page without that table gives the
/// empty record.
pub fn parse_itch_game_page_data(raw_html: &str) -> (r: Result<
    MoreInfoTableData,
    ItchHTMLDataFormatError,
>)
    ensures
        result_view(r) == page_info(raw_html@),
{
    match read_table_rows(raw_html) {
        Some(rows) => extract_table_data(&rows),
        None => Err(ItchHTMLDataFormatError::MissingElements),
    }
}

} // verus!
