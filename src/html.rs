//! Reading the info table of a game page with the `scraper` HTML parser.
use vstd::prelude::*;
use scraper::{ElementRef, Html, Selector};
use crate::itch_game_info_parser::{Found, TableCell};

verus! {

/// `(selector, attribute)` pairs as views.
pub open spec fn query_views(q: Seq<(&str, &str)>) -> Seq<(Seq<char>, Seq<char>)> {
    q.map_values(|p: (&str, &str)| (p.0@, p.1@))
}

/// What scraper reads from the page `raw`: for each element that `row_sel`
/// matches, in the order that `Html::select` yields them (the order in which
/// the parser inserted the nodes), the cells that `cell_sel` matches
/// in it, each with its inner markup, its text nodes, and for each query
/// `(selector, attribute)` every element below the cell that the selector
/// matches, with that attribute and its text nodes. `None` where a selector
/// does not compile. It depends on these texts alone.
pub uninterp spec fn page_cells_of(
    raw: Seq<char>,
    row_sel: Seq<char>,
    cell_sel: Seq<char>,
    queries: Seq<(Seq<char>, Seq<char>)>,
) -> Option<Seq<Vec<TableCell>>>;

#[verifier::external_type_specification]
#[verifier::external_body]
pub struct ExSelector(Selector);

#[verifier::external_type_specification]
#[verifier::external_body]
pub struct ExElementRef<'a>(ElementRef<'a>);

/// Relies on scraper's `ElementRef::inner_html`, `text`, `select` and `attr`:
/// the cell's markup and text nodes, and for each compiled query every
/// element below the cell that it matches, with the attribute asked for.
#[verifier::external_body]
fn read_cell(e: ElementRef, qs: &Vec<(Selector, &str)>) -> TableCell {
    let tx = |e: ElementRef| e.text().map(String::from).collect();
    let find = |(q, a): &(Selector, &str)| {
        e.select(q).map(|m| Found { attr: m.attr(a).map(String::from), texts: tx(m) }).collect()
    };
    TableCell { inner_html: e.inner_html(), texts: tx(e), found: qs.iter().map(find).collect() }
}

/// Relies on scraper's `Selector::parse`, `Html::parse_document` and
/// `Html::select`, with each cell read by `read_cell`: the body only makes
/// these calls and collects what they give.
#[verifier::external_body]
fn select_cells(raw: &str, row_sel: &str, cell_sel: &str, queries: &Vec<(&str, &str)>) -> (r:
    Option<Vec<Vec<TableCell>>>)
    ensures
        match r {
            Some(rows) => page_cells_of(raw@, row_sel@, cell_sel@, query_views(queries@)) == Some(
                rows@,
            ),
            None => page_cells_of(raw@, row_sel@, cell_sel@, query_views(queries@)) is None,
        },
{
    let sel = |s: &str| Selector::parse(s).ok();
    let (rs, cs) = (sel(row_sel)?, sel(cell_sel)?);
    let qs = queries.iter().map(|(s, a)| Some((sel(s)?, *a))).collect::<Option<Vec<_>>>()?;
    let doc = Html::parse_document(raw);
    Some(doc.select(&rs).map(|tr| tr.select(&cs).map(|td| read_cell(td, &qs)).collect()).collect())
}

/// The selector of the rows of a game page's info table.
pub open spec fn info_row_selector() -> Seq<char> {
    "div.game_info_panel_widget table tbody tr"@
}

/// The parts of a cell that the extraction reads, in the order of the query
/// indices `RATING_VALUE`, `RATING_COUNT`, `ANCHORS`, `ABBR`.
pub open spec fn cell_queries() -> Seq<(Seq<char>, Seq<char>)> {
    seq![
        ("div[itemprop=\"ratingValue\"]"@, "content"@),
        ("span[itemprop=\"ratingCount\"]"@, "content"@),
        ("a"@, "href"@),
        ("abbr"@, "title"@),
    ]
}

/// The cells of the rows of a page's info table, as scraper reads them.
pub open spec fn info_rows_of(raw: Seq<char>) -> Option<Seq<Vec<TableCell>>> {
    page_cells_of(raw, info_row_selector(), "td"@, cell_queries())
}

/// Reads the rows of the info table of a page, each given as its cells.
pub(crate) fn read_table_rows(raw: &str) -> (r: Option<Vec<Vec<TableCell>>>)
    ensures
        match r {
            Some(rows) => info_rows_of(raw@) == Some(rows@),
            None => info_rows_of(raw@) is None,
        },
{
    let queries: Vec<(&str, &str)> = vec![
        ("div[itemprop=\"ratingValue\"]", "content"),
        ("span[itemprop=\"ratingCount\"]", "content"),
        ("a", "href"),
        ("abbr", "title"),
    ];
    assert(query_views(queries@) =~= cell_queries());
    select_cells(raw, "div.game_info_panel_widget table tbody tr", "td", &queries)
}

} // verus!
