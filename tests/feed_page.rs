use itch_scrape::gate::ConcurrencyGate;
use itch_scrape::itch_game_info_parser::{Found, TableCell, ABBR, RATING_VALUE};
use itch_scrape::itch_parser::{
    extract_page_data, parse_itch_data, ItchHTMLDataFormatError, ItchTableData, Timestamp,
};

fn cell(text: &str) -> TableCell {
    TableCell {
        inner_html: text.to_string(),
        texts: vec![text.to_string()],
        found: vec![vec![], vec![], vec![], vec![]],
    }
}

fn date_cell(title: Option<&str>) -> TableCell {
    let mut c = cell("a while ago");
    c.found[ABBR] = vec![Found { attr: title.map(|t| t.to_string()), texts: vec![] }];
    c
}

#[test]
fn feed_labels_map_to_kinds() {
    assert_eq!(ItchTableData::from_str("Updated"), Some(ItchTableData::UpdatedDate));
    assert_eq!(ItchTableData::from_str("Published"), Some(ItchTableData::PublishDate));
    assert_eq!(ItchTableData::from_str("Author"), Some(ItchTableData::Author));
    assert_eq!(ItchTableData::from_str("Authors"), None);
}

#[test]
fn date_rows_are_parsed() {
    let rows = vec![
        vec![cell("Updated"), date_cell(Some("05 March 2023 @ 14:30 UTC"))],
        vec![cell("Published"), date_cell(Some("28 February 2021 @ 09:05 UTC"))],
        vec![cell("Author"), cell("  Someone ")],
    ];
    let d = extract_page_data(&rows).unwrap();
    assert_eq!(d.last_update_date, Timestamp { year: 2023, month: 3, day: 5, hour: 14, minute: 30 });
    assert_eq!(d.publish_date, Timestamp { year: 2021, month: 2, day: 28, hour: 9, minute: 5 });
    assert_eq!(d.author, "Someone");
}

#[test]
fn no_date_rows_leave_the_epoch() {
    let d = extract_page_data(&vec![]).unwrap();
    assert_eq!(d.publish_date, Timestamp { year: 1970, month: 1, day: 1, hour: 0, minute: 0 });
}

#[test]
fn bad_date_is_invalid_data() {
    let rows = vec![vec![cell("Updated"), date_cell(Some("yesterday"))]];
    match extract_page_data(&rows) {
        Err(ItchHTMLDataFormatError::InvalidData { data_type, found }) => {
            assert_eq!(data_type, ItchTableData::UpdatedDate);
            assert_eq!(found, "yesterday");
        }
        other => panic!("unexpected {:?}", other),
    }
}

#[test]
fn missing_abbr_is_missing_data() {
    let rows = vec![vec![cell("Published"), cell("no date")]];
    assert!(matches!(
        extract_page_data(&rows),
        Err(ItchHTMLDataFormatError::MissingData { data_type: ItchTableData::PublishDate })
    ));
    let rows = vec![vec![cell("Published"), date_cell(None)]];
    assert!(matches!(
        extract_page_data(&rows),
        Err(ItchHTMLDataFormatError::MissingData { data_type: ItchTableData::PublishDate })
    ));
}

#[test]
fn unknown_label_is_skipped() {
    let rows = vec![vec![cell("Size"), cell("1 MB")], vec![cell("Genre"), cell("Puzzle")]];
    let d = extract_page_data(&rows).unwrap();
    assert_eq!(d.genre, "Puzzle");
    let rows = vec![vec![cell("Size"), cell("1 MB")], vec![cell("Genre")]];
    assert!(matches!(extract_page_data(&rows), Err(ItchHTMLDataFormatError::MissingElements)));
}

#[test]
fn unknown_label_cell_is_reported_by_row_lookup() {
    match itch_scrape::itch_parser::parse_row_data_type(&cell("Size")) {
        Err(ItchHTMLDataFormatError::UnknownDataType { data }) => assert_eq!(data, "Size"),
        other => panic!("unexpected {:?}", other),
    }
}

#[test]
fn rating_error_names_this_kind() {
    let mut c = cell("x");
    c.found[RATING_VALUE] = vec![Found { attr: Some("4".to_string()), texts: vec![] }];
    let rows = vec![vec![cell("Rating"), c]];
    assert!(matches!(
        extract_page_data(&rows),
        Err(ItchHTMLDataFormatError::MissingData { data_type: ItchTableData::Rating })
    ));
}

#[test]
fn feed_page_is_read_through_the_html_parser() {
    let page = r#"<div class="game_info_panel_widget"><table><tbody>
<tr><td>Updated</td><td><abbr title="05 March 2023 @ 14:30 UTC">2 days ago</abbr></td></tr>
<tr><td>Genre</td><td><a href="/g">Puzzle</a></td></tr>
</tbody></table></div>"#;
    let d = parse_itch_data(page).unwrap();
    assert_eq!(d.last_update_date.year, 2023);
    assert_eq!(d.last_update_date.minute, 30);
    assert_eq!(d.genre, "Puzzle");
}

#[test]
fn gate_never_admits_more_than_its_limit() {
    let mut g = ConcurrencyGate::new(2);
    assert!(g.try_acquire());
    assert!(g.try_acquire());
    assert!(!g.try_acquire());
    assert_eq!(g.in_flight, 2);
    g.release();
    assert!(g.try_acquire());
    assert!(!g.try_acquire());
    for _ in 0..100 {
        let _ = g.try_acquire();
        assert!(g.in_flight <= 2);
    }
}
