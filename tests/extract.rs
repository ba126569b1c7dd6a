use itch_scrape::itch_game_info_parser::parse_itch_game_page_data;
use itch_scrape::itch_game_info_parser::{
    extract_table_data, Found, ItchHTMLDataFormatError, ItchTableData, TableCell, ANCHORS,
    RATING_COUNT, RATING_VALUE,
};

fn label(s: &str) -> TableCell {
    TableCell {
        inner_html: s.to_string(),
        texts: vec![s.to_string()],
        found: vec![vec![], vec![], vec![], vec![]],
    }
}

fn data(texts: &[&str]) -> TableCell {
    TableCell {
        inner_html: texts.concat(),
        texts: texts.iter().map(|t| t.to_string()).collect(),
        found: vec![vec![], vec![], vec![], vec![]],
    }
}

/// No element, an element without the attribute, or one with it.
fn element(a: Option<Option<&str>>) -> Vec<Found> {
    match a {
        None => vec![],
        Some(attr) => vec![Found { attr: attr.map(|s| s.to_string()), texts: vec![] }],
    }
}

fn rating(value: Option<Option<&str>>, count: Option<Option<&str>>) -> TableCell {
    let mut c = data(&["4.5 out of 5 stars"]);
    c.found[RATING_VALUE] = element(value);
    c.found[RATING_COUNT] = element(count);
    c
}

#[test]
fn labels_map_to_kinds() {
    assert_eq!(ItchTableData::from_str("Status"), Some(ItchTableData::Status));
    assert_eq!(ItchTableData::from_str("Release date"), Some(ItchTableData::ReleaseDate));
    assert_eq!(ItchTableData::from_str("Author"), Some(ItchTableData::Authors));
    assert_eq!(ItchTableData::from_str("Authors"), Some(ItchTableData::Authors));
    assert_eq!(ItchTableData::from_str("Genre"), Some(ItchTableData::Genres));
    assert_eq!(ItchTableData::from_str("Tag"), Some(ItchTableData::Tags));
    assert_eq!(ItchTableData::from_str("Language"), Some(ItchTableData::Languages));
    assert_eq!(ItchTableData::from_str("Made with"), Some(ItchTableData::MadeWith));
    assert_eq!(ItchTableData::from_str("status"), None);
    assert_eq!(ItchTableData::from_str("Updated"), None);
}

#[test]
fn status_row_sets_status() {
    let rows = vec![vec![label("Status"), data(&["  Released\n"])]];
    let d = extract_table_data(&rows).unwrap();
    assert_eq!(d.status, "Released");
    assert!(d.platforms.is_empty());
    assert_eq!(d.average_session, "");
}

#[test]
fn platform_anchors_become_list() {
    let rows = vec![vec![label("Platforms"), data(&["Windows", ", ", "Linux"])]];
    let d = extract_table_data(&rows).unwrap();
    assert_eq!(d.platforms, vec!["Windows".to_string(), "Linux".to_string()]);
}

#[test]
fn list_cell_splits_on_newlines_and_keeps_duplicates() {
    let rows = vec![vec![label("Tags"), data(&["\n  2D \n,\n Pixel Art", "\n", "2D"])]];
    let d = extract_table_data(&rows).unwrap();
    assert_eq!(d.tags, vec!["2D", "Pixel Art", "2D"]);
}

#[test]
fn unknown_label_changes_nothing() {
    let rows = vec![
        vec![label("Status"), data(&["Released"])],
        vec![label("Size"), data(&["12 MB"])],
    ];
    let d = extract_table_data(&rows).unwrap();
    assert_eq!(d.status, "Released");
    assert!(d.tags.is_empty());
    assert_eq!(d.rating.score, "0");
    assert_eq!(d.rating.count, 0);
}

#[test]
fn later_row_overwrites_earlier() {
    let rows = vec![
        vec![label("Status"), data(&["Prototype"])],
        vec![label("Status"), data(&["Released"])],
    ];
    assert_eq!(extract_table_data(&rows).unwrap().status, "Released");
}

#[test]
fn row_without_two_cells_fails() {
    let rows = vec![vec![label("Status"), data(&["Released"]), data(&["x"])]];
    assert!(matches!(
        extract_table_data(&rows),
        Err(ItchHTMLDataFormatError::MissingElements)
    ));
    let rows = vec![vec![label("Status")]];
    assert!(matches!(
        extract_table_data(&rows),
        Err(ItchHTMLDataFormatError::MissingElements)
    ));
}

#[test]
fn rating_reads_score_and_count() {
    let rows = vec![vec![label("Rating"), rating(Some(Some("4.5")), Some(Some("120")))]];
    let d = extract_table_data(&rows).unwrap();
    assert_eq!(d.rating.score, "4.5");
    assert_eq!(d.rating.count, 120);
}

#[test]
fn rating_without_count_is_missing_data() {
    let rows = vec![vec![label("Rating"), rating(Some(Some("4.5")), None)]];
    assert!(matches!(
        extract_table_data(&rows),
        Err(ItchHTMLDataFormatError::MissingData { data_type: ItchTableData::Rating })
    ));
    let rows = vec![vec![label("Rating"), rating(Some(None), Some(Some("3")))]];
    assert!(matches!(
        extract_table_data(&rows),
        Err(ItchHTMLDataFormatError::MissingData { data_type: ItchTableData::Rating })
    ));
}

#[test]
fn rating_with_bad_numbers_is_invalid_data() {
    let rows = vec![vec![label("Rating"), rating(Some(Some("four")), Some(Some("1")))]];
    match extract_table_data(&rows) {
        Err(ItchHTMLDataFormatError::InvalidData { data_type, found }) => {
            assert_eq!(data_type, ItchTableData::Rating);
            assert_eq!(found, "four");
        }
        other => panic!("unexpected {:?}", other),
    }
    let rows = vec![vec![label("Rating"), rating(Some(Some("4.5")), Some(Some("1.5")))]];
    match extract_table_data(&rows) {
        Err(ItchHTMLDataFormatError::InvalidData { found, .. }) => assert_eq!(found, "1.5"),
        other => panic!("unexpected {:?}", other),
    }
}

#[test]
fn links_row_reads_anchors() {
    let mut cell = data(&["Homepage", "Twitter"]);
    cell.found[ANCHORS] = vec![
        Found { attr: Some("https://a.example".to_string()), texts: vec!["Home".into(), "page".into()] },
        Found { attr: Some("https://b.example".to_string()), texts: vec!["Twitter".into()] },
    ];
    let d = extract_table_data(&vec![vec![label("Links"), cell]]).unwrap();
    assert_eq!(d.links.len(), 2);
    assert_eq!(d.links[0].name, "Homepage");
    assert_eq!(d.links[0].url, "https://a.example");
    assert_eq!(d.links[1].name, "Twitter");
}

#[test]
fn link_without_href_is_missing_data() {
    let mut cell = data(&["x"]);
    cell.found[ANCHORS] = vec![Found { attr: None, texts: vec!["x".into()] }];
    assert!(matches!(
        extract_table_data(&vec![vec![label("Links"), cell]]),
        Err(ItchHTMLDataFormatError::MissingData { data_type: ItchTableData::Links })
    ));
}

const PAGE: &str = r#"<html><body><div class="game_info_panel_widget"><table><tbody>
<tr><td>Status</td><td>Released</td></tr>
<tr><td>Platforms</td><td><a href="/w">Windows</a>, <a href="/l">Linux</a></td></tr>
<tr><td>Rating</td><td><div itemprop="ratingValue" content="4.5"></div><span itemprop="ratingCount" content="120">(120)</span></td></tr>
<tr><td>Size</td><td>10 MB</td></tr>
<tr><td>Links</td><td><a href="https://x.example">Site</a></td></tr>
</tbody></table></div></body></html>"#;

#[test]
fn page_is_read_through_the_html_parser() {
    let d = parse_itch_game_page_data(PAGE).unwrap();
    assert_eq!(d.status, "Released");
    assert_eq!(d.platforms, vec!["Windows", "Linux"]);
    assert_eq!(d.rating.score, "4.5");
    assert_eq!(d.rating.count, 120);
    assert_eq!(d.links.len(), 1);
    assert_eq!(d.links[0].name, "Site");
    assert_eq!(d.links[0].url, "https://x.example");
}

#[test]
fn page_without_rating_count_fails() {
    let page = PAGE.replace(r#"<span itemprop="ratingCount" content="120">(120)</span>"#, "");
    assert!(matches!(
        parse_itch_game_page_data(&page),
        Err(ItchHTMLDataFormatError::MissingData { data_type: ItchTableData::Rating })
    ));
}

#[test]
fn page_without_table_gives_empty_record() {
    let d = parse_itch_game_page_data("<html><body><p>nothing</p></body></html>").unwrap();
    assert_eq!(d.status, "");
    assert!(d.platforms.is_empty());
}

#[test]
fn unknown_label_cell_reports_its_text() {
    match itch_scrape::itch_game_info_parser::parse_row_data_type(&label("Size")) {
        Err(ItchHTMLDataFormatError::UnknownDataType { data }) => assert_eq!(data, "Size"),
        other => panic!("unexpected {:?}", other),
    }
    assert!(matches!(
        itch_scrape::itch_game_info_parser::parse_row_data_type(&label("Links")),
        Ok(ItchTableData::Links)
    ));
}

#[test]
fn exponent_score_is_read_and_count_errors_name_the_count() {
    let rows = vec![vec![label("Rating"), rating(Some(Some("1e5")), Some(Some("3")))]];
    let d = extract_table_data(&rows).unwrap();
    assert_eq!(d.rating.score, "1e5");
    assert_eq!(d.rating.count, 3);
    let rows = vec![vec![label("Rating"), rating(Some(Some("1e5")), None)]];
    assert!(matches!(
        extract_table_data(&rows),
        Err(ItchHTMLDataFormatError::MissingData { data_type: ItchTableData::Rating })
    ));
    let rows = vec![vec![label("Rating"), rating(Some(Some("1e5")), Some(Some("12.5")))]];
    match extract_table_data(&rows) {
        Err(ItchHTMLDataFormatError::InvalidData { found, .. }) => assert_eq!(found, "12.5"),
        other => panic!("unexpected {:?}", other),
    }
}

#[test]
fn first_rating_element_counts() {
    let mut c = rating(Some(Some("4.5")), Some(Some("7")));
    c.found[RATING_VALUE].push(Found { attr: Some("oops".to_string()), texts: vec![] });
    c.found[RATING_COUNT].push(Found { attr: None, texts: vec![] });
    let d = extract_table_data(&vec![vec![label("Rating"), c]]).unwrap();
    assert_eq!(d.rating.score, "4.5");
    assert_eq!(d.rating.count, 7);
}

#[test]
fn page_takes_first_rating_element() {
    let page = PAGE.replace(
        r#"<span itemprop="ratingCount" content="120">(120)</span>"#,
        r#"<span itemprop="ratingCount" content="120">(120)</span><span itemprop="ratingCount" content="x"></span>"#,
    );
    let d = parse_itch_game_page_data(&page).unwrap();
    assert_eq!(d.rating.count, 120);
}
