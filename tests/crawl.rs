use itch_scrape::crawl::{
    combine_itch_rss_and_info_data, decimal_string, page_url, CrawlAction, CrawlEvent, Crawler,
    Item,
};
use itch_scrape::itch_game_info_parser::MoreInfoTableData;

fn item(link: &str) -> Item {
    Item {
        guid: format!("g-{}", link),
        title: "T".to_string(),
        plain_title: "PT".to_string(),
        link: link.to_string(),
        price: "$1".to_string(),
        description: "D".to_string(),
        pub_date: "p".to_string(),
        create_date: "c".to_string(),
        update_date: "u".to_string(),
    }
}

const GOOD: &str = r#"<div class="game_info_panel_widget"><table><tbody>
<tr><td>Status</td><td>Released</td></tr></tbody></table></div>"#;
const BAD: &str = r#"<div class="game_info_panel_widget"><table><tbody>
<tr><td>Rating</td><td>none</td></tr></tbody></table></div>"#;

fn url_of(a: &CrawlAction) -> String {
    match a {
        CrawlAction::FetchPage(u) | CrawlAction::FetchDetail(u) => u.clone(),
        other => panic!("unexpected {:?}", other),
    }
}

#[test]
fn writes_page_urls() {
    assert_eq!(page_url("https://f.example/games.xml", 12), "https://f.example/games.xml?page=12");
    assert_eq!(decimal_string(0), "0");
    assert_eq!(decimal_string(4294967295), "4294967295");
}

#[test]
fn malformed_page_is_skipped() {
    let (mut c, a) = Crawler::start("https://f.example/feed".to_string(), 2);
    assert_eq!(url_of(&a), "https://f.example/feed?page=1");
    let a = c.step(CrawlEvent::PageMalformed);
    assert_eq!(url_of(&a), "https://f.example/feed?page=2");
    let a = c.step(CrawlEvent::PageItems(vec![item("https://g.example/1")]));
    assert_eq!(url_of(&a), "https://g.example/1");
    let a = c.step(CrawlEvent::DetailPage(GOOD.to_string()));
    assert!(matches!(a, CrawlAction::Finished));
    assert_eq!(c.records.len(), 1);
    assert_eq!(c.records[0].status, "Released");
    assert_eq!(c.records[0].link, "https://g.example/1");
}

#[test]
fn unreadable_detail_page_is_not_emitted() {
    let (mut c, _) = Crawler::start("u".to_string(), 1);
    let a = c.step(CrawlEvent::PageItems(vec![item("a"), item("b")]));
    assert_eq!(url_of(&a), "a");
    let a = c.step(CrawlEvent::DetailPage(BAD.to_string()));
    assert_eq!(url_of(&a), "b");
    let a = c.step(CrawlEvent::DetailPage(GOOD.to_string()));
    assert!(matches!(a, CrawlAction::Finished));
    assert_eq!(c.records.len(), 1);
    assert_eq!(c.records[0].link, "b");
}

#[test]
fn failed_fetch_aborts() {
    let (mut c, _) = Crawler::start("u".to_string(), 3);
    let a = c.step(CrawlEvent::FetchFailed);
    assert!(matches!(a, CrawlAction::Aborted));
    assert!(c.done);
}

#[test]
fn zero_pages_finish_at_once() {
    let (c, a) = Crawler::start("u".to_string(), 0);
    assert!(matches!(a, CrawlAction::Finished));
    assert!(c.records.is_empty());
}

#[test]
fn empty_page_moves_on() {
    let (mut c, _) = Crawler::start("u".to_string(), 2);
    let a = c.step(CrawlEvent::PageItems(vec![]));
    assert_eq!(url_of(&a), "u?page=2");
}

#[test]
fn combine_copies_fields() {
    let mut t = MoreInfoTableData::new();
    t.status = "Released".to_string();
    t.tags = vec!["2D".to_string()];
    let r = combine_itch_rss_and_info_data(t, item("L"));
    assert_eq!(r.link, "L");
    assert_eq!(r.title, "T");
    assert_eq!(r.status, "Released");
    assert_eq!(r.tags, vec!["2D"]);
    assert_eq!(r.price, "$1");
}

#[test]
fn record_detail_adds_only_read_pages() {
    let mut records = Vec::new();
    itch_scrape::crawl::record_detail(&mut records, item("x"), Ok(MoreInfoTableData::new()));
    assert_eq!(records.len(), 1);
    assert_eq!(records[0].link, "x");
    assert_eq!(records[0].rating.score, "0");
    itch_scrape::crawl::record_detail(
        &mut records,
        item("y"),
        Err(itch_scrape::itch_game_info_parser::ItchHTMLDataFormatError::MissingElements),
    );
    assert_eq!(records.len(), 1);
}

#[test]
fn listings_are_fetched_once_in_order() {
    let (mut c, _) = Crawler::start("u".to_string(), 1);
    let mut asked = vec![url_of(&c.step(CrawlEvent::PageItems(vec![item("a"), item("b"), item("c")])))];
    loop {
        match c.step(CrawlEvent::DetailPage(GOOD.to_string())) {
            CrawlAction::Finished => break,
            a => asked.push(url_of(&a)),
        }
    }
    assert_eq!(asked, vec!["a", "b", "c"]);
    let links: Vec<&str> = c.records.iter().map(|r| r.link.as_str()).collect();
    assert_eq!(links, vec!["a", "b", "c"]);
}
