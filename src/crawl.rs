//! The crawl: feed items, the records built from them, and the decisions of
//! the page and item loops, driven one event at a time.
use vstd::prelude::*;
use crate::itch_game_info_parser::{page_info, parse_itch_game_page_data};
use crate::itch_game_info_parser::{ItchHTMLDataFormatError, ItchRating, Link, MoreInfoTableData};

verus! {

/// One listing of a feed page.
#[derive(Clone, Debug)]
pub struct Item {
    pub guid: String,
    pub title: String,
    pub plain_title: String,
    pub link: String,
    pub price: String,
    pub description: String,
    pub pub_date: String,
    pub create_date: String,
    pub update_date: String,
}

/// The record emitted for a listing whose detail page was read.
#[derive(Clone, Debug)]
pub struct ItchData {
    pub title: String,
    pub plain_title: String,
    pub link: String,
    pub create_date: String,
    pub update_date: String,
    pub release_date: String,
    pub pub_date: String,
    pub price: String,
    pub description: String,
    pub rating: ItchRating,
    pub authors: Vec<String>,
    pub genres: Vec<String>,
    pub made_with: Vec<String>,
    pub tags: Vec<String>,
    pub average_session: String,
    pub languages: Vec<String>,
    pub inputs: Vec<String>,
    pub links: Vec<Link>,
    pub status: String,
    pub platforms: Vec<String>,
    pub accessibility: Vec<String>,
}

/// `r` holds the fields of listing `item` and of detail record `t`, unchanged.
pub open spec fn combines(r: ItchData, t: MoreInfoTableData, item: Item) -> bool {
    &&& r.title == item.title
    &&& r.plain_title == item.plain_title
    &&& r.link == item.link
    &&& r.create_date == item.create_date
    &&& r.update_date == item.update_date
    &&& r.pub_date == item.pub_date
    &&& r.price == item.price
    &&& r.description == item.description
    &&& r.release_date == t.release_date
    &&& r.rating == t.rating
    &&& r.authors == t.authors
    &&& r.genres == t.genres
    &&& r.made_with == t.made_with
    &&& r.tags == t.tags
    &&& r.average_session == t.average_session
    &&& r.languages == t.languages
    &&& r.inputs == t.inputs
    &&& r.links == t.links
    &&& r.status == t.status
    &&& r.platforms == t.platforms
    &&& r.accessibility == t.accessibility
}

/// Merges a listing and its detail record into one output record.
pub fn combine_itch_rss_and_info_data(table_data: MoreInfoTableData, rss_data: Item) -> (r:
    ItchData)
    ensures
        combines(r, table_data, rss_data),
{
    ItchData {
        update_date: rss_data.update_date,
        create_date: rss_data.create_date,
        plain_title: rss_data.plain_title,
        link: rss_data.link,
        description: rss_data.description,
        pub_date: rss_data.pub_date,
        price: rss_data.price,
        title: rss_data.title,
        average_session: table_data.average_session,
        platforms: table_data.platforms,
        languages: table_data.languages,
        made_with: table_data.made_with,
        inputs: table_data.inputs,
        authors: table_data.authors,
        release_date: table_data.release_date,
        rating: table_data.rating,
        links: table_data.links,
        genres: table_data.genres,
        status: table_data.status,
        tags: table_data.tags,
        accessibility: table_data.accessibility,
    }
}

pub open spec fn digit_char(d: nat) -> char {
    if d == 0 {
        '0'
    } else if d == 1 {
        '1'
    } else if d == 2 {
        '2'
    } else if d == 3 {
        '3'
    } else if d == 4 {
        '4'
    } else if d == 5 {
        '5'
    } else if d == 6 {
        '6'
    } else if d == 7 {
        '7'
    } else if d == 8 {
        '8'
    } else {
        '9'
    }
}

/// The decimal digits of `n`, without leading zeros.
pub open spec fn decimal(n: nat) -> Seq<char>
    decreases n,
{
    if n < 10 {
        seq![digit_char(n)]
    } else {
        decimal(n / 10).push(digit_char(n % 10))
    }
}

fn digit_string(d: u32) -> (r: String)
    requires
        d < 10,
    ensures
        r@ == seq![digit_char(d as nat)],
{
    let r = if d == 0 {
        String::from_str("0")
    } else if d == 1 {
        String::from_str("1")
    } else if d == 2 {
        String::from_str("2")
    } else if d == 3 {
        String::from_str("3")
    } else if d == 4 {
        String::from_str("4")
    } else if d == 5 {
        String::from_str("5")
    } else if d == 6 {
        String::from_str("6")
    } else if d == 7 {
        String::from_str("7")
    } else if d == 8 {
        String::from_str("8")
    } else {
        String::from_str("9")
    };
    proof {
        reveal_strlit("0");
        reveal_strlit("1");
        reveal_strlit("2");
        reveal_strlit("3");
        reveal_strlit("4");
        reveal_strlit("5");
        reveal_strlit("6");
        reveal_strlit("7");
        reveal_strlit("8");
        reveal_strlit("9");
    }
    assert(r@ =~= seq![digit_char(d as nat)]);
    r
}

/// Writes `n` in decimal.
pub fn decimal_string(n: u32) -> (r: String)
    ensures
        r@ == decimal(n as nat),
    decreases n,
{
    if n < 10 {
        digit_string(n)
    } else {
        let mut r = decimal_string(n / 10);
        let last = digit_string(n % 10);
        r.append(last.as_str());
        assert(r@ =~= decimal(n as nat));
        r
    }
}

/// The address of feed page `page`: the base address with a `page` query.
pub open spec fn page_url_of(base: Seq<char>, page: nat) -> Seq<char> {
    base + "?page="@ + decimal(page)
}

/// Builds the address of feed page `page`.
pub fn page_url(base: &str, page: u32) -> (r: String)
    ensures
        r@ == page_url_of(base@, page as nat),
{
    let mut r = String::from_str(base);
    r.append("?page=");
    let digits = decimal_string(page);
    r.append(digits.as_str());
    r
}

impl Item {
    /// A copy of the listing, field for field.
    pub fn copied(&self) -> (r: Item)
        ensures
            r == *self,
    {
        Item {
            guid: self.guid.clone(),
            title: self.title.clone(),
            plain_title: self.plain_title.clone(),
            link: self.link.clone(),
            price: self.price.clone(),
            description: self.description.clone(),
            pub_date: self.pub_date.clone(),
            create_date: self.create_date.clone(),
            update_date: self.update_date.clone(),
        }
    }
}

/// Adds the record of `item` to `records` where its detail page was read, and
/// leaves `records` as it is where it was not.
pub fn record_detail(
    records: &mut Vec<ItchData>,
    item: Item,
    parsed: Result<MoreInfoTableData, ItchHTMLDataFormatError>,
)
    ensures
        match parsed {
            Ok(t) => {
                &&& final(records)@.len() == old(records)@.len() + 1
                &&& final(records)@.subrange(0, old(records)@.len() as int) == old(records)@
                &&& combines(final(records)@.last(), t, item)
            },
            Err(_) => final(records)@ == old(records)@,
        },
{
    match parsed {
        Ok(t) => {
            records.push(combine_itch_rss_and_info_data(t, item));
            assert(records@.subrange(0, records@.len() - 1) =~= old(records)@);
        },
        Err(_) => {},
    }
}

/// What the crawl learned from the outside since its last action.
#[derive(Debug)]
pub enum CrawlEvent {
    /// The requested feed page was fetched and decoded into these listings.
    PageItems(Vec<Item>),
    /// The requested feed page was fetched, but its body is not a feed.
    PageMalformed,
    /// The requested detail page was fetched; this is its body.
    DetailPage(String),
    /// A fetch failed after its retries.
    FetchFailed,
}

/// What the crawl asks of the outside next.
#[derive(Debug)]
pub enum CrawlAction {
    /// Fetch this feed page and decode it.
    FetchPage(String),
    /// Fetch this detail page.
    FetchDetail(String),
    /// The crawl is complete; its records are final.
    Finished,
    /// A fetch failed: the crawl ends with an error.
    Aborted,
}

/// The state of a crawl over feed pages `1..=page_limit`.
pub struct Crawler {
    pub base_url: String,
    pub page_limit: u32,
    /// The page being worked on.
    pub page: u32,
    /// The listings of that page.
    pub items: Vec<Item>,
    /// The listing whose detail page was asked for, while `awaiting_detail`.
    pub next_item: usize,
    pub awaiting_detail: bool,
    pub done: bool,
    /// The records built so far, in page and listing order.
    pub records: Vec<ItchData>,
}

/// After page `o.page` is finished: the next page is asked for, or the crawl
/// is complete after the last page.
pub open spec fn page_advanced(o: Crawler, n: Crawler, r: CrawlAction) -> bool {
    &&& n.base_url == o.base_url
    &&& n.page_limit == o.page_limit
    &&& !n.awaiting_detail
    &&& (o.page < o.page_limit ==> {
        &&& !n.done
        &&& n.page == o.page + 1
        &&& (r is FetchPage)
        &&& r->FetchPage_0@ == page_url_of(o.base_url@, o.page as nat + 1)
    })
    &&& (o.page >= o.page_limit ==> n.done && (r is Finished))
}

/// After the listing `o.next_item` is finished: the next listing's detail page
/// is asked for, or the page is finished after its last listing.
pub open spec fn item_advanced(o: Crawler, n: Crawler, r: CrawlAction) -> bool {
    if o.next_item + 1 < o.items@.len() {
        &&& n.base_url == o.base_url
        &&& n.page_limit == o.page_limit
        &&& n.page == o.page
        &&& n.items == o.items
        &&& n.next_item == o.next_item + 1
        &&& n.awaiting_detail
        &&& !n.done
        &&& r is FetchDetail
        &&& r->FetchDetail_0 == o.items@[o.next_item + 1].link
    } else {
        page_advanced(o, n, r)
    }
}

/// What a step does: the relation between the crawl before it, the event it
/// takes in, the crawl after it, and the action it asks for. Records are only
/// ever appended.
pub open spec fn step_rel(o: Crawler, e: CrawlEvent, n: Crawler, r: CrawlAction) -> bool {
    &&& o.records@.len() <= n.records@.len()
    &&& n.records@.subrange(0, o.records@.len() as int) == o.records@
    &&& match e {
        CrawlEvent::FetchFailed => {
            &&& r is Aborted
            &&& n.done
            &&& n.records == o.records
        },
        CrawlEvent::PageMalformed => {
            &&& page_advanced(o, n, r)
            &&& n.records == o.records
        },
        CrawlEvent::PageItems(items) => {
            &&& n.records == o.records
            &&& items@.len() == 0 ==> page_advanced(o, n, r)
            &&& items@.len() > 0 ==> {
                &&& n.items == items
                &&& n.next_item == 0
                &&& n.awaiting_detail
                &&& !n.done
                &&& n.page == o.page
                &&& n.base_url == o.base_url
                &&& n.page_limit == o.page_limit
                &&& r is FetchDetail
                &&& r->FetchDetail_0 == items@[0].link
            }
        },
        CrawlEvent::DetailPage(html) => {
            let item = o.items@[o.next_item as int];
            let (ro, rn) = (o.records@, n.records@);
            &&& item_advanced(o, n, r)
            &&& match page_info(html@) {
                Ok(v) => {
                    &&& rn.len() == ro.len() + 1
                    &&& rn.subrange(0, ro.len() as int) == ro
                    &&& exists|t: MoreInfoTableData| t@ == v && combines(rn.last(), t, item)
                },
                Err(_) => rn == ro,
            }
        },
    }
}

impl Crawler {
    pub open spec fn wf(&self) -> bool {
        &&& 1 <= self.page <= self.page_limit
        &&& (self.awaiting_detail ==> self.next_item < self.items@.len())
    }

    /// Whether `e` answers the action that the crawl asked for last.
    pub open spec fn fits(&self, e: CrawlEvent) -> bool {
        match e {
            CrawlEvent::FetchFailed => true,
            CrawlEvent::DetailPage(_) => self.awaiting_detail,
            _ => !self.awaiting_detail,
        }
    }

    /// Starts a crawl over pages `1..=page_limit` of the feed at `base_url`.
    pub fn start(base_url: String, page_limit: u32) -> (r: (Crawler, CrawlAction))
        ensures
            r.0.base_url == base_url,
            r.0.page_limit == page_limit,
            r.0.records@.len() == 0,
            page_limit == 0 ==> r.0.done && r.1 is Finished,
            page_limit > 0 ==> {
                &&& r.0.wf()
                &&& !r.0.done
                &&& r.0.page == 1
                &&& !r.0.awaiting_detail
                &&& r.1 is FetchPage
                &&& r.1->FetchPage_0@ == page_url_of(base_url@, 1)
            },
    {
        if page_limit == 0 {
            let c = Crawler {
                base_url,
                page_limit,
                page: 0,
                items: Vec::new(),
                next_item: 0,
                awaiting_detail: false,
                done: true,
                records: Vec::new(),
            };
            (c, CrawlAction::Finished)
        } else {
            let url = page_url(base_url.as_str(), 1);
            let c = Crawler {
                base_url,
                page_limit,
                page: 1,
                items: Vec::new(),
                next_item: 0,
                awaiting_detail: false,
                done: false,
                records: Vec::new(),
            };
            (c, CrawlAction::FetchPage(url))
        }
    }

    fn advance_page(&mut self) -> (r: CrawlAction)
        requires
            old(self).wf(),
            !old(self).done,
        ensures
            page_advanced(*old(self), *final(self), r),
            final(self).records == old(self).records,
            !final(self).done ==> final(self).wf(),
    {
        self.awaiting_detail = false;
        if self.page < self.page_limit {
            self.page = self.page + 1;
            let url = page_url(self.base_url.as_str(), self.page);
            CrawlAction::FetchPage(url)
        } else {
            self.done = true;
            CrawlAction::Finished
        }
    }

    fn advance_item(&mut self) -> (r: CrawlAction)
        requires
            old(self).wf(),
            !old(self).done,
            old(self).awaiting_detail,
        ensures
            item_advanced(*old(self), *final(self), r),
            final(self).records == old(self).records,
            !final(self).done ==> final(self).wf(),
    {
        let n = self.items.len();
        if self.next_item + 1 < n {
            self.next_item = self.next_item + 1;
            CrawlAction::FetchDetail(self.items[self.next_item].link.clone())
        } else {
            self.advance_page()
        }
    }

    /// Takes in what came back for the last action and decides the next one.
    /// A failed fetch ends the crawl, whether of a feed page or of a detail
    /// page; a page whose body is not a feed is skipped; a detail page adds
    /// the record of its listing exactly when its metadata can be read.
    pub fn step(&mut self, event: CrawlEvent) -> (r: CrawlAction)
        requires
            old(self).wf(),
            !old(self).done,
            old(self).fits(event),
        ensures
            !final(self).done ==> final(self).wf(),
            step_rel(*old(self), event, *final(self), r),
    {
        let ghost before = self.records@;
        let r = match event {
            CrawlEvent::FetchFailed => {
                self.done = true;
                CrawlAction::Aborted
            },
            CrawlEvent::PageMalformed => self.advance_page(),
            CrawlEvent::PageItems(items) => {
                if items.len() == 0 {
                    self.advance_page()
                } else {
                    let link = items[0].link.clone();
                    self.items = items;
                    self.next_item = 0;
                    self.awaiting_detail = true;
                    CrawlAction::FetchDetail(link)
                }
            },
            CrawlEvent::DetailPage(html) => {
                let item = self.items[self.next_item].copied();
                let parsed = parse_itch_game_page_data(html.as_str());
                let ghost p = parsed;
                record_detail(&mut self.records, item, parsed);
                proof {
                    if p is Ok {
                        let t = p->Ok_0;
                        assert(t@ == page_info(html@)->Ok_0);
                        assert(combines(self.records@.last(), t, item));
                    }
                }
                self.advance_item()
            },
        };
        assert(self.records@ == before ==> self.records@.subrange(0, before.len() as int)
            =~= before);
        r
    }
}

/// The records that one event adds: one for a detail page whose metadata
/// can be read, none for any other event.
pub open spec fn added(e: CrawlEvent) -> nat {
    match e {
        CrawlEvent::DetailPage(html) => if page_info(html@) is Ok {
            1
        } else {
            0
        },
        _ => 0,
    }
}

/// The records that a run of events adds.
pub open spec fn total_added(events: Seq<CrawlEvent>) -> nat
    decreases events.len(),
{
    if events.len() == 0 {
        0
    } else {
        total_added(events.drop_last()) + added(events.last())
    }
}

/// Over any run of steps, the records are those before the run followed by
/// exactly one record for each detail page whose metadata could be read:
/// a malformed feed page, an empty page or an unreadable detail page adds
/// none and removes none of the others.
pub proof fn lemma_crawl_records(
    states: Seq<Crawler>,
    events: Seq<CrawlEvent>,
    actions: Seq<CrawlAction>,
)
    requires
        is_run(states, events, actions),
    ensures
        states.last().records@.len() == states[0].records@.len() + total_added(events),
        states.last().records@.subrange(0, states[0].records@.len() as int)
            == states[0].records@,
    decreases events.len(),
{
    if events.len() > 0 {
        let m = (events.len() - 1) as int;
        let ps = states.drop_last();
        assert forall|k: int| 0 <= k < events.drop_last().len() implies #[trigger] step_rel(
            ps[k],
            events.drop_last()[k],
            ps[k + 1],
            actions.drop_last()[k],
        ) by {
            assert(step_rel(states[k], events[k], states[k + 1], actions[k]));
        }
        lemma_crawl_records(ps, events.drop_last(), actions.drop_last());
        assert(step_rel(states[m], events[m], states[m + 1], actions[m]));
        let (a, b, c) = (states[0].records@, states[m].records@, states[m + 1].records@);
        assert(c.len() == b.len() + added(events[m]));
        assert(c.subrange(0, a.len() as int) =~= b.subrange(0, b.len() as int).subrange(
            0,
            a.len() as int,
        ));
        assert(b.subrange(0, b.len() as int) =~= b);
    }
}

/// `states`, `events` and `actions` form a run of steps.
pub open spec fn is_run(states: Seq<Crawler>, events: Seq<CrawlEvent>, actions: Seq<CrawlAction>) -> bool {
    &&& states.len() == events.len() + 1
    &&& actions.len() == events.len()
    &&& forall|k: int|
        0 <= k < events.len() ==> #[trigger] step_rel(
            states[k],
            events[k],
            states[k + 1],
            actions[k],
        )
}

proof fn lemma_detail_order(
    states: Seq<Crawler>,
    events: Seq<CrawlEvent>,
    actions: Seq<CrawlAction>,
    items: Vec<Item>,
    k: int,
)
    requires
        is_run(states, events, actions),
        events.len() <= items@.len(),
        events[0] == CrawlEvent::PageItems(items),
        forall|j: int| 1 <= j < events.len() ==> (#[trigger] events[j]) is DetailPage,
        0 <= k < events.len(),
    ensures
        states[k + 1].items == items,
        states[k + 1].next_item == k,
        states[k + 1].awaiting_detail,
        actions[k] is FetchDetail,
        actions[k]->FetchDetail_0 == items@[k].link,
    decreases k,
{
    assert(step_rel(states[k], events[k], states[k + 1], actions[k]));
    if k > 0 {
        lemma_detail_order(states, events, actions, items, k - 1);
        assert(events[k] is DetailPage);
    }
}

/// Once a feed page's listings come in, the crawl asks for their detail pages
/// one at a time, in the order of the listings, each exactly once: over the
/// run that takes in the listings and then the detail pages of all but the
/// last, action `k` fetches the link of listing `k`.
pub proof fn lemma_each_listing_fetched_once(
    states: Seq<Crawler>,
    events: Seq<CrawlEvent>,
    actions: Seq<CrawlAction>,
    items: Vec<Item>,
)
    requires
        is_run(states, events, actions),
        events.len() == items@.len(),
        items@.len() > 0,
        events[0] == CrawlEvent::PageItems(items),
        forall|j: int| 1 <= j < events.len() ==> (#[trigger] events[j]) is DetailPage,
    ensures
        forall|k: int|
            0 <= k < items@.len() ==> (#[trigger] actions[k]) is FetchDetail
                && actions[k]->FetchDetail_0 == items@[k].link,
{
    assert forall|k: int| 0 <= k < items@.len() implies (#[trigger] actions[k]) is FetchDetail
        && actions[k]->FetchDetail_0 == items@[k].link by {
        lemma_detail_order(states, events, actions, items, k);
    }
}

} // verus!
