use price_scout::collect::{
    assemble_item, assemble_streamed, plan_item, semaphore_closed_match, sort_by_site,
};
use price_scout::model::{MatchStatus, SiteMatch};
use price_scout::select::best_from_matches;

fn offer(site: &str, cents: u64) -> SiteMatch {
    SiteMatch {
        site: site.to_string(),
        title: None,
        price: Some(cents),
        currency: Some("USD".to_string()),
        url: Some(format!("https://{}/item", site)),
        status: MatchStatus::Found,
        message: None,
        latency_ms: Some(1),
    }
}

fn miss(site: &str, status: MatchStatus) -> SiteMatch {
    SiteMatch {
        site: site.to_string(),
        title: None,
        price: None,
        currency: Some("USD".to_string()),
        url: Some(format!("https://{}/search", site)),
        status,
        message: None,
        latency_ms: Some(1),
    }
}

#[test]
fn selector_outlier() {
    let matches = vec![
        offer("a", 1000),
        offer("b", 18000),
        offer("c", 20000),
        offer("d", 21000),
        offer("e", 22000),
    ];
    let best = best_from_matches(&matches).unwrap();
    assert_eq!(best.site, "b");
    assert_eq!(best.price, 18000);
    assert_eq!(best.url, "https://b/item");
}

#[test]
fn no_valid_offer_gives_no_best() {
    assert!(best_from_matches(&[]).is_none());
    let matches = vec![miss("a", MatchStatus::NotFound), miss("b", MatchStatus::Error)];
    assert!(best_from_matches(&matches).is_none());
    let mut no_link = offer("c", 500);
    no_link.url = None;
    let mut no_price = offer("d", 500);
    no_price.price = None;
    let mut cached = offer("e", 500);
    cached.status = MatchStatus::Cached;
    assert!(best_from_matches(&[no_link, no_price, cached]).is_none());
}

#[test]
fn two_offers_are_not_trimmed() {
    let matches = vec![offer("a", 100_000), offer("b", 1000)];
    let best = best_from_matches(&matches).unwrap();
    assert_eq!(best.site, "b");
    assert_eq!(best.price, 1000);
}

#[test]
fn floor_is_four_tenths_of_the_median() {
    let at_floor = vec![offer("a", 400), offer("b", 1000), offer("c", 1200)];
    assert_eq!(best_from_matches(&at_floor).unwrap().price, 400);
    let below = vec![offer("a", 399), offer("b", 1000), offer("c", 1200)];
    assert_eq!(best_from_matches(&below).unwrap().price, 1000);
}

#[test]
fn ties_go_to_the_first() {
    let matches = vec![offer("z", 900), miss("m", MatchStatus::Blocked), offer("a", 900), offer("b", 950)];
    let best = best_from_matches(&matches).unwrap();
    assert_eq!(best.site, "z");
}

#[test]
fn collected_matches_are_sorted_by_site() {
    let matches = vec![
        offer("walmart", 2000),
        miss("amazon", MatchStatus::Blocked),
        offer("bestbuy", 1900),
        offer("amazon", 2100),
        miss("Zoro", MatchStatus::Error),
    ];
    let result = assemble_item("drill".to_string(), &matches);
    assert_eq!(result.query, "drill");
    assert_eq!(result.matches.len(), 5);
    let sites: Vec<&str> = result.matches.iter().map(|m| m.site.as_str()).collect();
    assert_eq!(sites, vec!["Zoro", "amazon", "amazon", "bestbuy", "walmart"]);
    assert_eq!(result.matches[1].status, MatchStatus::Blocked);
    assert_eq!(result.matches[2].status, MatchStatus::Found);
    let best = result.best.unwrap();
    assert_eq!(best.site, "bestbuy");
    assert_eq!(best.price, 1900);
}

#[test]
fn sorting_keeps_every_match() {
    let matches = vec![offer("b", 1), offer("a", 2), offer("b", 3), offer("a", 4)];
    let sorted = sort_by_site(&matches);
    let seen: Vec<(String, Option<u64>)> = sorted.iter().map(|m| (m.site.clone(), m.price)).collect();
    assert_eq!(
        seen,
        vec![
            ("a".to_string(), Some(2)),
            ("a".to_string(), Some(4)),
            ("b".to_string(), Some(1)),
            ("b".to_string(), Some(3)),
        ]
    );
    assert!(sort_by_site(&vec![]).is_empty());
}

#[test]
fn streamed_matches_keep_their_order() {
    let matches = vec![offer("walmart", 2000), offer("amazon", 2100)];
    let result = assemble_streamed("drill".to_string(), matches);
    assert_eq!(result.matches[0].site, "walmart");
    assert_eq!(result.matches[1].site, "amazon");
    assert_eq!(result.best.unwrap().site, "walmart");
}

#[test]
fn closed_permits_give_an_error_match() {
    let m = semaphore_closed_match("amazon", Some("https://www.amazon.com/s?k=x".to_string()));
    assert_eq!(m.site, "amazon");
    assert_eq!(m.status, MatchStatus::Error);
    assert_eq!(m.message.as_deref(), Some("semaphore_closed"));
    assert_eq!(m.currency.as_deref(), Some("USD"));
    assert_eq!(m.url.as_deref(), Some("https://www.amazon.com/s?k=x"));
    assert_eq!(m.latency_ms, Some(0));
    assert!(m.price.is_none());
}

#[test]
fn one_scrape_is_planned_for_each_entry_of_the_plan() {
    let plan = vec!["walmart".to_string(), "amazon".to_string(), "walmart".to_string()];
    let tasks = plan_item(&plan, "cordless drill");
    let seen: Vec<(&str, &str)> = tasks.iter().map(|t| (t.site.as_str(), t.query.as_str())).collect();
    assert_eq!(
        seen,
        vec![("walmart", "cordless drill"), ("amazon", "cordless drill"), ("walmart", "cordless drill")]
    );
    assert!(plan_item(&vec![], "x").is_empty());
}
