use price_scout::extract::{
    best_guess_of, dollar_price_from, extract_amazon_price, extract_price_from_body,
    extract_price_from_json_ld, json_ld_price_from, vendor_price_from,
};
use price_scout::outside::Capture;
use price_scout::median::{median, sort_prices};
use price_scout::price::{is_offer_price, is_vendor_price, parse_price, parse_price_bytes, PRICE_CEILING_CENTS};

fn spaced(parts: &[&str]) -> String {
    parts.join(" ............................................ ")
}

#[test]
fn parse_price_reads_plain_and_separated_amounts() {
    assert_eq!(parse_price("12"), Some(1200));
    assert_eq!(parse_price("12.5"), Some(1250));
    assert_eq!(parse_price("12.50"), Some(1250));
    assert_eq!(parse_price("1,234.56"), Some(123456));
    assert_eq!(parse_price("0.07"), Some(7));
    assert_eq!(parse_price(".50"), Some(50));
    assert_eq!(parse_price("5."), Some(500));
    assert_eq!(parse_price_bytes(b"1,299.99"), Some(129999));
}

#[test]
fn parse_price_rejects_what_is_no_amount() {
    assert_eq!(parse_price(""), None);
    assert_eq!(parse_price(",,,"), None);
    assert_eq!(parse_price("."), None);
    assert_eq!(parse_price("abc"), None);
    assert_eq!(parse_price("1.234"), None);
    assert_eq!(parse_price("1.2.3"), None);
    assert_eq!(parse_price("-5"), None);
    assert_eq!(parse_price("12a"), None);
}

#[test]
fn parse_price_cuts_huge_amounts_off() {
    assert_eq!(parse_price("99999999999999999999999999999999"), Some(PRICE_CEILING_CENTS));
    assert_eq!(parse_price("10000000000"), Some(PRICE_CEILING_CENTS));
    assert_eq!(parse_price("9999999999.99"), Some(999_999_999_999));
}

#[test]
fn offer_range_includes_both_ends() {
    assert!(is_offer_price(300));
    assert!(is_offer_price(5_000_000));
    assert!(!is_offer_price(299));
    assert!(!is_offer_price(5_000_001));
    assert!(is_vendor_price(500));
    assert!(!is_vendor_price(499));
    assert!(is_vendor_price(5_000_000));
    assert!(!is_vendor_price(5_000_001));
}

#[test]
fn boundary_prices_in_embedded_data() {
    assert_eq!(extract_price_from_json_ld("{\"price\": 3.00}"), Some(300));
    assert_eq!(extract_price_from_json_ld("{\"price\":\"50000.00\"}"), Some(5_000_000));
    assert_eq!(extract_price_from_json_ld("{\"price\": 2.99}"), None);
    assert_eq!(extract_price_from_json_ld("{\"price\":\"50000.01\"}"), None);
    assert_eq!(extract_price_from_body("walmart", "{\"price\": 2.99}"), None);
}

#[test]
fn boundary_prices_among_dollar_amounts() {
    assert_eq!(extract_price_from_body("walmart", "now $3.00 only"), Some(300));
    assert_eq!(extract_price_from_body("walmart", "now $2.99 only"), None);
    assert_eq!(extract_price_from_body("walmart", "now $50,000.00 only"), Some(5_000_000));
    assert_eq!(extract_price_from_body("walmart", "now $50,000.01 only"), None);
}

#[test]
fn median_is_the_upper_middle() {
    assert_eq!(median(&vec![]), None);
    assert_eq!(median(&vec![7]), Some(7));
    assert_eq!(median(&vec![3, 1, 2]), Some(2));
    assert_eq!(median(&vec![4, 1, 3, 2]), Some(3));
    assert_eq!(sort_prices(&vec![5, 3, 9, 3, 1]), vec![1, 3, 3, 5, 9]);
    assert_eq!(sort_prices(&vec![]), Vec::<u64>::new());
}

#[test]
fn embedded_data_gives_the_median_of_accepted_prices() {
    let body = "\"price\":\"10.00\" \"price\": 30 \"price\":20.5 \"price\":\"1.00\" \"price\":99999";
    assert_eq!(extract_price_from_json_ld(body), Some(2050));
    assert_eq!(extract_price_from_json_ld("no data here"), None);
}

#[test]
fn embedded_data_reads_eighty_matches_at_most() {
    let mut body = String::new();
    for _ in 0..80 {
        body.push_str("\"price\":1.00 ");
    }
    body.push_str("\"price\":25.00 ");
    assert_eq!(extract_price_from_json_ld(&body), None);
    let mut other = String::new();
    for _ in 0..79 {
        other.push_str("\"price\":1.00 ");
    }
    other.push_str("\"price\":25.00 ");
    assert_eq!(extract_price_from_json_ld(&other), Some(2500));
}

#[test]
fn median_trimming() {
    let body = spaced(&["<p>$5.00</p>", "<p>$199.99</p>", "<p>$205.00</p>", "<p>$210.00</p>", "<p>$220.00</p>"]);
    assert_eq!(extract_price_from_body("walmart", &body), Some(19999));
}

#[test]
fn monthly_filter() {
    let body = spaced(&["$45 /mo financing", "<b>$899.00</b>"]);
    assert_eq!(extract_price_from_body("bestbuy", &body), Some(89900));
    assert_eq!(extract_price_from_body("bestbuy", "$45 /mo financing"), None);
}

#[test]
fn json_ld_win() {
    let body = spaced(&["<script>{\"price\":\"129.95\"}</script>", "only $5 more", "$5.00"]);
    assert_eq!(extract_price_from_body("target", &body), Some(12995));
}

#[test]
fn instalment_words_discard_an_amount() {
    for word in ["/mo", "month", "monthly", "financing", "per wk", "weekly"] {
        let body = format!("pay $45.00 {} for it", word);
        assert_eq!(extract_price_from_body("zoro", &body), None);
    }
    assert_eq!(extract_price_from_body("zoro", "pay $45.00 for it"), Some(4500));
    assert_eq!(extract_price_from_body("zoro", "pay $45.00 MONTHLY"), None);
}

#[test]
fn context_is_twenty_four_characters_wide() {
    let near = format!("$45.00{}month", "x".repeat(19));
    assert_eq!(extract_price_from_body("zoro", &near), None);
    let far = format!("$45.00{}month", "x".repeat(24));
    assert_eq!(extract_price_from_body("zoro", &far), Some(4500));
    let before_near = format!("month{}$45.00", "x".repeat(19));
    assert_eq!(extract_price_from_body("zoro", &before_near), None);
    let before_far = format!("month{}$45.00", "x".repeat(24));
    assert_eq!(extract_price_from_body("zoro", &before_far), Some(4500));
}

#[test]
fn context_counts_characters_on_pages_that_are_not_ascii() {
    let near = format!("$45.00{}month", "\u{e9}".repeat(19));
    assert_eq!(extract_price_from_body("zoro", &near), None);
    let far = format!("$45.00{}month", "\u{e9}".repeat(24));
    assert_eq!(extract_price_from_body("zoro", &far), Some(4500));
    let before_near = format!("Month{}$45.00", "\u{4e2d}".repeat(19));
    assert_eq!(extract_price_from_body("zoro", &before_near), None);
    let before_far = format!("Month{}$45.00", "\u{4e2d}".repeat(24));
    assert_eq!(extract_price_from_body("zoro", &before_far), Some(4500));
    let shifted = format!("{}$45.00{}weekly", "\u{1f600}".repeat(30), "\u{c9}".repeat(18));
    assert_eq!(extract_price_from_body("zoro", &shifted), None);
}

#[test]
fn shipping_fees_and_bare_small_amounts_are_left_out() {
    assert_eq!(extract_price_from_body("zoro", "$15.00 shipping"), None);
    assert_eq!(extract_price_from_body("zoro", "$19.99 shipping"), None);
    assert_eq!(extract_price_from_body("zoro", "$20.00 shipping"), Some(2000));
    assert_eq!(extract_price_from_body("zoro", "just $7 today"), None);
    assert_eq!(extract_price_from_body("zoro", "just $7.00 today"), Some(700));
    assert_eq!(extract_price_from_body("zoro", "just $10 today"), Some(1000));
}

#[test]
fn best_guess_is_the_lowest_price_near_the_median() {
    assert_eq!(best_guess_of(&vec![]), None);
    assert_eq!(best_guess_of(&vec![500, 19999, 20500, 21000, 22000]), Some(19999));
    assert_eq!(best_guess_of(&vec![2000, 700]), Some(700));
    assert_eq!(best_guess_of(&vec![2000, 699]), Some(2000));
    assert_eq!(best_guess_of(&vec![1000]), Some(1000));
}

#[test]
fn amazon_markup_is_read_for_the_amazon_family_only() {
    let body = "<span class=\"a-price-whole\">1,299<span class=\"a-price-decimal\">.</span></span><span class=\"a-price-fraction\">99</span>";
    assert_eq!(extract_amazon_price(body), Some(129999));
    assert_eq!(extract_price_from_body("amazon", body), Some(129999));
    assert_eq!(extract_price_from_body("amazon_business", body), Some(129999));
    assert_eq!(extract_price_from_body("walmart", body), None);
}

#[test]
fn amazon_markup_bounds() {
    assert_eq!(extract_amazon_price("a-price-whole\">4<"), None);
    assert_eq!(extract_amazon_price("a-price-whole\">5<"), Some(500));
    assert_eq!(extract_amazon_price("a-price-whole\">50,000<"), Some(5_000_000));
    assert_eq!(extract_amazon_price("a-price-whole\">50,000<a-price-fraction\">01<"), Some(5_000_000));
    assert_eq!(extract_amazon_price("a-price-whole\">,,,<a-price-fraction\">50<"), None);
    assert_eq!(extract_amazon_price("a-price-whole\">8< a-price-whole\">6< a-price-whole\">7<"), Some(700));
}

fn capture(start: usize, end: usize, group: Option<&str>) -> Capture {
    Capture { start, end, group: group.map(|g| g.to_string()) }
}

#[test]
fn embedded_matches_give_their_median() {
    assert_eq!(json_ld_price_from(&vec![]), None);
    let caps = vec![
        capture(0, 5, Some("19.99")),
        capture(5, 9, None),
        capture(9, 12, Some("2.50")),
        capture(12, 15, Some("25")),
        capture(15, 18, Some("21.5")),
    ];
    assert_eq!(json_ld_price_from(&caps), Some(2150));
}

#[test]
fn markup_matches_are_paired_by_position() {
    let wholes = vec![capture(0, 1, Some("1,299")), capture(1, 2, Some("15")), capture(2, 3, Some("4"))];
    let fractions = vec![capture(3, 4, Some("99")), capture(4, 5, Some("00"))];
    // 1299.00, 15.00 alone; 1299.99, 15.00 paired; 4 is under the bound.
    assert_eq!(vendor_price_from(&wholes, &fractions), Some(129900));
    assert_eq!(vendor_price_from(&wholes, &vec![]), Some(129900));
    assert_eq!(vendor_price_from(&vec![], &fractions), None);
    let low = vec![capture(0, 1, Some("4"))];
    let cents = vec![capture(1, 2, Some("99"))];
    assert_eq!(vendor_price_from(&low, &cents), None);
    let edge = vec![capture(0, 1, Some("4,"))];
    let full = vec![capture(1, 2, Some("100"))];
    assert_eq!(vendor_price_from(&edge, &full), None);
}

#[test]
fn markup_reads_twenty_matches_at_most() {
    let mut wholes = Vec::new();
    for _ in 0..20 {
        wholes.push(capture(0, 1, Some("10")));
    }
    for _ in 0..30 {
        wholes.push(capture(0, 1, Some("900")));
    }
    assert_eq!(vendor_price_from(&wholes, &vec![]), Some(1000));
}

#[test]
fn dollar_matches_are_judged_by_their_context() {
    let body = "Only $45.00 per MONTH or $899.00 to own it outright, no strings attached, really";
    let lower = "only $45.00 per month or $899.00 to own it outright, no strings attached, really";
    let caps = vec![capture(5, 11, Some("45.00")), capture(25, 32, Some("899.00"))];
    assert_eq!(dollar_price_from(&caps, body, lower), None);
    let far = vec![capture(60, 67, Some("899.00"))];
    assert_eq!(dollar_price_from(&far, body, lower), Some(89900));
    let beyond = vec![capture(500, 507, Some("12.00"))];
    assert_eq!(dollar_price_from(&beyond, body, lower), Some(1200));
    let unread = vec![capture(0, 1, None), capture(60, 61, Some("x"))];
    assert_eq!(dollar_price_from(&unread, body, lower), None);
}

#[test]
fn dollar_matches_are_placed_by_characters() {
    // Forty bytes of twenty two-byte characters stand before the amount.
    let body = format!("{}$45.00 a month", "\u{e9}".repeat(20));
    let caps = vec![capture(40, 46, Some("45.00"))];
    assert_eq!(dollar_price_from(&caps, &body, &body), None);
    let quiet = format!("month{}$45.00", "\u{e9}".repeat(24));
    let caps = vec![capture(53, 59, Some("45.00"))];
    assert_eq!(dollar_price_from(&caps, &quiet, &quiet), Some(4500));
    let close = format!("month{}$45.00", "\u{e9}".repeat(19));
    let caps = vec![capture(43, 49, Some("45.00"))];
    assert_eq!(dollar_price_from(&caps, &close, &close), None);
}

#[test]
fn dollar_amounts_are_read_sixty_at_most() {
    let mut caps = Vec::new();
    for _ in 0..60 {
        caps.push(capture(0, 1, Some("2.00")));
    }
    caps.push(capture(0, 1, Some("30.00")));
    assert_eq!(dollar_price_from(&caps, "", ""), None);
    caps.remove(0);
    assert_eq!(dollar_price_from(&caps, "", ""), Some(3000));
}
