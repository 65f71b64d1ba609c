use price_scout::agent::{
    build_headers_with_ua, header_value_ok, is_bot_challenge, likely_bot_challenge, pick_user_agent,
    user_agent,
};
use price_scout::envelope::{
    build_response, check_method, choose_run_id, sse_line, RequestError, StreamEvent,
};
use price_scout::model::SiteOverride;
use price_scout::page::{collapse_whitespace, extract_result_url, extract_title, first_capture};
use price_scout::text::{
    bytes_le, char_offset_of, chars_of, contains_bytes, contains_chars, is_space_char, number_text,
    slices_equal, text_eq, text_le,
};
use price_scout::urls::{builtin_template_for, site_url};

#[test]
fn override_template_takes_the_encoded_query() {
    let overrides = vec![SiteOverride { site: "x".to_string(), template: "https://x/?q={q}".to_string() }];
    assert_eq!(site_url("x", "a b", Some(&overrides)), "https://x/?q=a%20b");
    assert_eq!(site_url("x", "a b", Some(&overrides)), site_url("x", "a b", Some(&overrides)));
}

#[test]
fn first_override_of_a_site_counts() {
    let overrides = vec![
        SiteOverride { site: "other".to_string(), template: "https://o/{q}".to_string() },
        SiteOverride { site: "amazon".to_string(), template: "https://one/{q}/{q}".to_string() },
        SiteOverride { site: "amazon".to_string(), template: "https://two/{q}".to_string() },
    ];
    assert_eq!(site_url("amazon", "tv", Some(&overrides)), "https://one/tv/tv");
    assert_eq!(site_url("bestbuy", "tv", Some(&overrides)), "https://www.bestbuy.com/site/searchpage.jsp?st=tv");
}

#[test]
fn built_in_sites_and_fallback() {
    assert_eq!(site_url("amazon", "usb c", None), "https://www.amazon.com/s?k=usb%20c");
    assert_eq!(site_url("amazon_business", "usb", None), "https://www.amazon.com/s?k=usb");
    assert_eq!(site_url("staples", "a&b", None), "https://www.staples.com/a%26b/directory_a%26b");
    assert_eq!(site_url("webstaurantstore", "pan", None), "https://www.webstaurantstore.com/search/pan.html");
    assert_eq!(site_url("mcmaster", "nut", None), "https://www.mcmaster.com/products/nut/");
    assert_eq!(site_url("ebay", "x", None), "https://www.ebay.com/sch/i.html?_nkw=x");
    assert_eq!(site_url("nowhere", "a/b", None), "https://www.google.com/search?q=a%2Fb+buy");
    assert_eq!(site_url("Amazon", "x", None), "https://www.google.com/search?q=x+buy");
    assert_eq!(builtin_template_for("walmart_business"), "https://www.walmart.com/search?q={q}");
}

#[test]
fn query_is_percent_encoded_byte_by_byte() {
    assert_eq!(site_url("zoro", "A-z_0.9~", None), "https://www.zoro.com/search?q=A-z_0.9~");
    assert_eq!(site_url("zoro", "é{q}", None), "https://www.zoro.com/search?q=%C3%A9%7Bq%7D");
    assert_eq!(site_url("zoro", "", None), "https://www.zoro.com/search?q=");
}

#[test]
fn user_agent_depends_on_site_query_and_attempt_alone() {
    assert_eq!(pick_user_agent("", "", 0), user_agent(0));
    assert_eq!(pick_user_agent("", "", 3), user_agent(3));
    assert_eq!(pick_user_agent("", "", 7), user_agent(2));
    assert_eq!(pick_user_agent("a", "", 0), user_agent(2));
    assert_eq!(pick_user_agent("", "a", 0), user_agent(2));
    assert_eq!(pick_user_agent("a", "b", 1), user_agent(1));
    assert_eq!(pick_user_agent("amazon", "usb cable", 1), pick_user_agent("amazon", "usb cable", 1));
    assert!(user_agent(0).contains("Chrome/124"));
    assert!(user_agent(4).contains("Firefox/123"));
}

#[test]
fn user_agent_seed_wraps_at_two_to_the_sixty_four() {
    let site = "z".repeat(40);
    let mut seed: u64 = 1;
    for b in site.bytes() {
        seed = seed.wrapping_mul(131).wrapping_add(b as u64);
    }
    assert_eq!(pick_user_agent(&site, "", 1), user_agent((seed % 5) as usize));
}

#[test]
fn challenge_phrases_are_matched_whatever_their_case() {
    assert!(is_bot_challenge("<h1>Pardon Our Interruption</h1>"));
    assert!(is_bot_challenge("Please ENABLE JavaScript"));
    assert!(is_bot_challenge("solve the CAPTCHA"));
    assert!(is_bot_challenge("Are You A Human?"));
    assert!(is_bot_challenge("Cloudflare"));
    assert!(is_bot_challenge("ACCESS DENIED"));
    assert!(is_bot_challenge("Bot Detection"));
    assert!(!is_bot_challenge("<html>12 results</html>"));
    assert!(likely_bot_challenge("xx captcha xx"));
    assert!(!likely_bot_challenge("xx CAPTCHA xx"));
    assert!(!likely_bot_challenge(""));
}

#[test]
fn headers_carry_the_agent_or_the_first_of_the_pool() {
    let headers = build_headers_with_ua("agent/1.0");
    let pairs: Vec<(&str, &str)> = headers.iter().map(|h| (h.name.as_str(), h.value.as_str())).collect();
    assert_eq!(
        pairs,
        vec![
            ("user-agent", "agent/1.0"),
            ("accept", "text/html,application/xhtml+xml,application/xml;q=0.9,*/*;q=0.8"),
            ("accept-language", "en-US,en;q=0.9"),
            ("sec-fetch-dest", "document"),
            ("sec-fetch-mode", "navigate"),
            ("sec-fetch-site", "none"),
        ]
    );
    let replaced = build_headers_with_ua("bad\nagent");
    assert_eq!(replaced[0].value, user_agent(0));
    assert!(header_value_ok("tab\tis fine"));
    assert!(!header_value_ok("del\u{7f}"));
    assert!(header_value_ok("caf\u{e9}"));
}

#[test]
fn title_is_collapsed_and_trimmed() {
    assert_eq!(extract_title("<html><TITLE lang=\"en\">\n  Cordless \t Drill\n - Shop </TITLE></html>").as_deref(), Some("Cordless Drill - Shop"));
    assert_eq!(extract_title("<title>one</title><title>two</title>").as_deref(), Some("one"));
    assert_eq!(extract_title("<title> \n </title>"), None);
    assert_eq!(extract_title("<p>no title</p>"), None);
    assert_eq!(collapse_whitespace("  a   b\n\nc "), "a b c");
    assert_eq!(collapse_whitespace(""), "");
}

#[test]
fn result_links_per_site() {
    let amazon = "<a href=\"/Some-Drill/dp/B000?x=1\\u0026y=2\\u0026z=3\">x</a><a href=\"/dp/B111\">y</a>";
    assert_eq!(extract_result_url("amazon", amazon).as_deref(), Some("https://www.amazon.com/Some-Drill/dp/B000?x=1&y=2&z=3"));
    assert_eq!(extract_result_url("amazon_business", "<a href=\"/gp/product/1\">").as_deref(), Some("https://www.amazon.com/gp/product/1"));
    assert_eq!(extract_result_url("newegg", "<a href=\"https://www.newegg.com/p/N82E1\">").as_deref(), Some("https://www.newegg.com/p/N82E1"));
    assert_eq!(extract_result_url("bestbuy", "<a href=\"/site/a/1.p\"><a href=\"/site/b/2.p?skuId=2\">").as_deref(), Some("https://www.bestbuy.com/site/b/2.p?skuId=2"));
    assert_eq!(extract_result_url("bestbuy", "<a href=\"/site/a/1.p\">").as_deref(), Some("https://www.bestbuy.com/site/a/1.p"));
    assert_eq!(extract_result_url("ebay", "<a href=\"https://www.ebay.com/itm/123\">").as_deref(), Some("https://www.ebay.com/itm/123"));
    assert_eq!(extract_result_url("target", "<a href=\"https://www.target.com/p/drill/-/A-1\">").as_deref(), Some("https://www.target.com/p/drill/-/A-1"));
    assert_eq!(extract_result_url("walmart", amazon), None);
    assert_eq!(extract_result_url("amazon", "<p>nothing</p>"), None);
}

#[test]
fn first_capture_needs_a_valid_pattern_and_a_match() {
    assert_eq!(first_capture("abc123", "([0-9]+)").as_deref(), Some("123"));
    assert_eq!(first_capture("abc", "([0-9]+)"), None);
    assert_eq!(first_capture("abc", "(unclosed"), None);
    assert_eq!(first_capture("abc", "abc"), None);
}

#[test]
fn byte_strings_compare_and_search() {
    assert!(text_eq("amazon", "amazon"));
    assert!(!text_eq("amazon", "Amazon"));
    assert!(slices_equal(b"", b""));
    assert!(!slices_equal(b"a", b"ab"));
    assert!(contains_bytes(b"hello world", b"o w"));
    assert!(contains_bytes(b"hello", b""));
    assert!(contains_bytes(b"hello", b"hello"));
    assert!(!contains_bytes(b"hello", b"hellos"));
    assert!(!contains_bytes(b"", b"a"));
    assert!(bytes_le(b"", b"a"));
    assert!(bytes_le(b"a", b"a"));
    assert!(bytes_le(b"a", b"ab"));
    assert!(!bytes_le(b"ab", b"a"));
    assert!(bytes_le(b"Z", b"a"));
    assert!(!bytes_le(b"b", b"a"));
    assert!(text_le("amazon", "bestbuy"));
    assert!(!text_le("walmart", "target"));
}

#[test]
fn only_post_is_served() {
    assert_eq!(check_method("POST"), Ok(()));
    assert_eq!(check_method("GET"), Err(RequestError::MethodNotAllowed));
    assert_eq!(check_method("post"), Err(RequestError::MethodNotAllowed));
    assert_eq!(check_method(""), Err(RequestError::MethodNotAllowed));
}

#[test]
fn request_errors_have_their_status_and_name() {
    assert_eq!(RequestError::MethodNotAllowed.http_status(), 405);
    assert_eq!(RequestError::MethodNotAllowed.label(), "method_not_allowed");
    assert_eq!(RequestError::InvalidJson.http_status(), 400);
    assert_eq!(RequestError::InvalidJson.label(), "invalid_json");
    assert_eq!(RequestError::QuoteFailed.http_status(), 500);
    assert_eq!(RequestError::QuoteFailed.label(), "quote_failed");
}

#[test]
fn stream_frames_and_event_names() {
    assert_eq!(sse_line("{\"type\":\"done\"}"), "data: {\"type\":\"done\"}\n\n");
    assert_eq!(sse_line(""), "data: \n\n");
    assert_eq!(StreamEvent::Started.label(), "started");
    assert_eq!(StreamEvent::Match.label(), "match");
    assert_eq!(StreamEvent::ItemDone.label(), "item_done");
    assert_eq!(StreamEvent::Done.label(), "done");
    assert_eq!(StreamEvent::Error.label(), "error");
}

#[test]
fn run_id_is_the_callers_or_the_fresh_one() {
    assert_eq!(choose_run_id(Some("mine".to_string()), "fresh".to_string()), "mine");
    assert_eq!(choose_run_id(None, "fresh".to_string()), "fresh");
    let response = build_response("r".to_string(), "2024-01-01T00:00:00+00:00".to_string(), 42, vec![]);
    assert_eq!(response.run_id, "r");
    assert_eq!(response.started_at, "2024-01-01T00:00:00+00:00");
    assert_eq!(response.duration_ms, 42);
    assert!(response.items.is_empty());
}

#[test]
fn numbers_are_written_in_decimal() {
    assert_eq!(number_text(0), "0");
    assert_eq!(number_text(7), "7");
    assert_eq!(number_text(10), "10");
    assert_eq!(number_text(403), "403");
    assert_eq!(number_text(1009), "1009");
    assert_eq!(number_text(65535), "65535");
    for n in [1u16, 9, 11, 99, 100, 429, 503, 9999, 10000, 54321] {
        assert_eq!(number_text(n), n.to_string());
    }
}

#[test]
fn whitespace_is_what_unicode_calls_white_space() {
    for c in ['\t', '\n', '\u{b}', '\u{c}', '\r', ' ', '\u{85}', '\u{a0}', '\u{1680}', '\u{2000}', '\u{200a}', '\u{2028}', '\u{2029}', '\u{202f}', '\u{205f}', '\u{3000}'] {
        assert!(is_space_char(c));
    }
    for c in ['a', '0', '\u{8}', '\u{e}', '\u{1f}', '\u{180e}', '\u{200b}', '\u{2060}', '\u{feff}', '\u{3001}'] {
        assert!(!is_space_char(c));
    }
    let mut code: u32 = 0;
    while code <= 0x11000 {
        if let Some(c) = char::from_u32(code) {
            assert_eq!(is_space_char(c), c.is_whitespace());
        }
        code += 1;
    }
}

#[test]
fn collapsing_joins_the_words_of_a_text() {
    let texts = [
        "",
        " ",
        "a",
        " a",
        "a ",
        "  a  b  ",
        "one\ttwo\r\nthree",
        "\u{3000}wide\u{a0}gap\u{2003}here\u{2029}",
        "zero\u{200b}width stays",
        "tabs\t\t\tand\u{b}more\u{c}",
    ];
    for text in texts {
        let words: Vec<&str> = text.split_whitespace().collect();
        assert_eq!(collapse_whitespace(text), words.join(" "));
    }
    assert_eq!(collapse_whitespace("\u{3000}wide\u{a0}gap "), "wide gap");
    assert_eq!(collapse_whitespace("zero\u{200b}width"), "zero\u{200b}width");
}

#[test]
fn byte_offsets_are_placed_in_characters() {
    let text = "a\u{e9}\u{4e2d}\u{1f600}z";
    assert_eq!(text.len(), 11);
    let bytes = text.as_bytes();
    assert_eq!(char_offset_of(bytes, 0), 0);
    assert_eq!(char_offset_of(bytes, 1), 1);
    assert_eq!(char_offset_of(bytes, 3), 2);
    assert_eq!(char_offset_of(bytes, 6), 3);
    assert_eq!(char_offset_of(bytes, 10), 4);
    assert_eq!(char_offset_of(bytes, 11), 5);
    assert_eq!(char_offset_of(bytes, 500), 5);
    assert_eq!(char_offset_of(b"", 3), 0);
    for (chars, (offset, _)) in text.char_indices().enumerate() {
        assert_eq!(char_offset_of(bytes, offset), chars);
    }
}

#[test]
fn characters_are_listed_and_searched() {
    assert_eq!(chars_of("a\u{e9}z"), vec!['a', '\u{e9}', 'z']);
    assert_eq!(chars_of(""), Vec::<char>::new());
    let hay = chars_of("per m\u{f6}nth");
    assert!(contains_chars(&hay, &chars_of("m\u{f6}n")));
    assert!(contains_chars(&hay, &chars_of("")));
    assert!(contains_chars(&hay, &hay));
    assert!(!contains_chars(&hay, &chars_of("month")));
    assert!(!contains_chars(&chars_of(""), &chars_of("a")));
}
