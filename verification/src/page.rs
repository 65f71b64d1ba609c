//! The title of a search page and the link to its first result.

use vstd::prelude::*;
use vstd::string::{StringExecFns, StringSliceAdditionalSpecFns};
use crate::model::{copy_text, text_view};
use crate::outside::{
    captures_view, find_captures, pattern_matches, push_char, replace_all, substituted, SpanView,
};
use crate::text::{is_space, is_space_char, text_eq};

verus! {

/// The content of the first `title` element, whatever the case of its tag.
pub const TITLE_PATTERN: &'static str = "(?is)<title[^>]*>(.*?)</title>";

/// A link to a product page of Amazon, relative to the site.
pub const AMAZON_LINK_PATTERN: &'static str = "href=\\\"(/(?:gp|dp|[^\"]*?/dp/)[^\"]+)\\\"";

pub const NEWEGG_LINK_PATTERN: &'static str = "href=\\\"(https://www\\.newegg\\.com/p/[^\\\"]+)\\\"";

/// A link to a product page of Best Buy that carries a query, relative to the site.
pub const BESTBUY_QUERY_LINK_PATTERN: &'static str = "href=\\\"(/site/[^\"]+\\.p\\?[^\"]*)\\\"";

/// A link to a product page of Best Buy without a query, relative to the site.
pub const BESTBUY_LINK_PATTERN: &'static str = "href=\\\"(/site/[^\"]+\\.p)\\\"";

pub const EBAY_LINK_PATTERN: &'static str = "href=\\\"(https://www\\.ebay\\.com/itm/[^\\\"]+)\\\"";

pub const TARGET_LINK_PATTERN: &'static str = "href=\\\"(https://www\\.target\\.com/p/[^\\\"]+)\\\"";

pub const AMAZON_ROOT: &'static str = "https://www.amazon.com";

pub const BESTBUY_ROOT: &'static str = "https://www.bestbuy.com";

/// An ampersand as script text escapes it.
pub const ESCAPED_AMPERSAND: &'static str = "\\u0026";

/// The first group of the first match, if the pattern was accepted, matched,
/// and the group took part.
pub open spec fn first_group(found: Option<Seq<SpanView>>) -> Option<Seq<char>> {
    match found {
        Some(caps) => if caps.len() > 0 {
            caps[0].2
        } else {
            None
        },
        None => None,
    }
}

/// A text with each run of whitespace between two words turned into one
/// space, and the whitespace at its ends dropped. A word is a run of
/// characters that are not whitespace.
pub open spec fn collapsed(s: Seq<char>) -> Seq<char>
    decreases s.len(),
{
    if s.len() == 0 {
        Seq::empty()
    } else {
        let before = collapsed(s.drop_last());
        if is_space(s.last()) {
            before
        } else if before.len() > 0 && is_space(s[s.len() - 2]) {
            before.push(' ').push(s.last())
        } else {
            before.push(s.last())
        }
    }
}

/// The title of a page: the content of its first `title` element with each
/// run of whitespace turned into one space and none left at the ends;
/// nothing where that is empty.
pub open spec fn page_title(body: Seq<char>) -> Option<Seq<char>> {
    match first_group(pattern_matches(TITLE_PATTERN@, body)) {
        Some(raw) => {
            let title = collapsed(raw);
            if title.len() == 0 {
                None
            } else {
                Some(title)
            }
        },
        None => None,
    }
}

/// A link relative to `root` made absolute, its escaped ampersands restored.
pub open spec fn rooted_link(root: Seq<char>, path: Option<Seq<char>>) -> Option<Seq<char>> {
    match path {
        Some(p) => Some(root + substituted(p, ESCAPED_AMPERSAND@, "&"@)),
        None => None,
    }
}

/// The link to the first result on a search page of `site`; nothing for a
/// site whose result links are not known.
pub open spec fn result_link(site: Seq<char>, body: Seq<char>) -> Option<Seq<char>> {
    if site == "amazon"@ || site == "amazon_business"@ {
        rooted_link(AMAZON_ROOT@, first_group(pattern_matches(AMAZON_LINK_PATTERN@, body)))
    } else if site == "newegg"@ {
        first_group(pattern_matches(NEWEGG_LINK_PATTERN@, body))
    } else if site == "bestbuy"@ {
        let with_query = first_group(pattern_matches(BESTBUY_QUERY_LINK_PATTERN@, body));
        rooted_link(
            BESTBUY_ROOT@,
            if with_query.is_some() {
                with_query
            } else {
                first_group(pattern_matches(BESTBUY_LINK_PATTERN@, body))
            },
        )
    } else if site == "ebay"@ {
        first_group(pattern_matches(EBAY_LINK_PATTERN@, body))
    } else if site == "target"@ {
        first_group(pattern_matches(TARGET_LINK_PATTERN@, body))
    } else {
        None
    }
}

/// The first group of the first match of `pattern` in `body`.
pub fn first_capture(body: &str, pattern: &str) -> (r: Option<String>)
    ensures
        text_view(r) == first_group(pattern_matches(pattern@, body@)),
{
    match find_captures(pattern, body) {
        Some(caps) => {
            if caps.len() > 0 {
                proof {
                    assert(captures_view(caps@)[0].2 == text_view(caps@[0].group));
                }
                copy_text(&caps[0].group)
            } else {
                None
            }
        },
        None => None,
    }
}

/// `raw` with each run of whitespace turned into one space and none left at the ends.
pub fn collapse_whitespace(raw: &str) -> (r: String)
    ensures
        r@ == collapsed(raw@),
{
    broadcast use vstd::string::group_string_axioms;

    let mut out = String::new();
    let mut gap: bool = false;
    proof {
        assert(raw@.take(0) =~= Seq::<char>::empty());
    }
    for c in it: raw.chars()
        invariant
            it.seq() == raw@,
            out@ == collapsed(raw@.take(it.index() as int)),
            gap == (it.index() > 0 && is_space(raw@[it.index() - 1])),
    {
        proof {
            let i = it.index() as int;
            assert(raw@.take(i + 1).drop_last() =~= raw@.take(i));
            assert(raw@.take(i + 1).last() == c);
            if i > 0 {
                assert(raw@.take(i + 1)[i - 1] == raw@[i - 1]);
            }
        }
        if is_space_char(c) {
            gap = true;
        } else {
            if gap && !out.as_str().is_empty() {
                push_char(&mut out, ' ');
            }
            push_char(&mut out, c);
            gap = false;
        }
    }
    proof {
        assert(raw@.take(raw@.len() as int) =~= raw@);
    }
    out
}

/// The title of a page.
pub fn extract_title(body: &str) -> (r: Option<String>)
    ensures
        text_view(r) == page_title(body@),
{
    match first_capture(body, TITLE_PATTERN) {
        Some(raw) => {
            let title = collapse_whitespace(raw.as_str());
            if title.as_str().is_empty() {
                None
            } else {
                Some(title)
            }
        },
        None => None,
    }
}

fn root_link(root: &str, path: Option<String>) -> (r: Option<String>)
    ensures
        text_view(r) == rooted_link(root@, text_view(path)),
{
    match path {
        Some(p) => {
            proof {
                reveal_strlit("\\u0026");
            }
            let restored = replace_all(p.as_str(), ESCAPED_AMPERSAND, "&");
            let mut link = String::from_str(root);
            link.append(restored.as_str());
            Some(link)
        },
        None => None,
    }
}

/// The link to the first result on a search page of `site`.
pub fn extract_result_url(site: &str, body: &str) -> (r: Option<String>)
    ensures
        text_view(r) == result_link(site@, body@),
{
    if text_eq(site, "amazon") || text_eq(site, "amazon_business") {
        root_link(AMAZON_ROOT, first_capture(body, AMAZON_LINK_PATTERN))
    } else if text_eq(site, "newegg") {
        first_capture(body, NEWEGG_LINK_PATTERN)
    } else if text_eq(site, "bestbuy") {
        let with_query = first_capture(body, BESTBUY_QUERY_LINK_PATTERN);
        if with_query.is_some() {
            root_link(BESTBUY_ROOT, with_query)
        } else {
            root_link(BESTBUY_ROOT, first_capture(body, BESTBUY_LINK_PATTERN))
        }
    } else if text_eq(site, "ebay") {
        first_capture(body, EBAY_LINK_PATTERN)
    } else if text_eq(site, "target") {
        first_capture(body, TARGET_LINK_PATTERN)
    } else {
        None
    }
}

} // verus!
