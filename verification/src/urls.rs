//! Search URLs: one template per retailer, with the query put in.

use vstd::prelude::*;
use vstd::string::StringSliceAdditionalSpecFns;
use crate::model::SiteOverride;
use crate::outside::{percent_encode, percent_encoding, replace_all, substituted};
use crate::text::{bytes_of, text_eq};

verus! {

/// What stands for the query in a template.
pub const QUERY_MARK: &'static str = "{q}";

/// The template for a site that has none of its own: a web search.
pub const FALLBACK_TEMPLATE: &'static str = "https://www.google.com/search?q={q}+buy";

/// The built-in search template of a site.
pub open spec fn builtin_template(site: Seq<char>) -> Seq<char> {
    if site == "amazon"@ || site == "amazon_business"@ {
        "https://www.amazon.com/s?k={q}"@
    } else if site == "bestbuy"@ {
        "https://www.bestbuy.com/site/searchpage.jsp?st={q}"@
    } else if site == "newegg"@ {
        "https://www.newegg.com/p/pl?d={q}"@
    } else if site == "bhphotovideo"@ {
        "https://www.bhphotovideo.com/c/search?q={q}"@
    } else if site == "walmart"@ || site == "walmart_business"@ {
        "https://www.walmart.com/search?q={q}"@
    } else if site == "staples"@ {
        "https://www.staples.com/{q}/directory_{q}"@
    } else if site == "officedepot"@ {
        "https://www.officedepot.com/a/search/?q={q}"@
    } else if site == "quill"@ {
        "https://www.quill.com/search?keywords={q}"@
    } else if site == "uline"@ {
        "https://www.uline.com/BL_35/Search?keywords={q}"@
    } else if site == "target"@ {
        "https://www.target.com/s?searchTerm={q}"@
    } else if site == "webstaurantstore"@ {
        "https://www.webstaurantstore.com/search/{q}.html"@
    } else if site == "katom"@ {
        "https://www.katom.com/search.html?query={q}"@
    } else if site == "centralrestaurant"@ {
        "https://www.centralrestaurant.com/search/{q}"@
    } else if site == "therestaurantstore"@ {
        "https://www.therestaurantstore.com/search/{q}"@
    } else if site == "restaurantdepot"@ {
        "https://www.restaurantdepot.com/catalogsearch/result/?q={q}"@
    } else if site == "ace_mart"@ {
        "https://www.acemart.com/search?q={q}"@
    } else if site == "grainger"@ {
        "https://www.grainger.com/search?searchQuery={q}"@
    } else if site == "zoro"@ {
        "https://www.zoro.com/search?q={q}"@
    } else if site == "homedepot"@ {
        "https://www.homedepot.com/s/{q}"@
    } else if site == "platt"@ {
        "https://www.platt.com/search.aspx?q={q}"@
    } else if site == "cityelectricsupply"@ {
        "https://www.cityelectricsupply.com/search?text={q}"@
    } else if site == "lowes"@ {
        "https://www.lowes.com/search?searchTerm={q}"@
    } else if site == "mcmaster"@ {
        "https://www.mcmaster.com/products/{q}/"@
    } else if site == "adorama"@ {
        "https://www.adorama.com/l/?searchinfo={q}"@
    } else if site == "microcenter"@ {
        "https://www.microcenter.com/search/search_results.aspx?Ntt={q}"@
    } else if site == "ebay"@ {
        "https://www.ebay.com/sch/i.html?_nkw={q}"@
    } else {
        FALLBACK_TEMPLATE@
    }
}

/// The template of the first override for `site`, if there is one.
pub open spec fn override_template(overrides: Seq<SiteOverride>, site: Seq<char>) -> Option<Seq<char>>
    decreases overrides.len(),
{
    if overrides.len() == 0 {
        None
    } else if overrides[0].site@ == site {
        Some(overrides[0].template@)
    } else {
        override_template(overrides.skip(1), site)
    }
}

/// The template that counts for `site`: the caller's where there is one,
/// else the built-in one.
pub open spec fn chosen_template(site: Seq<char>, overrides: Option<Seq<SiteOverride>>) -> Seq<char> {
    match overrides {
        Some(list) => match override_template(list, site) {
            Some(t) => t,
            None => builtin_template(site),
        },
        None => builtin_template(site),
    }
}

/// The search URL of `site` for `query`: the template that counts, with the
/// percent-encoded query in each place of the mark.
pub open spec fn search_url(site: Seq<char>, query: Seq<char>, overrides: Option<Seq<SiteOverride>>) -> Seq<
    char,
> {
    substituted(chosen_template(site, overrides), QUERY_MARK@, percent_encoding(bytes_of(query)))
}

/// The view of an optional list of overrides.
pub open spec fn overrides_view(overrides: Option<&Vec<SiteOverride>>) -> Option<Seq<SiteOverride>> {
    match overrides {
        Some(list) => Some(list@),
        None => None,
    }
}

/// The built-in search template of a site.
pub fn builtin_template_for(site: &str) -> (r: &'static str)
    ensures
        r@ == builtin_template(site@),
{
    if text_eq(site, "amazon") || text_eq(site, "amazon_business") {
        "https://www.amazon.com/s?k={q}"
    } else if text_eq(site, "bestbuy") {
        "https://www.bestbuy.com/site/searchpage.jsp?st={q}"
    } else if text_eq(site, "newegg") {
        "https://www.newegg.com/p/pl?d={q}"
    } else if text_eq(site, "bhphotovideo") {
        "https://www.bhphotovideo.com/c/search?q={q}"
    } else if text_eq(site, "walmart") || text_eq(site, "walmart_business") {
        "https://www.walmart.com/search?q={q}"
    } else if text_eq(site, "staples") {
        "https://www.staples.com/{q}/directory_{q}"
    } else if text_eq(site, "officedepot") {
        "https://www.officedepot.com/a/search/?q={q}"
    } else if text_eq(site, "quill") {
        "https://www.quill.com/search?keywords={q}"
    } else if text_eq(site, "uline") {
        "https://www.uline.com/BL_35/Search?keywords={q}"
    } else if text_eq(site, "target") {
        "https://www.target.com/s?searchTerm={q}"
    } else if text_eq(site, "webstaurantstore") {
        "https://www.webstaurantstore.com/search/{q}.html"
    } else if text_eq(site, "katom") {
        "https://www.katom.com/search.html?query={q}"
    } else if text_eq(site, "centralrestaurant") {
        "https://www.centralrestaurant.com/search/{q}"
    } else if text_eq(site, "therestaurantstore") {
        "https://www.therestaurantstore.com/search/{q}"
    } else if text_eq(site, "restaurantdepot") {
        "https://www.restaurantdepot.com/catalogsearch/result/?q={q}"
    } else if text_eq(site, "ace_mart") {
        "https://www.acemart.com/search?q={q}"
    } else if text_eq(site, "grainger") {
        "https://www.grainger.com/search?searchQuery={q}"
    } else if text_eq(site, "zoro") {
        "https://www.zoro.com/search?q={q}"
    } else if text_eq(site, "homedepot") {
        "https://www.homedepot.com/s/{q}"
    } else if text_eq(site, "platt") {
        "https://www.platt.com/search.aspx?q={q}"
    } else if text_eq(site, "cityelectricsupply") {
        "https://www.cityelectricsupply.com/search?text={q}"
    } else if text_eq(site, "lowes") {
        "https://www.lowes.com/search?searchTerm={q}"
    } else if text_eq(site, "mcmaster") {
        "https://www.mcmaster.com/products/{q}/"
    } else if text_eq(site, "adorama") {
        "https://www.adorama.com/l/?searchinfo={q}"
    } else if text_eq(site, "microcenter") {
        "https://www.microcenter.com/search/search_results.aspx?Ntt={q}"
    } else if text_eq(site, "ebay") {
        "https://www.ebay.com/sch/i.html?_nkw={q}"
    } else {
        FALLBACK_TEMPLATE
    }
}

/// The template of the first override for `site`.
pub fn find_override<'a>(overrides: &'a Vec<SiteOverride>, site: &str) -> (r: Option<&'a str>)
    ensures
        match r {
            Some(t) => override_template(overrides@, site@) == Some(t@),
            None => override_template(overrides@, site@).is_none(),
        },
{
    let mut i: usize = 0;
    proof {
        assert(overrides@.skip(0) =~= overrides@);
    }
    while i < overrides.len()
        invariant
            0 <= i <= overrides.len(),
            override_template(overrides@, site@) == override_template(overrides@.skip(i as int), site@),
        decreases overrides.len() - i,
    {
        proof {
            assert(overrides@.skip(i as int)[0] == overrides@[i as int]);
            assert(overrides@.skip(i as int).skip(1) =~= overrides@.skip(i + 1));
        }
        if text_eq(overrides[i].site.as_str(), site) {
            return Some(overrides[i].template.as_str());
        }
        i += 1;
    }
    None
}

/// The search URL of `site` for `query`.
///
/// The result depends on the three arguments alone.
pub fn site_url(site: &str, query: &str, overrides: Option<&Vec<SiteOverride>>) -> (r: String)
    ensures
        r@ == search_url(site@, query@, overrides_view(overrides)),
{
    let encoded = percent_encode(query);
    let custom: Option<&str> = match overrides {
        Some(list) => find_override(list, site),
        None => None,
    };
    let template: &str = match custom {
        Some(t) => t,
        None => builtin_template_for(site),
    };
    proof {
        reveal_strlit("{q}");
    }
    replace_all(template, QUERY_MARK, encoded.as_str())
}

} // verus!
