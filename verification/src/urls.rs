//! URL construction and validation for the service's endpoints, the site's
//! property pages, the blockchain explorer, and object storage.

use vstd::prelude::*;
use vstd::string::*;
use crate::strutil::{
    spec_trim_end_slashes, trim_end_slashes, spec_trim_start_slashes, trim_start_slashes,
    spec_starts_with, starts_with_str, spec_ends_with, matches_at, spec_contains_substr,
    dec_digits,
    u32_to_string, spec_i64_str, i64_to_string, substring_copy,
};
use crate::textenc::{url_encoded_of, url_encode};

verus! {

/// The query-string text of a list of parameters: percent-encoded keys and
/// values, joined with `&`.
pub open spec fn spec_query_string(params: Seq<(Seq<char>, Seq<char>)>) -> Seq<char>
    decreases params.len(),
{
    if params.len() == 0 {
        seq![]
    } else if params.len() == 1 {
        url_encoded_of(params.first().0) + ("=")@ + url_encoded_of(params.first().1)
    } else {
        spec_query_string(params.drop_last()) + ("&")@ + url_encoded_of(params.last().0) + ("=")@
            + url_encoded_of(params.last().1)
    }
}

/// The views of a list of string parameters.
pub open spec fn spec_pairs_view(v: Seq<(String, String)>) -> Seq<(Seq<char>, Seq<char>)> {
    v.map_values(|p: (String, String)| (p.0@, p.1@))
}

/// The absolute form of `base_path` under `base`: kept as given when it
/// already names a protocol, else appended to the base with leading slashes
/// dropped.
pub open spec fn spec_absolute(base: Seq<char>, base_path: Seq<char>) -> Seq<char> {
    if spec_starts_with(base_path, ("http")@) {
        base_path
    } else {
        base + ("/")@ + spec_trim_start_slashes(base_path)
    }
}

/// The URL of `base_path` with the given query parameters.
pub open spec fn spec_url_with_params(
    base: Seq<char>,
    base_path: Seq<char>,
    params: Seq<(Seq<char>, Seq<char>)>,
) -> Seq<char> {
    if params.len() == 0 {
        spec_absolute(base, base_path)
    } else {
        spec_absolute(base, base_path) + ("?")@ + spec_query_string(params)
    }
}

/// Builds the URLs the service hands out, from its three bases (stored with
/// trailing slashes dropped).
#[derive(Debug, Clone)]
pub struct UrlBuilder {
    base_url: String,
    daobitat_base_url: String,
    blockchain_explorer_base_url: String,
}

impl UrlBuilder {
    /// The service's own base URL.
    pub closed spec fn spec_base(&self) -> Seq<char> {
        self.base_url@
    }

    /// The site base for property pages.
    pub closed spec fn spec_daobitat_base(&self) -> Seq<char> {
        self.daobitat_base_url@
    }

    /// The explorer base for on-chain pages.
    pub closed spec fn spec_explorer_base(&self) -> Seq<char> {
        self.blockchain_explorer_base_url@
    }

    /// A builder over the three bases, trailing slashes dropped.
    pub fn new(base_url: String, daobitat_base_url: String, blockchain_explorer_base_url: String)
        -> (r: UrlBuilder)
        ensures
            r.spec_base() == spec_trim_end_slashes(base_url@),
            r.spec_daobitat_base() == spec_trim_end_slashes(daobitat_base_url@),
            r.spec_explorer_base() == spec_trim_end_slashes(blockchain_explorer_base_url@),
    {
        UrlBuilder {
            base_url: trim_end_slashes(base_url.as_str()),
            daobitat_base_url: trim_end_slashes(daobitat_base_url.as_str()),
            blockchain_explorer_base_url: trim_end_slashes(blockchain_explorer_base_url.as_str()),
        }
    }

    /// The builder over the service's default bases.
    pub fn default_config() -> (r: UrlBuilder)
        ensures
            r.spec_base() == spec_trim_end_slashes(("https://qr-service.daobitat.xyz")@),
            r.spec_daobitat_base() == spec_trim_end_slashes(("https://www.daobitat.xyz")@),
            r.spec_explorer_base() == spec_trim_end_slashes(("https://basescan.org")@),
    {
        UrlBuilder::new(
            "https://qr-service.daobitat.xyz".to_owned(),
            "https://www.daobitat.xyz".to_owned(),
            "https://basescan.org".to_owned(),
        )
    }

    /// The scan URL of a property.
    pub fn build_scan_url(&self, property_id: &str) -> (r: String)
        ensures
            r@ == self.spec_base() + ("/scan/")@ + property_id@,
    {
        let mut s = self.base_url.clone();
        s.append("/scan/");
        s.append(property_id);
        s
    }

    /// The site's property-details URL.
    pub fn build_daobitat_property_url(&self, property_id: &str) -> (r: String)
        ensures
            r@ == self.spec_daobitat_base() + ("/property-details/")@ + property_id@,
    {
        let mut s = self.daobitat_base_url.clone();
        s.append("/property-details/");
        s.append(property_id);
        s
    }

    /// The explorer address URL of an on-chain id.
    pub fn build_blockchain_explorer_url(&self, onchain_id: &str) -> (r: String)
        ensures
            r@ == self.spec_explorer_base() + ("/address/")@ + onchain_id@,
    {
        let mut s = self.blockchain_explorer_base_url.clone();
        s.append("/address/");
        s.append(onchain_id);
        s
    }

    /// The versioned API URL of an endpoint, leading slashes dropped.
    pub fn build_api_url(&self, endpoint: &str) -> (r: String)
        ensures
            r@ == self.spec_base() + ("/api/v1/")@ + spec_trim_start_slashes(endpoint@),
    {
        let trimmed = trim_start_slashes(endpoint);
        let mut s = self.base_url.clone();
        s.append("/api/v1/");
        s.append(trimmed.as_str());
        s
    }

    /// The API URL that generates one property's QR code.
    pub fn build_qr_generate_url(&self, property_id: &str) -> (r: String)
        ensures
            r@ == self.spec_base() + ("/api/v1/")@ + spec_trim_start_slashes(
                ("qr/generate/")@ + property_id@,
            ),
    {
        let mut endpoint = String::new();
        endpoint.append("qr/generate/");
        endpoint.append(property_id);
        self.build_api_url(endpoint.as_str())
    }

    /// The API URL of one property's QR analytics.
    pub fn build_qr_analytics_url(&self, property_id: &str) -> (r: String)
        ensures
            r@ == self.spec_base() + ("/api/v1/")@ + spec_trim_start_slashes(
                ("qr/")@ + property_id@ + ("/analytics")@,
            ),
    {
        let mut endpoint = String::new();
        endpoint.append("qr/");
        endpoint.append(property_id);
        endpoint.append("/analytics");
        self.build_api_url(endpoint.as_str())
    }

    /// The API URL of the batch generation endpoint.
    pub fn build_batch_qr_generate_url(&self) -> (r: String)
        ensures
            r@ == self.spec_base() + ("/api/v1/")@ + spec_trim_start_slashes(
                ("qr/batch-generate")@,
            ),
    {
        self.build_api_url("qr/batch-generate")
    }

    /// The health-check URL.
    pub fn build_health_url(&self) -> (r: String)
        ensures
            r@ == self.spec_base() + ("/health")@,
    {
        let mut s = self.base_url.clone();
        s.append("/health");
        s
    }

    /// The webhook URL of one property.
    pub fn build_property_webhook_url(&self, property_id: &str) -> (r: String)
        ensures
            r@ == self.spec_base() + ("/api/v1/")@ + spec_trim_start_slashes(
                ("webhooks/property/")@ + property_id@,
            ),
    {
        let mut endpoint = String::new();
        endpoint.append("webhooks/property/");
        endpoint.append(property_id);
        self.build_api_url(endpoint.as_str())
    }

    /// The bucket-addressed object URL.
    pub fn build_s3_url(&self, bucket: &str, key: &str, region: &str) -> (r: String)
        ensures
            r@ == ("https://")@ + bucket@ + (".s3.")@ + region@ + (".amazonaws.com/")@ + key@,
    {
        let mut s = String::new();
        s.append("https://");
        s.append(bucket);
        s.append(".s3.");
        s.append(region);
        s.append(".amazonaws.com/");
        s.append(key);
        s
    }

    /// The content-delivery URL of an object.
    pub fn build_cloudfront_url(&self, distribution_domain: &str, key: &str) -> (r: String)
        ensures
            r@ == ("https://")@ + spec_trim_end_slashes(distribution_domain@) + ("/")@ + key@,
    {
        let domain = trim_end_slashes(distribution_domain);
        let mut s = String::new();
        s.append("https://");
        s.append(domain.as_str());
        s.append("/");
        s.append(key);
        s
    }

    /// The URL of `base_path` (absolute, or under the service base) with the
    /// given query parameters, percent-encoded, in their given order.
    pub fn build_url_with_params(&self, base_path: &str, params: Vec<(String, String)>) -> (r:
        String)
        ensures
            r@ == spec_url_with_params(self.spec_base(), base_path@, spec_pairs_view(params@)),
    {
        let mut base = if starts_with_str(base_path, "http") {
            base_path.to_owned()
        } else {
            let trimmed = trim_start_slashes(base_path);
            let mut s = self.base_url.clone();
            s.append("/");
            s.append(trimmed.as_str());
            s
        };
        if params.len() == 0 {
            proof {
                assert(spec_pairs_view(params@).len() == 0);
            }
            return base;
        }
        base.append("?");
        let mut i: usize = 0;
        let ghost pv = spec_pairs_view(params@);
        while i < params.len()
            invariant
                pv == spec_pairs_view(params@),
                pv.len() == params@.len(),
                forall|k: int|
                    0 <= k < params@.len() ==> #[trigger] pv[k] == (params@[k].0@, params@[k].1@),
                0 < params@.len(),
                0 <= i <= params@.len(),
                i == 0 ==> base@ == spec_absolute(self.spec_base(), base_path@) + ("?")@,
                i > 0 ==> base@ == spec_absolute(self.spec_base(), base_path@) + ("?")@
                    + spec_query_string(pv.subrange(0, i as int)),
            decreases params@.len() - i,
        {
            proof {
                assert(pv.subrange(0, i + 1).drop_last() =~= pv.subrange(0, i as int));
                assert(pv.subrange(0, i + 1).last() == pv[i as int]);
                if i > 0 {
                    assert(pv.subrange(0, i + 1).len() > 1);
                } else {
                    assert(pv.subrange(0, 1).first() == pv[0]);
                }
            }
            if i > 0 {
                base.append("&");
            }
            let k = url_encode(params[i].0.as_str());
            base.append(k.as_str());
            base.append("=");
            let v = url_encode(params[i].1.as_str());
            base.append(v.as_str());
            i += 1;
        }
        proof {
            assert(pv.subrange(0, pv.len() as int) =~= pv);
        }
        base
    }

    /// The URL of `base_path` with page and limit parameters.
    pub fn build_paginated_url(&self, base_path: &str, page: u32, limit: u32) -> (r: String)
        ensures
            r@ == spec_url_with_params(
                self.spec_base(),
                base_path@,
                seq![
                    ((("page")@, dec_digits(page as nat))),
                    ((("limit")@, dec_digits(limit as nat))),
                ],
            ),
    {
        let mut params: Vec<(String, String)> = Vec::new();
        params.push(("page".to_owned(), u32_to_string(page)));
        params.push(("limit".to_owned(), u32_to_string(limit)));
        proof {
            assert(spec_pairs_view(params@) =~= seq![
                ((("page")@, dec_digits(page as nat))),
                ((("limit")@, dec_digits(limit as nat))),
            ]);
        }
        self.build_url_with_params(base_path, params)
    }

    /// The API search URL of `endpoint` with the query and the given filters
    /// appended, the query first.
    pub fn build_search_url(&self, endpoint: &str, query: &str, filters: Option<Vec<(String, String)>>)
        -> (r: String)
        ensures
            r@ == spec_url_with_params(
                self.spec_base(),
                self.spec_base() + ("/api/v1/")@ + spec_trim_start_slashes(endpoint@),
                seq![((("q")@, query@))] + (match filters {
                    Some(f) => spec_pairs_view(f@),
                    None => Seq::empty(),
                }),
            ),
    {
        let mut params: Vec<(String, String)> = Vec::new();
        params.push(("q".to_owned(), query.to_owned()));
        let ghost first = spec_pairs_view(params@);
        proof {
            assert(first =~= seq![((("q")@, query@))]);
        }
        match filters {
            Some(f) => {
                let mut j: usize = 0;
                while j < f.len()
                    invariant
                        0 <= j <= f@.len(),
                        params@.len() == j + 1,
                        params@[0].0@ == ("q")@,
                        params@[0].1@ == query@,
                        forall|k: int| 0 <= k < j ==> #[trigger] params@[k + 1] == f@[k],
                    decreases f@.len() - j,
                {
                    let pair = (f[j].0.clone(), f[j].1.clone());
                    proof {
                        assert(pair == f@[j as int]);
                    }
                    params.push(pair);
                    j += 1;
                }
                proof {
                    assert(spec_pairs_view(params@) =~= seq![((("q")@, query@))] + spec_pairs_view(
                        f@,
                    )) by {
                        assert forall|k: int| 0 <= k < params@.len() implies spec_pairs_view(
                            params@,
                        )[k] == (seq![((("q")@, query@))] + spec_pairs_view(f@))[k] by {
                            if k > 0 {
                                assert(params@[(k - 1) + 1] == f@[k - 1]);
                            }
                        }
                    }
                }
            },
            None => {
                proof {
                    assert(spec_pairs_view(params@) =~= seq![((("q")@, query@))] + Seq::<
                        (Seq<char>, Seq<char>),
                    >::empty());
                }
            },
        }
        let api = self.build_api_url(endpoint);
        self.build_url_with_params(api.as_str(), params)
    }

    /// The property search URL: the query first, then each present filter in
    /// a fixed order.
    pub fn build_property_search_url(&self, query: &str, filters: Option<PropertySearchFilters>)
        -> (r: String)
        ensures
            r@ == spec_url_with_params(
                self.spec_base(),
                ("api/v1/properties/search")@,
                spec_search_params(query@, filters),
            ),
    {
        let mut params: Vec<(String, String)> = Vec::new();
        params.push(("q".to_owned(), query.to_owned()));
        match &filters {
            Some(f) => {
                match &f.location {
                    Some(location) => {
                        params.push(("location".to_owned(), location.clone()));
                    },
                    None => (),
                }
                match f.min_price {
                    Some(min_price) => {
                        params.push(("min_price".to_owned(), i64_to_string(min_price)));
                    },
                    None => (),
                }
                match f.max_price {
                    Some(max_price) => {
                        params.push(("max_price".to_owned(), i64_to_string(max_price)));
                    },
                    None => (),
                }
                match &f.property_type {
                    Some(property_type) => {
                        params.push(("property_type".to_owned(), property_type.clone()));
                    },
                    None => (),
                }
                if f.verified_only {
                    params.push(("verified_only".to_owned(), "true".to_owned()));
                }
                if f.crypto_accepted {
                    params.push(("crypto_accepted".to_owned(), "true".to_owned()));
                }
            },
            None => (),
        }
        proof {
            assert(spec_pairs_view(params@) =~= spec_search_params(query@, filters));
        }
        self.build_url_with_params("api/v1/properties/search", params)
    }

    /// The service's base URL.
    pub fn get_base_url(&self) -> (r: &str)
        ensures
            r@ == self.spec_base(),
    {
        self.base_url.as_str()
    }

    /// The site base for property pages.
    pub fn get_daobitat_base_url(&self) -> (r: &str)
        ensures
            r@ == self.spec_daobitat_base(),
    {
        self.daobitat_base_url.as_str()
    }

    /// The explorer base for on-chain pages.
    pub fn get_blockchain_explorer_base_url(&self) -> (r: &str)
        ensures
            r@ == self.spec_explorer_base(),
    {
        self.blockchain_explorer_base_url.as_str()
    }

    /// Replace whichever bases are given, trailing slashes dropped.
    pub fn update_urls(
        &mut self,
        base_url: Option<String>,
        daobitat_url: Option<String>,
        blockchain_url: Option<String>,
    )
        ensures
            final (self).spec_base() == (match base_url {
                Some(u) => spec_trim_end_slashes(u@),
                None => old(self).spec_base(),
            }),
            final (self).spec_daobitat_base() == (match daobitat_url {
                Some(u) => spec_trim_end_slashes(u@),
                None => old(self).spec_daobitat_base(),
            }),
            final (self).spec_explorer_base() == (match blockchain_url {
                Some(u) => spec_trim_end_slashes(u@),
                None => old(self).spec_explorer_base(),
            }),
    {
        match base_url {
            Some(url) => {
                self.base_url = trim_end_slashes(url.as_str());
            },
            None => (),
        }
        match daobitat_url {
            Some(url) => {
                self.daobitat_base_url = trim_end_slashes(url.as_str());
            },
            None => (),
        }
        match blockchain_url {
            Some(url) => {
                self.blockchain_explorer_base_url = trim_end_slashes(url.as_str());
            },
            None => (),
        }
    }
}

/// The parameter list of a property search: the query, then each present
/// filter, in a fixed order.
pub open spec fn spec_search_params(query: Seq<char>, filters: Option<PropertySearchFilters>)
    -> Seq<(Seq<char>, Seq<char>)> {
    seq![((("q")@, query))] + (match filters {
        Some(f) => (match f.location {
            Some(l) => seq![((("location")@, l@))],
            None => Seq::<(Seq<char>, Seq<char>)>::empty(),
        }) + (match f.min_price {
            Some(p) => seq![((("min_price")@, spec_i64_str(p as int)))],
            None => Seq::<(Seq<char>, Seq<char>)>::empty(),
        }) + (match f.max_price {
            Some(p) => seq![((("max_price")@, spec_i64_str(p as int)))],
            None => Seq::<(Seq<char>, Seq<char>)>::empty(),
        }) + (match f.property_type {
            Some(t) => seq![((("property_type")@, t@))],
            None => Seq::<(Seq<char>, Seq<char>)>::empty(),
        }) + (if f.verified_only {
            seq![((("verified_only")@, ("true")@))]
        } else {
            Seq::<(Seq<char>, Seq<char>)>::empty()
        }) + (if f.crypto_accepted {
            seq![((("crypto_accepted")@, ("true")@))]
        } else {
            Seq::<(Seq<char>, Seq<char>)>::empty()
        }),
        None => Seq::<(Seq<char>, Seq<char>)>::empty(),
    })
}

/// Filters of a property search URL.
#[derive(Debug, Clone)]
pub struct PropertySearchFilters {
    pub location: Option<String>,
    pub min_price: Option<i64>,
    pub max_price: Option<i64>,
    pub property_type: Option<String>,
    pub verified_only: bool,
    pub crypto_accepted: bool,
}

impl Default for PropertySearchFilters {
    /// No filters.
    fn default() -> (r: PropertySearchFilters)
        ensures
            r.location is None,
            r.min_price is None,
            r.max_price is None,
            r.property_type is None,
            !r.verified_only,
            !r.crypto_accepted,
    {
        PropertySearchFilters {
            location: None,
            min_price: None,
            max_price: None,
            property_type: None,
            verified_only: false,
            crypto_accepted: false,
        }
    }
}

impl PropertySearchFilters {
    /// No filters.
    pub fn new() -> (r: PropertySearchFilters)
        ensures
            r.location is None,
            r.min_price is None,
            r.max_price is None,
            r.property_type is None,
            !r.verified_only,
            !r.crypto_accepted,
    {
        Default::default()
    }

    /// The filters with the location set.
    pub fn location(self, location: String) -> (r: PropertySearchFilters)
        ensures
            r == (PropertySearchFilters { location: Some(location), ..self }),
    {
        PropertySearchFilters { location: Some(location), ..self }
    }

    /// The filters with the price range set.
    pub fn price_range(self, min: Option<i64>, max: Option<i64>) -> (r: PropertySearchFilters)
        ensures
            r == (PropertySearchFilters { min_price: min, max_price: max, ..self }),
    {
        PropertySearchFilters { min_price: min, max_price: max, ..self }
    }

    /// The filters with the property type set.
    pub fn property_type(self, property_type: String) -> (r: PropertySearchFilters)
        ensures
            r == (PropertySearchFilters { property_type: Some(property_type), ..self }),
    {
        PropertySearchFilters { property_type: Some(property_type), ..self }
    }

    /// The filters narrowed to verified properties.
    pub fn verified_only(self) -> (r: PropertySearchFilters)
        ensures
            r == (PropertySearchFilters { verified_only: true, ..self }),
    {
        PropertySearchFilters { verified_only: true, ..self }
    }

    /// The filters narrowed to crypto-accepting properties.
    pub fn crypto_accepted(self) -> (r: PropertySearchFilters)
        ensures
            r == (PropertySearchFilters { crypto_accepted: true, ..self }),
    {
        PropertySearchFilters { crypto_accepted: true, ..self }
    }
}

/// URL shape checks.
pub struct UrlValidator {}

impl UrlValidator {
    /// Whether the URL names a web protocol.
    pub fn is_valid_url(url: &str) -> (r: bool)
        ensures
            r == (spec_starts_with(url@, ("http://")@) || spec_starts_with(url@, ("https://")@)),
    {
        starts_with_str(url, "http://") || starts_with_str(url, "https://")
    }

    /// Whether the URL names the secure web protocol.
    pub fn is_secure_url(url: &str) -> (r: bool)
        ensures
            r == spec_starts_with(url@, ("https://")@),
    {
        starts_with_str(url, "https://")
    }

    /// The domain of the URL: what stands between the first `://` and the
    /// next `/`, or the rest of the URL; nothing without a protocol
    /// separator.
    pub fn extract_domain(url: &str) -> (r: Option<String>)
        ensures
            (r is Some) == spec_contains_substr(url@, ("://")@),
            (match r {
                Some(d) => d@ == spec_domain_of(url@),
                None => true,
            }),
    {
        let len = url.unicode_len();
        if len < 3 {
            proof {
                reveal_strlit("://");
            }
            return None;
        }
        let mut i: usize = 0;
        while i <= len - 3
            invariant
                len == url@.len(),
                3 <= len,
                0 <= i <= len - 3 + 1,
                forall|k: int| 0 <= k < i ==> #[trigger] url@.subrange(k, k + 3) != ("://")@,
            decreases len - 3 - i + 1,
        {
            proof {
                reveal_strlit("://");
            }
            if matches_at(url, "://", i) {
                proof {
                    lemma_sep_pos_from(url@, 0, i as int);
                }
                // Found the first protocol separator; take until the next slash.
                let start = i + 3;
                let mut j: usize = start;
                while j < len && url.get_char(j) != '/'
                    invariant
                        len == url@.len(),
                        start <= j <= len,
                        forall|k: int| start <= k < j ==> url@[k] != '/',
                    decreases len - j,
                {
                    j += 1;
                }
                proof {
                    lemma_domain_end_from(url@, start as int, j as int);
                }
                let domain = substring_copy(url, start, j);
                proof {
                    assert(url@.subrange(i as int, i + 3) == ("://")@);
                    assert(spec_contains_substr(url@, ("://")@));
                }
                return Some(domain);
            }
            i += 1;
        }
        proof {
            reveal_strlit("://");
            assert(!spec_contains_substr(url@, ("://")@)) by {
                assert forall|k: int| 0 <= k && k + 3 <= url@.len() implies #[trigger] url@.subrange(
                    k,
                    k + 3,
                ) != ("://")@ by {}
            }
        }
        None
    }

    /// Whether the URL's domain ends with one of the allowed domains: exactly
    /// when a domain can be extracted and some allowed entry is its suffix.
    pub fn is_allowed_domain(url: &str, allowed_domains: &Vec<String>) -> (r: bool)
        ensures
            r == (spec_contains_substr(url@, ("://")@) && exists|a: int|
                0 <= a < allowed_domains@.len() && spec_ends_with(
                    spec_domain_of(url@),
                    (#[trigger] allowed_domains@[a])@,
                )),
    {
        match Self::extract_domain(url) {
            Some(domain) => {
                let mut i: usize = 0;
                while i < allowed_domains.len()
                    invariant
                        0 <= i <= allowed_domains@.len(),
                        spec_contains_substr(url@, ("://")@),
                        domain@ == spec_domain_of(url@),
                        forall|a: int|
                            0 <= a < i ==> !spec_ends_with(
                                spec_domain_of(url@),
                                (#[trigger] allowed_domains@[a])@,
                            ),
                    decreases allowed_domains@.len() - i,
                {
                    if crate::strutil::ends_with_str(
                        domain.as_str(),
                        allowed_domains[i].as_str(),
                    ) {
                        return true;
                    }
                    i += 1;
                }
                false
            },
            None => false,
        }
    }
}

/// The position of the first protocol separator `://` of `s` at or after `i`;
/// the length of `s` where none occurs.
pub open spec fn spec_sep_pos(s: Seq<char>, i: int) -> int
    decreases s.len() - i,
{
    if i < 0 || i + 3 > s.len() {
        s.len() as int
    } else if s.subrange(i, i + 3) == ("://")@ {
        i
    } else {
        spec_sep_pos(s, i + 1)
    }
}

/// The end of the domain span: the first `/` of `s` at or after `i`, or the
/// end of `s`.
pub open spec fn spec_domain_end(s: Seq<char>, i: int) -> int
    decreases s.len() - i,
{
    if i < 0 || i >= s.len() {
        s.len() as int
    } else if s[i] == '/' {
        i
    } else {
        spec_domain_end(s, i + 1)
    }
}

/// The domain of a URL: the text between the first `://` and the next `/`,
/// or the whole remainder.
pub open spec fn spec_domain_of(s: Seq<char>) -> Seq<char> {
    let p = spec_sep_pos(s, 0);
    s.subrange(p + 3, spec_domain_end(s, p + 3))
}

/// A separator match at `i` with no earlier match from `j` on pins the first
/// separator position.
proof fn lemma_sep_pos_from(s: Seq<char>, j: int, i: int)
    requires
        0 <= j <= i,
        i + 3 <= s.len(),
        s.subrange(i, i + 3) == ("://")@,
        forall|k: int| j <= k < i ==> #[trigger] s.subrange(k, k + 3) != ("://")@,
    ensures
        spec_sep_pos(s, j) == i,
    decreases i - j,
{
    if j < i {
        lemma_sep_pos_from(s, j + 1, i);
    }
}

/// A slash at `i` (or the end) with no earlier slash from `j` on pins the
/// domain end.
proof fn lemma_domain_end_from(s: Seq<char>, j: int, i: int)
    requires
        0 <= j <= i <= s.len(),
        i == s.len() || s[i] == '/',
        forall|k: int| j <= k < i ==> s[k] != '/',
    ensures
        spec_domain_end(s, j) == i,
    decreases i - j,
{
    if j < i {
        lemma_domain_end_from(s, j + 1, i);
    }
}

/// The blockchain link of the dual-redirect markup.
pub open spec fn spec_dual_blockchain_markup(blockchain_url: Option<Seq<char>>) -> Seq<char> {
    match blockchain_url {
        Some(url) => ("<a href=\"")@ + url + ("\">View on Blockchain</a>\n")@,
        None => Seq::<char>::empty(),
    }
}

/// The dual-redirect markup: the property name, the property-details link,
/// the blockchain link when an on-chain id is given, and a three-second
/// scripted redirect to the property page.
pub open spec fn spec_dual_redirect_html(
    name: Seq<char>,
    daobitat_url: Seq<char>,
    blockchain_markup: Seq<char>,
) -> Seq<char> {
    ("<!DOCTYPE html>\n<html lang=\"en\">\n<head><meta charset=\"UTF-8\"><title>Redirecting to ")@
        + name + ("</title></head>\n<body>\n<h1>")@ + name + (
    "</h1>\n<p>You're being redirected to view this property...</p>\n<a href=\"")@ + daobitat_url
        + ("\">View Property Details</a>\n")@ + blockchain_markup + (
    "<script>setTimeout(function () { window.location.href = '")@ + daobitat_url + (
    "'; }, 3000);</script>\n</body>\n</html>\n")@
}

impl UrlBuilder {
    /// Render the dual-redirect markup of a property.
    pub fn build_dual_redirect_html(
        &self,
        property_id: &str,
        property_name: &str,
        onchain_id: Option<&str>,
    ) -> (r: String)
        ensures
            r@ == spec_dual_redirect_html(
                property_name@,
                self.spec_daobitat_base() + ("/property-details/")@ + property_id@,
                spec_dual_blockchain_markup(
                    match onchain_id {
                        Some(o) => Some(
                            self.spec_explorer_base() + ("/address/")@ + o@,
                        ),
                        None => None,
                    },
                ),
            ),
    {
        let daobitat_url = self.build_daobitat_property_url(property_id);
        let mut s = String::new();
        s.append(
            "<!DOCTYPE html>\n<html lang=\"en\">\n<head><meta charset=\"UTF-8\"><title>Redirecting to ",
        );
        s.append(property_name);
        s.append("</title></head>\n<body>\n<h1>");
        s.append(property_name);
        s.append("</h1>\n<p>You're being redirected to view this property...</p>\n<a href=\"");
        s.append(daobitat_url.as_str());
        s.append("\">View Property Details</a>\n");
        match onchain_id {
            Some(o) => {
                let blockchain_url = self.build_blockchain_explorer_url(o);
                s.append("<a href=\"");
                s.append(blockchain_url.as_str());
                s.append("\">View on Blockchain</a>\n");
            },
            None => (),
        }
        s.append("<script>setTimeout(function () { window.location.href = '");
        s.append(daobitat_url.as_str());
        s.append("'; }, 3000);</script>\n</body>\n</html>\n");
        proof {
            assert(s@ =~= spec_dual_redirect_html(
                property_name@,
                self.spec_daobitat_base() + ("/property-details/")@ + property_id@,
                spec_dual_blockchain_markup(
                    match onchain_id {
                        Some(o) => Some(
                            self.spec_explorer_base() + ("/address/")@ + o@,
                        ),
                        None => None,
                    },
                ),
            ));
        }
        s
    }
}


} // verus!
