//! The scan redirect engine: classifies an inbound scan into a redirect
//! outcome from the source hint, the redirect hint and the property's
//! on-chain presence, records analytics without failing the redirect, and
//! builds the redirect targets and landing pages.

use vstd::prelude::*;
use vstd::string::*;
use crate::property::{PropertyService, PropertyQrInfo};
use crate::analytics::{AnalyticsService, ScanSource, RedirectType};
use crate::strutil::{str_eq, spec_i64_str, i64_to_string};
pub use crate::strutil::spec_opt_strslice_view;
use crate::ident::spec_is_object_id_hex;
use crate::clock::now_unix;

verus! {

/// The query attributes an inbound scan may carry.
#[derive(Debug, Clone)]
pub struct ScanQuery {
    pub source: Option<String>,
    pub redirect: Option<String>,
    pub ref_: Option<String>,
    pub utm_source: Option<String>,
    pub utm_medium: Option<String>,
    pub utm_campaign: Option<String>,
}

/// The redirect targets of one property.
#[derive(Debug, Clone)]
pub struct RedirectUrls {
    pub property_url: String,
    pub blockchain_url: Option<String>,
    pub redirect_page_url: String,
}

/// The scan data handed to API consumers.
#[derive(Debug, Clone)]
pub struct ScanResponse {
    pub success: bool,
    pub property_id: String,
    pub redirect_type: String,
    pub urls: RedirectUrls,
    pub scan_id: String,
}

/// What the dual-redirect landing page displays.
#[derive(Debug, Clone)]
pub struct ScanRedirectData {
    pub property_id: String,
    pub property_name: String,
    pub location: Option<String>,
    pub daobitar_url: String,
    pub blockchain_url: Option<String>,
    pub action: String,
    pub price: i64,
    pub primary_image: Option<String>,
    pub is_verified: bool,
    pub crypto_accepted: bool,
    /// The recorded scan event's id, for correlation.
    pub scan_id: String,
}

/// What a scan resolves to: an immediate redirect, the dual-choice landing
/// page, or a rendered error page.
#[derive(Debug, Clone)]
pub enum ScanOutcome {
    RedirectTo(String),
    LandingPage(ScanRedirectData),
    NotFoundPage(String),
}

/// The scan source a hint resolves to: unknown or absent hints are taken to
/// be QR scans by policy, never an error.
pub open spec fn spec_scan_source_of(hint: Option<Seq<char>>) -> ScanSource {
    match hint {
        Some(h) => if h == ("qr")@ {
            ScanSource::QrCode
        } else if h == ("direct")@ {
            ScanSource::DirectLink
        } else if h == ("share")@ {
            ScanSource::ShareLink
        } else if h == ("search")@ {
            ScanSource::SearchEngine
        } else if h == ("social")@ {
            ScanSource::SocialMedia
        } else {
            ScanSource::QrCode
        },
        None => ScanSource::QrCode,
    }
}

/// Resolve the scan source from the source hint.
pub fn resolve_scan_source(hint: Option<&str>) -> (r: ScanSource)
    ensures
        r == spec_scan_source_of(spec_opt_strslice_view(hint)),
{
    match hint {
        Some(h) => {
            if str_eq(h, "qr") {
                ScanSource::QrCode
            } else if str_eq(h, "direct") {
                ScanSource::DirectLink
            } else if str_eq(h, "share") {
                ScanSource::ShareLink
            } else if str_eq(h, "search") {
                ScanSource::SearchEngine
            } else if str_eq(h, "social") {
                ScanSource::SocialMedia
            } else {
                ScanSource::QrCode
            }
        },
        None => ScanSource::QrCode,
    }
}

/// The redirect type a hint resolves to: an explicit property or blockchain
/// hint wins; a dual or missing hint yields the dual page exactly when the
/// property is on chain, the property page otherwise.
pub open spec fn spec_redirect_type_of(hint: Option<Seq<char>>, has_onchain: bool) -> RedirectType {
    match hint {
        Some(h) => if h == ("property")@ {
            RedirectType::DaobitarOnly
        } else if h == ("blockchain")@ {
            RedirectType::BlockchainOnly
        } else if has_onchain {
            RedirectType::DualRedirect
        } else {
            RedirectType::DaobitarOnly
        },
        None => if has_onchain {
            RedirectType::DualRedirect
        } else {
            RedirectType::DaobitarOnly
        },
    }
}

/// Resolve the redirect type from the redirect hint and on-chain presence.
pub fn resolve_redirect_type(hint: Option<&str>, has_onchain: bool) -> (r: RedirectType)
    ensures
        r == spec_redirect_type_of(spec_opt_strslice_view(hint), has_onchain),
{
    match hint {
        Some(h) => {
            if str_eq(h, "property") {
                RedirectType::DaobitarOnly
            } else if str_eq(h, "blockchain") {
                RedirectType::BlockchainOnly
            } else if has_onchain {
                RedirectType::DualRedirect
            } else {
                RedirectType::DaobitarOnly
            }
        },
        None => {
            if has_onchain {
                RedirectType::DualRedirect
            } else {
                RedirectType::DaobitarOnly
            }
        },
    }
}

/// The terminal decision of a scan: where a blockchain-only redirect is asked
/// of a property with no on-chain id, fall back to the property page, never
/// to an error.
pub open spec fn spec_scan_decision(hint: Option<Seq<char>>, has_onchain: bool) -> RedirectType {
    let rt = spec_redirect_type_of(hint, has_onchain);
    if rt == RedirectType::BlockchainOnly && !has_onchain {
        RedirectType::DaobitarOnly
    } else {
        rt
    }
}

/// The property page URL under the site base.
pub open spec fn spec_property_url(base: Seq<char>, pid: Seq<char>) -> Seq<char> {
    base + ("/property/")@ + pid
}

/// The explorer token URL under the explorer base.
pub open spec fn spec_token_url(base: Seq<char>, onchain: Seq<char>) -> Seq<char> {
    base + ("/token/")@ + onchain
}

/// The error page markup for a failed scan.
pub open spec fn spec_error_page(message: Seq<char>, pid: Seq<char>) -> Seq<char> {
    ("<!DOCTYPE html>\n<html lang=\"en\">\n<head><meta charset=\"UTF-8\"><title>Error</title></head>\n<body>\n<h1>")@
        + message + ("</h1>\n<p>Property ID: ")@ + pid + (
    "</p>\n<p>The property you're looking for could not be found or is no longer available.</p>\n<a href=\"https://daobitat.xyz\">Go to DAO-Bitat</a>\n</body>\n</html>\n")@
}

/// Render the error page for a failed scan.
pub fn create_error_page(error_message: &str, property_id: &str) -> (r: String)
    ensures
        r@ == spec_error_page(error_message@, property_id@),
{
    let mut s = String::new();
    s.append(
        "<!DOCTYPE html>\n<html lang=\"en\">\n<head><meta charset=\"UTF-8\"><title>Error</title></head>\n<body>\n<h1>",
    );
    s.append(error_message);
    s.append("</h1>\n<p>Property ID: ");
    s.append(property_id);
    s.append(
        "</p>\n<p>The property you're looking for could not be found or is no longer available.</p>\n<a href=\"https://daobitat.xyz\">Go to DAO-Bitat</a>\n</body>\n</html>\n",
    );
    s
}

/// The landing page markup of a dual redirect: the property's display data,
/// the property link, the blockchain link when the property is on chain, the
/// scan id, and a ten-second scripted fallback to the property page.
pub open spec fn spec_redirect_page(
    name: Seq<char>,
    location: Seq<char>,
    action: Seq<char>,
    price: int,
    image_markup: Seq<char>,
    badges: Seq<char>,
    daobitar_url: Seq<char>,
    blockchain_markup: Seq<char>,
    scan_id: Seq<char>,
) -> Seq<char> {
    ("<!DOCTYPE html>\n<html lang=\"en\">\n<head><meta charset=\"UTF-8\"><title>")@ + name + (
    " - DAO-Bitat Property</title></head>\n<body>\n")@ + image_markup + ("<h1>")@ + name + (
    "</h1>\n<p>")@ + location + (" - ")@ + action + ("</p>\n<p>KES ")@ + spec_i64_str(price) + (
    "</p>\n")@ + badges + ("<p><a href=\"")@ + daobitar_url + (
    "\">View on DAO-Bitat</a></p>\n")@ + blockchain_markup + ("<p>Scan ID: ")@ + scan_id + (
    "</p>\n<script>setTimeout(function () { window.location.href = '")@ + daobitar_url + (
    "'; }, 10000);</script>\n</body>\n</html>\n")@
}

/// The image markup of the landing page.
pub open spec fn spec_image_markup(primary_image: Option<Seq<char>>) -> Seq<char> {
    match primary_image {
        Some(url) => ("<img src=\"")@ + url + ("\" alt=\"Property Image\">\n")@,
        None => ("<div>No image</div>\n")@,
    }
}

/// The badge markup of the landing page.
pub open spec fn spec_badge_markup(is_verified: bool, crypto_accepted: bool) -> Seq<char> {
    (if is_verified {
        ("<span>Verified</span>\n")@
    } else {
        Seq::<char>::empty()
    }) + (if crypto_accepted {
        ("<span>Crypto Accepted</span>\n")@
    } else {
        Seq::<char>::empty()
    })
}

/// The blockchain section markup of the landing page.
pub open spec fn spec_blockchain_markup(blockchain_url: Option<Seq<char>>) -> Seq<char> {
    match blockchain_url {
        Some(url) => ("<p><a href=\"")@ + url + ("\">View on Blockchain</a></p>\n")@,
        None => Seq::<char>::empty(),
    }
}

/// Render the dual-redirect landing page.
#[verifier::spinoff_prover]
#[verifier::rlimit(60)]
pub fn create_redirect_page(data: &ScanRedirectData) -> (r: String)
    ensures
        r@ == spec_redirect_page(
            data.property_name@,
            (match data.location {
                Some(l) => l@,
                None => ("Location not specified")@,
            }),
            data.action@,
            data.price as int,
            spec_image_markup(
                match data.primary_image {
                    Some(u) => Some(u@),
                    None => None,
                },
            ),
            spec_badge_markup(data.is_verified, data.crypto_accepted),
            data.daobitar_url@,
            spec_blockchain_markup(
                match data.blockchain_url {
                    Some(u) => Some(u@),
                    None => None,
                },
            ),
            data.scan_id@,
        ),
{
    let mut s = String::new();
    s.append("<!DOCTYPE html>\n<html lang=\"en\">\n<head><meta charset=\"UTF-8\"><title>");
    s.append(data.property_name.as_str());
    s.append(" - DAO-Bitat Property</title></head>\n<body>\n");
    match &data.primary_image {
        Some(url) => {
            s.append("<img src=\"");
            s.append(url.as_str());
            s.append("\" alt=\"Property Image\">\n");
        },
        None => {
            s.append("<div>No image</div>\n");
        },
    }
    s.append("<h1>");
    s.append(data.property_name.as_str());
    s.append("</h1>\n<p>");
    match &data.location {
        Some(l) => {
            s.append(l.as_str());
        },
        None => {
            s.append("Location not specified");
        },
    }
    s.append(" - ");
    s.append(data.action.as_str());
    s.append("</p>\n<p>KES ");
    let price = i64_to_string(data.price);
    s.append(price.as_str());
    s.append("</p>\n");
    if data.is_verified {
        s.append("<span>Verified</span>\n");
    }
    if data.crypto_accepted {
        s.append("<span>Crypto Accepted</span>\n");
    }
    s.append("<p><a href=\"");
    s.append(data.daobitar_url.as_str());
    s.append("\">View on DAO-Bitat</a></p>\n");
    match &data.blockchain_url {
        Some(url) => {
            s.append("<p><a href=\"");
            s.append(url.as_str());
            s.append("\">View on Blockchain</a></p>\n");
        },
        None => (),
    }
    s.append("<p>Scan ID: ");
    s.append(data.scan_id.as_str());
    s.append("</p>\n<script>setTimeout(function () { window.location.href = '");
    s.append(data.daobitar_url.as_str());
    s.append("'; }, 10000);</script>\n</body>\n</html>\n");
    proof {
        assert(s@ =~= spec_redirect_page(
            data.property_name@,
            (match data.location {
                Some(l) => l@,
                None => ("Location not specified")@,
            }),
            data.action@,
            data.price as int,
            spec_image_markup(
                match data.primary_image {
                    Some(u) => Some(u@),
                    None => None,
                },
            ),
            spec_badge_markup(data.is_verified, data.crypto_accepted),
            data.daobitar_url@,
            spec_blockchain_markup(
                match data.blockchain_url {
                    Some(u) => Some(u@),
                    None => None,
                },
            ),
            data.scan_id@,
        ));
    }
    s
}

/// The scan redirect engine: the property directory and analytics it records
/// into, and the two redirect bases.
pub struct ScanEngine {
    property_service: PropertyService,
    analytics_service: AnalyticsService,
    daobitar_base_url: String,
    blockchain_explorer_base_url: String,
}

impl ScanEngine {
    /// The property directory.
    pub closed spec fn spec_props(&self) -> PropertyService {
        self.property_service
    }

    /// The analytics aggregator.
    pub closed spec fn spec_analytics(&self) -> AnalyticsService {
        self.analytics_service
    }

    /// The site base for property pages.
    pub closed spec fn spec_daobitar_base(&self) -> Seq<char> {
        self.daobitar_base_url@
    }

    /// The explorer base for token pages.
    pub closed spec fn spec_explorer_base(&self) -> Seq<char> {
        self.blockchain_explorer_base_url@
    }

    /// Both owned services are internally consistent.
    pub open spec fn wf(&self) -> bool {
        self.spec_props().wf() && self.spec_analytics().wf()
    }

    /// An engine over the given directory and aggregator.
    pub fn new(
        property_service: PropertyService,
        analytics_service: AnalyticsService,
        daobitar_base_url: String,
        blockchain_explorer_base_url: String,
    ) -> (r: ScanEngine)
        requires
            property_service.wf(),
            analytics_service.wf(),
        ensures
            r.wf(),
            r.spec_props() == property_service,
            r.spec_analytics() == analytics_service,
            r.spec_daobitar_base() == daobitar_base_url@,
            r.spec_explorer_base() == blockchain_explorer_base_url@,
    {
        ScanEngine {
            property_service,
            analytics_service,
            daobitar_base_url,
            blockchain_explorer_base_url,
        }
    }

    /// Make a property known to the engine's directory; see
    /// `PropertyService::upsert_property`.
    pub fn seed_property(&mut self, info: PropertyQrInfo, property_type: String, created_at: i64)
        requires
            old(self).wf(),
        ensures
            final (self).wf(),
            final (self).spec_analytics() == old(self).spec_analytics(),
            final (self).spec_daobitar_base() == old(self).spec_daobitar_base(),
            final (self).spec_explorer_base() == old(self).spec_explorer_base(),
            final (self).spec_props().spec_has(info.id@),
            final (self).spec_props().spec_get(info.id@).info == info,
    {
        self.property_service.upsert_property(info, property_type, created_at);
    }

    /// Read access to the analytics aggregator.
    pub fn analytics(&self) -> (r: &AnalyticsService)
        ensures
            *r == self.spec_analytics(),
    {
        &self.analytics_service
    }

    fn build_property_url(&self, property_id: &str) -> (r: String)
        ensures
            r@ == spec_property_url(self.spec_daobitar_base(), property_id@),
    {
        let mut s = String::new();
        s.append(self.daobitar_base_url.as_str());
        s.append("/property/");
        s.append(property_id);
        s
    }

    fn build_token_url(&self, onchain_id: &str) -> (r: String)
        ensures
            r@ == spec_token_url(self.spec_explorer_base(), onchain_id@),
    {
        let mut s = String::new();
        s.append(self.blockchain_explorer_base_url.as_str());
        s.append("/token/");
        s.append(onchain_id);
        s
    }

    /// Classify one inbound scan and record it.
    ///
    /// A property that cannot be resolved (malformed id, unknown, or
    /// ineligible) degrades to a rendered error page with a failed scan event
    /// recorded; it never surfaces an error. Otherwise the hint and the
    /// on-chain presence decide: the property page, the explorer token page
    /// (falling back to the property page without an on-chain id), or the
    /// dual landing page; the scan is recorded and the property's click
    /// counter grows, neither blocking the redirect.
    pub fn handle_scan(
        &mut self,
        property_id: &str,
        source: Option<&str>,
        redirect: Option<&str>,
        user_agent: Option<String>,
        ip_address: Option<String>,
        referrer: Option<String>,
    ) -> (r: ScanOutcome)
        requires
            old(self).wf(),
            old(self).spec_analytics().spec_events().len() < i64::MAX,
            old(self).spec_analytics().spec_pa_has(property_id@) ==> old(
                self,
            ).spec_analytics().spec_pa_get(property_id@).total_scans < i64::MAX,
        ensures
            final (self).wf(),
            final (self).spec_daobitar_base() == old(self).spec_daobitar_base(),
            final (self).spec_explorer_base() == old(self).spec_explorer_base(),
            final (self).spec_analytics().spec_events().len() == old(
                self,
            ).spec_analytics().spec_events().len() + 1,
            final (self).spec_analytics().spec_events().drop_last() == old(
                self,
            ).spec_analytics().spec_events(),
            final (self).spec_analytics().spec_events().last().property_id@ == property_id@,
            ({
                let pid = property_id@;
                let props = old(self).spec_props();
                let resolvable = spec_is_object_id_hex(pid) && props.spec_has(pid)
                    && props.spec_get(pid).info.spec_is_qr_eligible();
                if !resolvable {
                    &&& (r matches ScanOutcome::NotFoundPage(html) && html@ == spec_error_page(
                        ("Property not found")@,
                        pid,
                    ))
                    &&& final (self).spec_props() == props
                    &&& !final (self).spec_analytics().spec_events().last().redirect_success
                    &&& final (self).spec_analytics().spec_events().last().redirect_type
                        == RedirectType::Failed
                    &&& final (self).spec_analytics().spec_events().last().metadata@.len() == 1
                    &&& final (self).spec_analytics().spec_events().last().metadata@[0].0@ == (
                    "error_reason")@
                    &&& final (self).spec_analytics().spec_events().last().metadata@[0].1@ == (
                    "Property not found")@
                    &&& final (self).spec_analytics().spec_pa() == old(
                        self,
                    ).spec_analytics().spec_pa()
                } else {
                    let info = props.spec_get(pid).info;
                    let has_onchain = info.onchain_id is Some;
                    let hint = spec_opt_strslice_view(redirect);
                    let decision = spec_scan_decision(hint, has_onchain);
                    let purl = spec_property_url(old(self).spec_daobitar_base(), pid);
                    &&& final (self).spec_analytics().spec_events().last().redirect_success
                    &&& final (self).spec_analytics().spec_events().last().redirect_type
                        == spec_redirect_type_of(hint, has_onchain)
                    &&& final (self).spec_analytics().spec_events().last().scan_source
                        == spec_scan_source_of(spec_opt_strslice_view(source))
                    &&& final (self).spec_analytics().spec_events().last().qr_version == 1
                    &&& final (self).spec_props().spec_has(pid)
                    &&& final (self).spec_props().spec_get(pid).info == info
                    &&& final (self).spec_props().spec_get(pid).clicks == (
                    if props.spec_get(pid).clicks < i64::MAX {
                        props.spec_get(pid).clicks + 1
                    } else {
                        props.spec_get(pid).clicks as int
                    })
                    &&& (match decision {
                        RedirectType::DaobitarOnly => r matches ScanOutcome::RedirectTo(url)
                            && url@ == purl,
                        RedirectType::BlockchainOnly => r matches ScanOutcome::RedirectTo(url)
                            && url@ == spec_token_url(
                            old(self).spec_explorer_base(),
                            info.onchain_id->0@,
                        ),
                        RedirectType::DualRedirect => r matches ScanOutcome::LandingPage(data) && {
                            &&& data.property_id@ == pid
                            &&& data.property_name@ == info.property_name@
                            &&& (data.location matches Some(l) && l@ == info.location@)
                            &&& data.daobitar_url@ == purl
                            &&& (match info.onchain_id {
                                Some(oc) => data.blockchain_url matches Some(b) && b@
                                    == spec_token_url(old(self).spec_explorer_base(), oc@),
                                None => data.blockchain_url is None,
                            })
                            &&& data.action@ == info.action@
                            &&& data.price == info.price
                            &&& data.is_verified == (info.is_verified matches Some(true))
                            &&& data.crypto_accepted == info.crypto_accepted
                            &&& data.scan_id@ == final (
                            self).spec_analytics().spec_events().last().id@
                        },
                        RedirectType::Failed => false,
                    })
                }
            }),
    {
        let scan_source = resolve_scan_source(source);
        // Resolve the property; a failure degrades to an error page, with a
        // failed scan recorded best-effort.
        let info = match self.property_service.get_property_qr_info(property_id) {
            Ok(info) => info,
            Err(_) => {
                let recorded = self.analytics_service.record_failed_scan(
                    property_id.to_owned(),
                    1,
                    "Property not found".to_owned(),
                    user_agent,
                    ip_address,
                );
                let _ = recorded;
                return ScanOutcome::NotFoundPage(
                    create_error_page("Property not found", property_id),
                );
            },
        };
        let has_onchain = info.onchain_id.is_some();
        let redirect_type = resolve_redirect_type(redirect, has_onchain);
        // Record the scan; the recorded version is always 1, as no per-scan
        // version lookup is made.
        let now = now_unix();
        let scan_id = self.analytics_service.record_scan_at(
            property_id.to_owned(),
            1,
            scan_source,
            redirect_type,
            user_agent,
            ip_address,
            None,
            referrer,
            now,
        );
        // Count the click, best effort.
        let clicked = self.property_service.increment_property_clicks(property_id);
        let _ = clicked;
        // Produce the decision.
        let property_url = self.build_property_url(property_id);
        match redirect_type {
            RedirectType::DaobitarOnly => ScanOutcome::RedirectTo(property_url),
            RedirectType::BlockchainOnly => {
                match &info.onchain_id {
                    Some(onchain) => ScanOutcome::RedirectTo(self.build_token_url(onchain.as_str())),
                    None => ScanOutcome::RedirectTo(property_url),
                }
            },
            RedirectType::DualRedirect => {
                let blockchain_url = match &info.onchain_id {
                    Some(onchain) => Some(self.build_token_url(onchain.as_str())),
                    None => None,
                };
                let primary_image = match info.images.len() {
                    0 => None,
                    _ => Some(info.images[0].clone()),
                };
                let is_verified = match info.is_verified {
                    Some(b) => b,
                    None => false,
                };
                ScanOutcome::LandingPage(
                    ScanRedirectData {
                        property_id: property_id.to_owned(),
                        property_name: info.property_name,
                        location: Some(info.location),
                        daobitar_url: property_url,
                        blockchain_url,
                        action: info.action,
                        price: info.price,
                        primary_image,
                        is_verified,
                        crypto_accepted: info.crypto_accepted,
                        scan_id,
                    },
                )
            },
            RedirectType::Failed => ScanOutcome::NotFoundPage(
                create_error_page("Scan failed", property_id),
            ),
        }
    }

    /// The scan data of one property as an API consumer sees it: the resolved
    /// property's targets, with the scan recorded. Unlike `handle_scan`, a
    /// property that cannot be resolved is reported as the error itself.
    pub fn get_scan_data(
        &mut self,
        property_id: &str,
        source: Option<&str>,
        user_agent: Option<String>,
        ip_address: Option<String>,
    ) -> (r: Result<ScanResponse, crate::property::PropertyError>)
        requires
            old(self).wf(),
            old(self).spec_analytics().spec_events().len() < i64::MAX,
            old(self).spec_analytics().spec_pa_has(property_id@) ==> old(
                self,
            ).spec_analytics().spec_pa_get(property_id@).total_scans < i64::MAX,
        ensures
            final (self).wf(),
            final (self).spec_daobitar_base() == old(self).spec_daobitar_base(),
            final (self).spec_explorer_base() == old(self).spec_explorer_base(),
            final (self).spec_props() == old(self).spec_props(),
            ({
                let pid = property_id@;
                let props = old(self).spec_props();
                let resolvable = spec_is_object_id_hex(pid) && props.spec_has(pid)
                    && props.spec_get(pid).info.spec_is_qr_eligible();
                if resolvable {
                    let info = props.spec_get(pid).info;
                    let has_onchain = info.onchain_id is Some;
                    &&& (r matches Ok(resp) && {
                        &&& resp.success
                        &&& resp.property_id@ == pid
                        &&& resp.redirect_type@ == (if has_onchain {
                            ("dual")@
                        } else {
                            ("property")@
                        })
                        &&& resp.urls.property_url@ == spec_property_url(
                            old(self).spec_daobitar_base(),
                            pid,
                        )
                        &&& (match info.onchain_id {
                            Some(oc) => resp.urls.blockchain_url matches Some(b) && b@
                                == spec_token_url(old(self).spec_explorer_base(), oc@),
                            None => resp.urls.blockchain_url is None,
                        })
                        &&& resp.urls.redirect_page_url@ == old(self).spec_daobitar_base() + (
                        "/scan/")@ + pid
                    })
                    &&& final (self).spec_analytics().spec_events().len() == old(
                        self,
                    ).spec_analytics().spec_events().len() + 1
                } else {
                    &&& r is Err
                    &&& final (self).spec_analytics() == old(self).spec_analytics()
                }
            }),
    {
        let info = match self.property_service.get_property_qr_info(property_id) {
            Ok(info) => info,
            Err(e) => {
                return Err(e);
            },
        };
        let scan_source = match source {
            Some(h) => {
                if str_eq(h, "qr") {
                    ScanSource::QrCode
                } else if str_eq(h, "direct") {
                    ScanSource::DirectLink
                } else {
                    ScanSource::QrCode
                }
            },
            None => ScanSource::QrCode,
        };
        let has_onchain = info.onchain_id.is_some();
        let redirect_type = if has_onchain {
            RedirectType::DualRedirect
        } else {
            RedirectType::DaobitarOnly
        };
        let now = now_unix();
        let scan_id = self.analytics_service.record_scan_at(
            property_id.to_owned(),
            1,
            scan_source,
            redirect_type,
            user_agent,
            ip_address,
            None,
            None,
            now,
        );
        let property_url = self.build_property_url(property_id);
        let blockchain_url = match &info.onchain_id {
            Some(onchain) => Some(self.build_token_url(onchain.as_str())),
            None => None,
        };
        let mut redirect_page_url = String::new();
        redirect_page_url.append(self.daobitar_base_url.as_str());
        redirect_page_url.append("/scan/");
        redirect_page_url.append(property_id);
        let redirect_type_name = if has_onchain {
            "dual".to_owned()
        } else {
            "property".to_owned()
        };
        Ok(
            ScanResponse {
                success: true,
                property_id: property_id.to_owned(),
                redirect_type: redirect_type_name,
                urls: RedirectUrls { property_url, blockchain_url, redirect_page_url },
                scan_id,
            },
        )
    }
}

} // verus!
