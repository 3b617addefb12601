//! Scan analytics: immutable scan events, device derivation from the user
//! agent, and the incrementally maintained per-property aggregate.
//!
//! Ratios that the service reports (success rate, percentages) are carried in
//! basis points (hundredths of a percent) as exact integers; the per-property
//! success rate is always the exact mean of per-event success.

use vstd::prelude::*;
use vstd::string::*;
use crate::strutil::{
    spec_contains_substr, contains_substr, spec_opt_view, spec_opt_strslice_view, clone_opt_string,
    clone_vec_string_pairs,
};
use crate::textenc::{lower_of, lowercase};
use crate::clock::{
    now_unix, spec_day_start, day_start, spec_week_start, week_start, month_start_of, month_start,
    date_string, date_str_of, spec_day_number, day_number,
};
use crate::strutil::str_eq;
use crate::ident::new_object_id_hex;
use crate::property::spec_id_among;

verus! {

/// How the visitor reached the scan endpoint.
#[derive(Debug, Clone, Copy, PartialEq, Eq, Structural)]
pub enum ScanSource {
    QrCode,
    DirectLink,
    ShareLink,
    SearchEngine,
    SocialMedia,
    Unknown,
}

/// The classified outcome of a scan.
#[derive(Debug, Clone, Copy, PartialEq, Eq, Structural)]
pub enum RedirectType {
    DualRedirect,
    DaobitarOnly,
    BlockchainOnly,
    Failed,
}

/// Where a scan came from, as far as it could be derived. Coordinates are
/// carried in microdegrees.
#[derive(Debug, Clone)]
pub struct GeoLocation {
    pub country: Option<String>,
    pub region: Option<String>,
    pub city: Option<String>,
    pub latitude_microdeg: Option<i64>,
    pub longitude_microdeg: Option<i64>,
    pub timezone: Option<String>,
}

/// The device class of a scan.
#[derive(Debug, Clone, Copy, PartialEq, Eq, Structural)]
pub enum DeviceType {
    Mobile,
    Tablet,
    Desktop,
    Unknown,
}

/// What the user-agent string reveals of the device.
#[derive(Debug, Clone)]
pub struct DeviceInfo {
    pub device_type: DeviceType,
    pub platform: Option<String>,
    pub browser: Option<String>,
    pub browser_version: Option<String>,
    pub screen_size: Option<String>,
    pub is_mobile: bool,
}

/// Whether the lowercased user agent names a mobile device.
pub open spec fn spec_ua_mobile(lua: Seq<char>) -> bool {
    spec_contains_substr(lua, ("mobile")@) || spec_contains_substr(lua, ("android")@)
        || spec_contains_substr(lua, ("iphone")@)
}

/// Whether the lowercased user agent names a tablet.
pub open spec fn spec_ua_tablet(lua: Seq<char>) -> bool {
    spec_contains_substr(lua, ("tablet")@) || spec_contains_substr(lua, ("ipad")@)
}

/// The device class of a lowercased user agent: tablet wins over mobile,
/// desktop is the default.
pub open spec fn spec_device_type_of(lua: Seq<char>) -> DeviceType {
    if spec_ua_tablet(lua) {
        DeviceType::Tablet
    } else if spec_ua_mobile(lua) {
        DeviceType::Mobile
    } else {
        DeviceType::Desktop
    }
}

/// The platform named by a lowercased user agent, first match in a fixed
/// order.
pub open spec fn spec_platform_of(lua: Seq<char>) -> Option<Seq<char>> {
    if spec_contains_substr(lua, ("windows")@) {
        Some(("Windows")@)
    } else if spec_contains_substr(lua, ("mac")@) {
        Some(("macOS")@)
    } else if spec_contains_substr(lua, ("linux")@) {
        Some(("Linux")@)
    } else if spec_contains_substr(lua, ("android")@) {
        Some(("Android")@)
    } else if spec_contains_substr(lua, ("ios")@) || spec_contains_substr(lua, ("iphone")@) {
        Some(("iOS")@)
    } else {
        None
    }
}

/// The browser named by a lowercased user agent, first match in a fixed
/// order; Safari only without Chrome.
pub open spec fn spec_browser_of(lua: Seq<char>) -> Option<Seq<char>> {
    if spec_contains_substr(lua, ("chrome")@) {
        Some(("Chrome")@)
    } else if spec_contains_substr(lua, ("firefox")@) {
        Some(("Firefox")@)
    } else if spec_contains_substr(lua, ("safari")@) && !spec_contains_substr(lua, ("chrome")@) {
        Some(("Safari")@)
    } else if spec_contains_substr(lua, ("edge")@) {
        Some(("Edge")@)
    } else {
        None
    }
}

impl DeviceInfo {
    /// Derive the device from the user-agent string by ordered substring
    /// checks over its lowercase form.
    pub fn from_user_agent(user_agent: &str) -> (r: DeviceInfo)
        ensures
            r.device_type == spec_device_type_of(lower_of(user_agent@)),
            r.is_mobile == spec_ua_mobile(lower_of(user_agent@)),
            spec_opt_view(r.platform) == spec_platform_of(lower_of(user_agent@)),
            spec_opt_view(r.browser) == spec_browser_of(lower_of(user_agent@)),
            r.browser_version is None,
            r.screen_size is None,
    {
        let lua = lowercase(user_agent);
        let ls = lua.as_str();
        let is_mobile = contains_substr(ls, "mobile") || contains_substr(ls, "android")
            || contains_substr(ls, "iphone");
        let is_tablet = contains_substr(ls, "tablet") || contains_substr(ls, "ipad");
        let device_type = if is_tablet {
            DeviceType::Tablet
        } else if is_mobile {
            DeviceType::Mobile
        } else {
            DeviceType::Desktop
        };
        let platform = if contains_substr(ls, "windows") {
            Some("Windows".to_owned())
        } else if contains_substr(ls, "mac") {
            Some("macOS".to_owned())
        } else if contains_substr(ls, "linux") {
            Some("Linux".to_owned())
        } else if contains_substr(ls, "android") {
            Some("Android".to_owned())
        } else if contains_substr(ls, "ios") || contains_substr(ls, "iphone") {
            Some("iOS".to_owned())
        } else {
            None
        };
        let browser = if contains_substr(ls, "chrome") {
            Some("Chrome".to_owned())
        } else if contains_substr(ls, "firefox") {
            Some("Firefox".to_owned())
        } else if contains_substr(ls, "safari") && !contains_substr(ls, "chrome") {
            Some("Safari".to_owned())
        } else if contains_substr(ls, "edge") {
            Some("Edge".to_owned())
        } else {
            None
        };
        DeviceInfo { device_type, platform, browser, browser_version: None, screen_size: None, is_mobile }
    }

    /// A copy of this device description, field-wise the same.
    pub fn duplicate(&self) -> (r: DeviceInfo)
        ensures
            r.device_type == self.device_type,
            r.platform == self.platform,
            r.browser == self.browser,
            r.browser_version == self.browser_version,
            r.screen_size == self.screen_size,
            r.is_mobile == self.is_mobile,
    {
        DeviceInfo {
            device_type: self.device_type,
            platform: clone_opt_string(&self.platform),
            browser: clone_opt_string(&self.browser),
            browser_version: clone_opt_string(&self.browser_version),
            screen_size: clone_opt_string(&self.screen_size),
            is_mobile: self.is_mobile,
        }
    }
}

/// One immutable record of a single scan attempt.
#[derive(Debug, Clone)]
pub struct ScanEvent {
    /// The event's own document id (24 hex characters).
    pub id: String,
    pub property_id: String,
    /// The QR version recorded for the scan.
    pub qr_version: i32,
    pub scanned_at: i64,
    pub scan_source: ScanSource,
    pub user_agent: Option<String>,
    pub ip_address: Option<String>,
    pub geolocation: Option<GeoLocation>,
    pub device_info: Option<DeviceInfo>,
    pub session_id: Option<String>,
    pub referrer: Option<String>,
    pub redirect_success: bool,
    pub redirect_type: RedirectType,
    /// Response time in milliseconds.
    pub response_time: Option<i64>,
    /// Free-form key/value annotations.
    pub metadata: Vec<(String, String)>,
}

impl ScanEvent {
    /// A fresh event: successful until marked otherwise, stamped with the
    /// current time, nothing derived yet.
    pub fn new(
        property_id: String,
        qr_version: i32,
        scan_source: ScanSource,
        redirect_type: RedirectType,
    ) -> (r: ScanEvent)
        ensures
            r.id@.len() == 24,
            r.property_id == property_id,
            r.qr_version == qr_version,
            r.scan_source == scan_source,
            r.redirect_type == redirect_type,
            r.user_agent is None,
            r.ip_address is None,
            r.geolocation is None,
            r.device_info is None,
            r.session_id is None,
            r.referrer is None,
            r.redirect_success,
            r.response_time is None,
            r.metadata@.len() == 0,
    {
        ScanEvent {
            id: new_object_id_hex(),
            property_id,
            qr_version,
            scanned_at: now_unix(),
            scan_source,
            user_agent: None,
            ip_address: None,
            geolocation: None,
            device_info: None,
            session_id: None,
            referrer: None,
            redirect_success: true,
            redirect_type,
            response_time: None,
            metadata: Vec::new(),
        }
    }

    /// The event with its device description set; nothing else changes.
    pub fn with_device_info(self, device_info: DeviceInfo) -> (r: ScanEvent)
        ensures
            r == (ScanEvent { device_info: Some(device_info), ..self }),
    {
        ScanEvent { device_info: Some(device_info), ..self }
    }

    /// The event with its geolocation set; nothing else changes.
    pub fn with_geolocation(self, geolocation: GeoLocation) -> (r: ScanEvent)
        ensures
            r == (ScanEvent { geolocation: Some(geolocation), ..self }),
    {
        ScanEvent { geolocation: Some(geolocation), ..self }
    }

    /// The event with the request attributes set; nothing else changes.
    pub fn with_request_data(
        self,
        user_agent: Option<String>,
        ip_address: Option<String>,
        session_id: Option<String>,
        referrer: Option<String>,
    ) -> (r: ScanEvent)
        ensures
            r == (ScanEvent { user_agent, ip_address, session_id, referrer, ..self }),
    {
        ScanEvent { user_agent, ip_address, session_id, referrer, ..self }
    }

    /// The event with its response time set; nothing else changes.
    pub fn with_response_time(self, response_time: i64) -> (r: ScanEvent)
        ensures
            r == (ScanEvent { response_time: Some(response_time), ..self }),
    {
        ScanEvent { response_time: Some(response_time), ..self }
    }

    /// The event marked as a failed redirect; nothing else changes.
    pub fn mark_failed(self) -> (r: ScanEvent)
        ensures
            r == (ScanEvent {
                redirect_success: false,
                redirect_type: RedirectType::Failed,
                ..self
            }),
    {
        ScanEvent { redirect_success: false, redirect_type: RedirectType::Failed, ..self }
    }

    /// The event with one more annotation appended; nothing else changes.
    pub fn add_metadata(self, key: String, value: String) -> (r: ScanEvent)
        ensures
            r.metadata@ == self.metadata@.push((key, value)),
            r.id == self.id,
            r.property_id == self.property_id,
            r.qr_version == self.qr_version,
            r.scanned_at == self.scanned_at,
            r.scan_source == self.scan_source,
            r.user_agent == self.user_agent,
            r.ip_address == self.ip_address,
            r.geolocation == self.geolocation,
            r.device_info == self.device_info,
            r.session_id == self.session_id,
            r.referrer == self.referrer,
            r.redirect_success == self.redirect_success,
            r.redirect_type == self.redirect_type,
            r.response_time == self.response_time,
    {
        let mut e = self;
        e.metadata.push((key, value));
        e
    }

    /// A copy of this event, field-wise the same.
    pub fn duplicate(&self) -> (r: ScanEvent)
        ensures
            r.id == self.id,
            r.property_id == self.property_id,
            r.qr_version == self.qr_version,
            r.scanned_at == self.scanned_at,
            r.scan_source == self.scan_source,
            r.user_agent == self.user_agent,
            r.ip_address == self.ip_address,
            r.session_id == self.session_id,
            r.referrer == self.referrer,
            r.redirect_success == self.redirect_success,
            r.redirect_type == self.redirect_type,
            r.response_time == self.response_time,
            r.metadata@ == self.metadata@,
    {
        let geolocation = match &self.geolocation {
            Some(g) => Some(
                GeoLocation {
                    country: clone_opt_string(&g.country),
                    region: clone_opt_string(&g.region),
                    city: clone_opt_string(&g.city),
                    latitude_microdeg: g.latitude_microdeg,
                    longitude_microdeg: g.longitude_microdeg,
                    timezone: clone_opt_string(&g.timezone),
                },
            ),
            None => None,
        };
        let device_info = match &self.device_info {
            Some(d) => Some(d.duplicate()),
            None => None,
        };
        ScanEvent {
            id: self.id.clone(),
            property_id: self.property_id.clone(),
            qr_version: self.qr_version,
            scanned_at: self.scanned_at,
            scan_source: self.scan_source,
            user_agent: clone_opt_string(&self.user_agent),
            ip_address: clone_opt_string(&self.ip_address),
            geolocation,
            device_info,
            session_id: clone_opt_string(&self.session_id),
            referrer: clone_opt_string(&self.referrer),
            redirect_success: self.redirect_success,
            redirect_type: self.redirect_type,
            response_time: self.response_time,
            metadata: clone_vec_string_pairs(&self.metadata),
        }
    }
}

/// Scan counts by device class.
#[derive(Debug, Clone, Copy, PartialEq, Eq, Structural)]
pub struct DeviceBreakdown {
    pub mobile: i64,
    pub desktop: i64,
    pub tablet: i64,
    pub unknown: i64,
}

/// Scan counts of one country, its share in basis points.
#[derive(Debug, Clone)]
pub struct CountryStats {
    pub country: String,
    pub count: i64,
    pub percentage_bp: i64,
}

/// Scans of one calendar day.
#[derive(Debug, Clone)]
pub struct DailyScanCount {
    /// `YYYY-MM-DD`.
    pub date: String,
    pub count: i64,
}

/// Saturating addition within i64.
pub open spec fn spec_sat_add(a: int, b: int) -> int {
    if a + b > i64::MAX {
        i64::MAX as int
    } else if a + b < i64::MIN {
        i64::MIN as int
    } else {
        a + b
    }
}

/// The rolling per-property aggregate, updated once per recorded event.
#[derive(Debug, Clone)]
pub struct PropertyScanAnalytics {
    /// The aggregate's own document id (24 hex characters).
    pub id: String,
    pub property_id: String,
    pub total_scans: i64,
    /// Declared but never derived from distinct visitors: stays as
    /// initialized.
    pub unique_scans: i64,
    pub last_scanned: Option<i64>,
    pub first_scanned: Option<i64>,
    pub scans_today: i64,
    pub scans_this_week: i64,
    pub scans_this_month: i64,
    pub top_countries: Vec<CountryStats>,
    pub device_breakdown: DeviceBreakdown,
    pub scan_trends: Vec<DailyScanCount>,
    /// Sum and count behind the average response time.
    pub response_time_sum: i64,
    pub response_time_count: i64,
    /// How many recorded events were successful redirects: the exact
    /// numerator of the success rate.
    pub successful_scans: i64,
    /// The running success rate in basis points: always exactly
    /// `successful_scans * 10000 / total_scans` (100% before any scan).
    pub success_rate_bp: i64,
    pub last_updated: i64,
}

impl PropertyScanAnalytics {
    /// The aggregate's internal consistency: counters are non-negative, no
    /// per-bucket count exceeds the total, and the success rate is the exact
    /// mean of per-event success.
    pub open spec fn wf(&self) -> bool {
        &&& 0 <= self.total_scans
        &&& 0 <= self.device_breakdown.mobile
        &&& 0 <= self.device_breakdown.desktop
        &&& 0 <= self.device_breakdown.tablet
        &&& 0 <= self.device_breakdown.unknown
        &&& self.device_breakdown.mobile + self.device_breakdown.desktop
            + self.device_breakdown.tablet + self.device_breakdown.unknown <= self.total_scans
        &&& 0 <= self.successful_scans <= self.total_scans
        &&& 0 <= self.response_time_count <= self.total_scans
        &&& 0 <= self.scans_today <= self.total_scans
        &&& 0 <= self.scans_this_week <= self.total_scans
        &&& 0 <= self.scans_this_month <= self.total_scans
        &&& self.success_rate_bp == (if self.total_scans == 0 {
            10000int
        } else {
            self.successful_scans * 10000 / (self.total_scans as int)
        })
    }

    /// A fresh aggregate for `property_id`: all counters zero, success rate
    /// 100%.
    pub fn new(property_id: String) -> (r: PropertyScanAnalytics)
        ensures
            r.wf(),
            r.id@.len() == 24,
            r.property_id == property_id,
            r.total_scans == 0,
            r.unique_scans == 0,
            r.last_scanned is None,
            r.first_scanned is None,
            r.scans_today == 0,
            r.scans_this_week == 0,
            r.scans_this_month == 0,
            r.top_countries@.len() == 0,
            r.device_breakdown == (DeviceBreakdown { mobile: 0, desktop: 0, tablet: 0, unknown: 0 }),
            r.scan_trends@.len() == 0,
            r.response_time_sum == 0,
            r.response_time_count == 0,
            r.successful_scans == 0,
            r.success_rate_bp == 10000,
    {
        PropertyScanAnalytics {
            id: new_object_id_hex(),
            property_id,
            total_scans: 0,
            unique_scans: 0,
            last_scanned: None,
            first_scanned: None,
            scans_today: 0,
            scans_this_week: 0,
            scans_this_month: 0,
            top_countries: Vec::new(),
            device_breakdown: DeviceBreakdown { mobile: 0, desktop: 0, tablet: 0, unknown: 0 },
            scan_trends: Vec::new(),
            response_time_sum: 0,
            response_time_count: 0,
            successful_scans: 0,
            success_rate_bp: 10000,
            last_updated: now_unix(),
        }
    }

    /// Fold one scan event into the aggregate: the total grows by 1, the
    /// event's device bucket grows by 1, the success numerator counts the
    /// event, and the success rate is recomputed as the exact mean.
    pub fn update_with_scan(&mut self, scan_event: &ScanEvent)
        requires
            old(self).wf(),
            old(self).total_scans < i64::MAX,
        ensures
            final (self).wf(),
            final (self).total_scans == old(self).total_scans + 1,
            final (self).last_scanned == Some(scan_event.scanned_at),
            final (self).first_scanned == (if old(self).first_scanned is None {
                Some(scan_event.scanned_at)
            } else {
                old(self).first_scanned
            }),
            final (self).successful_scans == old(self).successful_scans + (
            if scan_event.redirect_success {
                1int
            } else {
                0int
            }),
            final (self).success_rate_bp == final (self).successful_scans * 10000 / (final (
            self).total_scans as int),
            final (self).device_breakdown == (match scan_event.device_info {
                Some(di) => match di.device_type {
                    DeviceType::Mobile => DeviceBreakdown {
                        mobile: (old(self).device_breakdown.mobile + 1) as i64,
                        ..old(self).device_breakdown
                    },
                    DeviceType::Desktop => DeviceBreakdown {
                        desktop: (old(self).device_breakdown.desktop + 1) as i64,
                        ..old(self).device_breakdown
                    },
                    DeviceType::Tablet => DeviceBreakdown {
                        tablet: (old(self).device_breakdown.tablet + 1) as i64,
                        ..old(self).device_breakdown
                    },
                    DeviceType::Unknown => DeviceBreakdown {
                        unknown: (old(self).device_breakdown.unknown + 1) as i64,
                        ..old(self).device_breakdown
                    },
                },
                None => old(self).device_breakdown,
            }),
            final (self).response_time_count == old(self).response_time_count + (
            match scan_event.response_time {
                Some(_) => 1int,
                None => 0int,
            }),
            final (self).response_time_sum == (match scan_event.response_time {
                Some(t) => spec_sat_add(old(self).response_time_sum as int, t as int),
                None => old(self).response_time_sum as int,
            }),
            final (self).id == old(self).id,
            final (self).property_id == old(self).property_id,
            final (self).unique_scans == old(self).unique_scans,
            final (self).scans_today == old(self).scans_today,
            final (self).scans_this_week == old(self).scans_this_week,
            final (self).scans_this_month == old(self).scans_this_month,
            final (self).top_countries == old(self).top_countries,
            final (self).scan_trends == old(self).scan_trends,
    {
        self.total_scans = self.total_scans + 1;
        self.last_scanned = Some(scan_event.scanned_at);
        if self.first_scanned.is_none() {
            self.first_scanned = Some(scan_event.scanned_at);
        }
        match &scan_event.device_info {
            Some(device_info) => {
                match device_info.device_type {
                    DeviceType::Mobile => {
                        self.device_breakdown.mobile = self.device_breakdown.mobile + 1;
                    },
                    DeviceType::Desktop => {
                        self.device_breakdown.desktop = self.device_breakdown.desktop + 1;
                    },
                    DeviceType::Tablet => {
                        self.device_breakdown.tablet = self.device_breakdown.tablet + 1;
                    },
                    DeviceType::Unknown => {
                        self.device_breakdown.unknown = self.device_breakdown.unknown + 1;
                    },
                }
            },
            None => (),
        }
        if scan_event.redirect_success {
            self.successful_scans = self.successful_scans + 1;
        }
        proof {
            assert(0 <= (self.successful_scans as int) * 10000 / (self.total_scans as int)
                <= 10000) by (nonlinear_arith)
                requires
                    0 < self.total_scans,
                    0 <= self.successful_scans <= self.total_scans,
            ;
        }
        let num: u128 = (self.successful_scans as u128) * 10000;
        let rate: u128 = num / (self.total_scans as u128);
        self.success_rate_bp = rate as i64;
        match scan_event.response_time {
            Some(t) => {
                self.response_time_count = self.response_time_count + 1;
                let wide: i128 = (self.response_time_sum as i128) + (t as i128);
                self.response_time_sum = if wide > i64::MAX as i128 {
                    i64::MAX
                } else if wide < i64::MIN as i128 {
                    i64::MIN
                } else {
                    wide as i64
                };
            },
            None => (),
        }
        self.last_updated = now_unix();
        proof {
        }
    }

    /// The mean response time of the counted events, in milliseconds.
    pub fn average_response_time(&self) -> (r: Option<i64>)
        requires
            self.wf(),
        ensures
            self.response_time_count == 0 ==> r is None,
            self.response_time_count > 0 ==> r is Some,
            self.response_time_count > 0 && self.response_time_sum >= 0 ==> r == Some(
                (self.response_time_sum as int / self.response_time_count as int) as i64,
            ),
    {
        if self.response_time_count > 0 {
            Some(self.response_time_sum / self.response_time_count)
        } else {
            None
        }
    }
}

/// The running numerator and total that the incremental update maintains.
pub open spec fn spec_fold_counts(events: Seq<ScanEvent>) -> (int, int)
    decreases events.len(),
{
    if events.len() == 0 {
        (0int, 0int)
    } else {
        let rest = spec_fold_counts(events.drop_last());
        (rest.0 + 1, rest.1 + (if events.last().redirect_success {
            1int
        } else {
            0int
        }))
    }
}

/// How many events of the sequence were successful redirects, counted in one
/// batch pass.
pub open spec fn spec_count_success(events: Seq<ScanEvent>) -> int
    decreases events.len(),
{
    if events.len() == 0 {
        0
    } else {
        spec_count_success(events.drop_last()) + (if events.last().redirect_success {
            1int
        } else {
            0int
        })
    }
}

/// Incremental mean equals batch mean: folding events one at a time, as
/// `update_with_scan` does, yields exactly the total and the success count
/// that a single batch pass computes — so the exact success rate
/// `successful * 10000 / total` agrees however it is computed.
pub proof fn lemma_success_rate_incremental_matches_batch(events: Seq<ScanEvent>)
    ensures
        spec_fold_counts(events).0 == events.len(),
        spec_fold_counts(events).1 == spec_count_success(events),
    decreases events.len(),
{
    if events.len() > 0 {
        lemma_success_rate_incremental_matches_batch(events.drop_last());
    }
}

/// The process-wide analytics document.
#[derive(Debug, Clone)]
pub struct SystemAnalytics {
    /// The document's own id (24 hex characters).
    pub id: String,
    pub total_properties: i64,
    pub properties_with_qr: i64,
    pub total_scans_all_time: i64,
    pub total_scans_today: i64,
    pub total_scans_this_week: i64,
    pub total_scans_this_month: i64,
    /// Mean scans per property in basis points; not derived here.
    pub average_scans_per_property_bp: i64,
    pub top_performing_properties: Vec<PropertyPerformance>,
    pub qr_generation_stats: QrGenerationStats,
    pub last_updated: i64,
}

/// One row of the leaderboard.
#[derive(Debug, Clone)]
pub struct PropertyPerformance {
    pub property_id: String,
    pub property_name: String,
    pub total_scans: i64,
    pub unique_scans: i64,
    pub success_rate_bp: i64,
}

/// Counters over QR generation.
#[derive(Debug, Clone, Copy, PartialEq, Eq, Structural)]
pub struct QrGenerationStats {
    pub total_generated: i64,
    pub generated_today: i64,
    pub generated_this_week: i64,
    pub generated_this_month: i64,
    pub average_generation_time_ms: Option<i64>,
    pub failure_rate_bp: i64,
}

/// Per-property analytics with the recent raw events.
#[derive(Debug, Clone)]
pub struct ScanAnalyticsResponse {
    pub property_id: String,
    pub analytics: PropertyScanAnalytics,
    pub recent_scans: Vec<ScanEvent>,
}

/// System analytics with an optional period comparison.
#[derive(Debug, Clone)]
pub struct SystemAnalyticsResponse {
    pub system: SystemAnalytics,
    pub period_comparison: Option<PeriodComparison>,
}

/// The last 30 days against the 30 before them.
#[derive(Debug, Clone, Copy, PartialEq, Eq, Structural)]
pub struct PeriodComparison {
    pub current_period: PeriodStats,
    pub previous_period: PeriodStats,
    /// Relative change in basis points, saturating.
    pub percentage_change_bp: i64,
}

/// Scan counts of one 30-day period.
#[derive(Debug, Clone, Copy, PartialEq, Eq, Structural)]
pub struct PeriodStats {
    pub total_scans: i64,
    pub unique_scans: i64,
    pub average_scans_per_day: i64,
}

impl PropertyScanAnalytics {
    /// A copy of this aggregate with the same counters.
    pub fn duplicate(&self) -> (r: PropertyScanAnalytics)
        ensures
            r.id == self.id,
            r.property_id == self.property_id,
            r.total_scans == self.total_scans,
            r.unique_scans == self.unique_scans,
            r.last_scanned == self.last_scanned,
            r.first_scanned == self.first_scanned,
            r.scans_today == self.scans_today,
            r.scans_this_week == self.scans_this_week,
            r.scans_this_month == self.scans_this_month,
            r.device_breakdown == self.device_breakdown,
            r.response_time_sum == self.response_time_sum,
            r.response_time_count == self.response_time_count,
            r.successful_scans == self.successful_scans,
            r.success_rate_bp == self.success_rate_bp,
            r.last_updated == self.last_updated,
            self.wf() ==> r.wf(),
    {
        let mut top_countries: Vec<CountryStats> = Vec::new();
        let mut i: usize = 0;
        while i < self.top_countries.len()
            invariant
                0 <= i <= self.top_countries@.len(),
            decreases self.top_countries@.len() - i,
        {
            let c = &self.top_countries[i];
            top_countries.push(
                CountryStats {
                    country: c.country.clone(),
                    count: c.count,
                    percentage_bp: c.percentage_bp,
                },
            );
            i += 1;
        }
        let mut scan_trends: Vec<DailyScanCount> = Vec::new();
        let mut j: usize = 0;
        while j < self.scan_trends.len()
            invariant
                0 <= j <= self.scan_trends@.len(),
            decreases self.scan_trends@.len() - j,
        {
            let d = &self.scan_trends[j];
            scan_trends.push(DailyScanCount { date: d.date.clone(), count: d.count });
            j += 1;
        }
        PropertyScanAnalytics {
            id: self.id.clone(),
            property_id: self.property_id.clone(),
            total_scans: self.total_scans,
            unique_scans: self.unique_scans,
            last_scanned: self.last_scanned,
            first_scanned: self.first_scanned,
            scans_today: self.scans_today,
            scans_this_week: self.scans_this_week,
            scans_this_month: self.scans_this_month,
            top_countries,
            device_breakdown: self.device_breakdown,
            scan_trends,
            response_time_sum: self.response_time_sum,
            response_time_count: self.response_time_count,
            successful_scans: self.successful_scans,
            success_rate_bp: self.success_rate_bp,
            last_updated: self.last_updated,
        }
    }
}

impl SystemAnalytics {
    /// A copy of this document with the same counters.
    pub fn duplicate(&self) -> (r: SystemAnalytics)
        ensures
            r.total_scans_all_time == self.total_scans_all_time,
            r.total_scans_today == self.total_scans_today,
            r.total_properties == self.total_properties,
            r.properties_with_qr == self.properties_with_qr,
            r.qr_generation_stats == self.qr_generation_stats,
            r.top_performing_properties@.len() == self.top_performing_properties@.len(),
    {
        let mut top: Vec<PropertyPerformance> = Vec::new();
        let mut i: usize = 0;
        while i < self.top_performing_properties.len()
            invariant
                0 <= i <= self.top_performing_properties@.len(),
                top@.len() == i,
            decreases self.top_performing_properties@.len() - i,
        {
            let p = &self.top_performing_properties[i];
            top.push(
                PropertyPerformance {
                    property_id: p.property_id.clone(),
                    property_name: p.property_name.clone(),
                    total_scans: p.total_scans,
                    unique_scans: p.unique_scans,
                    success_rate_bp: p.success_rate_bp,
                },
            );
            i += 1;
        }
        SystemAnalytics {
            id: self.id.clone(),
            total_properties: self.total_properties,
            properties_with_qr: self.properties_with_qr,
            total_scans_all_time: self.total_scans_all_time,
            total_scans_today: self.total_scans_today,
            total_scans_this_week: self.total_scans_this_week,
            total_scans_this_month: self.total_scans_this_month,
            average_scans_per_property_bp: self.average_scans_per_property_bp,
            top_performing_properties: top,
            qr_generation_stats: self.qr_generation_stats,
            last_updated: self.last_updated,
        }
    }
}

/// Why an analytics operation failed; the in-memory service never produces
/// one.
#[derive(Debug, Clone)]
pub enum AnalyticsError {
    StorageError(String),
}

/// How many events of the sequence were scanned at or after `cutoff`.
pub open spec fn spec_count_since(events: Seq<ScanEvent>, cutoff: int) -> int
    decreases events.len(),
{
    if events.len() == 0 {
        0
    } else {
        spec_count_since(events.drop_last(), cutoff) + (if events.last().scanned_at >= cutoff {
            1int
        } else {
            0int
        })
    }
}

/// How many events of the sequence were scanned in `[from, to)`.
pub open spec fn spec_count_range(events: Seq<ScanEvent>, from: int, to: int) -> int
    decreases events.len(),
{
    if events.len() == 0 {
        0
    } else {
        spec_count_range(events.drop_last(), from, to) + (
        if events.last().scanned_at >= from && events.last().scanned_at < to {
            1int
        } else {
            0int
        })
    }
}

/// Counts over a prefix never exceed its length.
proof fn lemma_count_since_bound(events: Seq<ScanEvent>, cutoff: int)
    ensures
        0 <= spec_count_since(events, cutoff) <= events.len(),
    decreases events.len(),
{
    if events.len() > 0 {
        lemma_count_since_bound(events.drop_last(), cutoff);
    }
}

proof fn lemma_count_range_bound(events: Seq<ScanEvent>, from: int, to: int)
    ensures
        0 <= spec_count_range(events, from, to) <= events.len(),
    decreases events.len(),
{
    if events.len() > 0 {
        lemma_count_range_bound(events.drop_last(), from, to);
    }
}

/// The effective cutoff `days` days before `now`, clamped to the i64 range.
pub open spec fn spec_cutoff(now: int, days: int) -> int {
    let w = now - days * 86400;
    if w < i64::MIN as int {
        i64::MIN as int
    } else if w > i64::MAX as int {
        i64::MAX as int
    } else {
        w
    }
}

/// Whether an event counts for the leaderboard: at or after the cutoff and a
/// successful redirect.
pub open spec fn spec_counts_success(e: ScanEvent, cutoff: int) -> bool {
    e.scanned_at >= cutoff && e.redirect_success
}

/// How many successful events of property `pid` lie at or after `cutoff`.
pub open spec fn spec_success_count_for(events: Seq<ScanEvent>, pid: Seq<char>, cutoff: int) -> int
    decreases events.len(),
{
    if events.len() == 0 {
        0
    } else {
        spec_success_count_for(events.drop_last(), pid, cutoff) + (
        if spec_counts_success(events.last(), cutoff) && events.last().property_id@ == pid {
            1int
        } else {
            0int
        })
    }
}

/// Whether some row of the leaderboard names property `pid`.
pub open spec fn spec_perf_listed(rows: Seq<PropertyPerformance>, pid: Seq<char>) -> bool {
    exists|k: int| 0 <= k < rows.len() && #[trigger] rows[k].property_id@ == pid
}

/// The leaderboard shape at a cutoff: at most `limit` rows, ranked by their
/// exact successful-scan counts since the cutoff, one row per property, and
/// no property with a qualifying event is missing unless the limit cut it.
pub open spec fn spec_leaderboard_ok(
    events: Seq<ScanEvent>,
    rows: Seq<PropertyPerformance>,
    limit: int,
    cutoff: int,
) -> bool {
    &&& rows.len() <= limit
    &&& (forall|a: int, b: int|
        0 <= a < b < rows.len() ==> #[trigger] rows[a].total_scans
            >= #[trigger] rows[b].total_scans)
    &&& (forall|a: int, b: int|
        0 <= a < b < rows.len() ==> #[trigger] rows[a].property_id@
            != #[trigger] rows[b].property_id@)
    &&& (forall|k: int|
        0 <= k < rows.len() ==> (#[trigger] rows[k]).total_scans == spec_success_count_for(
            events,
            rows[k].property_id@,
            cutoff,
        ) && rows[k].total_scans >= 1 && rows[k].success_rate_bp == 10000)
    &&& (forall|j: int|
        0 <= j < events.len() && spec_counts_success(#[trigger] events[j], cutoff)
            ==> spec_perf_listed(rows, events[j].property_id@) || rows.len() == limit)
}

proof fn lemma_success_count_bound(events: Seq<ScanEvent>, pid: Seq<char>, cutoff: int)
    ensures
        0 <= spec_success_count_for(events, pid, cutoff) <= events.len(),
    decreases events.len(),
{
    if events.len() > 0 {
        lemma_success_count_bound(events.drop_last(), pid, cutoff);
    }
}

/// A property none of whose qualifying events appear has count zero.
proof fn lemma_success_count_zero(events: Seq<ScanEvent>, pid: Seq<char>, cutoff: int)
    requires
        forall|j: int|
            0 <= j < events.len() && spec_counts_success(#[trigger] events[j], cutoff)
                ==> events[j].property_id@ != pid,
    ensures
        spec_success_count_for(events, pid, cutoff) == 0,
    decreases events.len(),
{
    if events.len() > 0 {
        assert forall|j: int|
            0 <= j < events.drop_last().len() && spec_counts_success(
                #[trigger] events.drop_last()[j],
                cutoff,
            ) implies events.drop_last()[j].property_id@ != pid by {
            assert(events.drop_last()[j] == events[j]);
        }
        lemma_success_count_zero(events.drop_last(), pid, cutoff);
        assert(events.last() == events[events.len() - 1]);
    }
}

/// Whether an event belongs to a property's trend series: the property
/// matches and the event lies at or after the cutoff.
pub open spec fn spec_trend_event(e: ScanEvent, pid: Seq<char>, cutoff: int) -> bool {
    e.property_id@ == pid && e.scanned_at >= cutoff
}

/// How many of property `pid`'s events since `cutoff` fall on day `dn`.
pub open spec fn spec_day_count_for(
    events: Seq<ScanEvent>,
    pid: Seq<char>,
    dn: int,
    cutoff: int,
) -> int
    decreases events.len(),
{
    if events.len() == 0 {
        0
    } else {
        spec_day_count_for(events.drop_last(), pid, dn, cutoff) + (
        if spec_trend_event(events.last(), pid, cutoff) && spec_day_number(
            events.last().scanned_at,
        ) == dn {
            1int
        } else {
            0int
        })
    }
}

/// How many of property `pid`'s events lie at or after `cutoff`.
pub open spec fn spec_matching_count(events: Seq<ScanEvent>, pid: Seq<char>, cutoff: int) -> int
    decreases events.len(),
{
    if events.len() == 0 {
        0
    } else {
        spec_matching_count(events.drop_last(), pid, cutoff) + (
        if spec_trend_event(events.last(), pid, cutoff) {
            1int
        } else {
            0int
        })
    }
}

/// The trend series shape at a cutoff: one row per scanned day `days_list[k]`
/// (strictly ascending, so earliest first), each row rendering its day and
/// counting exactly that day's events, and no scanned day missing.
pub open spec fn spec_trends_ok(
    events: Seq<ScanEvent>,
    pid: Seq<char>,
    rows: Seq<DailyScanCount>,
    days_list: Seq<i64>,
    cutoff: int,
) -> bool {
    &&& rows.len() == days_list.len()
    &&& (forall|a: int, b: int|
        0 <= a < b < days_list.len() ==> #[trigger] days_list[a] < #[trigger] days_list[b])
    &&& (forall|k: int|
        0 <= k < rows.len() ==> (#[trigger] rows[k]).date@ == date_str_of(days_list[k])
            && rows[k].count == spec_day_count_for(events, pid, days_list[k] as int, cutoff)
            && rows[k].count >= 1)
    &&& (forall|j: int|
        0 <= j < events.len() && spec_trend_event(#[trigger] events[j], pid, cutoff)
            ==> exists|k: int|
            0 <= k < days_list.len() && #[trigger] days_list[k] as int == spec_day_number(
                events[j].scanned_at,
            ))
}

proof fn lemma_day_count_bound(events: Seq<ScanEvent>, pid: Seq<char>, dn: int, cutoff: int)
    ensures
        0 <= spec_day_count_for(events, pid, dn, cutoff) <= events.len(),
    decreases events.len(),
{
    if events.len() > 0 {
        lemma_day_count_bound(events.drop_last(), pid, dn, cutoff);
    }
}

/// A day on which none of the qualifying events fall has count zero.
proof fn lemma_day_count_zero(events: Seq<ScanEvent>, pid: Seq<char>, dn: int, cutoff: int)
    requires
        forall|j: int|
            0 <= j < events.len() && spec_trend_event(#[trigger] events[j], pid, cutoff)
                ==> spec_day_number(events[j].scanned_at) != dn,
    ensures
        spec_day_count_for(events, pid, dn, cutoff) == 0,
    decreases events.len(),
{
    if events.len() > 0 {
        assert forall|j: int|
            0 <= j < events.drop_last().len() && spec_trend_event(
                #[trigger] events.drop_last()[j],
                pid,
                cutoff,
            ) implies spec_day_number(events.drop_last()[j].scanned_at) != dn by {
            assert(events.drop_last()[j] == events[j]);
        }
        lemma_day_count_zero(events.drop_last(), pid, dn, cutoff);
        assert(events.last() == events[events.len() - 1]);
    }
}

/// Whether an event counts for the geographic distribution: the property
/// filter matches, the event lies at or after the cutoff, and a country was
/// derived for it.
pub open spec fn spec_country_event(e: ScanEvent, pid: Option<Seq<char>>, cutoff: int) -> bool {
    &&& (match pid {
        Some(p) => e.property_id@ == p,
        None => true,
    })
    &&& e.scanned_at >= cutoff
    &&& (e.geolocation matches Some(g) && g.country is Some)
}

/// Whether any event counts for the geographic distribution.
pub open spec fn spec_has_country_event(
    events: Seq<ScanEvent>,
    pid: Option<Seq<char>>,
    cutoff: int,
) -> bool {
    exists|j: int| 0 <= j < events.len() && spec_country_event(#[trigger] events[j], pid, cutoff)
}

/// The scan analytics aggregator: raw events, one rolling aggregate per
/// property, and the process-wide document.
pub struct AnalyticsService {
    scan_events: Vec<ScanEvent>,
    property_analytics: Vec<PropertyScanAnalytics>,
    system_analytics: Option<SystemAnalytics>,
}

impl AnalyticsService {
    /// The recorded events, oldest first.
    pub closed spec fn spec_events(&self) -> Seq<ScanEvent> {
        self.scan_events@
    }

    /// The per-property aggregates.
    pub closed spec fn spec_pa(&self) -> Seq<PropertyScanAnalytics> {
        self.property_analytics@
    }

    /// The process-wide document, once one exists.
    pub closed spec fn spec_sys(&self) -> Option<SystemAnalytics> {
        self.system_analytics
    }

    /// One aggregate per property id, each internally consistent.
    pub open spec fn wf(&self) -> bool {
        &&& forall|i: int, j: int|
            0 <= i < j < self.spec_pa().len() ==> #[trigger] self.spec_pa()[i].property_id@
                != #[trigger] self.spec_pa()[j].property_id@
        &&& forall|i: int| 0 <= i < self.spec_pa().len() ==> (#[trigger] self.spec_pa()[i]).wf()
    }

    /// Whether an aggregate for `pid` exists.
    pub open spec fn spec_pa_has(&self, pid: Seq<char>) -> bool {
        exists|i: int|
            0 <= i < self.spec_pa().len() && #[trigger] self.spec_pa()[i].property_id@ == pid
    }

    /// The aggregate of property `pid`.
    pub open spec fn spec_pa_get(&self, pid: Seq<char>) -> PropertyScanAnalytics {
        self.spec_pa()[choose|i: int|
            0 <= i < self.spec_pa().len() && #[trigger] self.spec_pa()[i].property_id@ == pid]
    }

    /// An empty aggregator.
    pub fn new() -> (r: AnalyticsService)
        ensures
            r.wf(),
            r.spec_events().len() == 0,
            r.spec_pa().len() == 0,
            r.spec_sys() is None,
            forall|pid: Seq<char>| !r.spec_pa_has(pid),
    {
        AnalyticsService {
            scan_events: Vec::new(),
            property_analytics: Vec::new(),
            system_analytics: None,
        }
    }

    /// Two service states with the same aggregates agree on lookup.
    proof fn lemma_pa_same(a: AnalyticsService, b: AnalyticsService)
        requires
            a.spec_pa() == b.spec_pa(),
            a.wf(),
        ensures
            forall|q: Seq<char>|
                #![trigger a.spec_pa_has(q)]
                #![trigger b.spec_pa_has(q)]
                a.spec_pa_has(q) == b.spec_pa_has(q),
            forall|q: Seq<char>|
                #![trigger a.spec_pa_get(q)]
                #![trigger b.spec_pa_get(q)]
                a.spec_pa_has(q) ==> a.spec_pa_get(q) == b.spec_pa_get(q),
    {
        assert forall|q: Seq<char>|
            #![trigger a.spec_pa_has(q)]
            #![trigger b.spec_pa_has(q)]
            a.spec_pa_has(q) == b.spec_pa_has(q) by {
            if a.spec_pa_has(q) {
                let k = choose|k: int|
                    0 <= k < a.spec_pa().len() && #[trigger] a.spec_pa()[k].property_id@ == q;
                assert(b.spec_pa()[k].property_id@ == q);
            }
            if b.spec_pa_has(q) {
                let k = choose|k: int|
                    0 <= k < b.spec_pa().len() && #[trigger] b.spec_pa()[k].property_id@ == q;
                assert(a.spec_pa()[k].property_id@ == q);
            }
        }
        assert forall|q: Seq<char>|
            #![trigger a.spec_pa_get(q)]
            #![trigger b.spec_pa_get(q)]
            a.spec_pa_has(q) implies a.spec_pa_get(q) == b.spec_pa_get(q) by {
            let ka = choose|k: int|
                0 <= k < a.spec_pa().len() && #[trigger] a.spec_pa()[k].property_id@ == q;
            let kb = choose|k: int|
                0 <= k < b.spec_pa().len() && #[trigger] b.spec_pa()[k].property_id@ == q;
            assert(a.spec_pa()[kb].property_id@ == q);
            if ka != kb {
                if ka < kb {
                    assert(a.spec_pa()[ka].property_id@ != a.spec_pa()[kb].property_id@);
                } else {
                    assert(a.spec_pa()[kb].property_id@ != a.spec_pa()[ka].property_id@);
                }
            }
        }
    }

    /// The stored aggregate index holding `pid` is the one `spec_pa_get`
    /// picks.
    proof fn lemma_pa_at(&self, i: int)
        requires
            self.wf(),
            0 <= i < self.spec_pa().len(),
        ensures
            self.spec_pa_has(self.spec_pa()[i].property_id@),
            self.spec_pa_get(self.spec_pa()[i].property_id@) == self.spec_pa()[i],
    {
        let pid = self.spec_pa()[i].property_id@;
        let k = choose|k: int|
            0 <= k < self.spec_pa().len() && #[trigger] self.spec_pa()[k].property_id@ == pid;
        if k != i {
            if k < i {
                assert(self.spec_pa()[k].property_id@ != self.spec_pa()[i].property_id@);
            } else {
                assert(self.spec_pa()[i].property_id@ != self.spec_pa()[k].property_id@);
            }
        }
    }

    fn find_pa_index(&self, property_id: &str) -> (r: Option<usize>)
        ensures
            match r {
                Some(i) => i < self.spec_pa().len() && self.spec_pa()[i as int].property_id@
                    == property_id@,
                None => !self.spec_pa_has(property_id@),
            },
    {
        let mut i: usize = 0;
        while i < self.property_analytics.len()
            invariant
                0 <= i <= self.spec_pa().len(),
                forall|j: int|
                    0 <= j < i ==> #[trigger] self.spec_pa()[j].property_id@ != property_id@,
            decreases self.spec_pa().len() - i,
        {
            if str_eq(self.property_analytics[i].property_id.as_str(), property_id) {
                return Some(i);
            }
            i += 1;
        }
        None
    }

    /// Fold `scan_event` into the aggregate of `property_id`, creating the
    /// aggregate on its first event. The day, week and month counters grow
    /// exactly when the event falls at or after the boundary that `now`
    /// fixes. Other properties' aggregates are untouched.
    pub fn update_property_analytics_at(
        &mut self,
        property_id: &str,
        scan_event: &ScanEvent,
        now: i64,
    )
        requires
            old(self).wf(),
            old(self).spec_pa_has(property_id@) ==> old(self).spec_pa_get(
                property_id@,
            ).total_scans < i64::MAX,
        ensures
            final (self).wf(),
            final (self).spec_events() == old(self).spec_events(),
            final (self).spec_sys() == old(self).spec_sys(),
            final (self).spec_pa_has(property_id@),
            ({
                let post = final (self).spec_pa_get(property_id@);
                let pre_total: int = if old(self).spec_pa_has(property_id@) {
                    old(self).spec_pa_get(property_id@).total_scans as int
                } else {
                    0
                };
                let pre_succ: int = if old(self).spec_pa_has(property_id@) {
                    old(self).spec_pa_get(property_id@).successful_scans as int
                } else {
                    0
                };
                let pre_today: int = if old(self).spec_pa_has(property_id@) {
                    old(self).spec_pa_get(property_id@).scans_today as int
                } else {
                    0
                };
                let pre_week: int = if old(self).spec_pa_has(property_id@) {
                    old(self).spec_pa_get(property_id@).scans_this_week as int
                } else {
                    0
                };
                let pre_month: int = if old(self).spec_pa_has(property_id@) {
                    old(self).spec_pa_get(property_id@).scans_this_month as int
                } else {
                    0
                };
                &&& post.property_id@ == property_id@
                &&& post.total_scans == pre_total + 1
                &&& post.successful_scans == pre_succ + (if scan_event.redirect_success {
                    1int
                } else {
                    0int
                })
                &&& post.success_rate_bp == post.successful_scans * 10000 / (
                post.total_scans as int)
                &&& post.last_scanned == Some(scan_event.scanned_at)
                &&& post.scans_today == pre_today + (
                if scan_event.scanned_at >= spec_day_start(now) {
                    1int
                } else {
                    0int
                })
                &&& post.scans_this_week == pre_week + (
                if scan_event.scanned_at >= spec_week_start(now) {
                    1int
                } else {
                    0int
                })
                &&& post.scans_this_month == pre_month + (
                if scan_event.scanned_at >= month_start_of(now) {
                    1int
                } else {
                    0int
                })
            }),
            forall|q: Seq<char>|
                q != property_id@ ==> #[trigger] final (self).spec_pa_has(q) == old(
                    self,
                ).spec_pa_has(q),
            forall|q: Seq<char>|
                q != property_id@ && old(self).spec_pa_has(q) ==> #[trigger] final (
                self).spec_pa_get(q) == old(self).spec_pa_get(q),
    {
        let ghost pre = *self;
        let today_start = day_start(now);
        let week_start_ts = week_start(now);
        let month_start_ts = month_start(now);
        let idx = self.find_pa_index(property_id);
        match idx {
            Some(i) => {
                proof {
                    pre.lemma_pa_at(i as int);
                }
                let mut analytics = self.property_analytics.remove(i);
                analytics.update_with_scan(scan_event);
                if scan_event.scanned_at >= today_start {
                    analytics.scans_today = analytics.scans_today + 1;
                }
                if scan_event.scanned_at >= week_start_ts {
                    analytics.scans_this_week = analytics.scans_this_week + 1;
                }
                if scan_event.scanned_at >= month_start_ts {
                    analytics.scans_this_month = analytics.scans_this_month + 1;
                }
                self.property_analytics.insert(i, analytics);
                proof {
                    assert(self.spec_pa() =~= pre.spec_pa().update(
                        i as int,
                        self.spec_pa()[i as int],
                    ));
                    assert(self.spec_pa()[i as int].property_id@ == property_id@);
                    assert forall|a: int, b: int|
                        0 <= a < b < self.spec_pa().len() implies #[trigger] self.spec_pa()[a].property_id@
                        != #[trigger] self.spec_pa()[b].property_id@ by {
                        assert(self.spec_pa()[a].property_id@ == pre.spec_pa()[a].property_id@);
                        assert(self.spec_pa()[b].property_id@ == pre.spec_pa()[b].property_id@);
                        assert(pre.spec_pa()[a].property_id@ != pre.spec_pa()[b].property_id@);
                    }
                    self.lemma_pa_at(i as int);
                    assert forall|q: Seq<char>| #[trigger] self.spec_pa_has(q) == pre.spec_pa_has(
                        q,
                    ) by {
                        if self.spec_pa_has(q) {
                            let k = choose|k: int|
                                0 <= k < self.spec_pa().len()
                                    && #[trigger] self.spec_pa()[k].property_id@ == q;
                            assert(pre.spec_pa()[k].property_id@ == q);
                        }
                        if pre.spec_pa_has(q) {
                            let k = choose|k: int|
                                0 <= k < pre.spec_pa().len()
                                    && #[trigger] pre.spec_pa()[k].property_id@ == q;
                            assert(self.spec_pa()[k].property_id@ == q);
                        }
                    }
                    assert forall|q: Seq<char>| q != property_id@ && pre.spec_pa_has(q) implies
                        #[trigger] self.spec_pa_get(q) == pre.spec_pa_get(q) by {
                        let k = choose|k: int|
                            0 <= k < pre.spec_pa().len() && #[trigger] pre.spec_pa()[k].property_id@
                                == q;
                        assert(k != i as int);
                        assert(self.spec_pa()[k] == pre.spec_pa()[k]);
                        self.lemma_pa_at(k);
                        pre.lemma_pa_at(k);
                    }
                }
            },
            None => {
                let mut analytics = PropertyScanAnalytics::new(property_id.to_owned());
                analytics.update_with_scan(scan_event);
                if scan_event.scanned_at >= today_start {
                    analytics.scans_today = analytics.scans_today + 1;
                }
                if scan_event.scanned_at >= week_start_ts {
                    analytics.scans_this_week = analytics.scans_this_week + 1;
                }
                if scan_event.scanned_at >= month_start_ts {
                    analytics.scans_this_month = analytics.scans_this_month + 1;
                }
                self.property_analytics.push(analytics);
                proof {
                    let n = self.spec_pa().len() as int;
                    assert(self.spec_pa()[n - 1].property_id@ == property_id@);
                    assert forall|a: int, b: int|
                        0 <= a < b < self.spec_pa().len() implies #[trigger] self.spec_pa()[a].property_id@
                        != #[trigger] self.spec_pa()[b].property_id@ by {
                        if b < n - 1 {
                            assert(pre.spec_pa()[a].property_id@ != pre.spec_pa()[b].property_id@);
                        } else {
                            assert(pre.spec_pa()[a].property_id@ != property_id@);
                        }
                    }
                    self.lemma_pa_at(n - 1);
                    assert forall|q: Seq<char>| q != property_id@ implies #[trigger] self.spec_pa_has(
                        q,
                    ) == pre.spec_pa_has(q) by {
                        if self.spec_pa_has(q) {
                            let k = choose|k: int|
                                0 <= k < self.spec_pa().len()
                                    && #[trigger] self.spec_pa()[k].property_id@ == q;
                            assert(k < n - 1);
                            assert(pre.spec_pa()[k].property_id@ == q);
                        }
                        if pre.spec_pa_has(q) {
                            let k = choose|k: int|
                                0 <= k < pre.spec_pa().len()
                                    && #[trigger] pre.spec_pa()[k].property_id@ == q;
                            assert(self.spec_pa()[k].property_id@ == q);
                        }
                    }
                    assert forall|q: Seq<char>| q != property_id@ && pre.spec_pa_has(q) implies
                        #[trigger] self.spec_pa_get(q) == pre.spec_pa_get(q) by {
                        let k = choose|k: int|
                            0 <= k < pre.spec_pa().len() && #[trigger] pre.spec_pa()[k].property_id@
                                == q;
                        assert(self.spec_pa()[k].property_id@ == q);
                        self.lemma_pa_at(k);
                        pre.lemma_pa_at(k);
                    }
                }
            },
        }
    }
}


/// `now - delta`, saturating at the lower end of i64.
pub open spec fn spec_sat_sub(now: int, delta: int) -> int {
    if now - delta < i64::MIN {
        i64::MIN as int
    } else {
        now - delta
    }
}

/// The events scanned at or after `cutoff`, in order.
pub open spec fn spec_kept_events(events: Seq<ScanEvent>, cutoff: int) -> Seq<ScanEvent>
    decreases events.len(),
{
    if events.len() == 0 {
        seq![]
    } else {
        let rest = spec_kept_events(events.drop_last(), cutoff);
        if events.last().scanned_at >= cutoff {
            rest.push(events.last())
        } else {
            rest
        }
    }
}

proof fn lemma_kept_events_bound(events: Seq<ScanEvent>, cutoff: int)
    ensures
        spec_kept_events(events, cutoff).len() <= events.len(),
    decreases events.len(),
{
    if events.len() > 0 {
        lemma_kept_events_bound(events.drop_last(), cutoff);
    }
}

impl AnalyticsService {
    fn pid_filter_matches(event_pid: &str, filter: Option<&str>) -> (r: bool)
        ensures
            r == (match spec_opt_strslice_view(filter) {
                Some(p) => event_pid@ == p,
                None => true,
            }),
    {
        match filter {
            Some(pid) => str_eq(event_pid, pid),
            None => true,
        }
    }

    fn count_events_since(&self, cutoff: i64) -> (r: i64)
        requires
            self.spec_events().len() <= i64::MAX,
        ensures
            r == spec_count_since(self.spec_events(), cutoff as int),
    {
        let ghost events = self.spec_events();
        let mut count: i64 = 0;
        let mut i: usize = 0;
        assert(events.subrange(0, 0) =~= Seq::<ScanEvent>::empty());
        while i < self.scan_events.len()
            invariant
                events == self.spec_events(),
                events.len() <= i64::MAX,
                0 <= i <= events.len(),
                count == spec_count_since(events.subrange(0, i as int), cutoff as int),
            decreases events.len() - i,
        {
            proof {
                assert(events.subrange(0, i + 1).drop_last() =~= events.subrange(0, i as int));
                assert(events.subrange(0, i + 1).last() == events[i as int]);
                lemma_count_since_bound(events.subrange(0, i as int), cutoff as int);
            }
            if self.scan_events[i].scanned_at >= cutoff {
                count = count + 1;
            }
            i += 1;
        }
        assert(events.subrange(0, events.len() as int) =~= events);
        count
    }

    fn count_events_range(&self, from: i64, to: i64) -> (r: i64)
        requires
            self.spec_events().len() <= i64::MAX,
        ensures
            r == spec_count_range(self.spec_events(), from as int, to as int),
    {
        let ghost events = self.spec_events();
        let mut count: i64 = 0;
        let mut i: usize = 0;
        assert(events.subrange(0, 0) =~= Seq::<ScanEvent>::empty());
        while i < self.scan_events.len()
            invariant
                events == self.spec_events(),
                events.len() <= i64::MAX,
                0 <= i <= events.len(),
                count == spec_count_range(events.subrange(0, i as int), from as int, to as int),
            decreases events.len() - i,
        {
            proof {
                assert(events.subrange(0, i + 1).drop_last() =~= events.subrange(0, i as int));
                assert(events.subrange(0, i + 1).last() == events[i as int]);
                lemma_count_range_bound(events.subrange(0, i as int), from as int, to as int);
            }
            let at = self.scan_events[i].scanned_at;
            if at >= from && at < to {
                count = count + 1;
            }
            i += 1;
        }
        assert(events.subrange(0, events.len() as int) =~= events);
        count
    }

    /// The leaderboard at `now`: each property's row counts exactly its
    /// successful scans since the cutoff, most scanned first, one row per
    /// property, at most `limit` rows, and no scanned property missing unless
    /// the limit cut it.
    pub fn get_top_performing_properties_at(&self, limit: usize, days: i64, now: i64) -> (r: Vec<
        PropertyPerformance,
    >)
        requires
            self.spec_events().len() <= i64::MAX,
        ensures
            spec_leaderboard_ok(
                self.spec_events(),
                r@,
                limit as int,
                spec_cutoff(now as int, days as int),
            ),
    {
        let ghost events = self.spec_events();
        let wide: i128 = (now as i128) - (days as i128) * 86400;
        let cutoff: i64 = if wide < i64::MIN as i128 {
            i64::MIN
        } else if wide > i64::MAX as i128 {
            i64::MAX
        } else {
            wide as i64
        };
        proof {
            assert(cutoff as int == spec_cutoff(now as int, days as int));
            assert(events.subrange(0, 0) =~= Seq::<ScanEvent>::empty());
        }
        // Group the qualifying events by property.
        let mut pids: Vec<String> = Vec::new();
        let mut totals: Vec<i64> = Vec::new();
        let mut seen_ips: Vec<Vec<String>> = Vec::new();
        let mut seen_none: Vec<bool> = Vec::new();
        let mut i: usize = 0;
        while i < self.scan_events.len()
            invariant
                events == self.spec_events(),
                events.len() <= i64::MAX,
                0 <= i <= events.len(),
                pids@.len() == totals@.len(),
                pids@.len() == seen_ips@.len(),
                pids@.len() == seen_none@.len(),
                forall|k: int| 0 <= k < totals@.len() ==> 1 <= #[trigger] totals@[k] <= i,
                forall|a: int, b: int|
                    0 <= a < b < pids@.len() ==> #[trigger] pids@[a]@ != #[trigger] pids@[b]@,
                forall|g: int|
                    0 <= g < totals@.len() ==> #[trigger] totals@[g] == spec_success_count_for(
                        events.subrange(0, i as int),
                        pids@[g]@,
                        cutoff as int,
                    ),
                forall|j: int|
                    0 <= j < i && spec_counts_success(#[trigger] events[j], cutoff as int)
                        ==> spec_id_among(pids@, events[j].property_id@),
            decreases events.len() - i,
        {
            proof {
                assert(events.subrange(0, i + 1).drop_last() =~= events.subrange(0, i as int));
                assert(events.subrange(0, i + 1).last() == events[i as int]);
            }
            let e = &self.scan_events[i];
            if e.scanned_at >= cutoff && e.redirect_success {
                let mut found: Option<usize> = None;
                let mut j: usize = 0;
                while j < pids.len()
                    invariant
                        0 <= j <= pids@.len(),
                        found is None ==> forall|g: int|
                            0 <= g < j ==> #[trigger] pids@[g]@ != e.property_id@,
                        match found {
                            Some(f) => f < pids@.len() && pids@[f as int]@ == e.property_id@,
                            None => true,
                        },
                    decreases pids@.len() - j,
                {
                    if str_eq(pids[j].as_str(), e.property_id.as_str()) {
                        found = Some(j);
                        j = pids.len();
                    } else {
                        j += 1;
                    }
                }
                match found {
                    Some(g) => {
                        let t = totals[g];
                        totals.set(g, t + 1);
                        proof {
                            assert forall|g2: int| 0 <= g2 < totals@.len() implies
                                #[trigger] totals@[g2] == spec_success_count_for(
                                events.subrange(0, i + 1),
                                pids@[g2]@,
                                cutoff as int,
                            ) by {
                                if g2 == g as int {
                                    assert(events[i as int].property_id@ == pids@[g2]@);
                                } else {
                                    if g2 < g as int {
                                        assert(pids@[g2]@ != pids@[g as int]@);
                                    } else {
                                        assert(pids@[g as int]@ != pids@[g2]@);
                                    }
                                    assert(events[i as int].property_id@ != pids@[g2]@);
                                }
                            }
                        }
                        match &e.ip_address {
                            Some(ip) => {
                                if !crate::strutil::vec_contains_str(&seen_ips[g], ip.as_str()) {
                                    let mut ips = seen_ips.remove(g);
                                    ips.push(ip.clone());
                                    seen_ips.insert(g, ips);
                                }
                            },
                            None => {
                                if !seen_none[g] {
                                    seen_none.set(g, true);
                                }
                            },
                        }
                    },
                    None => {
                        let ghost pre_pids = pids@;
                        pids.push(e.property_id.clone());
                        totals.push(1);
                        proof {
                            assert(pids@[pids@.len() - 1]@ == events[i as int].property_id@);
                            assert forall|j2: int|
                                0 <= j2 < events.subrange(0, i as int).len()
                                    && spec_counts_success(
                                    #[trigger] events.subrange(0, i as int)[j2],
                                    cutoff as int,
                                ) implies events.subrange(0, i as int)[j2].property_id@
                                != events[i as int].property_id@ by {
                                assert(events.subrange(0, i as int)[j2] == events[j2]);
                                assert(spec_id_among(pre_pids, events[j2].property_id@));
                                let w = choose|w: int|
                                    0 <= w < pre_pids.len() && #[trigger] pre_pids[w]@
                                        == events[j2].property_id@;
                                assert(pre_pids[w]@ != events[i as int].property_id@);
                            }
                            lemma_success_count_zero(
                                events.subrange(0, i as int),
                                events[i as int].property_id@,
                                cutoff as int,
                            );
                            assert forall|g2: int| 0 <= g2 < totals@.len() implies
                                #[trigger] totals@[g2] == spec_success_count_for(
                                events.subrange(0, i + 1),
                                pids@[g2]@,
                                cutoff as int,
                            ) by {
                                if g2 < totals@.len() - 1 {
                                    assert(pids@[g2] == pre_pids[g2]);
                                    assert(pre_pids[g2]@ != events[i as int].property_id@);
                                }
                            }
                            assert forall|j2: int|
                                0 <= j2 < i + 1 && spec_counts_success(
                                    #[trigger] events[j2],
                                    cutoff as int,
                                ) implies spec_id_among(pids@, events[j2].property_id@) by {
                                if j2 < i as int {
                                    let w = choose|w: int|
                                        0 <= w < pre_pids.len() && #[trigger] pre_pids[w]@
                                            == events[j2].property_id@;
                                    assert(pids@[w]@ == events[j2].property_id@);
                                } else {
                                    assert(pids@[pids@.len() - 1]@ == events[j2].property_id@);
                                }
                            }
                        }
                        let mut ips: Vec<String> = Vec::new();
                        let mut none_seen = false;
                        match &e.ip_address {
                            Some(ip) => {
                                ips.push(ip.clone());
                            },
                            None => {
                                none_seen = true;
                            },
                        }
                        seen_ips.push(ips);
                        seen_none.push(none_seen);
                    },
                }
            } else {
                proof {
                    assert(!spec_counts_success(events[i as int], cutoff as int));
                    assert forall|g2: int| 0 <= g2 < totals@.len() implies #[trigger] totals@[g2]
                        == spec_success_count_for(
                        events.subrange(0, i + 1),
                        pids@[g2]@,
                        cutoff as int,
                    ) by {}
                }
            }
            i += 1;
        }
        proof {
            assert(events.subrange(0, events.len() as int) =~= events);
        }
        // Build the rows.
        let mut rows: Vec<PropertyPerformance> = Vec::new();
        let mut k: usize = 0;
        while k < pids.len()
            invariant
                pids@.len() == totals@.len(),
                pids@.len() == seen_ips@.len(),
                pids@.len() == seen_none@.len(),
                0 <= k <= pids@.len(),
                rows@.len() == k,
                forall|x: int| 0 <= x < totals@.len() ==> #[trigger] totals@[x] >= 1,
                forall|x: int|
                    0 <= x < rows@.len() ==> #[trigger] rows@[x].total_scans >= 1
                        && rows@[x].success_rate_bp == 10000,
                forall|x: int|
                    0 <= x < k ==> #[trigger] rows@[x].property_id@ == pids@[x]@
                        && rows@[x].total_scans == totals@[x],
            decreases pids@.len() - k,
        {
            let mut name = String::new();
            name.append("Property ");
            name.append(pids[k].as_str());
            let unique_count = seen_ips[k].len();
            let unique: i64 = if unique_count <= i64::MAX as usize {
                (unique_count as i64) + (if seen_none[k] && unique_count < i64::MAX as usize {
                    1
                } else {
                    0
                })
            } else {
                i64::MAX
            };
            rows.push(
                PropertyPerformance {
                    property_id: pids[k].clone(),
                    property_name: name,
                    total_scans: totals[k],
                    unique_scans: unique,
                    success_rate_bp: 10000,
                },
            );
            k += 1;
        }
        proof {
            assert forall|x: int| 0 <= x < rows@.len() implies (#[trigger] rows@[x]).total_scans
                == spec_success_count_for(events, rows@[x].property_id@, cutoff as int) by {
                assert(rows@[x].property_id@ == pids@[x]@);
            }
            assert forall|a: int, b: int| 0 <= a < b < rows@.len() implies
                #[trigger] rows@[a].property_id@ != #[trigger] rows@[b].property_id@ by {
                assert(rows@[a].property_id@ == pids@[a]@);
                assert(rows@[b].property_id@ == pids@[b]@);
            }
            assert forall|j: int|
                0 <= j < events.len() && spec_counts_success(
                    #[trigger] events[j],
                    cutoff as int,
                ) implies spec_perf_listed(rows@, events[j].property_id@) by {
                let w = choose|w: int|
                    0 <= w < pids@.len() && #[trigger] pids@[w]@ == events[j].property_id@;
                assert(rows@[w].property_id@ == events[j].property_id@);
            }
        }
        // Rank the rows, most scanned first.
        let mut ranked: Vec<PropertyPerformance> = Vec::new();
        while rows.len() > 0
            invariant
                events.len() <= i64::MAX,
                forall|a: int, b: int|
                    0 <= a < b < ranked@.len() ==> #[trigger] ranked@[a].total_scans
                        >= #[trigger] ranked@[b].total_scans,
                forall|a: int, b: int|
                    0 <= a < ranked@.len() && 0 <= b < rows@.len()
                        ==> #[trigger] ranked@[a].total_scans >= #[trigger] rows@[b].total_scans,
                forall|x: int|
                    0 <= x < ranked@.len() ==> (#[trigger] ranked@[x]).total_scans >= 1
                        && ranked@[x].success_rate_bp == 10000 && ranked@[x].total_scans
                        == spec_success_count_for(events, ranked@[x].property_id@, cutoff as int),
                forall|x: int|
                    0 <= x < rows@.len() ==> (#[trigger] rows@[x]).total_scans >= 1
                        && rows@[x].success_rate_bp == 10000 && rows@[x].total_scans
                        == spec_success_count_for(events, rows@[x].property_id@, cutoff as int),
                forall|a: int, b: int|
                    0 <= a < b < ranked@.len() ==> #[trigger] ranked@[a].property_id@
                        != #[trigger] ranked@[b].property_id@,
                forall|a: int, b: int|
                    0 <= a < b < rows@.len() ==> #[trigger] rows@[a].property_id@
                        != #[trigger] rows@[b].property_id@,
                forall|a: int, b: int|
                    0 <= a < ranked@.len() && 0 <= b < rows@.len()
                        ==> #[trigger] ranked@[a].property_id@ != #[trigger] rows@[b].property_id@,
                forall|j: int|
                    0 <= j < events.len() && spec_counts_success(#[trigger] events[j], cutoff as int)
                        ==> spec_perf_listed(ranked@, events[j].property_id@) || spec_perf_listed(
                        rows@,
                        events[j].property_id@,
                    ),
            decreases rows@.len(),
        {
            let mut mi: usize = 0;
            let mut j: usize = 1;
            while j < rows.len()
                invariant
                    0 < rows@.len(),
                    0 <= mi < rows@.len(),
                    1 <= j <= rows@.len(),
                    forall|x: int|
                        0 <= x < j ==> rows@[mi as int].total_scans
                            >= #[trigger] rows@[x].total_scans,
                decreases rows@.len() - j,
            {
                if rows[j].total_scans > rows[mi].total_scans {
                    mi = j;
                }
                j += 1;
            }
            let ghost pre_rows = rows@;
            let ghost pre_ranked = ranked@;
            let m = rows.remove(mi);
            proof {
                assert(m == pre_rows[mi as int]);
                assert forall|x: int| 0 <= x < rows@.len() implies m.total_scans
                    >= #[trigger] rows@[x].total_scans && rows@[x].total_scans >= 1
                    && rows@[x].success_rate_bp == 10000 && rows@[x].total_scans
                    == spec_success_count_for(events, rows@[x].property_id@, cutoff as int)
                    && m.property_id@ != rows@[x].property_id@ by {
                    if x < mi as int {
                        assert(rows@[x] == pre_rows[x]);
                    } else {
                        assert(rows@[x] == pre_rows[x + 1]);
                        assert(pre_rows[mi as int].property_id@ != pre_rows[x + 1].property_id@);
                    }
                }
                assert forall|a: int, b: int| 0 <= a < b < rows@.len() implies
                    #[trigger] rows@[a].property_id@ != #[trigger] rows@[b].property_id@ by {
                    let a2 = if a < mi as int { a } else { a + 1 };
                    let b2 = if b < mi as int { b } else { b + 1 };
                    assert(rows@[a] == pre_rows[a2]);
                    assert(rows@[b] == pre_rows[b2]);
                }
            }
            ranked.push(m);
            proof {
                assert forall|a: int, b: int|
                    0 <= a < ranked@.len() && 0 <= b < rows@.len() implies
                    #[trigger] ranked@[a].property_id@ != #[trigger] rows@[b].property_id@ by {
                    let b2 = if b < mi as int { b } else { b + 1 };
                    assert(rows@[b] == pre_rows[b2]);
                    if a < pre_ranked.len() {
                        assert(ranked@[a] == pre_ranked[a]);
                    } else {
                        assert(ranked@[a] == m);
                    }
                }
                assert forall|a: int, b: int| 0 <= a < b < ranked@.len() implies
                    #[trigger] ranked@[a].property_id@ != #[trigger] ranked@[b].property_id@ by {
                    if b < pre_ranked.len() {
                        assert(ranked@[a] == pre_ranked[a]);
                        assert(ranked@[b] == pre_ranked[b]);
                    } else {
                        assert(ranked@[a] == pre_ranked[a]);
                        assert(ranked@[b] == m);
                        assert(pre_ranked[a].property_id@ != pre_rows[mi as int].property_id@);
                    }
                }
                assert forall|j2: int|
                    0 <= j2 < events.len() && spec_counts_success(
                        #[trigger] events[j2],
                        cutoff as int,
                    ) implies spec_perf_listed(ranked@, events[j2].property_id@)
                    || spec_perf_listed(rows@, events[j2].property_id@) by {
                    let pid = events[j2].property_id@;
                    if spec_perf_listed(pre_ranked, pid) {
                        let w = choose|w: int|
                            0 <= w < pre_ranked.len() && #[trigger] pre_ranked[w].property_id@
                                == pid;
                        assert(ranked@[w].property_id@ == pid);
                    } else {
                        let w = choose|w: int|
                            0 <= w < pre_rows.len() && #[trigger] pre_rows[w].property_id@ == pid;
                        if w == mi as int {
                            assert(ranked@[ranked@.len() - 1].property_id@ == pid);
                        } else if w < mi as int {
                            assert(rows@[w].property_id@ == pid);
                        } else {
                            assert(rows@[w - 1].property_id@ == pid);
                        }
                    }
                }
            }
        }
        // Cap at `limit`.
        proof {
            assert forall|j2: int|
                0 <= j2 < events.len() && spec_counts_success(
                    #[trigger] events[j2],
                    cutoff as int,
                ) implies spec_perf_listed(ranked@, events[j2].property_id@) by {}
        }
        while ranked.len() > limit
            invariant
                forall|a: int, b: int|
                    0 <= a < b < ranked@.len() ==> #[trigger] ranked@[a].total_scans
                        >= #[trigger] ranked@[b].total_scans,
                forall|x: int|
                    0 <= x < ranked@.len() ==> (#[trigger] ranked@[x]).total_scans >= 1
                        && ranked@[x].success_rate_bp == 10000 && ranked@[x].total_scans
                        == spec_success_count_for(events, ranked@[x].property_id@, cutoff as int),
                forall|a: int, b: int|
                    0 <= a < b < ranked@.len() ==> #[trigger] ranked@[a].property_id@
                        != #[trigger] ranked@[b].property_id@,
                ranked@.len() >= limit || (forall|j2: int|
                    0 <= j2 < events.len() && spec_counts_success(#[trigger] events[j2], cutoff as int)
                        ==> spec_perf_listed(ranked@, events[j2].property_id@)),
            decreases ranked@.len(),
        {
            let popped = ranked.pop();
            let _ = popped;
        }
        ranked
    }

    /// The leaderboard over the last `days` days: the exact leaderboard shape
    /// at the cutoff some clock reading fixes.
    pub fn get_top_performing_properties(&self, limit: usize, days: i64) -> (r: Result<
        Vec<PropertyPerformance>,
        AnalyticsError,
    >)
        requires
            self.spec_events().len() <= i64::MAX,
        ensures
            r is Ok,
            exists|c: int|
                #[trigger] spec_leaderboard_ok(
                    self.spec_events(),
                    (r->Ok_0)@,
                    limit as int,
                    c,
                ),
    {
        let now = now_unix();
        let v = self.get_top_performing_properties_at(limit, days, now);
        let res: Result<Vec<PropertyPerformance>, AnalyticsError> = Ok(v);
        proof {
            let c0: int = spec_cutoff(now as int, days as int);
            assert(spec_leaderboard_ok(self.spec_events(), (res->Ok_0)@, limit as int, c0));
            assert(exists|c: int|
                #[trigger] spec_leaderboard_ok(self.spec_events(), (res->Ok_0)@, limit as int, c));
        }
        res
    }

    /// Recompute the process-wide document at `now`: the all-time total is
    /// the exact event count, today's total counts the events at or after the
    /// day boundary of `now`, and the leaderboard holds at most ten rows.
    pub fn update_system_analytics_at(&mut self, now: i64)
        requires
            old(self).wf(),
            old(self).spec_events().len() <= i64::MAX,
        ensures
            final (self).wf(),
            final (self).spec_events() == old(self).spec_events(),
            final (self).spec_pa() == old(self).spec_pa(),
            ({
                let sys = final (self).spec_sys();
                &&& sys is Some
                &&& sys->Some_0.total_scans_all_time == final (self).spec_events().len()
                &&& sys->Some_0.total_scans_today == spec_count_since(
                    final (self).spec_events(),
                    spec_day_start(now) as int,
                )
                &&& sys->Some_0.top_performing_properties@.len() <= 10
                &&& sys->Some_0.last_updated == now
            }),
    {
        let total_scans = self.scan_events.len();
        let today_start = day_start(now);
        let scans_today = self.count_events_since(today_start);
        let top = self.get_top_performing_properties_at(10, 30, now);
        proof {
            lemma_count_since_bound(self.spec_events(), spec_day_start(now) as int);
        }
        let mut sys = match self.system_analytics.take() {
            Some(s) => s,
            None => SystemAnalytics {
                id: new_object_id_hex(),
                total_properties: 0,
                properties_with_qr: 0,
                total_scans_all_time: 0,
                total_scans_today: 0,
                total_scans_this_week: 0,
                total_scans_this_month: 0,
                average_scans_per_property_bp: 0,
                top_performing_properties: Vec::new(),
                qr_generation_stats: QrGenerationStats {
                    total_generated: 0,
                    generated_today: 0,
                    generated_this_week: 0,
                    generated_this_month: 0,
                    average_generation_time_ms: None,
                    failure_rate_bp: 0,
                },
                last_updated: now,
            },
        };
        sys.total_scans_all_time = total_scans as i64;
        sys.total_scans_today = scans_today;
        sys.top_performing_properties = top;
        sys.last_updated = now;
        self.system_analytics = Some(sys);
    }

    /// The process-wide document, created zeroed the first time it is asked
    /// for.
    pub fn get_or_create_system_analytics(&mut self) -> (r: SystemAnalytics)
        requires
            old(self).wf(),
        ensures
            final (self).wf(),
            final (self).spec_events() == old(self).spec_events(),
            final (self).spec_pa() == old(self).spec_pa(),
            final (self).spec_sys() is Some,
            old(self).spec_sys() is Some ==> final (self).spec_sys() == old(self).spec_sys(),
    {
        match &self.system_analytics {
            Some(s) => s.duplicate(),
            None => {
                let sys = SystemAnalytics {
                    id: new_object_id_hex(),
                    total_properties: 0,
                    properties_with_qr: 0,
                    total_scans_all_time: 0,
                    total_scans_today: 0,
                    total_scans_this_week: 0,
                    total_scans_this_month: 0,
                    average_scans_per_property_bp: 0,
                    top_performing_properties: Vec::new(),
                    qr_generation_stats: QrGenerationStats {
                        total_generated: 0,
                        generated_today: 0,
                        generated_this_week: 0,
                        generated_this_month: 0,
                        average_generation_time_ms: None,
                        failure_rate_bp: 0,
                    },
                    last_updated: now_unix(),
                };
                let copy = sys.duplicate();
                self.system_analytics = Some(sys);
                copy
            },
        }
    }

    /// Record one scan at `now`: the event is appended with exactly the given
    /// attributes (device derived from the user agent), the property's
    /// aggregate is folded forward, and the system document is recomputed.
    /// The event's id is returned.
    pub fn record_scan_at(
        &mut self,
        property_id: String,
        qr_version: i32,
        scan_source: ScanSource,
        redirect_type: RedirectType,
        user_agent: Option<String>,
        ip_address: Option<String>,
        session_id: Option<String>,
        referrer: Option<String>,
        now: i64,
    ) -> (r: String)
        requires
            old(self).wf(),
            old(self).spec_events().len() < i64::MAX,
            old(self).spec_pa_has(property_id@) ==> old(self).spec_pa_get(
                property_id@,
            ).total_scans < i64::MAX,
        ensures
            final (self).wf(),
            final (self).spec_events().len() == old(self).spec_events().len() + 1,
            final (self).spec_events().drop_last() == old(self).spec_events(),
            ({
                let e = final (self).spec_events().last();
                &&& e.property_id@ == property_id@
                &&& e.qr_version == qr_version
                &&& e.scanned_at == now
                &&& e.scan_source == scan_source
                &&& e.redirect_type == redirect_type
                &&& e.user_agent == user_agent
                &&& e.ip_address == ip_address
                &&& e.session_id == session_id
                &&& e.referrer == referrer
                &&& e.geolocation is None
                &&& e.redirect_success
                &&& e.response_time == Some(0i64)
                &&& e.metadata@.len() == 0
                &&& (match user_agent {
                    Some(ua) => e.device_info matches Some(di) && di.device_type
                        == spec_device_type_of(lower_of(ua@)),
                    None => e.device_info is None,
                })
                &&& r == e.id
            }),
            final (self).spec_pa_has(property_id@),
            ({
                let post = final (self).spec_pa_get(property_id@);
                let pre_total: int = if old(self).spec_pa_has(property_id@) {
                    old(self).spec_pa_get(property_id@).total_scans as int
                } else {
                    0
                };
                let pre_succ: int = if old(self).spec_pa_has(property_id@) {
                    old(self).spec_pa_get(property_id@).successful_scans as int
                } else {
                    0
                };
                &&& post.total_scans == pre_total + 1
                &&& post.successful_scans == pre_succ + 1
                &&& post.success_rate_bp == post.successful_scans * 10000 / (
                post.total_scans as int)
                &&& post.last_scanned == Some(now)
            }),
            forall|q: Seq<char>|
                q != property_id@ ==> #[trigger] final (self).spec_pa_has(q) == old(
                    self,
                ).spec_pa_has(q),
            forall|q: Seq<char>|
                q != property_id@ && old(self).spec_pa_has(q) ==> #[trigger] final (
                self).spec_pa_get(q) == old(self).spec_pa_get(q),
            final (self).spec_sys() is Some,
    {
        let device_info = match &user_agent {
            Some(ua) => Some(DeviceInfo::from_user_agent(ua.as_str())),
            None => None,
        };
        let event = ScanEvent {
            id: new_object_id_hex(),
            property_id: property_id.clone(),
            qr_version,
            scanned_at: now,
            scan_source,
            user_agent,
            ip_address,
            geolocation: self.get_geolocation_from_ip(),
            device_info,
            session_id,
            referrer,
            redirect_success: true,
            redirect_type,
            response_time: Some(0),
            metadata: Vec::new(),
        };
        let scan_id = event.id.clone();
        self.update_property_analytics_at(property_id.as_str(), &event, now);
        let ghost m1 = *self;
        self.scan_events.push(event);
        let ghost m2 = *self;
        self.update_system_analytics_at(now);
        proof {
            assert(m2.spec_pa() == m1.spec_pa());
            assert(self.spec_pa() == m1.spec_pa());
            Self::lemma_pa_same(m1, *self);
        }
        scan_id
    }

    /// Record one scan now; the clock picks the instant, `record_scan_at`
    /// carries the exact contract.
    pub fn record_scan(
        &mut self,
        property_id: String,
        qr_version: i32,
        scan_source: ScanSource,
        redirect_type: RedirectType,
        user_agent: Option<String>,
        ip_address: Option<String>,
        session_id: Option<String>,
        referrer: Option<String>,
    ) -> (r: Result<String, AnalyticsError>)
        requires
            old(self).wf(),
            old(self).spec_events().len() < i64::MAX,
            old(self).spec_pa_has(property_id@) ==> old(self).spec_pa_get(
                property_id@,
            ).total_scans < i64::MAX,
        ensures
            final (self).wf(),
            r is Ok,
            final (self).spec_events().len() == old(self).spec_events().len() + 1,
            final (self).spec_events().drop_last() == old(self).spec_events(),
            final (self).spec_events().last().property_id@ == property_id@,
            final (self).spec_events().last().redirect_type == redirect_type,
            final (self).spec_events().last().redirect_success,
            final (self).spec_pa_has(property_id@),
    {
        let now = now_unix();
        Ok(
            self.record_scan_at(
                property_id,
                qr_version,
                scan_source,
                redirect_type,
                user_agent,
                ip_address,
                session_id,
                referrer,
                now,
            ),
        )
    }

    /// Record a failed scan attempt: the event is appended marked failed,
    /// carrying the error reason as an annotation; no aggregate is touched.
    pub fn record_failed_scan(
        &mut self,
        property_id: String,
        qr_version: i32,
        error_reason: String,
        user_agent: Option<String>,
        ip_address: Option<String>,
    ) -> (r: Result<String, AnalyticsError>)
        requires
            old(self).wf(),
        ensures
            final (self).wf(),
            r is Ok,
            final (self).spec_events().len() == old(self).spec_events().len() + 1,
            final (self).spec_events().drop_last() == old(self).spec_events(),
            final (self).spec_pa() == old(self).spec_pa(),
            final (self).spec_sys() == old(self).spec_sys(),
            ({
                let e = final (self).spec_events().last();
                &&& e.property_id@ == property_id@
                &&& e.qr_version == qr_version
                &&& e.scan_source == ScanSource::QrCode
                &&& e.redirect_type == RedirectType::Failed
                &&& !e.redirect_success
                &&& e.user_agent == user_agent
                &&& e.ip_address == ip_address
                &&& e.session_id is None
                &&& e.referrer is None
                &&& e.metadata@.len() == 1
                &&& e.metadata@[0].0@ == ("error_reason")@
                &&& e.metadata@[0].1 == error_reason
                &&& (match user_agent {
                    Some(ua) => e.device_info matches Some(di) && di.device_type
                        == spec_device_type_of(lower_of(ua@)),
                    None => e.device_info is None,
                })
                &&& (r matches Ok(id) && id == e.id)
            }),
    {
        let device_info = match &user_agent {
            Some(ua) => Some(DeviceInfo::from_user_agent(ua.as_str())),
            None => None,
        };
        let mut metadata: Vec<(String, String)> = Vec::new();
        metadata.push(("error_reason".to_owned(), error_reason));
        let event = ScanEvent {
            id: new_object_id_hex(),
            property_id,
            qr_version,
            scanned_at: now_unix(),
            scan_source: ScanSource::QrCode,
            user_agent,
            ip_address,
            geolocation: None,
            device_info,
            session_id: None,
            referrer: None,
            redirect_success: false,
            redirect_type: RedirectType::Failed,
            response_time: None,
            metadata,
        };
        let scan_id = event.id.clone();
        self.scan_events.push(event);
        Ok(scan_id)
    }

    /// Read access to the recorded events, oldest first.
    pub fn events(&self) -> (r: &Vec<ScanEvent>)
        ensures
            r@ == self.spec_events(),
    {
        &self.scan_events
    }

    /// Geolocation lookup from the request address: a stub that derives
    /// nothing.
    pub fn get_geolocation_from_ip(&self) -> (r: Option<GeoLocation>)
        ensures
            r is None,
    {
        None
    }
}


impl AnalyticsService {
    /// The aggregate of `property_id` (created zeroed when absent), with the
    /// raw events of the last seven days before `now` when asked for.
    pub fn get_property_analytics_at(
        &mut self,
        property_id: &str,
        include_recent_scans: bool,
        now: i64,
    ) -> (r: ScanAnalyticsResponse)
        requires
            old(self).wf(),
        ensures
            final (self).wf(),
            final (self).spec_events() == old(self).spec_events(),
            final (self).spec_sys() == old(self).spec_sys(),
            final (self).spec_pa_has(property_id@),
            r.property_id@ == property_id@,
            r.analytics.total_scans == final (self).spec_pa_get(property_id@).total_scans,
            r.analytics.successful_scans == final (self).spec_pa_get(
                property_id@,
            ).successful_scans,
            r.analytics.success_rate_bp == final (self).spec_pa_get(property_id@).success_rate_bp,
            old(self).spec_pa_has(property_id@) ==> final (self).spec_pa() == old(self).spec_pa(),
            !include_recent_scans ==> r.recent_scans@.len() == 0,
            include_recent_scans ==> r.recent_scans@.len() == spec_matching_count(
                old(self).spec_events(),
                property_id@,
                spec_sat_sub(now as int, 7int * 86400),
            ),
            forall|k: int|
                0 <= k < r.recent_scans@.len() ==> #[trigger] r.recent_scans@[k].property_id@
                    == property_id@,
            forall|k: int|
                0 <= k < r.recent_scans@.len() ==> #[trigger] r.recent_scans@[k].scanned_at
                    >= spec_sat_sub(now as int, 7int * 86400),
            forall|q: Seq<char>|
                q != property_id@ ==> #[trigger] final (self).spec_pa_has(q) == old(
                    self,
                ).spec_pa_has(q),
    {
        let ghost pre = *self;
        let analytics = match self.find_pa_index(property_id) {
            Some(i) => {
                proof {
                    pre.lemma_pa_at(i as int);
                }
                self.property_analytics[i].duplicate()
            },
            None => {
                let fresh = PropertyScanAnalytics::new(property_id.to_owned());
                let copy = fresh.duplicate();
                self.property_analytics.push(fresh);
                proof {
                    let n = self.spec_pa().len() as int;
                    assert forall|a: int, b: int|
                        0 <= a < b < self.spec_pa().len() implies #[trigger] self.spec_pa()[a].property_id@
                        != #[trigger] self.spec_pa()[b].property_id@ by {
                        if b < n - 1 {
                            assert(pre.spec_pa()[a].property_id@ != pre.spec_pa()[b].property_id@);
                        } else {
                            assert(pre.spec_pa()[a].property_id@ != property_id@);
                        }
                    }
                    self.lemma_pa_at(n - 1);
                    assert forall|q: Seq<char>| q != property_id@ implies #[trigger] self.spec_pa_has(
                        q,
                    ) == pre.spec_pa_has(q) by {
                        if self.spec_pa_has(q) {
                            let k = choose|k: int|
                                0 <= k < self.spec_pa().len()
                                    && #[trigger] self.spec_pa()[k].property_id@ == q;
                            assert(k < n - 1);
                            assert(pre.spec_pa()[k].property_id@ == q);
                        }
                        if pre.spec_pa_has(q) {
                            let k = choose|k: int|
                                0 <= k < pre.spec_pa().len()
                                    && #[trigger] pre.spec_pa()[k].property_id@ == q;
                            assert(self.spec_pa()[k].property_id@ == q);
                        }
                    }
                }
                copy
            },
        };
        let mut recent_scans: Vec<ScanEvent> = Vec::new();
        let ghost events2 = self.spec_events();
        proof {
            assert(events2 == old(self).spec_events());
            assert(events2.subrange(0, 0) =~= Seq::<ScanEvent>::empty());
        }
        if include_recent_scans {
            let wide: i128 = (now as i128) - 7 * 86400;
            let cutoff: i64 = if wide < i64::MIN as i128 {
                i64::MIN
            } else {
                wide as i64
            };
            let mut i: usize = 0;
            while i < self.scan_events.len()
                invariant
                    events2 == self.spec_events(),
                    0 <= i <= events2.len(),
                    cutoff as int == spec_sat_sub(now as int, 7int * 86400),
                    recent_scans@.len() == spec_matching_count(
                        events2.subrange(0, i as int),
                        property_id@,
                        cutoff as int,
                    ),
                    forall|k: int|
                        0 <= k < recent_scans@.len() ==> #[trigger] recent_scans@[k].property_id@
                            == property_id@,
                    forall|k: int|
                        0 <= k < recent_scans@.len() ==> #[trigger] recent_scans@[k].scanned_at
                            >= cutoff,
                decreases events2.len() - i,
            {
                proof {
                    assert(events2.subrange(0, i + 1).drop_last() =~= events2.subrange(
                        0,
                        i as int,
                    ));
                    assert(events2.subrange(0, i + 1).last() == events2[i as int]);
                }
                let e = &self.scan_events[i];
                if e.scanned_at >= cutoff && str_eq(e.property_id.as_str(), property_id) {
                    let dup = e.duplicate();
                    proof {
                        assert(dup.property_id@ == property_id@);
                        assert(dup.scanned_at >= cutoff);
                    }
                    let ghost pre_recent = recent_scans@;
                    recent_scans.push(dup);
                    proof {
                        assert forall|k: int|
                            0 <= k < recent_scans@.len() implies #[trigger] recent_scans@[k].property_id@
                            == property_id@ && recent_scans@[k].scanned_at >= cutoff by {
                            if k < pre_recent.len() {
                                assert(recent_scans@[k] == pre_recent[k]);
                            } else {
                                assert(recent_scans@[k] == dup);
                            }
                        }
                    }
                }
                i += 1;
            }
            proof {
                assert(events2.subrange(0, events2.len() as int) =~= events2);
            }
        }
        ScanAnalyticsResponse { property_id: property_id.to_owned(), analytics, recent_scans }
    }

    /// The aggregate of `property_id`, with the recent raw events when asked
    /// for; judged now. `get_property_analytics_at` carries the exact
    /// contract.
    pub fn get_property_analytics(&mut self, property_id: &str, include_recent_scans: bool) -> (r:
        Result<ScanAnalyticsResponse, AnalyticsError>)
        requires
            old(self).wf(),
        ensures
            final (self).wf(),
            r is Ok,
            final (self).spec_events() == old(self).spec_events(),
            final (self).spec_pa_has(property_id@),
            match r {
                Ok(resp) => resp.property_id@ == property_id@ && resp.analytics.total_scans
                    == final (self).spec_pa_get(property_id@).total_scans,
                Err(_) => false,
            },
    {
        let now = now_unix();
        Ok(self.get_property_analytics_at(property_id, include_recent_scans, now))
    }

    /// The 30-day period before `now` against the 30 days before it: exact
    /// counts, mean per day, and the relative change in basis points
    /// (saturating, zero when the earlier period is empty).
    pub fn calculate_period_comparison_at(&self, now: i64) -> (r: PeriodComparison)
        requires
            self.spec_events().len() <= i64::MAX,
        ensures
            ({
                let t30 = spec_sat_sub(now as int, 30int * 86400);
                let t60 = spec_sat_sub(now as int, 60int * 86400);
                let cur = spec_count_since(self.spec_events(), t30);
                let prev = spec_count_range(self.spec_events(), t60, t30);
                &&& r.current_period.total_scans == cur
                &&& r.current_period.unique_scans == cur
                &&& r.current_period.average_scans_per_day == cur / 30
                &&& r.previous_period.total_scans == prev
                &&& r.previous_period.unique_scans == prev
                &&& r.previous_period.average_scans_per_day == prev / 30
                &&& r.percentage_change_bp == (if prev > 0 {
                    let signed = if cur >= prev {
                        (cur - prev) * 10000 / prev
                    } else {
                        -((prev - cur) * 10000 / prev)
                    };
                    if signed > i64::MAX {
                        i64::MAX as int
                    } else if signed < i64::MIN {
                        i64::MIN as int
                    } else {
                        signed
                    }
                } else {
                    0int
                })
            }),
    {
        let wide30: i128 = (now as i128) - 30 * 86400;
        let thirty_days_ago: i64 = if wide30 < i64::MIN as i128 {
            i64::MIN
        } else {
            wide30 as i64
        };
        let wide60: i128 = (now as i128) - 60 * 86400;
        let sixty_days_ago: i64 = if wide60 < i64::MIN as i128 {
            i64::MIN
        } else {
            wide60 as i64
        };
        let current_scans = self.count_events_since(thirty_days_ago);
        let previous_scans = self.count_events_range(sixty_days_ago, thirty_days_ago);
        proof {
            lemma_count_since_bound(self.spec_events(), thirty_days_ago as int);
            lemma_count_range_bound(
                self.spec_events(),
                sixty_days_ago as int,
                thirty_days_ago as int,
            );
        }
        let percentage_change_bp: i64 = if previous_scans > 0 {
            if current_scans >= previous_scans {
                let mag: u128 = (((current_scans - previous_scans) as u128) * 10000) / (
                previous_scans as u128);
                if mag > i64::MAX as u128 {
                    i64::MAX
                } else {
                    mag as i64
                }
            } else {
                let mag: u128 = (((previous_scans - current_scans) as u128) * 10000) / (
                previous_scans as u128);
                let lim: u128 = (i64::MAX as u128) + 1;
                if mag >= lim {
                    i64::MIN
                } else {
                    -(mag as i64)
                }
            }
        } else {
            0
        };
        PeriodComparison {
            current_period: PeriodStats {
                total_scans: current_scans,
                unique_scans: current_scans,
                average_scans_per_day: current_scans / 30,
            },
            previous_period: PeriodStats {
                total_scans: previous_scans,
                unique_scans: previous_scans,
                average_scans_per_day: previous_scans / 30,
            },
            percentage_change_bp,
        }
    }

    /// The process-wide document, with the period comparison when asked for;
    /// judged now.
    pub fn get_system_analytics(&mut self, include_comparison: bool) -> (r: Result<
        SystemAnalyticsResponse,
        AnalyticsError,
    >)
        requires
            old(self).wf(),
            old(self).spec_events().len() <= i64::MAX,
        ensures
            final (self).wf(),
            r is Ok,
            final (self).spec_events() == old(self).spec_events(),
            final (self).spec_sys() is Some,
            match r {
                Ok(resp) => (resp.period_comparison is Some) == include_comparison,
                Err(_) => false,
            },
    {
        let system = self.get_or_create_system_analytics();
        let period_comparison = if include_comparison {
            let now = now_unix();
            Some(self.calculate_period_comparison_at(now))
        } else {
            None
        };
        Ok(SystemAnalyticsResponse { system, period_comparison })
    }

    /// The daily trend series of `property_id` at `now`: one row per day with
    /// a matching event since the cutoff, earliest day first, each row
    /// counting exactly that day's events.
    pub fn get_property_scan_trends_at(&self, property_id: &str, days: i64, now: i64) -> (r: Vec<
        DailyScanCount,
    >)
        requires
            self.spec_events().len() <= i64::MAX,
        ensures
            exists|days_list: Seq<i64>|
                #[trigger] spec_trends_ok(
                    self.spec_events(),
                    property_id@,
                    r@,
                    days_list,
                    spec_cutoff(now as int, days as int),
                ),
    {
        let ghost events = self.spec_events();
        let wide: i128 = (now as i128) - (days as i128) * 86400;
        let cutoff: i64 = if wide < i64::MIN as i128 {
            i64::MIN
        } else if wide > i64::MAX as i128 {
            i64::MAX
        } else {
            wide as i64
        };
        proof {
            assert(cutoff as int == spec_cutoff(now as int, days as int));
            assert(events.subrange(0, 0) =~= Seq::<ScanEvent>::empty());
        }
        // Group the matching events by day.
        let mut groups: Vec<(i64, i64)> = Vec::new();
        let mut i: usize = 0;
        while i < self.scan_events.len()
            invariant
                events == self.spec_events(),
                events.len() <= i64::MAX,
                0 <= i <= events.len(),
                forall|k: int| 0 <= k < groups@.len() ==> 1 <= #[trigger] groups@[k].1 <= i,
                forall|a: int, b: int|
                    0 <= a < b < groups@.len() ==> #[trigger] groups@[a].0
                        != #[trigger] groups@[b].0,
                forall|g: int|
                    0 <= g < groups@.len() ==> #[trigger] groups@[g].1 == spec_day_count_for(
                        events.subrange(0, i as int),
                        property_id@,
                        groups@[g].0 as int,
                        cutoff as int,
                    ),
                forall|j: int|
                    0 <= j < i && spec_trend_event(#[trigger] events[j], property_id@, cutoff as int)
                        ==> exists|g: int|
                        0 <= g < groups@.len() && #[trigger] groups@[g].0 as int
                            == spec_day_number(events[j].scanned_at),
            decreases events.len() - i,
        {
            proof {
                assert(events.subrange(0, i + 1).drop_last() =~= events.subrange(0, i as int));
                assert(events.subrange(0, i + 1).last() == events[i as int]);
            }
            let e = &self.scan_events[i];
            if e.scanned_at >= cutoff && str_eq(e.property_id.as_str(), property_id) {
                let dn = day_number(e.scanned_at);
                let mut found: Option<usize> = None;
                let mut j: usize = 0;
                while j < groups.len()
                    invariant
                        dn == spec_day_number(events[i as int].scanned_at),
                        0 <= j <= groups@.len(),
                        found is None ==> forall|g: int|
                            0 <= g < j ==> #[trigger] groups@[g].0 != dn,
                        match found {
                            Some(f) => f < groups@.len() && groups@[f as int].0 == dn,
                            None => true,
                        },
                    decreases groups@.len() - j,
                {
                    if groups[j].0 == dn {
                        found = Some(j);
                        j = groups.len();
                    } else {
                        j += 1;
                    }
                }
                match found {
                    Some(g) => {
                        let ghost pre_groups = groups@;
                        let pair = groups[g];
                        groups.set(g, (pair.0, pair.1 + 1));
                        proof {
                            assert forall|g2: int| 0 <= g2 < groups@.len() implies
                                #[trigger] groups@[g2].1 == spec_day_count_for(
                                events.subrange(0, i + 1),
                                property_id@,
                                groups@[g2].0 as int,
                                cutoff as int,
                            ) by {
                                if g2 != g as int {
                                    if g2 < g as int {
                                        assert(groups@[g2].0 != groups@[g as int].0);
                                    } else {
                                        assert(groups@[g as int].0 != groups@[g2].0);
                                    }
                                }
                            }
                            assert forall|j2: int|
                                0 <= j2 < i + 1 && spec_trend_event(
                                    #[trigger] events[j2],
                                    property_id@,
                                    cutoff as int,
                                ) implies exists|g2: int|
                                0 <= g2 < groups@.len() && #[trigger] groups@[g2].0 as int
                                    == spec_day_number(events[j2].scanned_at) by {
                                if j2 == i as int {
                                    assert(groups@[g as int].0 as int == spec_day_number(
                                        events[i as int].scanned_at,
                                    ));
                                } else {
                                    let w = choose|w: int|
                                        0 <= w < pre_groups.len()
                                            && #[trigger] pre_groups[w].0 as int
                                            == spec_day_number(events[j2].scanned_at);
                                    assert(groups@[w].0 == pre_groups[w].0);
                                }
                            }
                        }
                    },
                    None => {
                        let ghost pre_groups = groups@;
                        groups.push((dn, 1));
                        proof {
                            assert forall|j2: int|
                                0 <= j2 < events.subrange(0, i as int).len() && spec_trend_event(
                                    #[trigger] events.subrange(0, i as int)[j2],
                                    property_id@,
                                    cutoff as int,
                                ) implies spec_day_number(
                                events.subrange(0, i as int)[j2].scanned_at,
                            ) != dn as int by {
                                assert(events.subrange(0, i as int)[j2] == events[j2]);
                                let w = choose|w: int|
                                    0 <= w < pre_groups.len() && #[trigger] pre_groups[w].0 as int
                                        == spec_day_number(events[j2].scanned_at);
                                assert(pre_groups[w].0 != dn);
                            }
                            lemma_day_count_zero(
                                events.subrange(0, i as int),
                                property_id@,
                                dn as int,
                                cutoff as int,
                            );
                            assert forall|g2: int| 0 <= g2 < groups@.len() implies
                                #[trigger] groups@[g2].1 == spec_day_count_for(
                                events.subrange(0, i + 1),
                                property_id@,
                                groups@[g2].0 as int,
                                cutoff as int,
                            ) by {
                                if g2 < groups@.len() - 1 {
                                    assert(groups@[g2] == pre_groups[g2]);
                                    assert(pre_groups[g2].0 != dn);
                                }
                            }
                            assert forall|j2: int|
                                0 <= j2 < i + 1 && spec_trend_event(
                                    #[trigger] events[j2],
                                    property_id@,
                                    cutoff as int,
                                ) implies exists|g: int|
                                0 <= g < groups@.len() && #[trigger] groups@[g].0 as int
                                    == spec_day_number(events[j2].scanned_at) by {
                                if j2 < i as int {
                                    let w = choose|w: int|
                                        0 <= w < pre_groups.len()
                                            && #[trigger] pre_groups[w].0 as int
                                            == spec_day_number(events[j2].scanned_at);
                                    assert(groups@[w].0 as int == spec_day_number(
                                        events[j2].scanned_at,
                                    ));
                                } else {
                                    assert(groups@[groups@.len() - 1].0 as int == spec_day_number(
                                        events[j2].scanned_at,
                                    ));
                                }
                            }
                        }
                    },
                }
            } else {
                proof {
                    assert(!spec_trend_event(events[i as int], property_id@, cutoff as int));
                    assert forall|g2: int| 0 <= g2 < groups@.len() implies #[trigger] groups@[g2].1
                        == spec_day_count_for(
                        events.subrange(0, i + 1),
                        property_id@,
                        groups@[g2].0 as int,
                        cutoff as int,
                    ) by {}
                }
            }
            i += 1;
        }
        proof {
            assert(events.subrange(0, events.len() as int) =~= events);
        }
        // Order the days, earliest first.
        let mut ordered: Vec<(i64, i64)> = Vec::new();
        while groups.len() > 0
            invariant
                events.len() <= i64::MAX,
                forall|k: int|
                    0 <= k < ordered@.len() ==> (#[trigger] ordered@[k]).1 >= 1 && ordered@[k].1
                        == spec_day_count_for(
                        events,
                        property_id@,
                        ordered@[k].0 as int,
                        cutoff as int,
                    ),
                forall|k: int|
                    0 <= k < groups@.len() ==> (#[trigger] groups@[k]).1 >= 1 && groups@[k].1
                        == spec_day_count_for(
                        events,
                        property_id@,
                        groups@[k].0 as int,
                        cutoff as int,
                    ),
                forall|a: int, b: int|
                    0 <= a < ordered@.len() && 0 <= b < groups@.len() ==> #[trigger] ordered@[a].0
                        < #[trigger] groups@[b].0 || ordered@[a].0 != groups@[b].0,
                forall|a: int, b: int|
                    0 <= a < ordered@.len() && 0 <= b < groups@.len() ==> #[trigger] ordered@[a].0
                        <= #[trigger] groups@[b].0,
                forall|a: int, b: int|
                    0 <= a < ordered@.len() && 0 <= b < groups@.len() ==> #[trigger] ordered@[a].0
                        != #[trigger] groups@[b].0,
                forall|a: int, b: int|
                    0 <= a < b < ordered@.len() ==> #[trigger] ordered@[a].0
                        < #[trigger] ordered@[b].0,
                forall|a: int, b: int|
                    0 <= a < b < groups@.len() ==> #[trigger] groups@[a].0
                        != #[trigger] groups@[b].0,
                forall|j: int|
                    0 <= j < events.len() && spec_trend_event(#[trigger] events[j], property_id@, cutoff as int)
                        ==> (exists|g: int|
                        0 <= g < ordered@.len() && #[trigger] ordered@[g].0 as int
                            == spec_day_number(events[j].scanned_at)) || (exists|g: int|
                        0 <= g < groups@.len() && #[trigger] groups@[g].0 as int == spec_day_number(
                            events[j].scanned_at,
                        )),
            decreases groups@.len(),
        {
            let mut mi: usize = 0;
            let mut j: usize = 1;
            while j < groups.len()
                invariant
                    0 < groups@.len(),
                    0 <= mi < groups@.len(),
                    1 <= j <= groups@.len(),
                    forall|x: int| 0 <= x < j ==> groups@[mi as int].0 <= #[trigger] groups@[x].0,
                decreases groups@.len() - j,
            {
                if groups[j].0 < groups[mi].0 {
                    mi = j;
                }
                j += 1;
            }
            let ghost pre_groups = groups@;
            let ghost pre_ordered = ordered@;
            let m = groups.remove(mi);
            proof {
                assert(m == pre_groups[mi as int]);
                assert forall|x: int| 0 <= x < groups@.len() implies (#[trigger] groups@[x]).1 >= 1
                    && groups@[x].1 == spec_day_count_for(
                    events,
                    property_id@,
                    groups@[x].0 as int,
                    cutoff as int,
                ) && m.0 <= groups@[x].0 && m.0 != groups@[x].0 by {
                    if x < mi as int {
                        assert(groups@[x] == pre_groups[x]);
                    } else {
                        assert(groups@[x] == pre_groups[x + 1]);
                        assert(pre_groups[mi as int].0 != pre_groups[x + 1].0);
                    }
                }
                assert forall|a: int, b: int| 0 <= a < b < groups@.len() implies
                    #[trigger] groups@[a].0 != #[trigger] groups@[b].0 by {
                    let a2 = if a < mi as int { a } else { a + 1 };
                    let b2 = if b < mi as int { b } else { b + 1 };
                    assert(groups@[a] == pre_groups[a2]);
                    assert(groups@[b] == pre_groups[b2]);
                }
            }
            ordered.push(m);
            proof {
                assert forall|a: int, b: int|
                    0 <= a < ordered@.len() && 0 <= b < groups@.len() implies
                    #[trigger] ordered@[a].0 <= #[trigger] groups@[b].0 && ordered@[a].0
                    != groups@[b].0 by {
                    let b2 = if b < mi as int { b } else { b + 1 };
                    assert(groups@[b] == pre_groups[b2]);
                    if a < pre_ordered.len() {
                        assert(ordered@[a] == pre_ordered[a]);
                    } else {
                        assert(ordered@[a] == m);
                    }
                }
                assert forall|a: int, b: int| 0 <= a < b < ordered@.len() implies
                    #[trigger] ordered@[a].0 < #[trigger] ordered@[b].0 by {
                    if b < pre_ordered.len() {
                        assert(ordered@[a] == pre_ordered[a]);
                        assert(ordered@[b] == pre_ordered[b]);
                    } else {
                        assert(ordered@[a] == pre_ordered[a]);
                        assert(ordered@[b] == m);
                        assert(pre_ordered[a].0 <= pre_groups[mi as int].0);
                        assert(pre_ordered[a].0 != pre_groups[mi as int].0);
                    }
                }
                assert forall|j2: int|
                    0 <= j2 < events.len() && spec_trend_event(
                        #[trigger] events[j2],
                        property_id@,
                        cutoff as int,
                    ) implies (exists|g: int|
                    0 <= g < ordered@.len() && #[trigger] ordered@[g].0 as int == spec_day_number(
                        events[j2].scanned_at,
                    )) || (exists|g: int|
                    0 <= g < groups@.len() && #[trigger] groups@[g].0 as int == spec_day_number(
                        events[j2].scanned_at,
                    )) by {
                    let dn2 = spec_day_number(events[j2].scanned_at);
                    if exists|g: int|
                        0 <= g < pre_ordered.len() && #[trigger] pre_ordered[g].0 as int == dn2 {
                        let w = choose|w: int|
                            0 <= w < pre_ordered.len() && #[trigger] pre_ordered[w].0 as int
                                == dn2;
                        assert(ordered@[w].0 as int == dn2);
                    } else {
                        let w = choose|w: int|
                            0 <= w < pre_groups.len() && #[trigger] pre_groups[w].0 as int == dn2;
                        if w == mi as int {
                            assert(ordered@[ordered@.len() - 1].0 as int == dn2);
                        } else if w < mi as int {
                            assert(groups@[w].0 as int == dn2);
                        } else {
                            assert(groups@[w - 1].0 as int == dn2);
                        }
                    }
                }
            }
        }
        // Render the rows.
        let mut out: Vec<DailyScanCount> = Vec::new();
        let mut k: usize = 0;
        while k < ordered.len()
            invariant
                0 <= k <= ordered@.len(),
                out@.len() == k,
                forall|x: int|
                    0 <= x < k ==> (#[trigger] out@[x]).date@ == date_str_of(ordered@[x].0)
                        && out@[x].count == ordered@[x].1,
            decreases ordered@.len() - k,
        {
            out.push(DailyScanCount { date: date_string(ordered[k].0), count: ordered[k].1 });
            k += 1;
        }
        proof {
            let days_list = ordered@.map_values(|p: (i64, i64)| p.0);
            assert forall|x: int| 0 <= x < days_list.len() implies #[trigger] days_list[x]
                == ordered@[x].0 by {}
            assert forall|j2: int|
                0 <= j2 < events.len() && spec_trend_event(
                    #[trigger] events[j2],
                    property_id@,
                    cutoff as int,
                ) implies exists|g: int|
                0 <= g < days_list.len() && #[trigger] days_list[g] as int == spec_day_number(
                    events[j2].scanned_at,
                ) by {
                let w = choose|w: int|
                    0 <= w < ordered@.len() && #[trigger] ordered@[w].0 as int == spec_day_number(
                        events[j2].scanned_at,
                    );
                assert(days_list[w] as int == spec_day_number(events[j2].scanned_at));
            }
            assert(spec_trends_ok(events, property_id@, out@, days_list, cutoff as int));
        }
        out
    }

    /// The daily trend series of `property_id` over the last `days` days: the
    /// exact series at the cutoff some clock reading fixes.
    pub fn get_property_scan_trends(&self, property_id: &str, days: i64) -> (r: Result<
        Vec<DailyScanCount>,
        AnalyticsError,
    >)
        requires
            self.spec_events().len() <= i64::MAX,
        ensures
            r is Ok,
            exists|c: int, days_list: Seq<i64>|
                #[trigger] spec_trends_ok(
                    self.spec_events(),
                    property_id@,
                    (r->Ok_0)@,
                    days_list,
                    c,
                ),
    {
        let now = now_unix();
        let v = self.get_property_scan_trends_at(property_id, days, now);
        let res: Result<Vec<DailyScanCount>, AnalyticsError> = Ok(v);
        proof {
            let c0: int = spec_cutoff(now as int, days as int);
            let dl = choose|days_list: Seq<i64>|
                #[trigger] spec_trends_ok(self.spec_events(), property_id@, v@, days_list, c0);
            assert(spec_trends_ok(self.spec_events(), property_id@, (res->Ok_0)@, dl, c0));
        }
        res
    }

    /// Scan counts by country since the cutoff that `days` before `now`
    /// fixes, over the events that carry a derived country (and of one
    /// property when one is named): at most 20 rows, most scanned first, each
    /// with its share in basis points.
    pub fn get_geographic_distribution_at(
        &self,
        property_id: Option<&str>,
        days: i64,
        now: i64,
    ) -> (r: Vec<CountryStats>)
        requires
            self.spec_events().len() <= i64::MAX,
        ensures
            r@.len() <= 20,
            forall|k: int|
                0 <= k < r@.len() ==> #[trigger] r@[k].count >= 1 && 0 <= r@[k].percentage_bp
                    <= 10000,
            forall|a: int, b: int|
                0 <= a < b < r@.len() ==> #[trigger] r@[a].count >= #[trigger] r@[b].count,
            (r@.len() > 0) == spec_has_country_event(
                self.spec_events(),
                spec_opt_strslice_view(property_id),
                spec_cutoff(now as int, days as int),
            ),
    {
        let ghost events = self.spec_events();
        let ghost pidv = spec_opt_strslice_view(property_id);
        let wide: i128 = (now as i128) - (days as i128) * 86400;
        let cutoff: i64 = if wide < i64::MIN as i128 {
            i64::MIN
        } else if wide > i64::MAX as i128 {
            i64::MAX
        } else {
            wide as i64
        };
        proof {
            assert(cutoff as int == spec_cutoff(now as int, days as int));
        }
        // Group the matching events by country.
        let mut names: Vec<String> = Vec::new();
        let mut counts: Vec<i64> = Vec::new();
        let mut total: i64 = 0;
        let mut i: usize = 0;
        while i < self.scan_events.len()
            invariant
                events == self.spec_events(),
                pidv == spec_opt_strslice_view(property_id),
                events.len() <= i64::MAX,
                0 <= i <= events.len(),
                names@.len() == counts@.len(),
                0 <= total <= i,
                forall|k: int| 0 <= k < counts@.len() ==> 1 <= #[trigger] counts@[k] <= total,
                (names@.len() > 0) == (exists|j: int|
                    0 <= j < i && spec_country_event(#[trigger] events[j], pidv, cutoff as int)),
            decreases events.len() - i,
        {
            let e = &self.scan_events[i];
            let pid_matches = Self::pid_filter_matches(e.property_id.as_str(), property_id);
            match &e.geolocation {
                Some(geo) => match &geo.country {
                    Some(c) => {
                        if pid_matches && e.scanned_at >= cutoff {
                            proof {
                                assert(spec_country_event(events[i as int], pidv, cutoff as int));
                            }
                            let mut found: Option<usize> = None;
                            let mut j: usize = 0;
                            while j < names.len()
                                invariant
                                    0 <= j <= names@.len(),
                                    match found {
                                        Some(f) => f < names@.len(),
                                        None => true,
                                    },
                                decreases names@.len() - j,
                            {
                                if str_eq(names[j].as_str(), c.as_str()) {
                                    found = Some(j);
                                    j = names.len();
                                } else {
                                    j += 1;
                                }
                            }
                            match found {
                                Some(g) => {
                                    let t = counts[g];
                                    counts.set(g, t + 1);
                                },
                                None => {
                                    names.push(c.clone());
                                    counts.push(1);
                                },
                            }
                            total = total + 1;
                        } else {
                            proof {
                                assert(!spec_country_event(events[i as int], pidv, cutoff as int));
                            }
                        }
                    },
                    None => {
                        proof {
                            assert(!spec_country_event(events[i as int], pidv, cutoff as int));
                        }
                    },
                },
                None => {
                    proof {
                        assert(!spec_country_event(events[i as int], pidv, cutoff as int));
                    }
                },
            }
            i += 1;
        }
        proof {
            assert((names@.len() > 0) == spec_has_country_event(events, pidv, cutoff as int));
        }
        // Build and rank the rows.
        let mut rows: Vec<CountryStats> = Vec::new();
        let mut k: usize = 0;
        while k < names.len()
            invariant
                names@.len() == counts@.len(),
                0 <= k <= names@.len(),
                rows@.len() == k,
                0 <= total,
                forall|x: int| 0 <= x < counts@.len() ==> 1 <= #[trigger] counts@[x] <= total,
                forall|x: int|
                    0 <= x < rows@.len() ==> #[trigger] rows@[x].count >= 1 && 0
                        <= rows@[x].percentage_bp <= 10000,
            decreases names@.len() - k,
        {
            let c = counts[k];
            proof {
                assert(0 <= (c as int) * 10000 / (total as int) <= 10000) by (nonlinear_arith)
                    requires
                        0 < c <= total,
                ;
            }
            let pct_wide: u128 = ((c as u128) * 10000) / (total as u128);
            rows.push(
                CountryStats {
                    country: names[k].clone(),
                    count: c,
                    percentage_bp: pct_wide as i64,
                },
            );
            k += 1;
        }
        let ghost n0 = rows@.len();
        let mut ranked: Vec<CountryStats> = Vec::new();
        while rows.len() > 0
            invariant
                ranked@.len() + rows@.len() == n0,
                forall|x: int|
                    0 <= x < ranked@.len() ==> #[trigger] ranked@[x].count >= 1 && 0
                        <= ranked@[x].percentage_bp <= 10000,
                forall|x: int|
                    0 <= x < rows@.len() ==> #[trigger] rows@[x].count >= 1 && 0
                        <= rows@[x].percentage_bp <= 10000,
                forall|a: int, b: int|
                    0 <= a < ranked@.len() && 0 <= b < rows@.len() ==> #[trigger] ranked@[a].count
                        >= #[trigger] rows@[b].count,
                forall|a: int, b: int|
                    0 <= a < b < ranked@.len() ==> #[trigger] ranked@[a].count
                        >= #[trigger] ranked@[b].count,
            decreases rows@.len(),
        {
            let mut mi: usize = 0;
            let mut j: usize = 1;
            while j < rows.len()
                invariant
                    0 < rows@.len(),
                    0 <= mi < rows@.len(),
                    1 <= j <= rows@.len(),
                    forall|x: int| 0 <= x < j ==> rows@[mi as int].count >= #[trigger] rows@[x].count,
                decreases rows@.len() - j,
            {
                if rows[j].count > rows[mi].count {
                    mi = j;
                }
                j += 1;
            }
            let ghost pre_rows = rows@;
            let m = rows.remove(mi);
            proof {
                assert(m == pre_rows[mi as int]);
                assert forall|x: int| 0 <= x < rows@.len() implies #[trigger] rows@[x].count >= 1
                    && 0 <= rows@[x].percentage_bp <= 10000 && m.count >= rows@[x].count by {
                    if x < mi as int {
                        assert(rows@[x] == pre_rows[x]);
                    } else {
                        assert(rows@[x] == pre_rows[x + 1]);
                    }
                }
            }
            ranked.push(m);
        }
        while ranked.len() > 20
            invariant
                (ranked@.len() > 0) == (n0 > 0),
                forall|x: int|
                    0 <= x < ranked@.len() ==> #[trigger] ranked@[x].count >= 1 && 0
                        <= ranked@[x].percentage_bp <= 10000,
                forall|a: int, b: int|
                    0 <= a < b < ranked@.len() ==> #[trigger] ranked@[a].count
                        >= #[trigger] ranked@[b].count,
            decreases ranked@.len(),
        {
            let popped = ranked.pop();
            let _ = popped;
        }
        proof {
            assert((ranked@.len() > 0) == spec_has_country_event(events, pidv, cutoff as int));
        }
        ranked
    }

    /// Scan counts by country over the last `days` days, judged now.
    pub fn get_geographic_distribution(&self, property_id: Option<&str>, days: i64) -> (r: Result<
        Vec<CountryStats>,
        AnalyticsError,
    >)
        requires
            self.spec_events().len() <= i64::MAX,
        ensures
            r is Ok,
            match r {
                Ok(v) => v@.len() <= 20,
                Err(_) => false,
            },
    {
        let now = now_unix();
        Ok(self.get_geographic_distribution_at(property_id, days, now))
    }

    /// Drop every event scanned before `cutoff`, keeping the rest in order;
    /// how many were dropped.
    pub fn cleanup_old_events_at(&mut self, cutoff: i64) -> (r: u64)
        requires
            old(self).wf(),
        ensures
            final (self).wf(),
            final (self).spec_events() == spec_kept_events(old(self).spec_events(), cutoff as int),
            final (self).spec_pa() == old(self).spec_pa(),
            final (self).spec_sys() == old(self).spec_sys(),
            r == old(self).spec_events().len() - final (self).spec_events().len(),
    {
        let ghost orig = self.spec_events();
        let initial_len: usize = self.scan_events.len();
        let mut i: usize = 0;
        let mut p: usize = 0;
        assert(orig.subrange(0, 0) =~= Seq::<ScanEvent>::empty());
        assert(orig.subrange(0, initial_len as int) =~= orig);
        while p < initial_len
            invariant
                0 <= p <= initial_len,
                i <= p,
                initial_len == orig.len(),
                self.spec_pa() == old(self).spec_pa(),
                self.spec_sys() == old(self).spec_sys(),
                old(self).spec_events() == orig,
                i == spec_kept_events(orig.subrange(0, p as int), cutoff as int).len(),
                self.spec_events().len() == i + (initial_len - p),
                self.spec_events() =~= spec_kept_events(orig.subrange(0, p as int), cutoff as int)
                    + orig.subrange(p as int, initial_len as int),
            decreases initial_len - p,
        {
            proof {
                assert(orig.subrange(0, p + 1).drop_last() =~= orig.subrange(0, p as int));
                assert(orig.subrange(0, p + 1).last() == orig[p as int]);
                assert(self.spec_events()[i as int] == orig[p as int]);
                lemma_kept_events_bound(orig.subrange(0, p as int), cutoff as int);
            }
            if self.scan_events[i].scanned_at < cutoff {
                let removed = self.scan_events.remove(i);
                let _ = removed;
                proof {
                    assert(self.spec_events() =~= spec_kept_events(
                        orig.subrange(0, p + 1),
                        cutoff as int,
                    ) + orig.subrange(p + 1, initial_len as int));
                }
            } else {
                i += 1;
                proof {
                    assert(self.spec_events() =~= spec_kept_events(
                        orig.subrange(0, p + 1),
                        cutoff as int,
                    ) + orig.subrange(p + 1, initial_len as int));
                }
            }
            p += 1;
        }
        proof {
            assert(orig.subrange(0, initial_len as int) =~= orig);
            assert(orig.subrange(initial_len as int, initial_len as int) =~= Seq::<
                ScanEvent,
            >::empty());
            assert(self.spec_events() =~= spec_kept_events(orig, cutoff as int));
        }
        let kept = self.scan_events.len();
        (initial_len - kept) as u64
    }

    /// Drop the events older than `retention_days`, judged now; how many were
    /// dropped.
    pub fn cleanup_old_events(&mut self, retention_days: i64) -> (r: Result<u64, AnalyticsError>)
        requires
            old(self).wf(),
        ensures
            final (self).wf(),
            r is Ok,
            final (self).spec_pa() == old(self).spec_pa(),
            final (self).spec_sys() == old(self).spec_sys(),
            exists|c: int|
                #[trigger] spec_kept_events(old(self).spec_events(), c) == final (
                self).spec_events(),
            r->Ok_0 == old(self).spec_events().len() - final (self).spec_events().len(),
    {
        let now = now_unix();
        let wide: i128 = (now as i128) - (retention_days as i128) * 86400;
        let cutoff: i64 = if wide < i64::MIN as i128 {
            i64::MIN
        } else if wide > i64::MAX as i128 {
            i64::MAX
        } else {
            wide as i64
        };
        let removed = self.cleanup_old_events_at(cutoff);
        proof {
            assert(spec_kept_events(old(self).spec_events(), cutoff as int)
                == self.spec_events());
        }
        Ok(removed)
    }
}


} // verus!
