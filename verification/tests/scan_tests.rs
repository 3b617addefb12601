use property_qr::analytics::{AnalyticsService, DeviceInfo, DeviceType, RedirectType, ScanSource};
use property_qr::property::{PropertyService, PropertyQrInfo};
use property_qr::scan::{
    ScanEngine, ScanOutcome, ScanResponse, RedirectUrls, create_error_page, create_redirect_page,
    resolve_scan_source, resolve_redirect_type, ScanRedirectData,
};

const ON_ID: &str = "aaaaaaaaaaaaaaaaaaaaaaaa";
const OFF_ID: &str = "bbbbbbbbbbbbbbbbbbbbbbbb";

fn info(id: &str, onchain: Option<&str>) -> PropertyQrInfo {
    PropertyQrInfo {
        id: id.to_string(),
        property_name: "Sunset Villa".to_string(),
        location: "Nairobi".to_string(),
        action: "for sale".to_string(),
        price: 50000,
        onchain_id: onchain.map(|s| s.to_string()),
        crypto_accepted: true,
        images: vec!["https://cdn.example.com/0.png".to_string()],
        is_verified: Some(true),
        removed: None,
    }
}

fn make_engine() -> ScanEngine {
    let mut props = PropertyService::new();
    props.upsert_property(info(ON_ID, Some("0xabc")), "Residential".to_string(), 1);
    props.upsert_property(info(OFF_ID, None), "Residential".to_string(), 2);
    ScanEngine::new(
        props,
        AnalyticsService::new(),
        "https://www.daobitat.xyz".to_string(),
        "https://basescan.org".to_string(),
    )
}

#[test]
fn test_create_error_page() {
    let html = create_error_page("Test Error", "test123");
    assert!(html.contains("Test Error"));
    assert!(html.contains("test123"));
    assert!(html.contains("<!DOCTYPE html>"));
}

#[test]
fn test_scan_response_creation() {
    let response = ScanResponse {
        success: true,
        property_id: "test123".to_string(),
        redirect_type: "dual".to_string(),
        urls: RedirectUrls {
            property_url: "https://daobitat.xyz/property/test123".to_string(),
            blockchain_url: Some("https://explorer.base.org/token/test123".to_string()),
            redirect_page_url: "https://qr.daobitat.xyz/scan/test123".to_string(),
        },
        scan_id: "scan123".to_string(),
    };

    assert_eq!(response.success, true);
    assert_eq!(response.property_id, "test123");
}

#[test]
fn scan_source_hints_resolve_with_qr_default() {
    assert_eq!(resolve_scan_source(Some("qr")), ScanSource::QrCode);
    assert_eq!(resolve_scan_source(Some("direct")), ScanSource::DirectLink);
    assert_eq!(resolve_scan_source(Some("share")), ScanSource::ShareLink);
    assert_eq!(resolve_scan_source(Some("search")), ScanSource::SearchEngine);
    assert_eq!(resolve_scan_source(Some("social")), ScanSource::SocialMedia);
    assert_eq!(resolve_scan_source(Some("anything")), ScanSource::QrCode);
    assert_eq!(resolve_scan_source(None), ScanSource::QrCode);
}

#[test]
fn redirect_classification_follows_hint_and_onchain_presence() {
    // No hint with an on-chain id: the dual page.
    assert_eq!(resolve_redirect_type(None, true), RedirectType::DualRedirect);
    // A dual hint without an on-chain id: the property page.
    assert_eq!(resolve_redirect_type(Some("dual"), false), RedirectType::DaobitarOnly);
    // Explicit hints win.
    assert_eq!(resolve_redirect_type(Some("property"), true), RedirectType::DaobitarOnly);
    assert_eq!(resolve_redirect_type(Some("blockchain"), true), RedirectType::BlockchainOnly);
}

#[test]
fn scan_without_hint_lands_on_dual_page_when_onchain() {
    let mut engine = make_engine();
    match engine.handle_scan(ON_ID, None, None, None, Some("1.2.3.4".to_string()), None) {
        ScanOutcome::LandingPage(data) => {
            assert_eq!(data.property_id, ON_ID);
            assert_eq!(data.daobitar_url, format!("https://www.daobitat.xyz/property/{}", ON_ID));
            assert_eq!(data.blockchain_url, Some("https://basescan.org/token/0xabc".to_string()));
            assert!(!data.scan_id.is_empty());
        },
        _ => panic!("expected the dual landing page"),
    }
    let events = engine.analytics().events();
    assert_eq!(events.len(), 1);
    assert!(events[0].redirect_success);
    assert_eq!(events[0].qr_version, 1);
}

#[test]
fn scan_with_dual_hint_redirects_to_property_without_onchain() {
    let mut engine = make_engine();
    match engine.handle_scan(OFF_ID, Some("qr"), Some("dual"), None, None, None) {
        ScanOutcome::RedirectTo(url) => {
            assert_eq!(url, format!("https://www.daobitat.xyz/property/{}", OFF_ID));
        },
        _ => panic!("expected a property redirect"),
    }
}

#[test]
fn scan_with_blockchain_hint_falls_back_without_onchain() {
    // A blockchain-only request of a property with no on-chain id falls back
    // to the property page, never to an error.
    let mut engine = make_engine();
    match engine.handle_scan(OFF_ID, None, Some("blockchain"), None, None, None) {
        ScanOutcome::RedirectTo(url) => {
            assert_eq!(url, format!("https://www.daobitat.xyz/property/{}", OFF_ID));
        },
        _ => panic!("expected the property fallback"),
    }
}

#[test]
fn scan_with_blockchain_hint_uses_explorer_when_onchain() {
    let mut engine = make_engine();
    match engine.handle_scan(ON_ID, None, Some("blockchain"), None, None, None) {
        ScanOutcome::RedirectTo(url) => {
            assert_eq!(url, "https://basescan.org/token/0xabc");
        },
        _ => panic!("expected the explorer redirect"),
    }
}

#[test]
fn scan_of_unknown_property_degrades_to_error_page() {
    // An unknown id ends in a rendered error page with a failed scan
    // recorded; no error surfaces.
    let mut engine = make_engine();
    match engine.handle_scan("ghost", None, None, Some("agent".to_string()), None, None) {
        ScanOutcome::NotFoundPage(html) => {
            assert!(html.contains("Property not found"));
            assert!(html.contains("ghost"));
        },
        _ => panic!("expected the error page"),
    }
    let events = engine.analytics().events();
    assert_eq!(events.len(), 1);
    assert!(!events[0].redirect_success);
    assert_eq!(events[0].redirect_type, RedirectType::Failed);
    assert_eq!(events[0].property_id, "ghost");
}

#[test]
fn get_scan_data_reports_targets_or_error() {
    let mut engine = make_engine();
    let resp = engine.get_scan_data(ON_ID, Some("direct"), None, None).unwrap();
    assert!(resp.success);
    assert_eq!(resp.redirect_type, "dual");
    assert_eq!(resp.urls.property_url, format!("https://www.daobitat.xyz/property/{}", ON_ID));
    assert_eq!(resp.urls.blockchain_url, Some("https://basescan.org/token/0xabc".to_string()));
    assert_eq!(resp.urls.redirect_page_url, format!("https://www.daobitat.xyz/scan/{}", ON_ID));

    let off = engine.get_scan_data(OFF_ID, None, None, None).unwrap();
    assert_eq!(off.redirect_type, "property");
    assert!(off.urls.blockchain_url.is_none());

    assert!(engine.get_scan_data("ghost", None, None, None).is_err());
}

#[test]
fn redirect_page_carries_display_data_and_fallback() {
    let data = ScanRedirectData {
        property_id: "p1".to_string(),
        property_name: "Sunset Villa".to_string(),
        location: Some("Nairobi".to_string()),
        daobitar_url: "https://www.daobitat.xyz/property/p1".to_string(),
        blockchain_url: Some("https://basescan.org/token/0xabc".to_string()),
        action: "for sale".to_string(),
        price: 50000,
        primary_image: Some("https://cdn.example.com/0.png".to_string()),
        is_verified: true,
        crypto_accepted: true,
        scan_id: "scan-1".to_string(),
    };
    let html = create_redirect_page(&data);
    assert!(html.contains("<!DOCTYPE html>"));
    assert!(html.contains("Sunset Villa"));
    assert!(html.contains("KES 50000"));
    assert!(html.contains("https://www.daobitat.xyz/property/p1"));
    assert!(html.contains("https://basescan.org/token/0xabc"));
    assert!(html.contains("scan-1"));
    assert!(html.contains("10000"));
}

#[test]
fn device_derivation_follows_ordered_checks() {
    let phone = DeviceInfo::from_user_agent("Mozilla/5.0 (iPhone; CPU iPhone OS 14_0 like Mac OS X)");
    assert_eq!(phone.device_type, DeviceType::Mobile);
    assert!(phone.is_mobile);
    // "mac" is checked before "iphone" in the platform order.
    assert_eq!(phone.platform, Some("macOS".to_string()));

    let tablet = DeviceInfo::from_user_agent("Mozilla/5.0 (iPad; CPU OS 13_0)");
    assert_eq!(tablet.device_type, DeviceType::Tablet);

    let desktop = DeviceInfo::from_user_agent("Mozilla/5.0 (Windows NT 10.0) Chrome/120.0 Safari/537.36");
    assert_eq!(desktop.device_type, DeviceType::Desktop);
    assert_eq!(desktop.platform, Some("Windows".to_string()));
    assert_eq!(desktop.browser, Some("Chrome".to_string()));

    let safari = DeviceInfo::from_user_agent("Mozilla/5.0 (Macintosh) Safari/605.1");
    assert_eq!(safari.browser, Some("Safari".to_string()));
}
