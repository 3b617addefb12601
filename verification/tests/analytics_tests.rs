use property_qr::analytics::{
    AnalyticsService, PropertyScanAnalytics, ScanEvent, ScanSource, RedirectType,
};

// Sat 2024-06-15 12:00:00 UTC.
const NOW: i64 = 1718452800;

#[test]
fn test_record_scan() {
    let mut service = AnalyticsService::new();

    let scan_id = service
        .record_scan(
            "test_property_123".to_string(),
            1,
            ScanSource::QrCode,
            RedirectType::DualRedirect,
            Some("Mozilla/5.0 (iPhone; CPU iPhone OS 14_0 like Mac OS X)".to_string()),
            Some("192.168.1.1".to_string()),
            Some("session_123".to_string()),
            None,
        )
        .expect("Failed to record scan");

    assert!(scan_id.len() > 0);
}

#[test]
fn test_get_property_analytics() {
    let mut service = AnalyticsService::new();

    service
        .record_scan(
            "test_property_456".to_string(),
            1,
            ScanSource::QrCode,
            RedirectType::DualRedirect,
            None,
            None,
            None,
            None,
        )
        .expect("Failed to record scan");

    let analytics = service
        .get_property_analytics("test_property_456", true)
        .expect("Failed to get analytics");

    assert_eq!(analytics.property_id, "test_property_456");
    assert_eq!(analytics.analytics.total_scans, 1);
    assert_eq!(analytics.recent_scans.len(), 1);
}

#[test]
fn success_rate_is_the_exact_incremental_mean() {
    // After successes [true, false, true] the rate is 66.66% (6666 basis
    // points), the same value a single batch pass computes from the counts.
    let mut analytics = PropertyScanAnalytics::new("p1".to_string());
    let ok1 = ScanEvent::new("p1".to_string(), 1, ScanSource::QrCode, RedirectType::DualRedirect);
    let failed =
        ScanEvent::new("p1".to_string(), 1, ScanSource::QrCode, RedirectType::DualRedirect)
            .mark_failed();
    let ok2 = ScanEvent::new("p1".to_string(), 1, ScanSource::QrCode, RedirectType::DualRedirect);

    assert_eq!(analytics.success_rate_bp, 10000);
    analytics.update_with_scan(&ok1);
    assert_eq!(analytics.success_rate_bp, 10000);
    analytics.update_with_scan(&failed);
    assert_eq!(analytics.success_rate_bp, 5000);
    analytics.update_with_scan(&ok2);
    assert_eq!(analytics.success_rate_bp, 6666);

    // The batch pass over the counters gives the same value.
    assert_eq!(analytics.total_scans, 3);
    assert_eq!(analytics.successful_scans, 2);
    assert_eq!(analytics.successful_scans * 10000 / analytics.total_scans, 6666);
}

#[test]
fn update_counts_devices_and_response_times() {
    let mut analytics = PropertyScanAnalytics::new("p1".to_string());
    let e = ScanEvent::new("p1".to_string(), 1, ScanSource::QrCode, RedirectType::DaobitarOnly)
        .with_device_info(property_qr::analytics::DeviceInfo::from_user_agent("android phone"))
        .with_response_time(40);
    analytics.update_with_scan(&e);
    let e2 = ScanEvent::new("p1".to_string(), 1, ScanSource::QrCode, RedirectType::DaobitarOnly)
        .with_response_time(20);
    analytics.update_with_scan(&e2);

    assert_eq!(analytics.device_breakdown.mobile, 1);
    assert_eq!(analytics.device_breakdown.desktop, 0);
    assert_eq!(analytics.average_response_time(), Some(30));
    assert_eq!(analytics.first_scanned, Some(e.scanned_at));
    assert_eq!(analytics.last_scanned, Some(e2.scanned_at));
}

#[test]
fn record_failed_scan_annotates_the_event() {
    let mut service = AnalyticsService::new();
    let id = service
        .record_failed_scan(
            "ghost".to_string(),
            1,
            "Property not found".to_string(),
            Some("agent".to_string()),
            Some("1.2.3.4".to_string()),
        )
        .unwrap();
    let events = service.events();
    assert_eq!(events.len(), 1);
    assert_eq!(events[0].id, id);
    assert!(!events[0].redirect_success);
    assert_eq!(events[0].redirect_type, RedirectType::Failed);
    assert_eq!(
        events[0].metadata,
        vec![("error_reason".to_string(), "Property not found".to_string())]
    );
}

#[test]
fn period_counters_follow_the_event_time() {
    // An event three days back counts for the month but not for today.
    let mut service = AnalyticsService::new();
    service.record_scan_at(
        "p1".to_string(),
        1,
        ScanSource::QrCode,
        RedirectType::DaobitarOnly,
        None,
        None,
        None,
        None,
        NOW - 3 * 86400,
    );
    let before = service.get_property_analytics_at("p1", false, NOW - 3 * 86400);
    assert_eq!(before.analytics.scans_today, 1);

    let mut service2 = AnalyticsService::new();
    let event = ScanEvent::new("p1".to_string(), 1, ScanSource::QrCode, RedirectType::DaobitarOnly);
    let mut aged = event;
    aged.scanned_at = NOW - 3 * 86400;
    service2.update_property_analytics_at("p1", &aged, NOW);
    let resp = service2.get_property_analytics_at("p1", false, NOW);
    assert_eq!(resp.analytics.scans_today, 0);
    assert_eq!(resp.analytics.scans_this_month, 1);
    assert_eq!(resp.analytics.total_scans, 1);
}

#[test]
fn scan_trends_group_by_day_with_rendered_dates() {
    let mut service = AnalyticsService::new();
    for _ in 0..2 {
        service.record_scan_at(
            "p1".to_string(),
            1,
            ScanSource::QrCode,
            RedirectType::DaobitarOnly,
            None,
            None,
            None,
            None,
            NOW,
        );
    }
    service.record_scan_at(
        "p1".to_string(),
        1,
        ScanSource::QrCode,
        RedirectType::DaobitarOnly,
        None,
        None,
        None,
        None,
        NOW - 86400,
    );
    let trends = service.get_property_scan_trends_at("p1", 30, NOW);
    assert_eq!(trends.len(), 2);
    assert_eq!(trends[0].date, "2024-06-14");
    assert_eq!(trends[0].count, 1);
    assert_eq!(trends[1].date, "2024-06-15");
    assert_eq!(trends[1].count, 2);
}

#[test]
fn leaderboard_ranks_by_successful_scans() {
    let mut service = AnalyticsService::new();
    for i in 0..3 {
        service.record_scan_at(
            "aaa".to_string(),
            1,
            ScanSource::QrCode,
            RedirectType::DaobitarOnly,
            None,
            Some(format!("10.0.0.{}", i)),
            None,
            None,
            NOW,
        );
    }
    service.record_scan_at(
        "bbb".to_string(),
        1,
        ScanSource::QrCode,
        RedirectType::DaobitarOnly,
        None,
        Some("10.0.0.1".to_string()),
        None,
        None,
        NOW,
    );
    let top = service.get_top_performing_properties_at(10, 30, NOW);
    assert_eq!(top.len(), 2);
    assert_eq!(top[0].property_id, "aaa");
    assert_eq!(top[0].total_scans, 3);
    assert_eq!(top[0].unique_scans, 3);
    assert_eq!(top[0].success_rate_bp, 10000);
    assert_eq!(top[1].property_id, "bbb");

    let capped = service.get_top_performing_properties_at(1, 30, NOW);
    assert_eq!(capped.len(), 1);
}

#[test]
fn system_analytics_counts_all_and_today() {
    let mut service = AnalyticsService::new();
    service.record_scan_at(
        "p1".to_string(),
        1,
        ScanSource::QrCode,
        RedirectType::DaobitarOnly,
        None,
        None,
        None,
        None,
        NOW - 40 * 86400,
    );
    service.record_scan_at(
        "p1".to_string(),
        1,
        ScanSource::QrCode,
        RedirectType::DaobitarOnly,
        None,
        None,
        None,
        None,
        NOW,
    );
    service.update_system_analytics_at(NOW);
    let resp = service.get_system_analytics(true).unwrap();
    assert_eq!(resp.system.total_scans_all_time, 2);
    assert_eq!(resp.system.total_scans_today, 1);
    assert!(resp.period_comparison.is_some());

    let comparison = service.calculate_period_comparison_at(NOW);
    assert_eq!(comparison.current_period.total_scans, 1);
    assert_eq!(comparison.previous_period.total_scans, 1);
    assert_eq!(comparison.percentage_change_bp, 0);
}

#[test]
fn cleanup_drops_only_the_old_events() {
    let mut service = AnalyticsService::new();
    service.record_scan_at(
        "p1".to_string(),
        1,
        ScanSource::QrCode,
        RedirectType::DaobitarOnly,
        None,
        None,
        None,
        None,
        NOW - 100 * 86400,
    );
    service.record_scan_at(
        "p1".to_string(),
        1,
        ScanSource::QrCode,
        RedirectType::DaobitarOnly,
        None,
        None,
        None,
        None,
        NOW,
    );
    let removed = service.cleanup_old_events_at(NOW - 90 * 86400);
    assert_eq!(removed, 1);
    assert_eq!(service.events().len(), 1);
    assert_eq!(service.events()[0].scanned_at, NOW);
}

#[test]
fn geographic_distribution_is_empty_without_derived_countries() {
    let mut service = AnalyticsService::new();
    service.record_scan_at(
        "p1".to_string(),
        1,
        ScanSource::QrCode,
        RedirectType::DaobitarOnly,
        None,
        Some("1.2.3.4".to_string()),
        None,
        None,
        NOW,
    );
    assert!(service.get_geographic_distribution_at(None, 30, NOW).is_empty());
    assert!(service.get_geolocation_from_ip().is_none());
}
