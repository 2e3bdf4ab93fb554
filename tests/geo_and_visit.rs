use std::collections::HashSet;

use sinsuan::cors::CORS;
use sinsuan::counts::{CombinedVisitCount, VisitRecord};
use sinsuan::geo::{location_request_url, resolvable, update_location, Config, GeoAction, GeoEvent, QQMapConfig};
use sinsuan::visit::{choose_visitor_id, record_visit, visit_listing_statement, visit_response};

fn config(key: &str, sk: &str) -> Config {
    Config {
        qq_map: QQMapConfig {
            base_url: "https://apis.map.qq.com".to_string(),
            key: key.to_string(),
            sk: sk.to_string(),
        },
    }
}

/// Runs one resolution against an in-memory cache and returns the provider calls made.
fn resolve(cfg: &Config, ip: &str, cache: &mut HashSet<String>, found: bool) -> u32 {
    let mut calls = 0;
    let mut action = update_location(cfg, ip, GeoEvent::Begin);
    loop {
        action = match action {
            GeoAction::Done => return calls,
            GeoAction::LookUpCache { ip } => update_location(cfg, &ip, GeoEvent::CacheChecked(cache.contains(&ip))),
            GeoAction::Fetch { .. } => {
                calls += 1;
                update_location(cfg, ip, GeoEvent::Fetched(found))
            }
            GeoAction::Store { ip } => {
                cache.insert(ip.clone());
                update_location(cfg, &ip, GeoEvent::Stored)
            }
        };
    }
}

#[test]
fn request_url_is_signed() {
    let cfg = config("KEY1", "SK+1");
    assert_eq!(
        location_request_url(&cfg.qq_map, "1.2.3.4"),
        "https://apis.map.qq.com/ws/location/v1/ip?key=KEY1&ip=1.2.3.4&sig=626ee9e49433cc037325d9dbdd7394c5"
    );
}

#[test]
fn second_resolution_is_a_cache_hit() {
    let cfg = config("KEY1", "SK1");
    let mut cache = HashSet::new();
    assert_eq!(resolve(&cfg, "8.8.8.8", &mut cache, true), 1);
    assert!(cache.contains("8.8.8.8"));
    assert_eq!(resolve(&cfg, "8.8.8.8", &mut cache, true), 0);
}

#[test]
fn answer_without_location_is_retried() {
    let cfg = config("KEY1", "SK1");
    let mut cache = HashSet::new();
    assert_eq!(resolve(&cfg, "8.8.4.4", &mut cache, false), 1);
    assert!(cache.is_empty());
    assert_eq!(resolve(&cfg, "8.8.4.4", &mut cache, true), 1);
}

#[test]
fn loopback_and_unconfigured_are_skipped() {
    let mut cache = HashSet::new();
    assert_eq!(resolve(&config("KEY1", "SK1"), "127.0.0.1", &mut cache, true), 0);
    assert_eq!(resolve(&config("", "SK1"), "8.8.8.8", &mut cache, true), 0);
    assert_eq!(resolve(&config("KEY1", ""), "8.8.8.8", &mut cache, true), 0);
    assert!(cache.is_empty());
    assert!(!resolvable(&config("KEY1", "SK1").qq_map, "127.0.0.1"));
    assert!(resolvable(&config("KEY1", "SK1").qq_map, "127.0.0.2"));
}

#[test]
fn failure_ends_resolution() {
    let cfg = config("KEY1", "SK1");
    assert!(matches!(update_location(&cfg, "8.8.8.8", GeoEvent::Failed), GeoAction::Done));
    match update_location(&cfg, "8.8.8.8", GeoEvent::CacheChecked(false)) {
        GeoAction::Fetch { url } => assert!(url.contains("ip=8.8.8.8")),
        _ => panic!("expected a provider request"),
    }
}

#[test]
fn record_statement_and_values() {
    let v = VisitRecord { path: "/p".to_string(), user_id: "u".to_string(), ip: "1.1.1.1".to_string() };
    let (sql, params) = record_visit("a.com", &v);
    assert_eq!(sql, "INSERT INTO visit_record_a_com (path, user_id, ip, timestamp) VALUES ($1, $2, $3, CURRENT_TIMESTAMP)");
    assert_eq!(params, vec!["/p".to_string(), "u".to_string(), "1.1.1.1".to_string()]);
    assert_eq!(visit_listing_statement("a.com"), "SELECT path, user_id, ip FROM visit_record_a_com");
}

#[test]
fn failed_record_still_answers() {
    let counts = CombinedVisitCount { sin_suan_id: None, pv: 2, uv: 1, site_pv: 5, site_uv: 3 };
    let r = visit_response(true, false, Some(counts.clone()), "id-1".to_string()).unwrap();
    assert_eq!(r.sin_suan_id.as_deref(), Some("id-1"));
    assert_eq!((r.pv, r.uv, r.site_pv, r.site_uv), (2, 1, 5, 3));
    assert!(visit_response(false, true, Some(counts), "id-1".to_string()).is_none());
    assert!(visit_response(true, true, None, "id-1".to_string()).is_none());
}

#[test]
fn visitor_id_defaults_to_generated() {
    assert_eq!(choose_visitor_id("", "fresh".to_string()), "fresh");
    assert_eq!(choose_visitor_id("mine", "fresh".to_string()), "mine");
}

#[test]
fn cors_headers_echo_origin() {
    let h = CORS.response_headers(Some("https://x.org"));
    assert_eq!(h[0], ("Access-Control-Allow-Origin".to_string(), "https://x.org".to_string()));
    assert_eq!(h.len(), 4);
    let h = CORS.response_headers(None);
    assert_eq!(h[0].1, "*");
    assert_eq!(h[1].1, "GET, OPTIONS");
    assert_eq!(h[3], ("Access-Control-Allow-Credentials".to_string(), "true".to_string()));
}
