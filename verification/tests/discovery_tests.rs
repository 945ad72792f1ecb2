use ble_session::discovery::{record_matches, scan_for_devices, str_contains, ScanRecord};
use ble_session::ids::SERVICE_UUID;

fn rec(id: &str, name: Option<&str>, services: Option<Vec<u128>>) -> ScanRecord {
    ScanRecord { id: id.to_string(), name: name.map(|n| n.to_string()), services }
}

#[test]
fn included_by_product_name() {
    let r = rec("dev-1", Some("Office StreamDeck XL"), None);
    assert!(record_matches(&r));
}

#[test]
fn included_by_service_id() {
    let r = rec("dev-2", None, Some(vec![0xdead, SERVICE_UUID]));
    assert!(record_matches(&r));
}

#[test]
fn excluded_when_both_lookups_failed() {
    let r = rec("dev-3", None, None);
    assert!(!record_matches(&r));
}

#[test]
fn excluded_when_nothing_matches() {
    let r = rec("dev-4", Some("Toaster"), Some(vec![0xbeef]));
    assert!(!record_matches(&r));
}

#[test]
fn name_match_is_exact_substring() {
    assert!(record_matches(&rec("d", Some("StreamDeck"), None)));
    assert!(record_matches(&rec("d", Some("xxStreamDeckyy"), None)));
    // the marker is case-sensitive
    assert!(!record_matches(&rec("d", Some("streamdeck"), None)));
    assert!(!record_matches(&rec("d", Some("Stream Deck"), None)));
}

#[test]
fn service_error_with_matching_name_still_included() {
    let r = rec("dev-5", Some("StreamDeck Mini"), None);
    assert!(record_matches(&r));
}

#[test]
fn property_error_with_matching_service_still_included() {
    let r = rec("dev-6", None, Some(vec![SERVICE_UUID]));
    assert!(record_matches(&r));
}

#[test]
fn filter_keeps_order_and_subset() {
    let records = vec![
        rec("a", Some("StreamDeck"), None),
        rec("b", Some("Lamp"), None),
        rec("c", None, Some(vec![SERVICE_UUID])),
        rec("d", None, None),
        rec("e", Some("My StreamDeck Pro"), Some(vec![])),
    ];
    let devices = scan_for_devices(&records);
    let ids: Vec<&str> = devices.iter().map(|d| d.id.as_str()).collect();
    assert_eq!(ids, vec!["a", "c", "e"]);
    assert_eq!(devices[0].name.as_deref(), Some("StreamDeck"));
    assert_eq!(devices[1].name, None);
}

#[test]
fn filter_of_empty_scan_is_empty() {
    let devices = scan_for_devices(&Vec::new());
    assert!(devices.is_empty());
}

#[test]
fn substring_search_edges() {
    assert!(str_contains("abc", ""));
    assert!(str_contains("abc", "abc"));
    assert!(!str_contains("ab", "abc"));
    assert!(str_contains("aab", "ab"));
    assert!(!str_contains("", "a"));
    assert!(str_contains("", ""));
}
