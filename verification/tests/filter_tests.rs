use fakturoid::client::EntityKind;
use fakturoid::filters::Filter;
use fakturoid::models::{InvoiceState, Timestamp};

fn ts(year: u16, month: u8, day: u8, hour: u8, minute: u8, second: u8, offset_minutes: i16) -> Timestamp {
    Timestamp { year, month, day, hour, minute, second, offset_minutes }
}

#[test]
fn fresh_filter_is_empty() {
    assert!(Filter::new().is_empty());
}

#[test]
fn any_single_setter_makes_nonempty() {
    let stamp = ts(2020, 1, 2, 3, 4, 5, 60);
    assert!(!Filter::new().page(1).is_empty());
    assert!(!Filter::new().since(stamp).is_empty());
    assert!(!Filter::new().until(stamp).is_empty());
    assert!(!Filter::new().updated_since(stamp).is_empty());
    assert!(!Filter::new().updated_until(stamp).is_empty());
    assert!(!Filter::new().custom_id("x").is_empty());
    assert!(!Filter::new().number("2020-1").is_empty());
    assert!(!Filter::new().status(InvoiceState::Open).is_empty());
    assert!(!Filter::new().subject_id(17).is_empty());
}

#[test]
fn page_last_write_wins() {
    let filter = Filter::new().page(2).page(5);
    let query = EntityKind::Invoice.build_filter(filter);
    assert_eq!(query.len(), 1);
    assert_eq!(query[0].0, "page");
    assert_eq!(query[0].1, "5");
}

#[test]
fn subject_projection_drops_excluded_keys() {
    let created = ts(2021, 6, 30, 12, 0, 0, 120);
    let updated = ts(2021, 7, 1, 8, 30, 0, 120);
    let filter = Filter::new()
        .page(3)
        .since(created)
        .until(created)
        .updated_since(updated)
        .updated_until(updated)
        .custom_id("ext-1")
        .number("2021-0042")
        .status(InvoiceState::Paid)
        .subject_id(99);
    let query = EntityKind::Subject.build_filter(filter);
    let keys: Vec<&str> = query.iter().map(|p| p.0.as_str()).collect();
    assert_eq!(keys, vec!["page", "since", "updated_since", "custom_id"]);
    assert!(!keys.contains(&"subject_id"));
    assert!(!keys.contains(&"until"));
    assert!(!keys.contains(&"updated_until"));
    assert!(!keys.contains(&"number"));
    assert!(!keys.contains(&"status"));
    assert_eq!(query[0].1, "3");
    assert_eq!(query[1].1, "2021-06-30T12:00:00+02:00");
    assert_eq!(query[2].1, "2021-07-01T08:30:00+02:00");
    assert_eq!(query[3].1, "ext-1");
}

#[test]
fn account_projection_of_nonempty_filter_is_empty() {
    let filter = Filter::new().page(1).custom_id("x").number("7");
    assert!(!filter.is_empty());
    let query = EntityKind::Account.build_filter(filter);
    assert!(query.is_empty());
}

#[test]
fn invoice_projection_keeps_every_criterion() {
    let created = ts(2019, 12, 31, 23, 59, 59, 0);
    let filter = Filter::new()
        .page(1)
        .since(created)
        .until(created)
        .updated_since(created)
        .updated_until(created)
        .custom_id("c")
        .number("n")
        .status(InvoiceState::Overdue)
        .subject_id(-8);
    let query = EntityKind::Invoice.build_filter(filter);
    let keys: Vec<&str> = query.iter().map(|p| p.0.as_str()).collect();
    assert_eq!(
        keys,
        vec![
            "page",
            "since",
            "until",
            "updated_since",
            "updated_until",
            "custom_id",
            "number",
            "status",
            "subject_id"
        ]
    );
    assert_eq!(query[0].1, "1");
    assert_eq!(query[1].1, "2019-12-31T23:59:59+00:00");
    assert_eq!(query[7].1, "overdue");
    assert_eq!(query[8].1, "-8");
}

#[test]
fn setters_overwrite_their_own_key_only() {
    let filter = Filter::new().custom_id("first").page(4).custom_id("second");
    let query = EntityKind::Invoice.build_filter(filter);
    assert_eq!(query.len(), 2);
    assert_eq!(query[0], ("page".to_string(), "4".to_string()));
    assert_eq!(query[1], ("custom_id".to_string(), "second".to_string()));
}

#[test]
fn timestamp_rendering() {
    assert_eq!(ts(2020, 1, 2, 3, 4, 5, 90).rfc3339(), "2020-01-02T03:04:05+01:30");
    assert_eq!(ts(987, 11, 21, 16, 39, 57, -480).rfc3339(), "0987-11-21T16:39:57-08:00");
    assert_eq!(ts(2024, 2, 29, 0, 0, 0, 0).rfc3339(), "2024-02-29T00:00:00+00:00");
}
