use lenso_project_portfolio::dates::{parse_date_window, CalendarDate};
use lenso_project_portfolio::hashing::request_hash;
use lenso_project_portfolio::requests::{
    check_add_initiative_update, check_create_initiative, check_detach, check_list_initiatives,
    check_list_projects, check_list_updates, check_update_initiative, parse_snapshot,
    reorder_inputs, valid_position, ReorderItemRequest,
};
use lenso_project_portfolio::text::{
    decimal_text, parse_cursor, parse_revision, text_equals, valid_admin_mutation,
    valid_bounded_opaque, valid_callers, valid_id, valid_idempotency_key, valid_opaque_id,
    valid_optional_text, valid_secret_reference, valid_text,
};

#[test]
fn identifiers_are_exact_ascii() {
    assert!(valid_id("auth.users"));
    assert!(valid_id("a-b_c:d.e9"));
    assert!(!valid_id(""));
    assert!(!valid_id("auth users"));
    assert!(!valid_id("ünïcode"));
    assert!(valid_id(&"a".repeat(256)));
    assert!(!valid_id(&"a".repeat(257)));
    assert!(valid_idempotency_key(&"k".repeat(200)));
    assert!(!valid_idempotency_key(&"k".repeat(201)));
}

#[test]
fn opaque_values_refuse_controls() {
    assert!(valid_opaque_id("opaque/project/123"));
    assert!(valid_opaque_id("ünïcode ok"));
    assert!(!valid_opaque_id(""));
    assert!(!valid_opaque_id("a\0b"));
    assert!(!valid_opaque_id("tab\there"));
    assert!(!valid_opaque_id("c1\u{85}"));
    assert!(valid_opaque_id(&"x".repeat(512)));
    assert!(!valid_opaque_id(&"x".repeat(513)));
    assert!(valid_bounded_opaque("rev", 3));
    assert!(!valid_bounded_opaque("revs", 3));
}

#[test]
fn text_needs_visible_content() {
    assert!(valid_text("Launch", 240));
    assert!(!valid_text("   \t\n", 240));
    assert!(!valid_text("\u{3000}", 240));
    assert!(!valid_text("nul\0", 240));
    assert!(!valid_text("too long", 3));
    assert!(valid_optional_text(None, 4));
    assert!(valid_optional_text(Some("fine"), 4));
    assert!(!valid_optional_text(Some(" "), 4));
}

#[test]
fn secret_references_are_identifiers_or_relative_paths() {
    assert!(valid_secret_reference("portfolio/database-url"));
    assert!(valid_secret_reference("db:url"));
    assert!(!valid_secret_reference("/absolute"));
    assert!(!valid_secret_reference("trailing/"));
    assert!(!valid_secret_reference("a//b"));
    assert!(!valid_secret_reference("a/./b"));
    assert!(!valid_secret_reference("a/../b"));
    assert!(valid_secret_reference(".."), "an exact identifier may be dots");
    assert!(!valid_secret_reference("a/.."));
    assert!(valid_secret_reference("a/..b/c"));
    assert!(valid_secret_reference("a/.b"));
    assert!(!valid_secret_reference("a/b c"));
}

#[test]
fn caller_lists_are_unique_and_bounded() {
    assert!(valid_callers(&["a".to_owned(), "b".to_owned()]));
    assert!(!valid_callers(&[]));
    assert!(!valid_callers(&["a".to_owned(), "a".to_owned()]));
    assert!(!valid_callers(&["a b".to_owned()]));
    let many: Vec<String> = (0..65).map(|i| format!("c{i}")).collect();
    assert!(!valid_callers(&many));
    assert!(valid_callers(&many[..64]));
}

#[test]
fn revisions_are_positive_decimals() {
    assert_eq!(parse_revision("1"), Some(1));
    assert_eq!(parse_revision("+42"), Some(42));
    assert_eq!(parse_revision("007"), Some(7));
    assert_eq!(parse_revision("9223372036854775807"), Some(i64::MAX));
    assert_eq!(parse_revision("9223372036854775808"), None);
    assert_eq!(parse_revision("0"), None);
    assert_eq!(parse_revision("-3"), None);
    assert_eq!(parse_revision(""), None);
    assert_eq!(parse_revision("+"), None);
    assert_eq!(parse_revision("12a"), None);
    assert_eq!(parse_revision(" 1"), None);
    assert_eq!(parse_cursor(None), Ok(None));
    assert_eq!(parse_cursor(Some("5")), Ok(Some(5)));
    assert_eq!(parse_cursor(Some("x")), Err(()));
    assert_eq!(valid_admin_mutation("cmd-1", "init-1", "2"), Some(2));
    assert_eq!(valid_admin_mutation("cmd 1", "init-1", "2"), None);
    assert_eq!(valid_admin_mutation("cmd-1", "", "2"), None);
    assert_eq!(valid_admin_mutation("cmd-1", "init-1", "0"), None);
}

#[test]
fn decimal_text_reads_back() {
    assert_eq!(decimal_text(0), "0");
    assert_eq!(decimal_text(1234), "1234");
    assert_eq!(decimal_text(-56), "-56");
    assert_eq!(decimal_text(i64::MIN), "-9223372036854775808");
    for n in [1_i64, 9, 10, 99, 100, 123_456_789, i64::MAX] {
        assert_eq!(parse_cursor(Some(&decimal_text(n))), Ok(Some(n)));
    }
    assert!(text_equals("same", "same"));
    assert!(!text_equals("same", "sane"));
}

#[test]
fn date_windows_must_be_ordered() {
    let d = |year, month, day| CalendarDate { year, month, day };
    assert_eq!(parse_date_window(None, None), Some((None, None)));
    assert_eq!(
        parse_date_window(Some("2026-08-01"), Some("2026-09-30")),
        Some((Some(d(2026, 8, 1)), Some(d(2026, 9, 30))))
    );
    assert_eq!(
        parse_date_window(Some("2026-09-30"), Some("2026-09-30")),
        Some((Some(d(2026, 9, 30)), Some(d(2026, 9, 30))))
    );
    assert_eq!(parse_date_window(Some("2026-10-01"), Some("2026-09-30")), None);
    assert_eq!(parse_date_window(Some("2026-02-30"), None), None);
    assert_eq!(parse_date_window(None, Some("30/09/2026")), None);
    assert_eq!(
        parse_date_window(None, Some("2024-02-29")),
        Some((None, Some(d(2024, 2, 29))))
    );
}

#[test]
fn request_hash_is_sha256() {
    let hash = request_hash(b"abc");
    assert_eq!(hash.len(), 32);
    assert_eq!(
        hash[..4],
        [0xba, 0x78, 0x16, 0xbf],
        "SHA-256 of \"abc\" starts with ba7816bf"
    );
    assert_ne!(request_hash(b"abc"), request_hash(b"abd"));
}

#[test]
fn create_and_update_requests_are_checked() {
    assert!(check_create_initiative(
        "create-1",
        "initiative_launch",
        "Launch",
        Some("Ship the product"),
        Some("usr_lead"),
        Some("2026-08-01"),
        Some("2026-09-30"),
    )
    .is_some());
    assert!(check_create_initiative("create 1", "i", "Launch", None, None, None, None).is_none());
    assert!(check_create_initiative("c", "i", " ", None, None, None, None).is_none());
    assert!(check_create_initiative("c", "i", "n", None, Some("\u{1}"), None, None).is_none());
    assert!(check_create_initiative("c", "i", "n", None, None, Some("2026-09-02"), Some("2026-09-01")).is_none());
    assert_eq!(
        check_update_initiative("2", "update-a", "initiative_launch", Some("Launch now"), Some("Ship safely"), Some("usr_lead"), None, None),
        Some((2, (None, None)))
    );
    assert_eq!(check_update_initiative("0", "u", "i", None, None, None, None, None), None);
    assert_eq!(check_update_initiative("1", "u", "i", Some(""), None, None, None, None), None);
    assert_eq!(check_add_initiative_update("3", "k", "i", "u1", "On track", 100), Some(3));
    assert_eq!(check_add_initiative_update("3", "k", "i", "u1", "On track", 101), None);
    assert_eq!(check_add_initiative_update("3", "k", "i", "u1", "", 10), None);
    assert_eq!(check_add_initiative_update("x", "k", "i", "u1", "ok", 10), None);
}

#[test]
fn list_requests_are_checked() {
    assert_eq!(check_list_initiatives(None, 1), Some(None));
    assert_eq!(check_list_initiatives(Some("17"), 200), Some(Some(17)));
    assert_eq!(check_list_initiatives(None, 0), None);
    assert_eq!(check_list_initiatives(None, 201), None);
    assert_eq!(check_list_initiatives(Some("-1"), 10), None);
    assert!(check_list_projects("init", 10));
    assert!(!check_list_projects("", 10));
    assert_eq!(check_list_updates(Some("4"), "init", 5), Some(Some(4)));
    assert_eq!(check_list_updates(None, "init", 500), None);
}

#[test]
fn admin_requests_are_checked() {
    let snapshot = parse_snapshot(
        "opaque/project/123",
        "Backend",
        "started",
        "at_risk",
        40,
        None,
        Some("2026-09-15"),
        "project-rev-17",
        "2026-08-30T00:00:00Z",
    )
    .unwrap();
    assert_eq!(snapshot.project_id, "opaque/project/123");
    assert_eq!(snapshot.observed_at, 1_788_048_000_000_000_000);
    assert_eq!(
        snapshot.target_date,
        Some(CalendarDate { year: 2026, month: 9, day: 15 })
    );
    assert!(parse_snapshot("p", "n", "started", "at_risk", 40, None, None, "r", "yesterday").is_err());
    assert!(parse_snapshot("p", "n", "started", "at_risk", -1, None, None, "r", "2026-08-30T00:00:00Z").is_err());
    assert!(parse_snapshot("p", "n", "started", "at_risk", 1, None, None, &"r".repeat(129), "2026-08-30T00:00:00Z").is_err());
    assert!(valid_position(0));
    assert!(valid_position(10_000));
    assert!(!valid_position(10_001));
    assert_eq!(check_detach("k", "i", "3", "p", "4"), Some((3, 4)));
    assert_eq!(check_detach("k", "i", "3", "", "4"), None);
    assert_eq!(check_detach("k", "i", "3", "p", "0"), None);
    let items = reorder_inputs(&[
        ReorderItemRequest { project_id: "a".to_owned(), expected_membership_revision: "2".to_owned(), position: 1 },
        ReorderItemRequest { project_id: "b".to_owned(), expected_membership_revision: "5".to_owned(), position: 0 },
    ])
    .unwrap();
    assert_eq!(items.len(), 2);
    assert_eq!(items[1].expected_membership_revision, 5);
    assert!(reorder_inputs(&[ReorderItemRequest {
        project_id: "a".to_owned(),
        expected_membership_revision: "2".to_owned(),
        position: 10_001,
    }])
    .is_none());
}
