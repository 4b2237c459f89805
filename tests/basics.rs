use nomina::date::Date;
use nomina::error::AppError;
use nomina::ids::{EntityId, RANDOM_VERSION_BITS, VERSION_VARIANT_MASK};
use nomina::text::{compare_text, normalize_field, require_present, TextOrder};

#[test]
fn generated_identifiers_are_random_version_four() {
    let a = EntityId::generate();
    let b = EntityId::generate();
    assert!(!a.is_nil());
    assert_eq!(a.as_u128() & VERSION_VARIANT_MASK, RANDOM_VERSION_BITS);
    assert_ne!(a, b);
    assert!(EntityId::nil().is_nil());
}

#[test]
fn calendar_dates_follow_the_gregorian_rules() {
    assert_eq!(Date::from_ymd(2015, 3, 14), Some(Date { year: 2015, month: 3, day: 14 }));
    assert_eq!(Date::from_ymd(2015, 2, 29), None);
    assert!(Date::from_ymd(2016, 2, 29).is_some());
    assert_eq!(Date::from_ymd(1900, 2, 29), None);
    assert!(Date::from_ymd(2000, 2, 29).is_some());
    assert_eq!(Date::from_ymd(2015, 0, 14), None);
    assert_eq!(Date::from_ymd(2015, 13, 1), None);
    assert_eq!(Date::from_ymd(2023, 4, 31), None);
    assert_eq!(Date::from_ymd(400000, 1, 1), None);
    assert!(Date::from_ymd(-4, 2, 29).is_some());
}

#[test]
fn dates_compare_by_year_month_day() {
    let a = Date { year: 2020, month: 12, day: 31 };
    let b = Date { year: 2021, month: 1, day: 1 };
    assert!(a.is_before(&b));
    assert!(!b.is_before(&a));
    assert!(!a.is_before(&a));
}

#[test]
fn normalize_trims_and_rejects_blank() {
    assert_eq!(normalize_field("  Acme \n", "name").unwrap(), "Acme");
    assert_eq!(normalize_field("\u{3000}x\u{a0}", "name").unwrap(), "x");
    assert!(matches!(normalize_field(" \t ", "name"), Err(AppError::Validation { .. })));
    let err = normalize_field("", "job title").unwrap_err();
    assert_eq!(err.message(), "job title cannot be empty");
    assert_eq!(require_present("ok", "f").unwrap(), "ok");
    assert!(require_present("", "f").is_err());
}

#[test]
fn texts_compare_in_ordinal_order() {
    assert_eq!(compare_text("Acme", "Zed"), TextOrder::Before);
    assert_eq!(compare_text("Zed", "Acme"), TextOrder::After);
    assert_eq!(compare_text("Zed", "acme"), TextOrder::Before);
    assert_eq!(compare_text("Ab", "Abc"), TextOrder::Before);
    assert_eq!(compare_text("same", "same"), TextOrder::Same);
    assert_eq!(compare_text("", ""), TextOrder::Same);
    assert_eq!(compare_text("é", "z"), TextOrder::After);
}

#[test]
fn error_constructors_keep_their_message() {
    assert!(matches!(AppError::validation("v"), AppError::Validation { .. }));
    assert!(matches!(AppError::not_found("n"), AppError::NotFound { .. }));
    assert!(matches!(AppError::conflict("c"), AppError::Conflict { .. }));
    assert!(matches!(AppError::database("d"), AppError::Database { .. }));
    assert!(matches!(AppError::internal("i"), AppError::Internal { .. }));
    assert_eq!(AppError::conflict("clash").message(), "clash");
}
