use maya_booking::date::{nights_between, CalendarDate};
use maya_booking::money::Money;
use maya_booking::pricing::{addon_total, compute_total, AddonService};

fn addon(name: &str, cents: Option<u64>) -> AddonService {
    AddonService::new(name.to_string(), cents.map(Money::from_cents))
}

#[test]
fn scenario_three_nights_two_rooms_with_breakfast() {
    let check_in = CalendarDate::from_ymd(2024, 6, 1).unwrap();
    let check_out = CalendarDate::from_ymd(2024, 6, 4).unwrap();
    let nights = nights_between(check_in, check_out).unwrap();
    assert_eq!(nights, 3);
    let addons = vec![addon("breakfast", Some(2000))];
    let total = compute_total(Money::from_cents(10000), nights, 2, &addons).unwrap();
    assert_eq!(total.cents, 62000);
    assert_eq!(total.to_decimal_string(), "620.00");
}

#[test]
fn total_is_base_plus_addons() {
    let addons = vec![addon("spa", Some(1550)), addon("parking", Some(999))];
    let total = compute_total(Money::from_cents(12345), 2, 3, &addons).unwrap();
    assert_eq!(total.cents, 12345 * 2 * 3 + 1550 + 999);
}

#[test]
fn malformed_addon_contributes_nothing() {
    let addons = vec![addon("mystery", None), addon("late checkout", Some(500))];
    assert_eq!(addon_total(&addons).unwrap().cents, 500);
    let total = compute_total(Money::from_cents(100), 1, 1, &addons).unwrap();
    assert_eq!(total.cents, 600);
}

#[test]
fn no_addons_gives_base_price() {
    let total = compute_total(Money::from_cents(0), 5, 5, &Vec::new()).unwrap();
    assert_eq!(total.cents, 0);
    let total = compute_total(Money::from_cents(7500), 4, 1, &Vec::new()).unwrap();
    assert_eq!(total.cents, 30000);
}

#[test]
fn total_past_the_range_is_none() {
    assert!(compute_total(Money::from_cents(u64::MAX), 2, 1, &Vec::new()).is_none());
    let addons = vec![addon("a", Some(u64::MAX)), addon("b", Some(1))];
    assert!(addon_total(&addons).is_none());
    assert!(compute_total(Money::from_cents(1), 1, 1, &addons).is_none());
}

#[test]
fn nights_need_check_out_after_check_in() {
    let d = CalendarDate::from_ymd(2024, 6, 1).unwrap();
    assert_eq!(nights_between(d, d), None);
    let before = CalendarDate::from_ymd(2024, 5, 31).unwrap();
    assert_eq!(nights_between(d, before), None);
    assert_eq!(nights_between(before, d), Some(1));
}

#[test]
fn dates_across_months_and_leap_days() {
    let feb28 = CalendarDate::from_ymd(2024, 2, 28).unwrap();
    let mar1 = CalendarDate::from_ymd(2024, 3, 1).unwrap();
    assert_eq!(nights_between(feb28, mar1), Some(2));
    assert!(CalendarDate::from_ymd(2023, 2, 29).is_none());
    assert!(CalendarDate::from_ymd(2024, 13, 1).is_none());
    assert!(CalendarDate::from_ymd(2024, 4, 31).is_none());
    assert_eq!(CalendarDate::from_ymd(1, 1, 1).unwrap().day_number, 1);
}

#[test]
fn decimal_text_round_trip() {
    assert_eq!(Money::parse_decimal("100").unwrap().cents, 10000);
    assert_eq!(Money::parse_decimal("99.5").unwrap().cents, 9950);
    assert_eq!(Money::parse_decimal("100.00").unwrap().cents, 10000);
    assert_eq!(Money::parse_decimal("0.07").unwrap().cents, 7);
    assert_eq!(Money::from_cents(7).to_decimal_string(), "0.07");
    assert_eq!(Money::from_cents(123456).to_decimal_string(), "1234.56");
    assert_eq!(Money::zero().to_decimal_string(), "0.00");
}

#[test]
fn decimal_text_rejects_other_shapes() {
    assert!(Money::parse_decimal("").is_none());
    assert!(Money::parse_decimal("-5").is_none());
    assert!(Money::parse_decimal("1.234").is_none());
    assert!(Money::parse_decimal(".5").is_none());
    assert!(Money::parse_decimal("1e3").is_none());
    assert!(Money::parse_decimal("1.2.3").is_none());
    assert!(Money::parse_decimal("184467440737095516.16").is_none());
    assert_eq!(Money::parse_decimal("184467440737095516.15").unwrap().cents, u64::MAX);
}
