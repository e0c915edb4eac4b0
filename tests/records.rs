use lessons::decimal::Decimal;
use lessons::rand_info::{RandomInfo, SomeTrait};
use lessons::structs::MyData;

#[test]
fn new_flips_flag() {
    let r = RandomInfo::new(false);
    assert_eq!(r.call_count, 0);
    assert!(r.some_bool);
    assert_eq!(r.some_int, 8);
    assert!(!RandomInfo::new(true).some_bool);
}

#[test]
fn is_smaller_counts_calls() {
    let mut r = RandomInfo::new(false);
    assert!(r.is_smaller(9));
    assert!(!r.is_smaller(8));
    assert!(!r.is_smaller(-3));
    assert_eq!(r.call_count, 3);
    assert_eq!(r.some_int, 8);
}

#[test]
fn is_larger_counts_nothing() {
    let r = RandomInfo::new(false);
    assert!(!r.is_larger(20));
    assert!(!r.is_larger(8));
    assert!(r.is_larger(7));
    assert_eq!(r.call_count, 0);
}

#[test]
fn validity_per_type() {
    assert!(RandomInfo::new(false).is_valid());
    assert!(!RandomInfo::new(true).is_valid());
    assert!(MyData::default().is_valid());
}

#[test]
fn my_data_default() {
    let d = MyData::default();
    assert!(d.some_bool);
    assert_eq!(d.some_decimal, Decimal::new(103, 1));
    assert_eq!(d.some_decimal.to_text(), "10.3");
    assert_eq!(d.some_int, 80);
    assert_eq!(d.random.call_count, 0);
    assert!(!d.random.some_bool);
    assert_eq!(d.random.some_int, 8);
}
