use otaku::igdb::Limit;

#[test]
fn limit_new_zero_is_none() {
    assert!(Limit::new(0).is_none());
}

#[test]
fn limit_new_one_is_some() {
    assert!(Limit::new(1).is_some());
    assert_eq!(Limit::new(1).unwrap().get(), 1);
}

#[test]
fn limit_new_max_is_some() {
    assert!(Limit::new(500).is_some());
    assert_eq!(Limit::new(500).unwrap().get(), 500);
}

#[test]
fn limit_new_above_max_is_none() {
    assert!(Limit::new(501).is_none());
}

#[test]
fn limit_constants() {
    assert_eq!(Limit::smallest().get(), 1);
    assert_eq!(Limit::largest().get(), 500);
}

#[test]
fn limit_new_in_between_keeps_value() {
    assert_eq!(Limit::new(100).unwrap().get(), 100);
    assert!(Limit::new(u16::MAX).is_none());
}
