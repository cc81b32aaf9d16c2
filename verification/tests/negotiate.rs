use socksproxy::auth::select_method;

#[test]
fn picks_the_only_common_method() {
    assert_eq!(select_method(&[0], &[0]), 0);
}

#[test]
fn no_common_method_yields_sentinel() {
    assert_eq!(select_method(&[0], &[5]), 0xFF);
}

#[test]
fn server_priority_wins_over_client_order() {
    assert_eq!(select_method(&[2, 0], &[0, 2]), 2);
}

#[test]
fn empty_sets_yield_sentinel() {
    assert_eq!(select_method(&[], &[]), 0xFF);
    assert_eq!(select_method(&[0], &[]), 0xFF);
    assert_eq!(select_method(&[], &[0]), 0xFF);
}

#[test]
fn sentinel_in_either_set_is_skipped() {
    assert_eq!(select_method(&[0xFF, 0], &[0xFF, 0]), 0);
    assert_eq!(select_method(&[0xFF], &[0xFF]), 0xFF);
}

#[test]
fn duplicate_offers_change_nothing() {
    assert_eq!(select_method(&[0, 2], &[2, 2, 2, 0]), 0);
}
