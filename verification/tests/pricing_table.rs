use skinsol::pricing::price_for_skin;

#[test]
fn known_skins_have_table_prices() {
    assert_eq!(price_for_skin(1), 1000);
    assert_eq!(price_for_skin(2), 500);
    assert_eq!(price_for_skin(3), 100);
}

#[test]
fn unknown_skins_are_worth_zero() {
    assert_eq!(price_for_skin(0), 0);
    assert_eq!(price_for_skin(4), 0);
    assert_eq!(price_for_skin(u64::MAX), 0);
}
