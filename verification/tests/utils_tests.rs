use minix2_rs::utils::min;

#[test]
fn min_picks_smaller() {
    assert_eq!(min(3, 5), 3);
    assert_eq!(min(5, 3), 3);
}
