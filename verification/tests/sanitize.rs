use cove_backup::sanitize::seperate_and_limit_dollars_and_cents;

#[test]
fn amount_without_point_is_all_dollars() {
    assert_eq!(seperate_and_limit_dollars_and_cents("1234", 2), ("1234", ""));
}

#[test]
fn cents_are_cut_to_the_limit() {
    assert_eq!(seperate_and_limit_dollars_and_cents("12.3456", 2), ("12", ".34"));
}

#[test]
fn short_cents_are_kept() {
    assert_eq!(seperate_and_limit_dollars_and_cents("12.3", 2), ("12", ".3"));
}

#[test]
fn trailing_point_keeps_the_point() {
    assert_eq!(seperate_and_limit_dollars_and_cents("12.", 2), ("12", "."));
}

#[test]
fn only_the_first_point_splits() {
    assert_eq!(seperate_and_limit_dollars_and_cents("1.2.3", 5), ("1", ".2.3"));
}

#[test]
fn zero_places_keep_only_the_point() {
    assert_eq!(seperate_and_limit_dollars_and_cents(".99", 0), ("", "."));
}

#[test]
fn empty_amount() {
    assert_eq!(seperate_and_limit_dollars_and_cents("", 2), ("", ""));
}

#[test]
fn splitting_a_split_amount_again_changes_nothing() {
    for (amount, max) in [("12.3456", 2), ("7", 3), ("0.5", 4), ("1.2.3", 1), (".999", 0)] {
        let (d, c) = seperate_and_limit_dollars_and_cents(amount, max);
        let joined = format!("{d}{c}");
        assert_eq!(seperate_and_limit_dollars_and_cents(&joined, max), (d, c));
    }
}
