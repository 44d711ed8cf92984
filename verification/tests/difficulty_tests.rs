use blockchain_sim::difficulty::{meets_difficulty, DEFAULT_DIFFICULTY};

#[test]
fn default_difficulty_is_four() {
    assert_eq!(DEFAULT_DIFFICULTY, 4);
}

#[test]
fn leading_zeros_qualify() {
    assert!(meets_difficulty("0000abc", 4));
    assert!(meets_difficulty("0000", 4));
    assert!(meets_difficulty("00000", 4));
    assert!(meets_difficulty("0abc", 1));
}

#[test]
fn any_other_character_in_the_prefix_fails() {
    assert!(!meets_difficulty("000a", 4));
    assert!(!meets_difficulty("a000", 4));
    assert!(!meets_difficulty("0a00", 2));
    assert!(!meets_difficulty("00 0", 3));
    assert!(!meets_difficulty("000é", 4));
}

#[test]
fn characters_after_the_prefix_do_not_count() {
    assert!(meets_difficulty("00ff", 2));
    assert!(meets_difficulty("00é", 2));
}

#[test]
fn difficulty_zero_accepts_everything() {
    assert!(meets_difficulty("", 0));
    assert!(meets_difficulty("ffff", 0));
}

#[test]
fn a_hash_shorter_than_the_difficulty_fails() {
    assert!(!meets_difficulty("", 1));
    assert!(!meets_difficulty("000", 4));
}
