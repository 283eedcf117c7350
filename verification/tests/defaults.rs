use theatre::defaults::{default_root, default_true};
use theatre::query::{default_depth, default_tree_include, TreeInclude};
use theatre::tool_params::{default_find_limit, default_limit};
use theatre::unicode::is_decimal_digit;

#[test]
fn parameter_defaults() {
    assert_eq!(default_root(), ".");
    assert!(default_true());
    assert_eq!(default_limit(), 25);
    assert_eq!(default_find_limit(), 100);
    assert_eq!(default_depth(), 3);
    assert_eq!(default_tree_include(), vec![TreeInclude::Class, TreeInclude::Groups]);
}

#[test]
fn decimal_digits_include_other_scripts() {
    assert!(is_decimal_digit('7'));
    assert!(is_decimal_digit('\u{0663}'));
    assert!(!is_decimal_digit('a'));
    assert!(!is_decimal_digit('\u{00B2}'));
}
