use cpu_optimizer::priority::{folds_to_name, parse_priority_class};
use cpu_optimizer::types::PriorityClass;

#[test]
fn absent_value_is_unset() {
    assert_eq!(parse_priority_class(None), None);
}

#[test]
fn integer_forms_select_the_scale() {
    assert_eq!(parse_priority_class(Some("0")), Some(PriorityClass::Idle));
    assert_eq!(parse_priority_class(Some("1")), Some(PriorityClass::BelowNormal));
    assert_eq!(parse_priority_class(Some("2")), Some(PriorityClass::Normal));
    assert_eq!(parse_priority_class(Some("3")), Some(PriorityClass::AboveNormal));
    assert_eq!(parse_priority_class(Some("4")), Some(PriorityClass::High));
    assert_eq!(parse_priority_class(Some("5")), Some(PriorityClass::Realtime));
}

#[test]
fn integer_forms_agree_with_names() {
    let names = ["idle", "below_normal", "normal", "above_normal", "high", "realtime"];
    let numbers = ["0", "1", "2", "3", "4", "5"];
    for i in 0..6 {
        assert_eq!(parse_priority_class(Some(numbers[i])), parse_priority_class(Some(names[i])));
        assert!(parse_priority_class(Some(names[i])).is_some());
    }
}

#[test]
fn integers_off_the_scale_are_unset() {
    assert_eq!(parse_priority_class(Some("6")), None);
    assert_eq!(parse_priority_class(Some("42")), None);
    assert_eq!(parse_priority_class(Some("4294967296")), None);
}

#[test]
fn leading_zeros_and_plus_sign_are_decimal() {
    assert_eq!(parse_priority_class(Some("004")), Some(PriorityClass::High));
    assert_eq!(parse_priority_class(Some("+3")), Some(PriorityClass::AboveNormal));
    assert_eq!(parse_priority_class(Some("+")), None);
    assert_eq!(parse_priority_class(Some("-1")), None);
}

#[test]
fn names_with_space_or_underscore() {
    assert_eq!(parse_priority_class(Some("below normal")), Some(PriorityClass::BelowNormal));
    assert_eq!(parse_priority_class(Some("below_normal")), Some(PriorityClass::BelowNormal));
    assert_eq!(parse_priority_class(Some("above normal")), Some(PriorityClass::AboveNormal));
    assert_eq!(parse_priority_class(Some("above_normal")), Some(PriorityClass::AboveNormal));
    assert_eq!(parse_priority_class(Some("normal")), Some(PriorityClass::Normal));
}

#[test]
fn names_ignore_ascii_case() {
    assert_eq!(parse_priority_class(Some("ReAlTiMe")), Some(PriorityClass::Realtime));
    assert_eq!(parse_priority_class(Some("HIGH")), Some(PriorityClass::High));
    assert_eq!(parse_priority_class(Some("Below Normal")), Some(PriorityClass::BelowNormal));
    assert_eq!(parse_priority_class(Some("IDLE")), parse_priority_class(Some("idle")));
}

#[test]
fn unknown_names_are_unset() {
    assert_eq!(parse_priority_class(Some("turbo")), None);
    assert_eq!(parse_priority_class(Some("idle ")), None);
    assert_eq!(parse_priority_class(Some("belownormal")), None);
}

#[test]
fn blank_values_are_unset() {
    assert_eq!(parse_priority_class(Some("")), None);
    assert_eq!(parse_priority_class(Some(" ")), None);
    assert_eq!(parse_priority_class(Some(" \t ")), None);
}

#[test]
fn folding_comparison() {
    assert!(folds_to_name("HiGh", "high"));
    assert!(!folds_to_name("hig", "high"));
    assert!(!folds_to_name("h1gh", "high"));
}

#[test]
fn priority_flags_are_the_os_constants() {
    assert_eq!(PriorityClass::Idle.flag(), 64);
    assert_eq!(PriorityClass::BelowNormal.flag(), 16384);
    assert_eq!(PriorityClass::Normal.flag(), 32);
    assert_eq!(PriorityClass::AboveNormal.flag(), 32768);
    assert_eq!(PriorityClass::High.flag(), 128);
    assert_eq!(PriorityClass::Realtime.flag(), 256);
}
