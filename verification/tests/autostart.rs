use minibin::autostart::{check_startup, startup_registry_value, str_contains};

#[test]
fn absent_registry_value_reports_false() {
    assert!(!check_startup(None, "C:\\apps\\minibin.exe"));
}

#[test]
fn value_with_exact_current_path_reports_true() {
    let path = "C:\\apps\\minibin.exe";
    let value = startup_registry_value(path);
    assert!(check_startup(Some(&value), path));
}

#[test]
fn value_pointing_elsewhere_reports_false() {
    let value = startup_registry_value("C:\\old install\\minibin.exe");
    assert!(!check_startup(Some(&value), "C:\\new install\\minibin.exe"));
}

#[test]
fn value_with_trailing_arguments_still_reports_true() {
    let path = "C:\\apps\\minibin.exe";
    let value = format!("\"{}\" --tray", path);
    assert!(check_startup(Some(&value), path));
}

#[test]
fn startup_value_is_the_quoted_path() {
    let value = startup_registry_value("C:\\apps\\minibin.exe");
    assert_eq!(value, "\"C:\\apps\\minibin.exe\"");
}

#[test]
fn containment_edge_cases() {
    assert!(str_contains("", ""));
    assert!(str_contains("abc", ""));
    assert!(!str_contains("", "a"));
    assert!(str_contains("abc", "abc"));
    assert!(!str_contains("abc", "abcd"));
    assert!(str_contains("abab", "bab"));
    assert!(str_contains("aaab", "aab"));
    assert!(!str_contains("acb", "ab"));
}

#[test]
fn containment_handles_wide_characters() {
    assert!(str_contains("Корзина пуста", "пуста"));
    assert!(!str_contains("Корзина", "пуста"));
}
