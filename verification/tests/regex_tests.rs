use tracerbench_serve::regexes::{RegexReplace, RegexTest};

#[test]
fn test_regex_replace() {
    let regex = RegexReplace::new("([^\\d])\\d{13}\\b", "$11546300800000").unwrap();

    let (text, changed) = regex.replace("ts=1568844418065");
    assert_eq!(text, "ts=1546300800000");
    assert!(changed);

    let (text, changed) = regex.replace("ts=1568844418065&another=1568844623195");
    assert_eq!(text, "ts=1546300800000&another=1568844623195");
    assert!(changed);
}

#[test]
fn test_regex_replace_all() {
    let regex = RegexReplace::new("([^\\d])\\d{13}\\b", "$11546300800000").unwrap();

    let (text, changed) = regex.replace_all("ts=1568844418065");
    assert_eq!(text, "ts=1546300800000");
    assert!(changed);

    let (text, changed) = regex.replace_all("ts=1568844418065&another=1568844623195");
    assert_eq!(text, "ts=1546300800000&another=1546300800000");
    assert!(changed);
}

#[test]
fn test_regex_test() {
    let regex = RegexTest::new("(one|two)").unwrap();

    assert_eq!(regex.is_match("/one/"), true);
    assert_eq!(regex.is_match("/two/"), true);
    assert_eq!(regex.is_match("/three/"), false);
}

#[test]
fn test_regex_replace_unchanged_text_comes_back() {
    let regex = RegexReplace::new("xyz", "replacement").unwrap();
    let (text, changed) = regex.replace("nothing to do");
    assert_eq!(text, "nothing to do");
    assert!(!changed);
}

#[test]
fn test_regex_compile_failure() {
    assert!(RegexTest::new("(unclosed").is_none());
    assert!(RegexReplace::new("(unclosed", "$1").is_none());
}
