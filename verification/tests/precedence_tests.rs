use booper::precedence::{compare, compare_numbers, Precedence};
use booper::version::Version;

fn v(text: &str) -> Version {
    Version::parse(text).unwrap()
}

#[test]
fn numbers_decide_first() {
    assert_eq!(compare(&v("1.2.3"), &v("1.2.4")), Some(Precedence::Before));
    assert_eq!(compare(&v("1.3.0"), &v("1.2.4")), Some(Precedence::After));
    assert_eq!(compare(&v("2.0.0"), &v("1.9.9")), Some(Precedence::After));
    assert_eq!(compare(&v("1.9.9-pre"), &v("2.0.0-alpha")), Some(Precedence::Before));
    assert_eq!(compare(&v("1.2.3"), &v("1.2.3")), Some(Precedence::Same));
    assert_eq!(compare(&v("10.0.0"), &v("9.0.0")), Some(Precedence::After));
}

#[test]
fn compare_numbers_ignores_both_tags() {
    assert_eq!(compare_numbers(&v("1.2.3-a+b"), &v("1.2.3-c+d")), Precedence::Same);
    assert_eq!(compare_numbers(&v("1.2.3"), &v("1.2.4-pre")), Precedence::Before);
    assert_eq!(compare_numbers(&v("1.3.0"), &v("1.2.9")), Precedence::After);
    assert_eq!(compare_numbers(&v("0.3.0"), &v("1.2.9")), Precedence::Before);
}

#[test]
fn prerelease_comes_before_its_release() {
    assert_eq!(compare(&v("1.0.0-alpha"), &v("1.0.0")), Some(Precedence::Before));
    assert_eq!(compare(&v("1.0.0"), &v("1.0.0-alpha")), Some(Precedence::After));
}

#[test]
fn prerelease_tags_are_ordered_part_by_part() {
    assert_eq!(compare(&v("1.0.0-alpha"), &v("1.0.0-alpha.1")), Some(Precedence::Before));
    assert_eq!(compare(&v("1.0.0-alpha.1"), &v("1.0.0-alpha.beta")), Some(Precedence::Before));
    assert_eq!(compare(&v("1.0.0-2"), &v("1.0.0-10")), Some(Precedence::Before));
    assert_eq!(compare(&v("1.0.0-rc.1"), &v("1.0.0-beta.11")), Some(Precedence::After));
    assert_eq!(compare(&v("1.0.0-rc.1"), &v("1.0.0-rc.1")), Some(Precedence::Same));
}

#[test]
fn build_metadata_never_counts() {
    assert_eq!(compare(&v("1.0.0+abc"), &v("1.0.0+def")), Some(Precedence::Same));
    assert_eq!(compare(&v("1.0.0-rc.1+abc"), &v("1.0.0-rc.1")), Some(Precedence::Same));
    assert_eq!(compare(&v("1.0.0-a+zzz"), &v("1.0.0-b+aaa")), Some(Precedence::Before));
}

#[test]
fn malformed_tag_has_no_place() {
    let mut odd = Version::new(1, 0, 0);
    odd.pre = "not a tag".to_string();
    assert_eq!(compare(&odd, &v("1.0.0")), None);
    assert_eq!(compare(&odd, &v("1.0.1")), Some(Precedence::Before));
    assert_eq!(compare(&odd, &odd.clone()), Some(Precedence::Same));
}
