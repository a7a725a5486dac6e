use sodium::substring::{chars_of, find_first, stands_here};

fn chars(text: &str) -> Vec<char> {
    text.chars().collect()
}

#[test]
fn chars_of_gives_each_character() {
    assert_eq!(chars_of("héllo"), vec!['h', 'é', 'l', 'l', 'o']);
    assert_eq!(chars_of(""), Vec::<char>::new());
    assert_eq!(chars_of("e\u{301}"), vec!['e', '\u{301}']);
}

#[test]
fn find_first_gives_the_least_offset() {
    assert_eq!(find_first(&chars("abcabc"), &chars("bc")), Some(1));
    assert_eq!(find_first(&chars("abcabc"), &chars("abc")), Some(0));
    assert_eq!(find_first(&chars("aaab"), &chars("ab")), Some(2));
    assert_eq!(find_first(&chars("abc"), &chars("c")), Some(2));
    assert_eq!(find_first(&chars("wörld"), &chars("rld")), Some(2));
}

#[test]
fn find_first_without_a_match_is_none() {
    assert_eq!(find_first(&chars("abc"), &chars("d")), None);
    assert_eq!(find_first(&chars("abc"), &chars("abcd")), None);
    assert_eq!(find_first(&chars("abc"), &chars("cb")), None);
    assert_eq!(find_first(&chars(""), &chars("a")), None);
}

#[test]
fn find_first_of_nothing_is_the_start() {
    assert_eq!(find_first(&chars("abc"), &chars("")), Some(0));
    assert_eq!(find_first(&chars(""), &chars("")), Some(0));
}

#[test]
fn stands_here_compares_in_place() {
    let hay = chars("abcabc");
    assert!(stands_here(&hay, &chars("abc"), 0));
    assert!(stands_here(&hay, &chars("abc"), 3));
    assert!(!stands_here(&hay, &chars("abc"), 1));
    assert!(!stands_here(&hay, &chars("abc"), 4));
    assert!(stands_here(&hay, &chars(""), 6));
    assert!(!stands_here(&hay, &chars(""), 7));
    assert!(!stands_here(&hay, &chars("c"), usize::MAX));
}
