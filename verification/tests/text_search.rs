use cassettes::text::{chars_of, contains, same_text, upper_chars};

fn chars(text: &str) -> Vec<char> {
    text.chars().collect()
}

#[test]
fn characters_come_out_in_order() {
    assert_eq!(chars_of(""), Vec::<char>::new());
    assert_eq!(chars_of("VHS-001"), vec!['V', 'H', 'S', '-', '0', '0', '1']);
    assert_eq!(chars_of("été"), vec!['é', 't', 'é']);
}

#[test]
fn upper_case_follows_unicode() {
    assert_eq!(upper_chars("Matrix"), chars("MATRIX"));
    assert_eq!(upper_chars("vhs-002"), chars("VHS-002"));
    assert_eq!(upper_chars("référencés"), chars("RÉFÉRENCÉS"));
    assert_eq!(upper_chars("straße"), chars("STRASSE"));
    assert_eq!(upper_chars(""), Vec::<char>::new());
}

#[test]
fn a_run_is_found_wherever_it_stands() {
    let hay = chars("abcde");
    assert!(contains(&hay, &chars("abc")));
    assert!(contains(&hay, &chars("bcd")));
    assert!(contains(&hay, &chars("cde")));
    assert!(contains(&hay, &chars("e")));
    assert!(contains(&hay, &chars("abcde")));
}

#[test]
fn a_run_that_is_broken_or_too_long_is_not_found() {
    let hay = chars("abcde");
    assert!(!contains(&hay, &chars("ace")));
    assert!(!contains(&hay, &chars("ba")));
    assert!(!contains(&hay, &chars("abcdef")));
    assert!(!contains(&hay, &chars("f")));
    assert!(!contains(&chars(""), &chars("a")));
}

#[test]
fn the_empty_run_is_found_everywhere() {
    assert!(contains(&chars("abc"), &chars("")));
    assert!(contains(&chars(""), &chars("")));
}

#[test]
fn a_run_is_found_after_a_false_start() {
    assert!(contains(&chars("aaab"), &chars("aab")));
    assert!(contains(&chars("abababc"), &chars("ababc")));
    assert!(!contains(&chars("aaaa"), &chars("aab")));
}

#[test]
fn texts_are_the_same_character_for_character() {
    assert!(same_text("", ""));
    assert!(same_text("Alien", "Alien"));
    assert!(!same_text("Alien", "alien"));
    assert!(!same_text("Alien", "Aliens"));
    assert!(!same_text("Alien", ""));
    assert!(same_text("été", "été"));
}
