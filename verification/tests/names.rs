use shurl::link::{page_file, PAGE_SUFFIX};
use shurl::name::{create_name, FIRST_LETTER, LAST_LETTER, NAME_LENGTH};

#[test]
fn generated_name_has_five_lowercase_letters() {
    for _ in 0..500 {
        let name = create_name();
        assert_eq!(name.chars().count(), 5);
        assert_eq!(name.len(), NAME_LENGTH);
        assert!(name.chars().all(|c| ('a'..='z').contains(&c)));
    }
}

#[test]
fn generated_names_vary() {
    let first = create_name();
    let mut differs = false;
    for _ in 0..50 {
        if create_name() != first {
            differs = true;
        }
    }
    assert!(differs);
}

#[test]
fn every_letter_of_the_alphabet_is_drawn() {
    let mut seen = [false; 26];
    for _ in 0..4000 {
        for b in create_name().bytes() {
            seen[(b - b'a') as usize] = true;
        }
    }
    assert!(seen.iter().all(|&s| s));
}

#[test]
fn letter_bounds_are_a_and_z() {
    assert_eq!(FIRST_LETTER, b'a');
    assert_eq!(LAST_LETTER, b'z');
}

#[test]
fn page_file_appends_html() {
    assert_eq!(PAGE_SUFFIX, ".html");
    assert_eq!(page_file("abcde"), "abcde.html");
    assert_eq!(page_file("docs"), "docs.html");
    assert_eq!(page_file(""), ".html");
    assert_eq!(page_file("a.b"), "a.b.html");
}
