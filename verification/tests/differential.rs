//! The small functions on texts, held against what the standard library does.

use cargo_clone::archive::is_within;
use cargo_clone::request::parse_spec;
use cargo_clone::text::{chars_of, holds_char, occurs, same_text};
use cargo_clone::version::is_range_expression;
use std::path::Path;

/// A source of numbers that gives the same numbers each time.
struct Numbers(u64);

impl Numbers {
    fn next(&mut self, below: usize) -> usize {
        self.0 = self.0.wrapping_mul(6364136223846793005).wrapping_add(1442695040888963407);
        ((self.0 >> 33) as usize) % below
    }

    fn text(&mut self, alphabet: &[char], longest: usize) -> String {
        let len = self.next(longest + 1);
        (0..len).map(|_| alphabet[self.next(alphabet.len())]).collect()
    }
}

#[test]
fn a_specifier_is_parted_as_by_splitting_it_in_two() {
    let alphabet = ['a', 'b', ':', '@', '1', '.', 'é', ' '];
    let mut numbers = Numbers(1);
    for _ in 0..5000 {
        let spec = numbers.text(&alphabet, 8);
        let mut parts = spec.splitn(2, &[':', '@']);
        let name = parts.next().unwrap();
        let version = parts.next();
        let parted = parse_spec(&spec);
        assert_eq!(parted.name, name, "{:?}", spec);
        assert_eq!(parted.version.as_deref(), version, "{:?}", spec);
    }
}

#[test]
fn a_range_expression_is_told_as_by_looking_at_its_characters() {
    let alphabet = ['<', '>', '=', '^', '~', '*', '1', '.', '2', 'x', ' ', 'é'];
    let mut numbers = Numbers(2);
    for _ in 0..5000 {
        let version = numbers.text(&alphabet, 6);
        let expected = match version.chars().next() {
            Some(first) => "<>=^~".contains(first) || version.contains('*'),
            None => false,
        };
        assert_eq!(is_range_expression(&version), expected, "{:?}", version);
    }
}

#[test]
fn an_entry_lies_within_as_a_path_starts_with_a_directory() {
    let alphabet = ['a', 'b', '-', '1', '.', '/', 'é'];
    let names = ['a', 'b', '-', '1', 'é'];
    let mut numbers = Numbers(3);
    let mut within = 0;
    for _ in 0..20000 {
        let mut base = numbers.text(&names, 3);
        base.push('-');
        base.push_str(&numbers.text(&['1', '.', 'a'], 3));
        let path = if numbers.next(2) == 0 {
            format!("{}{}", base, numbers.text(&alphabet, 5))
        } else {
            numbers.text(&alphabet, 8)
        };
        let expected = Path::new(&path).starts_with(&base);
        assert_eq!(is_within(&base, &path), expected, "{:?} in {:?}", path, base);
        if expected {
            within += 1;
        }
    }
    assert!(within > 1000);
}

#[test]
fn texts_are_compared_and_searched_as_strings_are() {
    let alphabet = ['a', 'b', 'é', '/'];
    let mut numbers = Numbers(4);
    for _ in 0..5000 {
        let a = numbers.text(&alphabet, 4);
        let b = numbers.text(&alphabet, 4);
        assert_eq!(same_text(&a, &b), a == b);
        assert_eq!(occurs(&chars_of(&a), 0, &chars_of(&b)), a.starts_with(&b));
        let at = a.chars().count().saturating_sub(b.chars().count());
        assert_eq!(
            occurs(&chars_of(&a), at, &chars_of(&b)),
            a.ends_with(&b),
            "{:?} {:?}",
            a,
            b
        );
        assert_eq!(holds_char(&chars_of(&a), 'é'), a.contains('é'));
        assert_eq!(chars_of(&a), a.chars().collect::<Vec<char>>());
    }
}
