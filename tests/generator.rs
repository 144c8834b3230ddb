use passgen::{Charset, ConfigError, Generator};
use std::collections::HashSet;

const SYMBOLS: &str = "!@#$%&*+-[](){}";

fn is_symbol(c: char) -> bool {
    SYMBOLS.contains(c)
}

fn in_selection(g: &Generator, c: char) -> bool {
    (g.upper && c.is_ascii_uppercase())
        || (g.lower && c.is_ascii_lowercase())
        || (g.num && c.is_ascii_digit())
        || (g.sym && is_symbol(c))
}

#[test]
fn new_has_default_configuration() {
    let g = Generator::new();
    assert_eq!(g.length, 8);
    assert!(g.upper && g.lower && g.num && !g.sym);
    assert!(g.updated);
}

#[test]
fn default_configuration_gives_eight_alphanumerics() {
    let mut g = Generator::new();
    let p = g.make();
    assert_eq!(p.chars().count(), 8);
    assert!(p.chars().all(|c| c.is_ascii_alphanumeric()));
    assert!(!g.updated);
}

#[test]
fn digits_only_length_twelve() {
    let mut g = Generator::new();
    assert_eq!(g.toggle(Charset::Upper), Ok(()));
    assert_eq!(g.toggle(Charset::Lower), Ok(()));
    assert_eq!(g.set_length(12), Ok(()));
    let p = g.make();
    assert_eq!(p.chars().count(), 12);
    assert!(p.chars().all(|c| c.is_ascii_digit()));
}

#[test]
fn length_out_of_bounds_is_rejected() {
    let mut g = Generator::new();
    assert_eq!(g.set_length(65), Err(ConfigError::LengthOutOfRange));
    assert_eq!(g.length, 8);
    assert_eq!(g.set_length(7), Err(ConfigError::LengthOutOfRange));
    assert_eq!(g.set_length(0), Err(ConfigError::LengthOutOfRange));
    assert_eq!(g.length, 8);
    assert_eq!(g.set_length(64), Ok(()));
    assert_eq!(g.length, 64);
    assert_eq!(g.set_length(8), Ok(()));
    assert_eq!(g.length, 8);
}

#[test]
fn rejected_length_keeps_pool_fresh() {
    let mut g = Generator::new();
    g.make();
    assert_eq!(g.set_length(100), Err(ConfigError::LengthOutOfRange));
    assert!(!g.updated);
}

#[test]
fn last_symbols_charset_cannot_be_disabled() {
    let mut g = Generator::new();
    assert_eq!(g.toggle(Charset::Symbols), Ok(()));
    assert_eq!(g.toggle(Charset::Upper), Ok(()));
    assert_eq!(g.toggle(Charset::Lower), Ok(()));
    assert_eq!(g.toggle(Charset::Digits), Ok(()));
    assert_eq!(g.toggle(Charset::Symbols), Err(ConfigError::NoCharsetEnabled));
    assert!(g.sym);
    assert!(!g.upper && !g.lower && !g.num);
    let p = g.make();
    assert_eq!(p.chars().count(), 8);
    assert!(p.chars().all(is_symbol));
}

#[test]
fn refused_toggle_changes_nothing() {
    let mut g = Generator::new();
    assert_eq!(g.toggle(Charset::Upper), Ok(()));
    assert_eq!(g.toggle(Charset::Lower), Ok(()));
    g.make();
    assert!(!g.updated);
    assert_eq!(g.toggle(Charset::Digits), Err(ConfigError::NoCharsetEnabled));
    assert!(!g.upper && !g.lower && g.num && !g.sym);
    assert!(!g.updated);
    assert_eq!(g.length, 8);
}

#[test]
fn toggle_then_make_uses_new_selection() {
    let mut g = Generator::new();
    g.make();
    assert_eq!(g.toggle(Charset::Upper), Ok(()));
    assert!(g.updated);
    for _ in 0..200 {
        let p = g.make();
        assert!(!p.chars().any(|c| c.is_ascii_uppercase()));
    }
    assert_eq!(g.toggle(Charset::Symbols), Ok(()));
    let mut seen_symbol = false;
    for _ in 0..200 {
        let p = g.make();
        assert!(p.chars().all(|c| in_selection(&g, c)));
        seen_symbol |= p.chars().any(is_symbol);
    }
    assert!(seen_symbol);
}

#[test]
fn every_length_in_bounds_is_respected() {
    let mut g = Generator::new();
    for n in 8..=64usize {
        assert_eq!(g.set_length(n), Ok(()));
        let p = g.make();
        assert_eq!(p.chars().count(), n);
    }
}

#[test]
fn every_selection_draws_only_enabled_characters() {
    for mask in 1u8..16 {
        let mut g = Generator::new();
        g.upper = mask & 1 != 0;
        g.lower = mask & 2 != 0;
        g.num = mask & 4 != 0;
        g.sym = mask & 8 != 0;
        g.updated = true;
        g.set_length(64).unwrap();
        for _ in 0..20 {
            let p = g.make();
            assert_eq!(p.chars().count(), 64);
            assert!(p.chars().all(|c| in_selection(&g, c)));
        }
    }
}

#[test]
fn repeated_makes_differ() {
    let mut g = Generator::new();
    let mut seen = HashSet::new();
    for _ in 0..1000 {
        seen.insert(g.make());
    }
    assert!(seen.len() >= 990);
}

#[test]
fn two_generators_are_seeded_apart() {
    let mut a = Generator::new();
    let mut b = Generator::new();
    a.set_length(64).unwrap();
    b.set_length(64).unwrap();
    assert_ne!(a.make(), b.make());
}
