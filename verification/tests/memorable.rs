use motus::{get_random_words, memorable_password};
use motus::{GenerationError, RandomSource, Separator, WordCorpus};

/// A corpus of 7762 entries: placeholders, and real words at the positions
/// that the draws of the tests below select.
fn sample_corpus() -> WordCorpus {
    let mut lines: Vec<String> = Vec::new();
    for i in 0..7762 {
        lines.push(format!("filler{:04}", i));
    }
    let placed: [(usize, &str); 31] = [
        (266, "applause"),
        (1034, "chokehold"),
        (1035, "choking"),
        (1441, "crowbar"),
        (1929, "dollop"),
        (1930, "dolly"),
        (2698, "fountain"),
        (3031, "ground"),
        (3150, "hardcover"),
        (3220, "headstone"),
        (3927, "molecular"),
        (4084, "native"),
        (4085, "nativity"),
        (4086, "natural"),
        (4211, "omen"),
        (4212, "ominous"),
        (4791, "preorder"),
        (4938, "punctured"),
        (4939, "pungent"),
        (5511, "rubber"),
        (5722, "secular"),
        (6591, "swept"),
        (6724, "thirsting"),
        (6738, "thrive"),
        (6740, "throat"),
        (7518, "violate"),
        (7684, "wool"),
        (7685, "woozy"),
        (0, "filler0000"),
        (1, "filler0001"),
        (2, "filler0002"),
    ];
    for (position, word) in placed.iter() {
        lines[*position] = word.to_string();
    }
    WordCorpus::from_lines(&lines)
}

#[test]
fn test_memorable_password() {
    let seed = 42;
    let corpus = sample_corpus();
    let mut rng = RandomSource::from_seed(seed);

    let password = memorable_password(&mut rng, &corpus, 4, Separator::Space, false, false);
    assert_eq!(password, Ok("choking natural dolly ominous".to_string()));

    let password = memorable_password(&mut rng, &corpus, 4, Separator::Comma, false, false);
    assert_eq!(password, Ok("thrive,punctured,wool,hardcover".to_string()));

    let password = memorable_password(&mut rng, &corpus, 4, Separator::Hyphen, true, false);
    assert_eq!(password, Ok("Violate-Applause-Preorder-Headstone".to_string()));

    let password = memorable_password(&mut rng, &corpus, 4, Separator::Numbers, true, true);
    assert_eq!(password, Ok("Taunnfoi8Causerl9Ocrrwab5Stpwe".to_string()));

    let password = memorable_password(&mut rng, &corpus, 4, Separator::Empty, false, false);
    assert_eq!(password, Ok("molecularthirstinggroundrubber".to_string()));
}

#[test]
fn test_get_random_words() {
    let seed = 42;
    let corpus = sample_corpus();
    let mut rng = RandomSource::from_seed(seed);

    let words = get_random_words(&mut rng, &corpus, 5).unwrap();

    assert_eq!(
        words,
        vec!["chokehold", "nativity", "dolly", "ominous", "throat"]
    );
}

#[test]
fn test_memorable_command_default_behavior() {
    let corpus = sample_corpus();
    let mut rng = RandomSource::from_seed(42);
    let password = memorable_password(&mut rng, &corpus, 5, Separator::Space, false, false);
    assert_eq!(
        password,
        Ok("chokehold nativity dolly ominous throat".to_string())
    );
}

#[test]
fn test_memorable_command_custom_word_count() {
    let corpus = sample_corpus();
    let mut rng = RandomSource::from_seed(42);
    let password = memorable_password(&mut rng, &corpus, 7, Separator::Space, false, false);
    assert_eq!(
        password,
        Ok("chokehold native dollop omen thrive pungent woozy".to_string())
    );
}

#[test]
fn test_memorable_command_custom_separator() {
    let corpus = sample_corpus();
    let mut rng = RandomSource::from_seed(42);
    let password = memorable_password(
        &mut rng,
        &corpus,
        5,
        Separator::NumbersAndSymbols,
        false,
        false,
    );
    assert_eq!(
        password,
        Ok("chokehold2nativity9dolly(ominous9throat".to_string())
    );
}

#[test]
fn test_memorable_command_capitalize() {
    let corpus = sample_corpus();
    let mut rng = RandomSource::from_seed(42);
    let password = memorable_password(&mut rng, &corpus, 5, Separator::Space, true, false);
    assert_eq!(
        password,
        Ok("Chokehold Nativity Dolly Ominous Throat".to_string())
    );
}

#[test]
fn test_memorable_command_no_full_words() {
    let corpus = sample_corpus();
    let mut rng = RandomSource::from_seed(42);
    let password = memorable_password(&mut rng, &corpus, 5, Separator::Space, false, true);
    assert_eq!(
        password,
        Ok("edhhookcl tyaitniv dlloy mnosiuo htator".to_string())
    );
}

#[test]
fn test_memorable_command_all_options() {
    let corpus = sample_corpus();
    let mut rng = RandomSource::from_seed(42);
    let password = memorable_password(
        &mut rng,
        &corpus,
        7,
        Separator::NumbersAndSymbols,
        true,
        true,
    );
    assert_eq!(
        password,
        Ok("Lhkheoodc6Aivnte2Odopll#Mnoe)Thervi!Npetnug6Yzowo".to_string())
    );
}

#[test]
fn memorable_password_is_reproducible_from_the_seed() {
    let corpus = sample_corpus();
    for seed in [0u64, 1, 42, 1 << 40] {
        let mut first = RandomSource::from_seed(seed);
        let mut second = RandomSource::from_seed(seed);
        let a = memorable_password(&mut first, &corpus, 6, Separator::NumbersAndSymbols, true, true);
        let b = memorable_password(&mut second, &corpus, 6, Separator::NumbersAndSymbols, true, true);
        assert!(a.is_ok());
        assert_eq!(a, b);
        let a = memorable_password(&mut first, &corpus, 3, Separator::Numbers, false, true);
        let b = memorable_password(&mut second, &corpus, 3, Separator::Numbers, false, true);
        assert_eq!(a, b);
    }
}

#[test]
fn selected_words_are_distinct_and_long_enough() {
    let corpus = sample_corpus();
    for seed in 0..20u64 {
        let mut rng = RandomSource::from_seed(seed);
        for n in [0usize, 1, 3, 15, 200] {
            let words = get_random_words(&mut rng, &corpus, n).unwrap();
            assert_eq!(words.len(), n);
            for (i, word) in words.iter().enumerate() {
                assert!(word.len() >= 4);
                for other in words.iter().skip(i + 1) {
                    assert_ne!(word, other);
                }
            }
        }
    }
}

#[test]
fn selecting_the_whole_corpus_returns_every_word_once() {
    let lines: Vec<String> = ["alpha", "bravo", "charlie", "delta", "echo!"]
        .iter()
        .map(|w| w.to_string())
        .collect();
    let corpus = WordCorpus::from_lines(&lines);
    let mut rng = RandomSource::from_seed(7);
    let mut words = get_random_words(&mut rng, &corpus, 5).unwrap();
    words.sort();
    assert_eq!(words, lines);
}

#[test]
fn asking_for_more_words_than_the_corpus_holds_fails() {
    let lines: Vec<String> = ["alpha", "bravo", "charlie"].iter().map(|w| w.to_string()).collect();
    let corpus = WordCorpus::from_lines(&lines);
    let mut rng = RandomSource::from_seed(42);
    assert_eq!(
        get_random_words(&mut rng, &corpus, 4),
        Err(GenerationError::CorpusExhausted)
    );
    assert_eq!(
        memorable_password(&mut rng, &corpus, 4, Separator::Space, false, false),
        Err(GenerationError::CorpusExhausted)
    );
    let mut fresh = RandomSource::from_seed(42);
    assert_eq!(
        get_random_words(&mut rng, &corpus, 3),
        get_random_words(&mut fresh, &corpus, 3)
    );
}

#[test]
fn digit_separators_fill_every_gap_with_one_digit() {
    let corpus = sample_corpus();
    for seed in 0..30u64 {
        let mut rng = RandomSource::from_seed(seed);
        let mut same = RandomSource::from_seed(seed);
        let words = get_random_words(&mut same, &corpus, 6).unwrap();
        let password =
            memorable_password(&mut rng, &corpus, 6, Separator::Numbers, false, false).unwrap();
        let mut rest = password.as_str();
        let mut separators = 0;
        for (i, word) in words.iter().enumerate() {
            if i > 0 {
                let c = rest.chars().next().unwrap();
                assert!(c.is_ascii_digit());
                assert!(!c.is_alphabetic());
                separators += 1;
                rest = &rest[1..];
            }
            assert!(rest.starts_with(word.as_str()));
            rest = &rest[word.len()..];
        }
        assert_eq!(rest, "");
        assert_eq!(separators, 5);
    }
}

#[test]
fn a_password_of_no_words_is_empty_and_of_one_word_has_no_separator() {
    let corpus = sample_corpus();
    let mut rng = RandomSource::from_seed(42);
    assert_eq!(
        memorable_password(&mut rng, &corpus, 0, Separator::Numbers, true, true),
        Ok(String::new())
    );
    let mut rng = RandomSource::from_seed(42);
    let mut same = RandomSource::from_seed(42);
    let word = get_random_words(&mut same, &corpus, 1).unwrap();
    assert_eq!(
        memorable_password(&mut rng, &corpus, 1, Separator::Hyphen, false, false),
        Ok(word[0].clone())
    );
}
