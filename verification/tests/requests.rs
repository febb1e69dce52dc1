use motus::{generate, memorable_password, pin_password, random_password};
use motus::{GenerationError, GenerationRequest, PasswordKind, RandomSource, Separator, WordCorpus};

fn small_corpus() -> WordCorpus {
    let lines: Vec<String> = [
        "anchor", "bridge", "candle", "dragon", "ember", "falcon", "garden", "harbor", "island",
        "jungle", "kettle", "lantern",
    ]
    .iter()
    .map(|w| w.to_string())
    .collect();
    WordCorpus::from_lines(&lines)
}

#[test]
fn a_request_is_served_by_the_generator_of_its_kind() {
    let corpus = small_corpus();
    let requests = [
        GenerationRequest::Memorable {
            word_count: 4,
            separator: Separator::NumbersAndSymbols,
            capitalize: true,
            scramble: true,
        },
        GenerationRequest::Random {
            characters: 24,
            numbers: true,
            symbols: false,
        },
        GenerationRequest::Pin { digits: 9 },
    ];
    for seed in 0..10u64 {
        let mut rng = RandomSource::from_seed(seed);
        let mut same = RandomSource::from_seed(seed);
        for request in requests {
            let expected = match request {
                GenerationRequest::Memorable {
                    word_count,
                    separator,
                    capitalize,
                    scramble,
                } => memorable_password(&mut same, &corpus, word_count, separator, capitalize, scramble),
                GenerationRequest::Random {
                    characters,
                    numbers,
                    symbols,
                } => Ok(random_password(&mut same, characters, numbers, symbols)),
                GenerationRequest::Pin { digits } => Ok(pin_password(&mut same, digits)),
            };
            assert!(expected.is_ok());
            assert_eq!(generate(&mut rng, &corpus, request), expected);
        }
    }
}

#[test]
fn requests_with_seed_forty_two() {
    let corpus = WordCorpus::from_lines(&Vec::new());
    let mut rng = RandomSource::from_seed(42);
    let request = GenerationRequest::Random {
        characters: 20,
        numbers: false,
        symbols: false,
    };
    assert_eq!(
        generate(&mut rng, &corpus, request),
        Ok("BCHvbvMSgaWAuhBlaBcH".to_string())
    );
    let mut rng = RandomSource::from_seed(42);
    assert_eq!(
        generate(&mut rng, &corpus, GenerationRequest::Pin { digits: 7 }),
        Ok("1525869".to_string())
    );
}

#[test]
fn only_a_memorable_request_can_exhaust_the_corpus() {
    let corpus = small_corpus();
    let mut rng = RandomSource::from_seed(42);
    let request = GenerationRequest::Memorable {
        word_count: 13,
        separator: Separator::Space,
        capitalize: false,
        scramble: false,
    };
    assert_eq!(
        generate(&mut rng, &corpus, request),
        Err(GenerationError::CorpusExhausted)
    );
    assert_eq!(
        generate(&mut rng, &corpus, GenerationRequest::Pin { digits: 7 }),
        Ok("1525869".to_string())
    );
    let empty = WordCorpus::from_lines(&Vec::new());
    let mut rng = RandomSource::from_seed(42);
    let none = GenerationRequest::Memorable {
        word_count: 0,
        separator: Separator::Space,
        capitalize: false,
        scramble: false,
    };
    assert_eq!(generate(&mut rng, &empty, none), Ok(String::new()));
}

#[test]
fn identically_seeded_sources_serve_a_request_alike() {
    let corpus = small_corpus();
    let request = GenerationRequest::Memorable {
        word_count: 12,
        separator: Separator::Numbers,
        capitalize: true,
        scramble: true,
    };
    for seed in [0u64, 42, 1234567890123] {
        let mut first = RandomSource::from_seed(seed);
        let mut second = RandomSource::from_seed(seed);
        let a = generate(&mut first, &corpus, request);
        let b = generate(&mut second, &corpus, request);
        assert!(a.is_ok());
        assert_eq!(a, b);
        assert_eq!(first.uniform_in_range(0, 1000), second.uniform_in_range(0, 1000));
    }
}

#[test]
fn a_request_names_its_kind() {
    let memorable = GenerationRequest::Memorable {
        word_count: 5,
        separator: Separator::Space,
        capitalize: false,
        scramble: false,
    };
    assert_eq!(memorable.kind(), PasswordKind::Memorable);
    let random = GenerationRequest::Random {
        characters: 20,
        numbers: false,
        symbols: false,
    };
    assert_eq!(random.kind(), PasswordKind::Random);
    assert_eq!(GenerationRequest::Pin { digits: 7 }.kind(), PasswordKind::Pin);
}
