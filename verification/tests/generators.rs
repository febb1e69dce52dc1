use motus::{pin_password, random_password, RandomSource};
use rand::rngs::StdRng;
use rand::SeedableRng;

const LETTER_CHARS: &[char] = &[
    'a', 'b', 'c', 'd', 'e', 'f', 'g', 'h', 'i', 'j', 'k', 'l', 'm', 'n', 'o', 'p', 'q', 'r', 's',
    't', 'u', 'v', 'w', 'x', 'y', 'z', 'A', 'B', 'C', 'D', 'E', 'F', 'G', 'H', 'I', 'J', 'K', 'L',
    'M', 'N', 'O', 'P', 'Q', 'R', 'S', 'T', 'U', 'V', 'W', 'X', 'Y', 'Z',
];

const NUMBER_CHARS: &[char] = &['0', '1', '2', '3', '4', '5', '6', '7', '8', '9'];

const SYMBOL_CHARS: &[char] = &['!', '@', '#', '$', '%', '^', '&', '*', '(', ')'];

#[test]
fn test_random_password_length() {
    let mut rng = RandomSource::from_seed(0);
    let length = 12;
    let password = random_password(&mut rng, length, true, true);
    assert_eq!(password.len(), length as usize);
}

#[test]
fn test_random_password_content() {
    let mut rng = RandomSource::from_seed(0);
    let length = 12;

    let password_letters = random_password(&mut rng, length, false, false);
    assert!(password_letters.chars().all(|c| LETTER_CHARS.contains(&c)));

    let password_numbers = random_password(&mut rng, length, true, false);
    assert!(password_numbers.chars().any(|c| NUMBER_CHARS.contains(&c)));

    let password_symbols = random_password(&mut rng, length, false, true);
    assert!(password_symbols.chars().any(|c| SYMBOL_CHARS.contains(&c)));

    let password_numbers_symbols = random_password(&mut rng, length, true, true);
    assert!(
        password_numbers_symbols
            .chars()
            .any(|c| NUMBER_CHARS.contains(&c) || SYMBOL_CHARS.contains(&c))
    );
}

#[test]
fn test_random_password_different_seeds() {
    let mut rng1 = RandomSource::from_seed(0);
    let mut rng2 = RandomSource::from_seed(1);
    let length = 12;
    let password1 = random_password(&mut rng1, length, true, true);
    let password2 = random_password(&mut rng2, length, true, true);
    assert_ne!(password1, password2);
}

#[test]
fn test_pin_password_length() {
    let mut rng = RandomSource::from_seed(0);
    let pin_length = 6;
    let pin = pin_password(&mut rng, pin_length);
    assert_eq!(pin.len(), pin_length as usize);
}

#[test]
fn test_pin_password_content() {
    let mut rng = RandomSource::from_seed(0);
    let pin_length = 6;
    let pin = pin_password(&mut rng, pin_length);
    assert!(pin.chars().all(|c| NUMBER_CHARS.contains(&c)));
}

#[test]
fn test_pin_password_different_seeds() {
    let mut rng1 = RandomSource::from_seed(0);
    let mut rng2 = RandomSource::from_seed(1);
    let pin_length = 6;
    let pin1 = pin_password(&mut rng1, pin_length);
    let pin2 = pin_password(&mut rng2, pin_length);
    assert_ne!(pin1, pin2);
}

#[test]
fn test_random_command_default_behavior() {
    let mut rng = RandomSource::from_seed(42);
    assert_eq!(random_password(&mut rng, 20, false, false), "BCHvbvMSgaWAuhBlaBcH");
}

#[test]
fn test_random_command_specified_characters_count() {
    let mut rng = RandomSource::from_seed(42);
    assert_eq!(random_password(&mut rng, 10, false, false), "BCHvbvMSga");
}

#[test]
fn test_random_command_numbers() {
    let mut rng = RandomSource::from_seed(42);
    assert_eq!(random_password(&mut rng, 20, true, false), "BC640vMSga9A3h52aBcH");
}

#[test]
fn test_random_command_symbols() {
    let mut rng = RandomSource::from_seed(42);
    assert_eq!(random_password(&mut rng, 20, false, true), "BC&%!vMSga)A$h^#aBcH");
}

#[test]
fn test_random_command_all_options() {
    let mut rng = RandomSource::from_seed(42);
    assert_eq!(random_password(&mut rng, 10, true, true), "BC6%!vMSga");
}

#[test]
fn test_pin_command_default_behavior() {
    let mut rng = RandomSource::from_seed(42);
    assert_eq!(pin_password(&mut rng, 7), "1525869");
}

#[test]
fn test_pin_command_numbers() {
    let mut rng = RandomSource::from_seed(42);
    assert_eq!(pin_password(&mut rng, 9), "152586949");
}

#[test]
fn random_password_has_the_requested_length_for_every_choice_of_classes() {
    for seed in 0..10u64 {
        for (numbers, symbols) in [(false, false), (true, false), (false, true), (true, true)] {
            for length in [0u32, 1, 8, 20, 100, 1000] {
                let mut rng = RandomSource::from_seed(seed);
                let password = random_password(&mut rng, length, numbers, symbols);
                assert_eq!(password.chars().count(), length as usize);
                for c in password.chars() {
                    assert!(
                        LETTER_CHARS.contains(&c)
                            || (numbers && NUMBER_CHARS.contains(&c))
                            || (symbols && SYMBOL_CHARS.contains(&c))
                    );
                }
            }
        }
    }
}

#[test]
fn pin_is_made_of_the_requested_number_of_digits() {
    for seed in 0..10u64 {
        for length in [0u32, 1, 3, 7, 12, 500] {
            let mut rng = RandomSource::from_seed(seed);
            let pin = pin_password(&mut rng, length);
            assert_eq!(pin.len(), length as usize);
            assert!(pin.chars().all(|c| c.is_ascii_digit()));
        }
    }
}

#[test]
fn random_and_pin_passwords_are_reproducible_from_the_seed() {
    for seed in [0u64, 7, 42, u64::MAX] {
        let mut first = RandomSource::from_seed(seed);
        let mut second = RandomSource::from_seed(seed);
        assert_eq!(
            random_password(&mut first, 30, true, true),
            random_password(&mut second, 30, true, true)
        );
        assert_eq!(pin_password(&mut first, 12), pin_password(&mut second, 12));
        assert_eq!(
            random_password(&mut first, 30, false, true),
            random_password(&mut second, 30, false, true)
        );
    }
}

#[test]
fn a_longer_pin_starts_with_the_shorter_one() {
    let mut short = RandomSource::from_seed(42);
    let mut long = RandomSource::from_seed(42);
    let seven = pin_password(&mut short, 7);
    let nine = pin_password(&mut long, 9);
    assert!(nine.starts_with(&seven));
}

#[test]
fn sources_from_entropy_differ() {
    let mut first = RandomSource::from_entropy().unwrap();
    let mut second = RandomSource::from_entropy().unwrap();
    assert_ne!(
        random_password(&mut first, 40, true, true),
        random_password(&mut second, 40, true, true)
    );
}

#[test]
fn a_source_starts_in_the_state_of_its_generator() {
    for seed in [0u64, 42, 99] {
        let mut given = RandomSource::from_generator(StdRng::seed_from_u64(seed));
        let mut seeded = RandomSource::from_seed(seed);
        assert_eq!(pin_password(&mut given, 12), pin_password(&mut seeded, 12));
        assert_eq!(
            random_password(&mut given, 20, true, true),
            random_password(&mut seeded, 20, true, true)
        );
    }
    let mut given = RandomSource::from_generator(StdRng::seed_from_u64(42));
    assert_eq!(pin_password(&mut given, 7), "1525869");
}
