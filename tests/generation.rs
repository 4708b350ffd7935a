use rand_core::SeedableRng;
use rand_xorshift::XorShiftRng;
use rsgen::{gen_random_string, gen_random_string_with_rng, string_from_draws, OutputCharsType, RandomIndexSource};

fn all_types() -> Vec<OutputCharsType> {
    let mut v = Vec::new();
    for &(u, l) in &[(true, true), (true, false), (false, true), (false, false)] {
        v.push(OutputCharsType::LatinAlphabet { use_upper_case: u, use_lower_case: l });
        v.push(OutputCharsType::LatinAlphabetAndNumeric { use_upper_case: u, use_lower_case: l });
    }
    v.push(OutputCharsType::Numeric);
    v.push(OutputCharsType::PrintableAsciiWithoutSpace);
    v.push(OutputCharsType::PrintableAsciiWithSpace);
    v
}

fn in_set(t: OutputCharsType, c: char) -> bool {
    let upper = c.is_ascii_uppercase();
    let lower = c.is_ascii_lowercase();
    let digit = c.is_ascii_digit();
    match t {
        OutputCharsType::LatinAlphabet { use_upper_case: u, use_lower_case: l } => {
            (upper && (u || !l)) || (lower && (l || !u))
        }
        OutputCharsType::LatinAlphabetAndNumeric { use_upper_case: u, use_lower_case: l } => {
            (upper && (u || !l)) || (lower && (l || !u)) || digit
        }
        OutputCharsType::Numeric => digit,
        OutputCharsType::PrintableAsciiWithoutSpace => ('\u{21}'..='\u{7e}').contains(&c),
        OutputCharsType::PrintableAsciiWithSpace => ('\u{20}'..='\u{7e}').contains(&c),
    }
}

#[test]
fn length_matches_request_for_every_set() {
    let mut rng = XorShiftRng::seed_from_u64(3);
    for t in all_types() {
        for &n in &[0usize, 1, 17, 100] {
            assert_eq!(gen_random_string_with_rng(&mut rng, n, t).chars().count(), n);
        }
    }
}

#[test]
fn characters_stay_in_their_set() {
    let mut rng = XorShiftRng::seed_from_u64(11);
    for t in all_types() {
        let s = gen_random_string_with_rng(&mut rng, 2000, t);
        assert!(s.chars().all(|c| in_set(t, c)));
    }
}

#[test]
fn numeric_gives_only_digits() {
    let mut rng = XorShiftRng::seed_from_u64(5);
    let s = gen_random_string_with_rng(&mut rng, 1000, OutputCharsType::Numeric);
    assert!(s.chars().all(|c| ('0'..='9').contains(&c)));
}

#[test]
fn upper_case_only_gives_all_and_only_capitals() {
    let mut rng = XorShiftRng::seed_from_u64(9);
    let t = OutputCharsType::LatinAlphabet { use_upper_case: true, use_lower_case: false };
    let s = gen_random_string_with_rng(&mut rng, 2000, t);
    assert!(s.chars().all(|c| c.is_ascii_uppercase()));
    let mut seen: Vec<char> = s.chars().collect();
    seen.sort();
    seen.dedup();
    assert_eq!(seen.len(), 26);
}

#[test]
fn alphanumeric_is_uniform_over_62_symbols() {
    let t = OutputCharsType::LatinAlphabetAndNumeric { use_upper_case: true, use_lower_case: true };
    assert_eq!(t.alphabet_len(), 62);
    let mut rng = XorShiftRng::seed_from_u64(2024);
    let n = 100_000usize;
    let s = gen_random_string_with_rng(&mut rng, n, t);
    let mut counts = vec![0usize; 62];
    for c in s.chars() {
        let i = if c.is_ascii_uppercase() {
            c as usize - 'A' as usize
        } else if c.is_ascii_lowercase() {
            26 + c as usize - 'a' as usize
        } else {
            52 + c as usize - '0' as usize
        };
        counts[i] += 1;
    }
    assert!(counts.iter().all(|&k| k > 0));
    let expected = n as f64 / 62.0;
    let chi2: f64 = counts.iter().map(|&k| (k as f64 - expected).powi(2) / expected).sum();
    // 61 degrees of freedom: 99.6 is the 0.999 quantile.
    assert!(chi2 < 99.6, "chi-square {}", chi2);
}

#[test]
fn seeded_generation_is_reproducible() {
    for t in all_types() {
        let a = gen_random_string_with_rng(&mut XorShiftRng::seed_from_u64(77), 40, t);
        let b = gen_random_string_with_rng(&mut XorShiftRng::seed_from_u64(77), 40, t);
        assert_eq!(a, b);
    }
}

#[test]
fn seeded_numeric_golden_value() {
    let mut rng = XorShiftRng::seed_from_u64(42);
    assert_eq!(gen_random_string_with_rng(&mut rng, 8, OutputCharsType::Numeric), "81997423");
    let mut again = XorShiftRng::seed_from_u64(42);
    assert_eq!(gen_random_string_with_rng(&mut again, 8, OutputCharsType::Numeric), "81997423");
}

#[test]
fn seeded_alphanumeric_and_printable_golden_values() {
    let t = OutputCharsType::LatinAlphabetAndNumeric { use_upper_case: true, use_lower_case: true };
    assert_eq!(gen_random_string_with_rng(&mut XorShiftRng::seed_from_u64(7), 12, t), "JS9xLsW77bLL");
    assert_eq!(
        gen_random_string_with_rng(&mut XorShiftRng::seed_from_u64(1), 10, OutputCharsType::PrintableAsciiWithSpace),
        "bNAa{&$xzG"
    );
}

#[test]
fn zero_length_is_empty_and_draws_nothing() {
    for t in all_types() {
        let mut rng = XorShiftRng::seed_from_u64(13);
        assert_eq!(gen_random_string_with_rng(&mut rng, 0, t), "");
        assert!(rng == XorShiftRng::seed_from_u64(13));
        let after = gen_random_string_with_rng(&mut rng, 8, t);
        let fresh = gen_random_string_with_rng(&mut XorShiftRng::seed_from_u64(13), 8, t);
        assert_eq!(after, fresh);
    }
}

#[test]
fn printable_with_space_reaches_both_ends() {
    assert_eq!(string_from_draws(&vec![0, 94], OutputCharsType::PrintableAsciiWithSpace), " ~");
    let mut rng = XorShiftRng::seed_from_u64(21);
    let s = gen_random_string_with_rng(&mut rng, 5000, OutputCharsType::PrintableAsciiWithSpace);
    assert!(s.contains(' '));
    assert!(s.contains('~'));
}

#[test]
fn printable_without_space_never_gives_space() {
    assert_eq!(string_from_draws(&vec![0, 93], OutputCharsType::PrintableAsciiWithoutSpace), "!~");
    let mut rng = XorShiftRng::seed_from_u64(22);
    let s = gen_random_string_with_rng(&mut rng, 5000, OutputCharsType::PrintableAsciiWithoutSpace);
    assert!(!s.contains(' '));
    assert!(s.contains('!'));
    assert!(s.contains('~'));
}

#[test]
fn draws_spell_table_entries() {
    let lower = OutputCharsType::LatinAlphabet { use_upper_case: false, use_lower_case: true };
    assert_eq!(string_from_draws(&vec![0, 25, 7], lower), "azh");
    let upper_digits = OutputCharsType::LatinAlphabetAndNumeric { use_upper_case: true, use_lower_case: false };
    assert_eq!(string_from_draws(&vec![25, 26, 35], upper_digits), "Z09");
    let both = OutputCharsType::LatinAlphabetAndNumeric { use_upper_case: true, use_lower_case: true };
    assert_eq!(string_from_draws(&vec![0, 26, 51, 52, 61], both), "Aaz09");
    assert_eq!(string_from_draws(&vec![3, 9, 0], OutputCharsType::Numeric), "390");
    assert_eq!(string_from_draws(&vec![], OutputCharsType::Numeric), "");
}

#[test]
fn no_case_flag_falls_back_to_both_cases() {
    let letters = OutputCharsType::LatinAlphabet { use_upper_case: false, use_lower_case: false };
    assert_eq!(letters.alphabet_len(), 52);
    assert_eq!(string_from_draws(&vec![0, 26, 51], letters), "Aaz");
    let alnum = OutputCharsType::LatinAlphabetAndNumeric { use_upper_case: false, use_lower_case: false };
    assert_eq!(alnum.alphabet_len(), 62);
    assert_eq!(alnum.symbol_at(61), '9');
}

#[test]
fn alphabet_sizes() {
    let sizes: Vec<u32> = all_types().into_iter().map(|t| t.alphabet_len()).collect();
    assert_eq!(sizes, vec![52, 62, 26, 36, 26, 36, 52, 62, 10, 94, 95]);
}

#[test]
fn uniform_index_stays_below_bound() {
    let mut rng = XorShiftRng::seed_from_u64(31);
    let mut seen = vec![false; 3];
    for _ in 0..300 {
        let i = rng.uniform_index(3);
        assert!(i < 3);
        seen[i as usize] = true;
    }
    assert!(seen.iter().all(|&b| b));
    let mut secure = rand::thread_rng();
    for _ in 0..300 {
        assert!(secure.uniform_index(5) < 5);
    }
    assert_eq!(rng.uniform_index(1), 0);
}

#[test]
fn secure_generation_has_length_and_set() {
    let t = OutputCharsType::LatinAlphabetAndNumeric { use_upper_case: true, use_lower_case: true };
    let s = gen_random_string(32, t);
    assert_eq!(s.chars().count(), 32);
    assert!(s.chars().all(|c| c.is_ascii_alphanumeric()));
    assert_eq!(gen_random_string(0, OutputCharsType::Numeric), "");
}
