use numstream::seed::parse_seed;
use numstream::seed::resolve_seed;
use numstream::seed::seed_from_line;
use numstream::seed::SeedPolicy;
use numstream::seed::DEFAULT_SEED;
use numstream::seed::derive_seed;

#[test]
fn line_with_a_number() {
    assert_eq!(seed_from_line("42\n"), 42);
    assert_eq!(parse_seed("42\n"), Some(42));
    assert_eq!(seed_from_line("42\r\n"), 42);
    assert_eq!(seed_from_line("  +7\t"), 7);
    assert_eq!(seed_from_line("007"), 7);
    assert_eq!(seed_from_line("0"), 0);
}

#[test]
fn line_without_a_number_falls_back() {
    assert_eq!(DEFAULT_SEED, 1234);
    for line in ["", "\n", "abc\n", "4 2", "--1", "+", "-", "1.5", "12a", "+-3", "0x10", "\u{661}"] {
        assert_eq!(parse_seed(line), None);
        assert_eq!(seed_from_line(line), 1234);
    }
}

#[test]
fn negative_numbers_wrap() {
    assert_eq!(parse_seed("-1\n"), Some(-1));
    assert_eq!(seed_from_line("-1\n"), u64::MAX);
    assert_eq!(seed_from_line("-0"), 0);
    assert_eq!(seed_from_line("-9223372036854775808"), 1 << 63);
    assert_eq!(seed_from_line("-2"), u64::MAX - 1);
}

#[test]
fn numbers_beyond_64_signed_bits_fall_back() {
    assert_eq!(seed_from_line("9223372036854775807"), i64::MAX as u64);
    assert_eq!(parse_seed("9223372036854775808"), None);
    assert_eq!(parse_seed("-9223372036854775809"), None);
    assert_eq!(parse_seed("18446744073709551616"), None);
    assert_eq!(parse_seed("99999999999999999999999999999999"), None);
    assert_eq!(seed_from_line("000000000000000000000000000000000012"), 12);
}

#[test]
fn unicode_white_space_is_trimmed() {
    assert_eq!(seed_from_line("\u{a0}5\u{2003}\u{3000}"), 5);
    assert_eq!(seed_from_line("\u{85}\u{1680}\u{2028}\u{2029}\u{202f}\u{205f}8\u{b}\u{c}"), 8);
    // U+200B is no white space.
    assert_eq!(seed_from_line("\u{200b}5"), 1234);
}

#[test]
fn parsing_agrees_with_the_standard_library() {
    let lines = [
        "42\n", " 42", "-17 \n", "+0", "", " ", "a", "1e3", "١٢", "9223372036854775807", "9223372036854775808",
        "-9223372036854775808", "-9223372036854775809", "\t\t12\n\n", "1_000", "+ 1", "- 1", "\u{feff}1", "٣",
        "00", "-00", "+00012", " \u{2000}33\u{200a} ",
    ];
    for line in lines {
        assert_eq!(parse_seed(line), line.trim().parse::<i64>().ok());
        assert_eq!(seed_from_line(line), line.trim().parse::<i64>().unwrap_or(1234) as u64);
    }
}

#[test]
fn policy_of_the_flags() {
    assert_eq!(SeedPolicy::from_flags(true, true), SeedPolicy::AskClient);
    assert_eq!(SeedPolicy::from_flags(true, false), SeedPolicy::AskClient);
    assert_eq!(SeedPolicy::from_flags(false, true), SeedPolicy::Random);
    assert_eq!(SeedPolicy::from_flags(false, false), SeedPolicy::Fixed);
    assert!(SeedPolicy::AskClient.reads_client_line());
    assert!(!SeedPolicy::Fixed.reads_client_line());
    assert!(SeedPolicy::Random.draws_fresh_seed());
    assert!(!SeedPolicy::JumpDerived.draws_fresh_seed());
}

#[test]
fn seed_of_each_policy() {
    assert_eq!(resolve_seed(SeedPolicy::AskClient, "42\n", 5, 7), 42);
    assert_eq!(resolve_seed(SeedPolicy::AskClient, "x", 5, 7), 1234);
    assert_eq!(resolve_seed(SeedPolicy::Random, "42\n", 5, 7), 5);
    assert_eq!(resolve_seed(SeedPolicy::Fixed, "42\n", 5, 7), 7);
    assert_eq!(resolve_seed(SeedPolicy::JumpDerived, "42\n", 5, 7), 7);
}

#[test]
fn derived_seeds() {
    assert_eq!(derive_seed(SeedPolicy::AskClient, "42\n", 7), 42);
    assert_eq!(derive_seed(SeedPolicy::Fixed, "42\n", 7), 7);
    assert_eq!(derive_seed(SeedPolicy::JumpDerived, "42\n", 7), 7);
    let drawn: Vec<u64> = (0..8).map(|_| derive_seed(SeedPolicy::Random, "42\n", 7)).collect();
    assert!(drawn.iter().all(|&s| s < u64::MAX));
    // Eight draws of 64 bits that all agree are no draws.
    assert!(drawn.iter().any(|&s| s != drawn[0]));
}
