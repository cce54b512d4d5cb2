use rand::SeedableRng;
use rand_chacha::ChaCha20Rng;
use weekday_quiz::calendar::{days_in_month, display_weekday, is_was, CivilDate, Weekday};
use weekday_quiz::guess::{parse_command, parse_token, Command};
use weekday_quiz::oracle::{date_at_offset, generate_date, gregorian_start_date, offset_bounds, DateError};
use weekday_quiz::stats::Stats;

fn date(y: i16, m: i8, d: i8) -> CivilDate {
    CivilDate::new(y, m, d).unwrap()
}

#[test]
fn weekday_of_known_dates() {
    assert_eq!(date(2000, 1, 1).weekday(), Weekday::Saturday);
    assert_eq!(date(1970, 1, 1).weekday(), Weekday::Thursday);
    assert_eq!(date(1582, 10, 15).weekday(), Weekday::Friday);
    assert_eq!(date(1776, 7, 4).weekday(), Weekday::Thursday);
    assert_eq!(date(2024, 2, 29).weekday(), Weekday::Thursday);
    assert_eq!(date(1994, 9, 3).weekday(), Weekday::Saturday);
}

#[test]
fn parse_full_and_short_names() {
    assert_eq!(parse_command("Monday"), Some(Command::Guess(Weekday::Monday)));
    assert_eq!(parse_command("mon"), Some(Command::Guess(Weekday::Monday)));
    assert_eq!(parse_command("m"), Some(Command::Guess(Weekday::Monday)));
    assert_eq!(parse_command("xyz"), None);
}

#[test]
fn parse_every_weekday() {
    assert_eq!(parse_command("tues"), Some(Command::Guess(Weekday::Tuesday)));
    assert_eq!(parse_command("W"), Some(Command::Guess(Weekday::Wednesday)));
    assert_eq!(parse_command("thurs"), Some(Command::Guess(Weekday::Thursday)));
    assert_eq!(parse_command("fr"), Some(Command::Guess(Weekday::Friday)));
    assert_eq!(parse_command("Sat"), Some(Command::Guess(Weekday::Saturday)));
    assert_eq!(parse_command("sunday"), Some(Command::Guess(Weekday::Sunday)));
}

#[test]
fn parse_quit_tokens() {
    assert_eq!(parse_command("q"), Some(Command::Quit));
    assert_eq!(parse_command("QUIT"), Some(Command::Quit));
    assert_eq!(parse_command("exit"), Some(Command::Quit));
}

#[test]
fn parse_ignores_case_and_surrounding_space() {
    assert_eq!(parse_command("  MONDAY \n"), Some(Command::Guess(Weekday::Monday)));
    assert_eq!(parse_command("\tThu  "), Some(Command::Guess(Weekday::Thursday)));
}

#[test]
fn parse_rejects_ambiguous_and_partial_tokens() {
    assert_eq!(parse_command(""), None);
    assert_eq!(parse_command("t"), None);
    assert_eq!(parse_command("s"), None);
    assert_eq!(parse_command("mond"), None);
    assert_eq!(parse_command("mon day"), None);
}

#[test]
fn parse_token_takes_normalised_input() {
    assert_eq!(parse_token("wed"), Some(Command::Guess(Weekday::Wednesday)));
    assert_eq!(parse_token("Wed"), None);
    assert_eq!(parse_token(" wed"), None);
}

#[test]
fn one_correct_guess_on_fresh_tracker() {
    let mut stats = Stats::new();
    stats.increment_correct(1000);
    assert_eq!(stats.total_guesses, 1);
    assert_eq!(stats.correct_guesses, 1);
    assert_eq!(stats.current_streak, 1);
    assert_eq!(stats.best_streak, 1);
    assert_eq!(stats.last_duration_ms, 1000);
    assert_eq!(stats.avg_duration_ms(), 1000);
}

#[test]
fn wrong_guess_resets_streak_keeps_best() {
    let mut stats = Stats::new();
    stats.increment_correct(1000);
    stats.increment_incorrect(3000);
    assert_eq!(stats.current_streak, 0);
    assert_eq!(stats.best_streak, 1);
    assert_eq!(stats.total_guesses, 2);
    assert_eq!(stats.correct_guesses, 1);
    assert_eq!(stats.last_duration_ms, 3000);
}

#[test]
fn best_streak_follows_longest_run() {
    let mut stats = Stats::default();
    stats.increment_correct(10);
    stats.increment_correct(10);
    stats.increment_incorrect(10);
    stats.increment_correct(10);
    assert_eq!(stats.current_streak, 1);
    assert_eq!(stats.best_streak, 2);
    assert_eq!(stats.correct_guesses, 3);
    assert_eq!(stats.total_guesses, 4);
}

#[test]
fn average_and_accuracy() {
    let mut stats = Stats::new();
    assert_eq!(stats.avg_duration_ms(), 0);
    stats.increment_correct(1000);
    stats.increment_incorrect(2000);
    stats.increment_correct(4000);
    assert_eq!(stats.avg_duration_ms(), 2333);
    assert_eq!(stats.total_duration_ms, 7000);
    assert_eq!(stats.accuracy_permille(), 666);
}

#[test]
fn fresh_tracker_is_zero() {
    let stats = Stats::default();
    assert_eq!(stats, Stats::new());
    assert_eq!(stats.total_guesses, 0);
    assert_eq!(stats.best_streak, 0);
    assert_eq!(stats.total_duration_ms, 0);
}

#[test]
fn generated_dates_stay_in_range() {
    let now = date(2024, 6, 15);
    let start = gregorian_start_date();
    let end = now.checked_add_years(100).unwrap();
    let mut rng = ChaCha20Rng::seed_from_u64(17);
    for _ in 0..500 {
        let d = generate_date(now, &mut rng).unwrap();
        assert!(start.days_until(&d) >= 0);
        assert!(d.days_until(&end) > 0);
    }
}

#[test]
fn same_seed_same_dates() {
    let now = date(2024, 6, 15);
    let mut a = ChaCha20Rng::seed_from_u64(42);
    let mut b = ChaCha20Rng::seed_from_u64(42);
    for _ in 0..50 {
        assert_eq!(generate_date(now, &mut a), generate_date(now, &mut b));
    }
}

#[test]
fn generate_fails_before_gregorian_start() {
    let mut rng = ChaCha20Rng::seed_from_u64(1);
    assert_eq!(generate_date(date(1582, 10, 14), &mut rng), Err(DateError::BeforeGregorian));
    assert_eq!(generate_date(date(1000, 1, 1), &mut rng), Err(DateError::BeforeGregorian));
}

#[test]
fn generate_fails_past_last_year() {
    let mut rng = ChaCha20Rng::seed_from_u64(1);
    assert_eq!(generate_date(date(9900, 1, 1), &mut rng), Err(DateError::OutOfRange));
    assert!(generate_date(date(9899, 12, 31), &mut rng).is_ok());
}

#[test]
fn generate_on_first_gregorian_day() {
    let now = date(1582, 10, 15);
    let mut rng = ChaCha20Rng::seed_from_u64(3);
    for _ in 0..50 {
        let d = generate_date(now, &mut rng).unwrap();
        assert!(now.days_until(&d) >= 0);
        assert!(now.days_until(&d) < 36525);
    }
}

#[test]
fn offset_bounds_exact() {
    assert_eq!(offset_bounds(date(1582, 10, 16)), Ok((-1, 36525)));
    assert_eq!(offset_bounds(date(1582, 10, 15)), Ok((0, 36525)));
    assert_eq!(offset_bounds(date(2000, 1, 1)), Ok((-152_384, 36525)));
    assert_eq!(offset_bounds(date(1582, 10, 14)), Err(DateError::BeforeGregorian));
    assert_eq!(offset_bounds(date(9950, 5, 5)), Err(DateError::OutOfRange));
}

#[test]
fn date_at_offset_exact() {
    assert_eq!(date_at_offset(date(2000, 1, 1), 31), Some(date(2000, 2, 1)));
    assert_eq!(date_at_offset(date(2000, 3, 1), -1), Some(date(2000, 2, 29)));
    assert_eq!(date_at_offset(date(2000, 1, 1), 0), Some(date(2000, 1, 1)));
    assert_eq!(date_at_offset(date(1970, 1, 1), 10957), Some(date(2000, 1, 1)));
}

#[test]
fn date_at_offset_out_of_range() {
    assert_eq!(date_at_offset(date(9999, 12, 31), 1), None);
    assert_eq!(date_at_offset(date(-9999, 1, 1), -1), None);
    assert_eq!(date_at_offset(date(2000, 1, 1), i32::MAX), None);
    assert_eq!(date_at_offset(date(2000, 1, 1), i32::MIN), None);
    assert_eq!(date_at_offset(date(9999, 12, 30), 1), Some(date(9999, 12, 31)));
}

#[test]
fn adding_years_clamps_day() {
    assert_eq!(date(2024, 2, 29).checked_add_years(1), Some(date(2025, 2, 28)));
    assert_eq!(date(2000, 1, 31).checked_add_years(100), Some(date(2100, 1, 31)));
    assert_eq!(date(9999, 1, 1).checked_add_years(1), None);
    assert_eq!(date(-9999, 1, 1).checked_add_years(-1), None);
}

#[test]
fn days_between_dates() {
    assert_eq!(date(1970, 1, 1).days_until(&date(2000, 1, 1)), 10957);
    assert_eq!(date(2000, 1, 1).days_until(&date(1970, 1, 1)), -10957);
    assert_eq!(date(2024, 3, 1).days_until(&date(2024, 3, 1)), 0);
}

#[test]
fn tense_of_dates() {
    let now = date(2024, 6, 15);
    assert_eq!(is_was(date(2024, 6, 16), now), "is");
    assert_eq!(is_was(now, now), "is");
    assert_eq!(is_was(date(1999, 12, 31), now), "was");
}

#[test]
fn weekday_names() {
    assert_eq!(display_weekday(Weekday::Monday), "Monday");
    assert_eq!(display_weekday(Weekday::Wednesday), "Wednesday");
    assert_eq!(display_weekday(Weekday::Sunday), "Sunday");
}

#[test]
fn date_validation() {
    assert!(CivilDate::new(2023, 2, 29).is_none());
    assert!(CivilDate::new(2024, 2, 29).is_some());
    assert!(CivilDate::new(1900, 2, 29).is_none());
    assert!(CivilDate::new(2024, 13, 1).is_none());
    assert!(CivilDate::new(2024, 4, 31).is_none());
    assert!(CivilDate::new(2024, 1, 0).is_none());
    assert!(CivilDate::new(10000, 1, 1).is_none());
    assert!(CivilDate::new(-9999, 1, 1).is_some());
    assert_eq!(days_in_month(1900, 2), 28);
    assert_eq!(days_in_month(2000, 2), 29);
    assert_eq!(days_in_month(2023, 9), 30);
}
