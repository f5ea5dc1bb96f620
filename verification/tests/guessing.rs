use rust_tour::guessing::{judge, parse_guess, play, secret_number, Turn, Verdict};

#[test]
fn the_secret_number_lies_between_1_and_100() {
    let mut seen_low = false;
    let mut seen_high = false;
    for _ in 0..2000 {
        let n = secret_number();
        assert!(1 <= n && n <= 100);
        if n <= 50 {
            seen_low = true;
        } else {
            seen_high = true;
        }
    }
    assert!(seen_low && seen_high);
}

#[test]
fn a_guess_is_read_off_a_line() {
    assert_eq!(parse_guess("42\n"), Some(42));
    assert_eq!(parse_guess("  7  \r\n"), Some(7));
    assert_eq!(parse_guess("+5"), Some(5));
    assert_eq!(parse_guess("007"), Some(7));
    assert_eq!(parse_guess("0"), Some(0));
    assert_eq!(parse_guess("4294967295"), Some(u32::MAX));
}

#[test]
fn what_is_not_a_number_is_no_guess() {
    assert_eq!(parse_guess(""), None);
    assert_eq!(parse_guess("\n"), None);
    assert_eq!(parse_guess("abc"), None);
    assert_eq!(parse_guess("-1"), None);
    assert_eq!(parse_guess("+"), None);
    assert_eq!(parse_guess("++1"), None);
    assert_eq!(parse_guess("1 2"), None);
    assert_eq!(parse_guess("1.5"), None);
    assert_eq!(parse_guess("4294967296"), None);
    assert_eq!(parse_guess("1_000"), None);
}

#[test]
fn a_guess_is_too_small_too_big_or_right() {
    assert_eq!(judge(1, 50), Verdict::TooSmall);
    assert_eq!(judge(49, 50), Verdict::TooSmall);
    assert_eq!(judge(50, 50), Verdict::Win);
    assert_eq!(judge(51, 50), Verdict::TooBig);
    assert_eq!(judge(u32::MAX, 0), Verdict::TooBig);
}

#[test]
fn a_line_is_played_against_the_secret() {
    assert_eq!(play("nonsense\n", 10), Turn::Invalid);
    assert_eq!(
        play("9\n", 10),
        Turn::Guess {
            guess: 9,
            verdict: Verdict::TooSmall
        }
    );
    assert_eq!(
        play("11\n", 10),
        Turn::Guess {
            guess: 11,
            verdict: Verdict::TooBig
        }
    );
    assert_eq!(
        play(" 10 \n", 10),
        Turn::Guess {
            guess: 10,
            verdict: Verdict::Win
        }
    );
}

#[test]
fn the_player_is_told_in_words_and_the_game_ends_with_a_win() {
    assert_eq!(Verdict::TooSmall.message(), "Too small!");
    assert_eq!(Verdict::TooBig.message(), "Too big!");
    assert_eq!(Verdict::Win.message(), "You win!");
    assert!(Verdict::Win.ends_game());
    assert!(!Verdict::TooSmall.ends_game());
    assert!(!Verdict::TooBig.ends_game());
}
