use memegen::{
    header_line, progress_line, push_decimal, push_fixed2, rate_hundredths, seconds_hundredths,
    summary_line, unit_word, Meme,
};

#[test]
fn unit_word_singular_only_for_one() {
    assert_eq!(unit_word(1), "meme");
    assert_eq!(unit_word(0), "memes");
    assert_eq!(unit_word(2), "memes");
    assert_eq!(unit_word(u64::MAX), "memes");
}

#[test]
fn decimal_text() {
    let mut s = String::from("n=");
    push_decimal(&mut s, 0);
    assert_eq!(s, "n=0");
    let mut s = String::new();
    push_decimal(&mut s, 1234567);
    assert_eq!(s, "1234567");
    let mut s = String::new();
    push_decimal(&mut s, u128::MAX);
    assert_eq!(s, u128::MAX.to_string());
}

#[test]
fn fixed_point_text() {
    let cases: [(u128, &str); 5] = [(0, "0.00"), (5, "0.05"), (50, "0.50"), (1234, "12.34"), (100000, "1000.00")];
    for (h, want) in cases {
        let mut s = String::new();
        push_fixed2(&mut s, h);
        assert_eq!(s, want);
    }
}

#[test]
fn rate_is_count_over_seconds() {
    assert_eq!(rate_hundredths(2, 1_000_000_000), 200);
    assert_eq!(rate_hundredths(1, 3_000_000_000), 33);
    assert_eq!(rate_hundredths(2, 3_000_000_000), 67);
    assert_eq!(rate_hundredths(3, 2_001_000_000), 150);
    assert_eq!(rate_hundredths(5, 1), 500_000_000_000);
}

#[test]
fn rate_rounds_half_up() {
    // one meme in 200 s is half a hundredth per second
    assert_eq!(rate_hundredths(1, 200_000_000_000), 1);
    assert_eq!(rate_hundredths(1, 200_000_000_001), 0);
}

#[test]
fn rate_with_no_elapsed_time_is_zero() {
    assert_eq!(rate_hundredths(0, 0), 0);
    assert_eq!(rate_hundredths(7, 0), 0);
}

#[test]
fn rate_of_largest_count() {
    assert_eq!(rate_hundredths(u64::MAX, 1), (u64::MAX as u128) * 100_000_000_000);
}

#[test]
fn seconds_round_to_hundredths() {
    assert_eq!(seconds_hundredths(0), 0);
    assert_eq!(seconds_hundredths(1_234_567_890), 123);
    assert_eq!(seconds_hundredths(1_235_000_000), 124);
    assert_eq!(seconds_hundredths(4_999_999), 0);
    assert_eq!(seconds_hundredths(u64::MAX), 1_844_674_407_371);
}

#[test]
fn header_lines() {
    assert_eq!(header_line(3), "Fetching 3 memes...");
    assert_eq!(header_line(1), "Fetching 1 meme...");
    assert_eq!(header_line(0), "Fetching 0 memes...");
}

#[test]
fn progress_lines() {
    assert_eq!(progress_line(1, 3, 1_000_000_000), "\rFetched 1/3 meme... 1.00 memes/sec");
    assert_eq!(progress_line(2, 3, 3_000_000_000), "\rFetched 2/3 memes... 0.67 memes/sec");
    assert_eq!(progress_line(1, 1, 0), "\rFetched 1/1 meme... 0.00 memes/sec");
}

#[test]
fn summary_lines() {
    assert_eq!(
        summary_line(3, 2_005_000_000),
        "\rFetched a total of 3 memes in 2.01 seconds. Override with the --amount (int) arg"
    );
    assert_eq!(
        summary_line(1, 420_000_000),
        "\rFetched a total of 1 meme in 0.42 seconds. Override with the --amount (int) arg"
    );
    assert_eq!(
        summary_line(0, 0),
        "\rFetched a total of 0 memes in 0.00 seconds. Override with the --amount (int) arg"
    );
}

#[test]
fn describe_block() {
    let m = Meme::new("p1".to_string(), "t1".to_string(), "u1".to_string(), "a1".to_string());
    assert_eq!(m.describe(), "Title: t1\nAuthor: a1\nLink: p1\nMeme URL: u1");
}
