use phrack_read::width::{char_width, count_kept, fit_to_width, measure_chars, shorten};

#[test]
fn narrow_and_wide_characters() {
    assert_eq!(char_width('a'), 1);
    assert_eq!(char_width(' '), 1);
    assert_eq!(char_width('日'), 2);
    assert_eq!(char_width('═'), 1);
    // A combining accent takes no column of its own.
    assert_eq!(char_width('\u{0301}'), 0);
}

#[test]
fn line_of_exact_width_is_untouched() {
    let line = "0123456789";
    assert_eq!(fit_to_width(line, 10), line);
    assert_eq!(fit_to_width(line, 11), line);
    assert_eq!(fit_to_width(line, 1000), line);
}

#[test]
fn line_one_column_too_wide_is_shortened() {
    let line = "0123456789A";
    let shown = fit_to_width(line, 10);
    assert_eq!(shown, "0123456...");
    assert_eq!(shown.chars().count(), 10);
}

#[test]
fn long_line_is_shortened_to_width() {
    let line = "The quick brown fox jumps over the lazy dog";
    assert_eq!(fit_to_width(line, 20), "The quick brown f...");
    assert_eq!(fit_to_width(line, 4), "T...");
    assert_eq!(fit_to_width(line, 3), "...");
}

#[test]
fn empty_line_is_untouched() {
    assert_eq!(fit_to_width("", 0), "");
    assert_eq!(fit_to_width("", 80), "");
}

#[test]
fn wide_characters_count_two_columns() {
    // Seven characters of two columns each: fourteen columns.
    let line = "日本語テキスト";
    assert_eq!(fit_to_width(line, 14), line);
    // Ten columns leave seven for text: three wide characters fill six.
    assert_eq!(fit_to_width(line, 10), "日本語...");
    assert_eq!(fit_to_width(line, 9), "日本語...");
    assert_eq!(fit_to_width(line, 8), "日本...");
    assert_eq!(fit_to_width(line, 13), "日本語テキ...");
}

#[test]
fn wide_character_is_never_split() {
    // Four columns leave one for text, which no wide character fits.
    assert_eq!(fit_to_width("日本語", 4), "...");
    assert_eq!(fit_to_width("日本語", 5), "日...");
    assert_eq!(fit_to_width("a日本語", 5), "a...");
    assert_eq!(fit_to_width("a日本語", 6), "a日...");
}

#[test]
fn viewport_narrower_than_marker() {
    assert_eq!(fit_to_width("abc", 0), "...");
    assert_eq!(fit_to_width("abc", 1), "...");
    assert_eq!(fit_to_width("abc", 2), "...");
    // Not even a character without width is kept when there is no room.
    assert_eq!(fit_to_width("\u{0301}abc", 2), "...");
    assert_eq!(fit_to_width("a", 0), "...");
}

#[test]
fn characters_without_width_ride_along() {
    // "e" + combining acute accent is one column wide.
    let line = "e\u{0301}e\u{0301}e\u{0301}e\u{0301}e\u{0301}";
    assert_eq!(fit_to_width(line, 5), line);
    assert_eq!(fit_to_width(line, 4), "e\u{0301}...");
    // With no column left for text, leading accents still fit.
    assert_eq!(fit_to_width("\u{0301}abcd", 3), "\u{0301}...");
}

#[test]
fn measure_chars_measures_each_alone() {
    let chars: Vec<char> = "ab日c\u{0301}".chars().collect();
    assert_eq!(measure_chars(&chars), vec![1, 1, 2, 1, 0]);
    assert_eq!(measure_chars(&Vec::new()), Vec::<usize>::new());
}

#[test]
fn count_kept_stops_at_first_overflow() {
    let widths = vec![1, 1, 2, 1, 1];
    assert_eq!(count_kept(&widths, 0), 0);
    assert_eq!(count_kept(&widths, 1), 1);
    assert_eq!(count_kept(&widths, 2), 2);
    // The wide character does not fit into the third column, and what
    // follows it is not looked at.
    assert_eq!(count_kept(&widths, 3), 2);
    assert_eq!(count_kept(&widths, 4), 3);
    assert_eq!(count_kept(&widths, 5), 4);
    assert_eq!(count_kept(&widths, 6), 5);
    assert_eq!(count_kept(&widths, 100), 5);
    assert_eq!(count_kept(&Vec::new(), 5), 0);
}

#[test]
fn count_kept_takes_characters_without_width() {
    assert_eq!(count_kept(&vec![0, 0, 1, 0, 1], 0), 2);
    assert_eq!(count_kept(&vec![0, 0, 1, 0, 1], 1), 4);
    assert_eq!(count_kept(&vec![0, 0, 0], 0), 3);
}

#[test]
fn count_kept_with_very_wide_characters() {
    assert_eq!(count_kept(&vec![usize::MAX, 1], usize::MAX), 1);
    assert_eq!(count_kept(&vec![usize::MAX, 1], usize::MAX - 1), 0);
    assert_eq!(count_kept(&vec![1, usize::MAX], usize::MAX), 1);
    assert_eq!(count_kept(&vec![usize::MAX, 0], usize::MAX), 2);
}

#[test]
fn shorten_goes_by_the_given_widths() {
    let chars: Vec<char> = "abcdefgh".chars().collect();
    let ones = vec![1; 8];
    // The line fits: it is shown as it is, whatever its characters take.
    assert_eq!(shorten(&chars, &ones, 8, 8), "abcdefgh");
    assert_eq!(shorten(&chars, &ones, 8, 9), "abcdefgh");
    assert_eq!(shorten(&chars, &ones, 0, 0), "abcdefgh");
    // One column too wide: five characters and the marker fill the eight
    // columns.
    assert_eq!(shorten(&chars, &ones, 9, 8), "abcde...");
    assert_eq!(shorten(&chars, &ones, 8, 7), "abcd...");
    assert_eq!(shorten(&chars, &ones, 8, 3), "...");
    assert_eq!(shorten(&chars, &ones, 8, 2), "...");
    assert_eq!(shorten(&chars, &ones, 8, 0), "...");
    // Taken as two columns each, half as many characters are kept.
    let twos = vec![2; 8];
    assert_eq!(shorten(&chars, &twos, 16, 15), "abcdef...");
    assert_eq!(shorten(&chars, &twos, 16, 8), "ab...");
    assert_eq!(shorten(&chars, &twos, 16, 4), "...");
    // Where the whole line fits into the budget all of it is kept.
    assert_eq!(shorten(&chars, &ones, 100, 11), "abcdefgh...");
}

#[test]
fn shorten_stops_at_the_first_character_that_does_not_fit() {
    let chars: Vec<char> = "abcd".chars().collect();
    // The second character is too wide; the narrow ones behind it are not
    // taken in its place.
    assert_eq!(shorten(&chars, &vec![1, 5, 1, 1], 8, 6), "a...");
    assert_eq!(shorten(&chars, &vec![1, 5, 1, 1], 8, 7), "a...");
    assert_eq!(shorten(&chars, &vec![5, 1, 1, 1], 8, 7), "...");
    // In a viewport narrower than the marker not even a character without
    // width is kept.
    assert_eq!(shorten(&chars, &vec![0, 0, 0, 0], 1, 0), "...");
    assert_eq!(shorten(&chars, &vec![0, 0, 1, 1], 5, 3), "ab...");
    assert_eq!(shorten(&Vec::new(), &Vec::new(), 5, 3), "...");
    assert_eq!(shorten(&Vec::new(), &Vec::new(), 0, 0), "");
}
