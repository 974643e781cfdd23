use playback_core::args::{default_file, parse_args, parse_index};

fn line(args: &[&str]) -> Vec<String> {
    args.iter().map(|arg| arg.to_string()).collect()
}

#[test]
fn defaults_without_arguments() {
    assert_eq!(default_file(), "BadApple.webm");
    assert_eq!(parse_args(&line(&["player"])), ("BadApple.webm".to_string(), 0));
    assert_eq!(parse_args(&line(&[])), ("BadApple.webm".to_string(), 0));
}

#[test]
fn program_name_is_not_an_argument() {
    assert_eq!(parse_args(&line(&["3"])), ("BadApple.webm".to_string(), 0));
    assert_eq!(parse_args(&line(&["3", "clip.webm"])), ("clip.webm".to_string(), 0));
}

#[test]
fn number_selects_the_display_and_anything_else_the_file() {
    assert_eq!(parse_args(&line(&["player", "clip.mp4"])), ("clip.mp4".to_string(), 0));
    assert_eq!(parse_args(&line(&["player", "2"])), ("BadApple.webm".to_string(), 2));
    assert_eq!(parse_args(&line(&["player", "clip.mp4", "1"])), ("clip.mp4".to_string(), 1));
    assert_eq!(parse_args(&line(&["player", "1", "clip.mp4"])), ("clip.mp4".to_string(), 1));
}

#[test]
fn last_argument_of_a_kind_counts() {
    assert_eq!(
        parse_args(&line(&["player", "a.webm", "1", "b.webm", "2"])),
        ("b.webm".to_string(), 2)
    );
    assert_eq!(parse_args(&line(&["player", "7", "0"])), ("BadApple.webm".to_string(), 0));
}

#[test]
fn what_is_no_number_is_a_file() {
    assert_eq!(parse_args(&line(&["player", "-1"])), ("-1".to_string(), 0));
    assert_eq!(parse_args(&line(&["player", "1.5"])), ("1.5".to_string(), 0));
    assert_eq!(parse_args(&line(&["player", ""])), ("".to_string(), 0));
    assert_eq!(parse_args(&line(&["player", " 1"])), (" 1".to_string(), 0));
    assert_eq!(
        parse_args(&line(&["player", "99999999999999999999999999"])),
        ("99999999999999999999999999".to_string(), 0)
    );
}

#[test]
fn index_is_a_whole_decimal_number() {
    assert_eq!(parse_index("0"), Some(0));
    assert_eq!(parse_index("7"), Some(7));
    assert_eq!(parse_index("0042"), Some(42));
    assert_eq!(parse_index("+5"), Some(5));
    assert_eq!(parse_index("1234567890"), Some(1_234_567_890));
    assert_eq!(parse_index(""), None);
    assert_eq!(parse_index("+"), None);
    assert_eq!(parse_index("-"), None);
    assert_eq!(parse_index("-0"), None);
    assert_eq!(parse_index("++5"), None);
    assert_eq!(parse_index("5+"), None);
    assert_eq!(parse_index("12a"), None);
    assert_eq!(parse_index("a12"), None);
    assert_eq!(parse_index("1 2"), None);
    assert_eq!(parse_index("0x10"), None);
    assert_eq!(parse_index("１２"), None);
    assert_eq!(parse_index("٣"), None);
}

#[test]
fn index_stops_at_the_largest_usize() {
    let largest = usize::MAX.to_string();
    assert_eq!(parse_index(&largest), Some(usize::MAX));
    let mut beyond = largest.clone();
    beyond.push('0');
    assert_eq!(parse_index(&beyond), None);
    let next = (usize::MAX as u128 + 1).to_string();
    assert_eq!(parse_index(&next), None);
    let padded = format!("000000000000000000000000000000{}", usize::MAX);
    assert_eq!(parse_index(&padded), Some(usize::MAX));
}

#[test]
fn index_reads_what_the_standard_library_reads() {
    let samples = [
        "0", "1", "10", "007", "+1", "+", "-", "", "-1", "+-1", "1+", "18446744073709551615",
        "18446744073709551616", "4294967295", "4294967296", "９", "1e3", " 1", "1 ", "１",
        "+0", "++0", "abc", "12abc", "00000000000000000000000000000000000001",
    ];
    for text in samples {
        assert_eq!(parse_index(text), text.parse::<usize>().ok(), "{:?}", text);
    }
}
