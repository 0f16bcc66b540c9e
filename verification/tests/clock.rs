use bookmark_panel::clock::date_added_text;
use chrono::{DateTime, Local};

fn in_local_time(text: &str) -> String {
    let moment: DateTime<Local> = text.parse().unwrap();
    moment.format("%a, %d %b %Y %H:%M:%S").to_string()
}

#[test]
fn date_text_is_written_anew() {
    let shown = date_added_text("2024-01-15T10:30:00Z").unwrap();
    assert_ne!(shown, "2024-01-15T10:30:00Z");
    assert!(!shown.contains('T') || shown.starts_with('T'));
    assert!(shown.ends_with(":00"));
}

#[test]
fn date_text_is_the_local_time() {
    assert_eq!(
        date_added_text("2024-01-15T10:30:00Z"),
        Some(in_local_time("2024-01-15T10:30:00Z"))
    );
    assert_eq!(
        date_added_text("2023-12-31T23:59:59.250+02:00"),
        Some(in_local_time("2023-12-31T23:59:59.250+02:00"))
    );
}

#[test]
fn date_text_has_weekday_day_month_year_and_time() {
    let shown = date_added_text("2024-01-15T10:30:00Z").unwrap();
    let parts: Vec<&str> = shown.split(' ').collect();
    assert_eq!(parts.len(), 5);
    assert!(parts[0].ends_with(','));
    assert_eq!(parts[0].len(), 4);
    assert_eq!(parts[1].len(), 2);
    assert_eq!(parts[2], "Jan");
    assert_eq!(parts[3], "2024");
    assert_eq!(parts[4].len(), 8);
}

#[test]
fn date_text_takes_a_space_between_day_and_time() {
    assert_eq!(
        date_added_text("2024-01-15 10:30:00Z"),
        date_added_text("2024-01-15T10:30:00Z")
    );
}

#[test]
fn date_text_of_one_moment_in_two_zones_is_the_same() {
    assert_eq!(
        date_added_text("2024-06-01T12:00:00+02:00"),
        date_added_text("2024-06-01T10:00:00Z")
    );
}

#[test]
fn date_text_refuses_what_is_no_date() {
    assert_eq!(date_added_text(""), None);
    assert_eq!(date_added_text("yesterday"), None);
    assert_eq!(date_added_text("2024-01-15"), None);
    assert_eq!(date_added_text("2024-13-01T00:00:00Z"), None);
    assert_eq!(date_added_text("2024-01-15T10:30:00"), None);
    assert_eq!(date_added_text("2024-01-15T10:30:00Z trailing"), None);
}

fn has_the_shape_of_a_date_text(text: &str) -> bool {
    let shown: Vec<char> = text.chars().collect();
    let n = shown.len();
    if n < 25 {
        return false;
    }
    let year = &shown[12..n - 9];
    let year_fits = if year.len() == 4 {
        year.iter().all(|c| c.is_ascii_digit())
    } else {
        year.len() >= 5
            && (year[0] == '+' || year[0] == '-')
            && year[1..].iter().all(|c| c.is_ascii_digit())
    };
    let time = &shown[n - 8..];
    shown[..3].iter().all(|c| c.is_ascii_alphabetic())
        && shown[3] == ','
        && shown[4] == ' '
        && shown[5..7].iter().all(|c| c.is_ascii_digit())
        && shown[7] == ' '
        && shown[8..11].iter().all(|c| c.is_ascii_alphabetic())
        && shown[11] == ' '
        && year_fits
        && shown[n - 9] == ' '
        && time.iter().enumerate().all(|(at, c)| {
            if at == 2 || at == 5 {
                *c == ':'
            } else {
                c.is_ascii_digit()
            }
        })
}

#[test]
fn date_text_has_its_shape_for_every_year() {
    let texts = [
        "2024-01-15T10:30:00Z",
        "1970-01-01T00:00:00Z",
        "0000-01-01T00:00:00Z",
        "0999-12-31T23:59:59Z",
        "9999-12-31T23:59:59Z",
        "+10000-01-01T00:00:00Z",
        "+262142-12-31T23:59:59Z",
        "-0001-12-31T23:59:59Z",
        "-262143-01-01T00:00:00Z",
        "2016-12-31T23:59:60Z",
        "2024-02-29T12:00:00.999999999+05:45",
    ];
    for text in texts {
        let shown = date_added_text(text);
        assert_eq!(shown, Some(in_local_time(text)), "{text}");
        assert!(has_the_shape_of_a_date_text(&shown.unwrap()), "{text}");
    }
}

#[test]
fn date_text_of_a_small_year_has_four_digits() {
    let shown = date_added_text("0042-06-15T12:00:00Z").unwrap();
    assert_eq!(shown.len(), 25);
    assert!(shown.contains(" 0042 "));
}

#[test]
fn date_text_of_a_large_year_is_signed() {
    let shown = date_added_text("+12345-06-15T12:00:00Z").unwrap();
    assert_eq!(shown.len(), 27);
    assert!(shown.contains(" +12345 "));
    let shown = date_added_text("-0042-06-15T12:00:00Z").unwrap();
    assert_eq!(shown.len(), 26);
    assert!(shown.contains(" -0042 "));
}

#[test]
fn shape_check_refuses_other_texts() {
    assert!(!has_the_shape_of_a_date_text(""));
    assert!(!has_the_shape_of_a_date_text("2024-01-15T10:30:00Z"));
    assert!(!has_the_shape_of_a_date_text("Mon, 15 Jan 24 10:30:00"));
    assert!(has_the_shape_of_a_date_text("Mon, 15 Jan 2024 10:30:00"));
}

#[test]
fn date_text_follows_the_moment() {
    let first = date_added_text("2024-01-15T10:30:00Z").unwrap();
    let second = date_added_text("2024-01-15T10:30:01Z").unwrap();
    let next_day = date_added_text("2024-01-16T10:30:00Z").unwrap();
    assert_ne!(first, second);
    assert_ne!(first, next_day);
    assert_ne!(second, next_day);
}

#[test]
fn date_text_is_the_moment_at_an_offset_of_under_a_day() {
    let texts = [
        "2024-01-15T10:30:00Z",
        "2024-07-15T10:30:00+09:30",
        "1969-12-31T23:59:59-08:00",
        "2038-01-19T03:14:08Z",
    ];
    for text in texts {
        let moment: DateTime<chrono::FixedOffset> = text.parse().unwrap();
        let offset = moment.with_timezone(&Local).offset().local_minus_utc();
        assert!(-86_400 < offset && offset < 86_400);
        let there = chrono::FixedOffset::east_opt(offset).unwrap();
        let written = moment.with_timezone(&there).format("%a, %d %b %Y %H:%M:%S").to_string();
        assert_eq!(date_added_text(text), Some(written), "{text}");
    }
}
