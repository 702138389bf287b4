use std::str::FromStr;

use calendar_duration::date_iterator::date_iterator_from;
use calendar_duration::{CalendarDuration, DateTime};

fn point(s: &str) -> DateTime {
    let dt = chrono::DateTime::<chrono::Utc>::from_str(s).unwrap();
    DateTime::from_ymd_hms_nano(
        chrono::Datelike::year(&dt),
        chrono::Datelike::month(&dt),
        chrono::Datelike::day(&dt),
        chrono::Timelike::hour(&dt),
        chrono::Timelike::minute(&dt),
        chrono::Timelike::second(&dt),
        chrono::Timelike::nanosecond(&dt),
    )
    .unwrap()
}

#[test]
pub fn date_iterator_test_date_iterator_from() {
    let input = "1996-12-25T16:39:57.123Z";
    let dt = chrono::DateTime::<chrono::Utc>::from_str(input).unwrap();
    assert_eq!(input, format!("{:?}", dt));

    let duration = CalendarDuration::years(3)
        .add(CalendarDuration::months(1))
        .add(CalendarDuration::days(2))
        .add(CalendarDuration::minutes(4));

    let mut iter = date_iterator_from(point(input), duration);
    let expected = vec![
        point("1996-12-25T16:39:57.123Z"),
        point("2000-01-27T16:43:57.123Z"),
        point("2003-02-28T16:47:57.123Z"),
        point("2006-03-31T16:51:57.123Z"),
    ];

    let mut taken: Vec<DateTime> = Vec::new();
    for _ in 0..4 {
        taken.push(iter.next().unwrap());
    }
    assert_eq!(expected, taken);
}
