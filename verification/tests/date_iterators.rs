use std::str::FromStr;

use calendar_duration::date_iterators::date_iterator_from;
use calendar_duration::{CalendarDuration, DateTime};

fn point(s: &str) -> DateTime {
    let dt = chrono::DateTime::<chrono::Utc>::from_str(s).unwrap();
    DateTime::from_ymd_hms_nano(
        chrono::Datelike::year(&dt),
        chrono::Datelike::month(&dt),
        chrono::Datelike::day(&dt),
        chrono::Timelike::hour(&dt),
        chrono::Timelike::minute(&dt),
        chrono::Timelike::second(&dt),
        chrono::Timelike::nanosecond(&dt),
    )
    .unwrap()
}

fn step() -> CalendarDuration {
    CalendarDuration::years(3)
        .add(CalendarDuration::months(1))
        .add(CalendarDuration::days(2))
        .add(CalendarDuration::minutes(4))
}

#[test]
pub fn date_iterators_test_date_iterator_from() {
    let input = "1996-12-25T16:39:57.123Z";
    let dt = chrono::DateTime::<chrono::Utc>::from_str(input).unwrap();
    assert_eq!(input, format!("{:?}", dt));

    let mut iter = date_iterator_from(point(input), step());
    let expected = vec![
        point("1996-12-25T16:39:57.123Z"),
        point("2000-01-27T16:43:57.123Z"),
        point("2003-02-28T16:47:57.123Z"),
        point("2006-03-31T16:51:57.123Z"),
    ];

    let mut taken: Vec<DateTime> = Vec::new();
    for _ in 0..4 {
        taken.push(iter.next().unwrap());
    }
    assert_eq!(expected, taken);
}

#[test]
pub fn test_date_iterator_from_to() {
    let from_str = "1996-12-25T16:39:57.123Z";
    let from_dt = chrono::DateTime::<chrono::Utc>::from_str(from_str).unwrap();
    assert_eq!(from_str, format!("{:?}", from_dt));

    let to_str = "2006-03-31T16:51:57.123Z";
    let to_dt = chrono::DateTime::<chrono::Utc>::from_str(to_str).unwrap();
    assert_eq!(to_str, format!("{:?}", to_dt));

    let mut iter = date_iterator_from(point(from_str), step()).to(point(to_str));
    let expected = vec![
        point("1996-12-25T16:39:57.123Z"),
        point("2000-01-27T16:43:57.123Z"),
        point("2003-02-28T16:47:57.123Z"),
    ];

    let mut taken: Vec<DateTime> = Vec::new();
    while let Some(d) = iter.next() {
        taken.push(d);
    }
    assert_eq!(expected, taken);
}

#[test]
pub fn test_date_iterator_from_to_pairwise() {
    let from_str = "1996-12-25T16:39:57.123Z";
    let from_dt = chrono::DateTime::<chrono::Utc>::from_str(from_str).unwrap();
    assert_eq!(from_str, format!("{:?}", from_dt));

    let to_str = "2006-03-31T16:51:57.123Z";
    let to_dt = chrono::DateTime::<chrono::Utc>::from_str(to_str).unwrap();
    assert_eq!(to_str, format!("{:?}", to_dt));

    let mut iter = date_iterator_from(point(from_str), step())
        .to(point(to_str))
        .pairwise();
    let expected = vec![
        (point("1996-12-25T16:39:57.123Z"), point("2000-01-27T16:43:57.123Z")),
        (point("2000-01-27T16:43:57.123Z"), point("2003-02-28T16:47:57.123Z")),
        (point("2003-02-28T16:47:57.123Z"), point("2006-03-31T16:51:57.123Z")),
    ];

    let mut taken: Vec<(DateTime, DateTime)> = Vec::new();
    while let Some(p) = iter.next() {
        taken.push(p);
    }
    assert_eq!(expected, taken);
}

#[test]
pub fn closed_iterator_excludes_the_bound() {
    // The bound equals the fourth point exactly, so only three come out.
    let mut iter = date_iterator_from(point("1996-12-25T16:39:57.123Z"), step())
        .to(point("2006-03-31T16:51:57.123Z"));
    let mut count = 0;
    while iter.next().is_some() {
        count += 1;
    }
    assert_eq!(3, count);

    // A bound just past the fourth point lets it through.
    let mut iter = date_iterator_from(point("1996-12-25T16:39:57.123Z"), step())
        .to(point("2006-03-31T16:51:57.124Z"));
    let mut count = 0;
    while iter.next().is_some() {
        count += 1;
    }
    assert_eq!(4, count);
}

#[test]
pub fn pairwise_recomputes_from_the_origin() {
    // Starting on January 31 with one-month steps: the second element of
    // each pair is derived from the origin, so the pair after
    // (Jan 31, Feb 29) starts at March 31, not at February 29 plus a month.
    let mut iter = date_iterator_from(point("2020-01-31T00:00:00Z"), CalendarDuration::months(1))
        .pairwise();
    assert_eq!(
        Some((point("2020-01-31T00:00:00Z"), point("2020-02-29T00:00:00Z"))),
        iter.next()
    );
    assert_eq!(
        Some((point("2020-02-29T00:00:00Z"), point("2020-03-31T00:00:00Z"))),
        iter.next()
    );
    assert_eq!(
        Some((point("2020-03-31T00:00:00Z"), point("2020-04-30T00:00:00Z"))),
        iter.next()
    );
}
