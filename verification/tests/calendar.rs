use dtimelog_lib::calendar::{parse_time, DateError, Day, DATE_FORMAT};

#[test]
fn date_format_is_year_month_day() {
    assert_eq!(DATE_FORMAT, "%Y-%m-%d");
}

#[test]
fn parse_time_reads_a_day() {
    assert_eq!(parse_time("2019-04-25"), Ok(Day { number: 737174 }));
    assert_eq!(parse_time("2019-03-14"), Ok(Day { number: 737132 }));
}

#[test]
fn parse_time_counts_from_the_first_day_of_year_one() {
    assert_eq!(parse_time("0001-01-01"), Ok(Day { number: 1 }));
    assert_eq!(parse_time("1970-01-01"), Ok(Day { number: 719163 }));
}

#[test]
fn parse_time_knows_leap_days() {
    assert_eq!(parse_time("2020-02-29"), Ok(Day { number: 737484 }));
    assert_eq!(
        parse_time("2019-02-29"),
        Err(DateError { text: String::from("2019-02-29") })
    );
}

#[test]
fn parse_time_agrees_with_chrono() {
    let date = chrono::NaiveDate::from_ymd_opt(2019, 4, 5).unwrap();
    let day = parse_time("2019-04-05").unwrap();
    assert_eq!(day.number, chrono::Datelike::num_days_from_ce(&date));
    assert_eq!(chrono::NaiveDate::from_num_days_from_ce_opt(day.number), Some(date));
}

#[test]
fn neighbouring_days_differ_by_one() {
    let a = parse_time("2019-03-31").unwrap();
    let b = parse_time("2019-04-01").unwrap();
    assert_eq!(b.number - a.number, 1);
    let c = parse_time("2018-12-31").unwrap();
    let d = parse_time("2019-01-01").unwrap();
    assert_eq!(d.number - c.number, 1);
}

#[test]
fn parse_time_refuses_a_month_and_day_out_of_range() {
    assert_eq!(
        parse_time("2019-13-40"),
        Err(DateError { text: String::from("2019-13-40") })
    );
}

#[test]
fn parse_time_refuses_what_is_no_date() {
    for text in ["", "yesterday", "2019-04", "2019/04/25", "2019-04-25T00:00", "2019-04-25 0:0"] {
        assert_eq!(parse_time(text), Err(DateError { text: String::from(text) }));
    }
}
