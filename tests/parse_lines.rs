use timewarrior_line::{CalendarDate, TimeWarriorLine, TimeWarriorLineError, UtcDateTime};

fn format_utc(t: UtcDateTime, fmt: &str) -> String {
    chrono::NaiveDate::from_ymd_opt(t.year, t.month, t.day)
        .unwrap()
        .and_hms_opt(t.hour, t.minute, t.second)
        .unwrap()
        .format(fmt)
        .to_string()
}

fn is_generic(r: &Result<TimeWarriorLine, TimeWarriorLineError>) -> bool {
    matches!(r, Err(TimeWarriorLineError::Generic(_)))
}

fn is_no_date(r: &Result<TimeWarriorLine, TimeWarriorLineError>) -> bool {
    matches!(r, Err(TimeWarriorLineError::NoDate()))
}

fn fixed_now() -> UtcDateTime {
    UtcDateTime { year: 2001, month: 1, day: 2, hour: 3, minute: 4, second: 5 }
}

#[test]
fn garbage_in_err_out() {
    let result = TimeWarriorLine::from_str("afdf dafdf dsfads fdsaf");
    assert_eq!(result.is_err(), true, "line should not be parsed as ok result");
}

#[test]
fn only_z_is_valid_timezone_definition() {
    let result = TimeWarriorLine::from_str("inc 20001011T133055CEST");
    assert_eq!(result.is_err(), true, "CEST line should not be parsed as ok result");
}

#[test]
fn only_broken_lines_1() {
    let result = TimeWarriorLine::from_str("inc");
    assert_eq!(result.is_err(), true, "line should not be parsed as ok result");
}

#[test]
fn only_broken_lines_2() {
    let result = TimeWarriorLine::from_str("inc 20001011T133055Z - sdsadsad");
    assert_eq!(result.is_err(), true, "line should not be parsed as ok result");
}

#[test]
fn only_broken_lines_3() {
    let result = TimeWarriorLine::from_str("inc 20001011T133055Z sadasds");
    assert_eq!(result.is_err(), true, "line should not be parsed as ok result");
}

#[test]
fn only_broken_lines_4() {
    let result =
        TimeWarriorLine::from_str("inc 20001011T133055Z - 20001011T183055Z dsafsadsads");
    assert_eq!(result.is_err(), true, "line should not be parsed as ok result");
}

#[test]
fn only_broken_lines_5() {
    let result = TimeWarriorLine::from_str("inc 20001011T133055Z - ");
    assert_eq!(result.is_err(), true, "line should not be parsed as ok result");
}

#[test]
fn only_started_no_tags() {
    let result = TimeWarriorLine::from_str("inc 20001011T133055Z");
    assert_eq!(result.is_ok(), true, "parsed line is not a ok result");

    let line = result.unwrap();

    assert_eq!(line.tw_type(), "inc");
    assert_eq!(line.active(), true);
    assert_eq!(*line.tags(), Vec::<String>::new());

    assert_eq!(line.full_tag(), "".to_owned());

    assert_eq!(format_utc(line.from(), "%Y-%m-%d"), "2000-10-11");
    assert_eq!(format_utc(line.from(), "%H:%M:%S"), "13:30:55");
}

#[test]
fn only_started_one_tag() {
    let result = TimeWarriorLine::from_str("inc 20001011T133055Z # Walala");
    assert_eq!(result.is_ok(), true, "parsed line is not a ok result");

    let line = result.unwrap();

    assert_eq!(line.tw_type(), "inc");
    assert_eq!(line.active(), true);
    assert_eq!(*line.tags(), vec!["Walala"]);

    assert_eq!(line.full_tag(), "Walala".to_owned());

    assert_eq!(format_utc(line.from(), "%Y-%m-%d"), "2000-10-11");
    assert_eq!(format_utc(line.from(), "%H:%M:%S"), "13:30:55");
}

#[test]
fn only_start_and_enddate_no_tags() {
    let result = TimeWarriorLine::from_str("inc 20001011T133055Z - 20001112T144054Z");
    assert_eq!(result.is_ok(), true, "parsed line is not a ok result {:?}", result);

    let line = result.unwrap();

    assert_eq!(line.tw_type(), "inc");
    assert_eq!(line.active(), false);
    assert_eq!(*line.tags(), Vec::<String>::new());

    assert_eq!(line.full_tag(), "".to_owned());

    assert_eq!(format_utc(line.from(), "%Y-%m-%d"), "2000-10-11");
    assert_eq!(format_utc(line.from(), "%H:%M:%S"), "13:30:55");

    assert_eq!(format_utc(line.until(), "%Y-%m-%d"), "2000-11-12");
    assert_eq!(format_utc(line.until(), "%H:%M:%S"), "14:40:54");
}

#[test]
fn duration_is_correct() {
    let result = TimeWarriorLine::from_str("inc 20001011T133055Z - 20001011T134055Z");
    assert_eq!(result.is_ok(), true, "parsed line is not a ok result {:?}", result);

    let line = result.unwrap();

    assert_eq!(line.duration(), chrono::Duration::minutes(10).num_seconds());
}

#[test]
fn date_is_correct() {
    let result = TimeWarriorLine::from_str("inc 20001011T133055Z - 20001011T134055Z");
    assert_eq!(result.is_ok(), true, "parsed line is not a ok result {:?}", result);

    let line = result.unwrap();
    let day = line.get_day();

    assert_eq!(
        chrono::NaiveDate::from_ymd_opt(day.year, day.month, day.day),
        chrono::NaiveDate::from_ymd_opt(2000, 10, 11)
    );
}

#[test]
fn only_start_and_enddate_one_taga() {
    let result = TimeWarriorLine::from_str("inc 20001011T133055Z - 20001112T144054Z # Buvere");
    assert_eq!(result.is_ok(), true, "parsed line is not a ok result {:?}", result);

    let line = result.unwrap();

    assert_eq!(line.tw_type(), "inc");
    assert_eq!(line.active(), false);
    assert_eq!(*line.tags(), vec!["Buvere"]);

    assert_eq!(line.full_tag(), "Buvere".to_owned());

    assert_eq!(format_utc(line.from(), "%Y-%m-%d"), "2000-10-11");
    assert_eq!(format_utc(line.from(), "%H:%M:%S"), "13:30:55");

    assert_eq!(format_utc(line.until(), "%Y-%m-%d"), "2000-11-12");
    assert_eq!(format_utc(line.until(), "%H:%M:%S"), "14:40:54");
}

#[test]
fn tags_with_spaces_are_recognized() {
    let result = TimeWarriorLine::from_str(
        "inc 20001011T133055Z - 20001112T144054Z # \"ABC CDE\" EFG HIJ",
    );
    assert_eq!(result.is_ok(), true, "parsed line is not a ok result {:?}", result);

    let line = result.unwrap();

    assert_eq!(line.tw_type(), "inc");
    assert_eq!(line.active(), false);
    assert_eq!(*line.tags(), vec!["ABC CDE", "EFG", "HIJ"]);

    assert_eq!(line.tags().len(), 3);
}

#[test]
fn error_kinds_follow_the_broken_rule() {
    assert!(is_generic(&TimeWarriorLine::from_str("")));
    assert!(is_generic(&TimeWarriorLine::from_str("   \t ")));
    assert!(is_no_date(&TimeWarriorLine::from_str("inc")));
    assert!(is_no_date(&TimeWarriorLine::from_str("inc 20001011T133055CEST")));
    assert!(is_no_date(&TimeWarriorLine::from_str("inc 20001311T133055Z")));
    assert!(is_no_date(&TimeWarriorLine::from_str("afdf dafdf dsfads fdsaf")));
    assert!(is_generic(&TimeWarriorLine::from_str("inc 20001011T133055Z sadasds")));
    assert!(is_generic(&TimeWarriorLine::from_str("inc 20001011T133055Z - ")));
    assert!(is_generic(&TimeWarriorLine::from_str("inc 20001011T133055Z - sdsadsad")));
    assert!(is_generic(&TimeWarriorLine::from_str(
        "inc 20001011T133055Z - 20001011T183055Z dsafsadsads"
    )));
    assert!(is_generic(&TimeWarriorLine::from_str("inc 20001011T133055Z - 20001011T183055CEST")));
}

#[test]
fn open_interval_ends_at_the_given_clock() {
    let line = TimeWarriorLine::parse_at("inc 20001011T133055Z # a b", fixed_now()).unwrap();
    assert!(line.active());
    assert_eq!(line.until(), fixed_now());
    assert_eq!(*line.tags(), vec!["a", "b"]);
    assert_eq!(line.full_tag(), "a b");
    // 2000-10-11 13:30:55 to 2001-01-02 03:04:05
    assert_eq!(line.duration(), 82 * 86400 + 13 * 3600 + 33 * 60 + 10);
}

#[test]
fn closed_duration_does_not_depend_on_clock() {
    let text = "inc 20001011T133055Z - 20001011T134055Z # x";
    let a = TimeWarriorLine::parse_at(text, fixed_now()).unwrap();
    let later = UtcDateTime { year: 2030, month: 6, day: 30, hour: 23, minute: 59, second: 59 };
    let b = TimeWarriorLine::parse_at(text, later).unwrap();
    assert_eq!(a.duration(), 600);
    assert_eq!(b.duration(), 600);
    assert_eq!(a.until(), b.until());
}

#[test]
fn parsing_twice_gives_equal_records() {
    let text = "inc 20001011T133055Z # \"ABC CDE\" EFG";
    let a = TimeWarriorLine::from_str(text).unwrap();
    let b = TimeWarriorLine::from_str(text).unwrap();
    assert_eq!(a.tw_type(), b.tw_type());
    assert_eq!(a.from(), b.from());
    assert_eq!(a.tags(), b.tags());
    assert_eq!(a.active(), b.active());
}

#[test]
fn duration_across_a_leap_day() {
    let line = TimeWarriorLine::from_str("x 20000228T000000Z - 20000301T000000Z").unwrap();
    assert_eq!(line.duration(), 2 * 86400);
    let line = TimeWarriorLine::from_str("x 19000228T000000Z - 19000301T000000Z").unwrap();
    assert_eq!(line.duration(), 86400);
}

#[test]
fn end_before_start_is_accepted() {
    let line = TimeWarriorLine::from_str("x 20001011T134055Z - 20001011T133055Z").unwrap();
    assert_eq!(line.duration(), -600);
}

#[test]
fn empty_quoted_tag_and_open_quote_are_kept() {
    let line = TimeWarriorLine::parse_at("inc 20001011T133055Z # \"\" x", fixed_now()).unwrap();
    assert_eq!(*line.tags(), vec!["", "x"]);
    assert_eq!(line.full_tag(), " x");
    let line = TimeWarriorLine::parse_at("inc 20001011T133055Z # \"a b", fixed_now()).unwrap();
    assert_eq!(*line.tags(), vec!["a b"]);
    let line = TimeWarriorLine::parse_at("inc 20001011T133055Z #", fixed_now()).unwrap();
    assert!(line.tags().is_empty());
}

#[test]
fn words_split_on_any_whitespace() {
    let line =
        TimeWarriorLine::parse_at("  inc\t20001011T133055Z  -\u{3000}20001112T144054Z #  t1   t2 ", fixed_now())
            .unwrap();
    assert_eq!(line.tw_type(), "inc");
    assert!(!line.active());
    assert_eq!(*line.tags(), vec!["t1", "t2"]);
    assert_eq!(line.get_day(), CalendarDate { year: 2000, month: 10, day: 11 });
    assert_eq!(
        line.until(),
        UtcDateTime { year: 2000, month: 11, day: 12, hour: 14, minute: 40, second: 54 }
    );
}

#[test]
fn str_parse_goes_through_the_same_grammar() {
    let line: TimeWarriorLine = "inc 20001011T133055Z - 20001011T134055Z # Buvere".parse().unwrap();
    assert_eq!(line.duration(), 600);
    assert_eq!(line.full_tag(), "Buvere");
    assert!("inc 20001011T133055Z nope".parse::<TimeWarriorLine>().is_err());
}
