use yomi_daytime::{
    day_to_yomi, format_datetime, hour_to_yomi, minute_to_yomi, month_to_yomi,
    nonzero_digit_to_generic_yomi, positive_year_to_yomi, sec_to_yomi, weekday_to_yomi,
    CalendarMoment, DomainViolation, Weekday,
};

fn year(y: u32) -> String {
    positive_year_to_yomi(y).unwrap()
}

#[test]
fn positive_year_to_yomi_does_not_panic() {
    for n in 1..=9999 {
        let _ = positive_year_to_yomi(n);
    }
}

#[test]
fn positive_month_to_yomi_does_not_panic() {
    for n in 1..=31 {
        let _ = day_to_yomi(n);
    }
}

#[test]
fn year_scenarios() {
    assert_eq!(year(1858), "sen happyaku go-juu hachi nen");
    assert_eq!(year(1983), "sen kyu-hyaku hachi-juu san nen");
    assert_eq!(year(2002), "ni-sen ni nen");
    assert_eq!(year(2023), "ni-sen ni-juu san nen");
    assert_eq!(year(2112), "ni-sen hyaku juu ni nen");
}

#[test]
fn year_irregular_magnitudes() {
    assert_eq!(year(1), "ichi nen");
    assert_eq!(year(4), "yo nen");
    assert_eq!(year(9), "ku nen");
    assert_eq!(year(10), "juu nen");
    assert_eq!(year(14), "juu yo nen");
    assert_eq!(year(99), "kyu-juu ku nen");
    assert_eq!(year(300), "san-byaku nen");
    assert_eq!(year(600), "roppyaku nen");
    assert_eq!(year(800), "happyaku nen");
    assert_eq!(year(3000), "san-zen nen");
    assert_eq!(year(8000), "hassen nen");
    assert_eq!(year(4400), "yon-sen yon-hyaku nen");
    assert_eq!(year(9999), "kyu-sen kyu-hyaku kyu-juu ku nen");
}

#[test]
fn every_year_ends_with_nen() {
    for y in 1..=9999 {
        let s = year(y);
        assert!(s.ends_with(" nen"), "{}", s);
        assert!(!s.contains("  "));
    }
}

#[test]
fn year_out_of_range() {
    assert_eq!(positive_year_to_yomi(0), Err(DomainViolation::Year));
    assert_eq!(positive_year_to_yomi(10000), Err(DomainViolation::Year));
}

#[test]
fn generic_digits() {
    let expected = ["ichi", "ni", "san", "yon", "go", "roku", "nana", "hachi", "kyu"];
    for d in 1..=9u32 {
        assert_eq!(nonzero_digit_to_generic_yomi(d), expected[(d - 1) as usize]);
    }
}

#[test]
fn months() {
    let expected = [
        "ichi gatsu", "ni gatsu", "san gatsu", "shi gatsu", "go gatsu", "roku gatsu",
        "shichi gatsu", "hachi gatsu", "ku gatsu", "juu gatsu", "juu-ichi gatsu", "juu-ni gatsu",
    ];
    for m in 1..=12u32 {
        assert_eq!(month_to_yomi(m).unwrap(), expected[(m - 1) as usize]);
    }
    assert_eq!(month_to_yomi(0), Err(DomainViolation::Month));
    assert_eq!(month_to_yomi(13), Err(DomainViolation::Month));
}

#[test]
fn irregular_days() {
    let expected = [
        "tsuitachi", "futsuka", "mikka", "yokka", "itsuka", "muika", "nanoka", "youka",
        "kokonoka", "touka",
    ];
    for d in 1..=10u32 {
        assert_eq!(day_to_yomi(d).unwrap(), expected[(d - 1) as usize]);
    }
    assert_eq!(day_to_yomi(14).unwrap(), "juu yokka");
    assert_eq!(day_to_yomi(20).unwrap(), "hatsuka");
    assert_eq!(day_to_yomi(24).unwrap(), "ni-juu yokka");
}

#[test]
fn regular_days() {
    assert_eq!(day_to_yomi(11).unwrap(), "juu ichi nichi");
    assert_eq!(day_to_yomi(17).unwrap(), "juu shichi nichi");
    assert_eq!(day_to_yomi(19).unwrap(), "juu ku nichi");
    assert_eq!(day_to_yomi(30).unwrap(), "san-juu nichi");
    assert_eq!(day_to_yomi(31).unwrap(), "san-juu ichi nichi");
    assert_eq!(day_to_yomi(0), Err(DomainViolation::Day));
    assert_eq!(day_to_yomi(32), Err(DomainViolation::Day));
}

#[test]
fn weekdays_are_distinct() {
    let all = [
        (Weekday::Mon, "getsu youbi"),
        (Weekday::Tue, "ka youbi"),
        (Weekday::Wed, "sui youbi"),
        (Weekday::Thu, "moku youbi"),
        (Weekday::Fri, "kin youbi"),
        (Weekday::Sat, "do youbi"),
        (Weekday::Sun, "nichi youbi"),
    ];
    for (i, (w, r)) in all.iter().enumerate() {
        assert_eq!(weekday_to_yomi(*w), *r);
        for (j, (v, _)) in all.iter().enumerate() {
            assert_eq!(i == j, weekday_to_yomi(*w) == weekday_to_yomi(*v));
        }
    }
}

#[test]
fn hours() {
    assert_eq!(hour_to_yomi(0).unwrap(), "rei ji");
    assert_eq!(hour_to_yomi(4).unwrap(), "yo ji");
    assert_eq!(hour_to_yomi(7).unwrap(), "shichi ji");
    assert_eq!(hour_to_yomi(9).unwrap(), "ku ji");
    assert_eq!(hour_to_yomi(10).unwrap(), "juu ji");
    assert_eq!(hour_to_yomi(16).unwrap(), "juu roku ji");
    assert_eq!(hour_to_yomi(20).unwrap(), "ni-juu ji");
    assert_eq!(hour_to_yomi(23).unwrap(), "ni-juu san ji");
    assert_eq!(hour_to_yomi(24), Err(DomainViolation::Hour));
}

#[test]
fn minutes() {
    assert_eq!(minute_to_yomi(0).unwrap(), "rei hun");
    assert_eq!(minute_to_yomi(1).unwrap(), "ippun");
    assert_eq!(minute_to_yomi(6).unwrap(), "roppun");
    assert_eq!(minute_to_yomi(8).unwrap(), "happun");
    assert_eq!(minute_to_yomi(13).unwrap(), "juu san hun");
    assert_eq!(minute_to_yomi(42).unwrap(), "yon-juu ni hun");
    assert_eq!(minute_to_yomi(59).unwrap(), "go-juu kyu hun");
    assert_eq!(minute_to_yomi(60), Err(DomainViolation::Minute));
}

#[test]
fn minutes_on_tens_use_juppun() {
    assert_eq!(minute_to_yomi(10).unwrap(), "juppun");
    assert_eq!(minute_to_yomi(20).unwrap(), "ni juppun");
    assert_eq!(minute_to_yomi(30).unwrap(), "san juppun");
    assert_eq!(minute_to_yomi(40).unwrap(), "yon juppun");
    assert_eq!(minute_to_yomi(50).unwrap(), "go juppun");
    for m in 0..=59 {
        let s = minute_to_yomi(m).unwrap();
        if m != 0 && m % 10 == 0 {
            assert!(s.ends_with("juppun") && !s.contains("-juu"), "{}", s);
        }
    }
}

#[test]
fn seconds() {
    assert_eq!(sec_to_yomi(0).unwrap(), "rei byou");
    assert_eq!(sec_to_yomi(3).unwrap(), "san byou");
    assert_eq!(sec_to_yomi(10).unwrap(), "juu byou");
    assert_eq!(sec_to_yomi(44).unwrap(), "yon-juu yon byou");
    assert_eq!(sec_to_yomi(50).unwrap(), "go-juu byou");
    assert_eq!(sec_to_yomi(60), Err(DomainViolation::Second));
}

fn moment() -> CalendarMoment {
    CalendarMoment {
        year: 2023,
        month: 4,
        day: 7,
        weekday: Weekday::Fri,
        hour: 9,
        minute: 5,
        second: 3,
    }
}

#[test]
fn full_moment() {
    assert_eq!(
        format_datetime(&moment()).unwrap(),
        "ni-sen ni-juu san nen shi gatsu nanoka kin youbi ku ji go hun san byou"
    );
}

#[test]
fn moment_reports_first_bad_field() {
    let mut m = moment();
    m.hour = 24;
    m.second = 60;
    assert_eq!(format_datetime(&m), Err(DomainViolation::Hour));
    m.month = 0;
    assert_eq!(format_datetime(&m), Err(DomainViolation::Month));
    let mut m = moment();
    m.second = 61;
    assert_eq!(format_datetime(&m), Err(DomainViolation::Second));
    let mut m = moment();
    m.minute = 75;
    assert_eq!(format_datetime(&m), Err(DomainViolation::Minute));
    let mut m = moment();
    m.day = 40;
    assert_eq!(format_datetime(&m), Err(DomainViolation::Day));
    let mut m = moment();
    m.year = 0;
    assert_eq!(format_datetime(&m), Err(DomainViolation::Year));
}
