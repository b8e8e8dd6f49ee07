use share_price::{
    build_header, build_report, build_row, compare, normalize_price_text, Direction, Price,
    PriceError, Share, ShareMoment, ShareTimeline, StoredPrice, Tag, Timestamp, TimelineError,
};

fn at(day: u8) -> Timestamp {
    Timestamp::new(2021, 3, day, 9, 5, 7).unwrap()
}

fn share(code: &str, raw: &str, day: u8) -> Share {
    Share::new(code.to_string(), raw, at(day)).unwrap()
}

fn price(raw: &str) -> Price {
    Price::parse(raw).unwrap()
}

fn timeline_with(current: &str, moment: ShareMoment, past: &str) -> ShareTimeline {
    let mut t = ShareTimeline::new(share("NPN", current, 20));
    t.record(moment, share("NPN", past, 19)).unwrap();
    t
}

fn texts(cells: &[share_price::Cell]) -> Vec<String> {
    cells.iter().map(|c| c.text.clone()).collect()
}

#[test]
fn comma_and_point_give_the_same_price() {
    let a = price("123,45");
    let b = price("123.45");
    assert_eq!(a, b);
    assert_eq!(a.units(), 12345);
    assert_eq!(a.scale(), 2);
    assert_eq!(a.to_text(), "123.45");
}

#[test]
fn grouped_price_with_trailing_space_normalizes() {
    assert_eq!(normalize_price_text("1 234,56 "), "1234.56");
    let p = price("1 234,56 ");
    assert_eq!(p.units(), 123456);
    assert_eq!(p.scale(), 2);
    assert_eq!(p.to_text(), "1234.56");
}

#[test]
fn normalization_drops_surrounding_and_grouping_whitespace() {
    assert_eq!(normalize_price_text("\t 12 345 678,9\n"), "12345678.9");
    assert_eq!(normalize_price_text("\u{a0}7\u{202f}000,00"), "7000.00");
    assert_eq!(normalize_price_text(""), "");
}

#[test]
fn malformed_price_is_rejected_with_its_text() {
    assert_eq!(Price::parse("12,3,4"), Err(PriceError::MalformedPrice("12,3,4".to_string())));
    assert_eq!(Price::parse(""), Err(PriceError::MalformedPrice(String::new())));
    assert_eq!(Price::parse("abc"), Err(PriceError::MalformedPrice("abc".to_string())));
    assert_eq!(Price::parse("-5,00"), Err(PriceError::MalformedPrice("-5,00".to_string())));
    assert!(Price::parse("1,1234567890123").is_err());
    assert!(Price::parse("123456789012345678901").is_err());
    assert!(Share::new("X".to_string(), "n/a", at(1)).is_err());
}

#[test]
fn price_keeps_its_fraction_digits() {
    assert_eq!(price("120,00").to_text(), "120.00");
    assert_eq!(price("0,05").to_text(), "0.05");
    assert_eq!(price("42").to_text(), "42");
    assert_eq!(price("1,123456789012").scale(), 12);
}

#[test]
fn rising_price_movement() {
    let m = compare(&price("123.45"), &price("120.00"));
    assert_eq!(m.delta_units, 345);
    assert_eq!(m.scale, 2);
    assert_eq!(m.percent, Some(288));
    assert_eq!(m.direction, Direction::Up);
    assert_eq!(m.delta_text(), "+3.45");
    assert_eq!(m.percent_text(), "+2.88%");
}

#[test]
fn unchanged_price_movement() {
    let m = compare(&price("100.00"), &price("100.00"));
    assert_eq!(m.delta_text(), "0.00");
    assert_eq!(m.direction, Direction::Flat);
    assert_eq!(m.percent, Some(0));
    assert_eq!(m.percent_text(), "0.00%");
}

#[test]
fn falling_price_movement() {
    let m = compare(&price("95,5"), &price("100,00"));
    assert_eq!(m.delta_units, -450);
    assert_eq!(m.delta_text(), "-4.50");
    assert_eq!(m.percent, Some(-450));
    assert_eq!(m.percent_text(), "-4.50%");
    assert_eq!(m.direction, Direction::Down);
}

#[test]
fn percent_rounds_half_away_from_zero() {
    // 1.00005 / 1 gives 0.005 percent, which rounds up to 0.01.
    let up = compare(&price("1.00005"), &price("1"));
    assert_eq!(up.percent, Some(1));
    let down = compare(&price("0.99995"), &price("1"));
    assert_eq!(down.percent, Some(-1));
    assert_eq!(down.percent_text(), "-0.01%");
    // 2 / 3 gives -33.333... percent.
    let third = compare(&price("2"), &price("3"));
    assert_eq!(third.percent, Some(-3333));
}

#[test]
fn zero_history_gives_undefined_percent() {
    let m = compare(&price("10.00"), &price("0.00"));
    assert_eq!(m.percent, None);
    assert_eq!(m.percent_text(), "\u{2014}");
    assert_eq!(m.delta_units, 1000);
    assert_eq!(m.delta_text(), "+10.00");
    assert_eq!(m.direction, Direction::Up);
}

#[test]
fn differing_scales_are_aligned() {
    let m = compare(&price("10.5"), &price("10.25"));
    assert_eq!(m.scale, 2);
    assert_eq!(m.delta_units, 25);
    assert_eq!(m.delta_text(), "+0.25");
    assert_eq!(m.percent, Some(244));
}

#[test]
fn comparing_twice_gives_identical_movements() {
    let t = timeline_with("123.45", ShareMoment::Yesterday, "120.00");
    let a = t.movements();
    let b = t.movements();
    assert_eq!(a, b);
    assert_eq!(a.len(), 4);
    assert!(a[0].is_some());
    assert!(a[1].is_none() && a[2].is_none() && a[3].is_none());
}

#[test]
fn header_lists_columns_in_moment_order() {
    let h = texts(&build_header());
    assert_eq!(h.len(), 19);
    assert_eq!(&h[0..3], &["CODE", "CURRENT \nPRICE", "CURR \nTIME"]);
    assert_eq!(
        &h[3..7],
        &["Yesterday \nPRICE", "Yesterday \nDATE", "Yesterday \nMOVEMENT", ""]
    );
    assert_eq!(h[7], "LastWeek \nPRICE");
    assert_eq!(h[11], "LastMonth \nPRICE");
    assert_eq!(h[15], "LastYear \nPRICE");
}

#[test]
fn row_for_rising_price() {
    let t = timeline_with("123.45", ShareMoment::Yesterday, "120.00");
    let row = build_row(&t);
    let r = texts(&row);
    assert_eq!(r.len(), 19);
    assert_eq!(r[0], "NPN");
    assert_eq!(r[1], "123.45");
    assert_eq!(r[2], "2021-03-20 \n09:05:07");
    assert_eq!(&r[3..7], &["120.00", "2021-03-19 \n09:05:07", "+3.45", "+2.88%"]);
    assert_eq!(row[5].tag, Some(Tag::Positive));
    assert_eq!(row[6].tag, Some(Tag::Positive));
    assert_eq!(row[3].tag, None);
}

#[test]
fn missing_moment_renders_filler_cells() {
    let t = timeline_with("50.00", ShareMoment::LastWeek, "50,00");
    let row = build_row(&t);
    let r = texts(&row);
    assert_eq!(r.len(), build_header().len());
    for k in 11..15 {
        assert_eq!(r[k], "\u{2014}");
        assert_eq!(row[k].tag, None);
    }
    assert_eq!(r[9], "0.00");
    assert_eq!(r[10], "0.00%");
    assert_eq!(row[9].tag, Some(Tag::Neutral));
}

#[test]
fn zero_history_row_shows_undefined_marker() {
    let t = timeline_with("10.00", ShareMoment::LastYear, "0.00");
    let r = texts(&build_row(&t));
    assert_eq!(&r[15..19], &["0.00", "2021-03-19 \n09:05:07", "+10.00", "\u{2014}"]);
}

#[test]
fn report_rows_match_header_width() {
    let a = timeline_with("123.45", ShareMoment::Yesterday, "120.00");
    let b = ShareTimeline::new(share("SOL", "1 000,5", 20));
    let report = build_report(&vec![a, b]);
    assert_eq!(report.header.len(), 19);
    assert_eq!(report.rows.len(), 2);
    for row in &report.rows {
        assert_eq!(row.len(), report.header.len());
    }
    assert_eq!(report.rows[1][0].text, "SOL");
    assert_eq!(report.rows[1][1].text, "1000.5");
    assert!(report.rows[1][3..].iter().all(|c| c.text == "\u{2014}"));
    assert!(build_report(&Vec::new()).rows.is_empty());
}

#[test]
fn history_of_another_company_is_refused() {
    let mut t = ShareTimeline::new(share("NPN", "1", 20));
    let r = t.record(ShareMoment::Yesterday, share("SOL", "1", 19));
    assert_eq!(r, Err(TimelineError::CodeMismatch("SOL".to_string())));
    assert!(t.history(ShareMoment::Yesterday).is_none());
}

#[test]
fn assemble_degrades_malformed_history() {
    let history = vec![
        Some(StoredPrice { price: "120,00".to_string(), price_date: at(19) }),
        Some(StoredPrice { price: "garbage".to_string(), price_date: at(13) }),
        None,
    ];
    let t = ShareTimeline::assemble("NPN".to_string(), "123,45 ", at(20), &history).unwrap();
    assert_eq!(t.share().code, "NPN");
    assert_eq!(t.share().pretty_price(), "123.45");
    assert_eq!(t.history(ShareMoment::Yesterday).unwrap().pretty_price(), "120.00");
    assert!(t.history(ShareMoment::LastWeek).is_none());
    assert!(t.history(ShareMoment::LastMonth).is_none());
    assert!(t.history(ShareMoment::LastYear).is_none());
}

#[test]
fn assemble_fails_on_malformed_current_price() {
    let r = ShareTimeline::assemble("NPN".to_string(), "", at(20), &Vec::new());
    assert!(matches!(r, Err(PriceError::MalformedPrice(ref t)) if t.is_empty()));
}

#[test]
fn moments_have_fixed_order_and_ages() {
    let all = ShareMoment::all();
    assert_eq!(
        all,
        vec![ShareMoment::Yesterday, ShareMoment::LastWeek, ShareMoment::LastMonth, ShareMoment::LastYear]
    );
    let ages: Vec<u32> = all.iter().map(|m| m.min_age_days()).collect();
    assert_eq!(ages, vec![1, 7, 30, 365]);
    assert_eq!(ShareMoment::LastMonth.label(), "LastMonth");
}

#[test]
fn timestamps_are_validated_and_padded() {
    assert!(Timestamp::new(2021, 2, 29, 0, 0, 0).is_none());
    assert!(Timestamp::new(2020, 2, 29, 0, 0, 0).is_some());
    assert!(Timestamp::new(1900, 2, 29, 0, 0, 0).is_none());
    assert!(Timestamp::new(2000, 2, 29, 0, 0, 0).is_some());
    assert!(Timestamp::new(2021, 13, 1, 0, 0, 0).is_none());
    assert!(Timestamp::new(2021, 4, 31, 0, 0, 0).is_none());
    assert!(Timestamp::new(2021, 1, 1, 24, 0, 0).is_none());
    assert!(Timestamp::new(10000, 1, 1, 0, 0, 0).is_none());
    let t = Timestamp::new(987, 1, 2, 3, 4, 5).unwrap();
    assert_eq!(t.to_text(), "0987-01-02 \n03:04:05");
    let s = Share::new("X".to_string(), "1", t).unwrap();
    assert_eq!(s.display_date(), "0987-01-02 \n03:04:05");
    assert_eq!(s.price_as_decimal(), price("1"));
}
