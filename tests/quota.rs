use autocampnet::quota::{
    notification_state, parse_quota, Amount, NotificationState, ParseError, TrafficStats,
};

fn cell(figure: &str, unit: &str) -> String {
    format!(
        "<td class=\"tabletext\"> {figure}&nbsp;<label id='Language.{unit}'>{unit}</label></td>\n"
    )
}

fn page(cells: &[(&str, &str)]) -> String {
    let mut s = String::from(
        "<html><table><tr><td><label id='Language.Other'>x</label></td><td> 99&nbsp;<label id='Language.KB'>KB</label></td></tr></table>\n",
    );
    s.push_str("<table id=\"content3\"><tr><td><label id='Language.CycleDataTrasfer'>Cycle</label></td></tr>\n<tr>");
    for (f, u) in cells {
        s.push_str(&cell(f, u));
    }
    s.push_str("</tr></table>\n<table><tr><td> 7&nbsp;<label id='Language.TB'>TB</label></td></tr></table></html>");
    s
}

fn amount(m: u64, s: u32) -> (u64, u32) {
    (m, s)
}

fn pair(a: &Amount) -> (u64, u32) {
    (a.mantissa, a.scale)
}

#[test]
fn parses_five_figures_and_units() {
    let html = page(&[
        ("10240.00", "MB"),
        ("3.5", "GB"),
        ("12", "MB"),
        ("4300.25", "MB"),
        ("5939.75", "MB"),
    ]);
    let (stats, units) = parse_quota(&html).unwrap();
    assert_eq!(pair(&stats.total), amount(1024000, 2));
    assert_eq!(pair(&stats.last), amount(35, 1));
    assert_eq!(pair(&stats.current), amount(12, 0));
    assert_eq!(pair(&stats.used), amount(430025, 2));
    assert_eq!(pair(&stats.remaining), amount(593975, 2));
    assert_eq!(
        [units.total, units.last, units.current, units.used, units.remaining],
        ["MB", "GB", "MB", "MB", "MB"].map(String::from)
    );
}

#[test]
fn figure_with_trailing_point() {
    let html = page(&[("1.", "MB"), ("2", "MB"), ("3", "MB"), ("4", "MB"), ("5", "MB")]);
    let (stats, _) = parse_quota(&html).unwrap();
    assert_eq!(pair(&stats.total), amount(1, 0));
}

#[test]
fn figures_after_the_table_are_not_read() {
    let html = page(&[("1", "MB"), ("2", "MB"), ("3", "MB"), ("4", "MB")]);
    assert_eq!(parse_quota(&html).unwrap_err(), ParseError::TooFewFigures);
}

#[test]
fn missing_marker() {
    assert_eq!(parse_quota("<html> 1&nbsp;</html>").unwrap_err(), ParseError::MissingTable);
    assert_eq!(parse_quota("").unwrap_err(), ParseError::MissingTable);
}

#[test]
fn figures_without_units() {
    let html = "Language.CycleDataTrasfer<td> 1</td><td> 2</td><td> 3</td><td> 4</td><td>\n5</td></table>";
    assert_eq!(parse_quota(html).unwrap_err(), ParseError::TooFewUnits);
}

#[test]
fn figure_needs_a_blank_after_the_bracket() {
    let html = "Language.CycleDataTrasfer<td>1</td><td> 2</td><td> 3</td><td> 4</td><td> 5</td></table>";
    assert_eq!(parse_quota(html).unwrap_err(), ParseError::TooFewFigures);
}

#[test]
fn overlong_figure() {
    let html = page(&[
        ("1234567890123456789", "MB"),
        ("2", "MB"),
        ("3", "MB"),
        ("4", "MB"),
        ("5", "MB"),
    ]);
    assert_eq!(parse_quota(&html).unwrap_err(), ParseError::FigureTooLong);
    let html = page(&[
        ("123456789.012345678", "MB"),
        ("2", "MB"),
        ("3", "MB"),
        ("4", "MB"),
        ("5", "MB"),
    ]);
    assert_eq!(pair(&parse_quota(&html).unwrap().0.total), amount(123456789012345678, 9));
}

fn stats(used: (u64, u32), total: (u64, u32)) -> TrafficStats {
    let mut s = TrafficStats::zero();
    s.used = Amount { mantissa: used.0, scale: used.1 };
    s.total = Amount { mantissa: total.0, scale: total.1 };
    s
}

#[test]
fn bands_of_used_share() {
    let cases = [
        ((42, 2), (1, 0), NotificationState::Quiet),
        ((0, 0), (100, 0), NotificationState::Quiet),
        ((499, 3), (1, 0), NotificationState::Quiet),
        ((5, 1), (1, 0), NotificationState::Used50),
        ((61, 0), (100, 0), NotificationState::Used50),
        ((8999, 4), (10, 1), NotificationState::Used50),
        ((9, 0), (10, 0), NotificationState::Used90),
        ((99999, 5), (1, 0), NotificationState::Used90),
        ((1024, 0), (102400, 2), NotificationState::Used100),
        ((2000, 0), (1024, 0), NotificationState::Used100),
        ((0, 0), (0, 0), NotificationState::Used100),
        ((1, 0), (0, 3), NotificationState::Used100),
    ];
    for (u, t, want) in cases {
        assert_eq!(notification_state(&stats(u, t)), want, "{u:?} / {t:?}");
    }
}

#[test]
fn band_with_largest_figures() {
    let big = 999_999_999_999_999_999;
    assert_eq!(notification_state(&stats((big, 0), (big, 18))), NotificationState::Used100);
    assert_eq!(notification_state(&stats((big, 18), (big, 0))), NotificationState::Quiet);
}
