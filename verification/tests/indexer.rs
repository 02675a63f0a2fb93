use chronicle::indexer::{
    parse_daily_name, parse_monthly_name, parse_weekly_name, read_files, _index_monthlies,
    _index_weeklies,
};
use chronicle::time::Date;

fn names(list: &[&str]) -> Vec<String> {
    list.iter().map(|s| s.to_string()).collect()
}

#[test]
fn test_read_files_selects_daily_logs() {
    let entries = names(&[
        "2024-03-09.md",
        "notes.md",
        "2024-13-01.md",
        "2023-02-29.md",
        "2024-02-29.md",
        "2024-03-09.txt",
        "subdir",
    ]);
    let dates = read_files(&entries);
    assert_eq!(
        dates,
        vec![
            Date { year: 2024, month: 3, day: 9 },
            Date { year: 2024, month: 2, day: 29 },
        ]
    );
}

#[test]
fn test_parse_daily_name() {
    assert_eq!(
        parse_daily_name("2024-03-09.md".as_bytes()),
        Some(Date { year: 2024, month: 3, day: 9 })
    );
    assert_eq!(parse_daily_name("2024-3-9.md".as_bytes()), None);
    assert_eq!(parse_daily_name("2024-03-32.md".as_bytes()), None);
    assert_eq!(parse_daily_name("2024-00-09.md".as_bytes()), None);
    assert_eq!(parse_daily_name("2024-03-09.txt".as_bytes()), None);
    assert_eq!(parse_daily_name("2024-03-09".as_bytes()), None);
    assert_eq!(parse_daily_name("abcd-03-09.md".as_bytes()), None);
}

#[test]
fn test_leap_year_rules() {
    // 2000 is a leap year, 1900 and 2023 are not, 2024 is.
    assert!(parse_daily_name("2000-02-29.md".as_bytes()).is_some());
    assert_eq!(parse_daily_name("1900-02-29.md".as_bytes()), None);
    assert_eq!(parse_daily_name("2023-02-29.md".as_bytes()), None);
    assert!(parse_daily_name("2024-02-29.md".as_bytes()).is_some());
    assert_eq!(parse_daily_name("2024-02-30.md".as_bytes()), None);
    assert!(parse_daily_name("2024-04-30.md".as_bytes()).is_some());
    assert_eq!(parse_daily_name("2024-04-31.md".as_bytes()), None);
}

#[test]
fn test_index_weeklies() {
    let entries = names(&[
        "2024-W05.md",
        "2024-W54.md",
        "2024-W00.md",
        "2024-05.md",
        "journal.md",
        "2024-W53.md",
    ]);
    assert_eq!(_index_weeklies(&entries), vec![(2024, 5), (2024, 53)]);
}

#[test]
fn test_index_monthlies() {
    let entries = names(&[
        "2024-03.md",
        "2024-00.md",
        "2024-13.md",
        "2024-W05.md",
        "2024-12.md",
        "2024-03-09.md",
    ]);
    assert_eq!(_index_monthlies(&entries), vec![(2024, 3), (2024, 12)]);
}

#[test]
fn test_parse_weekly_and_monthly_names() {
    assert_eq!(parse_weekly_name("2024-W05.md".as_bytes()), Some((2024, 5)));
    assert_eq!(parse_weekly_name("2024-w05.md".as_bytes()), None);
    assert_eq!(parse_monthly_name("2024-12.md".as_bytes()), Some((2024, 12)));
    assert_eq!(parse_monthly_name("2024-12.txt".as_bytes()), None);
}
