use cwc::calendar::DateTime;
use cwc::schedule::{get_start_date, session_number};

fn at(year: i32, month: u32, day: u32, hour: u32, minute: u32, second: u32) -> DateTime {
    DateTime::from_ymd_hms(year, month, day, hour, minute, second).unwrap()
}

#[test]
fn test_base() {
    let start_date = get_start_date();
    assert_eq!(
        session_number(start_date, at(2022, 1, 6, 10, 0, 0)),
        Ok((1, at(2022, 1, 6, 15, 0, 0)))
    );
}

#[test]
fn test_monday() {
    let start_date = get_start_date();
    assert_eq!(
        session_number(start_date, at(2023, 3, 13, 10, 0, 0)),
        Ok((124, at(2023, 3, 14, 11, 0, 0)))
    );
}

#[test]
fn test_tuesday_pre() {
    let start_date = get_start_date();
    assert_eq!(
        session_number(start_date, at(2023, 3, 14, 10, 59, 59)),
        Ok((124, at(2023, 3, 14, 11, 0, 0)))
    );
}

#[test]
fn test_tuesday_post() {
    let start_date = get_start_date();
    assert_eq!(
        session_number(start_date, at(2023, 3, 14, 11, 1, 0)),
        Ok((125, at(2023, 3, 16, 15, 0, 0)))
    );
}

#[test]
fn test_wednesday() {
    let start_date = get_start_date();
    assert_eq!(
        session_number(start_date, at(2023, 4, 12, 10, 0, 0)),
        Ok((133, at(2023, 4, 13, 15, 0, 0)))
    );
}

#[test]
fn test_thursday_pre() {
    let start_date = get_start_date();
    assert_eq!(
        session_number(start_date, at(2023, 4, 13, 14, 59, 59)),
        Ok((133, at(2023, 4, 13, 15, 0, 0)))
    );
}

#[test]
fn test_thursday_post() {
    let start_date = get_start_date();
    assert_eq!(
        session_number(start_date, at(2023, 4, 13, 15, 1, 0)),
        Ok((134, at(2023, 4, 18, 11, 0, 0)))
    );
}

#[test]
fn test_friday() {
    let start_date = get_start_date();
    assert_eq!(
        session_number(start_date, at(2023, 5, 12, 10, 0, 0)),
        Ok((142, at(2023, 5, 16, 11, 0, 0)))
    );
}

#[test]
fn test_saturday() {
    let start_date = get_start_date();
    assert_eq!(
        session_number(start_date, at(2023, 5, 13, 10, 0, 0)),
        Ok((142, at(2023, 5, 16, 11, 0, 0)))
    );
}

#[test]
fn test_sunday() {
    let start_date = get_start_date();
    assert_eq!(
        session_number(start_date, at(2023, 5, 14, 10, 0, 0)),
        Ok((142, at(2023, 5, 16, 11, 0, 0)))
    );
}
