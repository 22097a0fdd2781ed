use chrono::{Datelike, NaiveDate, Timelike};
use omd_transfer::text::{chars_of, parse_decimal, same_chars, same_text, split_chars, string_of};
use omd_transfer::{parse_fat_datetime, Error, Timestamp, TransferItem};

#[test]
fn test_parse_fat_datetime() {
    let d = NaiveDate::from_ymd_opt(2016, 4, 27).unwrap().and_hms_opt(19, 39, 10).unwrap();
    let t = parse_fat_datetime(18587, 40165).unwrap();
    assert_eq!(
        (t.year(), t.month(), t.day(), t.hour(), t.minute(), t.second()),
        (d.year(), d.month(), d.day(), d.hour(), d.minute(), d.second())
    );
    assert_eq!(parse_fat_datetime(18587, 40165), Ok(Timestamp::new(2016, 4, 27, 19, 39, 10).unwrap()));
}

#[test]
fn test_from_row() {
    for row in vec![
        "/DCIM/100OLYMP,P4270171.ORF,14845727,0,18587,40165",
        "/DCIM/100OLYMP,P4270171.JPG,7935748,0,18587,40165",
        "/DCIM/100OLYMP,P4270172.ORF,14877614,0,18587,40167",
        "/DCIM/100OLYMP,P4270172.JPG,8023494,0,18587,40167",
        "/DCIM/100OLYMP,P4270173.ORF,14894106,0,18587,40217",
        "/DCIM/100OLYMP,P4270173.JPG,8203245,0,18587,40217",
        "/DCIM/100OLYMP,P4270174.ORF,14936402,0,18587,40225",
    ] {
        println!("{:?}", TransferItem::from_row(row));
        assert!(TransferItem::from_row(row).is_ok());
    }
}

#[test]
fn fat_fields_are_taken_apart_bit_by_bit() {
    // 1980-01-01T00:00:00 is the earliest moment: year offset 0, month 1, day 1.
    let earliest = parse_fat_datetime((1 << 5) | 1, 0).unwrap();
    assert_eq!(earliest, Timestamp::new(1980, 1, 1, 0, 0, 0).unwrap());
    // 2107-12-31T23:59:58 is the latest.
    let latest = parse_fat_datetime((127 << 9) | (12 << 5) | 31, (23 << 11) | (59 << 5) | 29).unwrap();
    assert_eq!(latest, Timestamp::new(2107, 12, 31, 23, 59, 58).unwrap());
    // Seconds count double.
    assert_eq!(parse_fat_datetime(18587, 40165).unwrap().second(), 10);
}

#[test]
fn fat_fields_that_name_no_moment_are_refused() {
    // Raw seconds of 30 and more would be a minute and more.
    assert_eq!(parse_fat_datetime(18587, (19 << 11) | (39 << 5) | 30), Err(Error::ProtocolError));
    // Month zero, day zero, month thirteen.
    assert_eq!(parse_fat_datetime((36 << 9) | (0 << 5) | 27, 0), Err(Error::ProtocolError));
    assert_eq!(parse_fat_datetime((36 << 9) | (4 << 5) | 0, 0), Err(Error::ProtocolError));
    assert_eq!(parse_fat_datetime((36 << 9) | (13 << 5) | 1, 0), Err(Error::ProtocolError));
    // The thirty-first of April, the thirtieth of February.
    assert_eq!(parse_fat_datetime((36 << 9) | (4 << 5) | 31, 0), Err(Error::ProtocolError));
    assert_eq!(parse_fat_datetime((36 << 9) | (2 << 5) | 30, 0), Err(Error::ProtocolError));
    // Hour twenty-four, minute sixty.
    assert_eq!(parse_fat_datetime(18587, 24 << 11), Err(Error::ProtocolError));
    assert_eq!(parse_fat_datetime(18587, 60 << 5), Err(Error::ProtocolError));
}

#[test]
fn leap_days_follow_the_gregorian_calendar() {
    assert!(Timestamp::new(2016, 2, 29, 0, 0, 0).is_some());
    assert!(Timestamp::new(2015, 2, 29, 0, 0, 0).is_none());
    assert!(Timestamp::new(2000, 2, 29, 0, 0, 0).is_some());
    assert!(Timestamp::new(2100, 2, 29, 0, 0, 0).is_none());
    assert!(Timestamp::new(2016, 4, 31, 0, 0, 0).is_none());
    assert!(Timestamp::new(2016, 12, 31, 23, 59, 59).is_some());
    assert!(Timestamp::new(10000, 1, 1, 0, 0, 0).is_none());
    assert!(Timestamp::new(-1, 1, 1, 0, 0, 0).is_none());
    assert!(Timestamp::new(2016, 1, 1, 0, 0, 60).is_none());
}

#[test]
fn timestamps_are_ordered_by_time() {
    let a = Timestamp::new(2016, 4, 27, 19, 39, 10).unwrap();
    let b = Timestamp::new(2016, 4, 27, 19, 40, 0).unwrap();
    let c = Timestamp::new(2015, 12, 31, 23, 59, 59).unwrap();
    assert!(b.is_after(&a));
    assert!(!a.is_after(&b));
    assert!(!a.is_after(&a));
    assert!(a.is_after(&c));
    assert!(a.ordinal() < b.ordinal());
    assert_eq!(
        Timestamp::new(1, 2, 3, 4, 5, 6).unwrap().ordinal(),
        ((((1 * 13 + 2) * 32 + 3) * 24 + 4) * 60 + 5) * 60 + 6
    );
}

#[test]
fn row_parses_to_its_fields() {
    let item = TransferItem::from_row("/DCIM/100OLYMP,P4270171.ORF,14845727,0,18587,40165").unwrap();
    assert_eq!(item.parent, "/DCIM/100OLYMP");
    assert_eq!(item.filename, "P4270171.ORF");
    assert_eq!(item.file_size, 14845727);
    assert_eq!(item.date, Timestamp::new(2016, 4, 27, 19, 39, 10).unwrap());
    assert_eq!(item.path(), "/DCIM/100OLYMP/P4270171.ORF");
    assert_eq!(item.url(), "http://192.168.0.10//DCIM/100OLYMP/P4270171.ORF");
}

#[test]
fn directory_names_are_recognised() {
    let dir = TransferItem::from_row("/DCIM,100OLYMP,0,0,18587,40165").unwrap();
    let file = TransferItem::from_row("/DCIM/100OLYMP,P4270171.ORF,14845727,0,18587,40165").unwrap();
    assert!(dir.is_directory());
    assert!(!file.is_directory());
    for (name, expected) in [
        ("100OLYMP", true),
        ("123_abcd", true),
        ("12OLYMPU", false),
        ("100OLYM", false),
        ("100OLYMPU", false),
        ("100OLY.P", false),
        ("", false),
    ] {
        let row = format!("/DCIM,{},0,0,18587,40165", name);
        assert_eq!(TransferItem::from_row(&row).unwrap().is_directory(), expected);
    }
}

#[test]
fn malformed_rows_are_protocol_errors() {
    assert_eq!(TransferItem::from_row("a,b,x,0,18587,40165"), Err(Error::ProtocolError));
    assert_eq!(TransferItem::from_row("a,b,1,0,18587"), Err(Error::ProtocolError));
    assert_eq!(TransferItem::from_row("a,b,1,0,18587,40165,7"), Err(Error::ProtocolError));
    assert_eq!(TransferItem::from_row("a,b,1,0,70000,40165"), Err(Error::ProtocolError));
    assert_eq!(TransferItem::from_row("a,b,1,0,18587,40190"), Err(Error::ProtocolError));
    assert_eq!(TransferItem::from_row("a,b,18446744073709551616,0,18587,40165"), Err(Error::ProtocolError));
    assert_eq!(TransferItem::from_row("a,b,-1,0,18587,40165"), Err(Error::ProtocolError));
    assert_eq!(TransferItem::from_row("a,b,,0,18587,40165"), Err(Error::ProtocolError));
    assert_eq!(TransferItem::from_row(""), Err(Error::ProtocolError));
    assert!(TransferItem::from_row("a,b,18446744073709551615,anything,18587,40165").is_ok());
    assert!(TransferItem::from_row(",,0,,18587,40165").is_ok());
}

#[test]
fn entries_are_the_same_by_parent_and_name() {
    let a = TransferItem::from_row("/DCIM/100OLYMP,P4270171.ORF,14845727,0,18587,40165").unwrap();
    let b = TransferItem::from_row("/DCIM/100OLYMP,P4270171.ORF,1,0,18587,40167").unwrap();
    let c = TransferItem::from_row("/DCIM/100OLYMP,P4270171.JPG,14845727,0,18587,40165").unwrap();
    let d = TransferItem::from_row("/DCIM/101OLYMP,P4270171.ORF,14845727,0,18587,40165").unwrap();
    assert_eq!(a, b);
    assert_ne!(a, c);
    assert_ne!(a, d);
    assert_eq!(a.clone().file_size, 14845727);
}

#[test]
fn texts_are_cut_at_every_separator() {
    let cut = |text: &str, sep: &str| -> Vec<String> {
        split_chars(&chars_of(text), &chars_of(sep)).iter().map(string_of).collect()
    };
    assert_eq!(cut("a,b,,c", ","), vec!["a", "b", "", "c"]);
    assert_eq!(cut("", ","), vec![""]);
    assert_eq!(cut(",", ","), vec!["", ""]);
    assert_eq!(cut("abc", ","), vec!["abc"]);
    assert_eq!(cut("a\r\nb\rc\nd\r\n", "\r\n"), vec!["a", "b\rc\nd", ""]);
    assert_eq!(cut("a\r\r\nb", "\r\n"), vec!["a\r", "b"]);
    assert_eq!(cut("aaa", "aa"), vec!["", "a"]);
    assert_eq!(cut("abc", ""), vec!["abc"]);
    assert_eq!(cut("äö,ü", ","), vec!["äö", "ü"]);
}

#[test]
fn numbers_are_read_in_decimal() {
    let read = |text: &str, max: u64| parse_decimal(&chars_of(text), max);
    assert_eq!(read("0", 10), Some(0));
    assert_eq!(read("007", 10), Some(7));
    assert_eq!(read("+5", 10), Some(5));
    assert_eq!(read("10", 10), Some(10));
    assert_eq!(read("11", 10), None);
    assert_eq!(read("", 10), None);
    assert_eq!(read("+", 10), None);
    assert_eq!(read("++1", 10), None);
    assert_eq!(read("-1", 10), None);
    assert_eq!(read("1a", 10), None);
    assert_eq!(read(" 1", 10), None);
    assert_eq!(read("18446744073709551615", u64::MAX), Some(u64::MAX));
    assert_eq!(read("18446744073709551616", u64::MAX), None);
    assert_eq!(read("99999999999999999999999", u64::MAX), None);
    assert_eq!(read("65535", 65535), Some(65535));
    assert_eq!(read("65536", 65535), None);
}

#[test]
fn texts_are_compared_character_by_character() {
    assert!(same_text("abort", "abort"));
    assert!(!same_text("abort", "Abort"));
    assert!(!same_text("abort", "abor"));
    assert!(same_text("", ""));
    assert!(same_chars(&chars_of("é"), &chars_of("é")));
    assert_eq!(string_of(&chars_of("VER_100")), "VER_100");
}
