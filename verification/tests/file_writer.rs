use rust_backend::file_writer::{
    after_line, first_line, row, CsvRecord, FileStart, FileWriter, LineStep,
};
use rust_backend::models::Timestamp;

fn record(device_name: &str, seconds: i64, nanoseconds: u32, temperature: &str) -> CsvRecord {
    CsvRecord {
        device_name: device_name.to_string(),
        timestamp: Timestamp { seconds, nanoseconds },
        temperature: temperature.to_string(),
    }
}

#[test]
fn row_joins_three_columns_with_commas() {
    assert_eq!(row("Bedroom", "2015-05-15 00:00:00 UTC", "21.5"), "Bedroom,2015-05-15 00:00:00 UTC,21.5");
    assert_eq!(row("", "", ""), ",,");
}

#[test]
fn empty_file_gets_the_header_first() {
    let writer = FileWriter::new("temperatures.csv");
    assert_eq!(writer.filename(), "temperatures.csv");
    let lines = writer.write_temps(0, &vec![record("Bedroom", 1_431_648_000, 0, "21.5")]);
    assert_eq!(
        lines,
        Some(vec![
            "device_name,timestamp,temperature".to_string(),
            "Bedroom,2015-05-15 00:00:00 UTC,21.5".to_string(),
        ])
    );
}

#[test]
fn file_with_content_gets_rows_only() {
    let writer = FileWriter::new("temperatures.csv");
    let records = vec![
        record("Bedroom", 0, 0, "20"),
        record("Kitchen", 1_700_000_000, 500_000_000, "-3.25"),
    ];
    assert_eq!(
        writer.write_temps(34, &records),
        Some(vec![
            "Bedroom,1970-01-01 00:00:00 UTC,20".to_string(),
            "Kitchen,2023-11-14 22:13:20.500 UTC,-3.25".to_string(),
        ])
    );
}

#[test]
fn empty_batch_writes_nothing() {
    let writer = FileWriter::new("temperatures.csv");
    assert!(matches!(writer.begin_write(&Vec::new()), FileStart::Done(Ok(()))));
    assert_eq!(writer.write_temps(0, &Vec::new()), Some(Vec::new()));
    assert_eq!(writer.write_temps(1, &Vec::new()), Some(Vec::new()));
}

#[test]
fn batch_with_records_opens_the_file() {
    let writer = FileWriter::new("temperatures.csv");
    assert!(matches!(writer.begin_write(&vec![record("Bedroom", 0, 0, "20")]), FileStart::Open));
}

#[test]
fn lines_are_appended_one_after_the_other() {
    assert!(matches!(first_line(3), LineStep::Append(0)));
    assert!(matches!(after_line(0, 3, Ok(())), LineStep::Append(1)));
    assert!(matches!(after_line(1, 3, Ok(())), LineStep::Append(2)));
    assert!(matches!(after_line(2, 3, Ok(())), LineStep::Finish(Ok(()))));
    assert!(matches!(first_line(0), LineStep::Finish(Ok(()))));
}

#[test]
fn failed_line_does_not_stop_the_rest() {
    let full = || std::io::Error::new(std::io::ErrorKind::Other, "no space left on device");
    assert!(matches!(after_line(2, 5, Err(full())), LineStep::Append(3)));
    assert!(matches!(after_line(3, 5, Ok(())), LineStep::Append(4)));
    assert!(matches!(after_line(4, 5, Err(full())), LineStep::Finish(Ok(()))));
    assert!(matches!(after_line(usize::MAX, usize::MAX, Ok(())), LineStep::Finish(Ok(()))));
    assert!(matches!(after_line(7, 5, Ok(())), LineStep::Finish(Ok(()))));
}

#[test]
fn time_outside_the_calendar_gives_no_lines() {
    let writer = FileWriter::new("temperatures.csv");
    let records = vec![record("Bedroom", 0, 0, "20"), record("Kitchen", i64::MAX, 0, "21")];
    assert_eq!(writer.write_temps(0, &records), None);
    let records = vec![record("Bedroom", 10, 2_000_000_000, "20")];
    assert_eq!(writer.write_temps(5, &records), None);
}

#[test]
fn time_text_is_that_of_the_calendar() {
    let writer = FileWriter::new("temperatures.csv");
    let seconds = 1_431_648_000;
    let expected = chrono::DateTime::from_timestamp(seconds, 123_000_000).unwrap().to_string();
    let lines = writer.write_temps(9, &vec![record("Bedroom", seconds, 123_000_000, "1")]).unwrap();
    assert_eq!(lines, vec![format!("Bedroom,{},1", expected)]);
    assert_eq!(expected, "2015-05-15 00:00:00.123 UTC");
}
