use vstd::prelude::*;
use crate::errors::SensorError;
use crate::models::Timestamp;

verus! {

/// The text of the UTC time that lies `nanoseconds` after the second
/// `seconds` of the Unix epoch, as the calendar library writes it; `None`
/// where the calendar has no such time.
pub uninterp spec fn utc_text(seconds: int, nanoseconds: int) -> Option<Seq<char>>;

/// What an optional text stands for.
pub open spec fn text_view(text: Option<String>) -> Option<Seq<char>> {
    match text {
        Some(text) => Some(text@),
        None => None,
    }
}

/// Writes a time out as text.
///
/// Calls `chrono::DateTime::from_timestamp` and, where that gives a time,
/// the `Display` of `chrono::DateTime<Utc>`. Both depend on their arguments
/// alone, so the result is given the name [`utc_text`]; nothing more is
/// claimed of it.
#[verifier::external_body]
fn format_utc(timestamp: Timestamp) -> (text: Option<String>)
    ensures
        text_view(text) == utc_text(timestamp.seconds as int, timestamp.nanoseconds as int),
{
    match chrono::DateTime::from_timestamp(timestamp.seconds, timestamp.nanoseconds) {
        Some(time) => Some(time.to_string()),
        None => None,
    }
}

/// One reading as it goes into the file: the device, the time, and the
/// temperature written out in decimal.
#[derive(Debug, PartialEq, Eq)]
pub struct CsvRecord {
    pub device_name: String,
    pub timestamp: Timestamp,
    pub temperature: String,
}

/// What a [`CsvRecord`] stands for.
pub struct CsvRecordView {
    pub device_name: Seq<char>,
    pub timestamp: Timestamp,
    pub temperature: Seq<char>,
}

impl View for CsvRecord {
    type V = CsvRecordView;

    open spec fn view(&self) -> CsvRecordView {
        CsvRecordView {
            device_name: self.device_name@,
            timestamp: self.timestamp,
            temperature: self.temperature@,
        }
    }
}

/// What a sequence of records stands for.
pub open spec fn record_views(records: Seq<CsvRecord>) -> Seq<CsvRecordView> {
    records.map_values(|record: CsvRecord| record@)
}

/// What a sequence of lines stands for.
pub open spec fn line_views(lines: Seq<String>) -> Seq<Seq<char>> {
    lines.map_values(|line: String| line@)
}

/// The first line of a file.
pub open spec fn csv_header() -> Seq<char> {
    "device_name,timestamp,temperature"@
}

/// The line of one reading: its three columns with a comma between them.
pub open spec fn csv_row(device_name: Seq<char>, time: Seq<char>, temperature: Seq<char>) -> Seq<
    char,
> {
    device_name + ","@ + time + ","@ + temperature
}

/// The line of a record; `None` where its time cannot be written out.
pub open spec fn record_line(record: CsvRecordView) -> Option<Seq<char>> {
    match utc_text(record.timestamp.seconds as int, record.timestamp.nanoseconds as int) {
        Some(time) => Some(csv_row(record.device_name, time, record.temperature)),
        None => None,
    }
}

/// Whether the time of every record can be written out.
pub open spec fn all_writable(records: Seq<CsvRecordView>) -> bool {
    forall|i: int| 0 <= i < records.len() ==> (#[trigger] record_line(records[i])) is Some
}

/// The lines to append to a file of `file_len` bytes for `records`.
///
/// For no records there is nothing to append, not even the header. For
/// any other batch the lines are the header where the file is empty, then
/// one line for each record in their order; `None` where the time of some
/// record cannot be written out.
pub open spec fn lines_to_append(file_len: u64, records: Seq<CsvRecordView>) -> Option<
    Seq<Seq<char>>,
> {
    if records.len() == 0 {
        Some(Seq::empty())
    } else if all_writable(records) {
        let rows = records.map_values(|record: CsvRecordView| record_line(record)->Some_0);
        Some(
            if file_len == 0 {
                seq![csv_header()] + rows
            } else {
                rows
            },
        )
    } else {
        None
    }
}

/// How the write of a batch to the file begins.
#[derive(Debug)]
pub enum FileStart {
    /// There is nothing to write. The write is over with this outcome, and
    /// the file is not touched.
    Done(Result<(), SensorError>),
    /// Open the file for appending and look at its length.
    Open,
}

/// How the write of `count` records begins: an empty batch is written by
/// doing nothing, and for any other batch the file is opened.
pub open spec fn file_start(count: nat) -> FileStart {
    if count == 0 {
        FileStart::Done(Ok(()))
    } else {
        FileStart::Open
    }
}

/// What comes next while the lines of a batch are appended.
#[derive(Debug)]
pub enum LineStep {
    /// Append the line at this position.
    Append(usize),
    /// Every line was attempted. The write is over with this outcome.
    Finish(Result<(), SensorError>),
}

/// What comes next when `attempted` of `count` lines were attempted, with
/// or without success: the next line, or the end of the write. A line that
/// could not be appended does not keep the others from being appended, and
/// does not make the write fail.
pub open spec fn line_step(attempted: int, count: int) -> LineStep {
    if 0 <= attempted < count {
        LineStep::Append(attempted as usize)
    } else {
        LineStep::Finish(Ok(()))
    }
}

/// Begins the appending of `count` lines.
pub fn first_line(count: usize) -> (step: LineStep)
    ensures
        step == line_step(0, count as int),
{
    if 0 < count {
        LineStep::Append(0)
    } else {
        LineStep::Finish(Ok(()))
    }
}

/// Goes on after the attempt to append the line at `position` of `count`
/// lines, whether it was `written` or not: the next line follows, and after
/// the last line the write has succeeded.
pub fn after_line(position: usize, count: usize, written: Result<(), std::io::Error>) -> (step:
    LineStep)
    ensures
        step == line_step(position + 1, count as int),
{
    if position < count && position + 1 < count {
        LineStep::Append(position + 1)
    } else {
        LineStep::Finish(Ok(()))
    }
}

/// Puts the three columns of one reading together.
pub fn row(device_name: &str, time: &str, temperature: &str) -> (line: String)
    ensures
        line@ == csv_row(device_name@, time@, temperature@),
{
    let mut line = String::from_str(device_name);
    line.append(",");
    line.append(time);
    line.append(",");
    line.append(temperature);
    line
}

/// A writer that appends readings to a file of comma-separated values.
#[derive(Debug)]
pub struct FileWriter {
    filename: String,
}

impl FileWriter {
    /// The path of the file.
    pub closed spec fn path(&self) -> Seq<char> {
        self.filename@
    }

    /// A writer for the file at `filename`.
    pub fn new(filename: &str) -> (writer: FileWriter)
        ensures
            writer.path() == filename@,
    {
        FileWriter { filename: String::from_str(filename) }
    }

    /// The path of the file.
    pub fn filename(&self) -> (filename: &String)
        ensures
            filename@ == self.path(),
    {
        &self.filename
    }

    /// Begins the write of `records`: an empty batch is written by doing
    /// nothing, and has succeeded without the file being touched.
    pub fn begin_write(&self, records: &Vec<CsvRecord>) -> (start: FileStart)
        ensures
            start == file_start(records@.len()),
    {
        if records.len() == 0 {
            FileStart::Done(Ok(()))
        } else {
            FileStart::Open
        }
    }

    /// Makes the lines to append for `records` to the file, which holds
    /// `file_len` bytes now: the header first where the file is empty, then
    /// one line for each record. For no records there are no lines, and
    /// where the time of a record cannot be written out the answer is
    /// `None`.
    pub fn write_temps(&self, file_len: u64, records: &Vec<CsvRecord>) -> (lines: Option<
        Vec<String>,
    >)
        ensures
            match lines {
                Some(lines) => Some(line_views(lines@)),
                None => None,
            } == lines_to_append(file_len, record_views(records@)),
    {
        let ghost all = record_views(records@);
        let mut lines: Vec<String> = Vec::new();
        if records.len() == 0 {
            return Some(lines);
        }
        if file_len == 0 {
            lines.push(String::from_str("device_name,timestamp,temperature"));
        }
        let ghost head = line_views(lines@);
        let mut i: usize = 0;
        while i < records.len()
            invariant
                i <= records.len(),
                all == record_views(records@),
                head == if file_len == 0 {
                    seq![csv_header()]
                } else {
                    Seq::<Seq<char>>::empty()
                },
                all_writable(all.take(i as int)),
                line_views(lines@) == head + all.take(i as int).map_values(
                    |record: CsvRecordView| record_line(record)->Some_0,
                ),
            decreases records.len() - i,
        {
            let record = &records[i];
            let ghost before = line_views(lines@);
            match format_utc(record.timestamp) {
                Some(time) => {
                    let line = row(
                        record.device_name.as_str(),
                        time.as_str(),
                        record.temperature.as_str(),
                    );
                    lines.push(line);
                    proof {
                        assert(line_views(lines@) =~= before.push(line@));
                    }
                },
                None => {
                    proof {
                        assert(record_line(all[i as int]) is None);
                    }
                    return None;
                },
            }
            i += 1;
        }
        proof {
            assert(all.take(i as int) =~= all);
        }
        Some(lines)
    }
}

} // verus!
