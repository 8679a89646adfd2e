use vstd::prelude::*;
use crate::errors::{DatabaseError, SensorError};

verus! {

/// The database that is used where none is configured.
pub const DATABASE_URL: &'static str = "mongodb://localhost:27017";

/// The database that the readings are kept in.
pub const DATABASE_NAME: &'static str = "web_database";

/// The collection that the readings are kept in.
pub const COLLECTION_NAME: &'static str = "sensor_data";

/// The seconds after which an attempt to reach the database is given up.
pub const TIMEOUT_SECS: u64 = 5;

/// Picks the address of the database: the configured one, or
/// [`DATABASE_URL`] where none is configured.
pub fn database_url(configured: Option<String>) -> (url: String)
    ensures
        url@ == match configured {
            Some(given) => given@,
            None => DATABASE_URL@,
        },
{
    match configured {
        Some(given) => given,
        None => String::from_str(DATABASE_URL),
    }
}

/// How to connect to the database, as plain values.
#[derive(Debug, PartialEq, Eq)]
pub struct ConnectionPlan {
    pub url: String,
    pub server_selection_timeout_secs: u64,
    pub connect_timeout_secs: u64,
}

/// Plans the connection to the database at `database_url`: both the choice
/// of a server and the connection to it are given up after
/// [`TIMEOUT_SECS`].
pub fn plan_connection(database_url: &str) -> (plan: ConnectionPlan)
    ensures
        plan.url@ == database_url@,
        plan.server_selection_timeout_secs == TIMEOUT_SECS,
        plan.connect_timeout_secs == TIMEOUT_SECS,
{
    ConnectionPlan {
        url: String::from_str(database_url),
        server_selection_timeout_secs: TIMEOUT_SECS,
        connect_timeout_secs: TIMEOUT_SECS,
    }
}

/// One field of an index and the direction in which it is ordered.
#[derive(Debug, PartialEq, Eq)]
pub struct IndexKey {
    pub field: String,
    pub ascending: bool,
}

/// An index over a collection, as plain values.
#[derive(Debug, PartialEq, Eq)]
pub struct IndexPlan {
    pub keys: Vec<IndexKey>,
    pub unique: bool,
}

/// What an [`IndexPlan`] stands for: its fields in their order, each with
/// its direction, and whether two documents may agree on all of them.
pub struct IndexView {
    pub keys: Seq<(Seq<char>, bool)>,
    pub unique: bool,
}

impl View for IndexPlan {
    type V = IndexView;

    open spec fn view(&self) -> IndexView {
        IndexView {
            keys: self.keys@.map_values(|key: IndexKey| (key.field@, key.ascending)),
            unique: self.unique,
        }
    }
}

/// The index that keeps a device from having two stored readings of the
/// same time: unique over the device name and the time, both ascending.
pub open spec fn reading_index() -> IndexView {
    IndexView { keys: seq![("device_name"@, true), ("timestamp"@, true)], unique: true }
}

/// Plans the index that a writer creates on its collection before it writes.
pub fn plan_index() -> (plan: IndexPlan)
    ensures
        plan@ == reading_index(),
{
    let mut keys: Vec<IndexKey> = Vec::new();
    keys.push(IndexKey { field: String::from_str("device_name"), ascending: true });
    keys.push(IndexKey { field: String::from_str("timestamp"), ascending: true });
    let plan = IndexPlan { keys, unique: true };
    proof {
        assert(plan@.keys =~= reading_index().keys);
    }
    plan
}

/// How a batch of documents is written. A batch that is not `ordered` is
/// written to the end whichever of its documents the database refuses.
#[derive(Clone, Copy, Debug, PartialEq, Eq, Structural)]
pub struct InsertPlan {
    pub ordered: bool,
}

/// How the save of a batch begins.
#[derive(Debug)]
pub enum SavePlan<E> {
    /// There is nothing to write. The save is over with this outcome, and
    /// the database is not asked.
    Done(Result<(), E>),
    /// The batch goes to the database in one write of this kind.
    Insert(InsertPlan),
}

/// The plan for a batch of `count` items: an empty batch is saved by doing
/// nothing, and any other batch goes out in one unordered write.
pub open spec fn save_plan<E>(count: nat) -> SavePlan<E> {
    if count == 0 {
        SavePlan::Done(Ok(()))
    } else {
        SavePlan::Insert(InsertPlan { ordered: false })
    }
}

/// Plans the save of a batch to the database.
///
/// An empty batch is saved by doing nothing: the save has succeeded without
/// a request to the database. Any other batch goes out in one unordered
/// write, and [`finish_save_items`] says what the save ends with.
pub fn plan_save_items<T>(data: &[T]) -> (plan: SavePlan<DatabaseError>)
    ensures
        plan == save_plan::<DatabaseError>(data@.len()),
{
    if data.len() == 0 {
        SavePlan::Done(Ok(()))
    } else {
        SavePlan::Insert(InsertPlan { ordered: false })
    }
}

/// Plans the write of a batch by a writer.
///
/// An empty batch is written by doing nothing: the write has succeeded
/// without a request to the database. Any other batch goes out in one
/// unordered write, and [`finish_write_temps`] says what the write ends
/// with.
pub fn plan_write_temps<T>(data: &[T]) -> (plan: SavePlan<SensorError>)
    ensures
        plan == save_plan::<SensorError>(data@.len()),
{
    if data.len() == 0 {
        SavePlan::Done(Ok(()))
    } else {
        SavePlan::Insert(InsertPlan { ordered: false })
    }
}

/// Whether the driver's error is that of a bulk write that was attempted:
/// its kind is `ErrorKind::InsertMany`.
pub uninterp spec fn is_bulk_write_error(error: mongodb::error::Error) -> bool;

/// Whether the driver's error is that of a bulk write and names write
/// errors of single documents.
pub uninterp spec fn has_write_errors(error: mongodb::error::Error) -> bool;

/// Whether the driver's error is that of a bulk write and names a write
/// concern error.
pub uninterp spec fn has_write_concern_error(error: mongodb::error::Error) -> bool;

/// What the driver's error says of a write, as plain facts.
#[derive(Clone, Copy, Debug, PartialEq, Eq, Structural)]
pub struct WriteFacts {
    /// The error is that of a bulk write that was attempted.
    pub bulk_write: bool,
    /// It names write errors of single documents.
    pub write_errors: bool,
    /// It names a write concern error.
    pub write_concern_error: bool,
}

/// The facts that the driver's error holds.
pub open spec fn facts_of(error: mongodb::error::Error) -> WriteFacts {
    WriteFacts {
        bulk_write: is_bulk_write_error(error),
        write_errors: has_write_errors(error),
        write_concern_error: has_write_concern_error(error),
    }
}

/// Reads the facts out of the driver's error.
///
/// Looks at `mongodb::error::Error::kind`. For `ErrorKind::InsertMany` the
/// facts say whether the fields `write_errors` and `write_concern_error` of
/// the `InsertManyError` are present; for every other kind all three facts
/// are `false`. The facts depend on the error alone, so each is given a
/// name; nothing more is claimed of them.
#[verifier::external_body]
fn write_facts(error: &mongodb::error::Error) -> (facts: WriteFacts)
    ensures
        facts.bulk_write == is_bulk_write_error(*error),
        facts.write_errors == has_write_errors(*error),
        facts.write_concern_error == has_write_concern_error(*error),
{
    match *error.kind {
        mongodb::error::ErrorKind::InsertMany(ref failure) => WriteFacts {
            bulk_write: true,
            write_errors: failure.write_errors.is_some(),
            write_concern_error: failure.write_concern_error.is_some(),
        },
        _ => WriteFacts { bulk_write: false, write_errors: false, write_concern_error: false },
    }
}

/// What an error means for a batch.
#[derive(Clone, Copy, Debug, PartialEq, Eq, Structural)]
pub enum BatchFailure {
    /// The batch was attempted, and the database refused single documents
    /// of it and took the others.
    DocumentsRefused,
    /// Anything else: the batch could not be attempted, or the write could
    /// not be confirmed.
    NotWritten,
}

/// What the facts of an error mean for a batch: single documents were
/// refused where the error is that of a bulk write with write errors and
/// without a write concern error; the batch was not written otherwise.
pub open spec fn failure_of(facts: WriteFacts) -> BatchFailure {
    if facts.bulk_write && facts.write_errors && !facts.write_concern_error {
        BatchFailure::DocumentsRefused
    } else {
        BatchFailure::NotWritten
    }
}

/// What the driver's error means for a batch.
pub open spec fn failure_kind(error: mongodb::error::Error) -> BatchFailure {
    failure_of(facts_of(error))
}

/// Decides what the facts of an error mean for a batch.
pub fn classify(facts: WriteFacts) -> (failure: BatchFailure)
    ensures
        failure == failure_of(facts),
{
    if facts.bulk_write && facts.write_errors && !facts.write_concern_error {
        BatchFailure::DocumentsRefused
    } else {
        BatchFailure::NotWritten
    }
}

/// What a save ends with after a failure of the kind `failure`: success
/// where single documents were refused, and the error `reported` where the
/// batch was not written.
pub open spec fn outcome_after<E>(failure: BatchFailure, reported: E) -> Result<(), E> {
    match failure {
        BatchFailure::DocumentsRefused => Ok(()),
        BatchFailure::NotWritten => Err(reported),
    }
}

/// Decides what a save ends with when the driver has failed with `error`
/// and the error is of the kind `failure`.
///
/// Documents that the database refused do not make the save fail: the rest
/// of the batch is written. Any other error is the outcome.
pub fn save_outcome(error: mongodb::error::Error, failure: BatchFailure) -> (outcome: Result<
    (),
    DatabaseError,
>)
    ensures
        outcome == outcome_after(failure, DatabaseError::MongoDB(error)),
{
    match failure {
        BatchFailure::DocumentsRefused => Ok(()),
        BatchFailure::NotWritten => Err(DatabaseError::MongoDB(error)),
    }
}

/// Ends the save of a batch: `written` is the number of documents that the
/// database took, or the driver's error.
///
/// A write that went through is a success. After an error the save has
/// succeeded where the database refused single documents and took the
/// rest, and has failed with the driver's error where the batch could not
/// be attempted or the write could not be confirmed.
pub fn finish_save_items(written: Result<usize, mongodb::error::Error>) -> (outcome: Result<
    (),
    DatabaseError,
>)
    ensures
        outcome == match written {
            Ok(_) => Ok::<(), DatabaseError>(()),
            Err(error) => outcome_after(failure_kind(error), DatabaseError::MongoDB(error)),
        },
{
    match written {
        Ok(_) => Ok(()),
        Err(error) => {
            let failure = classify(write_facts(&error));
            save_outcome(error, failure)
        },
    }
}

/// Ends the write of a batch by a writer: `inserted` is the number of
/// documents that the database took, or the driver's error.
///
/// A write that went through is a success. After an error the write has
/// succeeded where the database refused single documents and took the
/// rest, and has failed with the driver's error where the batch could not
/// be attempted or the write could not be confirmed.
pub fn finish_write_temps(inserted: Result<usize, mongodb::error::Error>) -> (outcome: Result<
    (),
    SensorError,
>)
    ensures
        outcome == match inserted {
            Ok(_) => Ok::<(), SensorError>(()),
            Err(error) => outcome_after(failure_kind(error), SensorError::MongoDB(error)),
        },
{
    match inserted {
        Ok(_) => Ok(()),
        Err(error) => match classify(write_facts(&error)) {
            BatchFailure::DocumentsRefused => Ok(()),
            BatchFailure::NotWritten => Err(SensorError::MongoDB(error)),
        },
    }
}

} // verus!
