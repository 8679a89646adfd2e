use mongodb::bson::{Bson, Document};
use mongodb::error::{Error, ErrorKind, InsertManyError};

use rust_backend::database::{
    classify, database_url, finish_save_items, finish_write_temps, plan_connection, plan_index,
    plan_save_items, plan_write_temps, save_outcome, BatchFailure, IndexKey, InsertPlan,
    SavePlan, WriteFacts, COLLECTION_NAME, DATABASE_NAME, DATABASE_URL, TIMEOUT_SECS,
};
use rust_backend::errors::{DatabaseError, SensorError};

/// The error of a bulk write in which the documents at `refused` were not
/// taken, with or without a failed write concern.
fn bulk_write_error(refused: &[i64], write_concern_failed: bool) -> Error {
    let mut report = Document::new();
    if !refused.is_empty() {
        let mut write_errors: Vec<Bson> = Vec::new();
        for index in refused {
            let mut write_error = Document::new();
            write_error.insert("index", *index);
            write_error.insert("code", 11000);
            write_error.insert("errmsg", "E11000 duplicate key error");
            write_errors.push(Bson::Document(write_error));
        }
        report.insert("writeErrors", write_errors);
    }
    if write_concern_failed {
        let mut write_concern_error = Document::new();
        write_concern_error.insert("code", 64);
        write_concern_error.insert("errmsg", "waiting for replication timed out");
        report.insert("writeConcernError", write_concern_error);
    }
    let failure: InsertManyError = mongodb::bson::deserialize_from_document(report).unwrap();
    Error::from(ErrorKind::InsertMany(failure))
}

#[test]
fn batch_with_a_refused_item_is_saved() {
    let third_of_five = bulk_write_error(&[2], false);
    assert!(finish_save_items(Err(third_of_five)).is_ok());
    let several = bulk_write_error(&[0, 4], false);
    assert!(finish_save_items(Err(several)).is_ok());
}

#[test]
fn batch_that_went_through_is_saved() {
    assert!(finish_save_items(Ok(5)).is_ok());
    assert!(finish_save_items(Ok(0)).is_ok());
}

#[test]
fn save_fails_when_the_write_cannot_be_attempted() {
    match finish_save_items(Err(Error::custom("connection lost"))) {
        Err(DatabaseError::MongoDB(error)) => {
            assert_eq!(error.get_custom::<&str>(), Some(&"connection lost"));
        }
        Ok(()) => panic!("a lost connection was taken for a save"),
    }
    let unreachable = Error::from(std::io::Error::new(std::io::ErrorKind::TimedOut, "timeout"));
    assert!(matches!(finish_save_items(Err(unreachable)), Err(DatabaseError::MongoDB(_))));
}

#[test]
fn save_fails_when_the_write_is_not_confirmed() {
    let unconfirmed = bulk_write_error(&[], true);
    assert!(matches!(finish_save_items(Err(unconfirmed)), Err(DatabaseError::MongoDB(_))));
    let both = bulk_write_error(&[2], true);
    assert!(matches!(finish_save_items(Err(both)), Err(DatabaseError::MongoDB(_))));
}

#[test]
fn outcome_of_a_save_follows_the_kind_of_failure() {
    assert!(save_outcome(Error::custom("x"), BatchFailure::DocumentsRefused).is_ok());
    match save_outcome(Error::custom("y"), BatchFailure::NotWritten) {
        Err(DatabaseError::MongoDB(error)) => assert_eq!(error.get_custom::<&str>(), Some(&"y")),
        Ok(()) => panic!("the error was lost"),
    }
}

#[test]
fn saving_an_empty_batch_asks_nothing() {
    let nothing: Vec<u32> = Vec::new();
    assert!(matches!(plan_save_items(&nothing), SavePlan::Done(Ok(()))));
    assert!(matches!(plan_write_temps(&nothing), SavePlan::Done(Ok(()))));
}

#[test]
fn saving_a_batch_is_one_unordered_write() {
    assert!(matches!(plan_save_items(&[7u32]), SavePlan::Insert(InsertPlan { ordered: false })));
    assert!(matches!(
        plan_save_items(&[1u32, 2, 3, 4, 5]),
        SavePlan::Insert(InsertPlan { ordered: false })
    ));
    assert!(matches!(
        plan_write_temps(&[1u32, 2, 3, 4, 5]),
        SavePlan::Insert(InsertPlan { ordered: false })
    ));
}

#[test]
fn writer_absorbs_refused_documents_only() {
    assert!(finish_write_temps(Ok(4)).is_ok());
    assert!(finish_write_temps(Ok(0)).is_ok());
    assert!(finish_write_temps(Err(bulk_write_error(&[2], false))).is_ok());
}

#[test]
fn writer_fails_when_the_database_cannot_be_reached() {
    match finish_write_temps(Err(Error::custom("connection lost"))) {
        Err(SensorError::MongoDB(error)) => {
            assert_eq!(error.get_custom::<&str>(), Some(&"connection lost"));
        }
        other => panic!("a lost connection ended in {:?}", other),
    }
    let timeout = Error::from(std::io::Error::new(std::io::ErrorKind::TimedOut, "timeout"));
    assert!(matches!(finish_write_temps(Err(timeout)), Err(SensorError::MongoDB(_))));
    let unconfirmed = bulk_write_error(&[2], true);
    assert!(matches!(finish_write_temps(Err(unconfirmed)), Err(SensorError::MongoDB(_))));
}

#[test]
fn facts_of_an_error_decide_its_kind() {
    let facts = |bulk_write, write_errors, write_concern_error| WriteFacts {
        bulk_write,
        write_errors,
        write_concern_error,
    };
    assert_eq!(classify(facts(true, true, false)), BatchFailure::DocumentsRefused);
    assert_eq!(classify(facts(true, true, true)), BatchFailure::NotWritten);
    assert_eq!(classify(facts(true, false, true)), BatchFailure::NotWritten);
    assert_eq!(classify(facts(true, false, false)), BatchFailure::NotWritten);
    assert_eq!(classify(facts(false, false, false)), BatchFailure::NotWritten);
    assert_eq!(classify(facts(false, true, false)), BatchFailure::NotWritten);
}

#[test]
fn database_address_falls_back_on_the_default() {
    assert_eq!(database_url(None), "mongodb://localhost:27017");
    assert_eq!(database_url(Some("mongodb://db:27017".to_string())), "mongodb://db:27017");
    assert_eq!(database_url(Some(String::new())), "");
    assert_eq!(DATABASE_URL, "mongodb://localhost:27017");
    assert_eq!(DATABASE_NAME, "web_database");
    assert_eq!(COLLECTION_NAME, "sensor_data");
}

#[test]
fn connection_gives_up_after_five_seconds() {
    let plan = plan_connection("mongodb://db:27017");
    assert_eq!(plan.url, "mongodb://db:27017");
    assert_eq!(plan.server_selection_timeout_secs, 5);
    assert_eq!(plan.connect_timeout_secs, 5);
    assert_eq!(TIMEOUT_SECS, 5);
}

#[test]
fn index_is_unique_over_device_and_time() {
    let plan = plan_index();
    assert!(plan.unique);
    assert_eq!(
        plan.keys,
        vec![
            IndexKey { field: "device_name".to_string(), ascending: true },
            IndexKey { field: "timestamp".to_string(), ascending: true },
        ]
    );
}
