pub mod bridge;
pub mod database;
pub mod dedup;
pub mod errors;
pub mod file_writer;
pub mod latest_items;
pub mod models;
pub mod polling;
pub mod sensors;
pub mod storage;
pub mod temp_writer;
