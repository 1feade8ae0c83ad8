//! A changeset: the operations a transaction made on the tables, as
//! rows of column values.
use std::collections::HashMap;
use vstd::prelude::*;

verus! {

/// A row: column names and their values.
pub type RowMap = HashMap<String, String>;

/// A row as it was.
#[derive(Debug)]
pub struct FromValue {
    pub from: RowMap,
}

/// A row as it was and as it became.
#[derive(Debug)]
pub struct FromToValue {
    pub from: RowMap,
    pub to: RowMap,
}

/// What was done to a table.
#[derive(Debug)]
pub enum Operation {
    Insert(Vec<FromValue>),
    Update(Vec<FromToValue>),
    Delete(Vec<FromValue>),
    Truncate(TableName),
}

/// The tables a changeset speaks of.
#[derive(Debug, PartialEq, Eq, Clone, Copy)]
pub enum TableName {
    Role,
    Site,
    Level,
    Package,
}

/// An operation on one table.
#[derive(Debug)]
pub enum TableOperation {
    Role(Operation),
    Site(Operation),
    Level(Operation),
    Package(Operation),
}

/// The operations of a transaction, if it is known.
#[derive(Debug)]
pub struct Changeset {
    pub transaction_id: Option<i32>,
    pub actions: Vec<TableOperation>,
}

} // verus!
