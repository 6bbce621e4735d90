//! An object-relational mapping core: typed application objects gain
//! persistent identity inside a relational store. The transaction engine
//! keeps an identity map of every object created or fetched within one
//! transaction, tracks each object's dirty state, and on commit flushes
//! exactly the objects that changed.

pub mod backend;
pub mod data;
pub mod error;
pub mod object;
pub mod storage;
pub mod record;
pub mod text;
pub mod transaction;

pub use data::{DataType, Datum, DatumV, ObjectId, Row, SqlDyn};
pub use error::OrmError;
pub use object::{Object, Schema, SchemaV};
pub use record::{Record, Sample, Stamp};
pub use transaction::{ObjectState, Transaction, Tx, WriteOp};
