//! A small fetch-and-present pipeline over a vehicles table: load a
//! connection string from the environment, drive one connect-query-read
//! cycle against the database, map each row's three named text columns
//! into a record, and present the list as text lines or as a JSON body.
//! The decisions of the cycle, the row mapping and both presenters are
//! verified; the surrounding program performs only the I/O it is told to.

use vstd::prelude::*;

mod error;
mod pipeline;
mod present;
mod record;

pub use error::ErrorKind;
pub use error::FetchError;
pub use record::CellsModel;
pub use record::RecordModel;
pub use record::RowCells;
pub use record::VehicleRecord;
pub use record::record_from_row;
pub use record::records_from_rows;
pub use present::format_line;
pub use present::json_body;
pub use present::lemma_empty_result_set;
pub use present::lemma_presenters_agree;
pub use present::present;
pub use present::PresenterKind;
pub use present::text_lines;
pub use present::text_output;
pub use pipeline::FetchAction;
pub use pipeline::FetchEvent;
pub use pipeline::FetchState;
pub use pipeline::query_sql;
pub use pipeline::step;
