use vstd::prelude::*;

use crate::error::ErrorKind;
use crate::error::FetchError;

verus! {

/// One database row, mapped to a plain record. All three fields are
/// present, non-null text; a row for which one of them could not be
/// read never becomes a record. The year is kept as text, exactly as
/// the column stores it.
#[derive(Debug)]
pub struct VehicleRecord {
    pub manufacturing_year: String,
    pub make: String,
    pub model: String,
}

/// The mathematical content of a record: the three column texts.
pub struct RecordModel {
    pub manufacturing_year: Seq<char>,
    pub make: Seq<char>,
    pub model: Seq<char>,
}

impl View for VehicleRecord {
    type V = RecordModel;

    open spec fn view(&self) -> RecordModel {
        RecordModel {
            manufacturing_year: self.manufacturing_year@,
            make: self.make@,
            model: self.model@,
        }
    }
}

/// The three named text columns of one raw result-set row, each `None`
/// where the column was absent or its value could not be read as text.
#[derive(Debug)]
pub struct RowCells {
    pub manufacturing_year: Option<String>,
    pub make: Option<String>,
    pub model: Option<String>,
}

/// The mathematical content of a raw row.
pub struct CellsModel {
    pub manufacturing_year: Option<Seq<char>>,
    pub make: Option<Seq<char>>,
    pub model: Option<Seq<char>>,
}

impl View for RowCells {
    type V = CellsModel;

    open spec fn view(&self) -> CellsModel {
        CellsModel {
            manufacturing_year: match self.manufacturing_year {
                Some(s) => Some(s@),
                None => None,
            },
            make: match self.make {
                Some(s) => Some(s@),
                None => None,
            },
            model: match self.model {
                Some(s) => Some(s@),
                None => None,
            },
        }
    }
}

/// A raw row is complete when all three named columns hold text.
pub open spec fn row_complete(c: CellsModel) -> bool {
    &&& c.manufacturing_year is Some
    &&& c.make is Some
    &&& c.model is Some
}

/// The record a complete raw row maps to.
pub open spec fn record_of_cells(c: CellsModel) -> RecordModel
    recommends
        row_complete(c),
{
    RecordModel {
        manufacturing_year: c.manufacturing_year.unwrap(),
        make: c.make.unwrap(),
        model: c.model.unwrap(),
    }
}

/// Every row of the sequence is complete.
pub open spec fn rows_complete(rows: Seq<CellsModel>) -> bool {
    forall|i: int| 0 <= i < rows.len() ==> row_complete(#[trigger] rows[i])
}

/// The views of a sequence of raw rows.
pub open spec fn cells_models(rows: Seq<RowCells>) -> Seq<CellsModel> {
    rows.map_values(|c: RowCells| c@)
}

/// Maps one raw row to a record, or reports which column is missing.
/// A missing or unreadable column is a data-shape failure, never a
/// partial record.
pub fn record_from_row(row: &RowCells) -> (r: Result<VehicleRecord, FetchError>)
    ensures
        r is Ok <==> row_complete(row@),
        r matches Ok(rec) ==> rec@ == record_of_cells(row@),
        r matches Err(e) ==> e.kind == ErrorKind::DataShape,
{
    let manufacturing_year = match &row.manufacturing_year {
        Some(s) => String::from_str(s.as_str()),
        None => {
            return Err(FetchError::new(
                ErrorKind::DataShape,
                String::from_str("row is missing the Manufacturing_Year column"),
            ));
        },
    };
    let make = match &row.make {
        Some(s) => String::from_str(s.as_str()),
        None => {
            return Err(FetchError::new(
                ErrorKind::DataShape,
                String::from_str("row is missing the Make column"),
            ));
        },
    };
    let model = match &row.model {
        Some(s) => String::from_str(s.as_str()),
        None => {
            return Err(FetchError::new(
                ErrorKind::DataShape,
                String::from_str("row is missing the Model column"),
            ));
        },
    };
    Ok(VehicleRecord { manufacturing_year, make, model })
}

/// Maps a whole result set to records, in result-set order, all or
/// nothing: one incomplete row fails the entire fetch with a data-shape
/// error, and no partial list is returned.
pub fn records_from_rows(rows: &Vec<RowCells>) -> (r: Result<Vec<VehicleRecord>, FetchError>)
    ensures
        r is Ok <==> rows_complete(cells_models(rows@)),
        r matches Ok(recs) ==> {
            &&& recs@.len() == rows@.len()
            &&& forall|i: int|
                0 <= i < rows@.len() ==> (#[trigger] recs@[i])@ == record_of_cells(rows@[i]@)
        },
        r matches Err(e) ==> e.kind == ErrorKind::DataShape,
{
    let mut recs: Vec<VehicleRecord> = Vec::new();
    let n = rows.len();
    for i in 0..n
        invariant
            n == rows@.len(),
            recs@.len() == i,
            forall|j: int| 0 <= j < i ==> row_complete(#[trigger] cells_models(rows@)[j]),
            forall|j: int| 0 <= j < i ==> (#[trigger] recs@[j])@ == record_of_cells(rows@[j]@),
    {
        match record_from_row(&rows[i]) {
            Ok(rec) => {
                recs.push(rec);
            },
            Err(e) => {
                assert(!row_complete(cells_models(rows@)[i as int]));
                return Err(e);
            },
        }
    }
    Ok(recs)
}

} // verus!
