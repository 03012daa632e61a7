use vstd::prelude::*;

use crate::error::ErrorKind;
use crate::error::FetchError;
use crate::record::RowCells;
use crate::record::VehicleRecord;
use crate::record::cells_models;
use crate::record::record_of_cells;
use crate::record::rows_complete;
use crate::record::records_from_rows;

verus! {

#[verifier::external_type_specification]
#[verifier::external_body]
pub struct ExTiberiusConfig(tiberius::Config);

/// Whether a text is a well-formed ADO-style connection string, exactly
/// as the client library's parser accepts it.
pub uninterp spec fn ado_parses(s: Seq<char>) -> bool;

/// Relies on tiberius::Config::from_ado_string: parses an ADO-style
/// connection string into a client configuration, performing no I/O;
/// whether the string parses depends on the string alone.
#[verifier::external_body]
fn parse_ado_string(s: &str) -> (r: Result<tiberius::Config, String>)
    ensures
        r is Ok <==> ado_parses(s@),
{
    match tiberius::Config::from_ado_string(s) {
        Ok(config) => Ok(config),
        Err(e) => Err(format!("{}", e)),
    }
}

/// Where one fetch-and-present cycle stands. The pipeline is linear:
/// configuration, connection, query, presentation; every failure is
/// terminal for the cycle.
pub enum FetchState {
    Start,
    ConfigLoaded,
    Connected,
    Done { records: Vec<VehicleRecord> },
    Failed { error: FetchError },
}

/// What the surrounding program observed while carrying out the last
/// action: the environment variable's value, or the outcome of the
/// connect or query it performed.
pub enum FetchEvent {
    EnvRead { value: Option<String> },
    ConnectOutcome { result: Result<(), String> },
    QueryOutcome { fetched: Result<Vec<RowCells>, String> },
}

/// What the surrounding program is to do next. `Connect` carries the
/// parsed client configuration; `Report` ends the cycle with the error
/// held by the state.
pub enum FetchAction {
    ReadEnv,
    Connect { config: tiberius::Config },
    RunQuery,
    Present,
    Report,
}

/// The connection string is absent or empty: an unrecoverable
/// configuration error.
pub open spec fn env_value_missing(value: Option<String>) -> bool {
    value is None || value.unwrap()@.len() == 0
}

/// The event that belongs to each state: the pipeline is driven in
/// order, one event per step.
pub open spec fn event_fits(state: FetchState, event: FetchEvent) -> bool {
    match state {
        FetchState::Start => event is EnvRead,
        FetchState::ConfigLoaded => event is ConnectOutcome,
        FetchState::Connected => event is QueryOutcome,
        FetchState::Done { .. } => false,
        FetchState::Failed { .. } => false,
    }
}

/// One decision of the fetch pipeline: from the current state and the
/// observed event to the next state and the next action. All rules of
/// the cycle stand here; the surrounding program only performs I/O.
///
/// A missing or empty connection string fails the cycle before any
/// connect action is issued; a connection string the client library
/// does not accept, and every failure to reach or log into the host,
/// is a connection error; a failure of the statement itself is a query
/// error; and a row without the three named text columns is a
/// data-shape error. No failure is retried and no partial result is
/// kept.
pub fn step(state: FetchState, event: FetchEvent) -> (r: (FetchState, FetchAction))
    requires
        event_fits(state, event),
    ensures
        state is Start ==> (event matches FetchEvent::EnvRead { value } ==> {
            &&& env_value_missing(value) ==> {
                &&& r.0 matches FetchState::Failed { error }
                    && error.kind == ErrorKind::Config
                    && error.message@ == "CONNECTION_STRING is not set"@
                &&& r.1 is Report
            }
            &&& !env_value_missing(value) && ado_parses(value.unwrap()@) ==> {
                &&& r.0 is ConfigLoaded
                &&& r.1 is Connect
            }
            &&& !env_value_missing(value) && !ado_parses(value.unwrap()@) ==> {
                &&& r.0 matches FetchState::Failed { error }
                    && error.kind == ErrorKind::Connection
                &&& r.1 is Report
            }
        }),
        state is ConfigLoaded ==> (event matches FetchEvent::ConnectOutcome { result } ==> {
            &&& result is Ok ==> r.0 is Connected && r.1 is RunQuery
            &&& (result matches Err(m) ==> {
                &&& r.0 matches FetchState::Failed { error }
                    && error.kind == ErrorKind::Connection
                    && error.message@ == m@
                &&& r.1 is Report
            })
        }),
        state is Connected ==> (event matches FetchEvent::QueryOutcome { fetched: result } ==> {
            &&& (result matches Ok(rows) ==> {
                &&& rows_complete(cells_models(rows@)) ==> {
                    &&& r.0 matches FetchState::Done { records }
                        && records@.len() == rows@.len()
                        && (forall|i: int|
                            0 <= i < rows@.len() ==> (#[trigger] records@[i])@
                                == record_of_cells(rows@[i]@))
                    &&& r.1 is Present
                }
                &&& !rows_complete(cells_models(rows@)) ==> {
                    &&& r.0 matches FetchState::Failed { error }
                        && error.kind == ErrorKind::DataShape
                    &&& r.1 is Report
                }
            })
            &&& (result matches Err(m) ==> {
                &&& r.0 matches FetchState::Failed { error }
                    && error.kind == ErrorKind::Query
                    && error.message@ == m@
                &&& r.1 is Report
            })
        }),
{
    match (state, event) {
        (FetchState::Start, FetchEvent::EnvRead { value }) => {
            match value {
                None => (
                    FetchState::Failed {
                        error: FetchError::new(
                            ErrorKind::Config,
                            String::from_str("CONNECTION_STRING is not set"),
                        ),
                    },
                    FetchAction::Report,
                ),
                Some(s) => {
                    if s.as_str().unicode_len() == 0 {
                        (
                            FetchState::Failed {
                                error: FetchError::new(
                                    ErrorKind::Config,
                                    String::from_str("CONNECTION_STRING is not set"),
                                ),
                            },
                            FetchAction::Report,
                        )
                    } else {
                        match parse_ado_string(s.as_str()) {
                            Ok(config) => (FetchState::ConfigLoaded, FetchAction::Connect {
                                config,
                            }),
                            Err(m) => (
                                FetchState::Failed {
                                    error: FetchError::new(ErrorKind::Connection, m),
                                },
                                FetchAction::Report,
                            ),
                        }
                    }
                },
            }
        },
        (FetchState::ConfigLoaded, FetchEvent::ConnectOutcome { result }) => {
            match result {
                Ok(()) => (FetchState::Connected, FetchAction::RunQuery),
                Err(m) => (
                    FetchState::Failed { error: FetchError::new(ErrorKind::Connection, m) },
                    FetchAction::Report,
                ),
            }
        },
        (FetchState::Connected, FetchEvent::QueryOutcome { fetched: result }) => {
            match result {
                Ok(rows) => {
                    match records_from_rows(&rows) {
                        Ok(records) => (FetchState::Done { records }, FetchAction::Present),
                        Err(error) => (FetchState::Failed { error }, FetchAction::Report),
                    }
                },
                Err(m) => (
                    FetchState::Failed { error: FetchError::new(ErrorKind::Query, m) },
                    FetchAction::Report,
                ),
            }
        },
        _ => {
            proof {
                assert(false);
            }
            (FetchState::Start, FetchAction::ReadEnv)
        },
    }
}

/// The one fixed SQL statement of the fetch: the three named text
/// columns of the vehicles table, selected as they stand, with no
/// client-side sorting or filtering. The plain select is this
/// library's one settled query convention.
pub fn query_sql() -> (s: &'static str)
    ensures
        s@ == "SELECT Manufacturing_Year, Make, Model FROM vehicles"@,
{
    "SELECT Manufacturing_Year, Make, Model FROM vehicles"
}

} // verus!
