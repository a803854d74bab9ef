use vstd::prelude::*;
use vstd::string::StringSliceAdditionalSpecFns;
use crate::binder::BoundParameter;
use crate::codec::{decoded, spec_decode};
use crate::cursor::{rows_view, ResultCursor};
use crate::error::SpiError;
use crate::row::{ColumnKey, ColumnView, Row};
use crate::sql::{placeholder_count, spec_placeholder_count};
use crate::tag::TypeTag;
use crate::value::{NativeValue, Value};

verus! {

/// What the host answers to a submitted statement: the rows it yields, in
/// its order, or the message of its failure.
pub type HostOutcome = Result<Vec<Row>, String>;

/// The mathematical reading of a [`HostOutcome`].
pub open spec fn host_view(host: HostOutcome) -> Result<Seq<Seq<ColumnView>>, String> {
    match host {
        Ok(rows) => Ok(rows_view(rows@)),
        Err(message) => Err(message),
    }
}

/// How many parameters a statement is submitted with; none where the list is
/// absent.
pub open spec fn parameter_count(parameters: Option<&Vec<BoundParameter>>) -> nat {
    match parameters {
        Some(list) => list@.len(),
        None => 0,
    }
}

/// Whether a session takes a statement at all, before the host sees it.
///
/// A closed session takes none. An open one takes the statement exactly when
/// it is submitted with as many parameters as its text has placeholders; an
/// absent list counts as none.
pub open spec fn admission(open: bool, sql: Seq<u8>, parameters: nat) -> Result<(), SpiError> {
    if !open {
        Err(SpiError::UseAfterClose)
    } else if spec_placeholder_count(sql) != parameters {
        Err(SpiError::ParameterCountMismatch)
    } else {
        Ok(())
    }
}

/// The rows a row limit lets through: the first `limit` of them; all of them
/// where the limit is absent or zero.
pub open spec fn limited<T>(rows: Seq<T>, row_limit: Option<u64>) -> Seq<T> {
    match row_limit {
        Some(limit) => if 0 < limit < rows.len() {
            rows.take(limit as int)
        } else {
            rows
        },
        None => rows,
    }
}

/// What executing a statement comes to, given what the host answered.
pub open spec fn spec_execute(
    open: bool,
    sql: Seq<u8>,
    parameters: nat,
    row_limit: Option<u64>,
    host: Result<Seq<Seq<ColumnView>>, String>,
) -> Result<Seq<Seq<ColumnView>>, SpiError> {
    match admission(open, sql, parameters) {
        Err(e) => Err(e),
        Ok(_) => match host {
            Err(message) => Err(SpiError::ExecutionError(message)),
            Ok(rows) => Ok(limited(rows, row_limit)),
        },
    }
}

/// The first cell of the first row of an executed statement, read as the
/// type `requested`; the absent value where there is no row.
pub open spec fn spec_get_one(
    executed: Result<Seq<Seq<ColumnView>>, SpiError>,
    requested: TypeTag,
) -> Result<Option<Value>, SpiError> {
    match executed {
        Err(e) => Err(e),
        Ok(rows) => if rows.len() == 0 {
            Ok(None)
        } else if rows[0].len() < 1 {
            Err(SpiError::TooManyColumns)
        } else {
            spec_decode(rows[0][0].cell, requested)
        },
    }
}

/// The first two cells of the first row of an executed statement, each read
/// as its own requested type; two absent values where there is no row.
pub open spec fn spec_get_two(
    executed: Result<Seq<Seq<ColumnView>>, SpiError>,
    first: TypeTag,
    second: TypeTag,
) -> Result<(Option<Value>, Option<Value>), SpiError> {
    match executed {
        Err(e) => Err(e),
        Ok(rows) => if rows.len() == 0 {
            Ok((None, None))
        } else if rows[0].len() < 2 {
            Err(SpiError::TooManyColumns)
        } else {
            match spec_decode(rows[0][0].cell, first) {
                Err(e) => Err(e),
                Ok(a) => match spec_decode(rows[0][1].cell, second) {
                    Err(e) => Err(e),
                    Ok(b) => Ok((a, b)),
                },
            }
        },
    }
}

/// The mathematical reading of what [`QuerySession::execute`] returns: the
/// rows the cursor stands before.
pub open spec fn executed(outcome: Result<ResultCursor, SpiError>) -> Result<
    Seq<Seq<ColumnView>>,
    SpiError,
> {
    match outcome {
        Ok(cursor) => Ok(cursor@),
        Err(e) => Err(e),
    }
}

/// The mathematical reading of what [`QuerySession::get_two`] returns.
pub open spec fn decoded_pair(
    outcome: Result<(Option<NativeValue>, Option<NativeValue>), SpiError>,
) -> Result<(Option<Value>, Option<Value>), SpiError> {
    match outcome {
        Ok((a, b)) => Ok(
            (
                match a {
                    Some(v) => Some(v@),
                    None => None,
                },
                match b {
                    Some(v) => Some(v@),
                    None => None,
                },
            ),
        ),
        Err(e) => Err(e),
    }
}

/// A statement as it goes to the host executor.
#[derive(Debug, PartialEq, Eq)]
pub struct HostRequest<'a> {
    /// The SQL text.
    pub sql: &'a str,
    /// The bound parameters in placeholder order, where the caller gave a
    /// list.
    pub parameters: Option<&'a Vec<BoundParameter>>,
    /// The most rows the host is to return; 0 for no limit.
    pub row_limit: u64,
}

/// A connection to the host executor, open from the moment the host is
/// entered until the session is closed.
///
/// Only an open session takes statements, and only while it is open can the
/// cursors it made be read.
#[derive(Debug)]
pub struct QuerySession {
    open: bool,
}

impl QuerySession {
    /// Whether the session is open.
    pub closed spec fn spec_is_open(&self) -> bool {
        self.open
    }

    /// Opens a session, given whether the host executor could be entered.
    ///
    /// Fails with `ConnectionError` exactly when it could not.
    pub fn open(entered: bool) -> (outcome: Result<QuerySession, SpiError>)
        ensures
            match outcome {
                Ok(session) => entered && session.is_open(),
                Err(e) => !entered && e == SpiError::ConnectionError,
            },
    {
        if entered {
            Ok(QuerySession { open: true })
        } else {
            Err(SpiError::ConnectionError)
        }
    }

    /// Whether the session is open.
    #[verifier::when_used_as_spec(spec_is_open)]
    pub fn is_open(&self) -> (open: bool)
        ensures
            open == self.spec_is_open(),
    {
        self.open
    }

    /// Closes the session. Closing a closed session changes nothing.
    pub fn close(&mut self)
        ensures
            !final(self).is_open(),
    {
        self.open = false;
    }

    /// Checks a statement before it goes to the host.
    fn screen(&self, sql: &str, parameters: Option<&Vec<BoundParameter>>) -> (outcome: Result<
        (),
        SpiError,
    >)
        ensures
            outcome == admission(self.is_open(), sql.spec_bytes(), parameter_count(parameters)),
    {
        if !self.open {
            return Err(SpiError::UseAfterClose);
        }
        let supplied = match parameters {
            Some(list) => list.len(),
            None => 0,
        };
        match placeholder_count(sql) {
            Some(asked) => if asked == supplied {
                Ok(())
            } else {
                Err(SpiError::ParameterCountMismatch)
            },
            None => Err(SpiError::ParameterCountMismatch),
        }
    }

    /// Makes the request that submits a statement to the host.
    ///
    /// Fails, before the host sees anything, with `UseAfterClose` on a closed
    /// session and with `ParameterCountMismatch` when the number of
    /// parameters differs from the number of placeholders in `sql`. An absent
    /// row limit goes to the host as 0, its word for no limit.
    pub fn prepare<'a>(
        &self,
        sql: &'a str,
        parameters: Option<&'a Vec<BoundParameter>>,
        row_limit: Option<u64>,
    ) -> (outcome: Result<HostRequest<'a>, SpiError>)
        ensures
            match outcome {
                Ok(request) => {
                    &&& admission(self.is_open(), sql.spec_bytes(), parameter_count(parameters))
                        is Ok
                    &&& request.sql == sql
                    &&& request.parameters == parameters
                    &&& request.row_limit == match row_limit {
                        Some(limit) => limit,
                        None => 0,
                    }
                },
                Err(e) => admission(self.is_open(), sql.spec_bytes(), parameter_count(parameters))
                    == Err::<(), SpiError>(e),
            },
    {
        match self.screen(sql, parameters) {
            Ok(_) => Ok(
                HostRequest {
                    sql,
                    parameters,
                    row_limit: match row_limit {
                        Some(limit) => limit,
                        None => 0,
                    },
                },
            ),
            Err(e) => Err(e),
        }
    }

    /// Executes a statement, given the host's answer to it, and returns a
    /// cursor over the rows.
    ///
    /// Fails with `UseAfterClose` on a closed session and with
    /// `ParameterCountMismatch` when the number of parameters differs from
    /// the number of placeholders in `sql`; in both cases the host's answer
    /// is not looked at. Otherwise a failure of the host comes back as
    /// `ExecutionError` with the host's message, and its rows come back in
    /// its order, cut to the row limit where one above zero is given.
    ///
    /// No number of rows is expected here: a statement may return none or
    /// many. Where one is expected, [`ResultCursor::first_row`] and
    /// [`ResultCursor::only_row`] say so.
    pub fn execute(
        &self,
        sql: &str,
        parameters: Option<&Vec<BoundParameter>>,
        row_limit: Option<u64>,
        host: HostOutcome,
    ) -> (outcome: Result<ResultCursor, SpiError>)
        ensures
            executed(outcome) == spec_execute(
                self.is_open(),
                sql.spec_bytes(),
                parameter_count(parameters),
                row_limit,
                host_view(host),
            ),
    {
        match self.screen(sql, parameters) {
            Err(e) => Err(e),
            Ok(_) => match host {
                Err(message) => Err(SpiError::ExecutionError(message)),
                Ok(rows) => {
                    let ghost all = rows@;
                    let mut rows = rows;
                    match row_limit {
                        Some(limit) => {
                            if 0 < limit && limit < rows.len() as u64 {
                                rows.truncate(limit as usize);
                            }
                        },
                        None => {},
                    }
                    assert(rows_view(rows@) =~= limited(rows_view(all), row_limit));
                    Ok(ResultCursor::over(rows))
                },
            },
        }
    }

    /// Executes a statement and reads the first cell of its first row as the
    /// type `requested`.
    ///
    /// Gives the absent value when the statement returned no row or the cell
    /// is null. Fails as [`QuerySession::execute`] does, with
    /// `TooManyColumns` when the first row has no column, and with
    /// `TypeMismatch` when the cell holds a value of another type.
    pub fn get_one(
        &self,
        sql: &str,
        parameters: Option<&Vec<BoundParameter>>,
        requested: TypeTag,
        host: HostOutcome,
    ) -> (outcome: Result<Option<NativeValue>, SpiError>)
        ensures
            decoded(outcome) == spec_get_one(
                spec_execute(
                    self.is_open(),
                    sql.spec_bytes(),
                    parameter_count(parameters),
                    Some(1),
                    host_view(host),
                ),
                requested,
            ),
    {
        let cursor = match self.execute(sql, parameters, Some(1), host) {
            Ok(cursor) => cursor,
            Err(e) => {
                return Err(e);
            },
        };
        match cursor.first_row(self) {
            Err(_) => Ok(None),
            Ok(row) => {
                if row.len() < 1 {
                    Err(SpiError::TooManyColumns)
                } else {
                    let key = ColumnKey::Ordinal(1);
                    row.get(&key, requested)
                }
            },
        }
    }

    /// Executes a statement and reads the first two cells of its first row,
    /// each as its own requested type and each null or not on its own.
    ///
    /// Gives two absent values when the statement returned no row. Fails as
    /// [`QuerySession::execute`] does, with `TooManyColumns` when the first
    /// row has fewer than two columns, and with `TypeMismatch` when a cell
    /// holds a value of another type than requested for it.
    pub fn get_two(
        &self,
        sql: &str,
        parameters: Option<&Vec<BoundParameter>>,
        first: TypeTag,
        second: TypeTag,
        host: HostOutcome,
    ) -> (outcome: Result<(Option<NativeValue>, Option<NativeValue>), SpiError>)
        ensures
            decoded_pair(outcome) == spec_get_two(
                spec_execute(
                    self.is_open(),
                    sql.spec_bytes(),
                    parameter_count(parameters),
                    Some(1),
                    host_view(host),
                ),
                first,
                second,
            ),
    {
        let cursor = match self.execute(sql, parameters, Some(1), host) {
            Ok(cursor) => cursor,
            Err(e) => {
                return Err(e);
            },
        };
        match cursor.first_row(self) {
            Err(_) => Ok((None, None)),
            Ok(row) => {
                if row.len() < 2 {
                    Err(SpiError::TooManyColumns)
                } else {
                    let one = ColumnKey::Ordinal(1);
                    let two = ColumnKey::Ordinal(2);
                    let a = match row.get(&one, first) {
                        Ok(a) => a,
                        Err(e) => {
                            return Err(e);
                        },
                    };
                    let b = match row.get(&two, second) {
                        Ok(b) => b,
                        Err(e) => {
                            return Err(e);
                        },
                    };
                    Ok((a, b))
                }
            },
        }
    }
}

/// Runs a unit of work inside a session of its own.
///
/// Given whether the host executor could be entered: where it could not, the
/// work is not run and the outcome is `ConnectionError`. Where it could, the
/// work gets an open session and its outcome, success or failure, is the
/// outcome of `connect`. The session is closed before `connect` returns,
/// whatever the work returned.
pub fn connect<R, F: FnOnce(&QuerySession) -> Result<R, SpiError>>(entered: bool, body: F) -> (outcome:
    Result<R, SpiError>)
    requires
        forall|session: &QuerySession|
            session.is_open() ==> #[trigger] call_requires(body, (session,)),
    ensures
        !entered ==> outcome == Err::<R, SpiError>(SpiError::ConnectionError),
        entered ==> exists|session: &QuerySession|
            session.is_open() && #[trigger] call_ensures(body, (session,), outcome),
{
    let mut session = match QuerySession::open(entered) {
        Ok(session) => session,
        Err(e) => {
            return Err(e);
        },
    };
    let ghost live = session;
    let outcome = body(&session);
    session.close();
    assert(live.is_open() && call_ensures(body, (&live,), outcome));
    outcome
}

/// A statement submitted with as many parameters as it has placeholders, on
/// an open session, succeeds or fails with the host's own failure and with
/// nothing else.
pub proof fn law_matching_counts_reach_the_host(
    sql: Seq<u8>,
    parameters: nat,
    row_limit: Option<u64>,
    host: Result<Seq<Seq<ColumnView>>, String>,
)
    requires
        spec_placeholder_count(sql) == parameters,
    ensures
        match spec_execute(true, sql, parameters, row_limit, host) {
            Ok(rows) => host is Ok && rows == limited(host->Ok_0, row_limit),
            Err(e) => host is Err && e == SpiError::ExecutionError(host->Err_0),
        },
{
}

/// A statement that ran and returned no row gives the absent value, never a
/// failure.
pub proof fn law_get_one_of_no_rows(
    sql: Seq<u8>,
    parameters: nat,
    requested: TypeTag,
)
    requires
        spec_placeholder_count(sql) == parameters,
    ensures
        spec_get_one(
            spec_execute(true, sql, parameters, Some(1), Ok(Seq::empty())),
            requested,
        ) == Ok::<Option<Value>, SpiError>(None),
{
}

/// A row limit never lets through more rows than it says, never reorders
/// them, and lets all through where it is absent or zero.
pub proof fn law_row_limit<T>(rows: Seq<T>, row_limit: Option<u64>)
    ensures
        limited(rows, row_limit).len() <= rows.len(),
        limited(rows, row_limit) == rows.take(limited(rows, row_limit).len() as int),
        row_limit matches Some(limit) ==> limit == 0 || limited(rows, row_limit).len() <= limit,
        row_limit is None || row_limit == Some(0u64) ==> limited(rows, row_limit) == rows,
{
    assert(rows.take(rows.len() as int) =~= rows);
}

} // verus!
