use vstd::prelude::*;
use vstd::string::StringExecFns;
use vstd::utf8::encode_utf8;
use crate::binder::{argument_view, bind, bindable, Argument, BoundParameter};
use crate::error::SpiError;
use crate::row::{spec_get, ColumnKey, ColumnView, Key, Row};
use crate::session::{
    host_view, spec_execute, spec_get_one, spec_get_two, HostOutcome, QuerySession,
};
use crate::tag::TypeTag;
use crate::value::{NativeValue, Value};

verus! {

/// The major version of the host engine; it decides the wording of the class
/// listing.
#[derive(Clone, Copy, Debug, PartialEq, Eq, Structural)]
pub enum HostVersion {
    Pg10,
    Pg11,
    Pg12,
    Pg13,
    Pg14,
}

/// A statement ready to be bound and submitted: its text, its arguments in
/// placeholder order where it has a list, and its row limit.
#[derive(Debug, PartialEq, Eq)]
pub struct Statement {
    pub sql: String,
    pub arguments: Option<Vec<Argument>>,
    pub row_limit: Option<u64>,
}

/// The text of the class listing for a host version: every class with its
/// object identifier and its name, the name marked with the version.
pub open spec fn return_query_text(version: HostVersion) -> Seq<char> {
    match version {
        HostVersion::Pg10 => "SELECT oid, relname::text || '-pg10' FROM pg_class"@,
        HostVersion::Pg11 => "SELECT oid, relname::text || '-pg11' FROM pg_class"@,
        HostVersion::Pg12 => "SELECT oid, relname::text || '-pg12' FROM pg_class"@,
        HostVersion::Pg13 => "SELECT oid, relname::text || '-pg13' FROM pg_class"@,
        HostVersion::Pg14 => "SELECT oid, relname::text || '-pg14' FROM pg_class"@,
    }
}

/// The text that picks the identifier of one title at random.
pub open spec fn random_id_text() -> Seq<char> {
    "SELECT id FROM spi.spi_example ORDER BY random() LIMIT 1"@
}

/// The text that looks an identifier up by its title.
pub open spec fn title_query_text() -> Seq<char> {
    "SELECT id FROM spi.spi_example WHERE title = $1;"@
}

/// The text that looks a title up by its identifier.
pub open spec fn by_id_text() -> Seq<char> {
    "SELECT id, title FROM spi.spi_example WHERE id = $1"@
}

/// The text that stores a title and returns its new identifier.
pub open spec fn insert_title_text() -> Seq<char> {
    "INSERT INTO spi.spi_example(title) VALUES ($1) RETURNING id"@
}

/// The text that stores a title and returns its new identifier with it.
pub open spec fn insert_title2_text() -> Seq<char> {
    "INSERT INTO spi.spi_example(title) VALUES ($1) RETURNING id, title"@
}

/// The mathematical reading of an optional list of arguments.
pub open spec fn arguments_view(arguments: Option<Vec<Argument>>) -> Option<
    Seq<(TypeTag, Option<Value>)>,
> {
    match arguments {
        Some(list) => Some(list@.map_values(|a: Argument| argument_view(a))),
        None => None,
    }
}

/// An optional identifier as a value of the codec.
pub open spec fn int8_view(id: Option<i64>) -> Option<Value> {
    match id {
        Some(x) => Some(Value::Int8(x)),
        None => None,
    }
}

/// An optional object identifier as a value of the codec.
pub open spec fn oid_view(oid: Option<u32>) -> Option<Value> {
    match oid {
        Some(x) => Some(Value::Oid(x)),
        None => None,
    }
}

/// An optional text as a value of the codec.
pub open spec fn text_view(text: Option<String>) -> Option<Value> {
    match text {
        Some(s) => Some(Value::Text(s@)),
        None => None,
    }
}

/// A text argument for one placeholder.
fn text_argument(text: &str) -> (argument: Argument)
    ensures
        argument_view(argument) == (TypeTag::Text, Some(Value::Text(text@))),
{
    (TypeTag::Text, Some(NativeValue::Text(String::from_str(text))))
}

/// A statement of the given text with one argument and a row limit.
fn with_one_argument(sql: &str, argument: Argument, row_limit: Option<u64>) -> (statement:
    Statement)
    ensures
        statement.sql@ == sql@,
        arguments_view(statement.arguments) == Some(seq![argument_view(argument)]),
        statement.row_limit == row_limit,
{
    let mut arguments: Vec<Argument> = Vec::new();
    arguments.push(argument);
    assert(arguments@.map_values(|a: Argument| argument_view(a)) =~= seq![
        argument_view(argument),
    ]);
    Statement { sql: String::from_str(sql), arguments: Some(arguments), row_limit }
}

/// The class listing for the host version given: no arguments, no row
/// limit.
pub fn return_query_statement(version: HostVersion) -> (statement: Statement)
    ensures
        statement.sql@ == return_query_text(version),
        statement.arguments is None,
        statement.row_limit is None,
{
    let sql = match version {
        HostVersion::Pg10 => "SELECT oid, relname::text || '-pg10' FROM pg_class",
        HostVersion::Pg11 => "SELECT oid, relname::text || '-pg11' FROM pg_class",
        HostVersion::Pg12 => "SELECT oid, relname::text || '-pg12' FROM pg_class",
        HostVersion::Pg13 => "SELECT oid, relname::text || '-pg13' FROM pg_class",
        HostVersion::Pg14 => "SELECT oid, relname::text || '-pg14' FROM pg_class",
    };
    Statement { sql: String::from_str(sql), arguments: None, row_limit: None }
}

/// The statement that picks the identifier of one title at random: no
/// arguments, one row.
pub fn random_id_statement() -> (statement: Statement)
    ensures
        statement.sql@ == random_id_text(),
        statement.arguments is None,
        statement.row_limit == Some(1u64),
{
    Statement {
        sql: String::from_str("SELECT id FROM spi.spi_example ORDER BY random() LIMIT 1"),
        arguments: None,
        row_limit: Some(1),
    }
}

/// The statement that looks an identifier up by its title: the title as the
/// one text argument, one row.
pub fn title_query_statement(title: &str) -> (statement: Statement)
    ensures
        statement.sql@ == title_query_text(),
        arguments_view(statement.arguments) == Some(
            seq![(TypeTag::Text, Some(Value::Text(title@)))],
        ),
        statement.row_limit == Some(1u64),
{
    with_one_argument(
        "SELECT id FROM spi.spi_example WHERE title = $1;",
        text_argument(title),
        Some(1),
    )
}

/// The statement that looks a title up by its identifier: the identifier as
/// the one eight-byte integer argument, no row limit.
pub fn by_id_statement(id: i64) -> (statement: Statement)
    ensures
        statement.sql@ == by_id_text(),
        arguments_view(statement.arguments) == Some(seq![(TypeTag::Int8, Some(Value::Int8(id)))]),
        statement.row_limit is None,
{
    with_one_argument(
        "SELECT id, title FROM spi.spi_example WHERE id = $1",
        (TypeTag::Int8, Some(NativeValue::Int8(id))),
        None,
    )
}

/// The statement that stores a title and returns its new identifier: the
/// title as the one text argument, one row.
pub fn insert_title_statement(title: &str) -> (statement: Statement)
    ensures
        statement.sql@ == insert_title_text(),
        arguments_view(statement.arguments) == Some(
            seq![(TypeTag::Text, Some(Value::Text(title@)))],
        ),
        statement.row_limit == Some(1u64),
{
    with_one_argument(
        "INSERT INTO spi.spi_example(title) VALUES ($1) RETURNING id",
        text_argument(title),
        Some(1),
    )
}

/// The statement that stores a title and returns its new identifier with
/// it: the title as the one text argument, one row.
pub fn insert_title2_statement(title: &str) -> (statement: Statement)
    ensures
        statement.sql@ == insert_title2_text(),
        arguments_view(statement.arguments) == Some(
            seq![(TypeTag::Text, Some(Value::Text(title@)))],
        ),
        statement.row_limit == Some(1u64),
{
    with_one_argument(
        "INSERT INTO spi.spi_example(title) VALUES ($1) RETURNING id, title",
        text_argument(title),
        Some(1),
    )
}

/// Binds the one argument of a statement that cannot fail to bind.
fn bind_single(statement: &Statement) -> (bound: Vec<BoundParameter>)
    requires
        arguments_view(statement.arguments) matches Some(list) && list.len() == 1 && bindable(
            list[0].0,
            list[0].1,
        ),
    ensures
        bound@.len() == 1,
{
    let arguments = statement.arguments.as_ref().unwrap();
    assert(arguments@.map_values(|a: Argument| argument_view(a))[0] == argument_view(
        arguments@[0],
    ));
    let bound = bind(arguments).unwrap();
    assert(bound@.map_values(|p: BoundParameter| p@).len() == 1);
    bound
}

/// An identifier out of a value decoded as an eight-byte integer.
fn int8_of(value: Option<NativeValue>) -> (id: Option<i64>)
    requires
        value matches Some(v) ==> v@ is Int8,
    ensures
        int8_view(id) == match value {
            Some(v) => Some(v@),
            None => None,
        },
{
    match value {
        Some(NativeValue::Int8(x)) => Some(x),
        _ => None,
    }
}

/// An object identifier out of a value decoded as one.
fn oid_of(value: Option<NativeValue>) -> (oid: Option<u32>)
    requires
        value matches Some(v) ==> v@ is Oid,
    ensures
        oid_view(oid) == match value {
            Some(v) => Some(v@),
            None => None,
        },
{
    match value {
        Some(NativeValue::Oid(x)) => Some(x),
        _ => None,
    }
}

/// A text out of a value decoded as text.
fn text_of(value: Option<NativeValue>) -> (text: Option<String>)
    requires
        value matches Some(v) ==> v@ is Text,
    ensures
        text_view(text) == match value {
            Some(v) => Some(v@),
            None => None,
        },
{
    match value {
        Some(NativeValue::Text(s)) => Some(s),
        _ => None,
    }
}

/// The mathematical reading of an optional identifier or a failure.
pub open spec fn int8_outcome(outcome: Result<Option<i64>, SpiError>) -> Result<
    Option<Value>,
    SpiError,
> {
    match outcome {
        Ok(id) => Ok(int8_view(id)),
        Err(e) => Err(e),
    }
}

/// The mathematical reading of an identifier with its title, or a failure.
pub open spec fn titled_outcome(outcome: Result<(Option<i64>, Option<String>), SpiError>) -> Result<
    (Option<Value>, Option<Value>),
    SpiError,
> {
    match outcome {
        Ok((id, title)) => Ok((int8_view(id), text_view(title))),
        Err(e) => Err(e),
    }
}

/// Reads the answer to [`random_id_statement`]: the identifier of some
/// title, or nothing where the table is empty.
pub fn spi_query_random_id(session: &QuerySession, host: HostOutcome) -> (outcome: Result<
    Option<i64>,
    SpiError,
>)
    ensures
        int8_outcome(outcome) == spec_get_one(
            spec_execute(
                session.is_open(),
                encode_utf8(random_id_text()),
                0,
                Some(1),
                host_view(host),
            ),
            TypeTag::Int8,
        ),
{
    let statement = random_id_statement();
    match session.get_one(statement.sql.as_str(), None, TypeTag::Int8, host) {
        Ok(value) => Ok(int8_of(value)),
        Err(e) => Err(e),
    }
}

/// Reads the first cell of the answer to a statement with one argument as an
/// identifier.
fn single_id(session: &QuerySession, statement: &Statement, host: HostOutcome) -> (outcome: Result<
    Option<i64>,
    SpiError,
>)
    requires
        arguments_view(statement.arguments) matches Some(list) && list.len() == 1 && bindable(
            list[0].0,
            list[0].1,
        ),
    ensures
        int8_outcome(outcome) == spec_get_one(
            spec_execute(
                session.is_open(),
                encode_utf8(statement.sql@),
                1,
                Some(1),
                host_view(host),
            ),
            TypeTag::Int8,
        ),
{
    let bound = bind_single(statement);
    match session.get_one(statement.sql.as_str(), Some(&bound), TypeTag::Int8, host) {
        Ok(value) => Ok(int8_of(value)),
        Err(e) => Err(e),
    }
}

/// Reads the first two cells of the answer to a statement with one argument
/// as an identifier and its title.
fn single_titled(session: &QuerySession, statement: &Statement, host: HostOutcome) -> (outcome:
    Result<(Option<i64>, Option<String>), SpiError>)
    requires
        arguments_view(statement.arguments) matches Some(list) && list.len() == 1 && bindable(
            list[0].0,
            list[0].1,
        ),
    ensures
        titled_outcome(outcome) == spec_get_two(
            spec_execute(
                session.is_open(),
                encode_utf8(statement.sql@),
                1,
                Some(1),
                host_view(host),
            ),
            TypeTag::Int8,
            TypeTag::Text,
        ),
{
    let bound = bind_single(statement);
    match session.get_two(
        statement.sql.as_str(),
        Some(&bound),
        TypeTag::Int8,
        TypeTag::Text,
        host,
    ) {
        Ok((id, title)) => Ok((int8_of(id), text_of(title))),
        Err(e) => Err(e),
    }
}

/// Reads the answer to [`title_query_statement`]: the identifier stored
/// under the title, or nothing where no row bears it.
pub fn spi_query_title(session: &QuerySession, title: &str, host: HostOutcome) -> (outcome: Result<
    Option<i64>,
    SpiError,
>)
    ensures
        int8_outcome(outcome) == spec_get_one(
            spec_execute(
                session.is_open(),
                encode_utf8(title_query_text()),
                1,
                Some(1),
                host_view(host),
            ),
            TypeTag::Int8,
        ),
{
    let statement = title_query_statement(title);
    single_id(session, &statement, host)
}

/// Reads the answer to [`by_id_statement`]: the identifier found and the
/// title stored under it, each null or not on its own; two absent values
/// where no row has the identifier.
pub fn spi_query_by_id(session: &QuerySession, id: i64, host: HostOutcome) -> (outcome: Result<
    (Option<i64>, Option<String>),
    SpiError,
>)
    ensures
        titled_outcome(outcome) == spec_get_two(
            spec_execute(
                session.is_open(),
                encode_utf8(by_id_text()),
                1,
                Some(1),
                host_view(host),
            ),
            TypeTag::Int8,
            TypeTag::Text,
        ),
{
    let statement = by_id_statement(id);
    single_titled(session, &statement, host)
}

/// Reads the answer to [`insert_title_statement`]: the identifier the host
/// gave the new row.
pub fn spi_insert_title(session: &QuerySession, title: &str, host: HostOutcome) -> (outcome:
    Result<Option<i64>, SpiError>)
    ensures
        int8_outcome(outcome) == spec_get_one(
            spec_execute(
                session.is_open(),
                encode_utf8(insert_title_text()),
                1,
                Some(1),
                host_view(host),
            ),
            TypeTag::Int8,
        ),
{
    let statement = insert_title_statement(title);
    single_id(session, &statement, host)
}

/// Reads the answer to [`insert_title2_statement`]: a list of one entry, the
/// identifier the host gave the new row and the title as stored.
pub fn spi_insert_title2(session: &QuerySession, title: &str, host: HostOutcome) -> (outcome:
    Result<Vec<(Option<i64>, Option<String>)>, SpiError>)
    ensures
        match outcome {
            Ok(list) => list@.len() == 1 && titled_outcome(Ok(list@[0])) == spec_get_two(
                spec_execute(
                    session.is_open(),
                    encode_utf8(insert_title2_text()),
                    1,
                    Some(1),
                    host_view(host),
                ),
                TypeTag::Int8,
                TypeTag::Text,
            ),
            Err(e) => Err::<(Option<Value>, Option<Value>), SpiError>(e) == spec_get_two(
                spec_execute(
                    session.is_open(),
                    encode_utf8(insert_title2_text()),
                    1,
                    Some(1),
                    host_view(host),
                ),
                TypeTag::Int8,
                TypeTag::Text,
            ),
        },
{
    let statement = insert_title2_statement(title);
    match single_titled(session, &statement, host) {
        Ok(pair) => {
            let mut list: Vec<(Option<i64>, Option<String>)> = Vec::new();
            list.push(pair);
            Ok(list)
        },
        Err(e) => Err(e),
    }
}

/// What one row of the class listing reads as: the cell under the name
/// `oid` as an object identifier and the second cell as text.
pub open spec fn spec_class_row(row: Seq<ColumnView>) -> Result<
    (Option<Value>, Option<Value>),
    SpiError,
> {
    match spec_get(row, Key::Name("oid"@), TypeTag::Oid) {
        Err(e) => Err(e),
        Ok(oid) => match spec_get(row, Key::Ordinal(2), TypeTag::Text) {
            Err(e) => Err(e),
            Ok(name) => Ok((oid, name)),
        },
    }
}

/// The mathematical reading of one entry of the class listing.
pub open spec fn class_view(entry: (Option<u32>, Option<String>)) -> (
    Option<Value>,
    Option<Value>,
) {
    (oid_view(entry.0), text_view(entry.1))
}

/// Reads one row of the class listing.
fn class_row(row: &Row) -> (outcome: Result<(Option<u32>, Option<String>), SpiError>)
    ensures
        match outcome {
            Ok(entry) => spec_class_row(row@) == Ok::<(Option<Value>, Option<Value>), SpiError>(
                class_view(entry),
            ),
            Err(e) => spec_class_row(row@) == Err::<(Option<Value>, Option<Value>), SpiError>(e),
        },
{
    let by_name = ColumnKey::Name(String::from_str("oid"));
    let oid = match row.get(&by_name, TypeTag::Oid) {
        Ok(value) => oid_of(value),
        Err(e) => {
            return Err(e);
        },
    };
    let name = match row.get(&ColumnKey::Ordinal(2), TypeTag::Text) {
        Ok(value) => text_of(value),
        Err(e) => {
            return Err(e);
        },
    };
    Ok((oid, name))
}

/// Reads the answer to [`return_query_statement`]: for every class, in the
/// host's order, its object identifier and its marked name.
///
/// Fails as [`QuerySession::execute`] does; otherwise with the failure of
/// the first row that cannot be read, `NoSuchColumn` where it has no column
/// named `oid` or no second column and `TypeMismatch` where one of the two
/// holds a value of another type.
pub fn spi_return_query(session: &QuerySession, version: HostVersion, host: HostOutcome) -> (outcome:
    Result<Vec<(Option<u32>, Option<String>)>, SpiError>)
    ensures
        match spec_execute(
            session.is_open(),
            encode_utf8(return_query_text(version)),
            0,
            None,
            host_view(host),
        ) {
            Err(e) => outcome == Err::<Vec<(Option<u32>, Option<String>)>, SpiError>(e),
            Ok(rows) => match outcome {
                Ok(list) => {
                    &&& list@.len() == rows.len()
                    &&& forall|i: int|
                        0 <= i < rows.len() ==> spec_class_row(#[trigger] rows[i]) == Ok::<
                            (Option<Value>, Option<Value>),
                            SpiError,
                        >(class_view(list@[i]))
                },
                Err(e) => exists|i: int|
                    {
                        &&& 0 <= i < rows.len()
                        &&& spec_class_row(#[trigger] rows[i]) == Err::<
                            (Option<Value>, Option<Value>),
                            SpiError,
                        >(e)
                        &&& forall|j: int| 0 <= j < i ==> spec_class_row(#[trigger] rows[j]) is Ok
                    },
            },
        },
{
    let statement = return_query_statement(version);
    let ghost executed = spec_execute(
        session.is_open(),
        encode_utf8(return_query_text(version)),
        0,
        None,
        host_view(host),
    );
    let mut cursor = match session.execute(statement.sql.as_str(), None, None, host) {
        Ok(cursor) => cursor,
        Err(e) => {
            return Err(e);
        },
    };
    let ghost rows = cursor@;
    let mut list: Vec<(Option<u32>, Option<String>)> = Vec::new();
    loop
        invariant
            session.is_open(),
            executed == Ok::<Seq<Seq<ColumnView>>, SpiError>(rows),
            executed == spec_execute(
                session.is_open(),
                encode_utf8(return_query_text(version)),
                0,
                None,
                host_view(host),
            ),
            list@.len() <= rows.len(),
            cursor@ == rows.skip(list@.len() as int),
            forall|i: int|
                0 <= i < list@.len() ==> spec_class_row(#[trigger] rows[i]) == Ok::<
                    (Option<Value>, Option<Value>),
                    SpiError,
                >(class_view(list@[i])),
        ensures
            list@.len() == rows.len(),
            forall|i: int|
                0 <= i < rows.len() ==> spec_class_row(#[trigger] rows[i]) == Ok::<
                    (Option<Value>, Option<Value>),
                    SpiError,
                >(class_view(list@[i])),
        decreases rows.len() - list@.len(),
    {
        let row = match cursor.next_row(session) {
            Ok(Some(row)) => row,
            _ => {
                break ;
            },
        };
        assert(row@ == rows[list@.len() as int]);
        match class_row(&row) {
            Ok(entry) => {
                list.push(entry);
                assert(cursor@ =~= rows.skip(list@.len() as int));
            },
            Err(e) => {
                assert(spec_class_row(rows[list@.len() as int]) == Err::<
                    (Option<Value>, Option<Value>),
                    SpiError,
                >(e));
                return Err(e);
            },
        }
    }
    Ok(list)
}

} // verus!
