use spi::statements::{
    by_id_statement, insert_title2_statement, insert_title_statement, random_id_statement,
    return_query_statement, spi_insert_title, spi_insert_title2, spi_query_by_id,
    spi_query_random_id, spi_query_title, spi_return_query, title_query_statement,
};
use spi::{
    bind, decode, encode, placeholder_count, Column, EncodedValue, HostOutcome, HostRequest,
    HostVersion, NativeValue, QuerySession, Row, SpiError, Statement, TypeTag,
};

/// The example table as the extension sets it up, with the host's part played
/// by hand: rows of (id, title) and the next identifier of the sequence.
struct Table {
    rows: Vec<(i64, Option<String>)>,
    next_id: i64,
}

fn example_table() -> Table {
    Table {
        rows: vec![
            (1, Some("This is a test".to_string())),
            (2, Some("Hello There!".to_string())),
            (3, Some("I like pudding".to_string())),
        ],
        next_id: 4,
    }
}

fn id_cell(id: i64) -> Column {
    Column::new("id".to_string(), encode(&NativeValue::Int8(id)))
}

fn title_cell(title: &Option<String>) -> Column {
    let cell = match title {
        Some(t) => encode(&NativeValue::Text(t.clone())),
        None => EncodedValue::null(TypeTag::Text),
    };
    Column::new("title".to_string(), cell)
}

fn text_parameter(request: &HostRequest) -> Option<String> {
    let parameters = request.parameters.unwrap();
    match decode(parameters[0].value(), TypeTag::Text).unwrap() {
        Some(NativeValue::Text(s)) => Some(s),
        _ => None,
    }
}

fn limit(rows: Vec<Row>, request: &HostRequest) -> Vec<Row> {
    let mut rows = rows;
    if request.row_limit > 0 {
        rows.truncate(request.row_limit as usize);
    }
    rows
}

impl Table {
    fn select_id_by_title(&self, request: &HostRequest) -> HostOutcome {
        let wanted = text_parameter(request);
        let rows = self
            .rows
            .iter()
            .filter(|(_, title)| wanted.is_some() && *title == wanted)
            .map(|(id, _)| Row::new(vec![id_cell(*id)]))
            .collect();
        Ok(limit(rows, request))
    }

    fn select_by_id(&self, request: &HostRequest) -> HostOutcome {
        let parameters = request.parameters.unwrap();
        let wanted = match decode(parameters[0].value(), TypeTag::Int8).unwrap() {
            Some(NativeValue::Int8(id)) => id,
            _ => return Ok(Vec::new()),
        };
        let rows = self
            .rows
            .iter()
            .filter(|(id, _)| *id == wanted)
            .map(|(id, title)| Row::new(vec![id_cell(*id), title_cell(title)]))
            .collect();
        Ok(limit(rows, request))
    }

    fn insert_returning(&mut self, request: &HostRequest, with_title: bool) -> HostOutcome {
        let title = text_parameter(request);
        let id = self.next_id;
        self.next_id += 1;
        self.rows.push((id, title.clone()));
        let mut cells = vec![id_cell(id)];
        if with_title {
            cells.push(title_cell(&title));
        }
        Ok(vec![Row::new(cells)])
    }
}

/// Binds and prepares a statement on the session and hands the request to the
/// host; the outcome is what the host answered.
fn submit(
    session: &QuerySession,
    statement: &Statement,
    host: impl FnOnce(&HostRequest) -> HostOutcome,
) -> HostOutcome {
    let bound = statement.arguments.as_ref().map(|arguments| bind(arguments).unwrap());
    let request = session.prepare(&statement.sql, bound.as_ref(), statement.row_limit).unwrap();
    host(&request)
}

fn text_argument(s: &str) -> Option<Vec<(TypeTag, Option<NativeValue>)>> {
    Some(vec![(TypeTag::Text, Some(NativeValue::Text(s.to_string())))])
}

#[test]
fn the_class_listing_is_worded_by_host_version() {
    let expected = [
        (HostVersion::Pg10, "SELECT oid, relname::text || '-pg10' FROM pg_class"),
        (HostVersion::Pg11, "SELECT oid, relname::text || '-pg11' FROM pg_class"),
        (HostVersion::Pg12, "SELECT oid, relname::text || '-pg12' FROM pg_class"),
        (HostVersion::Pg13, "SELECT oid, relname::text || '-pg13' FROM pg_class"),
        (HostVersion::Pg14, "SELECT oid, relname::text || '-pg14' FROM pg_class"),
    ];
    for (version, sql) in expected {
        let statement = return_query_statement(version);
        assert_eq!(statement, Statement { sql: sql.to_string(), arguments: None, row_limit: None });
    }
}

#[test]
fn the_statements_are_worded_as_the_extension_words_them() {
    assert_eq!(
        random_id_statement(),
        Statement {
            sql: "SELECT id FROM spi.spi_example ORDER BY random() LIMIT 1".to_string(),
            arguments: None,
            row_limit: Some(1),
        }
    );
    assert_eq!(
        title_query_statement("Hello There!"),
        Statement {
            sql: "SELECT id FROM spi.spi_example WHERE title = $1;".to_string(),
            arguments: text_argument("Hello There!"),
            row_limit: Some(1),
        }
    );
    assert_eq!(
        by_id_statement(1),
        Statement {
            sql: "SELECT id, title FROM spi.spi_example WHERE id = $1".to_string(),
            arguments: Some(vec![(TypeTag::Int8, Some(NativeValue::Int8(1)))]),
            row_limit: None,
        }
    );
    assert_eq!(
        insert_title_statement("new"),
        Statement {
            sql: "INSERT INTO spi.spi_example(title) VALUES ($1) RETURNING id".to_string(),
            arguments: text_argument("new"),
            row_limit: Some(1),
        }
    );
    assert_eq!(
        insert_title2_statement("new"),
        Statement {
            sql: "INSERT INTO spi.spi_example(title) VALUES ($1) RETURNING id, title".to_string(),
            arguments: text_argument("new"),
            row_limit: Some(1),
        }
    );
}

#[test]
fn every_statement_has_as_many_arguments_as_placeholders() {
    let mut statements = vec![
        random_id_statement(),
        title_query_statement("a"),
        by_id_statement(1),
        insert_title_statement("a"),
        insert_title2_statement("a"),
    ];
    for version in [
        HostVersion::Pg10,
        HostVersion::Pg11,
        HostVersion::Pg12,
        HostVersion::Pg13,
        HostVersion::Pg14,
    ] {
        statements.push(return_query_statement(version));
    }
    let session = QuerySession::open(true).unwrap();
    for statement in statements {
        let supplied = statement.arguments.as_ref().map_or(0, |a| a.len());
        assert_eq!(placeholder_count(&statement.sql), Some(supplied), "{}", statement.sql);
        let bound = statement.arguments.as_ref().map(|a| bind(a).unwrap());
        assert!(session.prepare(&statement.sql, bound.as_ref(), statement.row_limit).is_ok());
    }
}

#[test]
fn a_title_finds_its_identifier() {
    let table = example_table();
    let session = QuerySession::open(true).unwrap();
    let statement = title_query_statement("Hello There!");
    let host = submit(&session, &statement, |request| table.select_id_by_title(request));
    assert_eq!(host.as_ref().map(|rows| rows.len()), Ok(1));
    assert_eq!(spi_query_title(&session, "Hello There!", host), Ok(Some(2)));
}

#[test]
fn an_unknown_title_finds_nothing() {
    let table = example_table();
    let session = QuerySession::open(true).unwrap();
    let statement = title_query_statement("No such title");
    let host = submit(&session, &statement, |request| table.select_id_by_title(request));
    assert_eq!(spi_query_title(&session, "No such title", host), Ok(None));
}

#[test]
fn test_spi_query_by_id_direct() {
    let table = example_table();
    let session = QuerySession::open(true).unwrap();
    let statement = by_id_statement(1);
    let host = submit(&session, &statement, |request| table.select_by_id(request));
    let (returned_id, title) = spi_query_by_id(&session, 1, host).unwrap();
    assert_eq!(returned_id, Some(1));
    assert_eq!(Some("This is a test".to_string()), title)
}

#[test]
fn test_spi_query_by_id_via_spi() {
    let table = example_table();
    let outer = QuerySession::open(true).unwrap();
    let inner = QuerySession::open(true).unwrap();
    let statement = by_id_statement(1);
    let host = submit(&inner, &statement, |request| table.select_by_id(request));
    let (_, title) = spi_query_by_id(&inner, 1, host).unwrap();
    let answer: HostOutcome = Ok(vec![Row::new(vec![title_cell(&title)])]);
    let result = outer
        .get_one("SELECT spi.spi_query_by_id(1)", None, TypeTag::Text, answer)
        .unwrap()
        .expect("SPI result was NULL");
    assert_eq!(NativeValue::Text("This is a test".to_string()), result)
}

#[test]
fn an_unknown_identifier_finds_nothing() {
    let table = example_table();
    let session = QuerySession::open(true).unwrap();
    let statement = by_id_statement(99);
    let host = submit(&session, &statement, |request| table.select_by_id(request));
    assert_eq!(spi_query_by_id(&session, 99, host), Ok((None, None)));
}

#[test]
fn a_row_with_a_null_title_gives_the_identifier_alone() {
    let mut table = example_table();
    table.rows.push((4, None));
    let session = QuerySession::open(true).unwrap();
    let statement = by_id_statement(4);
    let host = submit(&session, &statement, |request| table.select_by_id(request));
    assert_eq!(spi_query_by_id(&session, 4, host), Ok((Some(4), None)));
}

#[test]
fn an_insert_returns_an_identifier_above_all_earlier_ones() {
    let mut table = example_table();
    let session = QuerySession::open(true).unwrap();
    let highest_before = table.rows.iter().map(|(id, _)| *id).max().unwrap();
    let statement = insert_title_statement("A new title");
    let host = submit(&session, &statement, |request| table.insert_returning(request, false));
    let id = spi_insert_title(&session, "A new title", host)
        .unwrap()
        .expect("INSERT into spi_example returned NULL");
    assert!(id > highest_before);
    assert_eq!(id, 4);
    let statement = insert_title_statement("Another");
    let host = submit(&session, &statement, |request| table.insert_returning(request, false));
    let next = spi_insert_title(&session, "Another", host).unwrap().unwrap();
    assert!(next > id);
    let statement = title_query_statement("A new title");
    let host = submit(&session, &statement, |request| table.select_id_by_title(request));
    assert_eq!(spi_query_title(&session, "A new title", host), Ok(Some(id)));
}

#[test]
fn an_insert_returns_the_title_with_the_identifier() {
    let mut table = example_table();
    let session = QuerySession::open(true).unwrap();
    let statement = insert_title2_statement("Both, please");
    let host = submit(&session, &statement, |request| table.insert_returning(request, true));
    assert_eq!(
        spi_insert_title2(&session, "Both, please", host),
        Ok(vec![(Some(4), Some("Both, please".to_string()))])
    );
}

#[test]
fn a_random_identifier_is_one_of_the_table() {
    let session = QuerySession::open(true).unwrap();
    let statement = random_id_statement();
    let host = submit(&session, &statement, |_request| {
        Ok(vec![Row::new(vec![id_cell(3)])])
    });
    assert_eq!(spi_query_random_id(&session, host), Ok(Some(3)));
    assert_eq!(spi_query_random_id(&session, Ok(Vec::new())), Ok(None));
}

#[test]
fn the_class_listing_reads_identifier_and_marked_name() {
    let session = QuerySession::open(true).unwrap();
    let class = |oid: u32, name: &str| {
        Row::new(vec![
            Column::new("oid".to_string(), encode(&NativeValue::Oid(oid))),
            Column::new("?column?".to_string(), encode(&NativeValue::Text(name.to_string()))),
        ])
    };
    let host: HostOutcome = Ok(vec![
        class(1259, "pg_class-pg13"),
        class(1247, "pg_type-pg13"),
        Row::new(vec![
            Column::new("oid".to_string(), EncodedValue::null(TypeTag::Oid)),
            Column::new("?column?".to_string(), EncodedValue::null(TypeTag::Text)),
        ]),
    ]);
    assert_eq!(
        spi_return_query(&session, HostVersion::Pg13, host),
        Ok(vec![
            (Some(1259), Some("pg_class-pg13".to_string())),
            (Some(1247), Some("pg_type-pg13".to_string())),
            (None, None),
        ])
    );
    assert_eq!(spi_return_query(&session, HostVersion::Pg10, Ok(Vec::new())), Ok(Vec::new()));
}

#[test]
fn the_class_listing_fails_on_the_first_row_it_cannot_read() {
    let session = QuerySession::open(true).unwrap();
    let good = Row::new(vec![
        Column::new("oid".to_string(), encode(&NativeValue::Oid(1))),
        Column::new("name".to_string(), encode(&NativeValue::Text("a".to_string()))),
    ]);
    let no_oid = Row::new(vec![
        Column::new("id".to_string(), encode(&NativeValue::Oid(1))),
        Column::new("name".to_string(), encode(&NativeValue::Int8(1))),
    ]);
    let wrong_type = Row::new(vec![
        Column::new("oid".to_string(), encode(&NativeValue::Int8(1))),
        Column::new("name".to_string(), encode(&NativeValue::Text("a".to_string()))),
    ]);
    assert_eq!(
        spi_return_query(&session, HostVersion::Pg14, Ok(vec![good, no_oid, wrong_type])),
        Err(SpiError::NoSuchColumn)
    );
    let narrow = Row::new(vec![Column::new("oid".to_string(), encode(&NativeValue::Oid(1)))]);
    assert_eq!(
        spi_return_query(&session, HostVersion::Pg14, Ok(vec![narrow])),
        Err(SpiError::NoSuchColumn)
    );
    let wrong_type = Row::new(vec![
        Column::new("oid".to_string(), encode(&NativeValue::Int8(1))),
        Column::new("name".to_string(), encode(&NativeValue::Text("a".to_string()))),
    ]);
    assert_eq!(
        spi_return_query(&session, HostVersion::Pg14, Ok(vec![wrong_type])),
        Err(SpiError::TypeMismatch)
    );
}

#[test]
fn the_statements_pass_the_hosts_failure_on() {
    let session = QuerySession::open(true).unwrap();
    let failure = || -> HostOutcome { Err("relation \"spi.spi_example\" does not exist".to_string()) };
    let expected = SpiError::ExecutionError("relation \"spi.spi_example\" does not exist".to_string());
    assert_eq!(spi_query_random_id(&session, failure()), Err(expected.clone()));
    assert_eq!(spi_query_title(&session, "x", failure()), Err(expected.clone()));
    assert_eq!(spi_query_by_id(&session, 1, failure()), Err(expected.clone()));
    assert_eq!(spi_insert_title(&session, "x", failure()), Err(expected.clone()));
    assert_eq!(spi_insert_title2(&session, "x", failure()), Err(expected.clone()));
    assert_eq!(spi_return_query(&session, HostVersion::Pg12, failure()), Err(expected));
}

#[test]
fn the_statements_fail_on_a_closed_session() {
    let mut session = QuerySession::open(true).unwrap();
    session.close();
    assert_eq!(spi_query_random_id(&session, Ok(Vec::new())), Err(SpiError::UseAfterClose));
    assert_eq!(spi_query_title(&session, "x", Ok(Vec::new())), Err(SpiError::UseAfterClose));
    assert_eq!(spi_query_by_id(&session, 1, Ok(Vec::new())), Err(SpiError::UseAfterClose));
    assert_eq!(spi_insert_title(&session, "x", Ok(Vec::new())), Err(SpiError::UseAfterClose));
    assert_eq!(spi_insert_title2(&session, "x", Ok(Vec::new())), Err(SpiError::UseAfterClose));
    assert_eq!(
        spi_return_query(&session, HostVersion::Pg11, Ok(Vec::new())),
        Err(SpiError::UseAfterClose)
    );
}
