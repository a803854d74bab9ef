use vstd::prelude::*;
use std::collections::VecDeque;
use crate::error::SpiError;
use crate::row::{ColumnView, Row};
use crate::session::QuerySession;

verus! {

/// The mathematical reading of a list of rows.
pub open spec fn rows_view(rows: Seq<Row>) -> Seq<Seq<ColumnView>> {
    rows.map_values(|r: Row| r@)
}

/// A forward-only reader over the rows a statement returned, in the order
/// the host yielded them.
///
/// Each row is handed out once; a cursor that has run out stays run out. A
/// cursor can be read only while the session that made it is open: every read
/// takes that session and fails with `UseAfterClose` once it is closed.
#[derive(Debug)]
pub struct ResultCursor {
    rows: VecDeque<Row>,
}

impl View for ResultCursor {
    type V = Seq<Seq<ColumnView>>;

    /// The rows not yet handed out.
    closed spec fn view(&self) -> Seq<Seq<ColumnView>> {
        rows_view(self.rows@)
    }
}

impl ResultCursor {
    /// A cursor that stands before the first of `rows`.
    pub(crate) fn over(rows: Vec<Row>) -> (cursor: ResultCursor)
        ensures
            cursor@ == rows_view(rows@),
    {
        let ghost all = rows@;
        let mut rest = rows;
        let mut queue: VecDeque<Row> = VecDeque::new();
        while rest.len() > 0
            invariant
                rest@.len() <= all.len(),
                rest@ == all.subrange(0, rest@.len() as int),
                queue@ == all.subrange(rest@.len() as int, all.len() as int),
            decreases rest@.len(),
        {
            match rest.pop() {
                Some(row) => {
                    queue.push_front(row);
                },
                None => {},
            }
            assert(rest@ =~= all.subrange(0, rest@.len() as int));
            assert(queue@ =~= all.subrange(rest@.len() as int, all.len() as int));
        }
        assert(queue@ =~= all);
        ResultCursor { rows: queue }
    }

    /// How many rows are still to come.
    pub fn remaining(&self) -> (count: usize)
        ensures
            count == self@.len(),
    {
        self.rows.len()
    }

    /// Hands out the next row and moves past it; `None` once the rows have
    /// run out.
    ///
    /// Fails with `UseAfterClose`, and leaves the cursor where it was, when
    /// the session is not open.
    pub fn next_row(&mut self, session: &QuerySession) -> (outcome: Result<Option<Row>, SpiError>)
        ensures
            match outcome {
                Ok(Some(row)) => {
                    &&& session.is_open()
                    &&& old(self)@.len() > 0
                    &&& row@ == old(self)@[0]
                    &&& final(self)@ == old(self)@.skip(1)
                },
                Ok(None) => {
                    &&& session.is_open()
                    &&& old(self)@.len() == 0
                    &&& final(self)@ == old(self)@
                },
                Err(e) => {
                    &&& e == SpiError::UseAfterClose
                    &&& !session.is_open()
                    &&& final(self)@ == old(self)@
                },
            },
    {
        if !session.is_open() {
            return Err(SpiError::UseAfterClose);
        }
        let next = self.rows.pop_front();
        assert(self@ =~= old(self)@.skip(1) || next is None);
        Ok(next)
    }

    /// The first of the rows still to come, without moving past it.
    ///
    /// Fails with `UseAfterClose` when the session is not open, and with
    /// `EmptyResultSet` when it is open and no row is left.
    pub fn first_row(&self, session: &QuerySession) -> (outcome: Result<&Row, SpiError>)
        ensures
            match outcome {
                Ok(row) => session.is_open() && self@.len() > 0 && row@ == self@[0],
                Err(e) => if !session.is_open() {
                    e == SpiError::UseAfterClose
                } else {
                    e == SpiError::EmptyResultSet && self@.len() == 0
                },
            },
    {
        if !session.is_open() {
            Err(SpiError::UseAfterClose)
        } else if self.rows.len() == 0 {
            Err(SpiError::EmptyResultSet)
        } else {
            Ok(&self.rows[0])
        }
    }

    /// The one row still to come, without moving past it.
    ///
    /// Fails with `UseAfterClose` when the session is not open; when it is
    /// open, with `EmptyResultSet` when no row is left and with `TooManyRows`
    /// when more than one is.
    pub fn only_row(&self, session: &QuerySession) -> (outcome: Result<&Row, SpiError>)
        ensures
            match outcome {
                Ok(row) => session.is_open() && self@.len() == 1 && row@ == self@[0],
                Err(e) => if !session.is_open() {
                    e == SpiError::UseAfterClose
                } else if self@.len() == 0 {
                    e == SpiError::EmptyResultSet
                } else {
                    e == SpiError::TooManyRows && self@.len() > 1
                },
            },
    {
        if !session.is_open() {
            Err(SpiError::UseAfterClose)
        } else if self.rows.len() == 0 {
            Err(SpiError::EmptyResultSet)
        } else if self.rows.len() > 1 {
            Err(SpiError::TooManyRows)
        } else {
            Ok(&self.rows[0])
        }
    }
}

} // verus!
