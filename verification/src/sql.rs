use vstd::prelude::*;
use vstd::string::StringSliceAdditionalSpecFns;

verus! {

/// Where a scan of SQL text stands with respect to quoting.
#[derive(Clone, Copy, Debug, PartialEq, Eq, Structural)]
pub enum Quoting {
    /// Outside any quoted text.
    Plain,
    /// Inside a string literal, between single quotes.
    Literal,
    /// Inside a quoted identifier, between double quotes.
    Identifier,
}

/// Whether the byte is an ASCII decimal digit.
pub open spec fn is_digit(byte: u8) -> bool {
    0x30 <= byte <= 0x39
}

/// The quoting after one more byte.
///
/// A doubled quote inside quoted text closes it and opens it again at once,
/// so it leaves the scan inside the same kind of text.
pub open spec fn quoting_step(before: Quoting, byte: u8) -> Quoting {
    match before {
        Quoting::Plain => if byte == 0x27 {
            Quoting::Literal
        } else if byte == 0x22 {
            Quoting::Identifier
        } else {
            Quoting::Plain
        },
        Quoting::Literal => if byte == 0x27 {
            Quoting::Plain
        } else {
            Quoting::Literal
        },
        Quoting::Identifier => if byte == 0x22 {
            Quoting::Plain
        } else {
            Quoting::Identifier
        },
    }
}

/// The quoting in force just before the byte at `at`.
pub open spec fn quoting_at(sql: Seq<u8>, at: int) -> Quoting
    decreases at,
{
    if at <= 0 || at > sql.len() {
        Quoting::Plain
    } else {
        quoting_step(quoting_at(sql, at - 1), sql[at - 1])
    }
}

/// Where the run of digits that begins at `from` ends: the first index at or
/// after `from` that holds no digit.
pub open spec fn digits_end(sql: Seq<u8>, from: int) -> int
    decreases sql.len() - from,
{
    if 0 <= from < sql.len() && is_digit(sql[from]) {
        digits_end(sql, from + 1)
    } else {
        from
    }
}

/// The decimal number written by the bytes of `sql` from `from` up to `to`.
pub open spec fn digits_value(sql: Seq<u8>, from: int, to: int) -> nat
    decreases to - from,
{
    if to <= from {
        0
    } else {
        digits_value(sql, from, to - 1) * 10 + (sql[to - 1] - 0x30) as nat
    }
}

/// Whether a placeholder begins at `at`: a dollar sign outside quoted text
/// with a digit right behind it.
pub open spec fn placeholder_at(sql: Seq<u8>, at: int) -> bool {
    &&& 0 <= at
    &&& at + 1 < sql.len()
    &&& quoting_at(sql, at) == Quoting::Plain
    &&& sql[at] == 0x24
    &&& is_digit(sql[at + 1])
}

/// The number of the placeholder that begins at `at`: in `$12` it is 12.
pub open spec fn placeholder_number(sql: Seq<u8>, at: int) -> nat {
    digits_value(sql, at + 1, digits_end(sql, at + 1))
}

/// The highest placeholder number among the placeholders that begin before
/// `upto`; 0 where there is none.
pub open spec fn highest_placeholder(sql: Seq<u8>, upto: int) -> nat
    decreases upto,
{
    if upto <= 0 {
        0
    } else {
        let before = highest_placeholder(sql, upto - 1);
        if placeholder_at(sql, upto - 1) && placeholder_number(sql, upto - 1) > before {
            placeholder_number(sql, upto - 1)
        } else {
            before
        }
    }
}

/// How many parameters SQL text asks for: the highest number `N` of a
/// placeholder `$N` in it, 0 where it has none.
///
/// Placeholders are numbered from 1 and stand for the parameters by
/// position, so text that mentions `$3` asks for three parameters whether or
/// not it mentions `$1` and `$2`. Text between single quotes or between
/// double quotes holds no placeholder.
pub open spec fn spec_placeholder_count(sql: Seq<u8>) -> nat {
    highest_placeholder(sql, sql.len() as int)
}

/// A longer run of digits never writes a smaller number.
proof fn lemma_digits_value_grows(sql: Seq<u8>, from: int, to: int, further: int)
    requires
        from <= to <= further <= sql.len(),
        forall|k: int| from <= k < further ==> is_digit(#[trigger] sql[k]),
    ensures
        digits_value(sql, from, to) <= digits_value(sql, from, further),
    decreases further - to,
{
    if to < further {
        lemma_digits_value_grows(sql, from, to, further - 1);
    }
}

/// A run of digits ends where the first byte that is no digit stands.
proof fn lemma_digits_end_found(sql: Seq<u8>, from: int, end: int)
    requires
        0 <= from <= end <= sql.len(),
        forall|k: int| from <= k < end ==> is_digit(#[trigger] sql[k]),
        end == sql.len() || !is_digit(sql[end]),
    ensures
        digits_end(sql, from) == end,
    decreases end - from,
{
    if from < end {
        lemma_digits_end_found(sql, from + 1, end);
    }
}

/// Up to where it ends, a run of digits holds digits only.
proof fn lemma_digits_end_is_run(sql: Seq<u8>, from: int)
    requires
        0 <= from <= sql.len(),
    ensures
        from <= digits_end(sql, from) <= sql.len(),
        forall|k: int| from <= k < digits_end(sql, from) ==> is_digit(#[trigger] sql[k]),
    decreases sql.len() - from,
{
    if from < sql.len() && is_digit(sql[from]) {
        lemma_digits_end_is_run(sql, from + 1);
    }
}

/// A run of digits does not end before a byte that is no digit.
proof fn lemma_digits_end_reaches(sql: Seq<u8>, from: int, to: int)
    requires
        0 <= from <= to <= sql.len(),
        forall|k: int| from <= k < to ==> is_digit(#[trigger] sql[k]),
    ensures
        to <= digits_end(sql, from),
    decreases to - from,
{
    if from < to {
        lemma_digits_end_reaches(sql, from + 1, to);
    } else {
        lemma_digits_end_is_run(sql, from);
    }
}

/// Reads the number of the placeholder whose digits begin at `from`.
///
/// Returns `None` where the number does not fit a `usize`.
fn read_number(sql: &[u8], from: usize) -> (number: Option<usize>)
    requires
        from < sql@.len(),
        is_digit(sql@[from as int]),
    ensures
        match number {
            Some(n) => n == digits_value(sql@, from as int, digits_end(sql@, from as int)),
            None => digits_value(sql@, from as int, digits_end(sql@, from as int)) > usize::MAX,
        },
{
    let mut at: usize = from;
    let mut value: usize = 0;
    while at < sql.len() && sql[at] >= 0x30 && sql[at] <= 0x39
        invariant
            from <= at <= sql@.len(),
            forall|k: int| from <= k < at ==> is_digit(#[trigger] sql@[k]),
            value == digits_value(sql@, from as int, at as int),
        decreases sql@.len() - at,
    {
        let digit: usize = (sql[at] - 0x30) as usize;
        let grown = match value.checked_mul(10) {
            Some(tenfold) => tenfold.checked_add(digit),
            None => None,
        };
        match grown {
            Some(next) => {
                value = next;
                at = at + 1;
            },
            None => {
                proof {
                    let end = digits_end(sql@, from as int);
                    lemma_digits_end_is_run(sql@, from as int);
                    lemma_digits_end_reaches(sql@, from as int, at as int + 1);
                    lemma_digits_value_grows(sql@, from as int, at as int + 1, end);
                }
                return None;
            },
        }
    }
    proof {
        lemma_digits_end_found(sql@, from as int, at as int);
    }
    Some(value)
}

/// How many parameters the SQL text asks for, or `None` where that number
/// does not fit a `usize`.
pub fn placeholder_count(sql: &str) -> (count: Option<usize>)
    ensures
        match count {
            Some(n) => n == spec_placeholder_count(sql.spec_bytes()),
            None => spec_placeholder_count(sql.spec_bytes()) > usize::MAX,
        },
{
    let bytes = sql.as_bytes();
    let mut at: usize = 0;
    let mut quoting = Quoting::Plain;
    let mut highest: Option<usize> = Some(0);
    while at < bytes.len()
        invariant
            at <= bytes@.len(),
            quoting == quoting_at(bytes@, at as int),
            match highest {
                Some(n) => n == highest_placeholder(bytes@, at as int),
                None => highest_placeholder(bytes@, at as int) > usize::MAX,
            },
        decreases bytes@.len() - at,
    {
        let byte = bytes[at];
        let starts = quoting == Quoting::Plain && byte == 0x24 && at + 1 < bytes.len() && bytes[at
            + 1] >= 0x30 && bytes[at + 1] <= 0x39;
        if starts {
            let number = read_number(bytes, at + 1);
            highest =
            match (highest, number) {
                (Some(before), Some(n)) => Some(if n > before {
                    n
                } else {
                    before
                }),
                _ => None,
            };
        }
        quoting =
        match quoting {
            Quoting::Plain => if byte == 0x27 {
                Quoting::Literal
            } else if byte == 0x22 {
                Quoting::Identifier
            } else {
                Quoting::Plain
            },
            Quoting::Literal => if byte == 0x27 {
                Quoting::Plain
            } else {
                Quoting::Literal
            },
            Quoting::Identifier => if byte == 0x22 {
                Quoting::Plain
            } else {
                Quoting::Identifier
            },
        };
        at = at + 1;
    }
    highest
}

/// No placeholder of the text has a number above the count.
pub proof fn law_count_bounds_every_placeholder(sql: Seq<u8>, at: int)
    requires
        placeholder_at(sql, at),
    ensures
        placeholder_number(sql, at) <= spec_placeholder_count(sql),
{
    lemma_highest_bounds(sql, sql.len() as int, at);
}

/// A count above 0 is the number of some placeholder of the text.
pub proof fn law_count_is_attained(sql: Seq<u8>)
    requires
        spec_placeholder_count(sql) > 0,
    ensures
        exists|at: int| #[trigger]
            placeholder_at(sql, at) && placeholder_number(sql, at) == spec_placeholder_count(sql),
{
    lemma_highest_attained(sql, sql.len() as int);
}

/// The highest number up to an index bounds every placeholder before it.
proof fn lemma_highest_bounds(sql: Seq<u8>, upto: int, at: int)
    requires
        0 <= at < upto,
        placeholder_at(sql, at),
    ensures
        placeholder_number(sql, at) <= highest_placeholder(sql, upto),
    decreases upto,
{
    if at < upto - 1 {
        lemma_highest_bounds(sql, upto - 1, at);
    }
}

/// A highest number above 0 belongs to a placeholder of the text.
proof fn lemma_highest_attained(sql: Seq<u8>, upto: int)
    requires
        highest_placeholder(sql, upto) > 0,
    ensures
        exists|at: int| #[trigger]
            placeholder_at(sql, at) && placeholder_number(sql, at) == highest_placeholder(
                sql,
                upto,
            ),
    decreases upto,
{
    if upto > 0 {
        if placeholder_at(sql, upto - 1) && placeholder_number(sql, upto - 1)
            > highest_placeholder(sql, upto - 1) {
        } else {
            lemma_highest_attained(sql, upto - 1);
        }
    }
}

} // verus!
