//! The repository: setting the store up, inserting and listing records.
//!
//! Every operation takes the connection that the caller opened and holds.
//! Whether the engine accepts a statement depends on the database, so each
//! contract says what holds whichever way the engine answers.

use vstd::prelude::*;
use crate::engine::{
    bind, bindable, column_names, column_of, execute, from_engine, next_row, prepare, step,
    MAX_BOUND_BYTES, MAX_PLACEHOLDER,
};
use crate::error::StoreError;
use crate::model::{Employee, EvaluationCriterion, EvaluationScore};
use crate::rows::{
    criteria_from_table, criterion_listing, employee_listing, employees_from_table, score_listing,
    scores_from_table, Table, TableModel,
};
use crate::statement::{
    criterion_parameters, employee_parameters, schema, schema_texts, score_parameters, Command,
    RecordKind,
};
use crate::text::characters;
use crate::value::{ColumnModel, ColumnValue, models};

verus! {

/// A value that reads back as it was stored. The engine ends a text at its
/// first NUL character, so a text that holds one would come back cut short.
pub open spec fn storable(value: ColumnModel) -> bool {
    &&& bindable(value)
    &&& value matches ColumnModel::Text(s) ==> !s.contains('\0')
}

/// The parameter at `position`, counted from 0, can be stored: its
/// placeholder is one that the engine counts, and the value is storable.
pub open spec fn storable_at(position: int, value: ColumnModel) -> bool {
    position < MAX_PLACEHOLDER && storable(value)
}

/// The position of the first parameter that cannot be stored, if there is
/// one.
pub open spec fn first_unstorable(parameters: Seq<ColumnModel>) -> Option<int>
    decreases parameters.len(),
{
    if parameters.len() == 0 {
        None
    } else {
        match first_unstorable(parameters.drop_last()) {
            Some(i) => Some(i),
            None => if storable_at(parameters.len() - 1, parameters.last()) {
                None
            } else {
                Some(parameters.len() - 1)
            },
        }
    }
}

/// The first unstorable parameter is one that cannot be stored, after none
/// but storable ones; and there is none exactly where every parameter is
/// storable where it stands.
pub proof fn lemma_first_unstorable_is_the_first(parameters: Seq<ColumnModel>)
    ensures
        match first_unstorable(parameters) {
            Some(i) => {
                &&& 0 <= i < parameters.len()
                &&& !storable_at(i, parameters[i])
                &&& forall|j: int| 0 <= j < i ==> storable_at(j, #[trigger] parameters[j])
            },
            None => forall|j: int|
                0 <= j < parameters.len() ==> storable_at(j, #[trigger] parameters[j]),
        },
    decreases parameters.len(),
{
    if parameters.len() > 0 {
        let front = parameters.drop_last();
        lemma_first_unstorable_is_the_first(front);
        assert forall|j: int| 0 <= j < front.len() implies front[j] == parameters[j] by {}
        match first_unstorable(front) {
            Some(i) => {
                assert forall|j: int| 0 <= j < i implies storable_at(
                    j,
                    #[trigger] parameters[j],
                ) by {
                    assert(storable_at(j, front[j]));
                }
            },
            None => {
                assert forall|j: int| 0 <= j < front.len() implies storable_at(
                    j,
                    #[trigger] parameters[j],
                ) by {
                    assert(storable_at(j, front[j]));
                }
            },
        }
    }
}

/// Whether a text holds a NUL character.
pub fn holds_nul(text: &str) -> (b: bool)
    ensures
        b == text@.contains('\0'),
{
    let chars = characters(text);
    let mut i: usize = 0;
    while i < chars.len()
        invariant
            i <= chars.len(),
            chars@ == text@,
            forall|k: int| 0 <= k < i ==> text@[k] != '\0',
        decreases chars.len() - i,
    {
        if chars[i] == '\0' {
            return true;
        }
        i += 1;
    }
    false
}

/// Whether a value reads back as it was stored.
pub fn is_storable(value: &ColumnValue) -> (b: bool)
    ensures
        b == storable(value@),
{
    match value {
        ColumnValue::Text(s) => s.as_str().as_bytes().len() <= MAX_BOUND_BYTES && !holds_nul(
            s.as_str(),
        ),
        ColumnValue::Blob(b) => b.len() <= MAX_BOUND_BYTES,
        _ => true,
    }
}

/// Looks for a parameter that cannot be stored.
pub fn find_unstorable(parameters: &Vec<ColumnValue>) -> (found: Option<usize>)
    ensures
        match found {
            Some(i) => first_unstorable(models(parameters@)) == Some(i as int),
            None => first_unstorable(models(parameters@)) is None,
        },
{
    let mut i: usize = 0;
    while i < parameters.len()
        invariant
            i <= parameters.len(),
            first_unstorable(models(parameters@).take(i as int)) is None,
        decreases parameters.len() - i,
    {
        proof {
            let seen = models(parameters@).take(i + 1);
            assert(seen.drop_last() =~= models(parameters@).take(i as int));
            assert(seen.last() == parameters[i as int]@);
        }
        if i >= MAX_PLACEHOLDER || !is_storable(&parameters[i]) {
            proof {
                lemma_first_unstorable_stays(models(parameters@), i + 1);
            }
            return Some(i);
        }
        i += 1;
    }
    assert(models(parameters@).take(i as int) =~= models(parameters@));
    None
}

/// Once a prefix holds an unstorable parameter, every longer prefix has the
/// same first one.
proof fn lemma_first_unstorable_stays(parameters: Seq<ColumnModel>, n: int)
    requires
        0 <= n <= parameters.len(),
        first_unstorable(parameters.take(n)) is Some,
    ensures
        first_unstorable(parameters) == first_unstorable(parameters.take(n)),
    decreases parameters.len() - n,
{
    if n < parameters.len() {
        let longer = parameters.take(n + 1);
        assert(longer.drop_last() =~= parameters.take(n));
        lemma_first_unstorable_stays(parameters, n + 1);
    } else {
        assert(parameters.take(n) =~= parameters);
    }
}

/// Runs a command: compiles its text, binds `parameters[i]` to placeholder
/// `i + 1`, and evaluates the statement with one step.
///
/// A command with a parameter that cannot be stored is refused before the
/// engine sees anything of it. Any other command succeeds or fails as the
/// engine decides.
pub fn run_command(connection: &sqlite::Connection, command: &Command) -> (outcome: Result<
    (),
    StoreError,
>)
    ensures
        match first_unstorable(command@.parameters) {
            Some(i) => outcome == Err::<(), StoreError>(
                StoreError::Unstorable { index: i as usize },
            ),
            None => outcome is Ok || outcome matches Err(StoreError::Database { .. }),
        },
{
    match find_unstorable(&command.parameters) {
        Some(i) => return Err(StoreError::Unstorable { index: i }),
        None => {},
    }
    let mut statement = match prepare(connection, command.text()) {
        Ok(statement) => statement,
        Err(error) => return Err(StoreError::from_engine(error)),
    };
    let mut i: usize = 0;
    while i < command.parameters.len()
        invariant
            i <= command.parameters.len(),
            first_unstorable(models(command.parameters@)) is None,
        decreases command.parameters.len() - i,
    {
        proof {
            lemma_first_unstorable_is_the_first(models(command.parameters@));
            assert(storable_at(i as int, models(command.parameters@)[i as int]));
        }
        match bind(&mut statement, i + 1, &command.parameters[i]) {
            Ok(()) => {},
            Err(error) => return Err(StoreError::from_engine(error)),
        }
        i += 1;
    }
    match step(&mut statement) {
        Ok(_) => Ok(()),
        Err(error) => Err(StoreError::from_engine(error)),
    }
}

/// Turns the values of one row into the column values they stand for.
pub fn row_from_engine(values: &Vec<sqlite::Value>) -> (row: Vec<ColumnValue>)
    ensures
        models(row@) == values@.map_values(|v: sqlite::Value| column_of(v)),
        forall|i: int|
            0 <= i < row@.len() ==> (#[trigger] row@[i] matches ColumnValue::Real(x)
                ==> x.engine_value() == values@[i]),
{
    let mut row: Vec<ColumnValue> = Vec::new();
    let mut i: usize = 0;
    while i < values.len()
        invariant
            i <= values.len() && row@.len() == i,
            forall|k: int| 0 <= k < i ==> (#[trigger] row@[k])@ == column_of(values@[k]),
            forall|k: int|
                0 <= k < i ==> (#[trigger] row@[k] matches ColumnValue::Real(x)
                    ==> x.engine_value() == values@[k]),
        decreases values.len() - i,
    {
        row.push(from_engine(&values[i]));
        i += 1;
    }
    row
}

/// Runs the query for one kind of record and collects what it returns: the
/// names of the result columns and every row, in the order in which the
/// engine yields them.
///
/// Either the whole result comes back or an error: a failure in the middle
/// drops the rows read so far.
pub fn fetch_table(connection: &sqlite::Connection, kind: RecordKind) -> (outcome: Result<
    Table,
    StoreError,
>)
    ensures
        outcome is Ok || outcome matches Err(StoreError::Database { .. }) || outcome matches Err(
            StoreError::TooManyRows,
        ),
{
    let mut statement = match prepare(connection, kind.query_text()) {
        Ok(statement) => statement,
        Err(error) => return Err(StoreError::from_engine(error)),
    };
    let columns = column_names(&statement);
    let mut rows: Vec<Vec<ColumnValue>> = Vec::new();
    loop
        decreases usize::MAX - rows.len(),
    {
        if rows.len() == usize::MAX {
            return Err(StoreError::TooManyRows);
        }
        match next_row(&mut statement) {
            Err(error) => return Err(StoreError::from_engine(error)),
            Ok(None) => return Ok(Table { columns, rows }),
            Ok(Some(values)) => rows.push(row_from_engine(&values)),
        }
    }
}

/// Makes sure that the three tables exist. A table that is there already is
/// left as it is. The statements run in the schema's order, and the first
/// failure ends the run.
pub fn create_tables(connection: &sqlite::Connection) -> (outcome: Result<(), StoreError>)
    ensures
        outcome is Ok || outcome matches Err(StoreError::Database { .. }),
{
    let statements = schema();
    let mut i: usize = 0;
    while i < statements.len()
        invariant
            i <= statements.len(),
            statements@.map_values(|s: &'static str| s@) == schema_texts(),
        decreases statements.len() - i,
    {
        assert(schema_texts()[i as int] == statements[i as int]@);
        match execute(connection, statements[i]) {
            Ok(()) => {},
            Err(error) => return Err(StoreError::from_engine(error)),
        }
        i += 1;
    }
    Ok(())
}

/// Stores one employee as a new row. The record's id is ignored: the store
/// assigns one. Name, department and job title are bound as parameters.
pub fn insert_employee(connection: &sqlite::Connection, employee: &Employee) -> (outcome: Result<
    (),
    StoreError,
>)
    ensures
        match first_unstorable(employee_parameters(employee@)) {
            Some(i) => outcome == Err::<(), StoreError>(
                StoreError::Unstorable { index: i as usize },
            ),
            None => outcome is Ok || outcome matches Err(StoreError::Database { .. }),
        },
{
    let command = Command::for_employee(employee);
    run_command(connection, &command)
}

/// Stores one evaluation criterion as a new row. The record's id is
/// ignored. Name, description and weightage are bound as parameters.
pub fn insert_evaluation_criterion(
    connection: &sqlite::Connection,
    criterion: &EvaluationCriterion,
) -> (outcome: Result<(), StoreError>)
    ensures
        match first_unstorable(criterion_parameters(criterion@)) {
            Some(i) => outcome == Err::<(), StoreError>(
                StoreError::Unstorable { index: i as usize },
            ),
            None => outcome is Ok || outcome matches Err(StoreError::Database { .. }),
        },
{
    let command = Command::for_criterion(criterion);
    run_command(connection, &command)
}

/// Stores one evaluation score as a new row. The record's id is ignored.
/// The two references and the score are bound as parameters; all three are
/// storable, so only the engine can refuse.
pub fn insert_evaluation_score(connection: &sqlite::Connection, score: &EvaluationScore) -> (outcome:
    Result<(), StoreError>)
    ensures
        outcome is Ok || outcome matches Err(StoreError::Database { .. }),
{
    let command = Command::for_score(score);
    proof {
        reveal_with_fuel(first_unstorable, 4);
        let parameters = score_parameters(score@);
        assert(parameters.drop_last().drop_last().drop_last().len() == 0);
    }
    run_command(connection, &command)
}

/// Lists the employees, in the order of their ids.
///
/// Unless the engine fails, the outcome is what [`employees_from_table`]
/// makes of the table that the engine returned: all the records or none.
pub fn get_employees(connection: &sqlite::Connection) -> (outcome: Result<Vec<Employee>, StoreError>)
    ensures
        outcome matches Err(StoreError::Database { .. }) || outcome matches Err(
            StoreError::TooManyRows,
        ) || exists|table: TableModel| employee_listing(table, outcome),
{
    let table = match fetch_table(connection, RecordKind::Employee) {
        Ok(table) => table,
        Err(error) => return Err(error),
    };
    let outcome = employees_from_table(&table);
    assert(employee_listing(table@, outcome));
    outcome
}

/// Lists the evaluation criteria, in the order of their ids.
pub fn get_evaluation_criteria(connection: &sqlite::Connection) -> (outcome: Result<
    Vec<EvaluationCriterion>,
    StoreError,
>)
    ensures
        outcome matches Err(StoreError::Database { .. }) || outcome matches Err(
            StoreError::TooManyRows,
        ) || exists|table: TableModel| criterion_listing(table, outcome),
{
    let table = match fetch_table(connection, RecordKind::Criterion) {
        Ok(table) => table,
        Err(error) => return Err(error),
    };
    let outcome = criteria_from_table(&table);
    assert(criterion_listing(table@, outcome));
    outcome
}

/// Lists the evaluation scores, in the order of their ids.
pub fn get_evaluation_scores(connection: &sqlite::Connection) -> (outcome: Result<
    Vec<EvaluationScore>,
    StoreError,
>)
    ensures
        outcome matches Err(StoreError::Database { .. }) || outcome matches Err(
            StoreError::TooManyRows,
        ) || exists|table: TableModel| score_listing(table, outcome),
{
    let table = match fetch_table(connection, RecordKind::Score) {
        Ok(table) => table,
        Err(error) => return Err(error),
    };
    let outcome = scores_from_table(&table);
    assert(score_listing(table@, outcome));
    outcome
}

} // verus!
