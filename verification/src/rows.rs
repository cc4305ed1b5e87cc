//! From result rows to records.
//!
//! A query result is a [`Table`]: the column names and, for each row, one
//! value per column. A record takes each of its fields from the column that
//! bears the field's name, wherever that column stands.

use vstd::prelude::*;
use crate::error::StoreError;
use crate::model::{CriterionModel, Employee, EmployeeModel, EvaluationCriterion, EvaluationScore};
use crate::statement::{
    criterion_columns, criterion_parameters, employee_columns, employee_parameters, score_columns,
    score_parameters, CRITERION_ID, DEPARTMENT, DESCRIPTION, EMPLOYEE_ID, ID, JOB_TITLE, NAME, SCORE,
    WEIGHTAGE,
};
use crate::value::{ColumnModel, ColumnValue, Real, models};

verus! {

/// The rows that a query returned, with the names of their columns.
#[derive(Debug, PartialEq)]
pub struct Table {
    pub columns: Vec<String>,
    pub rows: Vec<Vec<ColumnValue>>,
}

/// The mathematical content of a [`Table`].
pub struct TableModel {
    pub columns: Seq<Seq<char>>,
    pub rows: Seq<Seq<ColumnModel>>,
}

/// The column names as sequences of characters.
pub open spec fn names(columns: Seq<String>) -> Seq<Seq<char>> {
    columns.map_values(|s: String| s@)
}

impl View for Table {
    type V = TableModel;

    open spec fn view(&self) -> TableModel {
        TableModel {
            columns: names(self.columns@),
            rows: self.rows@.map_values(|row: Vec<ColumnValue>| models(row@)),
        }
    }
}

/// Where the column of that name stands: the last one, if several bear the
/// name, which is how the `sqlite` crate resolves a name too.
pub open spec fn position(columns: Seq<Seq<char>>, name: Seq<char>) -> Option<int>
    decreases columns.len(),
{
    if columns.len() == 0 {
        None
    } else if columns.last() == name {
        Some(columns.len() - 1)
    } else {
        position(columns.drop_last(), name)
    }
}

/// The position of a name is that of the last column that bears it, and
/// there is none exactly where no column bears the name.
pub proof fn lemma_position_is_the_last(columns: Seq<Seq<char>>, name: Seq<char>)
    ensures
        match position(columns, name) {
            Some(i) => {
                &&& 0 <= i < columns.len()
                &&& columns[i] == name
                &&& forall|j: int| i < j < columns.len() ==> columns[j] != name
            },
            None => forall|j: int| 0 <= j < columns.len() ==> columns[j] != name,
        },
    decreases columns.len(),
{
    if columns.len() > 0 && columns.last() != name {
        let front = columns.drop_last();
        lemma_position_is_the_last(front, name);
        assert forall|j: int| 0 <= j < front.len() implies front[j] == columns[j] by {}
        match position(front, name) {
            Some(i) => {
                assert forall|j: int| i < j < columns.len() implies columns[j] != name by {
                    if j < front.len() {
                        assert(front[j] != name);
                    }
                }
            },
            None => {
                assert forall|j: int| 0 <= j < columns.len() implies columns[j] != name by {
                    if j < front.len() {
                        assert(front[j] != name);
                    }
                }
            },
        }
    }
}

/// What a row holds in the column of that name, if it has such a column.
pub open spec fn cell(columns: Seq<Seq<char>>, row: Seq<ColumnModel>, name: Seq<char>) -> Option<
    ColumnModel,
> {
    match position(columns, name) {
        Some(i) => if i < row.len() {
            Some(row[i])
        } else {
            None
        },
        None => None,
    }
}

/// The integer in the column of that name.
pub open spec fn integer_at(columns: Seq<Seq<char>>, row: Seq<ColumnModel>, name: Seq<char>) -> Option<
    i64,
> {
    match cell(columns, row, name) {
        Some(ColumnModel::Integer(n)) => Some(n),
        _ => None,
    }
}

/// The text in the column of that name.
pub open spec fn text_at(columns: Seq<Seq<char>>, row: Seq<ColumnModel>, name: Seq<char>) -> Option<
    Seq<char>,
> {
    match cell(columns, row, name) {
        Some(ColumnModel::Text(s)) => Some(s),
        _ => None,
    }
}

/// The floating-point number in the column of that name.
pub open spec fn real_at(columns: Seq<Seq<char>>, row: Seq<ColumnModel>, name: Seq<char>) -> Option<
    Real,
> {
    match cell(columns, row, name) {
        Some(ColumnModel::Real(x)) => Some(x),
        _ => None,
    }
}

/// Finds the column of a given name.
pub fn find_column(columns: &Vec<String>, name: &str) -> (found: Option<usize>)
    ensures
        match found {
            Some(i) => position(names(columns@), name@) == Some(i as int),
            None => position(names(columns@), name@) is None,
        },
{
    let target = name.to_owned();
    let mut found: Option<usize> = None;
    let mut i: usize = 0;
    while i < columns.len()
        invariant
            i <= columns.len(),
            target@ == name@,
            match found {
                Some(k) => position(names(columns@).take(i as int), name@) == Some(k as int),
                None => position(names(columns@).take(i as int), name@) is None,
            },
        decreases columns.len() - i,
    {
        proof {
            let seen = names(columns@).take(i + 1);
            assert(seen.drop_last() =~= names(columns@).take(i as int));
            assert(seen.last() == columns[i as int]@);
        }
        if columns[i] == target {
            found = Some(i);
        }
        i += 1;
    }
    assert(names(columns@).take(i as int) =~= names(columns@));
    found
}

/// Reads the column of a given name out of a row.
pub fn find_cell<'a>(columns: &Vec<String>, row: &'a Vec<ColumnValue>, name: &str) -> (found:
    Option<&'a ColumnValue>)
    ensures
        match found {
            Some(value) => cell(names(columns@), models(row@), name@) == Some(value@),
            None => cell(names(columns@), models(row@), name@) is None,
        },
{
    match find_column(columns, name) {
        Some(i) => if i < row.len() {
            Some(&row[i])
        } else {
            None
        },
        None => None,
    }
}

/// Reads an integer column.
pub fn integer_cell(columns: &Vec<String>, row: &Vec<ColumnValue>, name: &str) -> (found: Option<
    i64,
>)
    ensures
        found == integer_at(names(columns@), models(row@), name@),
{
    match find_cell(columns, row, name) {
        Some(ColumnValue::Integer(n)) => Some(*n),
        _ => None,
    }
}

/// Reads a text column.
pub fn text_cell(columns: &Vec<String>, row: &Vec<ColumnValue>, name: &str) -> (found: Option<
    String,
>)
    ensures
        match found {
            Some(s) => text_at(names(columns@), models(row@), name@) == Some(s@),
            None => text_at(names(columns@), models(row@), name@) is None,
        },
{
    match find_cell(columns, row, name) {
        Some(ColumnValue::Text(s)) => Some(s.clone()),
        _ => None,
    }
}

/// Reads a floating-point column.
pub fn real_cell(columns: &Vec<String>, row: &Vec<ColumnValue>, name: &str) -> (found: Option<Real>)
    ensures
        found == real_at(names(columns@), models(row@), name@),
{
    match find_cell(columns, row, name) {
        Some(ColumnValue::Real(x)) => Some(x.clone()),
        _ => None,
    }
}

/// The employee that a row stands for: the id an integer, the other three
/// fields text. A row that lacks one of the columns, or holds another type
/// of value in it, stands for none.
pub open spec fn employee_of_row(columns: Seq<Seq<char>>, row: Seq<ColumnModel>) -> Option<
    EmployeeModel,
> {
    match (
        integer_at(columns, row, ID@),
        text_at(columns, row, NAME@),
        text_at(columns, row, DEPARTMENT@),
        text_at(columns, row, JOB_TITLE@),
    ) {
        (Some(id), Some(name), Some(department), Some(job_title)) => Some(
            EmployeeModel { id, name, department, job_title },
        ),
        _ => None,
    }
}

/// The criterion that a row stands for: the id an integer, name and
/// description text, the weightage a floating-point number.
pub open spec fn criterion_of_row(columns: Seq<Seq<char>>, row: Seq<ColumnModel>) -> Option<
    CriterionModel,
> {
    match (
        integer_at(columns, row, ID@),
        text_at(columns, row, NAME@),
        text_at(columns, row, DESCRIPTION@),
        real_at(columns, row, WEIGHTAGE@),
    ) {
        (Some(id), Some(name), Some(description), Some(weightage)) => Some(
            CriterionModel { id, name, description, weightage },
        ),
        _ => None,
    }
}

/// The score that a row stands for: the three ids integers, the score a
/// floating-point number.
pub open spec fn score_of_row(columns: Seq<Seq<char>>, row: Seq<ColumnModel>) -> Option<
    EvaluationScore,
> {
    match (
        integer_at(columns, row, ID@),
        integer_at(columns, row, EMPLOYEE_ID@),
        integer_at(columns, row, CRITERION_ID@),
        real_at(columns, row, SCORE@),
    ) {
        (Some(id), Some(employee_id), Some(criterion_id), Some(score)) => Some(
            EvaluationScore { id, employee_id, criterion_id, score },
        ),
        _ => None,
    }
}

/// Maps one row into an employee.
pub fn employee_from_row(columns: &Vec<String>, row: &Vec<ColumnValue>) -> (record: Option<
    Employee,
>)
    ensures
        match record {
            Some(e) => employee_of_row(names(columns@), models(row@)) == Some(e@),
            None => employee_of_row(names(columns@), models(row@)) is None,
        },
{
    let id = match integer_cell(columns, row, ID) {
        Some(n) => n,
        None => return None,
    };
    let name = match text_cell(columns, row, NAME) {
        Some(s) => s,
        None => return None,
    };
    let department = match text_cell(columns, row, DEPARTMENT) {
        Some(s) => s,
        None => return None,
    };
    let job_title = match text_cell(columns, row, JOB_TITLE) {
        Some(s) => s,
        None => return None,
    };
    Some(Employee { id, name, department, job_title })
}

/// Maps one row into an evaluation criterion.
pub fn criterion_from_row(columns: &Vec<String>, row: &Vec<ColumnValue>) -> (record: Option<
    EvaluationCriterion,
>)
    ensures
        match record {
            Some(c) => criterion_of_row(names(columns@), models(row@)) == Some(c@),
            None => criterion_of_row(names(columns@), models(row@)) is None,
        },
{
    let id = match integer_cell(columns, row, ID) {
        Some(n) => n,
        None => return None,
    };
    let name = match text_cell(columns, row, NAME) {
        Some(s) => s,
        None => return None,
    };
    let description = match text_cell(columns, row, DESCRIPTION) {
        Some(s) => s,
        None => return None,
    };
    let weightage = match real_cell(columns, row, WEIGHTAGE) {
        Some(x) => x,
        None => return None,
    };
    Some(EvaluationCriterion { id, name, description, weightage })
}

/// Maps one row into an evaluation score.
pub fn score_from_row(columns: &Vec<String>, row: &Vec<ColumnValue>) -> (record: Option<
    EvaluationScore,
>)
    ensures
        record == score_of_row(names(columns@), models(row@)),
{
    let id = match integer_cell(columns, row, ID) {
        Some(n) => n,
        None => return None,
    };
    let employee_id = match integer_cell(columns, row, EMPLOYEE_ID) {
        Some(n) => n,
        None => return None,
    };
    let criterion_id = match integer_cell(columns, row, CRITERION_ID) {
        Some(n) => n,
        None => return None,
    };
    let score = match real_cell(columns, row, SCORE) {
        Some(x) => x,
        None => return None,
    };
    Some(EvaluationScore { id, employee_id, criterion_id, score })
}

/// `outcome` is what a table of employee rows maps to: all the records, row
/// by row and in the rows' order, if every row stands for one; else the
/// position of the first row that does not, and no record at all.
pub open spec fn employee_listing(table: TableModel, outcome: Result<Vec<Employee>, StoreError>) -> bool {
    match outcome {
        Ok(list) => {
            &&& list@.len() == table.rows.len()
            &&& forall|i: int|
                0 <= i < list@.len() ==> employee_of_row(table.columns, table.rows[i]) == Some(
                    #[trigger] list@[i]@,
                )
        },
        Err(StoreError::MalformedRow { row }) => {
            &&& row < table.rows.len()
            &&& employee_of_row(table.columns, table.rows[row as int]) is None
            &&& forall|i: int|
                0 <= i < row ==> employee_of_row(table.columns, #[trigger] table.rows[i]) is Some
        },
        Err(_) => false,
    }
}

/// `outcome` is what a table of criterion rows maps to.
pub open spec fn criterion_listing(
    table: TableModel,
    outcome: Result<Vec<EvaluationCriterion>, StoreError>,
) -> bool {
    match outcome {
        Ok(list) => {
            &&& list@.len() == table.rows.len()
            &&& forall|i: int|
                0 <= i < list@.len() ==> criterion_of_row(table.columns, table.rows[i]) == Some(
                    #[trigger] list@[i]@,
                )
        },
        Err(StoreError::MalformedRow { row }) => {
            &&& row < table.rows.len()
            &&& criterion_of_row(table.columns, table.rows[row as int]) is None
            &&& forall|i: int|
                0 <= i < row ==> criterion_of_row(table.columns, #[trigger] table.rows[i]) is Some
        },
        Err(_) => false,
    }
}

/// `outcome` is what a table of score rows maps to.
pub open spec fn score_listing(
    table: TableModel,
    outcome: Result<Vec<EvaluationScore>, StoreError>,
) -> bool {
    match outcome {
        Ok(list) => {
            &&& list@.len() == table.rows.len()
            &&& forall|i: int|
                0 <= i < list@.len() ==> score_of_row(table.columns, table.rows[i]) == Some(
                    #[trigger] list@[i],
                )
        },
        Err(StoreError::MalformedRow { row }) => {
            &&& row < table.rows.len()
            &&& score_of_row(table.columns, table.rows[row as int]) is None
            &&& forall|i: int|
                0 <= i < row ==> score_of_row(table.columns, #[trigger] table.rows[i]) is Some
        },
        Err(_) => false,
    }
}

/// Maps every row of a table into an employee: the full list or nothing.
pub fn employees_from_table(table: &Table) -> (outcome: Result<Vec<Employee>, StoreError>)
    ensures
        employee_listing(table@, outcome),
{
    let mut list: Vec<Employee> = Vec::new();
    let mut i: usize = 0;
    while i < table.rows.len()
        invariant
            i <= table.rows.len(),
            list@.len() == i,
            forall|k: int|
                0 <= k < i ==> employee_of_row(table@.columns, table@.rows[k]) == Some(
                    #[trigger] list@[k]@,
                ),
            forall|k: int|
                0 <= k < i ==> employee_of_row(table@.columns, #[trigger] table@.rows[k]) is Some,
        decreases table.rows.len() - i,
    {
        match employee_from_row(&table.columns, &table.rows[i]) {
            Some(record) => list.push(record),
            None => return Err(StoreError::MalformedRow { row: i }),
        }
        i += 1;
    }
    Ok(list)
}

/// Maps every row of a table into a criterion: the full list or nothing.
pub fn criteria_from_table(table: &Table) -> (outcome: Result<Vec<EvaluationCriterion>, StoreError>)
    ensures
        criterion_listing(table@, outcome),
{
    let mut list: Vec<EvaluationCriterion> = Vec::new();
    let mut i: usize = 0;
    while i < table.rows.len()
        invariant
            i <= table.rows.len(),
            list@.len() == i,
            forall|k: int|
                0 <= k < i ==> criterion_of_row(table@.columns, table@.rows[k]) == Some(
                    #[trigger] list@[k]@,
                ),
            forall|k: int|
                0 <= k < i ==> criterion_of_row(table@.columns, #[trigger] table@.rows[k]) is Some,
        decreases table.rows.len() - i,
    {
        match criterion_from_row(&table.columns, &table.rows[i]) {
            Some(record) => list.push(record),
            None => return Err(StoreError::MalformedRow { row: i }),
        }
        i += 1;
    }
    Ok(list)
}

/// Maps every row of a table into a score: the full list or nothing.
pub fn scores_from_table(table: &Table) -> (outcome: Result<Vec<EvaluationScore>, StoreError>)
    ensures
        score_listing(table@, outcome),
{
    let mut list: Vec<EvaluationScore> = Vec::new();
    let mut i: usize = 0;
    while i < table.rows.len()
        invariant
            i <= table.rows.len(),
            list@.len() == i,
            forall|k: int|
                0 <= k < i ==> score_of_row(table@.columns, table@.rows[k]) == Some(
                    #[trigger] list@[k],
                ),
            forall|k: int|
                0 <= k < i ==> score_of_row(table@.columns, #[trigger] table@.rows[k]) is Some,
        decreases table.rows.len() - i,
    {
        match score_from_row(&table.columns, &table.rows[i]) {
            Some(record) => list.push(record),
            None => return Err(StoreError::MalformedRow { row: i }),
        }
        i += 1;
    }
    Ok(list)
}

/// The row of a store that keeps faithfully what it was given: the id that
/// it assigned, then the parameters that the record was inserted with.
pub open spec fn stored_row(id: i64, parameters: Seq<ColumnModel>) -> Seq<ColumnModel> {
    seq![ColumnModel::Integer(id)] + parameters
}

/// Among four names that differ from one another, each stands where it was
/// put.
proof fn lemma_positions_of_four(a: Seq<char>, b: Seq<char>, c: Seq<char>, d: Seq<char>)
    requires
        a != b,
        a != c,
        a != d,
        b != c,
        b != d,
        c != d,
    ensures
        position(seq![a, b, c, d], a) == Some(0int),
        position(seq![a, b, c, d], b) == Some(1int),
        position(seq![a, b, c, d], c) == Some(2int),
        position(seq![a, b, c, d], d) == Some(3int),
{
    let s4 = seq![a, b, c, d];
    let s3 = seq![a, b, c];
    let s2 = seq![a, b];
    let s1 = seq![a];
    assert(s4.drop_last() =~= s3);
    assert(s3.drop_last() =~= s2);
    assert(s2.drop_last() =~= s1);
    assert(position(s1, a) == Some(0int));
    assert(position(s2, a) == Some(0int));
    assert(position(s2, b) == Some(1int));
    assert(position(s3, a) == Some(0int));
    assert(position(s3, b) == Some(1int));
    assert(position(s3, c) == Some(2int));
}

/// No two columns of a record bear the same name.
proof fn lemma_column_names_differ()
    ensures
        ID@ != NAME@,
        ID@ != DEPARTMENT@,
        ID@ != JOB_TITLE@,
        ID@ != DESCRIPTION@,
        ID@ != WEIGHTAGE@,
        ID@ != EMPLOYEE_ID@,
        ID@ != CRITERION_ID@,
        ID@ != SCORE@,
        NAME@ != DEPARTMENT@,
        NAME@ != JOB_TITLE@,
        NAME@ != DESCRIPTION@,
        NAME@ != WEIGHTAGE@,
        DEPARTMENT@ != JOB_TITLE@,
        DESCRIPTION@ != WEIGHTAGE@,
        EMPLOYEE_ID@ != CRITERION_ID@,
        EMPLOYEE_ID@ != SCORE@,
        CRITERION_ID@ != SCORE@,
{
    reveal_strlit("id");
    reveal_strlit("name");
    reveal_strlit("department");
    reveal_strlit("job_title");
    reveal_strlit("description");
    reveal_strlit("weightage");
    reveal_strlit("employee_id");
    reveal_strlit("criterion_id");
    reveal_strlit("score");
    assert(NAME@[0] != DEPARTMENT@[0]);
    assert(NAME@[0] != JOB_TITLE@[0]);
    assert(NAME@[0] != DESCRIPTION@[0]);
    assert(NAME@[0] != WEIGHTAGE@[0]);
    assert(DEPARTMENT@[1] != JOB_TITLE@[1]);
    assert(DESCRIPTION@[0] != WEIGHTAGE@[0]);
    assert(EMPLOYEE_ID@[0] != CRITERION_ID@[0]);
    assert(EMPLOYEE_ID@[0] != SCORE@[0]);
    assert(CRITERION_ID@[0] != SCORE@[0]);
}

/// What is inserted of an employee is what a listing makes of it: the row
/// that holds the parameters of the insertion, under the id that the store
/// chose, maps back to the same name, department and job title, character
/// for character, and to that id.
pub proof fn lemma_employee_round_trip(employee: EmployeeModel, id: i64)
    ensures
        employee_of_row(employee_columns(), stored_row(id, employee_parameters(employee))) == Some(
            EmployeeModel {
                id,
                name: employee.name,
                department: employee.department,
                job_title: employee.job_title,
            },
        ),
{
    lemma_column_names_differ();
    lemma_positions_of_four(ID@, NAME@, DEPARTMENT@, JOB_TITLE@);
    assert(employee_columns() =~= seq![ID@, NAME@, DEPARTMENT@, JOB_TITLE@]);
}

/// What is inserted of a criterion is what a listing makes of it: name and
/// description character for character, the weightage as the very number
/// that was given.
pub proof fn lemma_criterion_round_trip(criterion: CriterionModel, id: i64)
    ensures
        criterion_of_row(criterion_columns(), stored_row(id, criterion_parameters(criterion)))
            == Some(
            CriterionModel {
                id,
                name: criterion.name,
                description: criterion.description,
                weightage: criterion.weightage,
            },
        ),
{
    lemma_column_names_differ();
    lemma_positions_of_four(ID@, NAME@, DESCRIPTION@, WEIGHTAGE@);
    assert(criterion_columns() =~= seq![ID@, NAME@, DESCRIPTION@, WEIGHTAGE@]);
}

/// What is inserted of a score is what a listing makes of it: both
/// references and the score itself, unchanged.
pub proof fn lemma_score_round_trip(score: EvaluationScore, id: i64)
    ensures
        score_of_row(score_columns(), stored_row(id, score_parameters(score))) == Some(
            EvaluationScore {
                id,
                employee_id: score.employee_id,
                criterion_id: score.criterion_id,
                score: score.score,
            },
        ),
{
    lemma_column_names_differ();
    lemma_positions_of_four(ID@, EMPLOYEE_ID@, CRITERION_ID@, SCORE@);
    assert(score_columns() =~= seq![ID@, EMPLOYEE_ID@, CRITERION_ID@, SCORE@]);
}

/// Listing employees from a store that kept the insertions faithfully gives
/// exactly the employees that were inserted, in their order, each under its id
/// and with every field as it was.
pub proof fn lemma_employees_listed_as_inserted(
    inserted: Seq<EmployeeModel>,
    ids: Seq<i64>,
    table: TableModel,
    outcome: Result<Vec<Employee>, StoreError>,
)
    requires
        ids.len() == inserted.len(),
        table.columns == employee_columns(),
        table.rows.len() == inserted.len(),
        forall|i: int|
            0 <= i < inserted.len() ==> #[trigger] table.rows[i] == stored_row(
                ids[i],
                employee_parameters(inserted[i]),
            ),
        employee_listing(table, outcome),
    ensures
        outcome matches Ok(list) && list@.len() == inserted.len() && forall|i: int|
            0 <= i < inserted.len() ==> (#[trigger] list@[i])@ == (EmployeeModel {
                id: ids[i],
                name: inserted[i].name,
                department: inserted[i].department,
                job_title: inserted[i].job_title,
            }),
{
    assert forall|i: int| 0 <= i < inserted.len() implies employee_of_row(
        table.columns,
        #[trigger] table.rows[i],
    ) == Some(
        EmployeeModel {
            id: ids[i],
            name: inserted[i].name,
            department: inserted[i].department,
            job_title: inserted[i].job_title,
        },
    ) by {
        lemma_employee_round_trip(inserted[i], ids[i]);
    }
    match outcome {
        Ok(list) => {
            assert forall|i: int| 0 <= i < inserted.len() implies (#[trigger] list@[i])@ == (
            EmployeeModel {
                id: ids[i],
                name: inserted[i].name,
                department: inserted[i].department,
                job_title: inserted[i].job_title,
            }) by {
                assert(employee_of_row(table.columns, table.rows[i]) == Some(list@[i]@));
            }
        },
        Err(StoreError::MalformedRow { row }) => {
            assert(employee_of_row(table.columns, table.rows[row as int]) is Some);
        },
        Err(_) => {},
    }
}

/// Listing criteria from a store that kept the insertions faithfully gives
/// exactly the criteria that were inserted, in their order, each under its
/// id, with its texts and its weightage as they were.
pub proof fn lemma_criteria_listed_as_inserted(
    inserted: Seq<CriterionModel>,
    ids: Seq<i64>,
    table: TableModel,
    outcome: Result<Vec<EvaluationCriterion>, StoreError>,
)
    requires
        ids.len() == inserted.len(),
        table.columns == criterion_columns(),
        table.rows.len() == inserted.len(),
        forall|i: int|
            0 <= i < inserted.len() ==> #[trigger] table.rows[i] == stored_row(
                ids[i],
                criterion_parameters(inserted[i]),
            ),
        criterion_listing(table, outcome),
    ensures
        outcome matches Ok(list) && list@.len() == inserted.len() && forall|i: int|
            0 <= i < inserted.len() ==> (#[trigger] list@[i])@ == (CriterionModel {
                id: ids[i],
                name: inserted[i].name,
                description: inserted[i].description,
                weightage: inserted[i].weightage,
            }),
{
    assert forall|i: int| 0 <= i < inserted.len() implies criterion_of_row(
        table.columns,
        #[trigger] table.rows[i],
    ) == Some(
        CriterionModel {
            id: ids[i],
            name: inserted[i].name,
            description: inserted[i].description,
            weightage: inserted[i].weightage,
        },
    ) by {
        lemma_criterion_round_trip(inserted[i], ids[i]);
    }
    match outcome {
        Ok(list) => {
            assert forall|i: int| 0 <= i < inserted.len() implies (#[trigger] list@[i])@ == (
            CriterionModel {
                id: ids[i],
                name: inserted[i].name,
                description: inserted[i].description,
                weightage: inserted[i].weightage,
            }) by {
                assert(criterion_of_row(table.columns, table.rows[i]) == Some(list@[i]@));
            }
        },
        Err(StoreError::MalformedRow { row }) => {
            assert(criterion_of_row(table.columns, table.rows[row as int]) is Some);
        },
        Err(_) => {},
    }
}

/// Listing scores from a store that kept the insertions faithfully gives
/// exactly the scores that were inserted, in their order, each under its id,
/// with its two references and its score as they were.
pub proof fn lemma_scores_listed_as_inserted(
    inserted: Seq<EvaluationScore>,
    ids: Seq<i64>,
    table: TableModel,
    outcome: Result<Vec<EvaluationScore>, StoreError>,
)
    requires
        ids.len() == inserted.len(),
        table.columns == score_columns(),
        table.rows.len() == inserted.len(),
        forall|i: int|
            0 <= i < inserted.len() ==> #[trigger] table.rows[i] == stored_row(
                ids[i],
                score_parameters(inserted[i]),
            ),
        score_listing(table, outcome),
    ensures
        outcome matches Ok(list) && list@.len() == inserted.len() && forall|i: int|
            0 <= i < inserted.len() ==> #[trigger] list@[i] == (EvaluationScore {
                id: ids[i],
                employee_id: inserted[i].employee_id,
                criterion_id: inserted[i].criterion_id,
                score: inserted[i].score,
            }),
{
    assert forall|i: int| 0 <= i < inserted.len() implies score_of_row(
        table.columns,
        #[trigger] table.rows[i],
    ) == Some(
        EvaluationScore {
            id: ids[i],
            employee_id: inserted[i].employee_id,
            criterion_id: inserted[i].criterion_id,
            score: inserted[i].score,
        },
    ) by {
        lemma_score_round_trip(inserted[i], ids[i]);
    }
    match outcome {
        Ok(list) => {
            assert forall|i: int| 0 <= i < inserted.len() implies #[trigger] list@[i] == (
            EvaluationScore {
                id: ids[i],
                employee_id: inserted[i].employee_id,
                criterion_id: inserted[i].criterion_id,
                score: inserted[i].score,
            }) by {
                assert(score_of_row(table.columns, table.rows[i]) == Some(list@[i]));
            }
        },
        Err(StoreError::MalformedRow { row }) => {
            assert(score_of_row(table.columns, table.rows[row as int]) is Some);
        },
        Err(_) => {},
    }
}

/// A table without rows lists as an empty sequence, not as an error,
/// whichever kind of record is asked for.
pub proof fn lemma_empty_table_lists_nothing(
    table: TableModel,
    employees: Result<Vec<Employee>, StoreError>,
    criteria: Result<Vec<EvaluationCriterion>, StoreError>,
    scores: Result<Vec<EvaluationScore>, StoreError>,
)
    requires
        table.rows.len() == 0,
    ensures
        employee_listing(table, employees) ==> (employees matches Ok(list) && list@.len() == 0),
        criterion_listing(table, criteria) ==> (criteria matches Ok(list) && list@.len() == 0),
        score_listing(table, scores) ==> (scores matches Ok(list) && list@.len() == 0),
{
}

} // verus!
