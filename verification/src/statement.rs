//! The statements that the library sends to the store.
//!
//! Every statement text is a constant. A record's fields never become part of
//! a text: they travel beside it, as the parameters of a [`Command`].

use vstd::prelude::*;
use crate::model::{CriterionModel, Employee, EmployeeModel, EvaluationCriterion, EvaluationScore};
use crate::value::{ColumnModel, ColumnValue, models};

verus! {

pub const CREATE_EMPLOYEES: &'static str =
    "CREATE TABLE IF NOT EXISTS employees (id INTEGER PRIMARY KEY, name TEXT NOT NULL, department TEXT NOT NULL, job_title TEXT NOT NULL)";

pub const CREATE_CRITERIA: &'static str =
    "CREATE TABLE IF NOT EXISTS evaluation_criteria (id INTEGER PRIMARY KEY, name TEXT NOT NULL, description TEXT, weightage REAL NOT NULL)";

pub const CREATE_SCORES: &'static str =
    "CREATE TABLE IF NOT EXISTS evaluation_scores (id INTEGER PRIMARY KEY, employee_id INTEGER NOT NULL, criterion_id INTEGER NOT NULL, score REAL NOT NULL, FOREIGN KEY (employee_id) REFERENCES employees(id), FOREIGN KEY (criterion_id) REFERENCES evaluation_criteria(id))";

pub const INSERT_EMPLOYEE: &'static str =
    "INSERT INTO employees (name, department, job_title) VALUES (?, ?, ?)";

pub const INSERT_CRITERION: &'static str =
    "INSERT INTO evaluation_criteria (name, description, weightage) VALUES (?, ?, ?)";

pub const INSERT_SCORE: &'static str =
    "INSERT INTO evaluation_scores (employee_id, criterion_id, score) VALUES (?, ?, ?)";

pub const SELECT_EMPLOYEES: &'static str =
    "SELECT id, name, department, job_title FROM employees ORDER BY id";

pub const SELECT_CRITERIA: &'static str =
    "SELECT id, name, description, weightage FROM evaluation_criteria ORDER BY id";

pub const SELECT_SCORES: &'static str =
    "SELECT id, employee_id, criterion_id, score FROM evaluation_scores ORDER BY id";

pub const EMPLOYEES: &'static str = "employees";

pub const CRITERIA: &'static str = "evaluation_criteria";

pub const SCORES: &'static str = "evaluation_scores";

pub const ID: &'static str = "id";

pub const NAME: &'static str = "name";

pub const DEPARTMENT: &'static str = "department";

pub const JOB_TITLE: &'static str = "job_title";

pub const DESCRIPTION: &'static str = "description";

pub const WEIGHTAGE: &'static str = "weightage";

pub const EMPLOYEE_ID: &'static str = "employee_id";

pub const CRITERION_ID: &'static str = "criterion_id";

pub const SCORE: &'static str = "score";

/// A kind of record, and with it a table.
#[derive(Debug, Clone, Copy, PartialEq, Eq)]
pub enum RecordKind {
    Employee,
    Criterion,
    Score,
}

impl RecordKind {
    /// The text of the statement that inserts a record of this kind.
    pub open spec fn insertion(self) -> Seq<char> {
        match self {
            RecordKind::Employee => INSERT_EMPLOYEE@,
            RecordKind::Criterion => INSERT_CRITERION@,
            RecordKind::Score => INSERT_SCORE@,
        }
    }

    /// The text of the statement that lists the records of this kind.
    pub open spec fn query(self) -> Seq<char> {
        match self {
            RecordKind::Employee => SELECT_EMPLOYEES@,
            RecordKind::Criterion => SELECT_CRITERIA@,
            RecordKind::Score => SELECT_SCORES@,
        }
    }

    /// The text of the statement that inserts a record of this kind.
    pub fn insertion_text(&self) -> (text: &'static str)
        ensures
            text@ == self.insertion(),
    {
        match self {
            RecordKind::Employee => INSERT_EMPLOYEE,
            RecordKind::Criterion => INSERT_CRITERION,
            RecordKind::Score => INSERT_SCORE,
        }
    }

    /// The text of the statement that lists the records of this kind.
    pub fn query_text(&self) -> (text: &'static str)
        ensures
            text@ == self.query(),
    {
        match self {
            RecordKind::Employee => SELECT_EMPLOYEES,
            RecordKind::Criterion => SELECT_CRITERIA,
            RecordKind::Score => SELECT_SCORES,
        }
    }
}

/// The text is one of the insertions or queries of this library.
pub open spec fn is_statement(text: Seq<char>) -> bool {
    ||| text == INSERT_EMPLOYEE@
    ||| text == INSERT_CRITERION@
    ||| text == INSERT_SCORE@
    ||| text == SELECT_EMPLOYEES@
    ||| text == SELECT_CRITERIA@
    ||| text == SELECT_SCORES@
}

/// What every schema statement starts with.
pub const CREATE_IF_ABSENT: &'static str = "CREATE TABLE IF NOT EXISTS ";

/// The text asks for a table to be created unless it is there already.
pub open spec fn creates_if_absent(text: Seq<char>) -> bool {
    CREATE_IF_ABSENT@.is_prefix_of(text)
}

/// The schema, in the order in which its statements run.
pub open spec fn schema_texts() -> Seq<Seq<char>> {
    seq![CREATE_EMPLOYEES@, CREATE_CRITERIA@, CREATE_SCORES@]
}

/// The three statements that set the store up.
pub fn schema() -> (statements: Vec<&'static str>)
    ensures
        statements@.map_values(|s: &'static str| s@) == schema_texts(),
{
    let mut statements: Vec<&'static str> = Vec::new();
    statements.push(CREATE_EMPLOYEES);
    statements.push(CREATE_CRITERIA);
    statements.push(CREATE_SCORES);
    assert(statements@.map_values(|s: &'static str| s@) =~= schema_texts());
    statements
}

/// Setting the store up never drops or alters a table: each statement of the
/// schema creates its table only where the table is absent.
pub proof fn lemma_schema_creates_if_absent()
    ensures
        forall|i: int| 0 <= i < schema_texts().len() ==> creates_if_absent(#[trigger] schema_texts()[i]),
{
    reveal_strlit("CREATE TABLE IF NOT EXISTS ");
    reveal_strlit(
        "CREATE TABLE IF NOT EXISTS employees (id INTEGER PRIMARY KEY, name TEXT NOT NULL, department TEXT NOT NULL, job_title TEXT NOT NULL)",
    );
    reveal_strlit(
        "CREATE TABLE IF NOT EXISTS evaluation_criteria (id INTEGER PRIMARY KEY, name TEXT NOT NULL, description TEXT, weightage REAL NOT NULL)",
    );
    reveal_strlit(
        "CREATE TABLE IF NOT EXISTS evaluation_scores (id INTEGER PRIMARY KEY, employee_id INTEGER NOT NULL, criterion_id INTEGER NOT NULL, score REAL NOT NULL, FOREIGN KEY (employee_id) REFERENCES employees(id), FOREIGN KEY (criterion_id) REFERENCES evaluation_criteria(id))",
    );
    assert(CREATE_IF_ABSENT@ =~= CREATE_EMPLOYEES@.subrange(0, 27));
    assert(CREATE_IF_ABSENT@ =~= CREATE_CRITERIA@.subrange(0, 27));
    assert(CREATE_IF_ABSENT@ =~= CREATE_SCORES@.subrange(0, 27));
}

/// The columns of an employee that an insertion fills, in order.
pub open spec fn employee_fields() -> Seq<Seq<char>> {
    seq![NAME@, DEPARTMENT@, JOB_TITLE@]
}

/// The columns of a criterion that an insertion fills, in order.
pub open spec fn criterion_fields() -> Seq<Seq<char>> {
    seq![NAME@, DESCRIPTION@, WEIGHTAGE@]
}

/// The columns of a score that an insertion fills, in order.
pub open spec fn score_fields() -> Seq<Seq<char>> {
    seq![EMPLOYEE_ID@, CRITERION_ID@, SCORE@]
}

/// The columns that the employees query asks for: the id, then the fields.
pub open spec fn employee_columns() -> Seq<Seq<char>> {
    seq![ID@] + employee_fields()
}

/// The columns that the criteria query asks for: the id, then the fields.
pub open spec fn criterion_columns() -> Seq<Seq<char>> {
    seq![ID@] + criterion_fields()
}

/// The columns that the scores query asks for: the id, then the fields.
pub open spec fn score_columns() -> Seq<Seq<char>> {
    seq![ID@] + score_fields()
}

/// Items written one after the other with `, ` between them.
pub open spec fn listed(items: Seq<Seq<char>>) -> Seq<char>
    decreases items.len(),
{
    if items.len() == 0 {
        Seq::empty()
    } else if items.len() == 1 {
        items.last()
    } else {
        listed(items.drop_last()) + ", "@ + items.last()
    }
}

/// The text of an insertion into a table: it names the columns to fill and
/// holds one placeholder for each, and nothing of any record.
pub open spec fn insertion_of(table: Seq<char>, fields: Seq<Seq<char>>) -> Seq<char> {
    "INSERT INTO "@ + table + " ("@ + listed(fields) + ") VALUES ("@ + listed(
        Seq::new(fields.len(), |i: int| "?"@),
    ) + ")"@
}

/// The text of a query for all rows of a table, in the order of their ids.
pub open spec fn query_of(table: Seq<char>, columns: Seq<Seq<char>>) -> Seq<char> {
    "SELECT "@ + listed(columns) + " FROM "@ + table + " ORDER BY id"@
}

/// The declaration of a column: its name, then its type and constraints.
pub open spec fn column(name: Seq<char>, declaration: Seq<char>) -> Seq<char> {
    name + " "@ + declaration
}

/// The declaration that a column refers to the id of a row of another table.
pub open spec fn reference(name: Seq<char>, table: Seq<char>) -> Seq<char> {
    "FOREIGN KEY ("@ + name + ") REFERENCES "@ + table + "("@ + ID@ + ")"@
}

/// The text that creates a table, unless it exists, with the given
/// declarations.
pub open spec fn creation_of(table: Seq<char>, declarations: Seq<Seq<char>>) -> Seq<char> {
    CREATE_IF_ABSENT@ + table + " ("@ + listed(declarations) + ")"@
}

/// What the employees table is declared with.
pub open spec fn employee_declarations() -> Seq<Seq<char>> {
    seq![
        column(ID@, "INTEGER PRIMARY KEY"@),
        column(NAME@, "TEXT NOT NULL"@),
        column(DEPARTMENT@, "TEXT NOT NULL"@),
        column(JOB_TITLE@, "TEXT NOT NULL"@),
    ]
}

/// What the criteria table is declared with. The description may be absent.
pub open spec fn criterion_declarations() -> Seq<Seq<char>> {
    seq![
        column(ID@, "INTEGER PRIMARY KEY"@),
        column(NAME@, "TEXT NOT NULL"@),
        column(DESCRIPTION@, "TEXT"@),
        column(WEIGHTAGE@, "REAL NOT NULL"@),
    ]
}

/// What the scores table is declared with: its columns, and that the two
/// references point to an employee and to a criterion.
pub open spec fn score_declarations() -> Seq<Seq<char>> {
    seq![
        column(ID@, "INTEGER PRIMARY KEY"@),
        column(EMPLOYEE_ID@, "INTEGER NOT NULL"@),
        column(CRITERION_ID@, "INTEGER NOT NULL"@),
        column(SCORE@, "REAL NOT NULL"@),
        reference(EMPLOYEE_ID@, EMPLOYEES@),
        reference(CRITERION_ID@, CRITERIA@),
    ]
}

/// Three items, listed.
proof fn lemma_listed_three(a: Seq<char>, b: Seq<char>, c: Seq<char>)
    ensures
        listed(seq![a, b, c]) == a + ", "@ + b + ", "@ + c,
{
    let three = seq![a, b, c];
    let two = seq![a, b];
    assert(three.drop_last() =~= two);
    assert(two.drop_last() =~= seq![a]);
    assert(listed(seq![a]) == a);
    assert(listed(two) == a + ", "@ + b);
}

/// Four items, listed.
proof fn lemma_listed_four(a: Seq<char>, b: Seq<char>, c: Seq<char>, d: Seq<char>)
    ensures
        listed(seq![a, b, c, d]) == a + ", "@ + b + ", "@ + c + ", "@ + d,
{
    let four = seq![a, b, c, d];
    assert(four.drop_last() =~= seq![a, b, c]);
    lemma_listed_three(a, b, c);
}

/// Six items, listed.
proof fn lemma_listed_six(
    a: Seq<char>,
    b: Seq<char>,
    c: Seq<char>,
    d: Seq<char>,
    e: Seq<char>,
    f: Seq<char>,
)
    ensures
        listed(seq![a, b, c, d, e, f]) == a + ", "@ + b + ", "@ + c + ", "@ + d + ", "@ + e + ", "@
            + f,
{
    let six = seq![a, b, c, d, e, f];
    let five = seq![a, b, c, d, e];
    let four = seq![a, b, c, d];
    assert(six.drop_last() =~= five);
    assert(five.drop_last() =~= four);
    lemma_listed_four(a, b, c, d);
    assert(listed(five) == listed(four) + ", "@ + e);
    assert(listed(six) == listed(five) + ", "@ + f);
}

/// Each statement of the schema creates one table unless it exists, under
/// the name that the insertion and the query use, and declares the columns
/// under the names that they use.
pub proof fn lemma_schema_texts()
    ensures
        CREATE_EMPLOYEES@ == creation_of(EMPLOYEES@, employee_declarations()),
        CREATE_CRITERIA@ == creation_of(CRITERIA@, criterion_declarations()),
        CREATE_SCORES@ == creation_of(SCORES@, score_declarations()),
{
    reveal_strlit(
        "CREATE TABLE IF NOT EXISTS employees (id INTEGER PRIMARY KEY, name TEXT NOT NULL, department TEXT NOT NULL, job_title TEXT NOT NULL)",
    );
    reveal_strlit(
        "CREATE TABLE IF NOT EXISTS evaluation_criteria (id INTEGER PRIMARY KEY, name TEXT NOT NULL, description TEXT, weightage REAL NOT NULL)",
    );
    reveal_strlit(
        "CREATE TABLE IF NOT EXISTS evaluation_scores (id INTEGER PRIMARY KEY, employee_id INTEGER NOT NULL, criterion_id INTEGER NOT NULL, score REAL NOT NULL, FOREIGN KEY (employee_id) REFERENCES employees(id), FOREIGN KEY (criterion_id) REFERENCES evaluation_criteria(id))",
    );
    reveal_strlit("CREATE TABLE IF NOT EXISTS ");
    reveal_strlit(" (");
    reveal_strlit(", ");
    reveal_strlit(")");
    reveal_strlit(" ");
    reveal_strlit("(");
    reveal_strlit("FOREIGN KEY (");
    reveal_strlit(") REFERENCES ");
    reveal_strlit("INTEGER PRIMARY KEY");
    reveal_strlit("INTEGER NOT NULL");
    reveal_strlit("TEXT NOT NULL");
    reveal_strlit("REAL NOT NULL");
    reveal_strlit("TEXT");
    reveal_strlit("employees");
    reveal_strlit("evaluation_criteria");
    reveal_strlit("evaluation_scores");
    reveal_strlit("id");
    reveal_strlit("name");
    reveal_strlit("department");
    reveal_strlit("job_title");
    reveal_strlit("description");
    reveal_strlit("weightage");
    reveal_strlit("employee_id");
    reveal_strlit("criterion_id");
    reveal_strlit("score");
    lemma_listed_four(
        column(ID@, "INTEGER PRIMARY KEY"@),
        column(NAME@, "TEXT NOT NULL"@),
        column(DEPARTMENT@, "TEXT NOT NULL"@),
        column(JOB_TITLE@, "TEXT NOT NULL"@),
    );
    assert(CREATE_EMPLOYEES@ =~= creation_of(EMPLOYEES@, employee_declarations()));
    lemma_listed_four(
        column(ID@, "INTEGER PRIMARY KEY"@),
        column(NAME@, "TEXT NOT NULL"@),
        column(DESCRIPTION@, "TEXT"@),
        column(WEIGHTAGE@, "REAL NOT NULL"@),
    );
    assert(CREATE_CRITERIA@ =~= creation_of(CRITERIA@, criterion_declarations()));
    lemma_listed_six(
        column(ID@, "INTEGER PRIMARY KEY"@),
        column(EMPLOYEE_ID@, "INTEGER NOT NULL"@),
        column(CRITERION_ID@, "INTEGER NOT NULL"@),
        column(SCORE@, "REAL NOT NULL"@),
        reference(EMPLOYEE_ID@, EMPLOYEES@),
        reference(CRITERION_ID@, CRITERIA@),
    );
    assert(CREATE_SCORES@ =~= creation_of(SCORES@, score_declarations()));
}

/// The text of each insertion is made of the table's name, the names of
/// the fields that the command binds, in the command's order, and one
/// placeholder for each field.
pub proof fn lemma_insertion_texts()
    ensures
        INSERT_EMPLOYEE@ == insertion_of(EMPLOYEES@, employee_fields()),
        INSERT_CRITERION@ == insertion_of(CRITERIA@, criterion_fields()),
        INSERT_SCORE@ == insertion_of(SCORES@, score_fields()),
{
    reveal_strlit("INSERT INTO employees (name, department, job_title) VALUES (?, ?, ?)");
    reveal_strlit("INSERT INTO evaluation_criteria (name, description, weightage) VALUES (?, ?, ?)");
    reveal_strlit("INSERT INTO evaluation_scores (employee_id, criterion_id, score) VALUES (?, ?, ?)");
    reveal_strlit("INSERT INTO ");
    reveal_strlit(" (");
    reveal_strlit(", ");
    reveal_strlit(") VALUES (");
    reveal_strlit("?");
    reveal_strlit(")");
    reveal_strlit("employees");
    reveal_strlit("evaluation_criteria");
    reveal_strlit("evaluation_scores");
    reveal_strlit("name");
    reveal_strlit("department");
    reveal_strlit("job_title");
    reveal_strlit("description");
    reveal_strlit("weightage");
    reveal_strlit("employee_id");
    reveal_strlit("criterion_id");
    reveal_strlit("score");
    lemma_listed_three("?"@, "?"@, "?"@);
    assert(Seq::new(3, |i: int| "?"@) =~= seq!["?"@, "?"@, "?"@]);
    lemma_listed_three(NAME@, DEPARTMENT@, JOB_TITLE@);
    assert(INSERT_EMPLOYEE@ =~= insertion_of(EMPLOYEES@, employee_fields()));
    lemma_listed_three(NAME@, DESCRIPTION@, WEIGHTAGE@);
    assert(INSERT_CRITERION@ =~= insertion_of(CRITERIA@, criterion_fields()));
    lemma_listed_three(EMPLOYEE_ID@, CRITERION_ID@, SCORE@);
    assert(INSERT_SCORE@ =~= insertion_of(SCORES@, score_fields()));
}

/// The text of each query names the table and the columns that a record is
/// read from, the id first, and asks for the rows in the order of their ids.
pub proof fn lemma_query_texts()
    ensures
        SELECT_EMPLOYEES@ == query_of(EMPLOYEES@, employee_columns()),
        SELECT_CRITERIA@ == query_of(CRITERIA@, criterion_columns()),
        SELECT_SCORES@ == query_of(SCORES@, score_columns()),
{
    reveal_strlit("SELECT id, name, department, job_title FROM employees ORDER BY id");
    reveal_strlit("SELECT id, name, description, weightage FROM evaluation_criteria ORDER BY id");
    reveal_strlit("SELECT id, employee_id, criterion_id, score FROM evaluation_scores ORDER BY id");
    reveal_strlit("SELECT ");
    reveal_strlit(", ");
    reveal_strlit(" FROM ");
    reveal_strlit(" ORDER BY id");
    reveal_strlit("employees");
    reveal_strlit("evaluation_criteria");
    reveal_strlit("evaluation_scores");
    reveal_strlit("id");
    reveal_strlit("name");
    reveal_strlit("department");
    reveal_strlit("job_title");
    reveal_strlit("description");
    reveal_strlit("weightage");
    reveal_strlit("employee_id");
    reveal_strlit("criterion_id");
    reveal_strlit("score");
    assert(employee_columns() =~= seq![ID@, NAME@, DEPARTMENT@, JOB_TITLE@]);
    lemma_listed_four(ID@, NAME@, DEPARTMENT@, JOB_TITLE@);
    assert(SELECT_EMPLOYEES@ =~= query_of(EMPLOYEES@, employee_columns()));
    assert(criterion_columns() =~= seq![ID@, NAME@, DESCRIPTION@, WEIGHTAGE@]);
    lemma_listed_four(ID@, NAME@, DESCRIPTION@, WEIGHTAGE@);
    assert(SELECT_CRITERIA@ =~= query_of(CRITERIA@, criterion_columns()));
    assert(score_columns() =~= seq![ID@, EMPLOYEE_ID@, CRITERION_ID@, SCORE@]);
    lemma_listed_four(ID@, EMPLOYEE_ID@, CRITERION_ID@, SCORE@);
    assert(SELECT_SCORES@ =~= query_of(SCORES@, score_columns()));
}

/// An insertion: the kind of record to insert, which fixes the statement's
/// text, and the values bound to the text's placeholders, `parameters[i]` to
/// placeholder `i + 1`.
#[derive(Debug, PartialEq)]
pub struct Command {
    pub kind: RecordKind,
    pub parameters: Vec<ColumnValue>,
}

/// The mathematical content of a [`Command`].
pub struct CommandModel {
    pub text: Seq<char>,
    pub parameters: Seq<ColumnModel>,
}

impl View for Command {
    type V = CommandModel;

    open spec fn view(&self) -> CommandModel {
        CommandModel { text: self.kind.insertion(), parameters: models(self.parameters@) }
    }
}

/// The fields of an employee that are stored, in column order. The id is
/// not among them: the store assigns it.
pub open spec fn employee_parameters(employee: EmployeeModel) -> Seq<ColumnModel> {
    seq![
        ColumnModel::Text(employee.name),
        ColumnModel::Text(employee.department),
        ColumnModel::Text(employee.job_title),
    ]
}

/// The fields of a criterion that are stored, in column order.
pub open spec fn criterion_parameters(criterion: CriterionModel) -> Seq<ColumnModel> {
    seq![
        ColumnModel::Text(criterion.name),
        ColumnModel::Text(criterion.description),
        ColumnModel::Real(criterion.weightage),
    ]
}

/// The fields of a score that are stored, in column order.
pub open spec fn score_parameters(score: EvaluationScore) -> Seq<ColumnModel> {
    seq![
        ColumnModel::Integer(score.employee_id),
        ColumnModel::Integer(score.criterion_id),
        ColumnModel::Real(score.score),
    ]
}

impl Command {
    /// The text of the command's statement.
    pub fn text(&self) -> (text: &'static str)
        ensures
            text@ == self@.text,
    {
        self.kind.insertion_text()
    }

    /// The command that stores an employee. Its text is the same for every
    /// employee; the fields are its parameters.
    pub fn for_employee(employee: &Employee) -> (command: Command)
        ensures
            command@ == (CommandModel {
                text: INSERT_EMPLOYEE@,
                parameters: employee_parameters(employee@),
            }),
    {
        let mut parameters: Vec<ColumnValue> = Vec::new();
        parameters.push(ColumnValue::Text(employee.name.clone()));
        parameters.push(ColumnValue::Text(employee.department.clone()));
        parameters.push(ColumnValue::Text(employee.job_title.clone()));
        assert(models(parameters@) =~= employee_parameters(employee@));
        Command { kind: RecordKind::Employee, parameters }
    }

    /// The command that stores an evaluation criterion.
    pub fn for_criterion(criterion: &EvaluationCriterion) -> (command: Command)
        ensures
            command@ == (CommandModel {
                text: INSERT_CRITERION@,
                parameters: criterion_parameters(criterion@),
            }),
    {
        let mut parameters: Vec<ColumnValue> = Vec::new();
        parameters.push(ColumnValue::Text(criterion.name.clone()));
        parameters.push(ColumnValue::Text(criterion.description.clone()));
        parameters.push(ColumnValue::Real(criterion.weightage.clone()));
        assert(models(parameters@) =~= criterion_parameters(criterion@));
        Command { kind: RecordKind::Criterion, parameters }
    }

    /// The command that stores an evaluation score.
    pub fn for_score(score: &EvaluationScore) -> (command: Command)
        ensures
            command@ == (CommandModel {
                text: INSERT_SCORE@,
                parameters: score_parameters(score@),
            }),
    {
        let mut parameters: Vec<ColumnValue> = Vec::new();
        parameters.push(ColumnValue::Integer(score.employee_id));
        parameters.push(ColumnValue::Integer(score.criterion_id));
        parameters.push(ColumnValue::Real(score.score.clone()));
        assert(models(parameters@) =~= score_parameters(score@));
        Command { kind: RecordKind::Score, parameters }
    }
}

} // verus!
