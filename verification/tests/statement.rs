use employee_performance::model::{Employee, EvaluationCriterion, EvaluationScore};
use employee_performance::statement::{
    schema, Command, RecordKind, CREATE_CRITERIA, CREATE_EMPLOYEES, CREATE_IF_ABSENT,
    CREATE_SCORES, INSERT_CRITERION, INSERT_EMPLOYEE, INSERT_SCORE, SELECT_CRITERIA,
    SELECT_EMPLOYEES, SELECT_SCORES,
};
use employee_performance::value::{ColumnValue, Real};

fn weight(x: f64) -> Real {
    Real::from_value(sqlite::Value::Float(x)).unwrap()
}

#[test]
fn the_schema_is_three_statements_that_create_absent_tables() {
    let statements = schema();
    assert_eq!(statements, vec![CREATE_EMPLOYEES, CREATE_CRITERIA, CREATE_SCORES]);
    for statement in statements {
        assert!(statement.starts_with(CREATE_IF_ABSENT));
        assert!(statement.starts_with("CREATE TABLE IF NOT EXISTS "));
        assert!(!statement.contains("DROP"));
        assert!(!statement.contains("ALTER"));
    }
}

#[test]
fn the_schema_declares_the_columns_of_each_table() {
    assert_eq!(
        CREATE_EMPLOYEES,
        "CREATE TABLE IF NOT EXISTS employees (id INTEGER PRIMARY KEY, name TEXT NOT NULL, department TEXT NOT NULL, job_title TEXT NOT NULL)"
    );
    assert_eq!(
        CREATE_CRITERIA,
        "CREATE TABLE IF NOT EXISTS evaluation_criteria (id INTEGER PRIMARY KEY, name TEXT NOT NULL, description TEXT, weightage REAL NOT NULL)"
    );
    assert_eq!(
        CREATE_SCORES,
        "CREATE TABLE IF NOT EXISTS evaluation_scores (id INTEGER PRIMARY KEY, employee_id INTEGER NOT NULL, criterion_id INTEGER NOT NULL, score REAL NOT NULL, FOREIGN KEY (employee_id) REFERENCES employees(id), FOREIGN KEY (criterion_id) REFERENCES evaluation_criteria(id))"
    );
}

#[test]
fn each_insert_has_one_placeholder_for_each_parameter() {
    let employee = Employee {
        id: 3,
        name: "n".to_string(),
        department: "d".to_string(),
        job_title: "j".to_string(),
    };
    let criterion = EvaluationCriterion {
        id: 3,
        name: "n".to_string(),
        description: "d".to_string(),
        weightage: weight(0.5),
    };
    let score = EvaluationScore { id: 3, employee_id: 1, criterion_id: 2, score: weight(4.5) };
    for command in [
        Command::for_employee(&employee),
        Command::for_criterion(&criterion),
        Command::for_score(&score),
    ] {
        assert_eq!(command.text().matches('?').count(), command.parameters.len());
        assert_eq!(command.parameters.len(), 3);
    }
}

#[test]
fn the_text_of_an_insert_is_the_same_for_every_record() {
    let plain = Employee {
        id: 0,
        name: "Ada".to_string(),
        department: "Research".to_string(),
        job_title: "Engineer".to_string(),
    };
    let hostile = Employee {
        id: 0,
        name: "O'Brien".to_string(),
        department: "'); DROP TABLE employees; --".to_string(),
        job_title: "?".to_string(),
    };
    assert_eq!(Command::for_employee(&plain).text(), INSERT_EMPLOYEE);
    assert_eq!(Command::for_employee(&hostile).text(), INSERT_EMPLOYEE);
    assert_eq!(
        INSERT_EMPLOYEE,
        "INSERT INTO employees (name, department, job_title) VALUES (?, ?, ?)"
    );
    assert_eq!(
        Command::for_employee(&hostile).parameters,
        vec![
            ColumnValue::Text("O'Brien".to_string()),
            ColumnValue::Text("'); DROP TABLE employees; --".to_string()),
            ColumnValue::Text("?".to_string()),
        ]
    );
}

#[test]
fn criterion_and_score_commands_bind_their_fields_in_column_order() {
    let criterion = EvaluationCriterion {
        id: 9,
        name: "Quality".to_string(),
        description: "".to_string(),
        weightage: weight(0.25),
    };
    assert_eq!(
        Command::for_criterion(&criterion),
        Command {
            kind: RecordKind::Criterion,
            parameters: vec![
                ColumnValue::Text("Quality".to_string()),
                ColumnValue::Text(String::new()),
                ColumnValue::Real(weight(0.25)),
            ],
        }
    );
    assert_eq!(
        Command::for_criterion(&criterion).text(),
        "INSERT INTO evaluation_criteria (name, description, weightage) VALUES (?, ?, ?)"
    );
    let score = EvaluationScore { id: 9, employee_id: -1, criterion_id: 2, score: weight(4.5) };
    assert_eq!(
        Command::for_score(&score),
        Command {
            kind: RecordKind::Score,
            parameters: vec![
                ColumnValue::Integer(-1),
                ColumnValue::Integer(2),
                ColumnValue::Real(weight(4.5)),
            ],
        }
    );
    assert_eq!(
        Command::for_score(&score).text(),
        "INSERT INTO evaluation_scores (employee_id, criterion_id, score) VALUES (?, ?, ?)"
    );
}

#[test]
fn each_kind_of_record_has_its_insertion_and_its_query() {
    assert_eq!(RecordKind::Employee.insertion_text(), INSERT_EMPLOYEE);
    assert_eq!(RecordKind::Criterion.insertion_text(), INSERT_CRITERION);
    assert_eq!(RecordKind::Score.insertion_text(), INSERT_SCORE);
    assert_eq!(RecordKind::Employee.query_text(), SELECT_EMPLOYEES);
    assert_eq!(RecordKind::Criterion.query_text(), SELECT_CRITERIA);
    assert_eq!(RecordKind::Score.query_text(), SELECT_SCORES);
}

#[test]
fn the_queries_name_their_columns_and_order_by_id() {
    assert_eq!(SELECT_EMPLOYEES, "SELECT id, name, department, job_title FROM employees ORDER BY id");
    assert_eq!(
        SELECT_CRITERIA,
        "SELECT id, name, description, weightage FROM evaluation_criteria ORDER BY id"
    );
    assert_eq!(
        SELECT_SCORES,
        "SELECT id, employee_id, criterion_id, score FROM evaluation_scores ORDER BY id"
    );
}
