use employee_performance::error::StoreError;
use employee_performance::model::{Employee, EvaluationCriterion, EvaluationScore};
use employee_performance::rows::{
    criteria_from_table, criterion_from_row, employee_from_row, employees_from_table, find_cell,
    find_column, integer_cell, real_cell, score_from_row, scores_from_table, text_cell, Table,
};
use employee_performance::statement::Command;
use employee_performance::value::{ColumnValue, Real};

fn amount(x: f64) -> Real {
    Real::from_value(sqlite::Value::Float(x)).unwrap()
}

fn names(list: &[&str]) -> Vec<String> {
    list.iter().map(|s| s.to_string()).collect()
}

fn text(s: &str) -> ColumnValue {
    ColumnValue::Text(s.to_string())
}

#[test]
fn find_column_gives_the_position_of_a_name() {
    let columns = names(&["id", "name", "department", "job_title"]);
    assert_eq!(find_column(&columns, "id"), Some(0));
    assert_eq!(find_column(&columns, "name"), Some(1));
    assert_eq!(find_column(&columns, "department"), Some(2));
    assert_eq!(find_column(&columns, "job_title"), Some(3));
    assert_eq!(find_column(&columns, "Name"), None);
    assert_eq!(find_column(&columns, "nam"), None);
    assert_eq!(find_column(&columns, ""), None);
    assert_eq!(find_column(&vec![], "id"), None);
}

#[test]
fn find_column_takes_the_last_of_equal_names() {
    let columns = names(&["id", "name", "id", "x"]);
    assert_eq!(find_column(&columns, "id"), Some(2));
    assert_eq!(find_column(&columns, "name"), Some(1));
}

#[test]
fn find_cell_reads_by_name_and_misses_beyond_the_row() {
    let columns = names(&["a", "b", "c"]);
    let row = vec![ColumnValue::Integer(1), text("two")];
    assert_eq!(find_cell(&columns, &row, "a"), Some(&ColumnValue::Integer(1)));
    assert_eq!(find_cell(&columns, &row, "b"), Some(&text("two")));
    assert_eq!(find_cell(&columns, &row, "c"), None);
    assert_eq!(find_cell(&columns, &row, "d"), None);
}

#[test]
fn typed_cells_accept_only_their_type() {
    let columns = names(&["i", "t", "r", "n", "b"]);
    let row = vec![
        ColumnValue::Integer(-3),
        text("x"),
        ColumnValue::Real(amount(1.5)),
        ColumnValue::Null,
        ColumnValue::Blob(vec![1]),
    ];
    assert_eq!(integer_cell(&columns, &row, "i"), Some(-3));
    assert_eq!(text_cell(&columns, &row, "t"), Some("x".to_string()));
    assert_eq!(real_cell(&columns, &row, "r"), Some(amount(1.5)));
    for other in ["t", "r", "n", "b", "missing"] {
        assert_eq!(integer_cell(&columns, &row, other), None);
    }
    for other in ["i", "r", "n", "b", "missing"] {
        assert_eq!(text_cell(&columns, &row, other), None);
    }
    for other in ["i", "t", "n", "b", "missing"] {
        assert_eq!(real_cell(&columns, &row, other), None);
    }
}

#[test]
fn employee_from_row_maps_by_column_name() {
    let row = vec![ColumnValue::Integer(12), text("Ada"), text("Research"), text("Engineer")];
    let expected = Employee {
        id: 12,
        name: "Ada".to_string(),
        department: "Research".to_string(),
        job_title: "Engineer".to_string(),
    };
    assert_eq!(
        employee_from_row(&names(&["id", "name", "department", "job_title"]), &row),
        Some(expected)
    );
    let shuffled = vec![text("Engineer"), ColumnValue::Null, ColumnValue::Integer(12), text("Research"), text("Ada")];
    assert_eq!(
        employee_from_row(&names(&["job_title", "extra", "id", "department", "name"]), &shuffled),
        Some(Employee {
            id: 12,
            name: "Ada".to_string(),
            department: "Research".to_string(),
            job_title: "Engineer".to_string(),
        })
    );
}

#[test]
fn employee_from_row_refuses_rows_of_another_shape() {
    let columns = names(&["id", "name", "department", "job_title"]);
    let good = vec![ColumnValue::Integer(1), text("a"), text("b"), text("c")];
    assert!(employee_from_row(&columns, &good).is_some());
    assert_eq!(employee_from_row(&names(&["id", "name", "department"]), &good), None);
    assert_eq!(employee_from_row(&names(&["ID", "name", "department", "job_title"]), &good), None);
    assert_eq!(employee_from_row(&columns, &good[..3].to_vec()), None);
    assert_eq!(employee_from_row(&columns, &vec![]), None);
    let text_id = vec![text("1"), text("a"), text("b"), text("c")];
    assert_eq!(employee_from_row(&columns, &text_id), None);
    let null_name = vec![ColumnValue::Integer(1), ColumnValue::Null, text("b"), text("c")];
    assert_eq!(employee_from_row(&columns, &null_name), None);
    let real_id = vec![ColumnValue::Real(amount(1.0)), text("a"), text("b"), text("c")];
    assert_eq!(employee_from_row(&columns, &real_id), None);
    let number_title = vec![ColumnValue::Integer(1), text("a"), text("b"), ColumnValue::Integer(3)];
    assert_eq!(employee_from_row(&columns, &number_title), None);
}

#[test]
fn criterion_from_row_wants_a_floating_point_weightage() {
    let columns = names(&["id", "name", "description", "weightage"]);
    let row = vec![ColumnValue::Integer(3), text("Quality"), text(""), ColumnValue::Real(amount(0.4))];
    assert_eq!(
        criterion_from_row(&columns, &row),
        Some(EvaluationCriterion {
            id: 3,
            name: "Quality".to_string(),
            description: String::new(),
            weightage: amount(0.4),
        })
    );
    let whole = vec![ColumnValue::Integer(3), text("Quality"), text(""), ColumnValue::Integer(1)];
    assert_eq!(criterion_from_row(&columns, &whole), None);
    let no_description = vec![ColumnValue::Integer(3), text("Quality"), ColumnValue::Null, ColumnValue::Real(amount(0.4))];
    assert_eq!(criterion_from_row(&columns, &no_description), None);
}

#[test]
fn score_from_row_maps_all_four_fields() {
    let columns = names(&["id", "employee_id", "criterion_id", "score"]);
    let row = vec![
        ColumnValue::Integer(9),
        ColumnValue::Integer(1),
        ColumnValue::Integer(2),
        ColumnValue::Real(amount(4.5)),
    ];
    assert_eq!(
        score_from_row(&columns, &row),
        Some(EvaluationScore { id: 9, employee_id: 1, criterion_id: 2, score: amount(4.5) })
    );
    let text_score = vec![ColumnValue::Integer(9), ColumnValue::Integer(1), ColumnValue::Integer(2), text("4.5")];
    assert_eq!(score_from_row(&columns, &text_score), None);
    let swapped = names(&["id", "criterion_id", "employee_id", "score"]);
    assert_eq!(
        score_from_row(&swapped, &row),
        Some(EvaluationScore { id: 9, employee_id: 2, criterion_id: 1, score: amount(4.5) })
    );
}

#[test]
fn an_empty_table_maps_to_no_records() {
    let table = Table { columns: names(&["id", "name", "department", "job_title"]), rows: vec![] };
    assert_eq!(employees_from_table(&table), Ok(vec![]));
    assert_eq!(criteria_from_table(&table), Ok(vec![]));
    assert_eq!(scores_from_table(&table), Ok(vec![]));
    let bare = Table { columns: vec![], rows: vec![] };
    assert_eq!(employees_from_table(&bare), Ok(vec![]));
}

#[test]
fn a_table_maps_to_its_records_in_order() {
    let table = Table {
        columns: names(&["id", "name", "department", "job_title"]),
        rows: vec![
            vec![ColumnValue::Integer(2), text("b"), text("B"), text("bb")],
            vec![ColumnValue::Integer(1), text("a"), text("A"), text("aa")],
        ],
    };
    let listed = employees_from_table(&table).unwrap();
    assert_eq!(listed.len(), 2);
    assert_eq!((listed[0].id, listed[0].name.as_str()), (2, "b"));
    assert_eq!((listed[1].id, listed[1].name.as_str()), (1, "a"));
}

#[test]
fn the_first_malformed_row_fails_the_table() {
    let good = vec![ColumnValue::Integer(1), text("a"), text("A"), text("aa")];
    let bad = vec![ColumnValue::Null, text("a"), text("A"), text("aa")];
    let table = Table {
        columns: names(&["id", "name", "department", "job_title"]),
        rows: vec![good.clone(), good.clone(), bad.clone(), good.clone(), bad.clone()],
    };
    assert_eq!(employees_from_table(&table), Err(StoreError::MalformedRow { row: 2 }));
    assert_eq!(criteria_from_table(&table), Err(StoreError::MalformedRow { row: 0 }));
    assert_eq!(scores_from_table(&table), Err(StoreError::MalformedRow { row: 0 }));
}

#[test]
fn what_a_command_binds_maps_back_to_the_record() {
    let columns = names(&["id", "name", "department", "job_title"]);
    let employee = Employee {
        id: 0,
        name: "O'Brien".to_string(),
        department: "".to_string(),
        job_title: " lead ".to_string(),
    };
    let mut row = vec![ColumnValue::Integer(5)];
    row.extend(Command::for_employee(&employee).parameters);
    let listed = employee_from_row(&columns, &row).unwrap();
    assert_eq!(listed, Employee { id: 5, ..employee });

    let criterion = EvaluationCriterion {
        id: 0,
        name: "n".to_string(),
        description: "d".to_string(),
        weightage: amount(0.1),
    };
    let mut row = vec![ColumnValue::Integer(6)];
    row.extend(Command::for_criterion(&criterion).parameters);
    assert_eq!(
        criterion_from_row(&names(&["id", "name", "description", "weightage"]), &row),
        Some(EvaluationCriterion { id: 6, ..criterion })
    );

    let score = EvaluationScore { id: 0, employee_id: 3, criterion_id: 4, score: amount(4.5) };
    let mut row = vec![ColumnValue::Integer(7)];
    row.extend(Command::for_score(&score).parameters);
    assert_eq!(
        score_from_row(&names(&["id", "employee_id", "criterion_id", "score"]), &row),
        Some(EvaluationScore { id: 7, ..score })
    );
}
