use employee_performance::model::{Employee, EvaluationCriterion, EvaluationScore};
use employee_performance::shell::{
    parse_choice, step, Action, CriterionEntry, EmployeeEntry, Field, Input, MenuChoice, ScoreEntry,
    Shell,
};
use employee_performance::store::{
    create_tables, get_employees, get_evaluation_criteria, get_evaluation_scores, insert_employee,
};
use employee_performance::value::Real;

fn figure(x: f64) -> Real {
    Real::from_value(sqlite::Value::Float(x)).unwrap()
}

fn typed(line: &str) -> Option<Input> {
    let number = line.trim().parse::<f64>().ok().map(figure);
    Some(Input { line: line.to_string(), number })
}

#[test]
fn choices_one_to_seven_are_the_menu() {
    assert_eq!(parse_choice("1"), Some(MenuChoice::InsertEmployee));
    assert_eq!(parse_choice("2"), Some(MenuChoice::InsertCriterion));
    assert_eq!(parse_choice("3"), Some(MenuChoice::InsertScore));
    assert_eq!(parse_choice("4"), Some(MenuChoice::ViewEmployees));
    assert_eq!(parse_choice("5"), Some(MenuChoice::ViewCriteria));
    assert_eq!(parse_choice("6"), Some(MenuChoice::ViewScores));
    assert_eq!(parse_choice("7"), Some(MenuChoice::Exit));
}

#[test]
fn a_choice_may_be_padded_signed_or_zero_filled() {
    assert_eq!(parse_choice("7\n"), Some(MenuChoice::Exit));
    assert_eq!(parse_choice("  3 \r\n"), Some(MenuChoice::InsertScore));
    assert_eq!(parse_choice("+4"), Some(MenuChoice::ViewEmployees));
    assert_eq!(parse_choice("0005"), Some(MenuChoice::ViewCriteria));
}

#[test]
fn anything_else_is_no_choice() {
    for line in [
        "9", "abc", "", "\n", "0", "8", "-1", "-7", "1.0", "1 2", "7!", "one", "4294967297",
        "18446744073709551617", "99999999999999999999999999", "+", "-", "\u{661}",
    ] {
        assert_eq!(parse_choice(line), None, "{:?}", line);
    }
}

#[test]
fn the_menu_is_shown_and_then_a_choice_awaited() {
    assert!(!Shell::MenuDisplay.needs_input());
    assert_eq!(step(Shell::MenuDisplay, None), (Shell::AwaitChoice, Action::ShowMenu));
    assert_eq!(step(Shell::MenuDisplay, typed("7")), (Shell::AwaitChoice, Action::ShowMenu));
    assert!(Shell::AwaitChoice.needs_input());
    assert_eq!(step(Shell::AwaitChoice, None), (Shell::AwaitChoice, Action::ShowMenu));
}

#[test]
fn an_invalid_choice_leaves_the_store_unchanged_and_returns_to_the_menu() {
    let connection = sqlite::open(":memory:").unwrap();
    create_tables(&connection).unwrap();
    let ada = Employee {
        id: 0,
        name: "Ada".to_string(),
        department: "Research".to_string(),
        job_title: "Engineer".to_string(),
    };
    insert_employee(&connection, &ada).unwrap();
    let before = (
        get_employees(&connection).unwrap(),
        get_evaluation_criteria(&connection).unwrap(),
        get_evaluation_scores(&connection).unwrap(),
    );
    for line in ["9", "abc", "", "0", "-3", "1; DROP TABLE employees"] {
        let (next, action) = step(Shell::AwaitChoice, typed(line));
        assert_eq!(next, Shell::MenuDisplay);
        assert_eq!(action, Action::RejectChoice);
        let (next, action) = step(next, None);
        assert_eq!((next, action), (Shell::AwaitChoice, Action::ShowMenu));
    }
    let after = (
        get_employees(&connection).unwrap(),
        get_evaluation_criteria(&connection).unwrap(),
        get_evaluation_scores(&connection).unwrap(),
    );
    assert_eq!(before, after);
}

#[test]
fn listing_choices_lead_straight_back_to_the_menu() {
    assert_eq!(step(Shell::AwaitChoice, typed("4\n")), (Shell::MenuDisplay, Action::ListEmployees));
    assert_eq!(step(Shell::AwaitChoice, typed("5\n")), (Shell::MenuDisplay, Action::ListCriteria));
    assert_eq!(step(Shell::AwaitChoice, typed("6\n")), (Shell::MenuDisplay, Action::ListScores));
}

#[test]
fn exit_is_chosen_with_seven_and_is_final() {
    assert_eq!(step(Shell::AwaitChoice, typed("7\n")), (Shell::Exit, Action::Quit));
    assert!(!Shell::Exit.needs_input());
    assert_eq!(step(Shell::Exit, None), (Shell::Exit, Action::Quit));
    assert_eq!(step(Shell::Exit, typed("1")), (Shell::Exit, Action::Quit));
}

#[test]
fn an_employee_is_entered_field_by_field_and_trimmed() {
    let (state, action) = step(Shell::AwaitChoice, typed("1\n"));
    assert_eq!(state, Shell::InsertEmployee(EmployeeEntry::Name));
    assert_eq!(action, Action::Ask(Field::EmployeeName));
    assert!(state.needs_input());
    let (state, action) = step(state, typed("  O'Brien \n"));
    assert_eq!(state, Shell::InsertEmployee(EmployeeEntry::Department { name: "O'Brien".to_string() }));
    assert_eq!(action, Action::Ask(Field::Department));
    let (state, action) = step(state, typed("R & D\n"));
    assert_eq!(
        state,
        Shell::InsertEmployee(EmployeeEntry::JobTitle {
            name: "O'Brien".to_string(),
            department: "R & D".to_string(),
        })
    );
    assert_eq!(action, Action::Ask(Field::JobTitle));
    let (state, action) = step(state, typed("\n"));
    assert_eq!(state, Shell::MenuDisplay);
    assert_eq!(
        action,
        Action::InsertEmployee(Employee {
            id: 0,
            name: "O'Brien".to_string(),
            department: "R & D".to_string(),
            job_title: String::new(),
        })
    );
}

#[test]
fn a_criterion_needs_a_number_for_its_weightage() {
    let (state, action) = step(Shell::AwaitChoice, typed("2"));
    assert_eq!((&state, &action), (&Shell::InsertCriterion(CriterionEntry::Name), &Action::Ask(Field::CriterionName)));
    let (state, action) = step(state, typed("Quality\n"));
    assert_eq!(action, Action::Ask(Field::Description));
    let (state, action) = step(state, typed("\n"));
    assert_eq!(action, Action::Ask(Field::Weightage));
    let waiting = Shell::InsertCriterion(CriterionEntry::Weightage {
        name: "Quality".to_string(),
        description: String::new(),
    });
    assert_eq!(state, waiting);
    let (state, action) = step(state, typed("a lot\n"));
    assert_eq!(state, waiting);
    assert_eq!(action, Action::RejectNumber(Field::Weightage));
    let (state, action) = step(state, typed(" 0.25\n"));
    assert_eq!(state, Shell::MenuDisplay);
    assert_eq!(
        action,
        Action::InsertCriterion(EvaluationCriterion {
            id: 0,
            name: "Quality".to_string(),
            description: String::new(),
            weightage: figure(0.25),
        })
    );
}

#[test]
fn a_score_needs_two_integers_and_a_number() {
    let (state, action) = step(Shell::AwaitChoice, typed("3"));
    assert_eq!((&state, &action), (&Shell::InsertScore(ScoreEntry::EmployeeId), &Action::Ask(Field::EmployeeId)));
    let (state, action) = step(state, typed("one\n"));
    assert_eq!((&state, &action), (&Shell::InsertScore(ScoreEntry::EmployeeId), &Action::RejectNumber(Field::EmployeeId)));
    let (state, action) = step(state, typed("1.5\n"));
    assert_eq!((&state, &action), (&Shell::InsertScore(ScoreEntry::EmployeeId), &Action::RejectNumber(Field::EmployeeId)));
    let (state, action) = step(state, typed(" 1 \n"));
    assert_eq!(
        (&state, &action),
        (&Shell::InsertScore(ScoreEntry::CriterionId { employee_id: 1 }), &Action::Ask(Field::CriterionId))
    );
    let (state, action) = step(state, typed("9223372036854775808\n"));
    assert_eq!(
        (&state, &action),
        (&Shell::InsertScore(ScoreEntry::CriterionId { employee_id: 1 }), &Action::RejectNumber(Field::CriterionId))
    );
    let (state, action) = step(state, typed("-2\n"));
    assert_eq!(
        (&state, &action),
        (&Shell::InsertScore(ScoreEntry::Score { employee_id: 1, criterion_id: -2 }), &Action::Ask(Field::Score))
    );
    let (state, action) = step(state, typed("\n"));
    assert_eq!(
        (&state, &action),
        (&Shell::InsertScore(ScoreEntry::Score { employee_id: 1, criterion_id: -2 }), &Action::RejectNumber(Field::Score))
    );
    let (state, action) = step(state, typed("4.5\n"));
    assert_eq!(state, Shell::MenuDisplay);
    assert_eq!(
        action,
        Action::InsertScore(EvaluationScore { id: 0, employee_id: 1, criterion_id: -2, score: figure(4.5) })
    );
}

#[test]
fn a_state_that_gets_no_input_asks_again() {
    let states = [
        (Shell::InsertEmployee(EmployeeEntry::Name), Field::EmployeeName),
        (Shell::InsertEmployee(EmployeeEntry::Department { name: "n".to_string() }), Field::Department),
        (
            Shell::InsertEmployee(EmployeeEntry::JobTitle { name: "n".to_string(), department: "d".to_string() }),
            Field::JobTitle,
        ),
        (Shell::InsertCriterion(CriterionEntry::Name), Field::CriterionName),
        (Shell::InsertCriterion(CriterionEntry::Description { name: "n".to_string() }), Field::Description),
        (
            Shell::InsertCriterion(CriterionEntry::Weightage { name: "n".to_string(), description: "d".to_string() }),
            Field::Weightage,
        ),
        (Shell::InsertScore(ScoreEntry::EmployeeId), Field::EmployeeId),
        (Shell::InsertScore(ScoreEntry::CriterionId { employee_id: 4 }), Field::CriterionId),
        (Shell::InsertScore(ScoreEntry::Score { employee_id: 4, criterion_id: 5 }), Field::Score),
    ];
    for (state, field) in states {
        assert!(state.needs_input());
        let (next, action) = step(state, None);
        assert!(next.needs_input());
        assert_eq!(action, Action::Ask(field));
        let (again, _) = step(next, None);
        assert!(matches!(step(again, None), (_, Action::Ask(f)) if f == field));
    }
}

#[test]
fn entry_states_name_the_field_that_comes_next() {
    assert_eq!(EmployeeEntry::Name.next_field(), Field::EmployeeName);
    assert_eq!(EmployeeEntry::Department { name: String::new() }.next_field(), Field::Department);
    assert_eq!(
        EmployeeEntry::JobTitle { name: String::new(), department: String::new() }.next_field(),
        Field::JobTitle
    );
    assert_eq!(CriterionEntry::Name.next_field(), Field::CriterionName);
    assert_eq!(CriterionEntry::Description { name: String::new() }.next_field(), Field::Description);
    assert_eq!(
        CriterionEntry::Weightage { name: String::new(), description: String::new() }.next_field(),
        Field::Weightage
    );
    assert_eq!(ScoreEntry::EmployeeId.next_field(), Field::EmployeeId);
    assert_eq!(ScoreEntry::CriterionId { employee_id: 0 }.next_field(), Field::CriterionId);
    assert_eq!(ScoreEntry::Score { employee_id: 0, criterion_id: 0 }.next_field(), Field::Score);
}

#[test]
fn a_whole_session_stores_and_lists_through_the_menu() {
    let connection = sqlite::open(":memory:").unwrap();
    create_tables(&connection).unwrap();
    let lines = ["1", " Ada ", "Research", "Engineer", "nine", "4", "7"];
    let mut typed_lines = lines.iter();
    let mut state = Shell::MenuDisplay;
    let mut listed = Vec::new();
    let mut rejected = 0;
    let mut turns = 0;
    while state != Shell::Exit {
        turns += 1;
        assert!(turns < 100);
        let input = if state.needs_input() { typed(typed_lines.next().unwrap()) } else { None };
        let (next, action) = step(state, input);
        match action {
            Action::InsertEmployee(employee) => insert_employee(&connection, &employee).unwrap(),
            Action::ListEmployees => listed = get_employees(&connection).unwrap(),
            Action::RejectChoice => rejected += 1,
            _ => {}
        }
        state = next;
    }
    assert_eq!(typed_lines.next(), None);
    assert_eq!(rejected, 1);
    assert_eq!(
        listed,
        vec![Employee {
            id: 1,
            name: "Ada".to_string(),
            department: "Research".to_string(),
            job_title: "Engineer".to_string(),
        }]
    );
}
