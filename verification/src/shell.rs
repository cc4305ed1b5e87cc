//! The interactive menu as a state machine.
//!
//! The machine never reads, prints or touches the store. The caller does:
//! it hands each line of input to [`step`], which answers with the next
//! state and with the one thing to do now. No input ends the session but
//! the choice to exit.

use vstd::prelude::*;
use crate::model::{Employee, EvaluationCriterion, EvaluationScore};
use crate::text::{i64_of, integer_of, parse_i64, trim, trimmed};
use crate::value::Real;

verus! {

/// An entry of the menu.
#[derive(Debug, Clone, Copy, PartialEq, Eq)]
pub enum MenuChoice {
    InsertEmployee,
    InsertCriterion,
    InsertScore,
    ViewEmployees,
    ViewCriteria,
    ViewScores,
    Exit,
}

/// A field that the user is asked for.
#[derive(Debug, Clone, Copy, PartialEq, Eq)]
pub enum Field {
    EmployeeName,
    Department,
    JobTitle,
    CriterionName,
    Description,
    Weightage,
    EmployeeId,
    CriterionId,
    Score,
}

/// How far the entry of a new employee has come.
#[derive(Debug, PartialEq)]
pub enum EmployeeEntry {
    Name,
    Department { name: String },
    JobTitle { name: String, department: String },
}

/// How far the entry of a new criterion has come.
#[derive(Debug, PartialEq)]
pub enum CriterionEntry {
    Name,
    Description { name: String },
    Weightage { name: String, description: String },
}

/// How far the entry of a new score has come.
#[derive(Debug, PartialEq)]
pub enum ScoreEntry {
    EmployeeId,
    CriterionId { employee_id: i64 },
    Score { employee_id: i64, criterion_id: i64 },
}

/// The state of the menu.
#[derive(Debug, PartialEq)]
pub enum Shell {
    /// The menu is to be shown.
    MenuDisplay,
    /// The menu was shown; the next line is the choice.
    AwaitChoice,
    /// The next line is a field of a new employee.
    InsertEmployee(EmployeeEntry),
    /// The next line is a field of a new criterion.
    InsertCriterion(CriterionEntry),
    /// The next line is a field of a new score.
    InsertScore(ScoreEntry),
    /// The session is over.
    Exit,
}

/// One line of input. `number` is the floating-point number that the line
/// denotes once trimmed, if it denotes one; the caller reads it off the line.
#[derive(Debug, PartialEq)]
pub struct Input {
    pub line: String,
    pub number: Option<Real>,
}

/// What the caller is to do.
#[derive(Debug, PartialEq)]
pub enum Action {
    /// Print the menu and ask for a choice.
    ShowMenu,
    /// Ask for a field.
    Ask(Field),
    /// Say that the choice is none of the menu's.
    RejectChoice,
    /// Say that the line is no number, and ask for the field again.
    RejectNumber(Field),
    /// Store a new employee and say how it went.
    InsertEmployee(Employee),
    /// Store a new criterion and say how it went.
    InsertCriterion(EvaluationCriterion),
    /// Store a new score and say how it went.
    InsertScore(EvaluationScore),
    /// Fetch and print the employees.
    ListEmployees,
    /// Fetch and print the criteria.
    ListCriteria,
    /// Fetch and print the scores.
    ListScores,
    /// Say goodbye and stop.
    Quit,
}

/// The menu entry that bears a number.
pub open spec fn choice_numbered(n: int) -> Option<MenuChoice> {
    if n == 1 {
        Some(MenuChoice::InsertEmployee)
    } else if n == 2 {
        Some(MenuChoice::InsertCriterion)
    } else if n == 3 {
        Some(MenuChoice::InsertScore)
    } else if n == 4 {
        Some(MenuChoice::ViewEmployees)
    } else if n == 5 {
        Some(MenuChoice::ViewCriteria)
    } else if n == 6 {
        Some(MenuChoice::ViewScores)
    } else if n == 7 {
        Some(MenuChoice::Exit)
    } else {
        None
    }
}

/// The menu entry that a line chooses: the line, once trimmed, denotes an
/// integer from 1 to 7.
pub open spec fn choice_of(line: Seq<char>) -> Option<MenuChoice> {
    match integer_of(trimmed(line)) {
        Some(n) => choice_numbered(n),
        None => None,
    }
}

/// Reads a menu choice off a line.
pub fn parse_choice(line: &str) -> (choice: Option<MenuChoice>)
    ensures
        choice == choice_of(line@),
{
    let core = trim(line);
    match parse_i64(core.as_str()) {
        Some(1) => Some(MenuChoice::InsertEmployee),
        Some(2) => Some(MenuChoice::InsertCriterion),
        Some(3) => Some(MenuChoice::InsertScore),
        Some(4) => Some(MenuChoice::ViewEmployees),
        Some(5) => Some(MenuChoice::ViewCriteria),
        Some(6) => Some(MenuChoice::ViewScores),
        Some(7) => Some(MenuChoice::Exit),
        _ => None,
    }
}

impl Shell {
    /// The state consumes a line of input.
    pub open spec fn awaits_input(self) -> bool {
        !(self is MenuDisplay) && !(self is Exit)
    }

    /// Whether the next step needs a line of input.
    pub fn needs_input(&self) -> (b: bool)
        ensures
            b == self.awaits_input(),
    {
        match self {
            Shell::MenuDisplay => false,
            Shell::Exit => false,
            _ => true,
        }
    }

    /// The field that the state waits for, in a state that waits for one.
    pub open spec fn field(self) -> Option<Field> {
        match self {
            Shell::InsertEmployee(entry) => Some(entry.field()),
            Shell::InsertCriterion(entry) => Some(entry.field()),
            Shell::InsertScore(entry) => Some(entry.field()),
            _ => None,
        }
    }
}

impl Shell {
    /// The lines that the entry of a record still takes: three at its start,
    /// none outside an entry.
    pub open spec fn lines_needed(self) -> nat {
        match self.field() {
            Some(Field::EmployeeName) | Some(Field::CriterionName) | Some(Field::EmployeeId) => 3,
            Some(Field::Department) | Some(Field::Description) | Some(Field::CriterionId) => 2,
            Some(Field::JobTitle) | Some(Field::Weightage) | Some(Field::Score) => 1,
            None => 0,
        }
    }
}

impl EmployeeEntry {
    /// The field that comes next.
    pub open spec fn field(self) -> Field {
        match self {
            EmployeeEntry::Name => Field::EmployeeName,
            EmployeeEntry::Department { .. } => Field::Department,
            EmployeeEntry::JobTitle { .. } => Field::JobTitle,
        }
    }

    /// The field that comes next.
    pub fn next_field(&self) -> (field: Field)
        ensures
            field == self.field(),
    {
        match self {
            EmployeeEntry::Name => Field::EmployeeName,
            EmployeeEntry::Department { .. } => Field::Department,
            EmployeeEntry::JobTitle { .. } => Field::JobTitle,
        }
    }
}

impl CriterionEntry {
    /// The field that comes next.
    pub open spec fn field(self) -> Field {
        match self {
            CriterionEntry::Name => Field::CriterionName,
            CriterionEntry::Description { .. } => Field::Description,
            CriterionEntry::Weightage { .. } => Field::Weightage,
        }
    }

    /// The field that comes next.
    pub fn next_field(&self) -> (field: Field)
        ensures
            field == self.field(),
    {
        match self {
            CriterionEntry::Name => Field::CriterionName,
            CriterionEntry::Description { .. } => Field::Description,
            CriterionEntry::Weightage { .. } => Field::Weightage,
        }
    }
}

impl ScoreEntry {
    /// The field that comes next.
    pub open spec fn field(self) -> Field {
        match self {
            ScoreEntry::EmployeeId => Field::EmployeeId,
            ScoreEntry::CriterionId { .. } => Field::CriterionId,
            ScoreEntry::Score { .. } => Field::Score,
        }
    }

    /// The field that comes next.
    pub fn next_field(&self) -> (field: Field)
        ensures
            field == self.field(),
    {
        match self {
            ScoreEntry::EmployeeId => Field::EmployeeId,
            ScoreEntry::CriterionId { .. } => Field::CriterionId,
            ScoreEntry::Score { .. } => Field::Score,
        }
    }
}

impl Action {
    /// The action changes the store.
    pub open spec fn writes(self) -> bool {
        self is InsertEmployee || self is InsertCriterion || self is InsertScore
    }
}

/// Where a choice leads, and what is to be done on the way. A line that
/// chooses nothing is rejected and leads back to the menu.
pub open spec fn after_choice(choice: Option<MenuChoice>) -> (Shell, Action) {
    match choice {
        None => (Shell::MenuDisplay, Action::RejectChoice),
        Some(MenuChoice::InsertEmployee) => (
            Shell::InsertEmployee(EmployeeEntry::Name),
            Action::Ask(Field::EmployeeName),
        ),
        Some(MenuChoice::InsertCriterion) => (
            Shell::InsertCriterion(CriterionEntry::Name),
            Action::Ask(Field::CriterionName),
        ),
        Some(MenuChoice::InsertScore) => (
            Shell::InsertScore(ScoreEntry::EmployeeId),
            Action::Ask(Field::EmployeeId),
        ),
        Some(MenuChoice::ViewEmployees) => (Shell::MenuDisplay, Action::ListEmployees),
        Some(MenuChoice::ViewCriteria) => (Shell::MenuDisplay, Action::ListCriteria),
        Some(MenuChoice::ViewScores) => (Shell::MenuDisplay, Action::ListScores),
        Some(MenuChoice::Exit) => (Shell::Exit, Action::Quit),
    }
}

/// A line entered for a new employee: each line, trimmed, is the next field;
/// the third completes the record, which is to be stored with id 0.
pub open spec fn employee_entry_step(
    entry: EmployeeEntry,
    line: Seq<char>,
    next: Shell,
    action: Action,
) -> bool {
    match entry {
        EmployeeEntry::Name => {
            &&& next matches Shell::InsertEmployee(EmployeeEntry::Department { name })
            &&& name@ == trimmed(line)
            &&& action == Action::Ask(Field::Department)
        },
        EmployeeEntry::Department { name } => {
            &&& next matches Shell::InsertEmployee(
                EmployeeEntry::JobTitle { name: kept, department },
            )
            &&& kept == name
            &&& department@ == trimmed(line)
            &&& action == Action::Ask(Field::JobTitle)
        },
        EmployeeEntry::JobTitle { name, department } => {
            &&& next == Shell::MenuDisplay
            &&& action matches Action::InsertEmployee(employee)
            &&& employee.id == 0
            &&& employee.name == name
            &&& employee.department == department
            &&& employee.job_title@ == trimmed(line)
        },
    }
}

/// A line entered for a new criterion. The weightage must be a number: a
/// line that is none is rejected and the field asked for again.
pub open spec fn criterion_entry_step(
    entry: CriterionEntry,
    input: Input,
    next: Shell,
    action: Action,
) -> bool {
    match entry {
        CriterionEntry::Name => {
            &&& next matches Shell::InsertCriterion(CriterionEntry::Description { name })
            &&& name@ == trimmed(input.line@)
            &&& action == Action::Ask(Field::Description)
        },
        CriterionEntry::Description { name } => {
            &&& next matches Shell::InsertCriterion(
                CriterionEntry::Weightage { name: kept, description },
            )
            &&& kept == name
            &&& description@ == trimmed(input.line@)
            &&& action == Action::Ask(Field::Weightage)
        },
        CriterionEntry::Weightage { name, description } => match input.number {
            Some(weightage) => {
                &&& next == Shell::MenuDisplay
                &&& action == Action::InsertCriterion(
                    EvaluationCriterion { id: 0, name, description, weightage },
                )
            },
            None => {
                &&& next == Shell::InsertCriterion(entry)
                &&& action == Action::RejectNumber(Field::Weightage)
            },
        },
    }
}

/// A line entered for a new score. The two references must be integers that
/// fit in 64 bits and the score a number: a line that is none is rejected
/// and the field asked for again.
pub open spec fn score_entry_step(entry: ScoreEntry, input: Input) -> (Shell, Action) {
    match entry {
        ScoreEntry::EmployeeId => match i64_of(trimmed(input.line@)) {
            Some(employee_id) => (
                Shell::InsertScore(ScoreEntry::CriterionId { employee_id }),
                Action::Ask(Field::CriterionId),
            ),
            None => (Shell::InsertScore(entry), Action::RejectNumber(Field::EmployeeId)),
        },
        ScoreEntry::CriterionId { employee_id } => match i64_of(trimmed(input.line@)) {
            Some(criterion_id) => (
                Shell::InsertScore(ScoreEntry::Score { employee_id, criterion_id }),
                Action::Ask(Field::Score),
            ),
            None => (Shell::InsertScore(entry), Action::RejectNumber(Field::CriterionId)),
        },
        ScoreEntry::Score { employee_id, criterion_id } => match input.number {
            Some(score) => (
                Shell::MenuDisplay,
                Action::InsertScore(EvaluationScore { id: 0, employee_id, criterion_id, score }),
            ),
            None => (Shell::InsertScore(entry), Action::RejectNumber(Field::Score)),
        },
    }
}

/// One step of the menu: from `state`, on `input`, to `next`, with `action`
/// to be done.
///
/// A state that consumes input and gets none stays as it is and asks again.
pub open spec fn steps(state: Shell, input: Option<Input>, next: Shell, action: Action) -> bool {
    match state {
        Shell::MenuDisplay => next == Shell::AwaitChoice && action == Action::ShowMenu,
        Shell::Exit => next == Shell::Exit && action == Action::Quit,
        Shell::AwaitChoice => match input {
            Some(input) => (next, action) == after_choice(choice_of(input.line@)),
            None => next == Shell::AwaitChoice && action == Action::ShowMenu,
        },
        Shell::InsertEmployee(entry) => match input {
            Some(input) => employee_entry_step(entry, input.line@, next, action),
            None => next == state && action == Action::Ask(entry.field()),
        },
        Shell::InsertCriterion(entry) => match input {
            Some(input) => criterion_entry_step(entry, input, next, action),
            None => next == state && action == Action::Ask(entry.field()),
        },
        Shell::InsertScore(entry) => match input {
            Some(input) => (next, action) == score_entry_step(entry, input),
            None => next == state && action == Action::Ask(entry.field()),
        },
    }
}

/// What a choice leads to.
fn follow(choice: Option<MenuChoice>) -> (outcome: (Shell, Action))
    ensures
        outcome == after_choice(choice),
{
    match choice {
        None => (Shell::MenuDisplay, Action::RejectChoice),
        Some(MenuChoice::InsertEmployee) => (
            Shell::InsertEmployee(EmployeeEntry::Name),
            Action::Ask(Field::EmployeeName),
        ),
        Some(MenuChoice::InsertCriterion) => (
            Shell::InsertCriterion(CriterionEntry::Name),
            Action::Ask(Field::CriterionName),
        ),
        Some(MenuChoice::InsertScore) => (
            Shell::InsertScore(ScoreEntry::EmployeeId),
            Action::Ask(Field::EmployeeId),
        ),
        Some(MenuChoice::ViewEmployees) => (Shell::MenuDisplay, Action::ListEmployees),
        Some(MenuChoice::ViewCriteria) => (Shell::MenuDisplay, Action::ListCriteria),
        Some(MenuChoice::ViewScores) => (Shell::MenuDisplay, Action::ListScores),
        Some(MenuChoice::Exit) => (Shell::Exit, Action::Quit),
    }
}

/// Takes a line for a new employee.
fn enter_employee(entry: EmployeeEntry, line: &str) -> (outcome: (Shell, Action))
    ensures
        employee_entry_step(entry, line@, outcome.0, outcome.1),
{
    let text = trim(line);
    match entry {
        EmployeeEntry::Name => (
            Shell::InsertEmployee(EmployeeEntry::Department { name: text }),
            Action::Ask(Field::Department),
        ),
        EmployeeEntry::Department { name } => (
            Shell::InsertEmployee(EmployeeEntry::JobTitle { name, department: text }),
            Action::Ask(Field::JobTitle),
        ),
        EmployeeEntry::JobTitle { name, department } => (
            Shell::MenuDisplay,
            Action::InsertEmployee(Employee { id: 0, name, department, job_title: text }),
        ),
    }
}

/// Takes a line for a new criterion.
fn enter_criterion(entry: CriterionEntry, input: Input) -> (outcome: (Shell, Action))
    ensures
        criterion_entry_step(entry, input, outcome.0, outcome.1),
{
    match entry {
        CriterionEntry::Name => (
            Shell::InsertCriterion(CriterionEntry::Description { name: trim(input.line.as_str()) }),
            Action::Ask(Field::Description),
        ),
        CriterionEntry::Description { name } => (
            Shell::InsertCriterion(
                CriterionEntry::Weightage { name, description: trim(input.line.as_str()) },
            ),
            Action::Ask(Field::Weightage),
        ),
        CriterionEntry::Weightage { name, description } => match input.number {
            Some(weightage) => (
                Shell::MenuDisplay,
                Action::InsertCriterion(EvaluationCriterion { id: 0, name, description, weightage }),
            ),
            None => (
                Shell::InsertCriterion(CriterionEntry::Weightage { name, description }),
                Action::RejectNumber(Field::Weightage),
            ),
        },
    }
}

/// Takes a line for a new score.
fn enter_score(entry: ScoreEntry, input: Input) -> (outcome: (Shell, Action))
    ensures
        outcome == score_entry_step(entry, input),
{
    match entry {
        ScoreEntry::EmployeeId => match parse_i64(trim(input.line.as_str()).as_str()) {
            Some(employee_id) => (
                Shell::InsertScore(ScoreEntry::CriterionId { employee_id }),
                Action::Ask(Field::CriterionId),
            ),
            None => (Shell::InsertScore(ScoreEntry::EmployeeId), Action::RejectNumber(Field::EmployeeId)),
        },
        ScoreEntry::CriterionId { employee_id } => match parse_i64(
            trim(input.line.as_str()).as_str(),
        ) {
            Some(criterion_id) => (
                Shell::InsertScore(ScoreEntry::Score { employee_id, criterion_id }),
                Action::Ask(Field::Score),
            ),
            None => (
                Shell::InsertScore(ScoreEntry::CriterionId { employee_id }),
                Action::RejectNumber(Field::CriterionId),
            ),
        },
        ScoreEntry::Score { employee_id, criterion_id } => match input.number {
            Some(score) => (
                Shell::MenuDisplay,
                Action::InsertScore(EvaluationScore { id: 0, employee_id, criterion_id, score }),
            ),
            None => (
                Shell::InsertScore(ScoreEntry::Score { employee_id, criterion_id }),
                Action::RejectNumber(Field::Score),
            ),
        },
    }
}

/// Advances the menu by one step.
pub fn step(state: Shell, input: Option<Input>) -> (outcome: (Shell, Action))
    ensures
        steps(state, input, outcome.0, outcome.1),
{
    match state {
        Shell::MenuDisplay => (Shell::AwaitChoice, Action::ShowMenu),
        Shell::Exit => (Shell::Exit, Action::Quit),
        Shell::AwaitChoice => match input {
            Some(input) => follow(parse_choice(input.line.as_str())),
            None => (Shell::AwaitChoice, Action::ShowMenu),
        },
        Shell::InsertEmployee(entry) => match input {
            Some(input) => enter_employee(entry, input.line.as_str()),
            None => {
                let field = entry.next_field();
                (Shell::InsertEmployee(entry), Action::Ask(field))
            },
        },
        Shell::InsertCriterion(entry) => match input {
            Some(input) => enter_criterion(entry, input),
            None => {
                let field = entry.next_field();
                (Shell::InsertCriterion(entry), Action::Ask(field))
            },
        },
        Shell::InsertScore(entry) => match input {
            Some(input) => enter_score(entry, input),
            None => {
                let field = entry.next_field();
                (Shell::InsertScore(entry), Action::Ask(field))
            },
        },
    }
}

/// A line that chooses nothing leaves the store as it is and leads back to
/// the menu, whatever the line holds.
pub proof fn lemma_invalid_choice_returns_to_menu(input: Input, next: Shell, action: Action)
    requires
        choice_of(input.line@) is None,
        steps(Shell::AwaitChoice, Some(input), next, action),
    ensures
        next == Shell::MenuDisplay,
        action == Action::RejectChoice,
        !action.writes(),
{
}

/// Only the choice to exit ends the session: a step reaches `Exit` from no
/// other state than `AwaitChoice`, and from there only on a line that
/// chooses the exit.
pub proof fn lemma_only_the_choice_exits(state: Shell, input: Option<Input>, next: Shell, action: Action)
    requires
        steps(state, input, next, action),
        next is Exit,
        !(state is Exit),
    ensures
        state is AwaitChoice,
        input matches Some(i) && choice_of(i.line@) == Some(MenuChoice::Exit),
{
}

/// The store is written only when the last field of a record comes in: a
/// step asks for a write from no state but one that waits for a job title, a
/// weightage or a score, and then leads back to the menu.
pub proof fn lemma_writes_complete_an_entry(
    state: Shell,
    input: Option<Input>,
    next: Shell,
    action: Action,
)
    requires
        steps(state, input, next, action),
        action.writes(),
    ensures
        input is Some,
        next == Shell::MenuDisplay,
        state.field() == Some(Field::JobTitle) || state.field() == Some(Field::Weightage)
            || state.field() == Some(Field::Score),
{
}

/// Every entry leads back to the menu: a line entered for a record is either
/// rejected, and then the state stays as it is and nothing is written, or it
/// is taken, and then the entry needs one line less; the line that leaves
/// none needed is the one that writes the record and leads back to the menu.
pub proof fn lemma_each_line_advances_the_entry(
    state: Shell,
    input: Input,
    next: Shell,
    action: Action,
)
    requires
        state.lines_needed() > 0,
        steps(state, Some(input), next, action),
    ensures
        action is RejectNumber ==> next == state,
        !(action is RejectNumber) ==> next.lines_needed() == state.lines_needed() - 1,
        next.lines_needed() == 0 <==> next == Shell::MenuDisplay,
        next == Shell::MenuDisplay <==> action.writes(),
{
}

} // verus!
