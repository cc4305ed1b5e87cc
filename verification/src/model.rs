//! The three kinds of record.

use vstd::prelude::*;
use crate::value::Real;

verus! {

/// A person whose performance is tracked.
#[derive(Debug, PartialEq)]
pub struct Employee {
    /// Assigned by the store; ignored when the record is inserted.
    pub id: i64,
    pub name: String,
    pub department: String,
    pub job_title: String,
}

/// A measure that employees are scored on.
#[derive(Debug, PartialEq)]
pub struct EvaluationCriterion {
    /// Assigned by the store; ignored when the record is inserted.
    pub id: i64,
    pub name: String,
    /// May be empty.
    pub description: String,
    /// The share of this criterion in an overall score. No range is enforced.
    pub weightage: Real,
}

/// The score of one employee on one criterion.
#[derive(Debug, PartialEq)]
pub struct EvaluationScore {
    /// Assigned by the store; ignored when the record is inserted.
    pub id: i64,
    pub employee_id: i64,
    pub criterion_id: i64,
    pub score: Real,
}

/// The mathematical content of an [`Employee`].
pub struct EmployeeModel {
    pub id: i64,
    pub name: Seq<char>,
    pub department: Seq<char>,
    pub job_title: Seq<char>,
}

/// The mathematical content of an [`EvaluationCriterion`].
pub struct CriterionModel {
    pub id: i64,
    pub name: Seq<char>,
    pub description: Seq<char>,
    pub weightage: Real,
}

impl View for Employee {
    type V = EmployeeModel;

    open spec fn view(&self) -> EmployeeModel {
        EmployeeModel {
            id: self.id,
            name: self.name@,
            department: self.department@,
            job_title: self.job_title@,
        }
    }
}

impl View for EvaluationCriterion {
    type V = CriterionModel;

    open spec fn view(&self) -> CriterionModel {
        CriterionModel {
            id: self.id,
            name: self.name@,
            description: self.description@,
            weightage: self.weightage,
        }
    }
}

impl View for EvaluationScore {
    type V = EvaluationScore;

    open spec fn view(&self) -> EvaluationScore {
        *self
    }
}

} // verus!
