//! Column values as the database engine hands them over.

use vstd::prelude::*;
use crate::engine::{column_of, from_engine};

verus! {

/// A floating-point column value.
///
/// The library stores and returns such numbers but never computes with them,
/// so it keeps each one in the engine's own representation and hands it
/// through untouched.
#[derive(Debug, PartialEq)]
pub struct Real {
    pub(crate) value: sqlite::Value,
}

/// One column of one row, or one bound parameter.
#[derive(Debug, PartialEq)]
pub enum ColumnValue {
    Null,
    Integer(i64),
    Real(Real),
    Text(String),
    Blob(Vec<u8>),
}

/// The mathematical content of a [`ColumnValue`].
pub enum ColumnModel {
    Null,
    Integer(i64),
    Real(Real),
    Text(Seq<char>),
    Blob(Seq<u8>),
}

impl View for ColumnValue {
    type V = ColumnModel;

    open spec fn view(&self) -> ColumnModel {
        match *self {
            ColumnValue::Null => ColumnModel::Null,
            ColumnValue::Integer(n) => ColumnModel::Integer(n),
            ColumnValue::Real(x) => ColumnModel::Real(x),
            ColumnValue::Text(s) => ColumnModel::Text(s@),
            ColumnValue::Blob(b) => ColumnModel::Blob(b@),
        }
    }
}

/// The contents of a row or of a parameter list.
pub open spec fn models(values: Seq<ColumnValue>) -> Seq<ColumnModel> {
    values.map_values(|v: ColumnValue| v@)
}

impl Real {
    /// The engine value that this number is.
    pub closed spec fn engine_value(self) -> sqlite::Value {
        self.value
    }

    /// The number that carries an engine value, where the value stands for a
    /// floating-point column value; `None` where it stands for any other
    /// kind, as [`ColumnValue::into_real`] decides.
    pub fn from_value(value: sqlite::Value) -> (number: Option<Real>)
        ensures
            number == match column_of(value) {
                ColumnModel::Real(x) => Some(x),
                _ => None::<Real>,
            },
            number matches Some(x) ==> x.engine_value() == value,
    {
        from_engine(&value).into_real()
    }

    /// The number, as the engine represents it.
    pub fn value(&self) -> (value: &sqlite::Value)
        ensures
            *value == self.engine_value(),
    {
        &self.value
    }
}

impl ColumnValue {
    /// The number in a floating-point column value; no other kind of value
    /// holds one.
    pub fn into_real(self) -> (number: Option<Real>)
        ensures
            number == match self {
                ColumnValue::Real(x) => Some(x),
                _ => None::<Real>,
            },
    {
        match self {
            ColumnValue::Real(x) => Some(x),
            _ => None,
        }
    }
}

impl Clone for Real {
    fn clone(&self) -> (copy: Real)
        ensures
            copy == *self,
    {
        Real { value: self.value.clone() }
    }
}

impl Clone for ColumnValue {
    fn clone(&self) -> (copy: ColumnValue)
        ensures
            copy@ == self@,
    {
        match self {
            ColumnValue::Null => ColumnValue::Null,
            ColumnValue::Integer(n) => ColumnValue::Integer(*n),
            ColumnValue::Real(x) => ColumnValue::Real(x.clone()),
            ColumnValue::Text(s) => ColumnValue::Text(s.clone()),
            ColumnValue::Blob(b) => ColumnValue::Blob(b.clone()),
        }
    }
}

} // verus!
