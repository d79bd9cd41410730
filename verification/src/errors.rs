//! What analysis reports to its caller.

use vstd::prelude::*;
use crate::operators::BiOperation;
use crate::types::SqlTypeFamily;

verus! {

#[derive(Debug, PartialEq, Eq, Clone)]
pub enum AnalysisError {
    /// No column of the table has the name.
    ColumnNotFound(String),
    /// A column was named where there is no row to take it from.
    ColumnCannotBeReferenced(String),
    /// The operator does not accept operands of the two families.
    UnsupportedOperation { operator: BiOperation, left: SqlTypeFamily, right: SqlTypeFamily },
}

impl AnalysisError {
    pub fn column_not_found(name: String) -> (error: AnalysisError)
        ensures
            error == AnalysisError::ColumnNotFound(name),
    {
        AnalysisError::ColumnNotFound(name)
    }

    pub fn column_cant_be_referenced(name: String) -> (error: AnalysisError)
        ensures
            error == AnalysisError::ColumnCannotBeReferenced(name),
    {
        AnalysisError::ColumnCannotBeReferenced(name)
    }

    pub fn unsupported_operation(
        operator: BiOperation,
        left: SqlTypeFamily,
        right: SqlTypeFamily,
    ) -> (error: AnalysisError)
        ensures
            error == (AnalysisError::UnsupportedOperation { operator, left, right }),
    {
        AnalysisError::UnsupportedOperation { operator, left, right }
    }
}

} // verus!
