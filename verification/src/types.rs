//! SQL types and the coarser type families that operators are checked against.

use vstd::prelude::*;

verus! {

/// A coarse classification of SQL types. An unconstrained family (that of
/// `NULL`, or of a parameter not yet pinned down) is `None` of
/// `Option<SqlTypeFamily>`.
#[derive(Debug, PartialEq, Eq, Structural, Clone, Copy)]
pub enum SqlTypeFamily {
    SmallInt,
    Integer,
    BigInt,
    Real,
    Bool,
    String,
}

/// A declared SQL type, as a column definition or a cast names it.
#[derive(Debug, PartialEq, Eq, Structural, Clone, Copy)]
pub enum SqlType {
    SmallInt,
    Integer,
    BigInt,
    Real,
    DoublePrecision,
    Bool,
    Char(u64),
    VarChar(u64),
}

impl SqlType {
    /// The family a declared type belongs to.
    pub open spec fn spec_family(self) -> SqlTypeFamily {
        match self {
            SqlType::SmallInt => SqlTypeFamily::SmallInt,
            SqlType::Integer => SqlTypeFamily::Integer,
            SqlType::BigInt => SqlTypeFamily::BigInt,
            SqlType::Real => SqlTypeFamily::Real,
            SqlType::DoublePrecision => SqlTypeFamily::Real,
            SqlType::Bool => SqlTypeFamily::Bool,
            SqlType::Char(_) => SqlTypeFamily::String,
            SqlType::VarChar(_) => SqlTypeFamily::String,
        }
    }

    pub fn family(self) -> (family: SqlTypeFamily)
        ensures
            family == self.spec_family(),
    {
        match self {
            SqlType::SmallInt => SqlTypeFamily::SmallInt,
            SqlType::Integer => SqlTypeFamily::Integer,
            SqlType::BigInt => SqlTypeFamily::BigInt,
            SqlType::Real => SqlTypeFamily::Real,
            SqlType::DoublePrecision => SqlTypeFamily::Real,
            SqlType::Bool => SqlTypeFamily::Bool,
            SqlType::Char(_) => SqlTypeFamily::String,
            SqlType::VarChar(_) => SqlTypeFamily::String,
        }
    }

    pub fn bool() -> (sql_type: SqlType)
        ensures
            sql_type == SqlType::Bool,
    {
        SqlType::Bool
    }
}

} // verus!
