//! Semantic type tags carried by declarations and references.

use vstd::prelude::*;

verus! {

/// The semantic type tag that every declaration and reference carries.
#[derive(Debug, Clone, Copy, PartialEq, Eq, Structural)]
pub enum DataTypes {
    I8,
    I16,
    I32,
    I64,
    U8,
    U16,
    U32,
    U64,
    F32,
    F64,
    Bool,
    String,
}

/// Signed and unsigned integers of every width.
pub open spec fn is_integer(k: DataTypes) -> bool {
    matches!(k, DataTypes::I8 | DataTypes::I16 | DataTypes::I32 | DataTypes::I64
        | DataTypes::U8 | DataTypes::U16 | DataTypes::U32 | DataTypes::U64)
}

/// Single and double floats.
pub open spec fn is_float(k: DataTypes) -> bool {
    matches!(k, DataTypes::F32 | DataTypes::F64)
}

/// Types whose values live in stack cells and follow lexical scope.
pub open spec fn is_numeric(k: DataTypes) -> bool {
    is_integer(k) || is_float(k)
}

impl DataTypes {
    pub fn is_integer(&self) -> (r: bool)
        ensures
            r == is_integer(*self),
    {
        match self {
            DataTypes::I8 | DataTypes::I16 | DataTypes::I32 | DataTypes::I64 | DataTypes::U8
            | DataTypes::U16 | DataTypes::U32 | DataTypes::U64 => true,
            _ => false,
        }
    }

    pub fn is_float(&self) -> (r: bool)
        ensures
            r == is_float(*self),
    {
        match self {
            DataTypes::F32 | DataTypes::F64 => true,
            _ => false,
        }
    }

    pub fn is_numeric(&self) -> (r: bool)
        ensures
            r == is_numeric(*self),
    {
        self.is_integer() || self.is_float()
    }
}

} // verus!
