//! The module-construction steps that lowering produces, and counts over them.

use vstd::prelude::*;

use crate::types::DataTypes;

verus! {

/// Alignment hint that every numeric stack store and load carries.
pub const NUMERIC_ALIGNMENT: u32 = 4;

/// Visibility of a generated function outside its unit.
#[derive(Debug, Clone, Copy, PartialEq, Eq, Structural)]
pub enum FnLinkage {
    External,
    Private,
}

/// A value handed to an instruction.
#[derive(Debug, Clone, Copy, PartialEq, Eq, Structural)]
pub enum Operand {
    /// An inline immediate of the given type; for float types the IEEE-754 bits.
    Const(DataTypes, u64),
    /// The result of an earlier load.
    Register(usize),
    /// The address of a module-scope global.
    Global(usize),
}

/// A named, typed parameter of a generated function.
#[derive(Debug, Clone, PartialEq, Eq)]
pub struct IrParam {
    pub name: String,
    pub kind: DataTypes,
}

/// One step of module construction, in the order it is performed.
#[derive(Debug, Clone, PartialEq, Eq)]
pub enum IrOp {
    /// Declare the external variadic `printf(ptr, ...) -> i32`.
    DeclarePrintf,
    /// Add a function and position the builder in its single entry block.
    BeginFunction {
        name: String,
        params: Vec<IrParam>,
        return_kind: Option<DataTypes>,
        linkage: FnLinkage,
    },
    /// Add the zero-argument `main() -> i32` and position the builder in its entry block.
    BeginEntry,
    /// Reserve a stack cell for a value of the given type.
    Alloca { cell: usize, kind: DataTypes },
    /// Store an immediate into a stack cell.
    Store { cell: usize, kind: DataTypes, bits: u64, align: u32 },
    /// Reload a stack cell into a register.
    Load { reg: usize, cell: usize, kind: DataTypes, align: u32 },
    /// A named, mutable byte-array global holding the string's bytes.
    GlobalString { global: usize, name: String, text: String },
    /// A private global holding 0 or 1.
    GlobalBool { global: usize, value: bool },
    /// An unnamed, constant byte-array global.
    ConstString { global: usize, text: String },
    /// Call `printf` with the given arguments.
    CallPrintf { args: Vec<Operand> },
    /// Return a value.
    Return(Operand),
    /// Return nothing.
    ReturnVoid,
}

/// What a step says, with text as characters.
pub enum OpView {
    DeclarePrintf,
    BeginFunction {
        name: Seq<char>,
        params: Seq<(Seq<char>, DataTypes)>,
        return_kind: Option<DataTypes>,
        linkage: FnLinkage,
    },
    BeginEntry,
    Alloca { cell: usize, kind: DataTypes },
    Store { cell: usize, kind: DataTypes, bits: u64, align: u32 },
    Load { reg: usize, cell: usize, kind: DataTypes, align: u32 },
    GlobalString { global: usize, name: Seq<char>, text: Seq<char> },
    GlobalBool { global: usize, value: bool },
    ConstString { global: usize, text: Seq<char> },
    CallPrintf { args: Seq<Operand> },
    Return(Operand),
    ReturnVoid,
}

pub open spec fn param_views(ps: Seq<IrParam>) -> Seq<(Seq<char>, DataTypes)> {
    ps.map_values(|p: IrParam| (p.name@, p.kind))
}

pub open spec fn op_view(op: IrOp) -> OpView {
    match op {
        IrOp::DeclarePrintf => OpView::DeclarePrintf,
        IrOp::BeginFunction { name, params, return_kind, linkage } => OpView::BeginFunction {
            name: name@,
            params: param_views(params@),
            return_kind,
            linkage,
        },
        IrOp::BeginEntry => OpView::BeginEntry,
        IrOp::Alloca { cell, kind } => OpView::Alloca { cell, kind },
        IrOp::Store { cell, kind, bits, align } => OpView::Store { cell, kind, bits, align },
        IrOp::Load { reg, cell, kind, align } => OpView::Load { reg, cell, kind, align },
        IrOp::GlobalString { global, name, text } => OpView::GlobalString {
            global,
            name: name@,
            text: text@,
        },
        IrOp::GlobalBool { global, value } => OpView::GlobalBool { global, value },
        IrOp::ConstString { global, text } => OpView::ConstString { global, text: text@ },
        IrOp::CallPrintf { args } => OpView::CallPrintf { args: args@ },
        IrOp::Return(o) => OpView::Return(o),
        IrOp::ReturnVoid => OpView::ReturnVoid,
    }
}

pub open spec fn ops_view(ops: Seq<IrOp>) -> Seq<OpView> {
    ops.map_values(|o: IrOp| op_view(o))
}

/// How many times the print support function is declared.
pub open spec fn printf_count(ops: Seq<OpView>) -> nat
    decreases ops.len(),
{
    if ops.len() == 0 {
        0
    } else {
        printf_count(ops.drop_last()) + if ops.last() is DeclarePrintf {
            1nat
        } else {
            0nat
        }
    }
}

/// How many process-entry functions are generated.
pub open spec fn entry_count(ops: Seq<OpView>) -> nat
    decreases ops.len(),
{
    if ops.len() == 0 {
        0
    } else {
        entry_count(ops.drop_last()) + if ops.last() is BeginEntry {
            1nat
        } else {
            0nat
        }
    }
}

pub proof fn lemma_counts_push(ops: Seq<OpView>, op: OpView)
    ensures
        printf_count(ops.push(op)) == printf_count(ops) + if op is DeclarePrintf {
            1nat
        } else {
            0nat
        },
        entry_count(ops.push(op)) == entry_count(ops) + if op is BeginEntry {
            1nat
        } else {
            0nat
        },
{
    assert(ops.push(op).drop_last() =~= ops);
}

} // verus!
