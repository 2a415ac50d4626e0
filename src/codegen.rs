//! Single-pass, depth-first lowering of the syntax tree.

use vstd::prelude::*;
use vstd::string::StringExecFns;

use crate::error::{ThrushError, ThrushErrorKind, TokenSpan};
use crate::ir::{
    entry_count, lemma_counts_push, op_view, ops_view, param_views, printf_count, FnLinkage, IrOp,
    IrParam, OpView, Operand, NUMERIC_ALIGNMENT,
};
use crate::symbols::{frame_lookup, stack_lookup, Binding, Entry, SymbolStore};
use crate::types::{is_float, is_integer, is_numeric, DataTypes};

verus! {

/// A node of the parsed, type-resolved tree handed in by the frontend.
#[derive(Debug)]
pub enum Instruction {
    Println(Vec<Instruction>),
    Print(Vec<Instruction>),
    String(String),
    /// A numeric literal; for float types the payload is the IEEE-754 bit pattern.
    Integer(DataTypes, u64),
    Block { stmts: Vec<Instruction> },
    EntryPoint { body: Box<Instruction> },
    Param { name: String, kind: DataTypes },
    Function {
        name: String,
        params: Vec<Instruction>,
        body: Box<Instruction>,
        return_kind: Option<DataTypes>,
        is_public: bool,
    },
    Return(Box<Instruction>),
    Var { name: String, kind: DataTypes, value: Option<Box<Instruction>>, line: usize },
    RefVar { name: String, line: usize, kind: DataTypes },
    MutVar { name: String, value: Box<Instruction>, kind: DataTypes },
    Boolean(bool),
    Null,
}

/// The shape of a node, used to say which construct could not be lowered.
#[derive(Debug, Clone, Copy, PartialEq, Eq, Structural)]
pub enum NodeKind {
    Println,
    Print,
    String,
    Integer,
    Block,
    EntryPoint,
    Param,
    Function,
    Return,
    Var,
    RefVar,
    MutVar,
    Boolean,
    Null,
}

/// Why lowering stopped.
#[derive(Debug, Clone, PartialEq, Eq)]
pub enum CodegenError {
    /// A reference names nothing bound where its type says to look.
    SymbolNotFound { name: String, line: usize },
    /// A node of this shape cannot stand where it was found.
    Unsupported(NodeKind),
    /// A second program entry wrapper in one unit.
    DuplicateEntry,
    /// No fresh value number is left.
    ValuesExhausted,
    /// Blocks are nested deeper than the scope counter can count.
    ScopeTooDeep,
}

impl CodegenError {
    /// The error in the compiler's taxonomy: an unresolved name is a scope
    /// failure pinned to its line, so that the reporter can render it; every
    /// other case is an internal compile failure.
    pub fn into_error(self) -> (r: ThrushError)
        ensures
            self is SymbolNotFound ==> r is Scope && r->Scope_0 == ThrushErrorKind::VariableNotDefined
                && r->Scope_4 == self->SymbolNotFound_line && r->Scope_1@ == "Variable not defined"@
                && r->Scope_2@ == "No variable named `"@ + self->SymbolNotFound_name@
                + "` is in scope here."@,
            !(self is SymbolNotFound) ==> r is Compile,
    {
        match self {
            CodegenError::SymbolNotFound { name, line } => {
                let help = String::from_str("No variable named `").concat(name.as_str()).concat(
                    "` is in scope here.",
                );
                ThrushError::Scope(
                    ThrushErrorKind::VariableNotDefined,
                    String::from_str("Variable not defined"),
                    help,
                    TokenSpan { start: 0, end: 0 },
                    line,
                )
            },
            CodegenError::Unsupported(_) => ThrushError::Compile(
                String::from_str("This construct cannot be compiled here."),
            ),
            CodegenError::DuplicateEntry => ThrushError::Compile(
                String::from_str("A unit may hold only one entry point."),
            ),
            CodegenError::ValuesExhausted => ThrushError::Compile(
                String::from_str("The unit needs more values than can be numbered."),
            ),
            CodegenError::ScopeTooDeep => ThrushError::Compile(
                String::from_str("Blocks are nested too deeply."),
            ),
        }
    }
}

pub open spec fn node_kind(i: Instruction) -> NodeKind {
    match i {
        Instruction::Println(_) => NodeKind::Println,
        Instruction::Print(_) => NodeKind::Print,
        Instruction::String(_) => NodeKind::String,
        Instruction::Integer(..) => NodeKind::Integer,
        Instruction::Block { .. } => NodeKind::Block,
        Instruction::EntryPoint { .. } => NodeKind::EntryPoint,
        Instruction::Param { .. } => NodeKind::Param,
        Instruction::Function { .. } => NodeKind::Function,
        Instruction::Return(_) => NodeKind::Return,
        Instruction::Var { .. } => NodeKind::Var,
        Instruction::RefVar { .. } => NodeKind::RefVar,
        Instruction::MutVar { .. } => NodeKind::MutVar,
        Instruction::Boolean(_) => NodeKind::Boolean,
        Instruction::Null => NodeKind::Null,
    }
}

pub fn kind_of(i: &Instruction) -> (r: NodeKind)
    ensures
        r == node_kind(*i),
{
    match i {
        Instruction::Println(_) => NodeKind::Println,
        Instruction::Print(_) => NodeKind::Print,
        Instruction::String(_) => NodeKind::String,
        Instruction::Integer(..) => NodeKind::Integer,
        Instruction::Block { .. } => NodeKind::Block,
        Instruction::EntryPoint { .. } => NodeKind::EntryPoint,
        Instruction::Param { .. } => NodeKind::Param,
        Instruction::Function { .. } => NodeKind::Function,
        Instruction::Return(_) => NodeKind::Return,
        Instruction::Var { .. } => NodeKind::Var,
        Instruction::RefVar { .. } => NodeKind::RefVar,
        Instruction::MutVar { .. } => NodeKind::MutVar,
        Instruction::Boolean(_) => NodeKind::Boolean,
        Instruction::Null => NodeKind::Null,
    }
}

/// The value stored into a fresh numeric cell: the literal's bits, or zero.
pub open spec fn initial_bits(value: Option<Box<Instruction>>) -> u64 {
    match value {
        Some(v) => match *v {
            Instruction::Integer(_, bits) => bits,
            _ => 0,
        },
        None => 0,
    }
}

/// Whether a declaration of type `kind` may carry `value` as its initializer.
pub open spec fn decl_supported(kind: DataTypes, value: Option<Box<Instruction>>) -> bool {
    if is_integer(kind) {
        match value {
            None => true,
            Some(v) => match *v {
                Instruction::Integer(k, _) => is_integer(k),
                _ => false,
            },
        }
    } else if is_float(kind) {
        match value {
            None => true,
            Some(v) => match *v {
                Instruction::Integer(k, _) => is_float(k),
                _ => false,
            },
        }
    } else if kind == DataTypes::String {
        match value {
            None => true,
            Some(v) => (*v) is String,
        }
    } else {
        match value {
            Some(v) => (*v) is Boolean,
            None => false,
        }
    }
}


/// The state of a lowering pass as values: the steps so far, the lexical
/// frames, the flat module-scope map, the next fresh value number, and
/// whether the print support and the entry function exist yet.
pub struct Model {
    pub ops: Seq<OpView>,
    pub frames: Seq<Seq<Entry>>,
    pub flat: Seq<Entry>,
    pub next: nat,
    pub printf: bool,
    pub entry: bool,
}

/// The state of a fresh pass: no steps, one empty frame.
pub open spec fn initial_model() -> Model {
    Model {
        ops: Seq::empty(),
        frames: seq![Seq::<Entry>::empty()],
        flat: Seq::empty(),
        next: 0,
        printf: false,
        entry: false,
    }
}

pub open spec fn with_op(m: Model, op: OpView) -> Model {
    Model { ops: m.ops.push(op), frames: m.frames, flat: m.flat, next: m.next, printf: m.printf, entry: m.entry }
}

pub open spec fn with_next(m: Model, next: nat) -> Model {
    Model { ops: m.ops, frames: m.frames, flat: m.flat, next, printf: m.printf, entry: m.entry }
}

pub open spec fn with_frames(m: Model, frames: Seq<Seq<Entry>>) -> Model {
    Model { ops: m.ops, frames, flat: m.flat, next: m.next, printf: m.printf, entry: m.entry }
}

pub open spec fn with_flat(m: Model, flat: Seq<Entry>) -> Model {
    Model { ops: m.ops, frames: m.frames, flat, next: m.next, printf: m.printf, entry: m.entry }
}

/// Whether no fresh value number is left.
pub open spec fn exhausted(m: Model) -> bool {
    m.next >= usize::MAX
}

/// Whether one more frame cannot be counted.
pub open spec fn too_deep(m: Model) -> bool {
    m.frames.len() >= usize::MAX + 1
}

pub open spec fn enter(m: Model) -> Model {
    with_frames(m, m.frames.push(Seq::empty()))
}

pub open spec fn leave(m: Model) -> Model {
    with_frames(m, m.frames.drop_last())
}

/// The text of a string declaration: its literal, or a lone NUL.
pub open spec fn string_init(value: Option<Box<Instruction>>) -> Seq<char> {
    match value {
        Some(v) => (*v)->String_0@,
        None => "\0"@,
    }
}

/// Lowering a declaration.
pub open spec fn lower_var(
    m: Model,
    name: String,
    kind: DataTypes,
    value: Option<Box<Instruction>>,
) -> Result<Model, CodegenError> {
    if !decl_supported(kind, value) {
        Err(CodegenError::Unsupported(NodeKind::Var))
    } else if is_numeric(kind) {
        if m.next + 1 >= usize::MAX {
            Err(CodegenError::ValuesExhausted)
        } else {
            let c = m.next as usize;
            let r = (m.next + 1) as usize;
            let entry = Entry { name, binding: Binding { kind, value: Operand::Register(r) } };
            Ok(
                Model {
                    ops: m.ops.push(OpView::Alloca { cell: c, kind }).push(
                        OpView::Store { cell: c, kind, bits: initial_bits(value), align: NUMERIC_ALIGNMENT },
                    ).push(OpView::Load { reg: r, cell: c, kind, align: NUMERIC_ALIGNMENT }),
                    frames: m.frames.update(m.frames.len() - 1, m.frames.last().push(entry)),
                    flat: m.flat,
                    next: m.next + 2,
                    printf: m.printf,
                    entry: m.entry,
                },
            )
        }
    } else if exhausted(m) {
        Err(CodegenError::ValuesExhausted)
    } else {
        let g = m.next as usize;
        let op = if kind == DataTypes::String {
            OpView::GlobalString { global: g, name: name@, text: string_init(value) }
        } else {
            OpView::GlobalBool { global: g, value: (*value->Some_0)->Boolean_0 }
        };
        let entry = Entry { name, binding: Binding { kind, value: Operand::Global(g) } };
        Ok(with_flat(with_next(with_op(m, op), m.next + 1), m.flat.push(entry)))
    }
}

/// Lowering one print argument: the state after it and the operand passed.
pub open spec fn lower_arg(m: Model, arg: Instruction) -> Result<(Model, Operand), CodegenError> {
    match arg {
        Instruction::String(s) => if exhausted(m) {
            Err(CodegenError::ValuesExhausted)
        } else {
            Ok(
                (
                    with_next(with_op(m, OpView::ConstString { global: m.next as usize, text: s@ }), m.next + 1),
                    Operand::Global(m.next as usize),
                ),
            )
        },
        Instruction::Integer(k, bits) => Ok((m, Operand::Const(k, bits))),
        Instruction::RefVar { name, line, kind } => {
            let found = if is_numeric(kind) {
                stack_lookup(m.frames, name@)
            } else {
                frame_lookup(m.flat, name@)
            };
            match found {
                Some(b) => Ok((m, b.value)),
                None => Err(CodegenError::SymbolNotFound { name, line }),
            }
        },
        _ => Err(CodegenError::Unsupported(node_kind(arg))),
    }
}

/// Lowering print arguments left to right.
pub open spec fn lower_args(m: Model, args: Seq<Instruction>) -> Result<(Model, Seq<Operand>), CodegenError>
    decreases args.len(),
{
    if args.len() == 0 {
        Ok((m, Seq::empty()))
    } else {
        match lower_arg(m, args[0]) {
            Err(e) => Err(e),
            Ok((m1, o)) => match lower_args(m1, args.subrange(1, args.len() as int)) {
                Err(e) => Err(e),
                Ok((m2, os)) => Ok((m2, seq![o] + os)),
            },
        }
    }
}

/// Lowering a print: the support function is declared on first use, then the
/// arguments, then the call.
pub open spec fn lower_print(m: Model, args: Seq<Instruction>) -> Result<Model, CodegenError> {
    let m0 = if m.printf {
        m
    } else {
        Model { ops: m.ops.push(OpView::DeclarePrintf), frames: m.frames, flat: m.flat, next: m.next, printf: true, entry: m.entry }
    };
    match lower_args(m0, args) {
        Err(e) => Err(e),
        Ok((m1, os)) => Ok(with_op(m1, OpView::CallPrintf { args: os })),
    }
}

/// Lowering a return statement's value.
pub open spec fn lower_return(m: Model, v: Instruction) -> Result<Model, CodegenError> {
    match v {
        Instruction::Null => Ok(m),
        Instruction::Integer(k, bits) => Ok(with_op(m, OpView::Return(Operand::Const(k, bits)))),
        Instruction::String(s) => if exhausted(m) {
            Err(CodegenError::ValuesExhausted)
        } else {
            let g = m.next as usize;
            Ok(with_next(with_op(with_op(m, OpView::ConstString { global: g, text: s@ }), OpView::Return(Operand::Global(g))), m.next + 1))
        },
        _ => Err(CodegenError::Unsupported(node_kind(v))),
    }
}

/// The signature's parameters, each of which must be a `Param` node.
pub open spec fn lower_param_list(ps: Seq<Instruction>) -> Result<Seq<(Seq<char>, DataTypes)>, CodegenError>
    decreases ps.len(),
{
    if ps.len() == 0 {
        Ok(Seq::empty())
    } else {
        match ps[0] {
            Instruction::Param { name, kind } => match lower_param_list(ps.subrange(1, ps.len() as int)) {
                Err(e) => Err(e),
                Ok(rest) => Ok(seq![(name@, kind)] + rest),
            },
            other => Err(CodegenError::Unsupported(node_kind(other))),
        }
    }
}

/// What lowering `instr` from the state `m` gives.
pub open spec fn lower_spec(m: Model, instr: Instruction) -> Result<Model, CodegenError>
    decreases instr,
{
    match instr {
        Instruction::Block { stmts } => if too_deep(m) {
            Err(CodegenError::ScopeTooDeep)
        } else {
            match lower_stmts(enter(m), stmts@) {
                Err(e) => Err(e),
                Ok(m1) => Ok(leave(m1)),
            }
        },
        Instruction::Function { name, params, body, return_kind, is_public } => match lower_param_list(params@) {
            Err(e) => Err(e),
            Ok(ps) => if too_deep(m) {
                Err(CodegenError::ScopeTooDeep)
            } else {
                let linkage = if is_public { FnLinkage::External } else { FnLinkage::Private };
                let m1 = with_op(m, OpView::BeginFunction { name: name@, params: ps, return_kind, linkage });
                match lower_spec(enter(m1), *body) {
                    Err(e) => Err(e),
                    Ok(m2) => if return_kind is None {
                        Ok(with_op(leave(m2), OpView::ReturnVoid))
                    } else {
                        Ok(leave(m2))
                    },
                }
            },
        },
        Instruction::EntryPoint { body } => if m.entry {
            Err(CodegenError::DuplicateEntry)
        } else if too_deep(m) {
            Err(CodegenError::ScopeTooDeep)
        } else {
            let m1 = Model { ops: m.ops.push(OpView::BeginEntry), frames: m.frames, flat: m.flat, next: m.next, printf: m.printf, entry: true };
            match lower_spec(enter(m1), *body) {
                Err(e) => Err(e),
                Ok(m2) => Ok(with_op(leave(m2), OpView::Return(Operand::Const(DataTypes::I32, 0)))),
            }
        },
        Instruction::Return(v) => lower_return(m, *v),
        Instruction::String(s) => if exhausted(m) {
            Err(CodegenError::ValuesExhausted)
        } else {
            Ok(with_next(with_op(m, OpView::ConstString { global: m.next as usize, text: s@ }), m.next + 1))
        },
        Instruction::Print(args) => lower_print(m, args@),
        Instruction::Println(args) => lower_print(m, args@),
        Instruction::Var { name, kind, value, .. } => lower_var(m, name, kind, value),
        _ => Err(CodegenError::Unsupported(node_kind(instr))),
    }
}

/// Lowering statements in order; the first failure stops it.
pub open spec fn lower_stmts(m: Model, s: Seq<Instruction>) -> Result<Model, CodegenError>
    decreases s,
{
    if s.len() == 0 {
        Ok(m)
    } else {
        match lower_spec(m, s[0]) {
            Err(e) => Err(e),
            Ok(m1) => lower_stmts(m1, s.subrange(1, s.len() as int)),
        }
    }
}

/// Nodes rejected before anything changes.
pub open spec fn rejected_at_once(instr: Instruction) -> bool {
    ||| instr is Param
    ||| instr is Integer
    ||| instr is RefVar
    ||| instr is MutVar
    ||| instr is Boolean
    ||| instr is Null
    ||| instr is Var && !decl_supported(instr->Var_kind, instr->Var_value)
    ||| instr is Return && !((*instr->Return_0) is Null || (*instr->Return_0) is Integer || (*instr->Return_0) is String)
}


/// `b` keeps every entry of `a`, in place, and may add more after them.
pub open spec fn flat_extends(a: Seq<Entry>, b: Seq<Entry>) -> bool {
    a.len() <= b.len() && b.subrange(0, a.len() as int) == a
}

pub proof fn lemma_extends_trans(a: Seq<Entry>, b: Seq<Entry>, c: Seq<Entry>)
    requires
        flat_extends(a, b),
        flat_extends(b, c),
    ensures
        flat_extends(a, c),
{
    assert(c.subrange(0, a.len() as int) =~= c.subrange(0, b.len() as int).subrange(0, a.len() as int));
}

/// A string or boolean name, once bound in the flat map, stays resolvable in
/// every later state of the pass: successful lowering only extends that map,
/// whatever block the later nodes stand in.
pub proof fn lemma_flat_binding_persists(a: Seq<Entry>, b: Seq<Entry>, name: Seq<char>)
    requires
        flat_extends(a, b),
        frame_lookup(a, name) is Some,
    ensures
        frame_lookup(b, name) is Some,
    decreases b.len(),
{
    if b.len() > a.len() {
        if b.last().name@ != name {
            assert(b.drop_last().subrange(0, a.len() as int) =~= a);
            lemma_flat_binding_persists(a, b.drop_last(), name);
        }
    } else {
        assert(b =~= a);
    }
}

/// A numeric declaration without an initializer stores the type's zero into
/// a fresh cell and binds the name, in the innermost frame, to the value
/// reloaded from it.
pub proof fn lemma_uninitialized_numeric_is_zero(m: Model, name: String, kind: DataTypes, line: usize)
    requires
        is_numeric(kind),
        m.frames.len() >= 1,
        lower_spec(m, Instruction::Var { name, kind, value: None, line }) is Ok,
    ensures
        ({
            let m2 = lower_spec(m, Instruction::Var { name, kind, value: None, line })->Ok_0;
            let n = m.ops.len() as int;
            let cell = m.next as usize;
            let reg = (m.next + 1) as usize;
            &&& m2.ops[n + 1] == OpView::Store { cell, kind, bits: 0, align: NUMERIC_ALIGNMENT }
            &&& m2.ops[n + 2] == OpView::Load { reg, cell, kind, align: NUMERIC_ALIGNMENT }
            &&& stack_lookup(m2.frames, name@) == Some(Binding { kind, value: Operand::Register(reg) })
        }),
{
    let m2 = lower_spec(m, Instruction::Var { name, kind, value: None, line })->Ok_0;
    let e = Entry { name, binding: Binding { kind, value: Operand::Register((m.next + 1) as usize) } };
    assert(m2.frames.last() == m.frames.last().push(e));
    assert(frame_lookup(m2.frames.last(), name@) == Some(e.binding));
}

/// Lowers an AST into a sequence of module-construction steps, keeping the
/// two-tier symbol store as it goes.
pub struct Compiler {
    ops: Vec<IrOp>,
    symbols: SymbolStore,
    next_value: usize,
    printf_declared: bool,
    entry_emitted: bool,
}

impl Compiler {
    /// The pass's state as values.
    pub closed spec fn model(&self) -> Model {
        Model {
            ops: ops_view(self.ops@),
            frames: self.symbols.frames(),
            flat: self.symbols.flat(),
            next: self.next_value as nat,
            printf: self.printf_declared,
            entry: self.entry_emitted,
        }
    }

    pub closed spec fn store(&self) -> SymbolStore {
        self.symbols
    }

    pub open spec fn wf(&self) -> bool {
        &&& self.store().wf()
        &&& self.store().frames() == self.model().frames
        &&& self.model().next <= usize::MAX
        &&& printf_count(self.model().ops) == if self.model().printf {
            1nat
        } else {
            0nat
        }
        &&& entry_count(self.model().ops) == if self.model().entry {
            1nat
        } else {
            0nat
        }
    }

    pub fn new() -> (r: Compiler)
        ensures
            r.wf(),
            r.model() == initial_model(),
    {
        let r = Compiler {
            ops: Vec::new(),
            symbols: SymbolStore::new(),
            next_value: 0,
            printf_declared: false,
            entry_emitted: false,
        };
        assert(ops_view(r.ops@) =~= Seq::<OpView>::empty());
        assert(r.symbols.flat() =~= Seq::<Entry>::empty());
        r
    }

    /// The steps produced so far.
    pub fn into_ops(self) -> (r: Vec<IrOp>)
        ensures
            ops_view(r@) == self.model().ops,
    {
        self.ops
    }

    fn fresh(&mut self) -> (r: Result<usize, CodegenError>)
        requires
            old(self).wf(),
        ensures
            final(self).wf(),
            match r {
                Ok(v) => !exhausted(old(self).model()) && v as nat == old(self).model().next
                    && final(self).model() == with_next(old(self).model(), old(self).model().next + 1),
                Err(e) => exhausted(old(self).model()) && e == CodegenError::ValuesExhausted
                    && final(self).model() == old(self).model(),
            },
    {
        if self.next_value == usize::MAX {
            return Err(CodegenError::ValuesExhausted);
        }
        let v = self.next_value;
        self.next_value = v + 1;
        Ok(v)
    }

    fn emit(&mut self, op: IrOp)
        requires
            old(self).wf(),
            !(op is DeclarePrintf),
            !(op is BeginEntry),
        ensures
            final(self).wf(),
            final(self).model() == with_op(old(self).model(), op_view(op)),
    {
        let ghost before = self.ops@;
        proof {
            lemma_counts_push(ops_view(before), op_view(op));
        }
        self.ops.push(op);
        assert(ops_view(self.ops@) =~= ops_view(before).push(op_view(op)));
    }

    /// Declare the print support function unless it already is.
    fn define_printf(&mut self)
        requires
            old(self).wf(),
        ensures
            final(self).wf(),
            final(self).model() == if old(self).model().printf {
                old(self).model()
            } else {
                Model {
                    ops: old(self).model().ops.push(OpView::DeclarePrintf),
                    frames: old(self).model().frames,
                    flat: old(self).model().flat,
                    next: old(self).model().next,
                    printf: true,
                    entry: old(self).model().entry,
                }
            },
    {
        if !self.printf_declared {
            let ghost before = self.ops@;
            proof {
                lemma_counts_push(ops_view(before), OpView::DeclarePrintf);
            }
            self.ops.push(IrOp::DeclarePrintf);
            self.printf_declared = true;
            assert(ops_view(self.ops@) =~= ops_view(before).push(OpView::DeclarePrintf));
        }
    }

    /// Open the process-entry function.
    fn emit_main(&mut self)
        requires
            old(self).wf(),
            !old(self).model().entry,
        ensures
            final(self).wf(),
            final(self).model() == (Model {
                ops: old(self).model().ops.push(OpView::BeginEntry),
                frames: old(self).model().frames,
                flat: old(self).model().flat,
                next: old(self).model().next,
                printf: old(self).model().printf,
                entry: true,
            }),
    {
        let ghost before = self.ops@;
        proof {
            lemma_counts_push(ops_view(before), OpView::BeginEntry);
        }
        self.ops.push(IrOp::BeginEntry);
        self.entry_emitted = true;
        assert(ops_view(self.ops@) =~= ops_view(before).push(OpView::BeginEntry));
    }

    fn enter_scope(&mut self)
        requires
            old(self).wf(),
            !too_deep(old(self).model()),
        ensures
            final(self).wf(),
            final(self).model() == enter(old(self).model()),
    {
        self.symbols.enter();
    }

    fn leave_scope(&mut self)
        requires
            old(self).wf(),
            old(self).model().frames.len() >= 2,
        ensures
            final(self).wf(),
            final(self).model() == leave(old(self).model()),
    {
        self.symbols.leave();
    }

    fn deep(&self) -> (r: bool)
        requires
            self.wf(),
        ensures
            r == too_deep(self.model()),
    {
        self.symbols.scope() == usize::MAX
    }

    /// Lower a variable declaration: numeric values go to a fresh stack cell
    /// and are bound in the innermost frame; strings and booleans become
    /// module-scope globals bound in the flat map.
    fn emit_variable(
        &mut self,
        name: &String,
        kind: DataTypes,
        value: &Option<Box<Instruction>>,
    ) -> (r: Result<(), CodegenError>)
        requires
            old(self).wf(),
        ensures
            final(self).wf(),
            match lower_var(old(self).model(), *name, kind, *value) {
                Ok(m) => r is Ok && final(self).model() == m,
                Err(e) => r == Err::<(), CodegenError>(e) && final(self).model().frames
                    == old(self).model().frames,
            },
            !decl_supported(kind, *value) ==> final(self).model() == old(self).model(),
    {
        if kind.is_numeric() {
            let bits: u64 = match value {
                None => 0,
                Some(v) => match &**v {
                    Instruction::Integer(k, b) => {
                        if (kind.is_integer() && k.is_integer()) || (kind.is_float()
                            && k.is_float()) {
                            *b
                        } else {
                            return Err(CodegenError::Unsupported(NodeKind::Var));
                        }
                    },
                    _ => {
                        return Err(CodegenError::Unsupported(NodeKind::Var));
                    },
                },
            };
            let cell = match self.fresh() {
                Ok(c) => c,
                Err(e) => {
                    return Err(e);
                },
            };
            let reg = match self.fresh() {
                Ok(c) => c,
                Err(e) => {
                    return Err(e);
                },
            };
            self.emit(IrOp::Alloca { cell, kind });
            self.emit(IrOp::Store { cell, kind, bits, align: NUMERIC_ALIGNMENT });
            self.emit(IrOp::Load { reg, cell, kind, align: NUMERIC_ALIGNMENT });
            self.symbols.bind_local(name.clone(), Binding { kind, value: Operand::Register(reg) });
            Ok(())
        } else if kind == DataTypes::String {
            let text: String = match value {
                None => String::from_str("\0"),
                Some(v) => match &**v {
                    Instruction::String(s) => s.clone(),
                    _ => {
                        return Err(CodegenError::Unsupported(NodeKind::Var));
                    },
                },
            };
            let global = match self.fresh() {
                Ok(c) => c,
                Err(e) => {
                    return Err(e);
                },
            };
            self.emit(IrOp::GlobalString { global, name: name.clone(), text });
            self.symbols.bind_global(name.clone(), Binding { kind, value: Operand::Global(global) });
            Ok(())
        } else {
            let flag: bool = match value {
                Some(v) => match &**v {
                    Instruction::Boolean(b) => *b,
                    _ => {
                        return Err(CodegenError::Unsupported(NodeKind::Var));
                    },
                },
                None => {
                    return Err(CodegenError::Unsupported(NodeKind::Var));
                },
            };
            let global = match self.fresh() {
                Ok(c) => c,
                Err(e) => {
                    return Err(e);
                },
            };
            self.emit(IrOp::GlobalBool { global, value: flag });
            self.symbols.bind_global(name.clone(), Binding { kind, value: Operand::Global(global) });
            Ok(())
        }
    }

    /// Lower the arguments of a print, left to right, and the call itself.
    fn emit_print(&mut self, args: &Vec<Instruction>) -> (r: Result<(), CodegenError>)
        requires
            old(self).wf(),
            old(self).model().printf,
        ensures
            final(self).wf(),
            match lower_args(old(self).model(), args@) {
                Ok((m1, os)) => r is Ok && final(self).model() == with_op(
                    m1,
                    OpView::CallPrintf { args: os },
                ),
                Err(e) => r == Err::<(), CodegenError>(e) && final(self).model().frames
                    == old(self).model().frames,
            },
            final(self).model().frames == old(self).model().frames,
            final(self).model().flat == old(self).model().flat,
    {
        let ghost start = self.model();
        let mut operands: Vec<Operand> = Vec::new();
        let mut i: usize = 0;
        assert(args@.subrange(0, args@.len() as int) =~= args@);
        while i < args.len()
            invariant
                start == old(self).model(),
                self.wf(),
                self.model().printf,
                self.model().frames == start.frames,
                self.model().flat == start.flat,
                i <= args@.len(),
                lower_args(start, args@) == match lower_args(
                    self.model(),
                    args@.subrange(i as int, args@.len() as int),
                ) {
                    Ok((m2, os)) => Ok((m2, operands@ + os)),
                    Err(e) => Err(e),
                },
            decreases args@.len() - i,
        {
            let ghost cur = self.model();
            let ghost rest = args@.subrange(i as int, args@.len() as int);
            let ghost next_rest = args@.subrange(i + 1, args@.len() as int);
            let ghost before_ops = operands@;
            assert(rest[0] == args@[i as int]);
            assert(rest.subrange(1, rest.len() as int) =~= next_rest);
            let operand: Operand = match &args[i] {
                Instruction::String(s) => {
                    let global = match self.fresh() {
                        Ok(g) => g,
                        Err(e) => {
                            return Err(e);
                        },
                    };
                    self.emit(IrOp::ConstString { global, text: s.clone() });
                    Operand::Global(global)
                },
                Instruction::Integer(k, b) => Operand::Const(*k, *b),
                Instruction::RefVar { name, line, kind } => {
                    let found = if kind.is_numeric() {
                        self.symbols.get_local(name)
                    } else {
                        self.symbols.get_global(name)
                    };
                    match found {
                        Some(b) => b.value,
                        None => {
                            return Err(
                                CodegenError::SymbolNotFound { name: name.clone(), line: *line },
                            );
                        },
                    }
                },
                other => {
                    return Err(CodegenError::Unsupported(kind_of(other)));
                },
            };
            assert(lower_arg(cur, args@[i as int]) == Ok::<(Model, Operand), CodegenError>((self.model(), operand)));
            operands.push(operand);
            proof {
                match lower_args(self.model(), next_rest) {
                    Ok((m2, os)) => {
                        assert(before_ops + (seq![operand] + os) =~= operands@ + os);
                    },
                    Err(_) => {},
                }
            }
            i = i + 1;
        }
        let ghost fin = self.model();
        assert(args@.subrange(i as int, args@.len() as int) =~= Seq::<Instruction>::empty());
        assert(operands@ + Seq::<Operand>::empty() =~= operands@);
        self.emit(IrOp::CallPrintf { args: operands });
        Ok(())
    }

    /// Lower the value of a return statement.
    fn emit_return(&mut self, value: &Instruction) -> (r: Result<(), CodegenError>)
        requires
            old(self).wf(),
        ensures
            final(self).wf(),
            match lower_return(old(self).model(), *value) {
                Ok(m) => r is Ok && final(self).model() == m,
                Err(e) => r == Err::<(), CodegenError>(e) && final(self).model() == old(self).model(),
            },
    {
        match value {
            Instruction::Null => Ok(()),
            Instruction::Integer(k, b) => {
                self.emit(IrOp::Return(Operand::Const(*k, *b)));
                Ok(())
            },
            Instruction::String(s) => {
                let global = match self.fresh() {
                    Ok(g) => g,
                    Err(e) => {
                        return Err(e);
                    },
                };
                let ghost m0 = self.model();
                self.emit(IrOp::ConstString { global, text: s.clone() });
                self.emit(IrOp::Return(Operand::Global(global)));
                assert(self.model() == with_next(
                    with_op(
                        with_op(old(self).model(), OpView::ConstString { global, text: s@ }),
                        OpView::Return(Operand::Global(global)),
                    ),
                    old(self).model().next + 1,
                ));
                Ok(())
            },
            other => Err(CodegenError::Unsupported(kind_of(other))),
        }
    }

    /// The call signature's parameters, each a `Param` node.
    fn lower_params(params: &Vec<Instruction>) -> (r: Result<Vec<IrParam>, CodegenError>)
        ensures
            match lower_param_list(params@) {
                Ok(ps) => r is Ok && param_views(r->Ok_0@) == ps,
                Err(e) => r == Err::<Vec<IrParam>, CodegenError>(e),
            },
    {
        let mut out: Vec<IrParam> = Vec::new();
        let mut i: usize = 0;
        assert(params@.subrange(0, params@.len() as int) =~= params@);
        assert(param_views(out@) =~= Seq::<(Seq<char>, DataTypes)>::empty());
        while i < params.len()
            invariant
                i <= params@.len(),
                lower_param_list(params@) == match lower_param_list(
                    params@.subrange(i as int, params@.len() as int),
                ) {
                    Ok(rest) => Ok(param_views(out@) + rest),
                    Err(e) => Err(e),
                },
            decreases params@.len() - i,
        {
            let ghost rest = params@.subrange(i as int, params@.len() as int);
            let ghost next_rest = params@.subrange(i + 1, params@.len() as int);
            let ghost before = param_views(out@);
            assert(rest[0] == params@[i as int]);
            assert(rest.subrange(1, rest.len() as int) =~= next_rest);
            match &params[i] {
                Instruction::Param { name, kind } => {
                    out.push(IrParam { name: name.clone(), kind: *kind });
                    proof {
                        assert(param_views(out@) =~= before.push((name@, *kind)));
                        match lower_param_list(next_rest) {
                            Ok(r2) => {
                                assert(before + (seq![(name@, *kind)] + r2) =~= param_views(out@) + r2);
                            },
                            Err(_) => {},
                        }
                    }
                },
                other => {
                    return Err(CodegenError::Unsupported(kind_of(other)));
                },
            }
            i = i + 1;
        }
        assert(params@.subrange(i as int, params@.len() as int) =~= Seq::<Instruction>::empty());
        assert(param_views(out@) + Seq::<(Seq<char>, DataTypes)>::empty() =~= param_views(out@));
        Ok(out)
    }

    /// Lower one node into the module under construction, depth first. The
    /// result is exactly what `lower_spec` gives; on failure the frames are as
    /// they were, and a node rejected at once changes nothing.
    pub fn lower(&mut self, instr: &Instruction) -> (r: Result<(), CodegenError>)
        requires
            old(self).wf(),
        ensures
            final(self).wf(),
            match lower_spec(old(self).model(), *instr) {
                Ok(m) => r is Ok && final(self).model() == m,
                Err(e) => r == Err::<(), CodegenError>(e) && final(self).model().frames
                    == old(self).model().frames,
            },
            rejected_at_once(*instr) ==> final(self).model() == old(self).model(),
            r is Ok ==> final(self).model().frames.len() == old(self).model().frames.len()
                && final(self).model().frames.drop_last() == old(self).model().frames.drop_last(),
            r is Ok && !(*instr is Var && is_numeric(instr->Var_kind)) ==> final(self).model().frames
                == old(self).model().frames,
            r is Ok ==> flat_extends(old(self).model().flat, final(self).model().flat),
        decreases instr,
    {
        let ghost start = self.model();
        assert(start.flat.subrange(0, start.flat.len() as int) =~= start.flat);
        match instr {
            Instruction::Block { stmts } => {
                if self.deep() {
                    return Err(CodegenError::ScopeTooDeep);
                }
                self.enter_scope();
                let ghost m1 = self.model();
                let mut i: usize = 0;
                assert(start.flat.subrange(0, start.flat.len() as int) =~= start.flat);
                assert(stmts@.subrange(0, stmts@.len() as int) =~= stmts@);
                while i < stmts.len()
                    invariant
                        start == old(self).model(),
                        *instr is Block,
                        *stmts == instr->Block_stmts,
                        m1 == enter(start),
                        start.frames.len() >= 1,
                        !too_deep(start),
                        flat_extends(start.flat, self.model().flat),
                        self.wf(),
                        i <= stmts@.len(),
                        self.model().frames.len() == m1.frames.len(),
                        self.model().frames.drop_last() == m1.frames.drop_last(),
                        lower_stmts(m1, stmts@) == lower_stmts(
                            self.model(),
                            stmts@.subrange(i as int, stmts@.len() as int),
                        ),
                    decreases stmts@.len() - i,
                {
                    let ghost cur = self.model();
                    let ghost rest = stmts@.subrange(i as int, stmts@.len() as int);
                    assert(rest[0] == stmts@[i as int]);
                    assert(rest.subrange(1, rest.len() as int) =~= stmts@.subrange(
                        i + 1,
                        stmts@.len() as int,
                    ));
                    proof {
                        assert(decreases_to!(*instr => instr->Block_stmts));
                        assert(decreases_to!(instr->Block_stmts => instr->Block_stmts@));
                        assert(decreases_to!(instr->Block_stmts@ => instr->Block_stmts@[i as int]));
                    }
                    match self.lower(&stmts[i]) {
                        Ok(()) => {
                            proof {
                                lemma_extends_trans(start.flat, cur.flat, self.model().flat);
                            }
                        },
                        Err(e) => {
                            assert(lower_spec(cur, stmts@[i as int]) == Err::<Model, CodegenError>(e));
                            assert(lower_stmts(cur, rest) == Err::<Model, CodegenError>(e));
                            assert(lower_stmts(m1, stmts@) == Err::<Model, CodegenError>(e));
                            self.leave_scope();
                            assert(self.model().frames =~= start.frames);
                            return Err(e);
                        },
                    }
                    i = i + 1;
                }
                assert(stmts@.subrange(i as int, stmts@.len() as int) =~= Seq::<Instruction>::empty());
                self.leave_scope();
                assert(self.model().frames =~= start.frames);
                Ok(())
            },
            Instruction::Function { name, params, body, return_kind, is_public } => {
                let ps = match Compiler::lower_params(params) {
                    Ok(ps) => ps,
                    Err(e) => {
                        return Err(e);
                    },
                };
                if self.deep() {
                    return Err(CodegenError::ScopeTooDeep);
                }
                let linkage = if *is_public {
                    FnLinkage::External
                } else {
                    FnLinkage::Private
                };
                self.emit(
                    IrOp::BeginFunction {
                        name: name.clone(),
                        params: ps,
                        return_kind: *return_kind,
                        linkage,
                    },
                );
                self.enter_scope();
                match self.lower(body) {
                    Ok(()) => {},
                    Err(e) => {
                        self.leave_scope();
                        assert(self.model().frames =~= start.frames);
                        return Err(e);
                    },
                }
                self.leave_scope();
                assert(self.model().frames =~= start.frames);
                if return_kind.is_none() {
                    self.emit(IrOp::ReturnVoid);
                }
                Ok(())
            },
            Instruction::Return(value) => {
                let r = self.emit_return(value);
                assert(r is Ok ==> self.model().frames == start.frames);
                r
            },
            Instruction::String(text) => {
                let global = match self.fresh() {
                    Ok(g) => g,
                    Err(e) => {
                        return Err(e);
                    },
                };
                self.emit(IrOp::ConstString { global, text: text.clone() });
                Ok(())
            },
            Instruction::Println(args) => {
                self.define_printf();
                self.emit_print(args)
            },
            Instruction::Print(args) => {
                self.define_printf();
                self.emit_print(args)
            },
            Instruction::Var { name, kind, value, .. } => {
                let r = self.emit_variable(name, *kind, value);
                proof {
                    let f = start.frames;
                    if r is Ok {
                        if is_numeric(*kind) {
                            let m = lower_var(start, *name, *kind, *value)->Ok_0;
                            assert(m.frames.len() == f.len());
                            assert(m.frames.drop_last() =~= f.drop_last());
                        }
                        assert(self.model().frames.len() == f.len());
                        assert(self.model().flat.subrange(0, start.flat.len() as int) =~= start.flat);
                    }
                }
                r
            },
            Instruction::EntryPoint { body } => {
                if self.entry_emitted {
                    return Err(CodegenError::DuplicateEntry);
                }
                if self.deep() {
                    return Err(CodegenError::ScopeTooDeep);
                }
                self.emit_main();
                self.enter_scope();
                match self.lower(body) {
                    Ok(()) => {},
                    Err(e) => {
                        self.leave_scope();
                        assert(self.model().frames =~= start.frames);
                        return Err(e);
                    },
                }
                self.leave_scope();
                assert(self.model().frames =~= start.frames);
                self.emit(IrOp::Return(Operand::Const(DataTypes::I32, 0)));
                Ok(())
            },
            other => Err(CodegenError::Unsupported(kind_of(other))),
        }
    }

    /// Lower the ordered top-level sequence of a unit, once, in order, from a
    /// fresh pass. The steps are exactly those that `lower_stmts` gives from
    /// the initial state, and the error is that of the first node that fails.
    pub fn compile(instructions: &Vec<Instruction>) -> (r: Result<Vec<IrOp>, CodegenError>)
        ensures
            match lower_stmts(initial_model(), instructions@) {
                Ok(m) => r is Ok && ops_view(r->Ok_0@) == m.ops,
                Err(e) => r == Err::<Vec<IrOp>, CodegenError>(e),
            },
            r is Ok ==> printf_count(ops_view(r->Ok_0@)) <= 1,
            r is Ok ==> entry_count(ops_view(r->Ok_0@)) <= 1,
    {
        let mut c = Compiler::new();
        let mut i: usize = 0;
        assert(instructions@.subrange(0, instructions@.len() as int) =~= instructions@);
        while i < instructions.len()
            invariant
                c.wf(),
                i <= instructions@.len(),
                lower_stmts(initial_model(), instructions@) == lower_stmts(
                    c.model(),
                    instructions@.subrange(i as int, instructions@.len() as int),
                ),
            decreases instructions@.len() - i,
        {
            let ghost rest = instructions@.subrange(i as int, instructions@.len() as int);
            assert(rest[0] == instructions@[i as int]);
            assert(rest.subrange(1, rest.len() as int) =~= instructions@.subrange(
                i + 1,
                instructions@.len() as int,
            ));
            match c.lower(&instructions[i]) {
                Ok(()) => {},
                Err(e) => {
                    return Err(e);
                },
            }
            i = i + 1;
        }
        assert(instructions@.subrange(i as int, instructions@.len() as int) =~= Seq::<Instruction>::empty());
        Ok(c.into_ops())
    }
}

} // verus!
