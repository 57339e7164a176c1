//! The abstract syntax tree that the parser produces.
//!
//! Each type that holds text or nested values has a view: a model of the
//! value made of `Seq`s and plain values, over which contracts are stated.

use vstd::prelude::*;

verus! {

/// A whole program: its modules in source order.
pub struct Program {
    pub modules: Vec<Module>,
}

/// A module. It carries no sections yet.
#[derive(Clone, Copy, Debug, PartialEq, Eq, Structural)]
pub struct Module {}

/// A value type.
#[derive(Clone, Copy, Debug, PartialEq, Eq, Structural)]
pub enum Type {
    Numerical(NumericalType),
}

/// The four built-in numerical types.
#[derive(Clone, Copy, Debug, PartialEq, Eq, Structural)]
pub enum NumericalType {
    /// Signed integer of 32 bits
    Int32,
    /// Signed integer of 64 bits
    Int64,
    /// Floating-point number of 32 bits
    Float32,
    /// Floating-point number of 64 bits
    Float64,
}

/// A numerical type together with a value of it. Floating-point values
/// are held as their IEEE 754 bit patterns.
#[derive(Clone, Copy, Debug, PartialEq, Eq, Structural)]
pub enum NumericalValue {
    /// Signed integer of 32 bits
    Int32(i32),
    /// Signed integer of 64 bits
    Int64(i64),
    /// Bit pattern of a floating-point number of 32 bits
    Float32(u32),
    /// Bit pattern of a floating-point number of 64 bits
    Float64(u64),
}

/// A function parameter.
#[derive(Clone, Debug, PartialEq, Eq)]
pub struct Parameter {
    /// The identifier of this parameter, if any; without one the
    /// parameter is reached through its index.
    pub identifier: Option<String>,
    /// The type of this parameter
    pub type_: Type,
}

/// A local variable within a function.
#[derive(Clone, Debug, PartialEq, Eq)]
pub struct Local {
    /// The identifier of this local, if any; without one the local is
    /// reached through its index.
    pub identifier: Option<String>,
    /// The type of this local
    pub type_: Type,
}

/// A function definition.
#[derive(Clone, Debug, PartialEq, Eq)]
pub struct Function {
    /// The identifier of this function, if any.
    pub identifier: Option<String>,
    /// The names under which this function is exported, in order.
    pub exports: Vec<String>,
    /// The parameters, in the order of their definition.
    pub parameters: Vec<Parameter>,
    /// The local variables, in the order of their definition.
    pub local_variables: Vec<Local>,
}

/// An instruction with its folded operands, each an instruction that is
/// evaluated before it.
#[derive(Debug, PartialEq, Eq)]
pub struct Instruction {
    /// The operation of this instruction
    pub opcode: Opcode,
    /// Its folded operands, in order.
    pub arguments: Vec<Instruction>,
}

/// An imported function: the namespace it comes from, its name there, and
/// the signature it is bound to. The signature has no exports and no
/// locals.
#[derive(Clone, Debug, PartialEq, Eq)]
pub struct ImportFunction {
    pub namespace: String,
    pub fn_name: String,
    pub signature: Function,
}

/// A single operation that can appear in a function body.
#[derive(Clone, Debug, PartialEq, Eq)]
pub enum Opcode {
    /// Calls a function
    Call(Index),
    /// Reads or writes a local or global variable
    VariableInstruction(VariableOperation),
    /// Pushes a numerical constant
    Constant(Constant),
    /// An arithmetic operation
    Arithmetic(ArithmeticOperation),
    /// A comparison
    Comparison(ComparisonOperation),
    /// An unconditional trap; it accepts any number of operands.
    Unreachable(Unreachable),
}

/// Access to a variable.
#[derive(Clone, Debug, PartialEq, Eq)]
pub struct VariableOperation {
    /// Whether this is `local.` or `global.`
    pub scope: ScopeKind,
    /// Whether the variable is read, written, or written and read back
    pub instruction: VariableInstruction,
    /// The variable, by position or by identifier
    pub index: Index,
}

/// Pushes a numerical constant, such as `i32.const 5`.
#[derive(Clone, Copy, Debug, PartialEq, Eq, Structural)]
pub struct Constant {
    /// The type of the constant and its value
    pub value: NumericalValue,
}

/// An arithmetic operation on one numerical type.
#[derive(Clone, Copy, Debug, PartialEq, Eq, Structural)]
pub struct ArithmeticOperation {
    pub type_: NumericalType,
    pub instr: ArithmeticInstruction,
}

/// A comparison on one numerical type.
#[derive(Clone, Copy, Debug, PartialEq, Eq, Structural)]
pub struct ComparisonOperation {
    pub type_: NumericalType,
    pub instr: ComparisonInstruction,
}

/// A reference to a definition: by identifier or by position.
#[derive(Clone, Debug, PartialEq, Eq)]
pub enum Index {
    Identifier(String),
    Numerical(i64),
}

/// Whether a variable access is `local.` or `global.`
#[derive(Clone, Copy, Debug, PartialEq, Eq, Structural)]
pub enum ScopeKind {
    Global,
    Local,
}

/// The kind of a variable access.
#[derive(Clone, Copy, Debug, PartialEq, Eq, Structural)]
pub enum VariableInstruction {
    /// Reads the variable
    Get,
    /// Writes the variable (`set`)
    Assign,
    /// Writes the variable and keeps the value; only for locals
    Tee,
}

#[derive(Clone, Copy, Debug, PartialEq, Eq, Structural)]
pub enum ArithmeticInstruction {
    /// add, for every type
    Addition,
    /// sub, for every type
    Subtraction,
    /// mul, for every type
    Multiplication,
    /// div, for floating-point types
    FloatDivision,
    /// div_s, for integer types
    SignedDivision,
    /// div_u, for integer types
    UnsignedDivision,
    /// rem_s, for integer types
    SignedRemainder,
    /// rem_u, for integer types
    UnsignedRemainder,
}

#[derive(Clone, Copy, Debug, PartialEq, Eq, Structural)]
pub enum ComparisonInstruction {
    Equal,
    NotEqual,
    GreaterThan,
    LessThan,
    GreaterOrEqual,
    LessOrEqual,
}

/// The `unreachable` instruction: a point in code that traps when reached.
#[derive(Clone, Copy, Debug, PartialEq, Eq, Structural)]
pub struct Unreachable;

/// Model of an [`Index`].
pub enum IndexModel {
    Identifier(Seq<char>),
    Numerical(i64),
}

/// Model of a [`Parameter`] or a [`Local`].
pub struct DeclModel {
    pub identifier: Option<Seq<char>>,
    pub type_: Type,
}

/// Model of a [`Function`].
pub struct FunctionModel {
    pub identifier: Option<Seq<char>>,
    pub exports: Seq<Seq<char>>,
    pub parameters: Seq<DeclModel>,
    pub local_variables: Seq<DeclModel>,
}

/// Model of an [`ImportFunction`].
pub struct ImportModel {
    pub namespace: Seq<char>,
    pub fn_name: Seq<char>,
    pub signature: FunctionModel,
}

/// Model of an [`Opcode`].
pub enum OpcodeModel {
    Call(IndexModel),
    Variable(ScopeKind, VariableInstruction, IndexModel),
    Constant(NumericalValue),
    Arithmetic(ArithmeticOperation),
    Comparison(ComparisonOperation),
    Unreachable,
}

/// Model of an [`Instruction`].
pub struct InstructionModel {
    pub opcode: OpcodeModel,
    pub arguments: Seq<InstructionModel>,
}

/// The text of an optional identifier.
pub open spec fn text_of(o: Option<String>) -> Option<Seq<char>> {
    match o {
        Some(s) => Some(s@),
        None => None,
    }
}

impl View for Index {
    type V = IndexModel;

    open spec fn view(&self) -> IndexModel {
        match self {
            Index::Identifier(s) => IndexModel::Identifier(s@),
            Index::Numerical(n) => IndexModel::Numerical(*n),
        }
    }
}

impl View for Parameter {
    type V = DeclModel;

    open spec fn view(&self) -> DeclModel {
        DeclModel { identifier: text_of(self.identifier), type_: self.type_ }
    }
}

impl View for Local {
    type V = DeclModel;

    open spec fn view(&self) -> DeclModel {
        DeclModel { identifier: text_of(self.identifier), type_: self.type_ }
    }
}

impl View for Function {
    type V = FunctionModel;

    open spec fn view(&self) -> FunctionModel {
        FunctionModel {
            identifier: text_of(self.identifier),
            exports: self.exports@.map_values(|s: String| s@),
            parameters: self.parameters@.map_values(|p: Parameter| p@),
            local_variables: self.local_variables@.map_values(|l: Local| l@),
        }
    }
}

impl View for ImportFunction {
    type V = ImportModel;

    open spec fn view(&self) -> ImportModel {
        ImportModel {
            namespace: self.namespace@,
            fn_name: self.fn_name@,
            signature: self.signature@,
        }
    }
}

impl ImportFunction {
    /// An import describes a signature only: no exports and no locals.
    pub open spec fn wf(&self) -> bool {
        self.signature.exports@.len() == 0 && self.signature.local_variables@.len() == 0
    }

    /// The import of `fn_name` from `namespace`, bound to `signature`.
    pub fn new(namespace: String, fn_name: String, signature: Function) -> (r: Self)
        requires
            signature.exports@.len() == 0,
            signature.local_variables@.len() == 0,
        ensures
            r.wf(),
            r.namespace == namespace,
            r.fn_name == fn_name,
            r.signature == signature,
    {
        ImportFunction { namespace, fn_name, signature }
    }
}

impl View for Opcode {
    type V = OpcodeModel;

    open spec fn view(&self) -> OpcodeModel {
        match self {
            Opcode::Call(i) => OpcodeModel::Call(i@),
            Opcode::VariableInstruction(v) => OpcodeModel::Variable(v.scope, v.instruction, v.index@),
            Opcode::Constant(c) => OpcodeModel::Constant(c.value),
            Opcode::Arithmetic(a) => OpcodeModel::Arithmetic(*a),
            Opcode::Comparison(c) => OpcodeModel::Comparison(*c),
            Opcode::Unreachable(_) => OpcodeModel::Unreachable,
        }
    }
}

/// The model of an instruction and, recursively, of its operands.
pub open spec fn instruction_model(i: Instruction) -> InstructionModel
    decreases i,
{
    InstructionModel {
        opcode: i.opcode@,
        arguments: Seq::new(
            i.arguments@.len(),
            |k: int|
                if 0 <= k < i.arguments@.len() {
                    instruction_model(i.arguments@[k])
                } else {
                    InstructionModel { opcode: OpcodeModel::Unreachable, arguments: seq![] }
                },
        ),
    }
}

impl View for Instruction {
    type V = InstructionModel;

    open spec fn view(&self) -> InstructionModel {
        instruction_model(*self)
    }
}

} // verus!
