//! The closed set of bytecode operations and their classification into
//! pricing categories.

use vstd::prelude::*;

verus! {

/// A WebAssembly operation, named after its opcode; immediates are left out
/// because no price depends on them.
#[derive(Clone, Copy, Debug, PartialEq, Eq, Structural)]
pub enum Operation {
    // Control flow.
    Unreachable,
    Nop,
    Block,
    Loop,
    If,
    Else,
    End,
    Br,
    BrIf,
    BrTable,
    Return,
    // Calls.
    Call,
    CallIndirect,
    // Parametric operations.
    Drop,
    Select,
    // Local and global variable access.
    GetLocal,
    SetLocal,
    TeeLocal,
    GetGlobal,
    SetGlobal,
    // Memory loads.
    I32Load,
    I64Load,
    F32Load,
    F64Load,
    I32Load8S,
    I32Load8U,
    I32Load16S,
    I32Load16U,
    I64Load8S,
    I64Load8U,
    I64Load16S,
    I64Load16U,
    I64Load32S,
    I64Load32U,
    // Memory stores.
    I32Store,
    I64Store,
    F32Store,
    F64Store,
    I32Store8,
    I32Store16,
    I64Store8,
    I64Store16,
    I64Store32,
    // Memory size and growth.
    CurrentMemory,
    GrowMemory,
    // Constants.
    I32Const,
    I64Const,
    F32Const,
    F64Const,
    // Integer comparisons.
    I32Eqz,
    I32Eq,
    I32Ne,
    I32LtS,
    I32LtU,
    I32GtS,
    I32GtU,
    I32LeS,
    I32LeU,
    I32GeS,
    I32GeU,
    I64Eqz,
    I64Eq,
    I64Ne,
    I64LtS,
    I64LtU,
    I64GtS,
    I64GtU,
    I64LeS,
    I64LeU,
    I64GeS,
    I64GeU,
    // Float comparisons.
    F32Eq,
    F32Ne,
    F32Lt,
    F32Gt,
    F32Le,
    F32Ge,
    F64Eq,
    F64Ne,
    F64Lt,
    F64Gt,
    F64Le,
    F64Ge,
    // 32-bit integer arithmetic.
    I32Clz,
    I32Ctz,
    I32Popcnt,
    I32Add,
    I32Sub,
    I32Mul,
    I32DivS,
    I32DivU,
    I32RemS,
    I32RemU,
    I32And,
    I32Or,
    I32Xor,
    I32Shl,
    I32ShrS,
    I32ShrU,
    I32Rotl,
    I32Rotr,
    // 64-bit integer arithmetic.
    I64Clz,
    I64Ctz,
    I64Popcnt,
    I64Add,
    I64Sub,
    I64Mul,
    I64DivS,
    I64DivU,
    I64RemS,
    I64RemU,
    I64And,
    I64Or,
    I64Xor,
    I64Shl,
    I64ShrS,
    I64ShrU,
    I64Rotl,
    I64Rotr,
    // 32-bit float arithmetic.
    F32Abs,
    F32Neg,
    F32Ceil,
    F32Floor,
    F32Trunc,
    F32Nearest,
    F32Sqrt,
    F32Add,
    F32Sub,
    F32Mul,
    F32Div,
    F32Min,
    F32Max,
    F32Copysign,
    // 64-bit float arithmetic.
    F64Abs,
    F64Neg,
    F64Ceil,
    F64Floor,
    F64Trunc,
    F64Nearest,
    F64Sqrt,
    F64Add,
    F64Sub,
    F64Mul,
    F64Div,
    F64Min,
    F64Max,
    F64Copysign,
    // Conversions and reinterpretations.
    I32WrapI64,
    I32TruncSF32,
    I32TruncUF32,
    I32TruncSF64,
    I32TruncUF64,
    I64ExtendSI32,
    I64ExtendUI32,
    I64TruncSF32,
    I64TruncUF32,
    I64TruncSF64,
    I64TruncUF64,
    F32ConvertSI32,
    F32ConvertUI32,
    F32ConvertSI64,
    F32ConvertUI64,
    F32DemoteF64,
    F64ConvertSI32,
    F64ConvertUI32,
    F64ConvertSI64,
    F64ConvertUI64,
    F64PromoteF32,
    I32ReinterpretF32,
    I64ReinterpretF64,
    F32ReinterpretI32,
    F64ReinterpretI64,
    // Operations of the post-1.0 proposals, one variant per proposal.
    SignExt,
    Atomics,
    Simd,
    Bulk,
}

/// The pricing category of an operation. Every operation has exactly one.
#[derive(Clone, Copy, Debug, PartialEq, Eq, Structural)]
pub enum Category {
    /// Constants, local and global access, `nop`, `drop` and `return`.
    Simple,
    /// Zero tests, bit counts and the one-operand float operations.
    Unary,
    /// Two-operand arithmetic, bitwise operations and comparisons.
    Binary,
    /// Conversions and reinterpretations between the numeric types.
    Conversion,
    /// Loads and stores of every width and signedness.
    MemoryAccess,
    /// `select`, blocks, loops, conditionals and branches.
    ControlFlow,
    /// A direct call.
    Call,
    /// A call through a table.
    CallIndirect,
    /// The query of the current memory size.
    MemorySize,
    /// The request to grow memory.
    MemoryGrow,
    /// Everything that no other category names.
    Unclassified,
}

impl Operation {
    /// The category of `self`. The match names every classified operation;
    /// whatever it does not name is `Unclassified`.
    pub open spec fn category(self) -> Category {
        match self {
            Operation::I32Const | Operation::I64Const | Operation::F32Const
            | Operation::F64Const | Operation::GetLocal | Operation::SetLocal
            | Operation::TeeLocal | Operation::GetGlobal | Operation::SetGlobal | Operation::Nop
            | Operation::Drop | Operation::Return => Category::Simple,
            Operation::I32Eqz | Operation::I64Eqz | Operation::I32Clz | Operation::I32Ctz
            | Operation::I32Popcnt | Operation::I64Clz | Operation::I64Ctz
            | Operation::I64Popcnt | Operation::F32Abs | Operation::F32Neg | Operation::F32Ceil
            | Operation::F32Floor | Operation::F32Trunc | Operation::F32Nearest
            | Operation::F32Sqrt | Operation::F64Abs | Operation::F64Neg | Operation::F64Ceil
            | Operation::F64Floor | Operation::F64Trunc | Operation::F64Nearest
            | Operation::F64Sqrt => Category::Unary,
            Operation::I32Eq | Operation::I32Ne | Operation::I32LtS | Operation::I32LtU
            | Operation::I32GtS | Operation::I32GtU | Operation::I32LeS | Operation::I32LeU
            | Operation::I32GeS | Operation::I32GeU | Operation::I64Eq | Operation::I64Ne
            | Operation::I64LtS | Operation::I64LtU | Operation::I64GtS | Operation::I64GtU
            | Operation::I64LeS | Operation::I64LeU | Operation::I64GeS | Operation::I64GeU
            | Operation::F32Eq | Operation::F32Ne | Operation::F32Lt | Operation::F32Gt
            | Operation::F32Le | Operation::F32Ge | Operation::F64Eq | Operation::F64Ne
            | Operation::F64Lt | Operation::F64Gt | Operation::F64Le | Operation::F64Ge
            | Operation::I32Add | Operation::I32Sub | Operation::I32Mul | Operation::I32DivS
            | Operation::I32DivU | Operation::I32RemS | Operation::I32RemU | Operation::I32And
            | Operation::I32Or | Operation::I32Xor | Operation::I32Shl | Operation::I32ShrS
            | Operation::I32ShrU | Operation::I32Rotl | Operation::I32Rotr | Operation::I64Add
            | Operation::I64Sub | Operation::I64Mul | Operation::I64DivS | Operation::I64DivU
            | Operation::I64RemS | Operation::I64RemU | Operation::I64And | Operation::I64Or
            | Operation::I64Xor | Operation::I64Shl | Operation::I64ShrS | Operation::I64ShrU
            | Operation::I64Rotl | Operation::I64Rotr | Operation::F32Add | Operation::F32Sub
            | Operation::F32Mul | Operation::F32Div | Operation::F32Min | Operation::F32Max
            | Operation::F32Copysign | Operation::F64Add | Operation::F64Sub | Operation::F64Mul
            | Operation::F64Div | Operation::F64Min | Operation::F64Max
            | Operation::F64Copysign => Category::Binary,
            Operation::I32WrapI64 | Operation::I32TruncSF32 | Operation::I32TruncUF32
            | Operation::I32TruncSF64 | Operation::I32TruncUF64 | Operation::I64ExtendSI32
            | Operation::I64ExtendUI32 | Operation::I64TruncSF32 | Operation::I64TruncUF32
            | Operation::I64TruncSF64 | Operation::I64TruncUF64 | Operation::F32ConvertSI32
            | Operation::F32ConvertUI32 | Operation::F32ConvertSI64 | Operation::F32ConvertUI64
            | Operation::F32DemoteF64 | Operation::F64ConvertSI32 | Operation::F64ConvertUI32
            | Operation::F64ConvertSI64 | Operation::F64ConvertUI64 | Operation::F64PromoteF32
            | Operation::I32ReinterpretF32 | Operation::I64ReinterpretF64
            | Operation::F32ReinterpretI32 | Operation::F64ReinterpretI64 => Category::Conversion,
            Operation::I32Load | Operation::I64Load | Operation::F32Load | Operation::F64Load
            | Operation::I32Load8S | Operation::I32Load8U | Operation::I32Load16S
            | Operation::I32Load16U | Operation::I64Load8S | Operation::I64Load8U
            | Operation::I64Load16S | Operation::I64Load16U | Operation::I64Load32S
            | Operation::I64Load32U | Operation::I32Store | Operation::I64Store
            | Operation::F32Store | Operation::F64Store | Operation::I32Store8
            | Operation::I32Store16 | Operation::I64Store8 | Operation::I64Store16
            | Operation::I64Store32 => Category::MemoryAccess,
            Operation::Select | Operation::If | Operation::Else | Operation::End
            | Operation::Block | Operation::Loop | Operation::Br | Operation::BrIf
            | Operation::BrTable => Category::ControlFlow,
            Operation::Call => Category::Call,
            Operation::CallIndirect => Category::CallIndirect,
            Operation::CurrentMemory => Category::MemorySize,
            Operation::GrowMemory => Category::MemoryGrow,
            _ => Category::Unclassified,
        }
    }

    /// Computes the category of `self`.
    pub fn classify(self) -> (category: Category)
        ensures
            category == self.category(),
    {
        match self {
            Operation::I32Const | Operation::I64Const | Operation::F32Const
            | Operation::F64Const | Operation::GetLocal | Operation::SetLocal
            | Operation::TeeLocal | Operation::GetGlobal | Operation::SetGlobal | Operation::Nop
            | Operation::Drop | Operation::Return => Category::Simple,
            Operation::I32Eqz | Operation::I64Eqz | Operation::I32Clz | Operation::I32Ctz
            | Operation::I32Popcnt | Operation::I64Clz | Operation::I64Ctz
            | Operation::I64Popcnt | Operation::F32Abs | Operation::F32Neg | Operation::F32Ceil
            | Operation::F32Floor | Operation::F32Trunc | Operation::F32Nearest
            | Operation::F32Sqrt | Operation::F64Abs | Operation::F64Neg | Operation::F64Ceil
            | Operation::F64Floor | Operation::F64Trunc | Operation::F64Nearest
            | Operation::F64Sqrt => Category::Unary,
            Operation::I32Eq | Operation::I32Ne | Operation::I32LtS | Operation::I32LtU
            | Operation::I32GtS | Operation::I32GtU | Operation::I32LeS | Operation::I32LeU
            | Operation::I32GeS | Operation::I32GeU | Operation::I64Eq | Operation::I64Ne
            | Operation::I64LtS | Operation::I64LtU | Operation::I64GtS | Operation::I64GtU
            | Operation::I64LeS | Operation::I64LeU | Operation::I64GeS | Operation::I64GeU
            | Operation::F32Eq | Operation::F32Ne | Operation::F32Lt | Operation::F32Gt
            | Operation::F32Le | Operation::F32Ge | Operation::F64Eq | Operation::F64Ne
            | Operation::F64Lt | Operation::F64Gt | Operation::F64Le | Operation::F64Ge
            | Operation::I32Add | Operation::I32Sub | Operation::I32Mul | Operation::I32DivS
            | Operation::I32DivU | Operation::I32RemS | Operation::I32RemU | Operation::I32And
            | Operation::I32Or | Operation::I32Xor | Operation::I32Shl | Operation::I32ShrS
            | Operation::I32ShrU | Operation::I32Rotl | Operation::I32Rotr | Operation::I64Add
            | Operation::I64Sub | Operation::I64Mul | Operation::I64DivS | Operation::I64DivU
            | Operation::I64RemS | Operation::I64RemU | Operation::I64And | Operation::I64Or
            | Operation::I64Xor | Operation::I64Shl | Operation::I64ShrS | Operation::I64ShrU
            | Operation::I64Rotl | Operation::I64Rotr | Operation::F32Add | Operation::F32Sub
            | Operation::F32Mul | Operation::F32Div | Operation::F32Min | Operation::F32Max
            | Operation::F32Copysign | Operation::F64Add | Operation::F64Sub | Operation::F64Mul
            | Operation::F64Div | Operation::F64Min | Operation::F64Max
            | Operation::F64Copysign => Category::Binary,
            Operation::I32WrapI64 | Operation::I32TruncSF32 | Operation::I32TruncUF32
            | Operation::I32TruncSF64 | Operation::I32TruncUF64 | Operation::I64ExtendSI32
            | Operation::I64ExtendUI32 | Operation::I64TruncSF32 | Operation::I64TruncUF32
            | Operation::I64TruncSF64 | Operation::I64TruncUF64 | Operation::F32ConvertSI32
            | Operation::F32ConvertUI32 | Operation::F32ConvertSI64 | Operation::F32ConvertUI64
            | Operation::F32DemoteF64 | Operation::F64ConvertSI32 | Operation::F64ConvertUI32
            | Operation::F64ConvertSI64 | Operation::F64ConvertUI64 | Operation::F64PromoteF32
            | Operation::I32ReinterpretF32 | Operation::I64ReinterpretF64
            | Operation::F32ReinterpretI32 | Operation::F64ReinterpretI64 => Category::Conversion,
            Operation::I32Load | Operation::I64Load | Operation::F32Load | Operation::F64Load
            | Operation::I32Load8S | Operation::I32Load8U | Operation::I32Load16S
            | Operation::I32Load16U | Operation::I64Load8S | Operation::I64Load8U
            | Operation::I64Load16S | Operation::I64Load16U | Operation::I64Load32S
            | Operation::I64Load32U | Operation::I32Store | Operation::I64Store
            | Operation::F32Store | Operation::F64Store | Operation::I32Store8
            | Operation::I32Store16 | Operation::I64Store8 | Operation::I64Store16
            | Operation::I64Store32 => Category::MemoryAccess,
            Operation::Select | Operation::If | Operation::Else | Operation::End
            | Operation::Block | Operation::Loop | Operation::Br | Operation::BrIf
            | Operation::BrTable => Category::ControlFlow,
            Operation::Call => Category::Call,
            Operation::CallIndirect => Category::CallIndirect,
            Operation::CurrentMemory => Category::MemorySize,
            Operation::GrowMemory => Category::MemoryGrow,
            _ => Category::Unclassified,
        }
    }
}

} // verus!
