//! The parsed module as this library sees it: its export table, its global
//! table, and everything else.
//!
//! The module itself is `parity_wasm`'s `Module`. Nothing in this file is
//! proved: the functions marked `external_body` state what the calls into
//! `parity_wasm` do, and the three functions without a body name what a module
//! holds.

use vstd::prelude::*;
use wasm_instrument::parity_wasm::elements::{
    GlobalEntry, InitExpr, Instruction, Internal, Module,
};

verus! {

/// `parity_wasm::elements::Module`, a parsed module. Verified code sees
/// nothing inside it: its sections are read and changed through the
/// functions of this file only.
#[verifier::external_type_specification]
#[verifier::external_body]
pub struct ExModule(wasm_instrument::parity_wasm::elements::Module);

/// What an export entry refers to, with the index in the index space of
/// that kind.
#[derive(Clone, Copy, Debug, PartialEq, Eq, Structural)]
pub enum ExportTarget {
    Function(u32),
    Table(u32),
    Memory(u32),
    Global(u32),
}

/// An entry of the export table.
#[derive(Debug, PartialEq, Eq)]
pub struct Export {
    pub name: String,
    pub target: ExportTarget,
}

/// An export entry in specifications: the name as a sequence of characters.
pub struct ExportView {
    pub name: Seq<char>,
    pub target: ExportTarget,
}

impl View for Export {
    type V = ExportView;

    open spec fn view(&self) -> ExportView {
        ExportView { name: self.name@, target: self.target }
    }
}

/// The views of a list of export entries, in order.
pub open spec fn export_views(exports: Seq<Export>) -> Seq<ExportView> {
    exports.map_values(|export: Export| export@)
}

/// The type of the value that a global holds.
#[derive(Clone, Copy, Debug, PartialEq, Eq, Structural)]
pub enum ValueType {
    I32,
    I64,
    F32,
    F64,
}

/// An instruction of a constant expression. Float constants are held by
/// their bits.
#[derive(Clone, Copy, Debug, PartialEq, Eq, Structural)]
pub enum InitOp {
    I32Const(i32),
    I64Const(i64),
    F32Const(u32),
    F64Const(u64),
    GetGlobal(u32),
    End,
}

/// An entry of the global table in specifications: the declared type and
/// mutability, and the initializer expression.
pub struct GlobalView {
    pub content_type: ValueType,
    pub mutable: bool,
    pub init: Seq<InitOp>,
}

/// The entries of the module's export section, in order; empty where the
/// module has no export section. Where a module holds several export
/// sections, this is the first.
pub uninterp spec fn module_exports(module: Module) -> Seq<ExportView>;

/// The entries of the module's global section, in order; empty where the
/// module has no global section. Where a module holds several global
/// sections, this is the first. An initializer is given instruction by
/// instruction; what stands for an instruction that `InitOp` does not have
/// is left open.
pub uninterp spec fn module_globals(module: Module) -> Seq<GlobalView>;

/// The binary encoding of each section of the module but the global section
/// that `module_globals` speaks of, in the module's order.
pub uninterp spec fn module_other_sections(module: Module) -> Seq<Seq<u8>>;

/// Reads the export table with `Module::export_section` and
/// `ExportSection::entries`, and each entry with `ExportEntry::field` and
/// `ExportEntry::internal`. Assumed: the result holds one `Export` per entry
/// of the table, in order, with the entry's name and what it refers to, and
/// is empty where the module has no export section.
#[verifier::external_body]
pub(crate) fn exports_of(module: &Module) -> (exports: Vec<Export>)
    ensures
        export_views(exports@) == module_exports(*module),
{
    let entries = module.export_section().map(|section| section.entries()).unwrap_or(&[]);
    entries.iter().map(|entry| Export {
        name: entry.field().to_string(),
        target: match entry.internal() {
            Internal::Function(index) => ExportTarget::Function(*index),
            Internal::Table(index) => ExportTarget::Table(*index),
            Internal::Memory(index) => ExportTarget::Memory(*index),
            Internal::Global(index) => ExportTarget::Global(*index),
        },
    }).collect()
}

/// Counts the entries of the global table with `Module::global_section`
/// and `GlobalSection::entries`. Assumed: the result is the length of the
/// table, 0 where the module has no global section.
#[verifier::external_body]
pub(crate) fn global_count(module: &Module) -> (count: usize)
    ensures
        count == module_globals(*module).len(),
{
    module.global_section().map_or(0, |section| section.entries().len())
}

/// Replaces the initializer of entry `index` of the global table: the entry
/// is reached with `Module::global_section_mut` and
/// `GlobalSection::entries_mut` and overwritten with what `GlobalEntry::new`
/// makes of the entry's own `GlobalEntry::global_type` and of
/// `InitExpr::new` on the instructions of `init`. Assumed: the new entry has
/// the type and mutability of the old one and `init` as its initializer,
/// and the other entries, the export table and every other section stay as
/// they were. The index must lie within the table, or the call would panic.
#[verifier::external_body]
pub(crate) fn set_global_init(module: &mut Module, index: usize, init: Vec<InitOp>)
    requires
        index < module_globals(*old(module)).len(),
    ensures
        module_globals(*final(module)) == module_globals(*old(module)).update(
            index as int,
            (GlobalView { init: init@, ..module_globals(*old(module))[index as int] }),
        ),
        module_exports(*final(module)) == module_exports(*old(module)),
        module_other_sections(*final(module)) == module_other_sections(*old(module)),
{
    let code = init.into_iter().map(|op| match op {
        InitOp::I32Const(value) => Instruction::I32Const(value),
        InitOp::I64Const(value) => Instruction::I64Const(value),
        InitOp::F32Const(bits) => Instruction::F32Const(bits),
        InitOp::F64Const(bits) => Instruction::F64Const(bits),
        InitOp::GetGlobal(index) => Instruction::GetGlobal(index),
        InitOp::End => Instruction::End,
    }).collect();
    let entry = &mut module.global_section_mut().unwrap().entries_mut()[index];
    *entry = GlobalEntry::new(*entry.global_type(), InitExpr::new(code));
}

} // verus!
