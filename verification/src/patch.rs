//! The initializer patch: arming the exported gas counter with a large
//! initial value, so that a module's own start-up code cannot run out of gas
//! before the host has set the real budget.

use crate::backend::{Backend, BackendView};
use crate::module::{
    export_views, exports_of, global_count, module_exports, module_globals,
    module_other_sections, set_global_init, Export, ExportTarget, ExportView, GlobalView, InitOp,
};
use vstd::prelude::*;
use wasm_instrument::parity_wasm::elements::Module;

verus! {

/// The initial value that the counter gets where the caller has no other:
/// large enough for any start-up code, and overwritten by the host before it
/// runs anything else.
pub const DEFAULT_INITIAL_GAS: i64 = 9_000_000_000_000;

/// Whether `export` exports a global under `name`.
pub open spec fn names_global(export: ExportView, name: Seq<char>) -> bool {
    export.target is Global && export.name == name
}

/// The global index of the first entry of `exports` that exports a global
/// under `name`, if there is one.
pub open spec fn exported_global(exports: Seq<ExportView>, name: Seq<char>) -> Option<u32>
    decreases exports.len(),
{
    if exports.len() == 0 {
        None
    } else if names_global(exports[0], name) {
        Some(exports[0].target->Global_0)
    } else {
        exported_global(exports.drop_first(), name)
    }
}

/// The entry of the global table that the patch rewrites: the one that the
/// export under `name` resolves to, if there is such an export and its index
/// lies within a table of `global_count` entries.
pub open spec fn patch_target(exports: Seq<ExportView>, global_count: nat, name: Seq<char>)
    -> Option<int> {
    match exported_global(exports, name) {
        Some(index) if index < global_count => Some(index as int),
        _ => None,
    }
}

/// The initializer that the patch writes: a single load of the 64-bit
/// constant `initial`, then the end marker.
pub open spec fn constant_initializer(initial: i64) -> Seq<InitOp> {
    seq![InitOp::I64Const(initial), InitOp::End]
}

/// The global table after the patch: the target entry keeps its type and
/// mutability and gets the constant initializer; without a target the table
/// is as it was.
pub open spec fn patched_globals(
    exports: Seq<ExportView>,
    globals: Seq<GlobalView>,
    name: Seq<char>,
    initial: i64,
) -> Seq<GlobalView> {
    match patch_target(exports, globals.len(), name) {
        Some(index) => globals.update(
            index,
            GlobalView { init: constant_initializer(initial), ..globals[index] },
        ),
        None => globals,
    }
}

/// Whether entry `position` of `exports` exports a global under `name` and
/// no entry before it does.
pub open spec fn is_first_match(exports: Seq<ExportView>, name: Seq<char>, position: int) -> bool {
    &&& 0 <= position < exports.len()
    &&& names_global(exports[position], name)
    &&& forall|earlier: int|
        0 <= earlier < position ==> !names_global(#[trigger] exports[earlier], name)
}

/// What `exported_global` finds is the global that the first matching entry
/// refers to, and it finds nothing only where no entry matches.
pub proof fn exported_global_is_first_match(exports: Seq<ExportView>, name: Seq<char>)
    ensures
        match exported_global(exports, name) {
            Some(index) => exists|position: int|
                is_first_match(exports, name, position) && exports[position].target
                    == ExportTarget::Global(index),
            None => forall|i: int|
                0 <= i < exports.len() ==> !names_global(#[trigger] exports[i], name),
        },
    decreases exports.len(),
{
    if exports.len() == 0 {
    } else if names_global(exports[0], name) {
        assert(is_first_match(exports, name, 0));
    } else {
        let rest = exports.drop_first();
        exported_global_is_first_match(rest, name);
        match exported_global(rest, name) {
            Some(index) => {
                let position = choose|position: int|
                    is_first_match(rest, name, position) && rest[position].target
                        == ExportTarget::Global(index);
                assert forall|earlier: int| 0 <= earlier < position + 1 implies !names_global(
                    #[trigger] exports[earlier],
                    name,
                ) by {
                    if earlier > 0 {
                        assert(exports[earlier] == rest[earlier - 1]);
                    }
                }
                assert(is_first_match(exports, name, position + 1));
            },
            None => {
                assert forall|i: int| 0 <= i < exports.len() implies !names_global(
                    #[trigger] exports[i],
                    name,
                ) by {
                    if i > 0 {
                        assert(exports[i] == rest[i - 1]);
                    }
                }
            },
        }
    }
}

/// Looks for the first entry of `exports` that exports a global under
/// `name`, and returns the index of that global.
pub fn find_exported_global(exports: &Vec<Export>, name: &str) -> (found: Option<u32>)
    ensures
        found == exported_global(export_views(exports@), name@),
{
    let wanted = name.to_owned();
    let ghost views = export_views(exports@);
    let mut position: usize = 0;
    while position < exports.len()
        invariant
            position <= exports.len(),
            views == export_views(exports@),
            wanted@ == name@,
            forall|i: int| 0 <= i < position ==> !names_global(#[trigger] views[i], name@),
        decreases exports.len() - position,
    {
        let export = &exports[position];
        assert(views[position as int] == export@);
        if let ExportTarget::Global(index) = export.target {
            if export.name == wanted {
                proof {
                    exported_global_is_first_match(views, name@);
                }
                return Some(index);
            }
        }
        position += 1;
    }
    proof {
        exported_global_is_first_match(views, name@);
    }
    None
}

/// Resolves the export under `name` to the entry of a global table of
/// `global_count` entries that the patch rewrites. There is none where no
/// global is exported under `name`, or where the first such export's index
/// lies beyond the table.
pub fn find_patch_target(
    exports: &Vec<Export>,
    global_count: usize,
    name: &str,
) -> (target: Option<usize>)
    ensures
        match target {
            Some(index) => patch_target(export_views(exports@), global_count as nat, name@)
                == Some(index as int),
            None => patch_target(export_views(exports@), global_count as nat, name@) is None,
        },
{
    match find_exported_global(exports, name) {
        Some(index) => {
            let index = index as usize;
            if index < global_count {
                Some(index)
            } else {
                None
            }
        },
        None => None,
    }
}

/// Builds the initializer that the patch writes: the load of the 64-bit
/// constant `initial`, then the end marker.
pub fn constant_init_expr(initial: i64) -> (init: Vec<InitOp>)
    ensures
        init@ == constant_initializer(initial),
{
    let mut init: Vec<InitOp> = Vec::new();
    init.push(InitOp::I64Const(initial));
    init.push(InitOp::End);
    assert(init@ =~= constant_initializer(initial));
    init
}

/// Whether `after` is what the patch for `name` and `initial` makes of
/// `before`: the global table is patched, the export table and every other
/// section are as before, and without a target the module is untouched.
pub open spec fn is_patched(before: Module, after: Module, name: Seq<char>, initial: i64) -> bool {
    &&& module_globals(after) == patched_globals(
        module_exports(before),
        module_globals(before),
        name,
        initial,
    )
    &&& module_exports(after) == module_exports(before)
    &&& module_other_sections(after) == module_other_sections(before)
    &&& patch_target(module_exports(before), module_globals(before).len(), name) is None
        ==> after == before
}

/// Arms the counter: where the module exports a global under `export_name`
/// and that export's index lies within the global table, the initializer of
/// that entry becomes a load of the constant `initial`. Nothing else in the
/// module changes, and a module without such an export, or with an index
/// out of range, is left as it is.
pub fn bump_gas_global_init(module: &mut Module, export_name: &str, initial: i64)
    ensures
        is_patched(*old(module), *final(module), export_name@, initial),
{
    let exports = exports_of(module);
    let count = global_count(module);
    if let Some(index) = find_patch_target(&exports, count, export_name) {
        set_global_init(module, index, constant_init_expr(initial));
    }
}

/// The step after injection: with the counter-global backend the counter
/// that the backend names is armed with `initial`; with the host-callout
/// backend the module has no counter and stays as it is.
pub fn apply_initializer_patch(module: &mut Module, backend: &Backend, initial: i64)
    ensures
        match backend@ {
            BackendView::CounterGlobal { global_name } => is_patched(
                *old(module),
                *final(module),
                global_name,
                initial,
            ),
            BackendView::HostCallout { .. } => *final(module) == *old(module),
        },
{
    match backend {
        Backend::CounterGlobal { global_name } => {
            bump_gas_global_init(module, global_name.as_str(), initial);
        },
        Backend::HostCallout { .. } => {},
    }
}

/// No entry of `exports` bears the name `name`.
pub open spec fn no_export_named(exports: Seq<ExportView>, name: Seq<char>) -> bool {
    forall|i: int| 0 <= i < exports.len() ==> (#[trigger] exports[i]).name != name
}

/// Where the module exports a global under `name` whose index lies within
/// the global table, the patch changes the initializer of that one entry
/// and nothing else: the initializer is the load of the constant, the
/// entry's type and mutability are kept, and every other global, the export
/// table and all other sections are as before.
pub proof fn patch_rewrites_one_initializer(
    before: Module,
    after: Module,
    name: Seq<char>,
    initial: i64,
)
    requires
        is_patched(before, after, name, initial),
        patch_target(module_exports(before), module_globals(before).len(), name) is Some,
    ensures
        ({
            let target = patch_target(
                module_exports(before),
                module_globals(before).len(),
                name,
            )->Some_0;
            let old_globals = module_globals(before);
            let new_globals = module_globals(after);
            &&& 0 <= target < old_globals.len()
            &&& exported_global(module_exports(before), name) == Some(target as u32)
            &&& new_globals.len() == old_globals.len()
            &&& new_globals[target].init == seq![InitOp::I64Const(initial), InitOp::End]
            &&& new_globals[target].content_type == old_globals[target].content_type
            &&& new_globals[target].mutable == old_globals[target].mutable
            &&& forall|i: int|
                0 <= i < old_globals.len() && i != target ==> new_globals[i] == old_globals[i]
            &&& module_exports(after) == module_exports(before)
            &&& module_other_sections(after) == module_other_sections(before)
        }),
{
}

/// A module that has no export under `name` comes out of the patch as it
/// went in.
pub proof fn patch_without_export_is_identity(
    before: Module,
    after: Module,
    name: Seq<char>,
    initial: i64,
)
    requires
        is_patched(before, after, name, initial),
        no_export_named(module_exports(before), name),
    ensures
        after == before,
{
    exported_global_is_first_match(module_exports(before), name);
}

/// Patching twice with the same name and value gives what patching once
/// gives: the second patch changes neither the global table nor the export
/// table nor any other section, so its result is a patch of the first
/// module as well.
pub proof fn patch_is_idempotent(
    before: Module,
    once: Module,
    twice: Module,
    name: Seq<char>,
    initial: i64,
)
    requires
        is_patched(before, once, name, initial),
        is_patched(once, twice, name, initial),
    ensures
        module_globals(twice) == module_globals(once),
        module_exports(twice) == module_exports(once),
        module_other_sections(twice) == module_other_sections(once),
        is_patched(before, twice, name, initial),
{
    let exports = module_exports(before);
    let globals = module_globals(before);
    match patch_target(exports, globals.len(), name) {
        Some(target) => {
            assert(module_globals(twice) =~= module_globals(once));
        },
        None => {},
    }
}

} // verus!
