use quickjs_gas_instrument::operation::{Category, Operation};
use quickjs_gas_instrument::rules::{
    EthLike, EvmLikeRules, MemoryGrowCost, SelectedRules, UniformRules,
};

/// Constants, local and global access, `nop`, `drop`, `return`.
fn simple_operations() -> Vec<Operation> {
    vec![
        Operation::I32Const, Operation::I64Const, Operation::F32Const, Operation::F64Const,
        Operation::GetLocal, Operation::SetLocal, Operation::TeeLocal, Operation::GetGlobal,
        Operation::SetGlobal, Operation::Nop, Operation::Drop, Operation::Return,
    ]
}
/// Zero tests, bit counts and one-operand float operations.
fn unary_operations() -> Vec<Operation> {
    vec![
        Operation::I32Eqz, Operation::I64Eqz, Operation::I32Clz, Operation::I32Ctz,
        Operation::I32Popcnt, Operation::I64Clz, Operation::I64Ctz, Operation::I64Popcnt,
        Operation::F32Abs, Operation::F32Neg, Operation::F32Ceil, Operation::F32Floor,
        Operation::F32Trunc, Operation::F32Nearest, Operation::F32Sqrt, Operation::F64Abs,
        Operation::F64Neg, Operation::F64Ceil, Operation::F64Floor, Operation::F64Trunc,
        Operation::F64Nearest, Operation::F64Sqrt,
    ]
}
/// Two-operand arithmetic, bitwise operations and comparisons.
fn binary_operations() -> Vec<Operation> {
    vec![
        Operation::I32Eq, Operation::I32Ne, Operation::I32LtS, Operation::I32LtU,
        Operation::I32GtS, Operation::I32GtU, Operation::I32LeS, Operation::I32LeU,
        Operation::I32GeS, Operation::I32GeU, Operation::I64Eq, Operation::I64Ne,
        Operation::I64LtS, Operation::I64LtU, Operation::I64GtS, Operation::I64GtU,
        Operation::I64LeS, Operation::I64LeU, Operation::I64GeS, Operation::I64GeU,
        Operation::F32Eq, Operation::F32Ne, Operation::F32Lt, Operation::F32Gt,
        Operation::F32Le, Operation::F32Ge, Operation::F64Eq, Operation::F64Ne,
        Operation::F64Lt, Operation::F64Gt, Operation::F64Le, Operation::F64Ge,
        Operation::I32Add, Operation::I32Sub, Operation::I32Mul, Operation::I32DivS,
        Operation::I32DivU, Operation::I32RemS, Operation::I32RemU, Operation::I32And,
        Operation::I32Or, Operation::I32Xor, Operation::I32Shl, Operation::I32ShrS,
        Operation::I32ShrU, Operation::I32Rotl, Operation::I32Rotr, Operation::I64Add,
        Operation::I64Sub, Operation::I64Mul, Operation::I64DivS, Operation::I64DivU,
        Operation::I64RemS, Operation::I64RemU, Operation::I64And, Operation::I64Or,
        Operation::I64Xor, Operation::I64Shl, Operation::I64ShrS, Operation::I64ShrU,
        Operation::I64Rotl, Operation::I64Rotr, Operation::F32Add, Operation::F32Sub,
        Operation::F32Mul, Operation::F32Div, Operation::F32Min, Operation::F32Max,
        Operation::F32Copysign, Operation::F64Add, Operation::F64Sub, Operation::F64Mul,
        Operation::F64Div, Operation::F64Min, Operation::F64Max, Operation::F64Copysign,
    ]
}
/// Conversions and reinterpretations.
fn conversion_operations() -> Vec<Operation> {
    vec![
        Operation::I32WrapI64, Operation::I32TruncSF32, Operation::I32TruncUF32, Operation::I32TruncSF64,
        Operation::I32TruncUF64, Operation::I64ExtendSI32, Operation::I64ExtendUI32, Operation::I64TruncSF32,
        Operation::I64TruncUF32, Operation::I64TruncSF64, Operation::I64TruncUF64, Operation::F32ConvertSI32,
        Operation::F32ConvertUI32, Operation::F32ConvertSI64, Operation::F32ConvertUI64, Operation::F32DemoteF64,
        Operation::F64ConvertSI32, Operation::F64ConvertUI32, Operation::F64ConvertSI64, Operation::F64ConvertUI64,
        Operation::F64PromoteF32, Operation::I32ReinterpretF32, Operation::I64ReinterpretF64, Operation::F32ReinterpretI32,
        Operation::F64ReinterpretI64,
    ]
}
/// Loads and stores.
fn memory_access_operations() -> Vec<Operation> {
    vec![
        Operation::I32Load, Operation::I64Load, Operation::F32Load, Operation::F64Load,
        Operation::I32Load8S, Operation::I32Load8U, Operation::I32Load16S, Operation::I32Load16U,
        Operation::I64Load8S, Operation::I64Load8U, Operation::I64Load16S, Operation::I64Load16U,
        Operation::I64Load32S, Operation::I64Load32U, Operation::I32Store, Operation::I64Store,
        Operation::F32Store, Operation::F64Store, Operation::I32Store8, Operation::I32Store16,
        Operation::I64Store8, Operation::I64Store16, Operation::I64Store32,
    ]
}
/// `select`, blocks, loops, conditionals and branches.
fn control_flow_operations() -> Vec<Operation> {
    vec![
        Operation::Select, Operation::If, Operation::Else, Operation::End,
        Operation::Block, Operation::Loop, Operation::Br, Operation::BrIf,
        Operation::BrTable,
    ]
}
/// What no category names.
fn unclassified_operations() -> Vec<Operation> {
    vec![
        Operation::Unreachable, Operation::SignExt, Operation::Atomics, Operation::Simd,
        Operation::Bulk,
    ]
}
/// Every operation once.
fn all_operations() -> Vec<Operation> {
    let mut all = Vec::new();
    all.extend(simple_operations());
    all.extend(unary_operations());
    all.extend(binary_operations());
    all.extend(conversion_operations());
    all.extend(memory_access_operations());
    all.extend(control_flow_operations());
    all.extend(unclassified_operations());
    all.push(Operation::Call);
    all.push(Operation::CallIndirect);
    all.push(Operation::CurrentMemory);
    all.push(Operation::GrowMemory);
    all
}

fn assert_all_cost(rules: &EvmLikeRules, operations: Vec<Operation>, expected: u32) {
    for operation in operations {
        assert_eq!(
            rules.instruction_cost(&operation),
            Some(expected),
            "price of {:?}",
            operation
        );
    }
}

fn assert_all_classified(operations: Vec<Operation>, expected: Category) {
    for operation in operations {
        assert_eq!(operation.classify(), expected, "category of {:?}", operation);
    }
}

#[test]
fn the_operation_set_has_176_members() {
    let all = all_operations();
    assert_eq!(all.len(), 176);
    for (i, first) in all.iter().enumerate() {
        for second in &all[i + 1..] {
            assert_ne!(first, second);
        }
    }
}

#[test]
fn every_operation_falls_in_its_category() {
    assert_all_classified(simple_operations(), Category::Simple);
    assert_all_classified(unary_operations(), Category::Unary);
    assert_all_classified(binary_operations(), Category::Binary);
    assert_all_classified(conversion_operations(), Category::Conversion);
    assert_all_classified(memory_access_operations(), Category::MemoryAccess);
    assert_all_classified(control_flow_operations(), Category::ControlFlow);
    assert_all_classified(unclassified_operations(), Category::Unclassified);
    assert_eq!(Operation::Call.classify(), Category::Call);
    assert_eq!(Operation::CallIndirect.classify(), Category::CallIndirect);
    assert_eq!(Operation::CurrentMemory.classify(), Category::MemorySize);
    assert_eq!(Operation::GrowMemory.classify(), Category::MemoryGrow);
}

#[test]
fn category_sizes_add_up() {
    assert_eq!(simple_operations().len(), 12);
    assert_eq!(unary_operations().len(), 22);
    assert_eq!(binary_operations().len(), 76);
    assert_eq!(conversion_operations().len(), 25);
    assert_eq!(memory_access_operations().len(), 23);
    assert_eq!(control_flow_operations().len(), 9);
    assert_eq!(unclassified_operations().len(), 5);
}

#[test]
fn default_schedule_has_the_documented_tiers() {
    let rules = EvmLikeRules::default();
    assert_eq!(
        rules,
        EvmLikeRules {
            verylow: 3,
            low: 5,
            mid: 8,
            high: 10,
            call_base: 700,
            call_per_local: 16,
            mem_grow_per_page: 3,
        }
    );
    assert_eq!(EvmLikeRules::with_mem_grow_per_page(3), rules);
}

#[test]
fn graduated_schedule_follows_the_tier_table() {
    let rules = EvmLikeRules::default();
    assert_all_cost(&rules, simple_operations(), 3);
    assert_all_cost(&rules, unary_operations(), 3);
    assert_all_cost(&rules, binary_operations(), 3);
    assert_all_cost(&rules, conversion_operations(), 5);
    assert_all_cost(&rules, memory_access_operations(), 5);
    assert_all_cost(&rules, control_flow_operations(), 8);
    assert_eq!(rules.instruction_cost(&Operation::Call), Some(700));
    assert_eq!(rules.instruction_cost(&Operation::CallIndirect), Some(710));
    assert_eq!(rules.instruction_cost(&Operation::CurrentMemory), Some(3));
    assert_eq!(rules.instruction_cost(&Operation::GrowMemory), Some(3));
}

#[test]
fn unclassified_operations_cost_the_mid_tier() {
    let rules = EvmLikeRules::default();
    assert_all_cost(&rules, unclassified_operations(), 8);
    let custom = EvmLikeRules { mid: 21, ..EvmLikeRules::default() };
    assert_all_cost(&custom, unclassified_operations(), 21);
}

#[test]
fn comparisons_of_both_float_widths_cost_verylow() {
    let rules = EvmLikeRules::default();
    let comparisons = vec![
        Operation::F32Eq, Operation::F32Ne, Operation::F32Lt,
        Operation::F32Gt, Operation::F32Le, Operation::F32Ge,
        Operation::F64Eq, Operation::F64Ne, Operation::F64Lt,
        Operation::F64Gt, Operation::F64Le, Operation::F64Ge,
    ];
    assert_all_classified(comparisons.clone(), Category::Binary);
    assert_all_cost(&rules, comparisons, 3);
}

#[test]
fn every_price_is_the_price_of_the_category() {
    let rules = EvmLikeRules { mem_grow_per_page: 41, ..EvmLikeRules::default() };
    for operation in all_operations() {
        let expected = match operation.classify() {
            Category::Simple | Category::Unary | Category::Binary | Category::MemorySize => 3,
            Category::Conversion | Category::MemoryAccess => 5,
            Category::ControlFlow | Category::Unclassified => 8,
            Category::Call => 700,
            Category::CallIndirect => 710,
            Category::MemoryGrow => 41,
        };
        assert_eq!(rules.instruction_cost(&operation), Some(expected), "{:?}", operation);
    }
}

#[test]
fn custom_tiers_price_their_categories() {
    let rules = EvmLikeRules {
        verylow: 1,
        low: 2,
        mid: 4,
        high: 7,
        call_base: 11,
        call_per_local: 13,
        mem_grow_per_page: 17,
    };
    assert_eq!(rules.instruction_cost(&Operation::I64Const), Some(1));
    assert_eq!(rules.instruction_cost(&Operation::F64Sqrt), Some(1));
    assert_eq!(rules.instruction_cost(&Operation::I32Xor), Some(1));
    assert_eq!(rules.instruction_cost(&Operation::CurrentMemory), Some(1));
    assert_eq!(rules.instruction_cost(&Operation::F32DemoteF64), Some(2));
    assert_eq!(rules.instruction_cost(&Operation::I64Store32), Some(2));
    assert_eq!(rules.instruction_cost(&Operation::BrTable), Some(4));
    assert_eq!(rules.instruction_cost(&Operation::Unreachable), Some(4));
    assert_eq!(rules.instruction_cost(&Operation::Call), Some(11));
    assert_eq!(rules.instruction_cost(&Operation::CallIndirect), Some(18));
    assert_eq!(rules.instruction_cost(&Operation::GrowMemory), Some(17));
    assert_eq!(rules.call_per_local_cost(), 13);
}

#[test]
fn indirect_call_beyond_32_bits_has_no_price() {
    let rules = EvmLikeRules { high: u32::MAX, call_base: 1, ..EvmLikeRules::default() };
    assert_eq!(rules.instruction_cost(&Operation::CallIndirect), None);
    assert_eq!(rules.instruction_cost(&Operation::Call), Some(1));
    let edge = EvmLikeRules { high: u32::MAX - 1, call_base: 1, ..EvmLikeRules::default() };
    assert_eq!(edge.instruction_cost(&Operation::CallIndirect), Some(u32::MAX));
}

#[test]
fn grow_operation_costs_the_configured_page_price() {
    assert_eq!(
        EvmLikeRules::with_mem_grow_per_page(11).instruction_cost(&Operation::GrowMemory),
        Some(11)
    );
    assert_eq!(
        EvmLikeRules::with_mem_grow_per_page(0).instruction_cost(&Operation::GrowMemory),
        Some(0)
    );
}

#[test]
fn growth_charge_corrects_a_price_of_zero() {
    assert_eq!(MemoryGrowCost::linear(0), MemoryGrowCost { per_page: 1 });
    assert_eq!(MemoryGrowCost::linear(1), MemoryGrowCost { per_page: 1 });
    assert_eq!(MemoryGrowCost::linear(2), MemoryGrowCost { per_page: 2 });
    assert_eq!(MemoryGrowCost::linear(u32::MAX), MemoryGrowCost { per_page: u32::MAX });
}

#[test]
fn graduated_growth_charge_is_at_least_one() {
    assert_eq!(EvmLikeRules::default().memory_grow_cost(), MemoryGrowCost { per_page: 3 });
    assert_eq!(
        EvmLikeRules::with_mem_grow_per_page(0).memory_grow_cost(),
        MemoryGrowCost { per_page: 1 }
    );
    assert_eq!(
        EvmLikeRules::with_mem_grow_per_page(1).memory_grow_cost(),
        MemoryGrowCost { per_page: 1 }
    );
    assert_eq!(
        EvmLikeRules::with_mem_grow_per_page(u32::MAX).memory_grow_cost(),
        MemoryGrowCost { per_page: u32::MAX }
    );
}

#[test]
fn graduated_surcharge_per_local_is_16() {
    assert_eq!(EvmLikeRules::default().call_per_local_cost(), 16);
}

#[test]
fn uniform_schedule_prices_every_operation_alike() {
    let rules = UniformRules::new(7);
    for operation in all_operations() {
        assert_eq!(rules.instruction_cost(&operation), Some(7), "{:?}", operation);
    }
    let selected = SelectedRules::Const(rules);
    for operation in all_operations() {
        assert_eq!(selected.instruction_cost(&operation), Some(7), "{:?}", operation);
    }
}

#[test]
fn uniform_schedule_defaults_its_surcharges_to_zero() {
    assert_eq!(UniformRules::new(7), UniformRules { price: 7, grow_per_page: 0, per_local: 0 });
    assert_eq!(UniformRules::new(7).call_per_local_cost(), 0);
}

#[test]
fn uniform_growth_charge_is_at_least_one() {
    assert_eq!(UniformRules::new(7).memory_grow_cost(), MemoryGrowCost { per_page: 1 });
    let configured = UniformRules { price: 7, grow_per_page: 10_000, per_local: 0 };
    assert_eq!(configured.memory_grow_cost(), MemoryGrowCost { per_page: 10_000 });
}

#[test]
fn uniform_surcharge_per_local_is_the_configured_one() {
    let configured = UniformRules { price: 7, grow_per_page: 0, per_local: 5 };
    assert_eq!(configured.call_per_local_cost(), 5);
}

#[test]
fn no_growth_charge_is_below_one() {
    let schedules = vec![
        SelectedRules::select(None, None),
        SelectedRules::select(None, Some(0)),
        SelectedRules::select(None, Some(9)),
        SelectedRules::select(Some(0), None),
        SelectedRules::select(Some(4), Some(0)),
        SelectedRules::Const(UniformRules { price: 1, grow_per_page: 0, per_local: 1 }),
        SelectedRules::Const(UniformRules { price: 1, grow_per_page: 2, per_local: 1 }),
        SelectedRules::Evm(EvmLikeRules { mem_grow_per_page: 0, ..EvmLikeRules::default() }),
    ];
    for rules in schedules {
        assert!(rules.memory_grow_cost().per_page >= 1, "{:?}", rules);
    }
}

#[test]
fn selection_defaults_to_the_graduated_schedule() {
    assert_eq!(SelectedRules::select(None, None), SelectedRules::Evm(EvmLikeRules::default()));
}

#[test]
fn selection_overrides_only_the_page_price() {
    let expected = EvmLikeRules { mem_grow_per_page: 250, ..EvmLikeRules::default() };
    assert_eq!(SelectedRules::select(None, Some(250)), SelectedRules::Evm(expected));
    assert_eq!(
        SelectedRules::select(None, Some(0)).memory_grow_cost(),
        MemoryGrowCost { per_page: 1 }
    );
}

#[test]
fn selection_of_a_uniform_price_wins() {
    let expected =
        SelectedRules::Const(UniformRules { price: 5, grow_per_page: 0, per_local: 0 });
    assert_eq!(SelectedRules::select(Some(5), None), expected);
    assert_eq!(SelectedRules::select(Some(5), Some(250)), expected);
    assert_eq!(expected.memory_grow_cost(), MemoryGrowCost { per_page: 1 });
    assert_eq!(expected.call_per_local_cost(), 0);
}

#[test]
fn selected_schedule_answers_as_the_schedule_it_holds() {
    let graduated = SelectedRules::select(None, Some(6));
    assert_eq!(graduated.instruction_cost(&Operation::I32Load8U), Some(5));
    assert_eq!(graduated.instruction_cost(&Operation::CallIndirect), Some(710));
    assert_eq!(graduated.instruction_cost(&Operation::GrowMemory), Some(6));
    assert_eq!(graduated.memory_grow_cost(), MemoryGrowCost { per_page: 6 });
    assert_eq!(graduated.call_per_local_cost(), 16);
    let uniform = SelectedRules::select(Some(2), None);
    assert_eq!(uniform.instruction_cost(&Operation::I32Load8U), Some(2));
    assert_eq!(uniform.instruction_cost(&Operation::CallIndirect), Some(2));
}

#[test]
fn flat_schedule_prices_its_four_groups() {
    let rules = EthLike;
    let arithmetic = vec![
        Operation::I32Add, Operation::I32Sub, Operation::I32Mul,
        Operation::I64Add, Operation::I64Sub, Operation::I64Mul,
    ];
    let branches = vec![
        Operation::If, Operation::Br, Operation::BrIf,
        Operation::BrTable, Operation::Loop, Operation::Return,
    ];
    let accesses = vec![
        Operation::I32Load, Operation::I32Store, Operation::I64Load, Operation::I64Store,
    ];
    let calls = vec![Operation::Call, Operation::CallIndirect];
    for operation in all_operations() {
        let expected = if arithmetic.contains(&operation) {
            1
        } else if branches.contains(&operation) {
            2
        } else if accesses.contains(&operation) {
            3
        } else if calls.contains(&operation) {
            10
        } else {
            1
        };
        assert_eq!(rules.instruction_cost(&operation), Some(expected), "{:?}", operation);
    }
    assert_eq!(rules.instruction_cost(&Operation::Block), Some(1));
    assert_eq!(rules.instruction_cost(&Operation::F64Load), Some(1));
}

#[test]
fn flat_schedule_charges_300_per_page_and_nothing_per_local() {
    assert_eq!(EthLike.memory_grow_cost(), MemoryGrowCost { per_page: 300 });
    assert_eq!(EthLike.call_per_local_cost(), 0);
}
