//! Cost schedules: what each operation, each page of memory growth and each
//! local of a called function is charged.

use crate::operation::{Category, Operation};
use vstd::prelude::*;

verus! {

/// The charge for growing memory, on top of the price of the `memory.grow`
/// operation itself: linear in the pages grown.
#[derive(Clone, Copy, Debug, PartialEq, Eq, Structural)]
pub struct MemoryGrowCost {
    /// The charge for each page that memory grows by.
    pub per_page: u32,
}

impl MemoryGrowCost {
    /// The charge per page is at least 1.
    pub open spec fn wf(self) -> bool {
        self.per_page >= 1
    }

    /// The charge for a configured price per page. A price of 0 has no
    /// place in a linear charge and counts as 1.
    pub open spec fn of_price(price: u32) -> MemoryGrowCost {
        MemoryGrowCost { per_page: if price == 0 { 1 } else { price } }
    }

    /// Builds the charge for a configured price per page, correcting a
    /// price of 0 to 1.
    pub fn linear(price: u32) -> (cost: Self)
        ensures
            cost == Self::of_price(price),
            cost.wf(),
    {
        if price == 0 {
            MemoryGrowCost { per_page: 1 }
        } else {
            MemoryGrowCost { per_page: price }
        }
    }
}

/// The graduated schedule: one price per tier, a base price for calls, a
/// surcharge per local of the callee and a price per page of memory growth.
#[derive(Clone, Copy, Debug, PartialEq, Eq, Structural)]
pub struct EvmLikeRules {
    pub verylow: u32,
    pub low: u32,
    pub mid: u32,
    pub high: u32,
    pub call_base: u32,
    pub call_per_local: u32,
    pub mem_grow_per_page: u32,
}

impl EvmLikeRules {
    /// The schedule with the default tiers and the given price per page of
    /// memory growth.
    pub open spec fn standard(mem_grow_per_page: u32) -> EvmLikeRules {
        EvmLikeRules {
            verylow: 3,
            low: 5,
            mid: 8,
            high: 10,
            call_base: 700,
            call_per_local: 16,
            mem_grow_per_page,
        }
    }

    /// The price of a category, as a mathematical integer.
    pub open spec fn tier_price(self, category: Category) -> int {
        match category {
            Category::Simple | Category::Unary | Category::Binary | Category::MemorySize => {
                self.verylow as int
            },
            Category::Conversion | Category::MemoryAccess => self.low as int,
            Category::ControlFlow | Category::Unclassified => self.mid as int,
            Category::Call => self.call_base as int,
            Category::CallIndirect => self.high + self.call_base,
            Category::MemoryGrow => self.mem_grow_per_page as int,
        }
    }

    /// The price of an operation: that of its category, or `None` where the
    /// price does not fit the 32 bits of a charge.
    pub open spec fn price_of(self, operation: Operation) -> Option<u32> {
        let price = self.tier_price(operation.category());
        if price <= u32::MAX {
            Some(price as u32)
        } else {
            None
        }
    }

    /// The schedule with the default tiers and the given price per page of
    /// memory growth.
    pub fn with_mem_grow_per_page(mem_grow_per_page: u32) -> (rules: Self)
        ensures
            rules == Self::standard(mem_grow_per_page),
    {
        EvmLikeRules {
            verylow: 3,
            low: 5,
            mid: 8,
            high: 10,
            call_base: 700,
            call_per_local: 16,
            mem_grow_per_page,
        }
    }

    /// The price of `operation`. `None` says that the schedule cannot
    /// express the price; with the default tiers that never happens.
    pub fn instruction_cost(&self, operation: &Operation) -> (cost: Option<u32>)
        ensures
            cost == self.price_of(*operation),
    {
        match operation.classify() {
            Category::Simple | Category::Unary | Category::Binary | Category::MemorySize => {
                Some(self.verylow)
            },
            Category::Conversion | Category::MemoryAccess => Some(self.low),
            Category::ControlFlow | Category::Unclassified => Some(self.mid),
            Category::Call => Some(self.call_base),
            Category::CallIndirect => self.high.checked_add(self.call_base),
            Category::MemoryGrow => Some(self.mem_grow_per_page),
        }
    }

    /// The charge for growing memory: the configured price per page, or 1
    /// where that price is 0.
    pub fn memory_grow_cost(&self) -> (cost: MemoryGrowCost)
        ensures
            cost == MemoryGrowCost::of_price(self.mem_grow_per_page),
            cost.wf(),
    {
        MemoryGrowCost::linear(self.mem_grow_per_page)
    }

    /// The surcharge on a call for each local that the callee declares.
    pub fn call_per_local_cost(&self) -> (cost: u32)
        ensures
            cost == self.call_per_local,
    {
        self.call_per_local
    }
}

impl Default for EvmLikeRules {
    /// The default tiers, with a price of 3 per page of memory growth.
    fn default() -> (rules: Self)
        ensures
            rules == EvmLikeRules::standard(3),
    {
        EvmLikeRules::with_mem_grow_per_page(3)
    }
}

/// The uniform schedule: one price for every operation.
#[derive(Clone, Copy, Debug, PartialEq, Eq, Structural)]
pub struct UniformRules {
    /// The price of every operation.
    pub price: u32,
    /// The configured price per page of memory growth.
    pub grow_per_page: u32,
    /// The surcharge per local of a called function.
    pub per_local: u32,
}

impl UniformRules {
    /// The schedule that charges `price` for every operation, with the
    /// prices for memory growth and for locals at their default of 0.
    pub fn new(price: u32) -> (rules: Self)
        ensures
            rules == (UniformRules { price, grow_per_page: 0, per_local: 0 }),
    {
        UniformRules { price, grow_per_page: 0, per_local: 0 }
    }

    /// The price of `operation`: the one price of the schedule.
    pub fn instruction_cost(&self, operation: &Operation) -> (cost: Option<u32>)
        ensures
            cost == Some(self.price),
    {
        Some(self.price)
    }

    /// The charge for growing memory: the configured price per page, or 1
    /// where that price is 0.
    pub fn memory_grow_cost(&self) -> (cost: MemoryGrowCost)
        ensures
            cost == MemoryGrowCost::of_price(self.grow_per_page),
            cost.wf(),
    {
        MemoryGrowCost::linear(self.grow_per_page)
    }

    /// The surcharge on a call for each local that the callee declares.
    pub fn call_per_local_cost(&self) -> (cost: u32)
        ensures
            cost == self.per_local,
    {
        self.per_local
    }
}

/// The schedule that a run uses: graduated or uniform.
#[derive(Clone, Copy, Debug, PartialEq, Eq, Structural)]
pub enum SelectedRules {
    Evm(EvmLikeRules),
    Const(UniformRules),
}

impl SelectedRules {
    /// The schedule that the configuration asks for: uniform with the given
    /// price where one is given, else graduated with the default tiers and,
    /// where given, the overriding price per page of memory growth.
    pub open spec fn configured(constant_cost: Option<u32>, grow_per_page: Option<u32>)
        -> SelectedRules {
        match constant_cost {
            Some(price) => SelectedRules::Const(
                UniformRules { price, grow_per_page: 0, per_local: 0 },
            ),
            None => SelectedRules::Evm(
                EvmLikeRules::standard(
                    match grow_per_page {
                        Some(per_page) => per_page,
                        None => 3,
                    },
                ),
            ),
        }
    }

    /// The price of an operation under the selected schedule.
    pub open spec fn price_of(self, operation: Operation) -> Option<u32> {
        match self {
            SelectedRules::Evm(rules) => rules.price_of(operation),
            SelectedRules::Const(rules) => Some(rules.price),
        }
    }

    /// The charge for memory growth under the selected schedule.
    pub open spec fn grow_cost(self) -> MemoryGrowCost {
        match self {
            SelectedRules::Evm(rules) => MemoryGrowCost::of_price(rules.mem_grow_per_page),
            SelectedRules::Const(rules) => MemoryGrowCost::of_price(rules.grow_per_page),
        }
    }

    /// The surcharge per local of a callee under the selected schedule.
    pub open spec fn per_local(self) -> u32 {
        match self {
            SelectedRules::Evm(rules) => rules.call_per_local,
            SelectedRules::Const(rules) => rules.per_local,
        }
    }

    /// Builds the schedule that the configuration asks for. An explicit
    /// uniform price wins over the graduated schedule and its override.
    pub fn select(constant_cost: Option<u32>, grow_per_page: Option<u32>) -> (rules: Self)
        ensures
            rules == Self::configured(constant_cost, grow_per_page),
    {
        match constant_cost {
            Some(price) => SelectedRules::Const(UniformRules::new(price)),
            None => {
                let mut rules = EvmLikeRules::default();
                if let Some(per_page) = grow_per_page {
                    rules.mem_grow_per_page = per_page;
                }
                SelectedRules::Evm(rules)
            },
        }
    }

    /// The price of `operation` under the selected schedule.
    pub fn instruction_cost(&self, operation: &Operation) -> (cost: Option<u32>)
        ensures
            cost == self.price_of(*operation),
    {
        match self {
            SelectedRules::Evm(rules) => rules.instruction_cost(operation),
            SelectedRules::Const(rules) => rules.instruction_cost(operation),
        }
    }

    /// The charge for growing memory under the selected schedule.
    pub fn memory_grow_cost(&self) -> (cost: MemoryGrowCost)
        ensures
            cost == self.grow_cost(),
            cost.wf(),
    {
        match self {
            SelectedRules::Evm(rules) => rules.memory_grow_cost(),
            SelectedRules::Const(rules) => rules.memory_grow_cost(),
        }
    }

    /// The surcharge per local of a callee under the selected schedule.
    pub fn call_per_local_cost(&self) -> (cost: u32)
        ensures
            cost == self.per_local(),
    {
        match self {
            SelectedRules::Evm(rules) => rules.call_per_local_cost(),
            SelectedRules::Const(rules) => rules.call_per_local_cost(),
        }
    }
}

/// The flat schedule used with host-side metering: a handful of operations
/// are priced apart, every other one costs 1.
#[derive(Clone, Copy, Debug, PartialEq, Eq, Structural)]
pub struct EthLike;

impl EthLike {
    /// The price of an operation under this schedule.
    pub open spec fn price_of(operation: Operation) -> u32 {
        match operation {
            Operation::I32Add | Operation::I32Sub | Operation::I32Mul | Operation::I64Add
            | Operation::I64Sub | Operation::I64Mul => 1,
            Operation::If | Operation::Br | Operation::BrIf | Operation::BrTable
            | Operation::Loop | Operation::Return => 2,
            Operation::I32Load | Operation::I32Store | Operation::I64Load
            | Operation::I64Store => 3,
            Operation::Call | Operation::CallIndirect => 10,
            _ => 1,
        }
    }

    /// The price of `operation`; every operation has one.
    pub fn instruction_cost(&self, operation: &Operation) -> (cost: Option<u32>)
        ensures
            cost == Some(Self::price_of(*operation)),
    {
        Some(
            match operation {
                Operation::I32Add | Operation::I32Sub | Operation::I32Mul | Operation::I64Add
                | Operation::I64Sub | Operation::I64Mul => 1,
                Operation::If | Operation::Br | Operation::BrIf | Operation::BrTable
                | Operation::Loop | Operation::Return => 2,
                Operation::I32Load | Operation::I32Store | Operation::I64Load
                | Operation::I64Store => 3,
                Operation::Call | Operation::CallIndirect => 10,
                _ => 1,
            },
        )
    }

    /// The charge for growing memory: 300 per page.
    pub fn memory_grow_cost(&self) -> (cost: MemoryGrowCost)
        ensures
            cost == (MemoryGrowCost { per_page: 300 }),
            cost.wf(),
    {
        MemoryGrowCost::linear(300)
    }

    /// The surcharge per local of a callee: none.
    pub fn call_per_local_cost(&self) -> (cost: u32)
        ensures
            cost == 0,
    {
        0
    }
}

/// With the default tiers every operation has a price, and it is the one
/// that the tier table gives for the operation's category: 3 for simple,
/// unary and binary operations and the memory-size query, 5 for conversions
/// and memory accesses, 8 for control flow and for everything unclassified,
/// 700 for a direct call, 710 for an indirect one, and the configured price
/// per page for `memory.grow`.
pub proof fn graduated_prices_follow_tier_table(mem_grow_per_page: u32, operation: Operation)
    ensures
        EvmLikeRules::standard(mem_grow_per_page).price_of(operation) == Some(
            match operation.category() {
                Category::Simple | Category::Unary | Category::Binary | Category::MemorySize => 3u32,
                Category::Conversion | Category::MemoryAccess => 5u32,
                Category::ControlFlow | Category::Unclassified => 8u32,
                Category::Call => 700u32,
                Category::CallIndirect => 710u32,
                Category::MemoryGrow => mem_grow_per_page,
            },
        ),
{
}

/// The uniform schedule gives any two operations the same price, whatever
/// their categories.
pub proof fn uniform_price_ignores_category(
    rules: UniformRules,
    first: Operation,
    second: Operation,
)
    ensures
        SelectedRules::Const(rules).price_of(first) == SelectedRules::Const(rules).price_of(second),
        SelectedRules::Const(rules).price_of(first) == Some(rules.price),
{
}

/// Whatever the schedule and whatever price per page it is configured with,
/// 0 included, growing memory is charged at least 1 per page.
pub proof fn grow_price_is_positive(rules: SelectedRules)
    ensures
        rules.grow_cost().per_page >= 1,
{
}

} // verus!
