use vstd::prelude::*;

verus! {

/// The identity of an account on the host platform: a user, an
/// authority, a token mint. The platform's keys are opaque to the
/// ledger — it only ever stores and compares them — so it carries them
/// as plain numbers.
#[derive(Clone, Copy, Debug, PartialEq, Eq, Structural)]
pub struct AccountId(pub u64);

/// The kind of liquidity bin an allocation bucket targets, by step
/// size: large, medium or small price steps.
#[derive(Clone, Copy, Debug, PartialEq, Eq, Structural)]
pub enum BinType {
    LargeBin,
    MediumBin,
    SmallBin,
}

/// One allocation bucket of the farm's strategy table: a target share
/// of the pooled deposits for one bin kind. The table is written once
/// at farm creation and nothing recomputes it yet; `current_allocation`
/// stays at its initial zero.
#[derive(Clone, Copy, Debug, PartialEq, Eq, Structural)]
pub struct BinAllocation {
    pub bin_type: BinType,
    /// Target share of total deposits, in whole percent.
    pub allocation_percentage: u8,
    /// Amount currently placed in this bucket; never moved from zero.
    pub current_allocation: u64,
    /// Price step of the targeted bins, in basis points.
    pub step_size: u16,
    /// How many bins the bucket spreads over.
    pub bin_count: u8,
}

/// The farm's aggregate record: who administers it, which token it
/// pools, how much is pooled, and the static allocation table.
#[derive(Debug, PartialEq)]
pub struct YieldFarm {
    pub authority: AccountId,
    pub token_mint: AccountId,
    /// Sum of all recorded user balances.
    pub total_deposits: u64,
    /// A bucket count accepted at creation; stored, never read back.
    pub bins_count: u8,
    pub bin_allocations: Vec<BinAllocation>,
    /// Salt of the farm record's derived address on the platform.
    pub bump: u8,
}

/// The custodial holding account for the farm's token. The token
/// primitive of the platform moves its actual funds; the ledger only
/// records what the vault holds on creation: nothing.
#[derive(Clone, Copy, Debug, PartialEq, Eq, Structural)]
pub struct Vault {
    pub token_mint: AccountId,
    pub amount: u64,
}

/// The fixed strategy table every farm starts with: 80% to twenty
/// large-step bins, 10% to four medium-step bins, 10% to one
/// small-step bin.
pub open spec fn default_bin_allocations() -> Seq<BinAllocation> {
    seq![
        (BinAllocation {
            bin_type: BinType::LargeBin,
            allocation_percentage: 80,
            current_allocation: 0,
            step_size: 657,
            bin_count: 20,
        }),
        (BinAllocation {
            bin_type: BinType::MediumBin,
            allocation_percentage: 10,
            current_allocation: 0,
            step_size: 135,
            bin_count: 4,
        }),
        (BinAllocation {
            bin_type: BinType::SmallBin,
            allocation_percentage: 10,
            current_allocation: 0,
            step_size: 34,
            bin_count: 1,
        }),
    ]
}

/// The combined target share of an allocation table, in percent.
pub open spec fn allocation_percentages_total(s: Seq<BinAllocation>) -> int
    decreases s.len(),
{
    if s.len() == 0 {
        0
    } else {
        s[0].allocation_percentage + allocation_percentages_total(s.drop_first())
    }
}

/// The default table allocates exactly the whole pool: its target
/// percentages sum to one hundred.
pub proof fn lemma_default_allocations_complete()
    ensures
        allocation_percentages_total(default_bin_allocations()) == 100,
{
    reveal_with_fuel(allocation_percentages_total, 5);
    let table = default_bin_allocations();
    assert(table.drop_first().drop_first().drop_first() =~= Seq::<BinAllocation>::empty());
    assert(table.drop_first().drop_first()[0] == table[2]);
    assert(table.drop_first()[0] == table[1]);
}

} // verus!
