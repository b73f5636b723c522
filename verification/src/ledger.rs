use vstd::prelude::*;

use crate::accounting::UserOp;
use crate::accounting::user_step;
use crate::errors::ErrorCode;
use crate::farm::AccountId;
use crate::farm::BinAllocation;
use crate::farm::BinType;
use crate::farm::Vault;
use crate::farm::YieldFarm;
use crate::farm::allocation_percentages_total;
use crate::farm::default_bin_allocations;
use crate::farm::lemma_default_allocations_complete;

verus! {

/// One user's ledger record with the farm: who owns it, how much of
/// the pooled token is recorded for them, and when it last changed.
/// The record is created at the user's first deposit and never
/// deleted.
#[derive(Clone, Copy, Debug, PartialEq, Eq, Structural)]
pub struct UserDeposit {
    pub user: AccountId,
    pub amount: u64,
    pub last_update_time: i64,
}

/// The record a sequence of user records holds for an owner: the first
/// record with that owner, or an empty record for an owner that has
/// none yet.
pub open spec fn record_of(s: Seq<UserDeposit>, owner: AccountId) -> UserDeposit
    decreases s.len(),
{
    if s.len() == 0 {
        UserDeposit { user: owner, amount: 0, last_update_time: 0 }
    } else if s[0].user == owner {
        s[0]
    } else {
        record_of(s.drop_first(), owner)
    }
}

/// The balance a sequence of user records holds for an owner; zero for
/// an owner with no record.
pub open spec fn balance_of(s: Seq<UserDeposit>, owner: AccountId) -> u64 {
    record_of(s, owner).amount
}

/// The sum of every recorded balance.
pub open spec fn sum_balances(s: Seq<UserDeposit>) -> int
    decreases s.len(),
{
    if s.len() == 0 {
        0
    } else {
        s[0].amount + sum_balances(s.drop_first())
    }
}

/// Whether some record belongs to the owner.
pub open spec fn has_user(s: Seq<UserDeposit>, owner: AccountId) -> bool {
    exists|i: int| 0 <= i < s.len() && s[i].user == owner
}

/// No two records share an owner.
pub open spec fn unique_owners(s: Seq<UserDeposit>) -> bool {
    forall|i: int, j: int| 0 <= i < j < s.len() ==> s[i].user != s[j].user
}

pub proof fn lemma_sum_nonneg(s: Seq<UserDeposit>)
    ensures
        sum_balances(s) >= 0,
    decreases s.len(),
{
    if s.len() > 0 {
        lemma_sum_nonneg(s.drop_first());
    }
}

/// Every single balance is covered by the sum of all of them.
pub proof fn lemma_elem_le_sum(s: Seq<UserDeposit>, i: int)
    requires
        0 <= i < s.len(),
    ensures
        s[i].amount <= sum_balances(s),
    decreases i,
{
    if i == 0 {
        lemma_sum_nonneg(s.drop_first());
    } else {
        lemma_elem_le_sum(s.drop_first(), i - 1);
        assert(s.drop_first()[i - 1] == s[i]);
    }
}

pub proof fn lemma_sum_update(s: Seq<UserDeposit>, i: int, r: UserDeposit)
    requires
        0 <= i < s.len(),
    ensures
        sum_balances(s.update(i, r)) == sum_balances(s) - s[i].amount + r.amount,
    decreases i,
{
    let t = s.update(i, r);
    if i == 0 {
        assert(t.drop_first() =~= s.drop_first());
    } else {
        assert(t.drop_first() =~= s.drop_first().update(i - 1, r));
        lemma_sum_update(s.drop_first(), i - 1, r);
    }
}

pub proof fn lemma_sum_push(s: Seq<UserDeposit>, r: UserDeposit)
    ensures
        sum_balances(s.push(r)) == sum_balances(s) + r.amount,
    decreases s.len(),
{
    let t = s.push(r);
    if s.len() == 0 {
        assert(t[0] == r);
        assert(t.drop_first() =~= Seq::<UserDeposit>::empty());
        assert(sum_balances(Seq::<UserDeposit>::empty()) == 0);
        assert(sum_balances(t) == r.amount + sum_balances(t.drop_first()));
    } else {
        assert(t[0] == s[0]);
        assert(t.drop_first() =~= s.drop_first().push(r));
        lemma_sum_push(s.drop_first(), r);
    }
}

pub proof fn lemma_unique_drop_first(s: Seq<UserDeposit>)
    requires
        unique_owners(s),
        s.len() > 0,
    ensures
        unique_owners(s.drop_first()),
{
    assert forall|a: int, b: int|
        0 <= a < b < s.drop_first().len() implies s.drop_first()[a].user
        != s.drop_first()[b].user by {
        assert(s.drop_first()[a] == s[a + 1]);
        assert(s.drop_first()[b] == s[b + 1]);
    }
}

/// With owners unique, the record found at an index is the record the
/// whole sequence holds for that index's owner.
pub proof fn lemma_record_at_index(s: Seq<UserDeposit>, i: int)
    requires
        unique_owners(s),
        0 <= i < s.len(),
    ensures
        record_of(s, s[i].user) == s[i],
    decreases i,
{
    if i > 0 {
        assert(s[0].user != s[i].user);
        lemma_unique_drop_first(s);
        lemma_record_at_index(s.drop_first(), i - 1);
        assert(s.drop_first()[i - 1] == s[i]);
    }
}

/// Replacing one owner's record changes that owner's record to the new
/// one and no one else's, and keeps owners unique.
pub proof fn lemma_record_update(s: Seq<UserDeposit>, i: int, r: UserDeposit)
    requires
        unique_owners(s),
        0 <= i < s.len(),
        r.user == s[i].user,
    ensures
        record_of(s.update(i, r), r.user) == r,
        forall|o: AccountId| o != r.user ==> record_of(s.update(i, r), o) == record_of(s, o),
        unique_owners(s.update(i, r)),
    decreases i,
{
    let t = s.update(i, r);
    assert forall|a: int, b: int| 0 <= a < b < t.len() implies t[a].user != t[b].user by {
        assert(t[a].user == s[a].user);
        assert(t[b].user == s[b].user);
    }
    if i == 0 {
        assert(t.drop_first() =~= s.drop_first());
        assert forall|o: AccountId| o != r.user implies record_of(t, o) == record_of(s, o) by {
            assert(record_of(t, o) == record_of(t.drop_first(), o));
            assert(record_of(s, o) == record_of(s.drop_first(), o));
        }
    } else {
        assert(s[0].user != s[i].user);
        lemma_unique_drop_first(s);
        assert(t.drop_first() =~= s.drop_first().update(i - 1, r));
        assert(s.drop_first()[i - 1] == s[i]);
        lemma_record_update(s.drop_first(), i - 1, r);
        assert forall|o: AccountId| o != r.user implies record_of(t, o) == record_of(s, o) by {
            if s[0].user != o {
                assert(record_of(t, o) == record_of(t.drop_first(), o));
                assert(record_of(s, o) == record_of(s.drop_first(), o));
            }
        }
    }
}

/// Appending a record for a new owner gives that owner the new record
/// and changes no one else's, and keeps owners unique.
pub proof fn lemma_record_push(s: Seq<UserDeposit>, r: UserDeposit)
    requires
        unique_owners(s),
        forall|j: int| 0 <= j < s.len() ==> s[j].user != r.user,
    ensures
        record_of(s.push(r), r.user) == r,
        forall|o: AccountId| o != r.user ==> record_of(s.push(r), o) == record_of(s, o),
        unique_owners(s.push(r)),
    decreases s.len(),
{
    let t = s.push(r);
    assert forall|a: int, b: int| 0 <= a < b < t.len() implies t[a].user != t[b].user by {
        assert(t[a] == s[a]);
        if b == s.len() {
            assert(t[b] == r);
        } else {
            assert(t[b] == s[b]);
        }
    }
    if s.len() == 0 {
        assert(t[0] == r);
        assert(t.drop_first() =~= Seq::<UserDeposit>::empty());
        assert forall|o: AccountId| o != r.user implies record_of(t, o) == record_of(s, o) by {
            assert(record_of(t, o) == record_of(t.drop_first(), o));
        }
    } else {
        assert(t[0] == s[0]);
        assert(s[0].user != r.user);
        lemma_unique_drop_first(s);
        assert(t.drop_first() =~= s.drop_first().push(r));
        assert forall|j: int|
            0 <= j < s.drop_first().len() implies s.drop_first()[j].user != r.user by {
            assert(s.drop_first()[j] == s[j + 1]);
        }
        lemma_record_push(s.drop_first(), r);
        assert forall|o: AccountId| o != r.user implies record_of(t, o) == record_of(s, o) by {
            if s[0].user != o {
                assert(record_of(t, o) == record_of(t.drop_first(), o));
                assert(record_of(s, o) == record_of(s.drop_first(), o));
            }
        }
    }
}

/// An owner with no record is held at the empty record.
pub proof fn lemma_record_absent(s: Seq<UserDeposit>, owner: AccountId)
    requires
        forall|j: int| 0 <= j < s.len() ==> s[j].user != owner,
    ensures
        record_of(s, owner) == (UserDeposit { user: owner, amount: 0, last_update_time: 0 }),
    decreases s.len(),
{
    if s.len() > 0 {
        assert(s[0].user != owner);
        assert forall|j: int|
            0 <= j < s.drop_first().len() implies s.drop_first()[j].user != owner by {
            assert(s.drop_first()[j] == s[j + 1]);
        }
        lemma_record_absent(s.drop_first(), owner);
    }
}

/// A farm together with every user record that references it: the
/// whole bookkeeping state one farm is responsible for.
#[derive(Debug, PartialEq)]
pub struct FarmLedger {
    pub farm: YieldFarm,
    pub users: Vec<UserDeposit>,
}

/// Finds the record an owner holds, if any.
fn find_user(users: &Vec<UserDeposit>, owner: AccountId) -> (r: Option<usize>)
    ensures
        match r {
            Some(i) => i < users@.len() && users@[i as int].user == owner,
            None => forall|j: int| 0 <= j < users@.len() ==> users@[j].user != owner,
        },
{
    let mut i: usize = 0;
    while i < users.len()
        invariant
            i <= users@.len(),
            forall|j: int| 0 <= j < i ==> users@[j].user != owner,
        decreases users@.len() - i,
    {
        if users[i].user == owner {
            return Some(i);
        }
        i = i + 1;
    }
    None
}

impl FarmLedger {
    /// Each owner has at most one record, and the farm's running total
    /// is exactly the sum of the recorded balances. Every operation
    /// keeps this.
    pub open spec fn wf(self) -> bool {
        &&& unique_owners(self.users@)
        &&& self.farm.total_deposits == sum_balances(self.users@)
    }

    /// The balance recorded for an owner; zero for an owner that never
    /// deposited.
    pub open spec fn balance(self, owner: AccountId) -> u64 {
        balance_of(self.users@, owner)
    }

    /// Creates the farm record: no deposits yet, no user records, and
    /// the fixed default allocation table, whose target percentages
    /// cover the whole pool.
    pub fn initialize(authority: AccountId, token_mint: AccountId, bins_count: u8, bump: u8) -> (r:
        FarmLedger)
        ensures
            r.wf(),
            r.farm.authority == authority,
            r.farm.token_mint == token_mint,
            r.farm.total_deposits == 0,
            r.farm.bins_count == bins_count,
            r.farm.bump == bump,
            r.farm.bin_allocations@ == default_bin_allocations(),
            allocation_percentages_total(r.farm.bin_allocations@) == 100,
            r.users@.len() == 0,
            forall|o: AccountId| r.balance(o) == 0,
    {
        let mut bin_allocations: Vec<BinAllocation> = Vec::new();
        bin_allocations.push(
            BinAllocation {
                bin_type: BinType::LargeBin,
                allocation_percentage: 80,
                current_allocation: 0,
                step_size: 657,
                bin_count: 20,
            },
        );
        bin_allocations.push(
            BinAllocation {
                bin_type: BinType::MediumBin,
                allocation_percentage: 10,
                current_allocation: 0,
                step_size: 135,
                bin_count: 4,
            },
        );
        bin_allocations.push(
            BinAllocation {
                bin_type: BinType::SmallBin,
                allocation_percentage: 10,
                current_allocation: 0,
                step_size: 34,
                bin_count: 1,
            },
        );
        proof {
            assert(bin_allocations@ =~= default_bin_allocations());
            lemma_default_allocations_complete();
        }
        FarmLedger {
            farm: YieldFarm {
                authority,
                token_mint,
                total_deposits: 0,
                bins_count,
                bin_allocations,
                bump,
            },
            users: Vec::new(),
        }
    }

    /// Creates the custodial vault for the farm's token. The vault
    /// starts empty; the platform's token primitive moves its actual
    /// funds from then on.
    pub fn create_vault(&self) -> (v: Vault)
        ensures
            v.token_mint == self.farm.token_mint,
            v.amount == 0,
    {
        Vault { token_mint: self.farm.token_mint, amount: 0 }
    }

    /// Records a deposit: the owner's balance and the farm total both
    /// grow by the amount, nobody else's balance moves, and the rest of
    /// the farm record stays as it was. The tokens themselves move
    /// outside the ledger; callers record a deposit only once the
    /// transfer into the vault has gone through.
    pub fn deposit(&mut self, owner: AccountId, amount: u64, now: i64)
        requires
            old(self).wf(),
            old(self).farm.total_deposits + amount <= u64::MAX,
        ensures
            final (self).wf(),
            final (self).balance(owner) == old(self).balance(owner) + amount,
            final (self).balance(owner) as nat == user_step(
                old(self).balance(owner) as nat,
                (UserOp::Deposit { amount }),
            ),
            forall|o: AccountId| o != owner ==> final (self).balance(o) == old(self).balance(o),
            final (self).farm.total_deposits == old(self).farm.total_deposits + amount,
            has_user(final (self).users@, owner),
            record_of(final (self).users@, owner).user == owner,
            record_of(final (self).users@, owner).last_update_time == now,
            final (self).farm.authority == old(self).farm.authority,
            final (self).farm.token_mint == old(self).farm.token_mint,
            final (self).farm.bins_count == old(self).farm.bins_count,
            final (self).farm.bump == old(self).farm.bump,
            final (self).farm.bin_allocations == old(self).farm.bin_allocations,
    {
        match find_user(&self.users, owner) {
            Some(i) => {
                proof {
                    lemma_record_at_index(self.users@, i as int);
                    lemma_elem_le_sum(self.users@, i as int);
                }
                let rec = self.users[i];
                let updated = UserDeposit {
                    user: owner,
                    amount: rec.amount + amount,
                    last_update_time: now,
                };
                self.users.set(i, updated);
                self.farm.total_deposits = self.farm.total_deposits + amount;
                proof {
                    lemma_sum_update(old(self).users@, i as int, updated);
                    lemma_record_update(old(self).users@, i as int, updated);
                    assert(self.users@[i as int].user == owner);
                }
            },
            None => {
                let rec = UserDeposit { user: owner, amount, last_update_time: now };
                proof {
                    lemma_record_absent(self.users@, owner);
                }
                self.users.push(rec);
                self.farm.total_deposits = self.farm.total_deposits + amount;
                proof {
                    lemma_sum_push(old(self).users@, rec);
                    lemma_record_push(old(self).users@, rec);
                    assert(self.users@[old(self).users@.len() as int].user == owner);
                }
            },
        }
    }

    /// Records a withdrawal. A request the owner's balance covers is
    /// owed success: the balance and the farm total shrink by the
    /// amount, and the caller may then release the tokens from the
    /// vault. A request beyond the balance is rejected as insufficient
    /// funds with every record untouched.
    pub fn withdraw(&mut self, owner: AccountId, amount: u64, now: i64) -> (r: Result<
        (),
        ErrorCode,
    >)
        requires
            old(self).wf(),
        ensures
            final (self).wf(),
            amount <= old(self).balance(owner) ==> r == Ok::<(), ErrorCode>(()),
            amount > old(self).balance(owner) ==> r == Err::<(), ErrorCode>(
                ErrorCode::InsufficientFunds,
            ),
            r is Err ==> *final (self) == *old(self),
            final (self).balance(owner) as nat == user_step(
                old(self).balance(owner) as nat,
                (UserOp::Withdraw { amount }),
            ),
            r is Ok ==> final (self).balance(owner) == old(self).balance(owner) - amount,
            r is Ok ==> final (self).farm.total_deposits == old(self).farm.total_deposits - amount,
            forall|o: AccountId| o != owner ==> final (self).balance(o) == old(self).balance(o),
            r is Ok && has_user(old(self).users@, owner) ==> record_of(
                final (self).users@,
                owner,
            ).last_update_time == now,
            final (self).farm.authority == old(self).farm.authority,
            final (self).farm.token_mint == old(self).farm.token_mint,
            final (self).farm.bins_count == old(self).farm.bins_count,
            final (self).farm.bump == old(self).farm.bump,
            final (self).farm.bin_allocations == old(self).farm.bin_allocations,
    {
        match find_user(&self.users, owner) {
            Some(i) => {
                proof {
                    lemma_record_at_index(self.users@, i as int);
                    lemma_elem_le_sum(self.users@, i as int);
                }
                let rec = self.users[i];
                if rec.amount < amount {
                    Err(ErrorCode::InsufficientFunds)
                } else {
                    let updated = UserDeposit {
                        user: owner,
                        amount: rec.amount - amount,
                        last_update_time: now,
                    };
                    self.users.set(i, updated);
                    self.farm.total_deposits = self.farm.total_deposits - amount;
                    proof {
                        lemma_sum_update(old(self).users@, i as int, updated);
                        lemma_record_update(old(self).users@, i as int, updated);
                    }
                    Ok(())
                }
            },
            None => {
                proof {
                    lemma_record_absent(self.users@, owner);
                }
                if amount == 0 {
                    Ok(())
                } else {
                    Err(ErrorCode::InsufficientFunds)
                }
            },
        }
    }

    /// The rebalancing entry point: an extension point with no
    /// behaviour yet. The farm's recorded authority may invoke it and
    /// nothing changes; anyone else is rejected as unauthorized, also
    /// with nothing changed.
    pub fn rebalance(&mut self, keeper: AccountId) -> (r: Result<(), ErrorCode>)
        ensures
            *final (self) == *old(self),
            keeper == old(self).farm.authority ==> r == Ok::<(), ErrorCode>(()),
            keeper != old(self).farm.authority ==> r == Err::<(), ErrorCode>(
                ErrorCode::Unauthorized,
            ),
    {
        if self.farm.authority == keeper {
            Ok(())
        } else {
            Err(ErrorCode::Unauthorized)
        }
    }

    /// The reward-compounding entry point: an extension point with no
    /// behaviour yet, gated exactly as rebalancing is.
    pub fn compound_rewards(&mut self, keeper: AccountId) -> (r: Result<(), ErrorCode>)
        ensures
            *final (self) == *old(self),
            keeper == old(self).farm.authority ==> r == Ok::<(), ErrorCode>(()),
            keeper != old(self).farm.authority ==> r == Err::<(), ErrorCode>(
                ErrorCode::Unauthorized,
            ),
    {
        if self.farm.authority == keeper {
            Ok(())
        } else {
            Err(ErrorCode::Unauthorized)
        }
    }

    /// Reads the balance recorded for an owner.
    pub fn balance_of_user(&self, owner: AccountId) -> (b: u64)
        requires
            self.wf(),
        ensures
            b == self.balance(owner),
    {
        match find_user(&self.users, owner) {
            Some(i) => {
                proof {
                    lemma_record_at_index(self.users@, i as int);
                }
                self.users[i].amount
            },
            None => {
                proof {
                    lemma_record_absent(self.users@, owner);
                }
                0
            },
        }
    }
}

} // verus!
