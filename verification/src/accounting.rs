use vstd::prelude::*;

verus! {

/// One bookkeeping event in a user's history with the farm.
#[derive(Clone, Copy, Debug, PartialEq, Eq, Structural)]
pub enum UserOp {
    Deposit { amount: u64 },
    Withdraw { amount: u64 },
}

/// The recorded balance after one event: a deposit adds its amount; a
/// withdrawal subtracts its amount when the balance covers it and is
/// rejected — leaving the balance alone — when it does not.
pub open spec fn user_step(balance: nat, op: UserOp) -> nat {
    match op {
        UserOp::Deposit { amount } => (balance + amount) as nat,
        UserOp::Withdraw { amount } => if amount <= balance {
            (balance - amount) as nat
        } else {
            balance
        },
    }
}

/// The recorded balance after a whole history of events.
pub open spec fn run_user_ops(balance: nat, ops: Seq<UserOp>) -> nat
    decreases ops.len(),
{
    if ops.len() == 0 {
        balance
    } else {
        run_user_ops(user_step(balance, ops[0]), ops.drop_first())
    }
}

/// Everything the history deposited.
pub open spec fn total_deposited(ops: Seq<UserOp>) -> nat
    decreases ops.len(),
{
    if ops.len() == 0 {
        0
    } else {
        (match ops[0] {
            UserOp::Deposit { amount } => amount as nat,
            UserOp::Withdraw { .. } => 0,
        }) + total_deposited(ops.drop_first())
    }
}

/// Everything the history withdrew successfully: a withdrawal counts
/// only where the balance at its turn covered it.
pub open spec fn total_withdrawn(balance: nat, ops: Seq<UserOp>) -> nat
    decreases ops.len(),
{
    if ops.len() == 0 {
        0
    } else {
        (match ops[0] {
            UserOp::Deposit { .. } => 0,
            UserOp::Withdraw { amount } => if amount <= balance {
                amount as nat
            } else {
                0
            },
        }) + total_withdrawn(user_step(balance, ops[0]), ops.drop_first())
    }
}

/// Whatever events run against a balance, the balance afterwards is the
/// starting balance plus everything deposited minus everything
/// successfully withdrawn — and the successful withdrawals never exceed
/// what was available, so the balance never goes below zero.
pub proof fn lemma_user_balance_accounting(balance: nat, ops: Seq<UserOp>)
    ensures
        run_user_ops(balance, ops) == balance + total_deposited(ops) - total_withdrawn(balance, ops),
        total_withdrawn(balance, ops) <= balance + total_deposited(ops),
    decreases ops.len(),
{
    if ops.len() > 0 {
        lemma_user_balance_accounting(user_step(balance, ops[0]), ops.drop_first());
    }
}

/// A user's record is created at their first deposit with nothing in
/// it, so their balance is exactly deposits minus successful
/// withdrawals.
pub proof fn lemma_fresh_user_accounting(ops: Seq<UserOp>)
    ensures
        run_user_ops(0, ops) == total_deposited(ops) - total_withdrawn(0, ops),
        total_withdrawn(0, ops) <= total_deposited(ops),
{
    lemma_user_balance_accounting(0, ops);
}

} // verus!
