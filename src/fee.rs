use vstd::prelude::*;

verus! {

/// How the fee taken on one transfer is divided.
#[derive(Clone, Copy, Debug, PartialEq, Eq, Structural)]
pub struct FeeSplit {
    pub fee: u64,
    pub burn_amount: u64,
    pub swap_amount: u64,
    pub deposit_amount: u64,
}

/// One percent of the transferred amount, rounded down.
pub open spec fn fee_of(amount: u64) -> u64 {
    amount / 100
}

/// The split owed on a transfer of `amount`: half the fee is burned, a
/// quarter is swapped, and the rest, rounding dust included, is deposited.
pub open spec fn split_of(amount: u64) -> FeeSplit {
    let fee = fee_of(amount);
    FeeSplit {
        fee,
        burn_amount: fee / 2,
        swap_amount: fee / 4,
        deposit_amount: (fee - fee / 2 - fee / 4) as u64,
    }
}

/// Splits the fee on a transfer of `amount`; total over all of `u64`.
pub fn split(amount: u64) -> (r: FeeSplit)
    ensures
        r == split_of(amount),
        r.fee == amount / 100,
        r.burn_amount == r.fee / 2,
        r.swap_amount == r.fee / 4,
        r.burn_amount + r.swap_amount + r.deposit_amount == r.fee,
        r.fee <= amount,
{
    let fee = amount / 100;
    let burn_amount = fee / 2;
    let swap_amount = fee / 4;
    let deposit_amount = fee - burn_amount - swap_amount;
    FeeSplit { fee, burn_amount, swap_amount, deposit_amount }
}

/// For every amount the three parts add up to the fee, and the fee never
/// exceeds the amount transferred.
pub proof fn lemma_split_conserves(amount: u64)
    ensures
        split_of(amount).fee == amount / 100,
        split_of(amount).burn_amount == split_of(amount).fee / 2,
        split_of(amount).swap_amount == split_of(amount).fee / 4,
        split_of(amount).deposit_amount == split_of(amount).fee - split_of(amount).burn_amount
            - split_of(amount).swap_amount,
        split_of(amount).burn_amount + split_of(amount).swap_amount
            + split_of(amount).deposit_amount == split_of(amount).fee,
        split_of(amount).fee <= amount,
{
}

} // verus!
