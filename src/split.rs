use vstd::prelude::*;

verus! {

/// Where a payout from escrow custody goes.
#[derive(Clone, Copy, Debug, PartialEq, Eq, Structural)]
pub enum Payee {
    Worker,
    Poster,
    Treasury,
    JurorPool,
}

/// One ledger transfer out of escrow custody.
#[derive(Clone, Copy, Debug, PartialEq, Eq, Structural)]
pub struct Transfer {
    pub to: Payee,
    pub amount: u64,
}

/// `floor(amount * pct / 100)`.
pub open spec fn percent_of(amount: u64, pct: int) -> int {
    (amount as int * pct) / 100
}

/// The release split: 95% to the worker, 4% to the platform, and the rest
/// to the juror pool.
pub open spec fn release_transfers(amount: u64) -> Seq<Transfer> {
    let worker = percent_of(amount, 95);
    let platform = percent_of(amount, 4);
    seq![
        Transfer { to: Payee::Worker, amount: worker as u64 },
        Transfer { to: Payee::Treasury, amount: platform as u64 },
        Transfer { to: Payee::JurorPool, amount: (amount - worker - platform) as u64 },
    ]
}

/// The refund split. After a dispute: 90% to the poster, 5% to the juror pool
/// and the rest to the treasury. Without one: everything to the poster.
pub open spec fn refund_transfers(amount: u64, disputed: bool) -> Seq<Transfer> {
    if disputed {
        let poster = percent_of(amount, 90);
        let juror = percent_of(amount, 5);
        seq![
            Transfer { to: Payee::Poster, amount: poster as u64 },
            Transfer { to: Payee::JurorPool, amount: juror as u64 },
            Transfer { to: Payee::Treasury, amount: (amount - poster - juror) as u64 },
        ]
    } else {
        seq![Transfer { to: Payee::Poster, amount: amount }]
    }
}

/// Sum of the amounts of a list of transfers.
pub open spec fn total_of(transfers: Seq<Transfer>) -> int
    decreases transfers.len(),
{
    if transfers.len() == 0 {
        0
    } else {
        total_of(transfers.drop_last()) + transfers.last().amount
    }
}

/// `floor(amount * pct / 100)` for `pct <= 100`, computed without overflow.
pub fn percent(amount: u64, pct: u64) -> (r: u64)
    requires
        pct <= 100,
    ensures
        r == percent_of(amount, pct as int),
        r <= amount,
{
    assert(amount * pct <= u64::MAX * 100) by (nonlinear_arith)
        requires
            pct <= 100,
    ;
    let wide: u128 = (amount as u128) * (pct as u128);
    assert(wide / 100 <= amount) by (nonlinear_arith)
        requires
            wide == amount * pct,
            pct <= 100,
    ;
    (wide / 100) as u64
}

/// Splits `amount` three ways, `first_pct`% and `second_pct`% rounded down
/// and the remainder last, so that nothing is created or lost.
fn three_way(amount: u64, first_pct: u64, second_pct: u64) -> (r: (u64, u64, u64))
    requires
        first_pct + second_pct <= 100,
    ensures
        r.0 == percent_of(amount, first_pct as int),
        r.1 == percent_of(amount, second_pct as int),
        r.2 == amount - r.0 - r.1,
        r.0 + r.1 + r.2 == amount,
{
    let first = percent(amount, first_pct);
    let second = percent(amount, second_pct);
    assert(percent_of(amount, first_pct as int) + percent_of(amount, second_pct as int) <= amount)
        by (nonlinear_arith)
        requires
            first_pct + second_pct <= 100,
            first_pct >= 0,
            second_pct >= 0,
    ;
    (first, second, amount - first - second)
}

/// The transfers of a release of `amount`. They add up to `amount`.
pub fn release_split(amount: u64) -> (r: Vec<Transfer>)
    ensures
        r@ == release_transfers(amount),
        total_of(r@) == amount,
{
    let (worker, platform, juror) = three_way(amount, 95, 4);
    let r = vec![
        Transfer { to: Payee::Worker, amount: worker },
        Transfer { to: Payee::Treasury, amount: platform },
        Transfer { to: Payee::JurorPool, amount: juror },
    ];
    assert(r@ =~= release_transfers(amount));
    reveal_with_fuel(total_of, 4);
    r
}

/// The transfers of a refund of `amount`, after a dispute or not. They add
/// up to `amount`.
pub fn refund_split(amount: u64, disputed: bool) -> (r: Vec<Transfer>)
    ensures
        r@ == refund_transfers(amount, disputed),
        total_of(r@) == amount,
{
    let r = if disputed {
        let (poster, juror, treasury) = three_way(amount, 90, 5);
        vec![
            Transfer { to: Payee::Poster, amount: poster },
            Transfer { to: Payee::JurorPool, amount: juror },
            Transfer { to: Payee::Treasury, amount: treasury },
        ]
    } else {
        vec![Transfer { to: Payee::Poster, amount }]
    };
    assert(r@ =~= refund_transfers(amount, disputed));
    reveal_with_fuel(total_of, 4);
    r
}

} // verus!
