//! Sampled curve of a linearly decaying locked voting balance.

use vstd::prelude::*;

verus! {

/// Distance in seconds between two regular samples of a curve.
pub const SECONDS_IN_A_DAY: u64 = 86_400;

/// Parameters of the linear decay `bias - slope * t` of a locked position,
/// as recorded at `timestamp`.
#[derive(Clone, Copy, Debug)]
pub struct Checkpoint {
    pub bias: u128,
    pub slope: u128,
    pub timestamp: u64,
}

/// A sampled decay curve as two parallel sequences: `ve_balance[k]` is the
/// balance, in base units, at the instant `ts[k]`.
#[derive(Debug)]
pub struct VeBalanceChart {
    /// Timestamps
    pub ts: Vec<u64>,
    /// Ve balances decaying over time
    pub ve_balance: Vec<u128>,
}

/// The balance at instant `t`: `bias - slope * t`, and zero from the instant
/// on at which the line crosses zero.
pub open spec fn balance_at(bias: nat, slope: nat, t: nat) -> nat {
    if slope * t <= bias {
        (bias - slope * t) as nat
    } else {
        0
    }
}

/// Number of regular daily samples: the instants `last_locking_date + k * 86400`
/// that lie strictly before `expiry`.
pub open spec fn regular_samples(last_locking_date: nat, expiry: nat) -> nat {
    if expiry <= last_locking_date {
        0
    } else {
        ((expiry - last_locking_date + 86_399) / 86_400) as nat
    }
}

/// The instant of sample `k`: a point of the daily grid while the grid lies
/// before `expiry`, and `expiry` itself for the closing sample.
pub open spec fn sample_time(last_locking_date: nat, expiry: nat, k: nat) -> nat {
    if k < regular_samples(last_locking_date, expiry) {
        last_locking_date + k * 86_400
    } else {
        expiry
    }
}

impl VeBalanceChart {
    /// The chart holds exactly the samples of the curve of `checkpoint`
    /// between `last_locking_date` and `expiry`.
    pub open spec fn is_decay_graph(
        self,
        last_locking_date: u64,
        expiry: u64,
        checkpoint: Checkpoint,
    ) -> bool {
        &&& self.ts@.len() == regular_samples(last_locking_date as nat, expiry as nat) + 1
        &&& self.ve_balance@.len() == self.ts@.len()
        &&& forall|k: int|
            0 <= k < self.ts@.len() ==> #[trigger] self.ts@[k] == sample_time(
                last_locking_date as nat,
                expiry as nat,
                k as nat,
            )
        &&& forall|k: int|
            0 <= k < self.ts@.len() ==> #[trigger] self.ve_balance@[k] == balance_at(
                checkpoint.bias as nat,
                checkpoint.slope as nat,
                self.ts@[k] as nat,
            )
    }

    /// Samples the decay curve once a day from `last_locking_date` while the
    /// grid lies strictly before `expiry`, and closes with one sample exactly
    /// at `expiry`. A balance that would fall below zero is reported as zero.
    /// With `expiry` at or before `last_locking_date` the chart is the closing
    /// sample alone.
    pub fn get_decay_graph(last_locking_date: u64, expiry: u64, checkpoint: Checkpoint) -> (chart:
        Self)
        ensures
            chart.is_decay_graph(last_locking_date, expiry, checkpoint),
            chart.ts@.last() == expiry,
            last_locking_date < expiry ==> chart.ts@[0] == last_locking_date,
            forall|i: int, j: int|
                0 <= i < j < chart.ts@.len() ==> chart.ts@[i] < chart.ts@[j],
            forall|i: int, j: int|
                0 <= i <= j < chart.ve_balance@.len() ==> chart.ve_balance@[i]
                    >= chart.ve_balance@[j],
    {
        let range: u64 = if last_locking_date < expiry {
            expiry - last_locking_date
        } else {
            0
        };
        let ghost n = regular_samples(last_locking_date as nat, expiry as nat);
        let mut ts: Vec<u64> = Vec::new();
        let mut ve_balance: Vec<u128> = Vec::new();
        let mut i: u64 = 0;
        while i < range
            invariant
                n == regular_samples(last_locking_date as nat, expiry as nat),
                range == if last_locking_date < expiry {
                    expiry - last_locking_date
                } else {
                    0
                },
                ts@.len() == ve_balance@.len(),
                ts@.len() <= n,
                i <= range,
                ts@.len() < n ==> i == ts@.len() * 86_400,
                ts@.len() == n ==> i == range,
                forall|k: int|
                    0 <= k < ts@.len() ==> #[trigger] ts@[k] == sample_time(
                        last_locking_date as nat,
                        expiry as nat,
                        k as nat,
                    ),
                forall|k: int|
                    0 <= k < ts@.len() ==> #[trigger] ve_balance@[k] == balance_at(
                        checkpoint.bias as nat,
                        checkpoint.slope as nat,
                        ts@[k] as nat,
                    ),
            decreases range - i,
        {
            let t: u64 = last_locking_date + i;
            ts.push(t);
            ve_balance.push(balance(&checkpoint, t));
            i = if range - i <= SECONDS_IN_A_DAY {
                range
            } else {
                i + SECONDS_IN_A_DAY
            };
        }
        ts.push(expiry);
        ve_balance.push(balance(&checkpoint, expiry));
        let chart = VeBalanceChart { ts, ve_balance };
        proof {
            assert forall|a: int, b: int| 0 <= a < b < chart.ts@.len() implies chart.ts@[a]
                < chart.ts@[b] by {
                sample_times_increase(last_locking_date as nat, expiry as nat, a as nat, b as nat);
            }
            assert forall|a: int, b: int|
                0 <= a <= b < chart.ve_balance@.len() implies chart.ve_balance@[a]
                >= chart.ve_balance@[b] by {
                decay_curve_non_increasing(
                    last_locking_date as nat,
                    expiry as nat,
                    checkpoint.bias as nat,
                    checkpoint.slope as nat,
                    a as nat,
                    b as nat,
                );
            }
        }
        chart
    }
}

/// The balance of `checkpoint` at instant `t`, clamped at zero.
pub fn balance(checkpoint: &Checkpoint, t: u64) -> (b: u128)
    ensures
        b == balance_at(checkpoint.bias as nat, checkpoint.slope as nat, t as nat),
{
    match checkpoint.slope.checked_mul(t as u128) {
        Some(decayed) => if decayed <= checkpoint.bias {
            checkpoint.bias - decayed
        } else {
            0
        },
        None => 0,
    }
}

/// Later instants never carry a larger balance.
pub proof fn balance_non_increasing(bias: nat, slope: nat, t1: nat, t2: nat)
    requires
        t1 <= t2,
    ensures
        balance_at(bias, slope, t1) >= balance_at(bias, slope, t2),
{
    assert(slope * t1 <= slope * t2) by (nonlinear_arith)
        requires
            t1 <= t2,
    ;
}

/// Sample instants strictly increase with the sample's position.
pub proof fn sample_times_increase(last_locking_date: nat, expiry: nat, i: nat, j: nat)
    requires
        i < j <= regular_samples(last_locking_date, expiry),
    ensures
        sample_time(last_locking_date, expiry, i) < sample_time(last_locking_date, expiry, j),
{
}

/// Successive samples of a decay curve carry non-increasing balances,
/// whatever the slope.
pub proof fn decay_curve_non_increasing(
    last_locking_date: nat,
    expiry: nat,
    bias: nat,
    slope: nat,
    i: nat,
    j: nat,
)
    requires
        i <= j <= regular_samples(last_locking_date, expiry),
    ensures
        balance_at(bias, slope, sample_time(last_locking_date, expiry, i)) >= balance_at(
            bias,
            slope,
            sample_time(last_locking_date, expiry, j),
        ),
{
    if i < j {
        sample_times_increase(last_locking_date, expiry, i, j);
    }
    balance_non_increasing(
        bias,
        slope,
        sample_time(last_locking_date, expiry, i),
        sample_time(last_locking_date, expiry, j),
    );
}

} // verus!
