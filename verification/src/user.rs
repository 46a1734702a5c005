//! One user's figures: which reads to batch for them, and how the flat list
//! of results is laid out by asset.

use crate::primitives::{Address, Amount};
use vstd::prelude::*;

verus! {

/// A per-asset figure of a user that the governance module reports.
#[derive(Clone, Copy, Debug, PartialEq, Eq)]
pub enum GovernanceField {
    /// The user's balance of the asset's staked token.
    StrsyBalance,
    /// What the user's proxy holds of the asset.
    ProxyBalance,
    /// The voting rights that the user may claim for the asset.
    UserGtAllowance,
}

/// One read of the governance module.
#[derive(Clone, Copy, Debug, PartialEq, Eq)]
pub struct GovernanceRead {
    pub field: GovernanceField,
    pub asset: Address,
}

/// An asset with the amount that belongs to it.
#[derive(Clone, Copy, Debug, PartialEq, Eq)]
pub struct AssetAmount {
    pub asset: Address,
    pub amount: Amount,
}

/// A user's governance figures, each as a list by asset in the order of the
/// assets asked for. Read as a mapping, a later entry of a list overrides an
/// earlier one for the same asset.
#[derive(Debug)]
pub struct GovernanceData {
    pub st_trsy_balance: Vec<AssetAmount>,
    pub current_governance_rights: Vec<AssetAmount>,
    pub total_voting_rights: Vec<AssetAmount>,
}

/// The field read at place `k` of an asset's three reads.
pub open spec fn field_at(k: int) -> GovernanceField {
    if k == 0 {
        GovernanceField::StrsyBalance
    } else if k == 1 {
        GovernanceField::ProxyBalance
    } else {
        GovernanceField::UserGtAllowance
    }
}

/// The reads to batch for `assets`: three for each asset, asset by asset, in
/// the order staked balance, proxy balance, voting-rights allowance.
pub open spec fn governance_plan(assets: Seq<Address>) -> Seq<GovernanceRead> {
    Seq::new(
        3 * assets.len(),
        |j: int| GovernanceRead { field: field_at(j % 3), asset: assets[j / 3] },
    )
}

/// Each asset paired with the result at `offset` among its `stride` results.
pub open spec fn every_nth(
    assets: Seq<Address>,
    results: Seq<Amount>,
    stride: int,
    offset: int,
) -> Seq<AssetAmount> {
    Seq::new(
        assets.len(),
        |i: int| AssetAmount { asset: assets[i], amount: results[stride * i + offset] },
    )
}

/// The reads to batch for a user's governance figures.
pub fn governance_reads(assets_in_gov: &Vec<Address>) -> (reads: Vec<GovernanceRead>)
    ensures
        reads@ == governance_plan(assets_in_gov@),
{
    let mut reads: Vec<GovernanceRead> = Vec::new();
    let mut i: usize = 0;
    while i < assets_in_gov.len()
        invariant
            i <= assets_in_gov.len(),
            reads@.len() == 3 * i,
            forall|j: int|
                0 <= j < 3 * i ==> #[trigger] reads@[j] == (GovernanceRead {
                    field: field_at(j % 3),
                    asset: assets_in_gov@[j / 3],
                }),
        decreases assets_in_gov.len() - i,
    {
        let asset = assets_in_gov[i];
        reads.push(GovernanceRead { field: GovernanceField::StrsyBalance, asset });
        reads.push(GovernanceRead { field: GovernanceField::ProxyBalance, asset });
        reads.push(GovernanceRead { field: GovernanceField::UserGtAllowance, asset });
        i += 1;
    }
    assert(reads@ =~= governance_plan(assets_in_gov@));
    reads
}

/// Pairs each asset with the result at `offset` among its `stride` results.
/// `None` where the results do not reach that far.
fn pair_every_nth(
    assets: &Vec<Address>,
    results: &Vec<Amount>,
    stride: usize,
    offset: usize,
) -> (pairs: Option<Vec<AssetAmount>>)
    requires
        offset < stride,
    ensures
        match pairs {
            Some(list) => stride * assets@.len() <= results@.len() && list@ == every_nth(
                assets@,
                results@,
                stride as int,
                offset as int,
            ),
            None => stride * assets@.len() > results@.len(),
        },
{
    let mut list: Vec<AssetAmount> = Vec::new();
    let mut i: usize = 0;
    let mut at: usize = 0;
    while i < assets.len()
        invariant
            i <= assets.len(),
            offset < stride,
            at == stride * i,
            at <= results.len(),
            list@.len() == i,
            forall|k: int|
                0 <= k < i ==> #[trigger] list@[k] == (AssetAmount {
                    asset: assets@[k],
                    amount: results@[stride * k + offset],
                }),
        decreases assets.len() - i,
    {
        if results.len() - at < stride {
            proof {
                assert(stride * assets@.len() >= stride * (i + 1)) by (nonlinear_arith)
                    requires
                        i + 1 <= assets@.len(),
                        stride >= 0,
                ;
                assert(stride * (i + 1) == stride * i + stride) by (nonlinear_arith);
            }
            return None;
        }
        list.push(AssetAmount { asset: assets[i], amount: results[at + offset] });
        proof {
            assert(stride * (i + 1) == stride * i + stride) by (nonlinear_arith);
        }
        at += stride;
        i += 1;
    }
    assert(list@ =~= every_nth(assets@, results@, stride as int, offset as int));
    Some(list)
}

/// Pairs each asset with the result at its position: the layout of a batch
/// of one read per asset, as for balances and allowances. `None` where there
/// are fewer results than assets.
pub fn pair_results(assets: &Vec<Address>, results: &Vec<Amount>) -> (pairs: Option<
    Vec<AssetAmount>,
>)
    ensures
        match pairs {
            Some(list) => assets@.len() <= results@.len() && list@ == every_nth(
                assets@,
                results@,
                1,
                0,
            ),
            None => assets@.len() > results@.len(),
        },
{
    pair_every_nth(assets, results, 1, 0)
}

/// The proxy that the governance module names for a user; the zero address
/// stands for "none".
pub fn proxy_of(address: Address) -> (proxy: Option<Address>)
    ensures
        proxy == if address.is_zero_spec() {
            None
        } else {
            Some(address)
        },
{
    if address.is_zero() {
        None
    } else {
        Some(address)
    }
}

impl GovernanceData {
    /// The results of the reads of `governance_plan` laid out by figure.
    pub open spec fn lays_out(self, assets: Seq<Address>, results: Seq<Amount>) -> bool {
        &&& self.st_trsy_balance@ == every_nth(assets, results, 3, 0)
        &&& self.current_governance_rights@ == every_nth(assets, results, 3, 1)
        &&& self.total_voting_rights@ == every_nth(assets, results, 3, 2)
    }

    /// Lays out the results of the reads that `governance_reads` plans:
    /// result `3 * i` is the staked balance for asset `i`, result `3 * i + 1`
    /// its current governance rights, result `3 * i + 2` its total voting
    /// rights. `None` where there are fewer than three results per asset.
    pub fn from_results(assets_in_gov: &Vec<Address>, res: &Vec<Amount>) -> (data: Option<
        GovernanceData,
    >)
        ensures
            match data {
                Some(d) => 3 * assets_in_gov@.len() <= res@.len() && d.lays_out(
                    assets_in_gov@,
                    res@,
                ),
                None => 3 * assets_in_gov@.len() > res@.len(),
            },
    {
        let st_trsy_balance = match pair_every_nth(assets_in_gov, res, 3, 0) {
            Some(list) => list,
            None => {
                return None;
            },
        };
        let current_governance_rights = match pair_every_nth(assets_in_gov, res, 3, 1) {
            Some(list) => list,
            None => {
                return None;
            },
        };
        let total_voting_rights = match pair_every_nth(assets_in_gov, res, 3, 2) {
            Some(list) => list,
            None => {
                return None;
            },
        };
        Some(GovernanceData { st_trsy_balance, current_governance_rights, total_voting_rights })
    }
}

} // verus!
