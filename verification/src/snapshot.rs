//! Off-chain governance data: where to ask for it, and how the choices of a
//! proposal are turned into asset addresses.

use crate::chain::Chain;
use vstd::prelude::*;

verus! {

/// One asset as the asset endpoint lists it.
#[derive(Debug, Clone, PartialEq, Eq)]
pub struct AssetFields {
    pub symbol: String,
    pub address: String,
}

/// A space of the voting service.
#[derive(Debug, Clone)]
pub struct Space {
    pub id: String,
    pub name: String,
}

/// The assets that the asset endpoint listed, in its order. As a mapping
/// from symbol to address, a later entry overrides an earlier one with the
/// same symbol.
#[derive(Debug)]
pub struct APIResponse {
    pub symbol_mapping: Vec<AssetFields>,
}

/// The endpoints and the space to use on a network.
#[derive(Debug)]
pub struct SnapshotUrl {
    pub asset_endpoint: String,
    pub snapshot_graphql: String,
    pub space_name: String,
}

impl SnapshotUrl {
    /// The asset endpoint of a network.
    pub open spec fn asset_endpoint_of(chain: Chain) -> Seq<char> {
        match chain {
            Chain::Mainnet => "https://api.fyde.fi/api/assets"@,
            Chain::Sepolia => "https://test.fyde.fi/api/assets"@,
        }
    }

    /// The GraphQL endpoint of the voting service for a network.
    pub open spec fn snapshot_graphql_of(chain: Chain) -> Seq<char> {
        match chain {
            Chain::Mainnet => "https://hub.snapshot.org/graphql"@,
            Chain::Sepolia => "https://testnet.hub.snapshot.org/graphql"@,
        }
    }

    /// The voting space, which is the same on every network.
    pub open spec fn space_name_of(chain: Chain) -> Seq<char> {
        "vefyde.eth"@
    }

    /// The endpoints and the space for `chain`.
    pub fn new(chain: Chain) -> (url: Self)
        ensures
            url.asset_endpoint@ == Self::asset_endpoint_of(chain),
            url.snapshot_graphql@ == Self::snapshot_graphql_of(chain),
            url.space_name@ == Self::space_name_of(chain),
    {
        let asset_endpoint = match chain {
            Chain::Mainnet => "https://api.fyde.fi/api/assets",
            Chain::Sepolia => "https://test.fyde.fi/api/assets",
        };

        let snapshot_graphql = match chain {
            Chain::Mainnet => "https://hub.snapshot.org/graphql",
            Chain::Sepolia => "https://testnet.hub.snapshot.org/graphql",
        };

        let space_name = match chain {
            Chain::Mainnet => "vefyde.eth",
            Chain::Sepolia => "vefyde.eth",
        };

        Self {
            asset_endpoint: asset_endpoint.to_owned(),
            snapshot_graphql: snapshot_graphql.to_owned(),
            space_name: space_name.to_owned(),
        }
    }
}

/// The mapping that a list of assets stands for: each symbol with the address
/// of the last entry that carries it.
pub open spec fn symbol_map(entries: Seq<AssetFields>) -> Map<Seq<char>, Seq<char>>
    decreases entries.len(),
{
    if entries.len() == 0 {
        Map::empty()
    } else {
        symbol_map(entries.drop_last()).insert(entries.last().symbol@, entries.last().address@)
    }
}

/// A symbol that no entry carries is not in the mapping.
pub proof fn absent_symbol_is_unmapped(entries: Seq<AssetFields>, symbol: Seq<char>)
    requires
        forall|k: int| 0 <= k < entries.len() ==> (#[trigger] entries[k]).symbol@ != symbol,
    ensures
        !symbol_map(entries).contains_key(symbol),
    decreases entries.len(),
{
    if entries.len() > 0 {
        let rest = entries.drop_last();
        assert forall|k: int| 0 <= k < rest.len() implies (#[trigger] rest[k]).symbol@
            != symbol by {
            assert(rest[k] == entries[k]);
        }
        absent_symbol_is_unmapped(rest, symbol);
        assert(entries.last() == entries[entries.len() - 1]);
    }
}

/// A symbol is mapped to the address of the last entry that carries it.
pub proof fn last_entry_wins(entries: Seq<AssetFields>, symbol: Seq<char>, at: int)
    requires
        0 <= at < entries.len(),
        entries[at].symbol@ == symbol,
        forall|k: int| at < k < entries.len() ==> (#[trigger] entries[k]).symbol@ != symbol,
    ensures
        symbol_map(entries).contains_key(symbol),
        symbol_map(entries)[symbol] == entries[at].address@,
    decreases entries.len(),
{
    let rest = entries.drop_last();
    if at < entries.len() - 1 {
        assert(entries.last() == entries[entries.len() - 1]);
        assert(rest[at] == entries[at]);
        assert forall|k: int| at < k < rest.len() implies (#[trigger] rest[k]).symbol@
            != symbol by {
            assert(rest[k] == entries[k]);
        }
        last_entry_wins(rest, symbol, at);
    }
}

impl APIResponse {
    /// The mapping from symbol to address that the response stands for.
    pub open spec fn mapping(self) -> Map<Seq<char>, Seq<char>> {
        symbol_map(self.symbol_mapping@)
    }

    /// The addresses of a proposal's choices, as a specification: defined
    /// where every choice is a listed symbol.
    pub open spec fn resolved(self, choices: Seq<String>) -> Option<Seq<Seq<char>>> {
        if forall|i: int| 0 <= i < choices.len() ==> self.mapping().contains_key(choices[i]@) {
            Some(Seq::new(choices.len(), |i: int| self.mapping()[choices[i]@]))
        } else {
            None
        }
    }

    /// The response that lists `assets`.
    pub fn from_assets(assets: Vec<AssetFields>) -> (r: APIResponse)
        ensures
            r.symbol_mapping@ == assets@,
    {
        APIResponse { symbol_mapping: assets }
    }

    /// The address listed for `symbol`, if any.
    pub fn address_of(&self, symbol: &String) -> (r: Option<String>)
        ensures
            match r {
                Some(address) => self.mapping().contains_key(symbol@) && address@
                    == self.mapping()[symbol@],
                None => !self.mapping().contains_key(symbol@),
            },
    {
        let mut i: usize = self.symbol_mapping.len();
        while i > 0
            invariant
                i <= self.symbol_mapping.len(),
                forall|k: int|
                    i <= k < self.symbol_mapping.len() ==> (#[trigger] self.symbol_mapping@[k]).symbol@
                        != symbol@,
            decreases i,
        {
            i -= 1;
            if self.symbol_mapping[i].symbol == *symbol {
                proof {
                    last_entry_wins(self.symbol_mapping@, symbol@, i as int);
                }
                return Some(self.symbol_mapping[i].address.clone());
            }
        }
        proof {
            absent_symbol_is_unmapped(self.symbol_mapping@, symbol@);
        }
        None
    }

    /// The addresses of a proposal's choices, in the order of the choices;
    /// `None` where a choice is not a listed symbol.
    pub fn resolve_choices(&self, choices: &Vec<String>) -> (r: Option<Vec<String>>)
        ensures
            match r {
                Some(addresses) => self.resolved(choices@) == Some(
                    Seq::new(addresses@.len(), |i: int| addresses@[i]@),
                ),
                None => self.resolved(choices@).is_none(),
            },
    {
        let mut addresses: Vec<String> = Vec::new();
        let mut i: usize = 0;
        while i < choices.len()
            invariant
                i <= choices.len(),
                addresses@.len() == i,
                forall|k: int|
                    0 <= k < i ==> self.mapping().contains_key((#[trigger] choices@[k])@)
                        && addresses@[k]@ == self.mapping()[choices@[k]@],
            decreases choices.len() - i,
        {
            match self.address_of(&choices[i]) {
                Some(address) => {
                    addresses.push(address);
                },
                None => {
                    return None;
                },
            }
            i += 1;
        }
        assert(Seq::new(addresses@.len(), |i: int| addresses@[i]@) =~= Seq::new(
            choices@.len(),
            |i: int| self.mapping()[choices@[i]@],
        ));
        Some(addresses)
    }
}

} // verus!
