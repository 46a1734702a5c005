//! The networks on which the protocol is deployed, and where its contracts
//! live on each.

use crate::primitives::Address;
use vstd::prelude::*;

verus! {

/// A network that the protocol is deployed on.
#[derive(Debug, Clone, Copy, PartialEq, Eq)]
pub enum Chain {
    Mainnet,
    Sepolia,
}

impl Chain {
    /// The network that goes by `name`: the names are `Mainnet` and
    /// `Sepolia`, spelled exactly so.
    pub open spec fn named(name: Seq<char>) -> Option<Chain> {
        if name == "Mainnet"@ {
            Some(Chain::Mainnet)
        } else if name == "Sepolia"@ {
            Some(Chain::Sepolia)
        } else {
            None
        }
    }

    /// Reads a network's name.
    pub fn parse(s: &str) -> (r: Option<Chain>)
        ensures
            r == Chain::named(s@),
    {
        let name: String = s.to_owned();
        if name == "Mainnet".to_owned() {
            Some(Chain::Mainnet)
        } else if name == "Sepolia".to_owned() {
            Some(Chain::Sepolia)
        } else {
            None
        }
    }
}

impl std::str::FromStr for Chain {
    type Err = ();

    /// Reads a network's name as `Chain::parse` does.
    fn from_str(s: &str) -> (r: Result<Self, Self::Err>)
        ensures
            r == match Chain::named(s@) {
                Some(chain) => Ok::<Chain, ()>(chain),
                None => Err::<Chain, ()>(()),
            },
    {
        match Chain::parse(s) {
            Some(chain) => Ok(chain),
            None => Err(()),
        }
    }
}

/// The address of the liquid vault on Mainnet.
pub const MAINNET_LIQUID_VAULT: [u8; 20] = [
    0x87, 0xcc, 0x45, 0xff, 0xf5, 0xc0, 0x93, 0x3b, 0xb6, 0xaf,
    0x6b, 0xae, 0x7f, 0xc0, 0x13, 0xb7, 0xec, 0x7d, 0xf2, 0xee,
];

/// The address of the relayer on Mainnet.
pub const MAINNET_RELAYER: [u8; 20] = [
    0x68, 0x30, 0xc6, 0x1d, 0xf1, 0x03, 0x94, 0x6b, 0x63, 0xc7,
    0x86, 0xe6, 0x32, 0x22, 0xc5, 0x96, 0x77, 0xf3, 0x20, 0x78,
];

/// The address of the tax module on Mainnet.
pub const MAINNET_TAX_MODULE: [u8; 20] = [
    0x35, 0xaf, 0xe5, 0x2b, 0xdd, 0xed, 0xbc, 0x9b, 0xbe, 0x53,
    0xaf, 0x11, 0x95, 0x68, 0x26, 0x4d, 0xa0, 0x0a, 0x70, 0xd3,
];

/// The address of the governance module on Mainnet.
pub const MAINNET_GOVERNANCE_MODULE: [u8; 20] = [
    0xc6, 0xf5, 0x09, 0x03, 0xa0, 0x58, 0xf3, 0x80, 0x71, 0x11,
    0x61, 0x9b, 0xd4, 0xb2, 0x4c, 0xa6, 0x4b, 0x82, 0x39, 0xe1,
];

/// The address of the oracle module on Mainnet.
pub const MAINNET_ORACLE_MODULE: [u8; 20] = [
    0xe8, 0xe4, 0x0f, 0xd4, 0xdd, 0xab, 0x26, 0xb4, 0x4b, 0x1f,
    0xb2, 0xd6, 0xd7, 0x38, 0x33, 0xcb, 0x0a, 0x33, 0xb7, 0x36,
];

/// The address of the staking contract of the share token on Mainnet.
pub const MAINNET_STAKING_TRSY: [u8; 20] = [
    0x6c, 0x74, 0x41, 0xc7, 0x6d, 0x85, 0xd7, 0xab, 0x43, 0xea,
    0xcd, 0x07, 0x6d, 0x37, 0xb0, 0x77, 0x5f, 0x5c, 0x32, 0xf7,
];

/// The address of the staking contract of restaked ether on Mainnet.
pub const MAINNET_STAKING_LRT: [u8; 20] = [
    0x3f, 0x69, 0xf6, 0x2e, 0x25, 0x44, 0x1c, 0xf7, 0x2e, 0x36,
    0x25, 0x08, 0xf4, 0xd6, 0x71, 0x1d, 0x53, 0xb0, 0x53, 0x41,
];

/// The address of the reward distribution of restaked ether on Mainnet.
pub const MAINNET_LRT_REWARD_DISTRIBUTION: [u8; 20] = [
    0x99, 0x62, 0x88, 0x25, 0x15, 0x67, 0x46, 0xfb, 0xab, 0xc2,
    0x81, 0x9d, 0x20, 0x2e, 0xe3, 0x0e, 0xcb, 0x3c, 0x71, 0xa6,
];

/// The address of wrapped ether on Mainnet.
pub const MAINNET_WETH: [u8; 20] = [
    0xc0, 0x2a, 0xaa, 0x39, 0xb2, 0x23, 0xfe, 0x8d, 0x0a, 0x0e,
    0x5c, 0x4f, 0x27, 0xea, 0xd9, 0x08, 0x3c, 0x75, 0x6c, 0xc2,
];

/// The address of the protocol token on Mainnet.
pub const MAINNET_FYDE_TOKEN: [u8; 20] = [
    0xdd, 0xe7, 0x36, 0x83, 0x7c, 0x7c, 0x27, 0x5a, 0x95, 0x2a,
    0x52, 0xee, 0x11, 0xfa, 0xce, 0x88, 0xad, 0xde, 0x67, 0x11,
];

/// The address of the vote escrow on Mainnet.
pub const MAINNET_VOTE_ESCROW: [u8; 20] = [
    0x9b, 0x36, 0x92, 0x02, 0xff, 0x14, 0x7b, 0x54, 0xea, 0x70,
    0x92, 0xbc, 0x94, 0x42, 0x5c, 0x78, 0x10, 0x94, 0xdb, 0xde,
];

/// The address of the distributor of revenue to locked voting power on Mainnet.
pub const MAINNET_VEFYDE_FEE_DISTRIBUTOR: [u8; 20] = [
    0x41, 0xb9, 0x11, 0x28, 0x6e, 0x63, 0xc5, 0x08, 0x34, 0x5b,
    0xa5, 0x81, 0xd7, 0x59, 0x28, 0xec, 0xe4, 0xa0, 0xf5, 0x43,
];

/// The address of the staked share token on Mainnet.
pub const MAINNET_STRSY: [u8; 20] = [
    0xe1, 0x1d, 0xf8, 0xc0, 0xe9, 0xb5, 0x69, 0x7b, 0xd3, 0x15,
    0x15, 0xd0, 0xfc, 0x5f, 0x4c, 0x9b, 0xd7, 0x15, 0x66, 0xb9,
];

/// The address of the liquid vault on Sepolia.
pub const SEPOLIA_LIQUID_VAULT: [u8; 20] = [
    0x92, 0x2b, 0x05, 0x49, 0x98, 0x3b, 0xf4, 0x0c, 0x93, 0x9c,
    0x6b, 0x66, 0x99, 0x6f, 0xf6, 0x1d, 0x14, 0x0f, 0x14, 0x55,
];

/// The address of the relayer on Sepolia.
pub const SEPOLIA_RELAYER: [u8; 20] = [
    0xf1, 0xb7, 0x93, 0xd8, 0xa2, 0x2c, 0x2a, 0xe7, 0xe3, 0xad,
    0x1e, 0xb5, 0x78, 0xec, 0x7f, 0xb6, 0xcd, 0xb1, 0x5e, 0xf9,
];

/// The address of the tax module on Sepolia.
pub const SEPOLIA_TAX_MODULE: [u8; 20] = [
    0x18, 0xe8, 0x2d, 0xab, 0xb3, 0xff, 0xc0, 0x6f, 0x8b, 0xb8,
    0x38, 0xe6, 0x63, 0xe8, 0x83, 0x74, 0xba, 0x27, 0x1c, 0xeb,
];

/// The address of the governance module on Sepolia.
pub const SEPOLIA_GOVERNANCE_MODULE: [u8; 20] = [
    0xe5, 0x90, 0x5b, 0xda, 0x71, 0xcc, 0xac, 0xe9, 0x71, 0x1e,
    0xa3, 0x6c, 0x22, 0x45, 0xd8, 0xca, 0x23, 0x15, 0x12, 0xa9,
];

/// The address of the oracle module on Sepolia.
pub const SEPOLIA_ORACLE_MODULE: [u8; 20] = [
    0x4b, 0xdd, 0x43, 0x70, 0x29, 0xd9, 0xa9, 0x09, 0x53, 0x49,
    0xb4, 0x1e, 0x83, 0x7c, 0xbc, 0xa8, 0x71, 0xf8, 0x47, 0x01,
];

/// The address of the staking contract of the share token on Sepolia.
pub const SEPOLIA_STAKING_TRSY: [u8; 20] = [
    0xef, 0xc7, 0xcc, 0x6d, 0x8b, 0x7a, 0x2e, 0x43, 0xa1, 0xa6,
    0x5a, 0x7c, 0xed, 0x1e, 0x53, 0xf5, 0x55, 0x46, 0x6e, 0x17,
];

/// The address of the staking contract of restaked ether on Sepolia.
pub const SEPOLIA_STAKING_LRT: [u8; 20] = [
    0xa9, 0x8a, 0x16, 0xc7, 0xfb, 0xc2, 0x38, 0xe8, 0x3b, 0x7d,
    0x22, 0x52, 0x87, 0x82, 0x1c, 0x3f, 0x6e, 0x85, 0xe0, 0xcf,
];

/// The address of the reward distribution of restaked ether on Sepolia.
pub const SEPOLIA_LRT_REWARD_DISTRIBUTION: [u8; 20] = [
    0x11, 0x68, 0x89, 0x0f, 0x6b, 0xa9, 0x6a, 0xcc, 0x52, 0x3f,
    0x0c, 0x6d, 0x02, 0x10, 0xeb, 0xb6, 0xb4, 0x05, 0x80, 0xa9,
];

/// The address of wrapped ether on Sepolia.
pub const SEPOLIA_WETH: [u8; 20] = [
    0xae, 0xb1, 0x22, 0xa5, 0xed, 0x6c, 0xa3, 0xca, 0xb6, 0xc4,
    0x2d, 0x68, 0x67, 0xaf, 0xbf, 0xe5, 0x82, 0xdb, 0x87, 0x61,
];

/// The address of the protocol token on Sepolia.
pub const SEPOLIA_FYDE_TOKEN: [u8; 20] = [
    0xbf, 0x2d, 0xbb, 0x0f, 0x7c, 0x90, 0xba, 0xc0, 0x51, 0xda,
    0x1e, 0x6e, 0xf9, 0xa8, 0x36, 0xb6, 0x75, 0xb8, 0x3c, 0x02,
];

/// The address of the vote escrow on Sepolia.
pub const SEPOLIA_VOTE_ESCROW: [u8; 20] = [
    0x2a, 0x26, 0xd7, 0xf7, 0x1a, 0x0d, 0xbb, 0x60, 0x0a, 0x31,
    0x71, 0x60, 0xe4, 0x26, 0x32, 0x40, 0x8d, 0x0e, 0xe6, 0xeb,
];

/// The address of the distributor of revenue to locked voting power on Sepolia.
pub const SEPOLIA_VEFYDE_FEE_DISTRIBUTOR: [u8; 20] = [
    0x27, 0xb7, 0x0b, 0x78, 0xe5, 0xa5, 0xbf, 0x42, 0xe6, 0x89,
    0x3f, 0xbd, 0xba, 0xcd, 0x04, 0x88, 0x52, 0xe8, 0x70, 0x77,
];

/// The address of the staked share token on Sepolia.
pub const SEPOLIA_STRSY: [u8; 20] = [
    0xf8, 0x12, 0x03, 0xd4, 0xda, 0x69, 0x82, 0x36, 0x09, 0xca,
    0x74, 0xde, 0xd2, 0x22, 0xce, 0x76, 0x02, 0x7a, 0x81, 0xcb,
];

/// The addresses of the protocol's contracts on one network.
#[derive(Debug, Clone, Copy, PartialEq, Eq)]
pub struct AddressList {
    pub liquid_vault: Address,
    pub relayer: Address,
    pub tax_module: Address,
    pub governance_module: Address,
    pub oracle_module: Address,
    pub staking_trsy: Address,
    pub staking_lrt: Address,
    pub lrt_reward_distribution: Address,
    pub weth: Address,
    pub fyde_token: Address,
    pub vote_escrow: Address,
    pub vefyde_fee_distributor: Address,
    pub strsy: Address,
}

impl AddressList {
    /// The protocol's contracts on Mainnet.
    pub open spec fn mainnet_list() -> AddressList {
        AddressList {
            liquid_vault: Address { bytes: MAINNET_LIQUID_VAULT },
            relayer: Address { bytes: MAINNET_RELAYER },
            tax_module: Address { bytes: MAINNET_TAX_MODULE },
            governance_module: Address { bytes: MAINNET_GOVERNANCE_MODULE },
            oracle_module: Address { bytes: MAINNET_ORACLE_MODULE },
            staking_trsy: Address { bytes: MAINNET_STAKING_TRSY },
            staking_lrt: Address { bytes: MAINNET_STAKING_LRT },
            lrt_reward_distribution: Address { bytes: MAINNET_LRT_REWARD_DISTRIBUTION },
            weth: Address { bytes: MAINNET_WETH },
            fyde_token: Address { bytes: MAINNET_FYDE_TOKEN },
            vote_escrow: Address { bytes: MAINNET_VOTE_ESCROW },
            vefyde_fee_distributor: Address { bytes: MAINNET_VEFYDE_FEE_DISTRIBUTOR },
            strsy: Address { bytes: MAINNET_STRSY },
        }
    }

    /// The protocol's contracts on Sepolia.
    pub open spec fn sepolia_list() -> AddressList {
        AddressList {
            liquid_vault: Address { bytes: SEPOLIA_LIQUID_VAULT },
            relayer: Address { bytes: SEPOLIA_RELAYER },
            tax_module: Address { bytes: SEPOLIA_TAX_MODULE },
            governance_module: Address { bytes: SEPOLIA_GOVERNANCE_MODULE },
            oracle_module: Address { bytes: SEPOLIA_ORACLE_MODULE },
            staking_trsy: Address { bytes: SEPOLIA_STAKING_TRSY },
            staking_lrt: Address { bytes: SEPOLIA_STAKING_LRT },
            lrt_reward_distribution: Address { bytes: SEPOLIA_LRT_REWARD_DISTRIBUTION },
            weth: Address { bytes: SEPOLIA_WETH },
            fyde_token: Address { bytes: SEPOLIA_FYDE_TOKEN },
            vote_escrow: Address { bytes: SEPOLIA_VOTE_ESCROW },
            vefyde_fee_distributor: Address { bytes: SEPOLIA_VEFYDE_FEE_DISTRIBUTOR },
            strsy: Address { bytes: SEPOLIA_STRSY },
        }
    }

    /// The protocol's contracts on `chain`.
    pub fn new(chain: &Chain) -> (list: Self)
        ensures
            list == match *chain {
                Chain::Mainnet => Self::mainnet_list(),
                Chain::Sepolia => Self::sepolia_list(),
            },
    {
        match chain {
            Chain::Mainnet => Self::mainnet(),
            Chain::Sepolia => Self::sepolia(),
        }
    }

    /// The protocol's contracts on Mainnet.
    pub fn mainnet() -> (list: Self)
        ensures
            list == Self::mainnet_list(),
    {
        Self {
            liquid_vault: Address { bytes: MAINNET_LIQUID_VAULT },
            relayer: Address { bytes: MAINNET_RELAYER },
            tax_module: Address { bytes: MAINNET_TAX_MODULE },
            governance_module: Address { bytes: MAINNET_GOVERNANCE_MODULE },
            oracle_module: Address { bytes: MAINNET_ORACLE_MODULE },
            staking_trsy: Address { bytes: MAINNET_STAKING_TRSY },
            staking_lrt: Address { bytes: MAINNET_STAKING_LRT },
            lrt_reward_distribution: Address { bytes: MAINNET_LRT_REWARD_DISTRIBUTION },
            weth: Address { bytes: MAINNET_WETH },
            fyde_token: Address { bytes: MAINNET_FYDE_TOKEN },
            vote_escrow: Address { bytes: MAINNET_VOTE_ESCROW },
            vefyde_fee_distributor: Address { bytes: MAINNET_VEFYDE_FEE_DISTRIBUTOR },
            strsy: Address { bytes: MAINNET_STRSY },
        }
    }

    /// The protocol's contracts on Sepolia.
    pub fn sepolia() -> (list: Self)
        ensures
            list == Self::sepolia_list(),
    {
        Self {
            liquid_vault: Address { bytes: SEPOLIA_LIQUID_VAULT },
            relayer: Address { bytes: SEPOLIA_RELAYER },
            tax_module: Address { bytes: SEPOLIA_TAX_MODULE },
            governance_module: Address { bytes: SEPOLIA_GOVERNANCE_MODULE },
            oracle_module: Address { bytes: SEPOLIA_ORACLE_MODULE },
            staking_trsy: Address { bytes: SEPOLIA_STAKING_TRSY },
            staking_lrt: Address { bytes: SEPOLIA_STAKING_LRT },
            lrt_reward_distribution: Address { bytes: SEPOLIA_LRT_REWARD_DISTRIBUTION },
            weth: Address { bytes: SEPOLIA_WETH },
            fyde_token: Address { bytes: SEPOLIA_FYDE_TOKEN },
            vote_escrow: Address { bytes: SEPOLIA_VOTE_ESCROW },
            vefyde_fee_distributor: Address { bytes: SEPOLIA_VEFYDE_FEE_DISTRIBUTOR },
            strsy: Address { bytes: SEPOLIA_STRSY },
        }
    }
}

} // verus!
