//! The supported chains, their families and their fixed tables.
use vstd::prelude::*;

use crate::derivation::Curve;
use crate::encoding::same_text;
use crate::error::WalletError;

verus! {

/// A chain identifier as callers name it; several are aliases of one family.
#[derive(Debug, Clone, Copy, PartialEq, Eq, Structural)]
pub enum WalletType {
    Eth,
    Btc,
    Sol,
    Polygon,
    Avax,
    Bitcoin,
    Ethereum,
    Litecoin,
    Dogecoin,
}

/// The families that share a curve and an address scheme.
#[derive(Debug, Clone, Copy, PartialEq, Eq, Structural)]
pub enum ChainFamily {
    Evm,
    BitcoinLike,
    Solana,
}

impl ChainFamily {
    /// The curve whose keys this family encodes.
    pub open spec fn spec_curve(self) -> Curve {
        match self {
            ChainFamily::Solana => Curve::Ed25519,
            _ => Curve::Secp256k1,
        }
    }

    /// The curve whose keys this family encodes.
    pub fn curve(&self) -> (r: Curve)
        ensures
            r == self.spec_curve(),
    {
        match self {
            ChainFamily::Solana => Curve::Ed25519,
            _ => Curve::Secp256k1,
        }
    }
}

impl WalletType {
    /// The family of this chain.
    pub open spec fn spec_family(self) -> ChainFamily {
        match self {
            WalletType::Eth | WalletType::Ethereum | WalletType::Polygon | WalletType::Avax => ChainFamily::Evm,
            WalletType::Btc | WalletType::Bitcoin | WalletType::Litecoin | WalletType::Dogecoin => ChainFamily::BitcoinLike,
            WalletType::Sol => ChainFamily::Solana,
        }
    }

    /// The family of this chain.
    pub fn family(&self) -> (r: ChainFamily)
        ensures
            r == self.spec_family(),
    {
        match self {
            WalletType::Eth | WalletType::Ethereum | WalletType::Polygon | WalletType::Avax => ChainFamily::Evm,
            WalletType::Btc | WalletType::Bitcoin | WalletType::Litecoin | WalletType::Dogecoin => ChainFamily::BitcoinLike,
            WalletType::Sol => ChainFamily::Solana,
        }
    }

    /// The version byte of pay-to-public-key-hash addresses on this chain's mainnet.
    pub open spec fn spec_p2pkh_version(self) -> u8 {
        match self {
            WalletType::Litecoin => 0x30,
            WalletType::Dogecoin => 0x1e,
            _ => 0x00,
        }
    }

    /// The version byte of pay-to-public-key-hash addresses on this chain's mainnet.
    pub fn p2pkh_version(&self) -> (r: u8)
        ensures
            r == self.spec_p2pkh_version(),
    {
        match self {
            WalletType::Litecoin => 0x30,
            WalletType::Dogecoin => 0x1e,
            _ => 0x00,
        }
    }

    /// The identifier by which callers name this chain.
    pub open spec fn spec_name(self) -> Seq<char> {
        match self {
            WalletType::Eth => "eth"@,
            WalletType::Btc => "btc"@,
            WalletType::Sol => "sol"@,
            WalletType::Polygon => "polygon"@,
            WalletType::Avax => "avax"@,
            WalletType::Bitcoin => "bitcoin"@,
            WalletType::Ethereum => "ethereum"@,
            WalletType::Litecoin => "litecoin"@,
            WalletType::Dogecoin => "dogecoin"@,
        }
    }

    /// The identifier by which callers name this chain.
    pub fn as_str(&self) -> (r: &'static str)
        ensures
            r@ == self.spec_name(),
    {
        match self {
            WalletType::Eth => "eth",
            WalletType::Btc => "btc",
            WalletType::Sol => "sol",
            WalletType::Polygon => "polygon",
            WalletType::Avax => "avax",
            WalletType::Bitcoin => "bitcoin",
            WalletType::Ethereum => "ethereum",
            WalletType::Litecoin => "litecoin",
            WalletType::Dogecoin => "dogecoin",
        }
    }

    /// The identifier by which callers name this chain, as an owned string.
    pub fn to_string(&self) -> (r: String)
        ensures
            r@ == self.spec_name(),
    {
        self.as_str().to_owned()
    }

    /// The human-readable mainnet name.
    pub open spec fn spec_network(self) -> Seq<char> {
        match self {
            WalletType::Eth | WalletType::Ethereum => "Ethereum Mainnet"@,
            WalletType::Btc | WalletType::Bitcoin => "Bitcoin Mainnet"@,
            WalletType::Sol => "Solana Mainnet"@,
            WalletType::Polygon => "Polygon Mainnet"@,
            WalletType::Avax => "Avalanche Mainnet"@,
            WalletType::Litecoin => "Litecoin Mainnet"@,
            WalletType::Dogecoin => "Dogecoin Mainnet"@,
        }
    }

    /// The human-readable mainnet name.
    pub fn network_label(&self) -> (r: String)
        ensures
            r@ == self.spec_network(),
    {
        let label = match self {
            WalletType::Eth | WalletType::Ethereum => "Ethereum Mainnet",
            WalletType::Btc | WalletType::Bitcoin => "Bitcoin Mainnet",
            WalletType::Sol => "Solana Mainnet",
            WalletType::Polygon => "Polygon Mainnet",
            WalletType::Avax => "Avalanche Mainnet",
            WalletType::Litecoin => "Litecoin Mainnet",
            WalletType::Dogecoin => "Dogecoin Mainnet",
        };
        label.to_owned()
    }

    /// The chain that `name` identifies.
    pub open spec fn spec_parse(name: Seq<char>) -> Result<WalletType, WalletError> {
        if name == "eth"@ {
            Ok(WalletType::Eth)
        } else if name == "btc"@ {
            Ok(WalletType::Btc)
        } else if name == "sol"@ {
            Ok(WalletType::Sol)
        } else if name == "polygon"@ {
            Ok(WalletType::Polygon)
        } else if name == "avax"@ {
            Ok(WalletType::Avax)
        } else if name == "bitcoin"@ {
            Ok(WalletType::Bitcoin)
        } else if name == "ethereum"@ {
            Ok(WalletType::Ethereum)
        } else if name == "litecoin"@ {
            Ok(WalletType::Litecoin)
        } else if name == "dogecoin"@ {
            Ok(WalletType::Dogecoin)
        } else {
            Err(WalletError::UnsupportedChain)
        }
    }

    /// The chain that `name` identifies; `UnsupportedChain` for any other text.
    pub fn parse(name: &str) -> (r: Result<WalletType, WalletError>)
        ensures
            r == Self::spec_parse(name@),
            r matches Ok(t) ==> t.spec_name() == name@,
    {
        if same_text(name, "eth") {
            Ok(WalletType::Eth)
        } else if same_text(name, "btc") {
            Ok(WalletType::Btc)
        } else if same_text(name, "sol") {
            Ok(WalletType::Sol)
        } else if same_text(name, "polygon") {
            Ok(WalletType::Polygon)
        } else if same_text(name, "avax") {
            Ok(WalletType::Avax)
        } else if same_text(name, "bitcoin") {
            Ok(WalletType::Bitcoin)
        } else if same_text(name, "ethereum") {
            Ok(WalletType::Ethereum)
        } else if same_text(name, "litecoin") {
            Ok(WalletType::Litecoin)
        } else if same_text(name, "dogecoin") {
            Ok(WalletType::Dogecoin)
        } else {
            Err(WalletError::UnsupportedChain)
        }
    }
}

/// Naming a chain and parsing the name gives the chain back.
pub proof fn law_chain_name_round_trip(t: WalletType)
    ensures
        WalletType::spec_parse(t.spec_name()) == Ok::<WalletType, WalletError>(t),
{
    reveal_strlit("eth");
    assert("eth"@.len() == 3 && "eth"@[0] == 'e');
    reveal_strlit("btc");
    assert("btc"@.len() == 3 && "btc"@[0] == 'b');
    reveal_strlit("sol");
    assert("sol"@.len() == 3 && "sol"@[0] == 's');
    reveal_strlit("polygon");
    assert("polygon"@.len() == 7 && "polygon"@[0] == 'p');
    reveal_strlit("avax");
    assert("avax"@.len() == 4 && "avax"@[0] == 'a');
    reveal_strlit("bitcoin");
    assert("bitcoin"@.len() == 7 && "bitcoin"@[0] == 'b');
    reveal_strlit("ethereum");
    assert("ethereum"@.len() == 8 && "ethereum"@[0] == 'e');
    reveal_strlit("litecoin");
    assert("litecoin"@.len() == 8 && "litecoin"@[0] == 'l');
    reveal_strlit("dogecoin");
    assert("dogecoin"@.len() == 8 && "dogecoin"@[0] == 'd');
}

} // verus!
